//! Text helpers: comparing string slices, reading and writing decimal numbers.

use vstd::prelude::*;
use vstd::string::StringSliceAdditionalSpecFns;
use vstd::utf8::{encode_utf8, encode_utf8_decode_utf8, is_ascii_chars, is_ascii_chars_encode_utf8};

verus! {

/// Whether two string slices hold the same characters.
pub fn str_eq(a: &str, b: &str) -> (same: bool)
    ensures
        same == (a@ == b@),
{
    let x = a.as_bytes();
    let y = b.as_bytes();
    proof {
        // the encoding can be undone, so equal bytes mean equal characters
        encode_utf8_decode_utf8(a@);
        encode_utf8_decode_utf8(b@);
    }
    if x.len() != y.len() {
        return false;
    }
    let mut i: usize = 0;
    while i < x.len()
        invariant
            i <= x.len(),
            x.len() == y.len(),
            x@ == encode_utf8(a@),
            y@ == encode_utf8(b@),
            forall|j: int| 0 <= j < i ==> x@[j] == y@[j],
        decreases x.len() - i,
    {
        if x[i] != y[i] {
            return false;
        }
        i += 1;
    }
    assert(x@ =~= y@);
    true
}

/// The byte of `-` in ASCII.
const MINUS: u8 = 45;

/// The byte of `+` in ASCII.
const PLUS: u8 = 43;

/// The byte of `0` in ASCII.
const ZERO: u8 = 48;

/// The byte of `9` in ASCII.
const NINE: u8 = 57;

/// Whether `c` is one of the ten decimal digits.
pub open spec fn is_digit(c: char) -> bool {
    '0' <= c <= '9'
}

/// The number that the digit `c` stands for.
pub open spec fn digit_value(c: char) -> int {
    c as int - '0' as int
}

/// Whether `s` is made of decimal digits only.
pub open spec fn all_digits(s: Seq<char>) -> bool {
    forall|i: int| 0 <= i < s.len() ==> is_digit(#[trigger] s[i])
}

/// The number that the digit string `s` writes in base ten.
pub open spec fn decimal_value(s: Seq<char>) -> int
    decreases s.len(),
{
    if s.len() == 0 {
        0
    } else {
        10 * decimal_value(s.drop_last()) + digit_value(s.last())
    }
}

/// The integer that `s` writes: an optional `+` or `-`, then one digit or
/// more, and nothing else.
pub open spec fn signed_decimal(s: Seq<char>) -> Option<int> {
    if s.len() == 0 {
        None
    } else {
        let digits = if s[0] == '-' || s[0] == '+' {
            s.skip(1)
        } else {
            s
        };
        if digits.len() == 0 || !all_digits(digits) {
            None
        } else if s[0] == '-' {
            Some(-decimal_value(digits))
        } else {
            Some(decimal_value(digits))
        }
    }
}

/// The 64-bit integer that `s` writes, if it writes one that fits.
pub open spec fn parsed_i64(s: Seq<char>) -> Option<i64> {
    match signed_decimal(s) {
        Some(v) => if i64::MIN <= v <= i64::MAX {
            Some(v as i64)
        } else {
            None
        },
        None => None,
    }
}

/// A digit string is worth at least as much as each of its beginnings.
pub proof fn lemma_decimal_value_grows(s: Seq<char>, k: int)
    requires
        all_digits(s),
        0 <= k <= s.len(),
    ensures
        0 <= decimal_value(s.take(k)) <= decimal_value(s),
    decreases s.len() - k,
{
    if k == s.len() {
        assert(s.take(k) =~= s);
        lemma_decimal_value_nonnegative(s);
    } else {
        lemma_decimal_value_grows(s, k + 1);
        let longer = s.take(k + 1);
        assert(longer.drop_last() =~= s.take(k));
        assert(longer.last() == s[k]);
        assert(is_digit(s[k]));
        assert forall|i: int| 0 <= i < k implies is_digit(#[trigger] s.take(k)[i]) by {
            assert(s.take(k)[i] == s[i]);
        }
        lemma_decimal_value_nonnegative(s.take(k));
    }
}

/// A digit string is worth zero or more.
pub proof fn lemma_decimal_value_nonnegative(s: Seq<char>)
    requires
        all_digits(s),
    ensures
        0 <= decimal_value(s),
    decreases s.len(),
{
    if s.len() > 0 {
        assert forall|i: int| 0 <= i < s.len() - 1 implies is_digit(#[trigger] s.drop_last()[i]) by {
            assert(s.drop_last()[i] == s[i]);
        }
        lemma_decimal_value_nonnegative(s.drop_last());
        assert(is_digit(s.last()));
    }
}

/// Reads a 64-bit integer written in base ten, with an optional sign in front.
/// Anything else in the text, a lone sign, or a number that does not fit gives `None`.
pub fn parse_i64(text: &str) -> (r: Option<i64>)
    ensures
        r == parsed_i64(text@),
{
    let ghost s = text@;
    if !text.is_ascii() {
        proof {
            let i = choose|i: int| 0 <= i < s.len() && !('\0' <= #[trigger] s[i] <= '\u{7f}');
            if s[0] == '-' || s[0] == '+' {
                assert(i > 0);
                assert(s.skip(1)[i - 1] == s[i]);
            }
        }
        return None;
    }
    let bytes = text.as_bytes();
    proof {
        is_ascii_chars_encode_utf8(s);
    }
    let n: usize = bytes.len();
    if n == 0 {
        return None;
    }
    let negative: bool = bytes[0] == MINUS;
    let start: usize = if bytes[0] == MINUS || bytes[0] == PLUS {
        1
    } else {
        0
    };
    let ghost digits = if s[0] == '-' || s[0] == '+' {
        s.skip(1)
    } else {
        s
    };
    assert(s[0] as u8 == bytes@[0]);
    assert(digits == s.skip(start as int)) by {
        assert(s.skip(0) =~= s);
    }
    if start == n {
        return None;
    }
    let limit: u128 = 9223372036854775808u128;
    let mut acc: u128 = 0;
    let mut i: usize = start;
    proof {
        assert(digits.take(0) =~= Seq::<char>::empty());
    }
    while i < n
        invariant
            start <= i <= n,
            n == bytes@.len(),
            n == s.len(),
            is_ascii_chars(s),
            forall|j: int| 0 <= j < n ==> #[trigger] s[j] as u8 == bytes@[j],
            s == text@,
            digits == s.skip(start as int),
            digits == if s[0] == '-' || s[0] == '+' {
                s.skip(1)
            } else {
                s
            },
            all_digits(digits.take(i - start)),
            acc == decimal_value(digits.take(i - start)),
            acc <= limit,
            limit == 9223372036854775808u128,
        decreases n - i,
    {
        let b: u8 = bytes[i];
        let ghost c = s[i as int];
        assert(c as u8 == b);
        assert('\0' <= c <= '\u{7f}');
        assert(digits[i - start] == c);
        if b < ZERO || b > NINE {
            assert(!is_digit(c));
            assert(!all_digits(digits));
            return None;
        }
        let d: u128 = (b - ZERO) as u128;
        let ghost before = digits.take(i - start);
        let ghost after = digits.take(i - start + 1);
        proof {
            assert(is_digit(c));
            assert(digit_value(c) == d);
            assert(after.drop_last() =~= before);
            assert(after.last() == c);
            assert forall|j: int| 0 <= j < after.len() implies is_digit(#[trigger] after[j]) by {
                if j < before.len() {
                    assert(before[j] == after[j]);
                }
            }
        }
        acc = acc * 10 + d;
        if acc > limit {
            proof {
                if all_digits(digits) {
                    lemma_decimal_value_grows(digits, i - start + 1);
                }
            }
            return None;
        }
        i += 1;
    }
    proof {
        assert(digits.take(n - start) =~= digits);
    }
    if negative {
        if acc == limit {
            Some(i64::MIN)
        } else {
            Some(-(acc as i64))
        }
    } else if acc == limit {
        None
    } else {
        Some(acc as i64)
    }
}

/// The character that writes the digit `d`.
pub open spec fn digit_char(d: int) -> char {
    if d == 0 {
        '0'
    } else if d == 1 {
        '1'
    } else if d == 2 {
        '2'
    } else if d == 3 {
        '3'
    } else if d == 4 {
        '4'
    } else if d == 5 {
        '5'
    } else if d == 6 {
        '6'
    } else if d == 7 {
        '7'
    } else if d == 8 {
        '8'
    } else {
        '9'
    }
}

/// The digits of `n` in base ten, most significant first, without leading zeros.
pub open spec fn decimal_digits(n: nat) -> Seq<char>
    decreases n,
{
    if n < 10 {
        seq![digit_char(n as int)]
    } else {
        decimal_digits(n / 10).push(digit_char((n % 10) as int))
    }
}

/// The integer `v` written in base ten, with `-` in front of a negative one.
pub open spec fn decimal_text(v: int) -> Seq<char> {
    if v < 0 {
        seq!['-'] + decimal_digits((-v) as nat)
    } else {
        decimal_digits(v as nat)
    }
}

/// The one-character text of the digit `d`.
fn digit_str(d: u64) -> (text: &'static str)
    requires
        d < 10,
    ensures
        text@ == seq![digit_char(d as int)],
{
    proof {
        reveal_strlit("0");
        reveal_strlit("1");
        reveal_strlit("2");
        reveal_strlit("3");
        reveal_strlit("4");
        reveal_strlit("5");
        reveal_strlit("6");
        reveal_strlit("7");
        reveal_strlit("8");
        reveal_strlit("9");
    }
    let text = if d == 0 {
        "0"
    } else if d == 1 {
        "1"
    } else if d == 2 {
        "2"
    } else if d == 3 {
        "3"
    } else if d == 4 {
        "4"
    } else if d == 5 {
        "5"
    } else if d == 6 {
        "6"
    } else if d == 7 {
        "7"
    } else if d == 8 {
        "8"
    } else {
        "9"
    };
    assert(text@ =~= seq![digit_char(d as int)]);
    text
}

/// Appends the digits of `n` to `out`.
fn push_digits(out: &mut String, n: u64)
    ensures
        final(out)@ == old(out)@ + decimal_digits(n as nat),
    decreases n,
{
    if n >= 10 {
        push_digits(out, n / 10);
    }
    out.append(digit_str(n % 10));
    assert(out@ =~= old(out)@ + decimal_digits(n as nat));
}

/// Writes `v` in base ten.
pub fn format_i64(v: i64) -> (text: String)
    ensures
        text@ == decimal_text(v as int),
{
    let mut text = String::new();
    if v < 0 {
        proof {
            reveal_strlit("-");
        }
        text.append("-");
        assert(text@ =~= seq!['-']);
        let magnitude: u64 = if v == i64::MIN {
            9223372036854775808u64
        } else {
            (-v) as u64
        };
        push_digits(&mut text, magnitude);
    } else {
        push_digits(&mut text, v as u64);
        assert(text@ =~= decimal_digits(v as nat));
    }
    text
}

/// The digits of a number are digits, at least one, and write that number.
pub proof fn lemma_decimal_digits_value(n: nat)
    ensures
        decimal_digits(n).len() >= 1,
        all_digits(decimal_digits(n)),
        decimal_value(decimal_digits(n)) == n,
    decreases n,
{
    let digits = decimal_digits(n);
    if n < 10 {
        assert(digits.drop_last() =~= Seq::<char>::empty());
        assert(decimal_value(digits.drop_last()) == 0);
        assert(digit_value(digits.last()) == n);
    } else {
        lemma_decimal_digits_value(n / 10);
        let front = decimal_digits(n / 10);
        assert(digits.drop_last() =~= front);
        assert(digit_value(digits.last()) == n % 10);
        assert forall|i: int| 0 <= i < digits.len() implies is_digit(#[trigger] digits[i]) by {
            if i < front.len() {
                assert(digits[i] == front[i]);
            }
        }
    }
}

/// Reading what `format_i64` wrote gives the number back.
pub proof fn lemma_parse_inverts_format(v: i64)
    ensures
        parsed_i64(decimal_text(v as int)) == Some(v),
{
    let text = decimal_text(v as int);
    if v < 0 {
        let digits = decimal_digits((-v) as nat);
        lemma_decimal_digits_value((-v) as nat);
        assert(text[0] == '-');
        assert(text.skip(1) =~= digits);
    } else {
        lemma_decimal_digits_value(v as nat);
        assert(is_digit(text[0]));
    }
}

/// The integers that a list of texts writes, in order; a text that writes
/// none is passed over.
pub open spec fn parsed_list(texts: Seq<String>) -> Seq<i64>
    decreases texts.len(),
{
    if texts.len() == 0 {
        Seq::empty()
    } else {
        match parsed_i64(texts.last()@) {
            Some(v) => parsed_list(texts.drop_last()).push(v),
            None => parsed_list(texts.drop_last()),
        }
    }
}

/// Reads the integers that `texts` writes, in order, passing over each text
/// that writes none.
pub fn parse_list(texts: &Vec<String>) -> (values: Vec<i64>)
    ensures
        values@ == parsed_list(texts@),
{
    let mut values: Vec<i64> = Vec::new();
    let mut i: usize = 0;
    while i < texts.len()
        invariant
            i <= texts.len(),
            values@ == parsed_list(texts@.take(i as int)),
        decreases texts.len() - i,
    {
        proof {
            let longer = texts@.take(i + 1);
            assert(longer.drop_last() =~= texts@.take(i as int));
            assert(longer.last() == texts@[i as int]);
        }
        match parse_i64(texts[i].as_str()) {
            Some(v) => {
                values.push(v);
            },
            None => {},
        }
        i += 1;
    }
    assert(texts@.take(texts.len() as int) =~= texts@);
    values
}

/// An integer is among those that a list of texts writes just when one of
/// the texts writes it.
pub proof fn lemma_parsed_list_contains(texts: Seq<String>, v: i64)
    ensures
        parsed_list(texts).contains(v) <==> exists|i: int|
            0 <= i < texts.len() && parsed_i64(#[trigger] texts[i]@) == Some(v),
    decreases texts.len(),
{
    if texts.len() > 0 {
        let front = texts.drop_last();
        lemma_parsed_list_contains(front, v);
        let list = parsed_list(texts);
        let before = parsed_list(front);
        if list.contains(v) {
            let k = choose|k: int| 0 <= k < list.len() && list[k] == v;
            if k < before.len() {
                assert(before[k] == v);
                let i = choose|i: int| 0 <= i < front.len() && parsed_i64(#[trigger] front[i]@) == Some(v);
                assert(texts[i] == front[i]);
            } else {
                assert(parsed_i64(texts[texts.len() - 1]@) == Some(v));
            }
        }
        if exists|i: int| 0 <= i < texts.len() && parsed_i64(#[trigger] texts[i]@) == Some(v) {
            let i = choose|i: int| 0 <= i < texts.len() && parsed_i64(#[trigger] texts[i]@) == Some(v);
            if i < front.len() {
                assert(front[i] == texts[i]);
                assert(before.contains(v));
                let k = choose|k: int| 0 <= k < before.len() && before[k] == v;
                assert(list[k] == v);
            } else {
                assert(list[list.len() - 1] == v);
            }
        }
    }
}

} // verus!
