//! Note types as the client shows them.

use crate::text::{decimal_text, format_i64, parse_list, parsed_list};
use crate::util::{ApiResult, Error, ErrorView, MessageType};
use vstd::prelude::*;

verus! {

/// A note type with its fields, its card templates and its settings.
#[derive(Clone, Debug, PartialEq, Eq)]
pub struct NoteType {
    pub id: i64,
    pub name: String,
    pub mtime: i64,
    pub fields: Vec<NoteField>,
    pub templates: Vec<CardTemplate>,
    pub config: NoteTypeConfig,
}

/// One field of a note type.
#[derive(Clone, Debug, PartialEq, Eq)]
pub struct NoteField {
    pub name: String,
    pub sticky: bool,
    pub rtl: bool,
    pub font_name: String,
    pub font_size: u32,
}

/// One card template of a note type.
#[derive(Clone, Debug, PartialEq, Eq)]
pub struct CardTemplate {
    pub name: String,
    pub mtime: i64,
    pub q_format: String,
    pub a_format: String,
    pub target_deck_id: i64,
}

/// The settings of a note type.
#[derive(Clone, Debug, PartialEq, Eq)]
pub struct NoteTypeConfig {
    pub kind: NoteKind,
    pub sort_field_idx: u32,
    pub css: String,
    pub target_deck_id: i64,
    pub latex_pre: String,
    pub latex_post: String,
    pub latex_svg: bool,
    pub reqs: Vec<CardRequirement>,
}

/// Whether a note type makes ordinary cards or cloze deletions.
#[derive(Clone, Copy, Debug, PartialEq, Eq, Structural)]
pub enum NoteKind {
    Normal,
    Cloze,
}

/// Which fields a card of a template needs before it is made.
#[derive(Clone, Debug, PartialEq, Eq)]
pub struct CardRequirement {
    pub kind: CardRequirementKind,
    pub card_ord: u32,
    pub field_ords: Vec<u32>,
}

/// How the fields of a card requirement count: none of them, any one, or all.
#[derive(Clone, Copy, Debug, PartialEq, Eq, Structural)]
pub enum CardRequirementKind {
    NoneOf,
    Any,
    All,
}

/// The kind of note type that the stored number `value` stands for, if any.
pub open spec fn note_kind_of(value: i32) -> Option<NoteKind> {
    if value == 0 {
        Some(NoteKind::Normal)
    } else if value == 1 {
        Some(NoteKind::Cloze)
    } else {
        None
    }
}

/// The kind of card requirement that the stored number `value` stands for, if any.
pub open spec fn requirement_kind_of(value: i32) -> Option<CardRequirementKind> {
    if value == 0 {
        Some(CardRequirementKind::NoneOf)
    } else if value == 1 {
        Some(CardRequirementKind::Any)
    } else if value == 2 {
        Some(CardRequirementKind::All)
    } else {
        None
    }
}

impl NoteKind {
    /// Decodes the kind of a note type. A number that stands for no kind is
    /// reported with the numbers that do.
    pub fn try_from(value: i32) -> (kind: Result<NoteKind, Error>)
        ensures
            match kind {
                Ok(k) => note_kind_of(value) == Some(k),
                Err(e) => note_kind_of(value) is None && e@ == ErrorView::InvalidNumber(
                    decimal_text(value as int),
                    "0, 1"@,
                ),
            },
    {
        match value {
            0 => Ok(NoteKind::Normal),
            1 => Ok(NoteKind::Cloze),
            _ => Err(Error::InvalidNumber(format_i64(value as i64), String::from_str("0, 1"))),
        }
    }
}

impl CardRequirementKind {
    /// Decodes the kind of a card requirement. A number that stands for no
    /// kind is reported with the numbers that do.
    pub fn try_from(value: i32) -> (kind: Result<CardRequirementKind, Error>)
        ensures
            match kind {
                Ok(k) => requirement_kind_of(value) == Some(k),
                Err(e) => requirement_kind_of(value) is None && e@ == ErrorView::InvalidNumber(
                    decimal_text(value as int),
                    "0, 1, 2"@,
                ),
            },
    {
        match value {
            0 => Ok(CardRequirementKind::NoneOf),
            1 => Ok(CardRequirementKind::Any),
            2 => Ok(CardRequirementKind::All),
            _ => Err(Error::InvalidNumber(format_i64(value as i64), String::from_str("0, 1, 2"))),
        }
    }
}

/// What the note-types command was asked: the identifiers of the note types
/// to show, as text, or nothing for all of them.
#[derive(Clone, Debug, PartialEq, Eq)]
pub struct NoteTypesRequest {
    pub note_ids: Option<Vec<String>>,
}

/// What happened last while note types are being looked up. Failures of the
/// collection come as the message that the collection gave.
#[derive(Debug, PartialEq, Eq)]
pub enum NoteTypesEvent {
    /// Nothing yet: the command has just been given.
    Start,
    /// The collection was asked for each named note type in turn; a note
    /// type that it does not hold comes as `None`.
    Found(Vec<Result<Option<NoteType>, String>>),
    /// The collection was asked for all of its note types.
    All(Result<Vec<NoteType>, String>),
}

/// What is to be done next while note types are being looked up.
#[derive(Debug, PartialEq, Eq)]
pub enum NoteTypesAction {
    /// Ask the collection for the note type of each of these identifiers, in order.
    Lookup(Vec<i64>),
    /// Ask the collection for all of its note types.
    LookupAll,
    /// Nothing more: this is the outcome of the command.
    Done(ApiResult),
}

/// The note types that a round of lookups brought, in order: a lookup that
/// failed or found nothing brings none.
pub open spec fn found_notetypes(replies: Seq<Result<Option<NoteType>, String>>) -> Seq<NoteType>
    decreases replies.len(),
{
    if replies.len() == 0 {
        Seq::empty()
    } else {
        match replies.last() {
            Ok(Some(notetype)) => found_notetypes(replies.drop_last()).push(notetype),
            _ => found_notetypes(replies.drop_last()),
        }
    }
}

/// Keeps the note types that a round of lookups brought.
fn keep_found(replies: Vec<Result<Option<NoteType>, String>>) -> (found: Vec<NoteType>)
    ensures
        found@ == found_notetypes(replies@),
{
    let mut found: Vec<NoteType> = Vec::new();
    for reply in it: replies
        invariant
            it.seq() == replies@,
            found@ == found_notetypes(replies@.take(it.index() as int)),
    {
        proof {
            let longer = replies@.take(it.index() + 1);
            assert(longer.drop_last() =~= replies@.take(it.index() as int));
            assert(longer.last() == reply);
        }
        match reply {
            Ok(Some(notetype)) => {
                found.push(notetype);
            },
            _ => {},
        }
    }
    assert(replies@.take(replies@.len() as int) =~= replies@);
    found
}

/// Decides what the note-types command does next.
///
/// With identifiers named, those that are integers are looked up, in order,
/// and the command ends with the note types that were found, or with
/// `NoResults` where none was. With none named, all note types are asked
/// for, and a failure of the collection ends the command with its message.
pub fn view_notetypes(request: &NoteTypesRequest, event: NoteTypesEvent) -> (action: NoteTypesAction)
    ensures
        match event {
            NoteTypesEvent::Start => match request.note_ids {
                Some(ids) => action matches NoteTypesAction::Lookup(wanted) && wanted@ == parsed_list(
                    ids@,
                ),
                None => action == NoteTypesAction::LookupAll,
            },
            NoteTypesEvent::Found(replies) => if found_notetypes(replies@).len() > 0 {
                action matches NoteTypesAction::Done(Ok(MessageType::NoteTypes(shown))) && shown@
                    == found_notetypes(replies@)
            } else {
                action == NoteTypesAction::Done(Err(Error::NoResults))
            },
            NoteTypesEvent::All(Ok(all)) => action == NoteTypesAction::Done(
                Ok(MessageType::NoteTypes(all)),
            ),
            NoteTypesEvent::All(Err(message)) => action matches NoteTypesAction::Done(Err(error))
                && error@ == ErrorView::Anki(message@),
        },
{
    match event {
        NoteTypesEvent::Start => match &request.note_ids {
            Some(ids) => NoteTypesAction::Lookup(parse_list(ids)),
            None => NoteTypesAction::LookupAll,
        },
        NoteTypesEvent::Found(replies) => {
            let found = keep_found(replies);
            if found.len() > 0 {
                NoteTypesAction::Done(Ok(MessageType::NoteTypes(found)))
            } else {
                NoteTypesAction::Done(Err(Error::NoResults))
            }
        },
        NoteTypesEvent::All(Ok(all)) => NoteTypesAction::Done(Ok(MessageType::NoteTypes(all))),
        NoteTypesEvent::All(Err(message)) => NoteTypesAction::Done(Err(Error::Anki(message))),
    }
}

} // verus!
