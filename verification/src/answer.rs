//! Answering a card: a rating picks one of the scheduler's candidate states,
//! and the pick is written down as a review record.

use crate::text::str_eq;
use crate::util::{Error, ErrorView};
use std::cmp::Ordering;
use vstd::std_specs::cmp::PartialOrdSpec;
use vstd::prelude::*;

verus! {

/// The tokens that name a rating, as an error shows them.
pub const ANSWER_VALUES: &'static str =
    "[\"again\", \"1\", \"hard\", \"2\", \"good\", \"3\", \"easy\", \"4\"]";

/// How well a card was recalled, from worst to best.
#[derive(Clone, Copy, Debug, PartialEq, Eq, Ord, Hash, Structural)]
pub enum Rating {
    Again,
    Hard,
    Good,
    Easy,
}

/// The rating that a token names, if it names one: each rating has a word and a digit.
pub open spec fn rating_of_token(token: Seq<char>) -> Option<Rating> {
    if token == "again"@ || token == "1"@ {
        Some(Rating::Again)
    } else if token == "hard"@ || token == "2"@ {
        Some(Rating::Hard)
    } else if token == "good"@ || token == "3"@ {
        Some(Rating::Good)
    } else if token == "easy"@ || token == "4"@ {
        Some(Rating::Easy)
    } else {
        None
    }
}

/// Each rating is named by its word and by its digit: no token is taken for
/// another rating than the one it names.
pub proof fn lemma_rating_vocabulary()
    ensures
        rating_of_token("again"@) == Some(Rating::Again),
        rating_of_token("1"@) == Some(Rating::Again),
        rating_of_token("hard"@) == Some(Rating::Hard),
        rating_of_token("2"@) == Some(Rating::Hard),
        rating_of_token("good"@) == Some(Rating::Good),
        rating_of_token("3"@) == Some(Rating::Good),
        rating_of_token("easy"@) == Some(Rating::Easy),
        rating_of_token("4"@) == Some(Rating::Easy),
{
    reveal_strlit("again");
    reveal_strlit("hard");
    reveal_strlit("good");
    reveal_strlit("easy");
    reveal_strlit("1");
    reveal_strlit("2");
    reveal_strlit("3");
    reveal_strlit("4");
    assert("again"@[0] == 'a' && "hard"@[0] == 'h' && "good"@[0] == 'g' && "easy"@[0] == 'e');
    assert("1"@[0] == '1' && "2"@[0] == '2' && "3"@[0] == '3' && "4"@[0] == '4');
}

/// A token that is none of the eight names no rating.
pub proof fn lemma_rating_vocabulary_is_closed(token: Seq<char>)
    ensures
        rating_of_token(token) is Some <==> (token == "again"@ || token == "1"@ || token == "hard"@
            || token == "2"@ || token == "good"@ || token == "3"@ || token == "easy"@ || token
            == "4"@),
{
}

impl Rating {
    /// The place of the rating in the order of recall, from 1 for `Again` to 4
    /// for `Easy`: the digit that names it.
    pub open spec fn spec_rank(self) -> u8 {
        match self {
            Rating::Again => 1,
            Rating::Hard => 2,
            Rating::Good => 3,
            Rating::Easy => 4,
        }
    }

    /// The place of the rating in the order of recall.
    #[verifier::when_used_as_spec(spec_rank)]
    pub fn rank(self) -> (rank: u8)
        ensures
            rank == self.spec_rank(),
    {
        match self {
            Rating::Again => 1,
            Rating::Hard => 2,
            Rating::Good => 3,
            Rating::Easy => 4,
        }
    }

    /// Reads a rating token. A token that names no rating is an error that
    /// holds the token and the accepted tokens.
    pub fn parse(token: &str) -> (rating: Result<Rating, Error>)
        ensures
            match rating {
                Ok(r) => rating_of_token(token@) == Some(r),
                Err(e) => rating_of_token(token@) is None && e@ == ErrorView::InvalidParam(
                    token@,
                    ANSWER_VALUES@,
                ),
            },
    {
        if str_eq(token, "again") || str_eq(token, "1") {
            Ok(Rating::Again)
        } else if str_eq(token, "hard") || str_eq(token, "2") {
            Ok(Rating::Hard)
        } else if str_eq(token, "good") || str_eq(token, "3") {
            Ok(Rating::Good)
        } else if str_eq(token, "easy") || str_eq(token, "4") {
            Ok(Rating::Easy)
        } else {
            Err(Error::InvalidParam(String::from_str(token), String::from_str(ANSWER_VALUES)))
        }
    }
}

impl PartialOrd for Rating {
    /// Ratings compare as their ranks do: `Again < Hard < Good < Easy`.
    fn partial_cmp(&self, other: &Rating) -> (order: Option<Ordering>) {
        let mine = self.rank();
        let theirs = other.rank();
        if mine < theirs {
            Some(Ordering::Less)
        } else if mine == theirs {
            Some(Ordering::Equal)
        } else {
            Some(Ordering::Greater)
        }
    }
}

impl vstd::std_specs::cmp::PartialOrdSpecImpl for Rating {
    open spec fn obeys_partial_cmp_spec() -> bool {
        true
    }

    open spec fn partial_cmp_spec(&self, other: &Rating) -> Option<Ordering> {
        if self.spec_rank() < other.spec_rank() {
            Some(Ordering::Less)
        } else if self.spec_rank() == other.spec_rank() {
            Some(Ordering::Equal)
        } else {
            Some(Ordering::Greater)
        }
    }
}

/// The ratings stand in the order of recall: `Again` below `Hard`, `Hard`
/// below `Good`, `Good` below `Easy`.
pub proof fn lemma_ratings_in_order()
    ensures
        Rating::Again.partial_cmp_spec(&Rating::Hard) == Some(Ordering::Less),
        Rating::Hard.partial_cmp_spec(&Rating::Good) == Some(Ordering::Less),
        Rating::Good.partial_cmp_spec(&Rating::Easy) == Some(Ordering::Less),
{
}

/// The order of the ratings is total: two ratings compare as equal just
/// when they are one rating, and what is below a rating is below all that
/// the rating is below.
pub proof fn lemma_rating_order_is_total(first: Rating, second: Rating, third: Rating)
    ensures
        first.partial_cmp_spec(&second) is Some,
        first.partial_cmp_spec(&second) == Some(Ordering::Equal) <==> first == second,
        first.partial_cmp_spec(&second) == Some(Ordering::Less) <==> second.partial_cmp_spec(&first)
            == Some(Ordering::Greater),
        first.partial_cmp_spec(&second) == Some(Ordering::Less) && second.partial_cmp_spec(&third)
            == Some(Ordering::Less) ==> first.partial_cmp_spec(&third) == Some(Ordering::Less),
{
}

/// A scheduling state of a card. The scheduler owns what it means: here it is
/// a token that can be handed on and compared, and nothing else.
#[derive(Clone, Copy, Debug, PartialEq, Eq, Hash, Structural)]
pub struct SchedulingState {
    handle: u64,
}

impl SchedulingState {
    /// The handle under which the scheduler knows the state.
    pub closed spec fn spec_handle(self) -> u64 {
        self.handle
    }

    /// The token for the state that the scheduler knows under `handle`.
    pub fn new(handle: u64) -> (state: SchedulingState)
        ensures
            state.spec_handle() == handle,
    {
        SchedulingState { handle }
    }

    /// The handle under which the scheduler knows the state.
    #[verifier::when_used_as_spec(spec_handle)]
    pub fn handle(self) -> (handle: u64)
        ensures
            handle == self.spec_handle(),
    {
        self.handle
    }

    /// Two tokens with one handle are one state.
    pub proof fn lemma_handle_decides(self, other: SchedulingState)
        ensures
            (self == other) <==> (self.spec_handle() == other.spec_handle()),
    {
    }
}

/// What the scheduler offers for one card: the state that the card is in and
/// the state that each rating would lead to.
#[derive(Clone, Copy, Debug, PartialEq, Eq, Structural)]
pub struct ScheduleStateSet {
    pub current: SchedulingState,
    pub again: SchedulingState,
    pub hard: SchedulingState,
    pub good: SchedulingState,
    pub easy: SchedulingState,
}

impl ScheduleStateSet {
    /// The candidate that `rating` picks.
    pub open spec fn candidate(self, rating: Rating) -> SchedulingState {
        match rating {
            Rating::Again => self.again,
            Rating::Hard => self.hard,
            Rating::Good => self.good,
            Rating::Easy => self.easy,
        }
    }

    /// The state that the card moves to under `rating`: the candidate of that
    /// name, as the scheduler supplied it.
    #[verifier::when_used_as_spec(candidate)]
    pub fn next_state(self, rating: Rating) -> (state: SchedulingState)
        ensures
            state == self.candidate(rating),
    {
        match rating {
            Rating::Again => self.again,
            Rating::Hard => self.hard,
            Rating::Good => self.good,
            Rating::Easy => self.easy,
        }
    }
}

/// What a review record holds.
pub ghost struct ReviewRecordView {
    pub card_id: i64,
    pub current_state: SchedulingState,
    pub new_state: SchedulingState,
    pub rating: Rating,
    pub answered_at: i64,
    pub milliseconds_taken: u32,
}

/// One answer, as it is submitted to the collection. It is made once and
/// cannot be changed afterwards.
#[derive(Clone, Copy, Debug, PartialEq, Eq, Structural)]
pub struct ReviewRecord {
    card_id: i64,
    current_state: SchedulingState,
    new_state: SchedulingState,
    rating: Rating,
    answered_at: i64,
    milliseconds_taken: u32,
}

impl View for ReviewRecord {
    type V = ReviewRecordView;

    closed spec fn view(&self) -> ReviewRecordView {
        ReviewRecordView {
            card_id: self.card_id,
            current_state: self.current_state,
            new_state: self.new_state,
            rating: self.rating,
            answered_at: self.answered_at,
            milliseconds_taken: self.milliseconds_taken,
        }
    }
}

/// The record of answering the card `card_id` with `rating` when the
/// scheduler offered `states`: it moves the card from the current state of
/// `states` to the candidate that `rating` picks.
pub open spec fn record_of(
    card_id: i64,
    states: ScheduleStateSet,
    rating: Rating,
    milliseconds_taken: u32,
    answered_at: i64,
) -> ReviewRecordView {
    ReviewRecordView {
        card_id,
        current_state: states.current,
        new_state: states.candidate(rating),
        rating,
        answered_at,
        milliseconds_taken,
    }
}

impl ReviewRecord {
    /// Writes down the answer `rating` to the card `card_id`, given from the
    /// state `current_state`, `milliseconds_taken` after the card was shown, at
    /// `answered_at` milliseconds since the epoch. The answer is refused as
    /// stale unless `current_state` is the current state of `states`.
    pub fn new(
        card_id: i64,
        current_state: SchedulingState,
        states: &ScheduleStateSet,
        rating: Rating,
        milliseconds_taken: u32,
        answered_at: i64,
    ) -> (record: Result<ReviewRecord, Error>)
        ensures
            current_state == states.current ==> record is Ok && record->Ok_0@ == record_of(
                card_id,
                *states,
                rating,
                milliseconds_taken,
                answered_at,
            ),
            current_state != states.current ==> record == Err::<ReviewRecord, Error>(Error::StaleState),
    {
        if current_state == states.current {
            Ok(
                ReviewRecord {
                    card_id,
                    current_state,
                    new_state: states.next_state(rating),
                    rating,
                    answered_at,
                    milliseconds_taken,
                },
            )
        } else {
            Err(Error::StaleState)
        }
    }

    /// The card that was answered.
    pub fn card_id(&self) -> (id: i64)
        ensures
            id == self@.card_id,
    {
        self.card_id
    }

    /// The state that the card was in when it was answered.
    pub fn current_state(&self) -> (state: SchedulingState)
        ensures
            state == self@.current_state,
    {
        self.current_state
    }

    /// The state that the answer moves the card to.
    pub fn new_state(&self) -> (state: SchedulingState)
        ensures
            state == self@.new_state,
    {
        self.new_state
    }

    /// The rating that was given.
    pub fn rating(&self) -> (rating: Rating)
        ensures
            rating == self@.rating,
    {
        self.rating
    }

    /// When the answer was given, in milliseconds since the epoch.
    pub fn answered_at(&self) -> (millis: i64)
        ensures
            millis == self@.answered_at,
    {
        self.answered_at
    }

    /// How long the answer took, in milliseconds.
    pub fn milliseconds_taken(&self) -> (millis: u32)
        ensures
            millis == self@.milliseconds_taken,
    {
        self.milliseconds_taken
    }
}

/// What the answer command was asked: the card, the rating token and how
/// long the answer took.
#[derive(Clone, Debug, PartialEq, Eq)]
pub struct AnswerRequest {
    pub card_id: i64,
    pub answer: String,
    pub milliseconds_taken: u32,
}

/// What happened last while a card is being answered. Failures of the
/// collection come as the message that the collection gave.
#[derive(Debug, PartialEq, Eq)]
pub enum AnswerEvent {
    /// Nothing yet: the command has just been given.
    Start,
    /// The scheduler was asked for the states of the card, at the time `now_millis`.
    States { states: Result<ScheduleStateSet, String>, now_millis: i64 },
    /// The collection was handed the review record.
    Recorded(Result<(), String>),
}

/// What is to be done next while a card is being answered.
#[derive(Debug, PartialEq, Eq)]
pub enum AnswerAction {
    /// Ask the scheduler for the states of this card.
    FetchStates(i64),
    /// Hand this record to the collection.
    Record(ReviewRecord),
    /// Nothing more: this is the outcome of the command.
    Done(Result<(), Error>),
}

/// What an answer request holds.
pub ghost struct AnswerRequestView {
    pub card_id: i64,
    pub answer: Seq<char>,
    pub milliseconds_taken: u32,
}

/// What an answer event holds.
pub ghost enum AnswerEventView {
    Start,
    States { states: Result<ScheduleStateSet, Seq<char>>, now_millis: i64 },
    Recorded(Result<(), Seq<char>>),
}

/// What an answer action holds.
pub ghost enum AnswerActionView {
    FetchStates(i64),
    Record(ReviewRecordView),
    Done(Result<(), ErrorView>),
}

impl View for AnswerRequest {
    type V = AnswerRequestView;

    open spec fn view(&self) -> AnswerRequestView {
        AnswerRequestView {
            card_id: self.card_id,
            answer: self.answer@,
            milliseconds_taken: self.milliseconds_taken,
        }
    }
}

impl View for AnswerEvent {
    type V = AnswerEventView;

    open spec fn view(&self) -> AnswerEventView {
        match *self {
            AnswerEvent::Start => AnswerEventView::Start,
            AnswerEvent::States { states, now_millis } => AnswerEventView::States {
                states: match states {
                    Ok(set) => Ok(set),
                    Err(message) => Err(message@),
                },
                now_millis,
            },
            AnswerEvent::Recorded(outcome) => AnswerEventView::Recorded(
                match outcome {
                    Ok(done) => Ok(done),
                    Err(message) => Err(message@),
                },
            ),
        }
    }
}

impl View for AnswerAction {
    type V = AnswerActionView;

    open spec fn view(&self) -> AnswerActionView {
        match *self {
            AnswerAction::FetchStates(card_id) => AnswerActionView::FetchStates(card_id),
            AnswerAction::Record(record) => AnswerActionView::Record(record@),
            AnswerAction::Done(outcome) => AnswerActionView::Done(
                match outcome {
                    Ok(done) => Ok(done),
                    Err(error) => Err(error@),
                },
            ),
        }
    }
}

/// The next action of the answer command after `event`.
///
/// The command first asks for the states of the card. Once it has them it
/// reads the rating token: a token that names no rating ends the command
/// with an error, any other picks the candidate to record. A failure of the
/// collection ends the command with the collection's message, and a record
/// that was taken ends it well.
pub open spec fn answer_step(request: AnswerRequestView, event: AnswerEventView) -> AnswerActionView {
    match event {
        AnswerEventView::Start => AnswerActionView::FetchStates(request.card_id),
        AnswerEventView::States { states: Err(message), .. } => AnswerActionView::Done(
            Err(ErrorView::Anki(message)),
        ),
        AnswerEventView::States { states: Ok(set), now_millis } => match rating_of_token(
            request.answer,
        ) {
            Some(rating) => AnswerActionView::Record(
                record_of(request.card_id, set, rating, request.milliseconds_taken, now_millis),
            ),
            None => AnswerActionView::Done(
                Err(ErrorView::InvalidParam(request.answer, ANSWER_VALUES@)),
            ),
        },
        AnswerEventView::Recorded(Ok(_)) => AnswerActionView::Done(Ok(())),
        AnswerEventView::Recorded(Err(message)) => AnswerActionView::Done(
            Err(ErrorView::Anki(message)),
        ),
    }
}

/// Decides what the answer command does next. The caller carries out the
/// action on the collection and comes back with the event that tells how it went.
pub fn answer(request: &AnswerRequest, event: AnswerEvent) -> (action: AnswerAction)
    ensures
        action@ == answer_step(request@, event@),
{
    match event {
        AnswerEvent::Start => AnswerAction::FetchStates(request.card_id),
        AnswerEvent::States { states: Err(message), .. } => AnswerAction::Done(
            Err(Error::Anki(message)),
        ),
        AnswerEvent::States { states: Ok(set), now_millis } => {
            match Rating::parse(request.answer.as_str()) {
                Ok(rating) => {
                    match ReviewRecord::new(
                        request.card_id,
                        set.current,
                        &set,
                        rating,
                        request.milliseconds_taken,
                        now_millis,
                    ) {
                        Ok(record) => AnswerAction::Record(record),
                        Err(stale) => AnswerAction::Done(Err(stale)),
                    }
                },
                Err(invalid) => AnswerAction::Done(Err(invalid)),
            }
        },
        AnswerEvent::Recorded(Ok(_)) => AnswerAction::Done(Ok(())),
        AnswerEvent::Recorded(Err(message)) => AnswerAction::Done(Err(Error::Anki(message))),
    }
}

/// How a collection answers while a card is being answered: what its
/// scheduler says of each card, at what time, and how it takes each record.
pub ghost struct AnswerReplies {
    pub states: spec_fn(i64) -> Result<ScheduleStateSet, Seq<char>>,
    pub now_millis: i64,
    pub recorded: spec_fn(ReviewRecordView) -> Result<(), Seq<char>>,
}

impl AnswerReplies {
    /// The event that follows when `action` is carried out on this collection.
    pub open spec fn reply(self, action: AnswerActionView) -> AnswerEventView {
        match action {
            AnswerActionView::FetchStates(card_id) => AnswerEventView::States {
                states: (self.states)(card_id),
                now_millis: self.now_millis,
            },
            AnswerActionView::Record(record) => AnswerEventView::Recorded((self.recorded)(record)),
            AnswerActionView::Done(_) => AnswerEventView::Start,
        }
    }
}

/// Where the command stands after `exchanges` actions were carried out on
/// `collection`, each decided by `answer_step` from the reply to the one before.
pub open spec fn answer_after(
    request: AnswerRequestView,
    collection: AnswerReplies,
    exchanges: nat,
) -> AnswerActionView
    decreases exchanges,
{
    if exchanges == 0 {
        answer_step(request, AnswerEventView::Start)
    } else {
        let before = answer_after(request, collection, (exchanges - 1) as nat);
        match before {
            AnswerActionView::Done(_) => before,
            _ => answer_step(request, collection.reply(before)),
        }
    }
}

/// What becomes of an answer command on a collection, without running it:
/// the first failure among fetching the states, reading the token and
/// handing the record over, or success when none fails.
pub open spec fn answer_outcome(request: AnswerRequestView, collection: AnswerReplies) -> Result<
    (),
    ErrorView,
> {
    match (collection.states)(request.card_id) {
        Err(message) => Err(ErrorView::Anki(message)),
        Ok(set) => match rating_of_token(request.answer) {
            None => Err(ErrorView::InvalidParam(request.answer, ANSWER_VALUES@)),
            Some(rating) => match (collection.recorded)(
                record_of(
                    request.card_id,
                    set,
                    rating,
                    request.milliseconds_taken,
                    collection.now_millis,
                ),
            ) {
                Ok(_) => Ok(()),
                Err(message) => Err(ErrorView::Anki(message)),
            },
        },
    }
}

/// An answer command is over after two exchanges with the collection at
/// most, whatever the collection replies, and ends as `answer_outcome` says.
pub proof fn lemma_answer_ends(request: AnswerRequestView, collection: AnswerReplies)
    ensures
        answer_after(request, collection, 2) == AnswerActionView::Done(
            answer_outcome(request, collection),
        ),
{
    reveal_with_fuel(answer_after, 3);
}

/// Whatever is handed to the collection during an answer command is the
/// record of the card that was asked about: it starts from the current state
/// that the scheduler gave and leads to the candidate that the token names,
/// and to no other state. It is handed over once, after the states came.
pub proof fn lemma_answer_records_candidate(
    request: AnswerRequestView,
    collection: AnswerReplies,
    exchanges: nat,
)
    ensures
        answer_after(request, collection, exchanges) matches AnswerActionView::Record(record) ==> {
            &&& (collection.states)(request.card_id) matches Ok(set)
            &&& rating_of_token(request.answer) matches Some(rating)
            &&& record.card_id == request.card_id
            &&& record.current_state == set.current
            &&& record.new_state == set.candidate(rating)
            &&& record.rating == rating
            &&& exchanges == 1
        },
    decreases exchanges,
{
    if exchanges > 0 {
        lemma_answer_records_candidate(request, collection, (exchanges - 1) as nat);
        reveal_with_fuel(answer_after, 2);
    }
}

/// The state that a rating leads to is one of the four candidates that the
/// scheduler supplied.
pub proof fn lemma_next_state_is_candidate(states: ScheduleStateSet, rating: Rating)
    ensures
        states.candidate(rating) == states.again || states.candidate(rating) == states.hard
            || states.candidate(rating) == states.good || states.candidate(rating) == states.easy,
{
}

} // verus!
