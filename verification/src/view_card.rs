//! Card rendering: the two node lists of a rendered card become the two sides
//! of a card, and a side can be blanked before the card is shown.

use crate::text::str_eq;
use crate::util::{Error, ErrorView};
use vstd::prelude::*;

verus! {

/// One node of a rendered template, as the template renderer hands it out.
#[derive(Clone, Debug, PartialEq, Eq)]
pub enum RenderedNode {
    Text { text: String },
    Replacement { field_name: String, current_text: String, filters: Vec<String> },
}

/// One piece of a card side: text to show as it is, or the text of a field
/// together with the filters that were applied to it, in template order.
#[derive(Clone, Debug, PartialEq, Eq)]
pub enum CardContent {
    Text { text: String },
    Replacement { field_name: String, current_text: String, filters: Vec<String> },
}

/// What a piece of card content holds, with its strings as sequences of characters.
pub ghost enum ContentView {
    Text { text: Seq<char> },
    Replacement { field_name: Seq<char>, current_text: Seq<char>, filters: Seq<Seq<char>> },
}

/// The views of a list of strings, in order.
pub open spec fn string_views(strings: Seq<String>) -> Seq<Seq<char>> {
    strings.map_values(|s: String| s@)
}

impl View for RenderedNode {
    type V = ContentView;

    open spec fn view(&self) -> ContentView {
        match *self {
            RenderedNode::Text { text } => ContentView::Text { text: text@ },
            RenderedNode::Replacement { field_name, current_text, filters } => ContentView::Replacement {
                field_name: field_name@,
                current_text: current_text@,
                filters: string_views(filters@),
            },
        }
    }
}

impl View for CardContent {
    type V = ContentView;

    open spec fn view(&self) -> ContentView {
        match *self {
            CardContent::Text { text } => ContentView::Text { text: text@ },
            CardContent::Replacement { field_name, current_text, filters } => ContentView::Replacement {
                field_name: field_name@,
                current_text: current_text@,
                filters: string_views(filters@),
            },
        }
    }
}

impl CardContent {
    /// The card content that shows `node`: the same variant with the same fields.
    pub fn from(node: RenderedNode) -> (content: CardContent)
        ensures
            content@ == node@,
    {
        match node {
            RenderedNode::Text { text } => CardContent::Text { text },
            RenderedNode::Replacement { field_name, current_text, filters } => CardContent::Replacement {
                field_name,
                current_text,
                filters,
            },
        }
    }
}

/// The views of a list of rendered nodes, in order.
pub open spec fn node_views(nodes: Seq<RenderedNode>) -> Seq<ContentView> {
    nodes.map_values(|n: RenderedNode| n@)
}

/// The views of a list of card contents, in order.
pub open spec fn content_views(contents: Seq<CardContent>) -> Seq<ContentView> {
    contents.map_values(|c: CardContent| c@)
}

/// A card ready to be shown. `back` holds the question nodes and `front` the
/// answer nodes; a side that was blanked is empty, never absent.
#[derive(Clone, Debug, PartialEq, Eq)]
pub struct Card {
    pub id: i64,
    pub back: Vec<CardContent>,
    pub front: Vec<CardContent>,
}

/// What a card holds, with its contents as views.
pub ghost struct CardView {
    pub id: i64,
    pub back: Seq<ContentView>,
    pub front: Seq<ContentView>,
}

impl View for Card {
    type V = CardView;

    open spec fn view(&self) -> CardView {
        CardView { id: self.id, back: content_views(self.back@), front: content_views(self.front@) }
    }
}

/// Turns each rendered node into card content, keeping the order.
fn contents_of(nodes: Vec<RenderedNode>) -> (contents: Vec<CardContent>)
    ensures
        content_views(contents@) == node_views(nodes@),
{
    let mut contents: Vec<CardContent> = Vec::new();
    for node in it: nodes
        invariant
            contents@.len() == it.index(),
            forall|j: int| 0 <= j < contents@.len() ==> contents@[j]@ == it.seq()[j]@,
            it.seq() == nodes@,
    {
        contents.push(CardContent::from(node));
    }
    assert(content_views(contents@) =~= node_views(nodes@));
    contents
}

/// What the template renderer produced for one card: the nodes of the
/// question and the nodes of the answer, each in template order.
#[derive(Clone, Debug, PartialEq, Eq)]
pub struct RenderedCard {
    pub qnodes: Vec<RenderedNode>,
    pub anodes: Vec<RenderedNode>,
}

/// What a rendered card holds, with its nodes as views.
pub ghost struct RenderedCardView {
    pub qnodes: Seq<ContentView>,
    pub anodes: Seq<ContentView>,
}

impl View for RenderedCard {
    type V = RenderedCardView;

    open spec fn view(&self) -> RenderedCardView {
        RenderedCardView { qnodes: node_views(self.qnodes@), anodes: node_views(self.anodes@) }
    }
}

impl RenderedCardView {
    /// The card `id` with these nodes: the question nodes are its back, the
    /// answer nodes its front.
    pub open spec fn card(self, id: i64) -> CardView {
        CardView { id, back: self.qnodes, front: self.anodes }
    }
}

/// Builds the card `id` from what the template renderer produced: the
/// question nodes become the back, the answer nodes the front, node for node.
pub fn render(id: i64, rendered: RenderedCard) -> (card: Card)
    ensures
        card@ == rendered@.card(id),
{
    Card { id, back: contents_of(rendered.qnodes), front: contents_of(rendered.anodes) }
}

/// Which side of a card is to be shown.
#[derive(Clone, Copy, Debug, PartialEq, Eq, Structural)]
pub enum Side {
    /// The front alone: the back is blanked.
    Front,
    /// The back alone: the front is blanked.
    Back,
    /// Both sides as they are.
    Both,
}

/// The side that a token names, if it names one: `back` and `question` name
/// the back, `front` and `answer` the front.
pub open spec fn side_of_token(token: Seq<char>) -> Option<Side> {
    if token == "back"@ || token == "question"@ {
        Some(Side::Back)
    } else if token == "front"@ || token == "answer"@ {
        Some(Side::Front)
    } else {
        None
    }
}

/// Each side is named by two words, and no word is taken for the other side.
pub proof fn lemma_side_vocabulary()
    ensures
        side_of_token("back"@) == Some(Side::Back),
        side_of_token("question"@) == Some(Side::Back),
        side_of_token("front"@) == Some(Side::Front),
        side_of_token("answer"@) == Some(Side::Front),
{
    reveal_strlit("back");
    reveal_strlit("question");
    reveal_strlit("front");
    reveal_strlit("answer");
    assert("back"@[0] == 'b' && "question"@[0] == 'q' && "front"@[0] == 'f' && "answer"@[0] == 'a');
}

impl Side {
    /// Reads a side token. A token outside the vocabulary names no side, and
    /// the caller decides what that means.
    pub fn parse(token: &str) -> (side: Option<Side>)
        ensures
            side == side_of_token(token@),
    {
        if str_eq(token, "back") || str_eq(token, "question") {
            Some(Side::Back)
        } else if str_eq(token, "front") || str_eq(token, "answer") {
            Some(Side::Front)
        } else {
            None
        }
    }

    /// Reads a side token as the study command does: a token that names no
    /// side asks for both sides.
    pub fn parse_or_both(token: &str) -> (side: Side)
        ensures
            side == match side_of_token(token@) {
                Some(named) => named,
                None => Side::Both,
            },
    {
        match Side::parse(token) {
            Some(named) => named,
            None => Side::Both,
        }
    }
}

impl CardView {
    /// This card with only `side` left to see: the other side is empty, and
    /// the identifier and the side shown stay as they are.
    pub open spec fn select(self, side: Side) -> CardView {
        match side {
            Side::Front => CardView { back: Seq::empty(), ..self },
            Side::Back => CardView { front: Seq::empty(), ..self },
            Side::Both => self,
        }
    }
}

/// Blanks the side of `card` that `side` does not ask for.
pub fn select_side(card: Card, side: Side) -> (shown: Card)
    ensures
        shown@ == card@.select(side),
{
    let mut shown = card;
    match side {
        Side::Front => {
            shown.back.clear();
        },
        Side::Back => {
            shown.front.clear();
        },
        Side::Both => {},
    }
    assert(content_views(Seq::<CardContent>::empty()) =~= Seq::<ContentView>::empty());
    shown
}

/// Selecting the front blanks the back and nothing else; selecting the back
/// blanks the front and nothing else; selecting both changes nothing.
pub proof fn lemma_select_side_covers(card: CardView)
    ensures
        card.select(Side::Front).back.len() == 0,
        card.select(Side::Front).front == card.front,
        card.select(Side::Front).id == card.id,
        card.select(Side::Back).front.len() == 0,
        card.select(Side::Back).back == card.back,
        card.select(Side::Back).id == card.id,
        card.select(Side::Both) == card,
{
}

/// Selecting the same side a second time changes nothing more.
pub proof fn lemma_select_side_idempotent(card: CardView, side: Side)
    ensures
        card.select(side).select(side) == card.select(side),
{
}

/// What the study command was asked: the deck to study from, if one was
/// named, and the side token.
#[derive(Clone, Debug, PartialEq, Eq)]
pub struct StudyRequest {
    pub deck_id: Option<i64>,
    pub side: String,
}

/// What happened last while a card is being fetched for study. Failures of
/// the collection come as the message that the collection gave.
#[derive(Debug, PartialEq, Eq)]
pub enum StudyEvent {
    /// Nothing yet: the command has just been given.
    Start,
    /// The collection was asked to make the named deck the current one.
    DeckSelected(Result<(), String>),
    /// The review queue was asked for the card that is due next.
    NextEntry(Result<Option<i64>, String>),
    /// The template renderer was asked for the card `card_id`.
    Rendered { card_id: i64, rendered: Result<RenderedCard, String> },
}

/// What is to be done next while a card is being fetched for study.
#[derive(Debug, PartialEq, Eq)]
pub enum StudyAction {
    /// Make this deck the current one.
    SelectDeck(i64),
    /// Ask the review queue for the card that is due next.
    FetchNext,
    /// Ask the template renderer for this card.
    Render(i64),
    /// Nothing more: this is the outcome of the command.
    Done(Result<Card, Error>),
}

/// What a study request holds.
pub ghost struct StudyRequestView {
    pub deck_id: Option<i64>,
    pub side: Seq<char>,
}

/// What a study event holds.
pub ghost enum StudyEventView {
    Start,
    DeckSelected(Result<(), Seq<char>>),
    NextEntry(Result<Option<i64>, Seq<char>>),
    Rendered { card_id: i64, rendered: Result<RenderedCardView, Seq<char>> },
}

/// What a study action holds.
pub ghost enum StudyActionView {
    SelectDeck(i64),
    FetchNext,
    Render(i64),
    Done(Result<CardView, ErrorView>),
}

impl View for StudyRequest {
    type V = StudyRequestView;

    open spec fn view(&self) -> StudyRequestView {
        StudyRequestView { deck_id: self.deck_id, side: self.side@ }
    }
}

impl View for StudyEvent {
    type V = StudyEventView;

    open spec fn view(&self) -> StudyEventView {
        match *self {
            StudyEvent::Start => StudyEventView::Start,
            StudyEvent::DeckSelected(outcome) => StudyEventView::DeckSelected(
                match outcome {
                    Ok(done) => Ok(done),
                    Err(message) => Err(message@),
                },
            ),
            StudyEvent::NextEntry(entry) => StudyEventView::NextEntry(
                match entry {
                    Ok(due) => Ok(due),
                    Err(message) => Err(message@),
                },
            ),
            StudyEvent::Rendered { card_id, rendered } => StudyEventView::Rendered {
                card_id,
                rendered: match rendered {
                    Ok(nodes) => Ok(nodes@),
                    Err(message) => Err(message@),
                },
            },
        }
    }
}

impl View for StudyAction {
    type V = StudyActionView;

    open spec fn view(&self) -> StudyActionView {
        match *self {
            StudyAction::SelectDeck(deck_id) => StudyActionView::SelectDeck(deck_id),
            StudyAction::FetchNext => StudyActionView::FetchNext,
            StudyAction::Render(card_id) => StudyActionView::Render(card_id),
            StudyAction::Done(outcome) => StudyActionView::Done(
                match outcome {
                    Ok(card) => Ok(card@),
                    Err(error) => Err(error@),
                },
            ),
        }
    }
}

/// The side that the study command shows for a side token: the side that
/// the token names, and both sides for a token that names none.
pub open spec fn side_or_both(token: Seq<char>) -> Side {
    match side_of_token(token) {
        Some(named) => named,
        None => Side::Both,
    }
}

/// The next action of the study command after `event`.
///
/// The command first makes the named deck the current one, if a deck was
/// named, then asks the queue for the next due card, then has that card
/// rendered, and ends with the card with the side selected that the side
/// token asks for. A queue that holds no due card ends the command with
/// `NoCardAvailable`; a failure of the collection ends it with the
/// collection's message.
pub open spec fn study_step(request: StudyRequestView, event: StudyEventView) -> StudyActionView {
    match event {
        StudyEventView::Start => match request.deck_id {
            Some(deck_id) => StudyActionView::SelectDeck(deck_id),
            None => StudyActionView::FetchNext,
        },
        StudyEventView::DeckSelected(Ok(_)) => StudyActionView::FetchNext,
        StudyEventView::DeckSelected(Err(message)) => StudyActionView::Done(
            Err(ErrorView::Anki(message)),
        ),
        StudyEventView::NextEntry(Ok(Some(card_id))) => StudyActionView::Render(card_id),
        StudyEventView::NextEntry(Ok(None)) => StudyActionView::Done(Err(ErrorView::NoCardAvailable)),
        StudyEventView::NextEntry(Err(message)) => StudyActionView::Done(
            Err(ErrorView::Anki(message)),
        ),
        StudyEventView::Rendered { card_id, rendered: Ok(nodes) } => StudyActionView::Done(
            Ok(nodes.card(card_id).select(side_or_both(request.side))),
        ),
        StudyEventView::Rendered { rendered: Err(message), .. } => StudyActionView::Done(
            Err(ErrorView::Anki(message)),
        ),
    }
}

/// Decides what the study command does next. The caller carries out the
/// action on the collection and comes back with the event that tells how it went.
pub fn study_card(request: &StudyRequest, event: StudyEvent) -> (action: StudyAction)
    ensures
        action@ == study_step(request@, event@),
{
    match event {
        StudyEvent::Start => match request.deck_id {
            Some(deck_id) => StudyAction::SelectDeck(deck_id),
            None => StudyAction::FetchNext,
        },
        StudyEvent::DeckSelected(Ok(_)) => StudyAction::FetchNext,
        StudyEvent::DeckSelected(Err(message)) => StudyAction::Done(Err(Error::Anki(message))),
        StudyEvent::NextEntry(entry) => next_card(entry),
        StudyEvent::Rendered { card_id, rendered: Ok(nodes) } => {
            let side = Side::parse_or_both(request.side.as_str());
            StudyAction::Done(Ok(select_side(render(card_id, nodes), side)))
        },
        StudyEvent::Rendered { rendered: Err(message), .. } => StudyAction::Done(
            Err(Error::Anki(message)),
        ),
    }
}

/// What follows from the queue's reply: the due card is rendered next, and a
/// queue without a due card ends the command with `NoCardAvailable`.
fn next_card(entry: Result<Option<i64>, String>) -> (action: StudyAction)
    ensures
        action@ == match entry {
            Ok(Some(card_id)) => StudyActionView::Render(card_id),
            Ok(None) => StudyActionView::Done(Err(ErrorView::NoCardAvailable)),
            Err(message) => StudyActionView::Done(Err(ErrorView::Anki(message@))),
        },
{
    match entry {
        Ok(Some(card_id)) => StudyAction::Render(card_id),
        Ok(None) => StudyAction::Done(Err(Error::NoCardAvailable)),
        Err(message) => StudyAction::Done(Err(Error::Anki(message))),
    }
}

/// How a collection answers while a card is being fetched for study: how it
/// takes the choice of each deck, which card its queue holds next, and what
/// its renderer makes of each card.
pub ghost struct StudyReplies {
    pub deck_selected: spec_fn(i64) -> Result<(), Seq<char>>,
    pub next_entry: Result<Option<i64>, Seq<char>>,
    pub rendered: spec_fn(i64) -> Result<RenderedCardView, Seq<char>>,
}

impl StudyReplies {
    /// The event that follows when `action` is carried out on this collection.
    pub open spec fn reply(self, action: StudyActionView) -> StudyEventView {
        match action {
            StudyActionView::SelectDeck(deck_id) => StudyEventView::DeckSelected(
                (self.deck_selected)(deck_id),
            ),
            StudyActionView::FetchNext => StudyEventView::NextEntry(self.next_entry),
            StudyActionView::Render(card_id) => StudyEventView::Rendered {
                card_id,
                rendered: (self.rendered)(card_id),
            },
            StudyActionView::Done(_) => StudyEventView::Start,
        }
    }
}

/// Where the command stands after `exchanges` actions were carried out on
/// `collection`, each decided by `study_step` from the reply to the one before.
pub open spec fn study_after(request: StudyRequestView, collection: StudyReplies, exchanges: nat) -> StudyActionView
    decreases exchanges,
{
    if exchanges == 0 {
        study_step(request, StudyEventView::Start)
    } else {
        let before = study_after(request, collection, (exchanges - 1) as nat);
        match before {
            StudyActionView::Done(_) => before,
            _ => study_step(request, collection.reply(before)),
        }
    }
}

/// What becomes of a study command on a collection, without running it: the
/// first failure among choosing the deck, asking the queue and rendering, or
/// the rendered card with its side selected when none fails.
pub open spec fn study_outcome(request: StudyRequestView, collection: StudyReplies) -> Result<
    CardView,
    ErrorView,
> {
    let chosen: Result<(), Seq<char>> = match request.deck_id {
        Some(deck_id) => (collection.deck_selected)(deck_id),
        None => Ok(()),
    };
    match chosen {
        Err(message) => Err(ErrorView::Anki(message)),
        Ok(_) => match collection.next_entry {
            Err(message) => Err(ErrorView::Anki(message)),
            Ok(None) => Err(ErrorView::NoCardAvailable),
            Ok(Some(card_id)) => match (collection.rendered)(card_id) {
                Err(message) => Err(ErrorView::Anki(message)),
                Ok(nodes) => Ok(nodes.card(card_id).select(side_or_both(request.side))),
            },
        },
    }
}

/// A study command is over after three exchanges with the collection at
/// most, whatever the collection replies, and ends as `study_outcome` says.
pub proof fn lemma_study_ends(request: StudyRequestView, collection: StudyReplies)
    ensures
        study_after(request, collection, 3) == StudyActionView::Done(
            study_outcome(request, collection),
        ),
{
    reveal_with_fuel(study_after, 4);
}

/// When the queue holds no due card, the study command ends without a card:
/// with `NoCardAvailable`, or with the collection's message where choosing
/// the deck had failed before the queue was asked.
pub proof fn lemma_no_card_no_view(request: StudyRequestView, collection: StudyReplies)
    requires
        collection.next_entry == Ok::<Option<i64>, Seq<char>>(None),
    ensures
        study_outcome(request, collection) is Err,
        study_outcome(request, collection) != Err::<CardView, ErrorView>(ErrorView::NoCardAvailable)
            ==> (request.deck_id matches Some(deck_id) && (collection.deck_selected)(deck_id) is Err),
{
}

/// A study command that ends with a card shows the card that the queue
/// named, as the renderer made it, with the side selected that was asked for.
pub proof fn lemma_card_comes_from_renderer(request: StudyRequestView, collection: StudyReplies)
    ensures
        study_outcome(request, collection) matches Ok(card) ==> {
            &&& collection.next_entry matches Ok(Some(card_id))
            &&& (collection.rendered)(card_id) matches Ok(nodes)
            &&& card == nodes.card(card_id).select(side_or_both(request.side))
            &&& card.id == card_id
        },
{
}

} // verus!
