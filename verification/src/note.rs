//! Adding and editing notes: what the commands decide before and after the
//! collection does the work.

use crate::text::{parse_i64, parsed_i64};
use crate::util::{Error, ErrorView};
use vstd::prelude::*;

verus! {

/// How a command names a note type: by its identifier or by its name.
#[derive(Clone, Debug, PartialEq, Eq)]
pub enum NoteTypeKey {
    Id(i64),
    Name(String),
}

impl NoteTypeKey {
    /// Reads the note type argument: text that writes an integer names the
    /// note type with that identifier, any other text is the note type's name.
    pub fn parse(raw: &str) -> (key: NoteTypeKey)
        ensures
            match parsed_i64(raw@) {
                Some(id) => key == NoteTypeKey::Id(id),
                None => key matches NoteTypeKey::Name(name) && name@ == raw@,
            },
    {
        match parse_i64(raw) {
            Some(id) => NoteTypeKey::Id(id),
            None => NoteTypeKey::Name(String::from_str(raw)),
        }
    }
}

/// What the edit command was asked: the card, and what to change on the
/// card and its note. Each change is there only if it was given.
#[derive(Clone, Debug, PartialEq, Eq)]
pub struct NoteEdit {
    pub card_id: i64,
    pub deck_id: Option<i64>,
    pub note_type_id: Option<i64>,
    pub tags: Option<Vec<String>>,
    pub fields: Option<Vec<String>>,
}

impl NoteEdit {
    /// Whether the edit changes what the collection stores of the note and
    /// so asks for the note to be written back.
    pub open spec fn spec_needs_update(&self) -> bool {
        self.note_type_id is Some || self.tags is Some
    }

    /// Whether the note has to be written back after the edit: it has where
    /// the note type or the tags were given. New field contents alone do
    /// not ask for it, nor does a move to another deck, which the
    /// collection does on the card.
    #[verifier::when_used_as_spec(spec_needs_update)]
    pub fn needs_update(&self) -> (needed: bool)
        ensures
            needed == self.spec_needs_update(),
    {
        self.note_type_id.is_some() || self.tags.is_some()
    }
}

/// What happened last while a card is being edited.
#[derive(Debug, PartialEq, Eq)]
pub enum EditEvent {
    /// Nothing yet: the command has just been given.
    Start,
    /// The collection was asked to move the card to the deck that was given.
    /// A failure comes as the message that the collection gave.
    Moved(Result<(), String>),
    /// The card and its note were fetched.
    Loaded,
    /// The note was changed as asked, and written back if that was asked.
    Edited,
}

/// What is to be done next while a card is being edited.
#[derive(Debug, PartialEq, Eq)]
pub enum EditAction {
    /// Move the card to this deck.
    MoveToDeck { card_id: i64, deck_id: i64 },
    /// Fetch this card and its note.
    Load(i64),
    /// Put the note type, the tags and the fields that were given on the
    /// note, and write the note back where `write_back` says so.
    Edit { write_back: bool },
    /// Nothing more: this is the outcome of the command.
    Done(Result<(), Error>),
}

/// Decides what the edit command does next: the card is moved first, if a
/// deck was given, then card and note are fetched and the note is changed.
/// Only a move that the collection refuses ends the command with an error.
pub fn edit_card(request: &NoteEdit, event: EditEvent) -> (action: EditAction)
    ensures
        match event {
            EditEvent::Start => match request.deck_id {
                Some(deck_id) => action == (EditAction::MoveToDeck { card_id: request.card_id, deck_id }),
                None => action == EditAction::Load(request.card_id),
            },
            EditEvent::Moved(Ok(_)) => action == EditAction::Load(request.card_id),
            EditEvent::Moved(Err(message)) => action matches EditAction::Done(Err(error)) && error@
                == ErrorView::Anki(message@),
            EditEvent::Loaded => action == (EditAction::Edit { write_back: request.needs_update() }),
            EditEvent::Edited => action == EditAction::Done(Ok(())),
        },
{
    match event {
        EditEvent::Start => match request.deck_id {
            Some(deck_id) => EditAction::MoveToDeck { card_id: request.card_id, deck_id },
            None => EditAction::Load(request.card_id),
        },
        EditEvent::Moved(Ok(_)) => EditAction::Load(request.card_id),
        EditEvent::Moved(Err(message)) => EditAction::Done(Err(Error::Anki(message))),
        EditEvent::Loaded => EditAction::Edit { write_back: request.needs_update() },
        EditEvent::Edited => EditAction::Done(Ok(())),
    }
}

/// What the add command was asked: the deck, the note type by identifier or
/// by name, the contents of the fields in order, and the tags if any were given.
#[derive(Clone, Debug, PartialEq, Eq)]
pub struct NewNote {
    pub deck_id: i64,
    pub note_type: String,
    pub fields: Vec<String>,
    pub tags: Option<Vec<String>>,
}

/// What happened last while a note is being added.
#[derive(Debug, PartialEq, Eq)]
pub enum AddEvent {
    /// Nothing yet: the command has just been given.
    Start,
    /// The note type was found.
    NoteTypeFound,
    /// The collection was handed the new note. A failure comes as the
    /// message that the collection gave.
    Added(Result<(), String>),
}

/// What is to be done next while a note is being added.
#[derive(Debug, PartialEq, Eq)]
pub enum AddAction {
    /// Fetch the note type that this key names.
    Lookup(NoteTypeKey),
    /// Make a note of the note type that was found, with the fields and the
    /// tags of the request, and add it to this deck.
    Add { deck_id: i64 },
    /// Nothing more: this is the outcome of the command.
    Done(Result<(), Error>),
}

/// Decides what the add command does next: the note type is looked up by
/// identifier where the argument writes an integer and by name where it
/// does not, then the note is added, and what the collection says of that
/// is the outcome.
pub fn add_note(request: &NewNote, event: AddEvent) -> (action: AddAction)
    ensures
        match event {
            AddEvent::Start => match parsed_i64(request.note_type@) {
                Some(id) => action == AddAction::Lookup(NoteTypeKey::Id(id)),
                None => action matches AddAction::Lookup(NoteTypeKey::Name(name)) && name@
                    == request.note_type@,
            },
            AddEvent::NoteTypeFound => action == (AddAction::Add { deck_id: request.deck_id }),
            AddEvent::Added(Ok(_)) => action == AddAction::Done(Ok(())),
            AddEvent::Added(Err(message)) => action matches AddAction::Done(Err(error)) && error@
                == ErrorView::Anki(message@),
        },
{
    match event {
        AddEvent::Start => AddAction::Lookup(NoteTypeKey::parse(request.note_type.as_str())),
        AddEvent::NoteTypeFound => AddAction::Add { deck_id: request.deck_id },
        AddEvent::Added(Ok(_)) => AddAction::Done(Ok(())),
        AddEvent::Added(Err(message)) => AddAction::Done(Err(Error::Anki(message))),
    }
}

} // verus!
