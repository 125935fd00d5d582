use anki_cli::note::{add_note, edit_card, AddAction, AddEvent, EditAction, EditEvent, NewNote, NoteEdit, NoteTypeKey};
use anki_cli::util::Error;

fn edit(deck_id: Option<i64>, note_type_id: Option<i64>, tags: Option<Vec<String>>) -> NoteEdit {
    NoteEdit { card_id: 8, deck_id, note_type_id, tags, fields: Some(vec!["front".to_string()]) }
}

fn new_note(note_type: &str) -> NewNote {
    NewNote { deck_id: 2, note_type: note_type.to_string(), fields: vec!["a".to_string(), "b".to_string()], tags: None }
}

#[test]
fn edit_moves_the_card_first_if_a_deck_is_given() {
    assert_eq!(
        edit_card(&edit(Some(3), None, None), EditEvent::Start),
        EditAction::MoveToDeck { card_id: 8, deck_id: 3 }
    );
    assert_eq!(edit_card(&edit(None, None, None), EditEvent::Start), EditAction::Load(8));
    assert_eq!(edit_card(&edit(Some(3), None, None), EditEvent::Moved(Ok(()))), EditAction::Load(8));
}

#[test]
fn edit_ends_when_the_move_is_refused() {
    assert_eq!(
        edit_card(&edit(Some(3), None, None), EditEvent::Moved(Err("no deck".to_string()))),
        EditAction::Done(Err(Error::Anki("no deck".to_string())))
    );
}

#[test]
fn edit_writes_back_only_where_needed() {
    assert_eq!(edit_card(&edit(None, None, None), EditEvent::Loaded), EditAction::Edit { write_back: false });
    assert_eq!(edit_card(&edit(None, Some(1), None), EditEvent::Loaded), EditAction::Edit { write_back: true });
    assert_eq!(
        edit_card(&edit(None, None, Some(vec![])), EditEvent::Loaded),
        EditAction::Edit { write_back: true }
    );
    assert_eq!(edit_card(&edit(None, Some(1), None), EditEvent::Edited), EditAction::Done(Ok(())));
}

#[test]
fn add_looks_the_note_type_up_by_identifier_or_name() {
    assert_eq!(add_note(&new_note("77"), AddEvent::Start), AddAction::Lookup(NoteTypeKey::Id(77)));
    assert_eq!(
        add_note(&new_note("Basic (and reversed card)"), AddEvent::Start),
        AddAction::Lookup(NoteTypeKey::Name("Basic (and reversed card)".to_string()))
    );
}

#[test]
fn add_goes_on_to_the_deck_and_ends_with_the_collection() {
    assert_eq!(add_note(&new_note("77"), AddEvent::NoteTypeFound), AddAction::Add { deck_id: 2 });
    assert_eq!(add_note(&new_note("77"), AddEvent::Added(Ok(()))), AddAction::Done(Ok(())));
    assert_eq!(
        add_note(&new_note("77"), AddEvent::Added(Err("duplicate".to_string()))),
        AddAction::Done(Err(Error::Anki("duplicate".to_string())))
    );
}
