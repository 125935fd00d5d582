use anki_cli::note::{NoteEdit, NoteTypeKey};
use anki_cli::notetype::{
    view_notetypes, CardRequirement, CardRequirementKind, CardTemplate, NoteField, NoteKind, NoteType,
    NoteTypeConfig, NoteTypesAction, NoteTypesEvent, NoteTypesRequest,
};
use anki_cli::util::{Error, MessageType};

fn notetype(id: i64, name: &str) -> NoteType {
    NoteType {
        id,
        name: name.to_string(),
        mtime: 1_600_000_000,
        fields: vec![NoteField {
            name: "Front".to_string(),
            sticky: false,
            rtl: false,
            font_name: "Arial".to_string(),
            font_size: 20,
        }],
        templates: vec![CardTemplate {
            name: "Card 1".to_string(),
            mtime: 0,
            q_format: "{{Front}}".to_string(),
            a_format: "{{FrontSide}}<hr id=answer>{{Back}}".to_string(),
            target_deck_id: 0,
        }],
        config: NoteTypeConfig {
            kind: NoteKind::Normal,
            sort_field_idx: 0,
            css: ".card {}".to_string(),
            target_deck_id: 1,
            latex_pre: String::new(),
            latex_post: String::new(),
            latex_svg: false,
            reqs: vec![CardRequirement { kind: CardRequirementKind::Any, card_ord: 0, field_ords: vec![0] }],
        },
    }
}

#[test]
fn note_kinds() {
    assert_eq!(NoteKind::try_from(0), Ok(NoteKind::Normal));
    assert_eq!(NoteKind::try_from(1), Ok(NoteKind::Cloze));
    assert_eq!(NoteKind::try_from(2), Err(Error::InvalidNumber("2".to_string(), "0, 1".to_string())));
    assert_eq!(NoteKind::try_from(-1), Err(Error::InvalidNumber("-1".to_string(), "0, 1".to_string())));
    assert_eq!(
        NoteKind::try_from(i32::MIN),
        Err(Error::InvalidNumber("-2147483648".to_string(), "0, 1".to_string()))
    );
}

#[test]
fn requirement_kinds() {
    assert_eq!(CardRequirementKind::try_from(0), Ok(CardRequirementKind::NoneOf));
    assert_eq!(CardRequirementKind::try_from(1), Ok(CardRequirementKind::Any));
    assert_eq!(CardRequirementKind::try_from(2), Ok(CardRequirementKind::All));
    assert_eq!(
        CardRequirementKind::try_from(3),
        Err(Error::InvalidNumber("3".to_string(), "0, 1, 2".to_string()))
    );
    assert_eq!(
        CardRequirementKind::try_from(i32::MAX),
        Err(Error::InvalidNumber("2147483647".to_string(), "0, 1, 2".to_string()))
    );
}

#[test]
fn invalid_kind_line() {
    let err = NoteKind::try_from(9).unwrap_err();
    assert_eq!(err.message(), "invalid number format `9`, must be in `[0, 1]`");
}

#[test]
fn notetypes_by_identifier() {
    let req = NoteTypesRequest { note_ids: Some(vec!["12".to_string(), "x".to_string(), "-4".to_string()]) };
    assert_eq!(view_notetypes(&req, NoteTypesEvent::Start), NoteTypesAction::Lookup(vec![12, -4]));
    let replies = vec![Ok(Some(notetype(12, "Basic"))), Err("gone".to_string()), Ok(None), Ok(Some(notetype(3, "Cloze")))];
    assert_eq!(
        view_notetypes(&req, NoteTypesEvent::Found(replies)),
        NoteTypesAction::Done(Ok(MessageType::NoteTypes(vec![notetype(12, "Basic"), notetype(3, "Cloze")])))
    );
}

#[test]
fn notetypes_by_identifier_with_nothing_found() {
    let req = NoteTypesRequest { note_ids: Some(vec!["12".to_string()]) };
    assert_eq!(view_notetypes(&req, NoteTypesEvent::Found(vec![])), NoteTypesAction::Done(Err(Error::NoResults)));
    assert_eq!(
        view_notetypes(&req, NoteTypesEvent::Found(vec![Ok(None), Err("x".to_string())])),
        NoteTypesAction::Done(Err(Error::NoResults))
    );
}

#[test]
fn all_notetypes() {
    let req = NoteTypesRequest { note_ids: None };
    assert_eq!(view_notetypes(&req, NoteTypesEvent::Start), NoteTypesAction::LookupAll);
    assert_eq!(
        view_notetypes(&req, NoteTypesEvent::All(Ok(vec![notetype(1, "Basic")]))),
        NoteTypesAction::Done(Ok(MessageType::NoteTypes(vec![notetype(1, "Basic")])))
    );
    assert_eq!(
        view_notetypes(&req, NoteTypesEvent::All(Ok(vec![]))),
        NoteTypesAction::Done(Ok(MessageType::NoteTypes(vec![])))
    );
    assert_eq!(
        view_notetypes(&req, NoteTypesEvent::All(Err("db".to_string()))),
        NoteTypesAction::Done(Err(Error::Anki("db".to_string())))
    );
}

#[test]
fn note_type_argument() {
    assert_eq!(NoteTypeKey::parse("1234"), NoteTypeKey::Id(1234));
    assert_eq!(NoteTypeKey::parse("-1"), NoteTypeKey::Id(-1));
    assert_eq!(NoteTypeKey::parse("Basic"), NoteTypeKey::Name("Basic".to_string()));
    assert_eq!(NoteTypeKey::parse("12 Basic"), NoteTypeKey::Name("12 Basic".to_string()));
    assert_eq!(NoteTypeKey::parse(""), NoteTypeKey::Name(String::new()));
}

#[test]
fn edit_writes_back_for_note_type_or_tags() {
    let nothing = NoteEdit { card_id: 1, deck_id: None, note_type_id: None, tags: None, fields: None };
    assert!(!nothing.needs_update());
    assert!(!NoteEdit { deck_id: Some(1), ..nothing.clone() }.needs_update());
    assert!(!NoteEdit { fields: Some(vec!["a".to_string()]), ..nothing.clone() }.needs_update());
    assert!(NoteEdit { note_type_id: Some(5), ..nothing.clone() }.needs_update());
    assert!(NoteEdit { tags: Some(vec![]), ..nothing.clone() }.needs_update());
    assert!(NoteEdit { note_type_id: Some(5), tags: Some(vec!["t".to_string()]), ..nothing }.needs_update());
}
