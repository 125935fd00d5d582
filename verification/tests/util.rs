use anki_cli::decks::Deck;
use anki_cli::util::{print_output, Error, MessageType, Output, OutputFormat, Print, Status};
use anki_cli::view_card::Card;

#[test]
fn error_lines() {
    assert_eq!(Error::Anki("card not found".to_string()).message(), "anki error: card not found");
    assert_eq!(
        Error::InvalidParam("foo".to_string(), "bar".to_string()).message(),
        "invalid parameter `foo`, must be `bar`"
    );
    assert_eq!(Error::NoResults.message(), "no results found");
    assert_eq!(
        Error::InvalidNumber("7".to_string(), "0, 1".to_string()).message(),
        "invalid number format `7`, must be in `[0, 1]`"
    );
    assert_eq!(Error::NoCardAvailable.message(), "no card available");
    assert_eq!(Error::StaleState.message(), "stale scheduling state");
}

#[test]
fn error_line_keeps_the_collection_message_as_it_came() {
    let message = "  DbError { info: \"locked\" }\n";
    assert_eq!(Error::Anki(message.to_string()).message(), format!("anki error: {}", message));
    assert_eq!(Error::Anki(String::new()).message(), "anki error: ");
}

#[test]
fn output_of_a_success_keeps_the_message() {
    let decks = vec![Deck { id: 1, name: "A".to_string(), ..Deck::default() }];
    let output = Output::from(Ok(MessageType::Decks(decks.clone())));
    assert_eq!(output, Output { status: Status::Success, message: MessageType::Decks(decks) });
    let empty = Output::from(Ok(MessageType::Empty));
    assert_eq!(empty, Output { status: Status::Success, message: MessageType::Empty });
}

#[test]
fn output_of_a_failure_is_the_error_line() {
    let output = Output::from(Err(Error::NoResults));
    assert_eq!(output, Output { status: Status::Error, message: MessageType::Message("no results found".to_string()) });
    let output = Output::from(Err(Error::Anki("boom".to_string())));
    assert_eq!(output, Output { status: Status::Error, message: MessageType::Message("anki error: boom".to_string()) });
}

#[test]
fn format_tokens() {
    assert_eq!(OutputFormat::parse("pretty-json"), Some(OutputFormat::PrettyJson));
    assert_eq!(OutputFormat::parse("json"), Some(OutputFormat::Json));
    assert_eq!(OutputFormat::parse("yaml"), None);
    assert_eq!(OutputFormat::parse(""), None);
    assert_eq!(OutputFormat::parse("JSON"), None);
}

#[test]
fn print_plan() {
    let card = MessageType::Card(Card { id: 1, back: vec![], front: vec![] });
    assert_eq!(print_output("json", &Ok(card.clone())), Print::Message(OutputFormat::Json));
    assert_eq!(print_output("pretty-json", &Ok(card.clone())), Print::Message(OutputFormat::PrettyJson));
    assert_eq!(print_output("xml", &Ok(card)), Print::Nothing);
    assert_eq!(print_output("json", &Ok(MessageType::Empty)), Print::Nothing);
    assert_eq!(
        print_output("json", &Ok(MessageType::Message("hi".to_string()))),
        Print::Message(OutputFormat::Json)
    );
    assert_eq!(
        print_output("json", &Err(Error::NoCardAvailable)),
        Print::ErrorLine("no card available".to_string())
    );
    assert_eq!(print_output("xml", &Err(Error::NoResults)), Print::ErrorLine("no results found".to_string()));
}
