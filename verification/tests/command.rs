use vent_txt::command::{parse_command, usage_text, Command, CommandError};
use vent_txt::error::{InvalidInput, VentError};

fn parse(items: &[&str]) -> Result<Command, CommandError> {
    parse_command(items.iter().map(|s| s.to_string()).collect())
}

fn refused(fault: InvalidInput) -> Result<Command, CommandError> {
    Err(CommandError::Refused(VentError::InvalidInput(fault)))
}

#[test]
fn add_takes_every_word_as_the_message() {
    assert_eq!(parse(&["add", "hello", "world"]), Ok(Command::Add { message: "hello world".to_string() }));
    assert_eq!(parse(&["add", ">>3", "me", "too"]), Ok(Command::Add { message: ">>3 me too".to_string() }));
    assert_eq!(parse(&["add", "12"]), Ok(Command::Add { message: "12".to_string() }));
}

#[test]
fn add_refuses_a_message_that_cannot_be_stored() {
    assert_eq!(parse(&["add"]), refused(InvalidInput::EmptyMessage));
    assert_eq!(parse(&["add", " ", ""]), refused(InvalidInput::EmptyMessage));
    assert_eq!(parse(&["add", "two\nlines"]), refused(InvalidInput::MessageWithNewLine));
}

#[test]
fn edit_takes_a_position_and_then_the_message() {
    assert_eq!(
        parse(&["edit", "4", "new", "text"]),
        Ok(Command::Edit { message_id: 4, message: "new text".to_string() })
    );
    assert_eq!(parse(&["edit", "0", "1"]), Ok(Command::Edit { message_id: 0, message: "1".to_string() }));
    assert_eq!(parse(&["edit", "+3", "x"]), Ok(Command::Edit { message_id: 3, message: "x".to_string() }));
    assert_eq!(parse(&["rm", "+3"]), Ok(Command::Remove { message_id: 3 }));
}

#[test]
fn edit_refuses_a_bad_position_before_a_bad_message() {
    assert_eq!(parse(&["edit"]), refused(InvalidInput::InvalidMessageId));
    assert_eq!(parse(&["edit", "x"]), refused(InvalidInput::InvalidMessageId));
    assert_eq!(parse(&["edit", "x", "text"]), refused(InvalidInput::InvalidMessageId));
    assert_eq!(parse(&["edit", "4"]), refused(InvalidInput::EmptyMessage));
    assert_eq!(parse(&["edit", "4", "a\rb"]), refused(InvalidInput::MessageWithNewLine));
}

#[test]
fn rm_takes_a_position() {
    assert_eq!(parse(&["rm", "7"]), Ok(Command::Remove { message_id: 7 }));
    assert_eq!(parse(&["rm", "7", "and", "more"]), Ok(Command::Remove { message_id: 7 }));
    assert_eq!(parse(&["rm"]), refused(InvalidInput::InvalidMessageId));
    assert_eq!(parse(&["rm", "seven"]), refused(InvalidInput::InvalidMessageId));
}

#[test]
fn render_takes_nothing() {
    assert_eq!(parse(&["render"]), Ok(Command::Render));
    assert_eq!(parse(&["render", "now"]), Ok(Command::Render));
}

#[test]
fn anything_else_asks_for_the_usage_text() {
    assert_eq!(parse(&[]), Err(CommandError::Usage));
    assert_eq!(parse(&["help"]), Err(CommandError::Usage));
    assert_eq!(parse(&["Add", "x"]), Err(CommandError::Usage));
    assert_eq!(parse(&["", "add"]), Err(CommandError::Usage));
    assert_eq!(parse(&["remove", "1"]), Err(CommandError::Usage));
}

#[test]
fn usage_text_names_the_program_on_every_command_line() {
    let expected = "Usage: vent add [message]\n\
                    \x20      vent add '>>[reply id]' [message]\n\
                    \x20      vent edit [message id] [message]\n\
                    \x20      vent rm [message id]\n\
                    \x20      vent render\n\
                    \n\
                    Environment: VENT_TXT_CSV    Vent database location\n\
                    \x20                            (default: 'vent.csv')\n\
                    \x20            VENT_TXT_HBS    Render template\n\
                    \x20                            (default: 'template/vent.hbs')\n";
    assert_eq!(usage_text("vent"), expected);
    assert_eq!(usage_text("./a b").lines().nth(3), Some("       ./a b rm [message id]"));
    assert_eq!(usage_text("").lines().count(), 10);
}
