use mcdcbot::events::{ChatMessage, JoinLeaveEvent, MinecraftServerEventType};
use mcdcbot::parse::{parse_line, ParseError, ParseOutput};
use mcdcbot::text::{escape_chat, escape_line};

fn chat(author: &str, message: &str) -> ParseOutput {
    ParseOutput::Event(MinecraftServerEventType::ChatMessage(ChatMessage {
        author: author.to_string(),
        message: message.to_string(),
    }))
}

fn join_leave(username: &str, joined: bool) -> ParseOutput {
    ParseOutput::Event(MinecraftServerEventType::JoinLeave(JoinLeaveEvent {
        username: username.to_string(),
        joined,
    }))
}

#[test]
fn chat_line_gives_author_and_text() {
    assert_eq!(parse_line("<Bob> hello"), chat("Bob", "hello"));
}

#[test]
fn chat_line_keeps_inner_brackets_and_spaces() {
    assert_eq!(
        parse_line("<Bob> a <b> c  d"),
        chat("Bob", "a <b> c  d")
    );
}

#[test]
fn chat_line_with_log_prefix() {
    assert_eq!(
        parse_line("[12:00:00] [Server thread/INFO]: <Alice> hi there"),
        chat("Alice", "hi there")
    );
}

#[test]
fn chat_line_with_empty_text() {
    assert_eq!(parse_line("<Bob> "), chat("Bob", ""));
}

#[test]
fn join_line() {
    assert_eq!(parse_line("Alice joined the game"), join_leave("Alice", true));
}

#[test]
fn leave_line_with_prefix() {
    assert_eq!(
        parse_line("[12:00:01] [Server thread/INFO]: Alice left the game"),
        join_leave("Alice", false)
    );
}

#[test]
fn join_line_with_space_in_name_is_nothing() {
    assert_eq!(parse_line("Al ice joined the game"), ParseOutput::Nothing);
    assert_eq!(parse_line(" joined the game"), ParseOutput::Nothing);
}

#[test]
fn other_lines_are_nothing() {
    assert_eq!(parse_line("Done (3.2s)! For help, type \"help\""), ParseOutput::Nothing);
    assert_eq!(parse_line(""), ParseOutput::Nothing);
    assert_eq!(
        parse_line("[12:00:00] [Server thread/INFO]: Starting minecraft server"),
        ParseOutput::Nothing
    );
}

#[test]
fn malformed_chat_lines_are_errors() {
    let malformed = ParseOutput::Error(ParseError::MalformedChatMessage);
    assert_eq!(parse_line("<Bob>hello"), malformed);
    assert_eq!(parse_line("<> hello"), malformed);
    assert_eq!(parse_line("<Bob hello"), malformed);
    assert_eq!(parse_line("<Bob>"), malformed);
}

#[test]
fn escape_line_escapes_line_breaks() {
    assert_eq!(escape_line("a\nb\rc"), "a\\nb\\rc");
    assert_eq!(escape_line("say \\ hi"), "say \\ hi");
    assert_eq!(escape_line(""), "");
}

#[test]
fn escape_chat_doubles_backslashes() {
    assert_eq!(escape_chat("a\\b\nc\r"), "a\\\\b\\nc\\r");
}
