use tron_server::game::{ToClientMessage, WinState};
use tron_server::geometry::Direction;
use tron_server::protocol::{encode_message, parse_direction, trim_line, ClientRecvFailure};

#[test]
fn parse_valid_directions() {
    assert_eq!(parse_direction(b"u\n"), Ok(Direction::Up));
    assert_eq!(parse_direction(b"d\n"), Ok(Direction::Down));
    assert_eq!(parse_direction(b"l\n"), Ok(Direction::Left));
    assert_eq!(parse_direction(b"r\n"), Ok(Direction::Right));
}

#[test]
fn parse_rejects_bad_lines() {
    // The wrong letter, even with a valid length.
    assert_eq!(parse_direction(b"xx"), Err(ClientRecvFailure::ParseError));
    // Uppercase is not accepted.
    assert_eq!(parse_direction(b"U\n"), Err(ClientRecvFailure::ParseError));
    // Too short and too long.
    assert_eq!(parse_direction(b"u"), Err(ClientRecvFailure::ParseError));
    assert_eq!(parse_direction(b"up\n"), Err(ClientRecvFailure::ParseError));
    assert_eq!(parse_direction(b""), Err(ClientRecvFailure::ParseError));
    // A valid letter without the line terminator, as from a truncated read.
    assert_eq!(parse_direction(b"ux"), Err(ClientRecvFailure::ParseError));
    assert_eq!(parse_direction(b"uu"), Err(ClientRecvFailure::ParseError));
    // Non-ASCII content.
    assert_eq!(parse_direction(&[117, 200]), Err(ClientRecvFailure::ParseError));
    assert_eq!(parse_direction(&[200, 10]), Err(ClientRecvFailure::ParseError));
}

#[test]
fn trim_strips_trailing_whitespace_only() {
    assert_eq!(trim_line(b"alice\n"), b"alice".to_vec());
    assert_eq!(trim_line(b"bob \r\n"), b"bob".to_vec());
    // Leading whitespace is part of the name; only the tail is trimmed.
    assert_eq!(trim_line(b"  bob \r\n"), b"  bob".to_vec());
    assert_eq!(trim_line(b"\t carol \t"), b"\t carol".to_vec());
    assert_eq!(trim_line(b"inner space\n"), b"inner space".to_vec());
    assert_eq!(trim_line(b""), Vec::<u8>::new());
    assert_eq!(trim_line(b" \n\r\t"), Vec::<u8>::new());
}

#[test]
fn encode_terminal_messages() {
    assert_eq!(encode_message(ToClientMessage::End(WinState::Win)), b"WIN\n".to_vec());
    assert_eq!(encode_message(ToClientMessage::End(WinState::Loss)), b"LOSS\n".to_vec());
    assert_eq!(encode_message(ToClientMessage::End(WinState::Tie)), b"TIE\n".to_vec());
}

#[test]
fn encode_update_messages() {
    assert_eq!(encode_message(ToClientMessage::Update(484, 539)), b"484 539\n".to_vec());
    assert_eq!(encode_message(ToClientMessage::Update(0, 5)), b"0 5\n".to_vec());
    assert_eq!(encode_message(ToClientMessage::Update(1023, 992)), b"1023 992\n".to_vec());
    assert_eq!(encode_message(ToClientMessage::Update(10, 100)), b"10 100\n".to_vec());
}
