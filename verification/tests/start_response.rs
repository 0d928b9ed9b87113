use sonic_channel::ChannelMode;
use sonic_channel::Error;
use sonic_channel::ErrorKind;
use sonic_channel::StartCommand;
use sonic_channel::StartResponse;
use sonic_channel::StreamCommand;

fn decode(line: &str) -> Result<StartResponse, Error> {
    let command = StartCommand { mode: ChannelMode::Search, password: String::from("pw") };
    command.receive(String::from(line))
}

#[test]
fn decodes_search_confirmation() {
    let response = decode("STARTED search protocol(1) buffer(20000)\r\n").unwrap();
    assert_eq!(response.mode, ChannelMode::Search);
    assert_eq!(response.protocol_version, 1);
    assert_eq!(response.max_buffer_size, 20000);
}

#[test]
fn decodes_ingest_confirmation() {
    let response = decode("STARTED ingest protocol(1) buffer(20000)\r\n").unwrap();
    assert_eq!(response.mode, ChannelMode::Ingest);
}

#[test]
fn decodes_control_confirmation() {
    let response = decode("STARTED control protocol(3) buffer(42)\r\n").unwrap();
    assert_eq!(response.mode, ChannelMode::Control);
    assert_eq!(response.protocol_version, 3);
    assert_eq!(response.max_buffer_size, 42);
}

#[test]
fn decodes_without_line_terminator() {
    let response = decode("STARTED search protocol(1) buffer(100)").unwrap();
    assert_eq!(response.max_buffer_size, 100);
}

#[test]
fn decodes_with_bare_newline() {
    let response = decode("STARTED search protocol(1) buffer(100)\n").unwrap();
    assert_eq!(response.max_buffer_size, 100);
}

#[test]
fn decodes_leading_zeros() {
    let response = decode("STARTED search protocol(007) buffer(010)\r\n").unwrap();
    assert_eq!(response.protocol_version, 7);
    assert_eq!(response.max_buffer_size, 10);
}

#[test]
fn rejects_wrong_verb() {
    let err = decode("ENDED quit\r\n").unwrap_err();
    assert_eq!(err.kind, ErrorKind::WrongResponse);
}

#[test]
fn rejects_unknown_mode() {
    let err = decode("STARTED banana protocol(1) buffer(1)\r\n").unwrap_err();
    assert_eq!(err.kind, ErrorKind::WrongResponse);
}

#[test]
fn rejects_empty_protocol_digits() {
    let err = decode("STARTED search protocol() buffer(1)\r\n").unwrap_err();
    assert_eq!(err.kind, ErrorKind::WrongResponse);
}

#[test]
fn rejects_non_digit_value() {
    let err = decode("STARTED search protocol(x1) buffer(1)\r\n").unwrap_err();
    assert_eq!(err.kind, ErrorKind::WrongResponse);
}

#[test]
fn rejects_unclosed_buffer_field() {
    let err = decode("STARTED search protocol(1) buffer(20000\r\n").unwrap_err();
    assert_eq!(err.kind, ErrorKind::WrongResponse);
}

#[test]
fn rejects_trailing_text() {
    let err = decode("STARTED search protocol(1) buffer(20000) extra\r\n").unwrap_err();
    assert_eq!(err.kind, ErrorKind::WrongResponse);
}

#[test]
fn rejects_value_too_large_for_usize() {
    let err = decode("STARTED search protocol(1) buffer(99999999999999999999999999999)\r\n")
        .unwrap_err();
    assert_eq!(err.kind, ErrorKind::WrongResponse);
}

#[test]
fn rejects_empty_line() {
    let err = decode("").unwrap_err();
    assert_eq!(err.kind, ErrorKind::WrongResponse);
}

#[test]
fn accepts_largest_fitting_value() {
    let line = format!("STARTED search protocol(1) buffer({})\r\n", usize::MAX);
    let response = decode(&line).unwrap();
    assert_eq!(response.max_buffer_size, usize::MAX);
}

#[test]
fn rejects_one_past_largest_fitting_value() {
    // usize::MAX plus one, written out for a 64-bit usize.
    let err = decode("STARTED search protocol(1) buffer(18446744073709551616)\r\n").unwrap_err();
    assert_eq!(err.kind, ErrorKind::WrongResponse);
}
