use sonic_channel::ChannelMode;
use sonic_channel::ErrorKind;
use sonic_channel::RawCommand;
use sonic_channel::SonicStream;
use sonic_channel::StreamCommand;

fn fresh_connection() -> SonicStream {
    SonicStream::from_greeting("CONNECTED <sonic-server>\r\n").unwrap()
}

#[test]
fn failed_write_short_circuits_before_any_read() {
    let conn = fresh_connection();
    let command = conn.start_command(ChannelMode::Search, String::from("pw")).unwrap();
    // A failed write yields no line count to read: the dispatch ends here.
    let err = conn.write_step(&command, false).unwrap_err();
    assert_eq!(err.kind, ErrorKind::WriteToStream);
}

#[test]
fn failed_read_short_circuits_before_decode() {
    let conn = fresh_connection();
    let command = conn.start_command(ChannelMode::Search, String::from("pw")).unwrap();
    // A failed read never reaches the command's decode step: the error kind
    // is ReadStream, not a decode failure, even though no reply would decode.
    let err = conn.read_step(command, None).unwrap_err();
    assert_eq!(err.kind, ErrorKind::ReadStream);
}

#[test]
fn successful_write_asks_for_the_declared_line_count() {
    let conn = fresh_connection();
    let command = RawCommand { line: String::from("PING\r\n") };
    assert_eq!(command.read_lines_count(), 1);
    assert_eq!(conn.write_step(&command, true).unwrap(), 1);
}

#[test]
fn raw_command_echo_round_trip() {
    // A command whose decode is the identity: dispatching it over a transport
    // that echoes the written message returns the original value.
    let conn = fresh_connection();
    let command = RawCommand { line: String::from("PING\r\n") };
    let sent = command.message();
    assert_eq!(sent, "PING\r\n");
    let received = conn.read_step(command, Some(sent)).unwrap();
    assert_eq!(received, "PING\r\n");
}

#[test]
fn raw_command_passes_reply_through_unchanged() {
    let conn = fresh_connection();
    let command = RawCommand { line: String::from("HELP commands\r\n") };
    let received = conn.read_step(command, Some(String::from("RESULT commands(QUERY)\r\n"))).unwrap();
    assert_eq!(received, "RESULT commands(QUERY)\r\n");
}

#[test]
fn start_command_renders_exact_wire_message() {
    let conn = fresh_connection();
    let command = conn.start_command(ChannelMode::Control, String::from("S3cr3t!")).unwrap();
    assert_eq!(command.message(), "START control S3cr3t!\r\n");
    assert_eq!(command.read_lines_count(), 1);
}
