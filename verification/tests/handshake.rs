use sonic_channel::ChannelMode;
use sonic_channel::ErrorKind;
use sonic_channel::SonicStream;
use sonic_channel::StreamCommand;

#[test]
fn connect_accepts_greeting() {
    let conn = SonicStream::from_greeting("CONNECTED <sonic-server v1.3.0>\r\n").unwrap();
    assert_eq!(conn.mode, None);
    assert_eq!(conn.max_buffer_size, 200);
    assert_eq!(conn.protocol_version, 1);
}

#[test]
fn connect_accepts_bare_token() {
    let conn = SonicStream::from_greeting("CONNECTED").unwrap();
    assert_eq!(conn.mode, None);
}

#[test]
fn connect_rejects_wrong_greeting() {
    let err = SonicStream::from_greeting("HELLO <sonic-server>\r\n").unwrap_err();
    assert_eq!(err.kind, ErrorKind::ConnectToServer);
}

#[test]
fn connect_rejects_lowercase_token() {
    let err = SonicStream::from_greeting("connected <sonic-server>\r\n").unwrap_err();
    assert_eq!(err.kind, ErrorKind::ConnectToServer);
}

#[test]
fn connect_rejects_empty_line() {
    let err = SonicStream::from_greeting("").unwrap_err();
    assert_eq!(err.kind, ErrorKind::ConnectToServer);
}

#[test]
fn start_records_negotiated_state_for_each_mode() {
    let modes = [ChannelMode::Search, ChannelMode::Ingest, ChannelMode::Control];
    for mode in modes {
        let mut conn = SonicStream::from_greeting("CONNECTED <sonic-server>\r\n").unwrap();
        let command = conn.start_command(mode, String::from("SecretPassword")).unwrap();
        let sent = command.message();
        assert_eq!(sent, format!("START {} SecretPassword\r\n", mode.to_str()));
        let lines = conn.write_step(&command, true).unwrap();
        assert_eq!(lines, 1);
        let reply = format!("STARTED {} protocol(1) buffer(20000)\r\n", mode.to_str());
        let response = conn.read_step(command, Some(reply)).unwrap();
        conn.apply_start(response).unwrap();
        assert_eq!(conn.mode, Some(mode));
        assert_eq!(conn.protocol_version, 1);
        assert_eq!(conn.max_buffer_size, 20000);
    }
}

#[test]
fn scenario_search_handshake() {
    // The server greets, then answers the exact start line with its
    // confirmation; the ready connection records what the reply encoded.
    let mut conn = SonicStream::from_greeting("CONNECTED <sonic-server v1.3.0>\r\n").unwrap();
    let command = conn.start_command(ChannelMode::Search, String::from("SecretPassword")).unwrap();
    assert_eq!(command.message(), "START search SecretPassword\r\n");
    let lines = conn.write_step(&command, true).unwrap();
    assert_eq!(lines, 1);
    let response = conn
        .read_step(command, Some(String::from("STARTED search protocol(1) buffer(20000)\r\n")))
        .unwrap();
    conn.apply_start(response).unwrap();
    assert_eq!(conn.mode, Some(ChannelMode::Search));
    assert_eq!(conn.protocol_version, 1);
    assert_eq!(conn.max_buffer_size, 20000);
}

#[test]
fn second_start_fails_with_run_command() {
    let mut conn = SonicStream::from_greeting("CONNECTED <sonic-server>\r\n").unwrap();
    let command = conn.start_command(ChannelMode::Ingest, String::from("pw")).unwrap();
    let response = conn
        .read_step(command, Some(String::from("STARTED ingest protocol(2) buffer(500)\r\n")))
        .unwrap();
    conn.apply_start(response).unwrap();

    let gate_err = conn.start_command(ChannelMode::Search, String::from("pw")).unwrap_err();
    assert_eq!(gate_err.kind, ErrorKind::RunCommand);

    let adopt_err = conn.apply_start(response).unwrap_err();
    assert_eq!(adopt_err.kind, ErrorKind::RunCommand);

    // Everything negotiated before stays as it was.
    assert_eq!(conn.mode, Some(ChannelMode::Ingest));
    assert_eq!(conn.protocol_version, 2);
    assert_eq!(conn.max_buffer_size, 500);
}
