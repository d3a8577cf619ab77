use gridborg::addr::is_valid_address;
use gridborg::client::{ConnectionError, GridborgClient};
use gridborg::commands::Command;
use gridborg::primitives::{Channels, ECM};

#[test]
fn valid_addresses_are_accepted() {
    let valid = [
        "127.0.0.1",
        "0.0.0.0",
        "255.255.255.255",
        "10.1.2.3",
        "::",
        "::1",
        "1:2:3:4:5:6:7:8",
        "fe80::1",
        "abcd:ef01:2345:6789:abcd:ef01:2345:6789",
        "::ffff:192.168.0.1",
        "1:2:3:4:5:6:1.2.3.4",
        "1:2:3:4:5:6:7::",
        "2001:db8::8a2e:370:7334",
    ];
    for a in valid {
        assert!(is_valid_address(a), "{} should be accepted", a);
    }
}

#[test]
fn invalid_addresses_are_rejected() {
    let invalid = [
        "",
        "localhost",
        "256.0.0.1",
        "01.2.3.4",
        "1.2.3",
        "1.2.3.4.5",
        "1.2.3.4 ",
        "1..2.3",
        ":::",
        "1::2::3",
        "12345::",
        "g::1",
        ":1",
        "1:",
        "1.2.3.4:80",
        "1:2:3:4:5:6:7:8:9",
        "1:2:3:4:5:6:7",
    ];
    for a in invalid {
        assert!(!is_valid_address(a), "{} should be rejected", a);
    }
}

#[test]
fn new_client_applies_defaults_and_validates_address() {
    let c = GridborgClient::new(String::from("127.0.0.1"), None, None, None, None).unwrap();
    assert_eq!(c.server, "127.0.0.1");
    assert_eq!(c.control_port, 1234);
    assert_eq!(c.transport_channel_port, 1235);
    assert_eq!(c.username, "user1");
    assert_eq!(c.password, "abc");
    assert!(!c.connected);
    assert_eq!(c.command_tag, 0);

    let e = GridborgClient::new(String::from("not-an-ip"), None, None, None, None);
    assert!(matches!(e, Err(ConnectionError::InvalidAddress)));
}

#[test]
fn new_client_keeps_given_settings() {
    let c = GridborgClient::new(
        String::from("::1"),
        Some(4321),
        Some(4322),
        Some(String::from("op")),
        Some(String::from("pw42")),
    )
    .unwrap();
    assert_eq!(c.server, "::1");
    assert_eq!(c.control_port, 4321);
    assert_eq!(c.transport_channel_port, 4322);
    assert_eq!(c.username, "op");
}

#[test]
fn disconnect_requires_a_connection() {
    let mut c = GridborgClient::new(String::from("127.0.0.1"), None, None, None, None).unwrap();
    assert_eq!(c.disconnect(), Err(ConnectionError::NotConnected));
    c.note_connected();
    assert!(c.connected);
    assert_eq!(c.disconnect(), Ok(()));
    assert!(!c.connected);
    assert_eq!(c.disconnect(), Err(ConnectionError::NotConnected));
}

#[test]
fn prepare_requires_a_connection() {
    let c = GridborgClient::new(String::from("127.0.0.1"), None, None, None, None).unwrap();
    assert_eq!(
        c.prepare_raw_command("Quit"),
        Err(ConnectionError::NotConnected)
    );
}

#[test]
fn framed_line_carries_tag_and_terminator() {
    let mut c = GridborgClient::new(String::from("127.0.0.1"), None, None, None, None).unwrap();
    c.note_connected();
    assert_eq!(c.prepare_raw_command("Quit").unwrap(), "Quit COMMANDTAG=0\n");
    let line = c.prepare_command(&Command::logout()).unwrap();
    assert_eq!(line, "Logout COMMANDTAG=0\n");
}

#[test]
fn sequential_sends_hand_out_tags_in_order() {
    let mut c = GridborgClient::new(String::from("127.0.0.1"), None, None, None, None).unwrap();
    c.note_connected();
    let n: u64 = 10;
    let mut tags = Vec::new();
    for _ in 0..n {
        let line = c.prepare_raw_command("GetVersion").unwrap();
        assert!(line.ends_with('\n'));
        tags.push(c.note_sent());
    }
    let expected: Vec<u64> = (0..n).collect();
    assert_eq!(tags, expected);
    assert_eq!(c.command_tag, n);
}

#[test]
fn reconnect_restarts_the_tag_counter() {
    let mut c = GridborgClient::new(String::from("127.0.0.1"), None, None, None, None).unwrap();
    c.note_connected();
    c.prepare_raw_command("Quit").unwrap();
    c.note_sent();
    assert_eq!(c.command_tag, 1);
    c.disconnect().unwrap();
    c.note_connected();
    assert_eq!(c.command_tag, 0);
    assert_eq!(c.prepare_raw_command("Quit").unwrap(), "Quit COMMANDTAG=0\n");
}

#[test]
fn framed_lines_each_hold_one_newline() {
    let mut c = GridborgClient::new(String::from("127.0.0.1"), None, None, None, None).unwrap();
    c.note_connected();
    let a = c.prepare_command(&Command::get_version()).unwrap();
    c.note_sent();
    let b = c.prepare_command(&Command::quit()).unwrap();
    c.note_sent();
    let captured = format!("{}{}", a, b);
    assert_eq!(captured, "GetVersion COMMANDTAG=0\nQuit COMMANDTAG=1\n");
    for line in [a, b] {
        assert_eq!(line.matches('\n').count(), 1);
        assert!(line.ends_with('\n'));
    }
}

#[test]
fn enum_codes_construct_and_reject() {
    assert_eq!(Channels::from_u8(1), Ok(Channels::Mono));
    assert_eq!(Channels::from_u8(2), Ok(Channels::Stereo));
    let e = Channels::from_u8(3).unwrap_err();
    assert_eq!(e.code, 3);
    assert_eq!(e.target, "Channels");

    assert_eq!(ECM::from_u8(0), Ok(ECM::Off));
    assert_eq!(ECM::from_u8(64), Ok(ECM::Ecm64));
    assert_eq!(ECM::from_u8(128), Ok(ECM::Ecm128));
    let e = ECM::from_u8(5).unwrap_err();
    assert_eq!(e.code, 5);
    assert_eq!(e.target, "ECM");

    assert_eq!(Channels::Stereo.code(), 2);
    assert_eq!(ECM::Ecm128.code(), 128);
}
