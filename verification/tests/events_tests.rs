use gridborg::constants::{
    DocumentPreparePaperSize, DocumentPrepareResolution, EStreamBufferStateNotification,
    FaxSendSpeed, PayloadType, RecorderStopReason,
};
use gridborg::events::{Event, ParseEventError};
use gridborg::parser::parse_event;
use gridborg::primitives::ECM;

#[test]
fn parse_session_created() {
    let line = "ESessionCreated 1";
    let ev: Event = parse_event(line).unwrap().unwrap();
    match ev {
        Event::SessionCreated(sc) => assert_eq!(sc.session_id, 1),
        _ => panic!("wrong variant"),
    }
}

#[test]
fn parse_resource_created() {
    let line = "EResourceCreated 1 1";
    let ev: Event = parse_event(line).unwrap().unwrap();
    match ev {
        Event::ResourceCreated(rc) => {
            assert_eq!(rc.session_id, 1);
            assert_eq!(rc.resource_id, 1);
        }
        _ => panic!("wrong variant"),
    }
}

#[test]
fn parse_call_incoming() {
    let line = "ECallIncoming 1 1 CALL123";

    let ev: Event = parse_event(line).unwrap().unwrap();
    match ev {
        Event::CallIncoming(ci) => {
            assert_eq!(ci.session_id, 1);
            assert_eq!(ci.resource_id, 1);
            assert_eq!(ci.call_identifier, "CALL123");
            assert_eq!(ci.ani.as_deref(), None);
            assert_eq!(ci.dnis.as_deref(), None);
            assert_eq!(ci.remote_name.as_deref(), None);
        }
        _ => panic!("wrong variant"),
    }
}

#[test]
fn parse_call_incoming_with_options() {
    let line = "\
        ECallIncoming 1 1 CALL123 \
        ANI=5551212 DNIS=1800 RDN=9988 \
        RemoteName=Bob RemoteAddress=bob@1.2.3.4:1720";

    let ev: Event = parse_event(line).unwrap().unwrap();
    match ev {
        Event::CallIncoming(ci) => {
            assert_eq!(ci.session_id, 1);
            assert_eq!(ci.resource_id, 1);
            assert_eq!(ci.call_identifier, "CALL123");
            assert_eq!(ci.ani.as_deref(), Some("5551212"));
            assert_eq!(ci.dnis.as_deref(), Some("1800"));
            assert_eq!(ci.remote_name.as_deref(), Some("Bob"));
        }
        _ => panic!("wrong variant"),
    }
}

#[test]
fn unknown_event_is_rejected() {
    match parse_event("UnknownThing 1") {
        Err(ParseEventError::UnknownEvent(name)) => assert_eq!(name, "UnknownThing"),
        other => panic!("expected UnknownEvent, got {:?}", other),
    }
}

#[test]
fn missing_positional_is_wrong_arity() {
    match parse_event("ESessionCreated") {
        Err(ParseEventError::WrongArity(name)) => assert_eq!(name, "ESessionCreated"),
        other => panic!("expected WrongArity, got {:?}", other),
    }
}

#[test]
fn non_numeric_positional_is_bad_value() {
    match parse_event("ESessionCreated abc") {
        Err(ParseEventError::BadValue(tok)) => assert_eq!(tok, "abc"),
        other => panic!("expected BadValue, got {:?}", other),
    }
}

#[test]
fn overflowing_positional_is_bad_value() {
    match parse_event("ESessionCreated 4294967296") {
        Err(ParseEventError::BadValue(tok)) => assert_eq!(tok, "4294967296"),
        other => panic!("expected BadValue, got {:?}", other),
    }
    let ev = parse_event("ESessionCreated 4294967295").unwrap().unwrap();
    match ev {
        Event::SessionCreated(sc) => assert_eq!(sc.session_id, 4294967295),
        _ => panic!("wrong variant"),
    }
}

#[test]
fn comment_only_line_is_no_event_and_no_error() {
    assert_eq!(parse_event("   # just a comment"), Ok(None));
    assert_eq!(parse_event(""), Ok(None));
    assert_eq!(parse_event("   \t  "), Ok(None));
}

#[test]
fn trailing_comment_is_stripped() {
    let ev = parse_event("ESessionDeleted 7 # gone").unwrap().unwrap();
    match ev {
        Event::SessionDeleted(sd) => assert_eq!(sd.session_id, 7),
        _ => panic!("wrong variant"),
    }
}

#[test]
fn attribute_keys_are_case_insensitive() {
    let ev = parse_event("ECallIncoming 1 1 X ani=5 ReMoTeNaMe=Ann").unwrap().unwrap();
    match ev {
        Event::CallIncoming(ci) => {
            assert_eq!(ci.ani.as_deref(), Some("5"));
            assert_eq!(ci.remote_name.as_deref(), Some("Ann"));
        }
        _ => panic!("wrong variant"),
    }
}

#[test]
fn duplicate_attribute_last_wins() {
    let ev = parse_event("ECallIncoming 1 1 X ANI=1 ANI=2").unwrap().unwrap();
    match ev {
        Event::CallIncoming(ci) => assert_eq!(ci.ani.as_deref(), Some("2")),
        _ => panic!("wrong variant"),
    }
}

#[test]
fn unrecognized_attributes_are_ignored() {
    let ev = parse_event("ECallIncoming 1 1 X Zone=9 Extra=hello").unwrap().unwrap();
    match ev {
        Event::CallIncoming(ci) => {
            assert_eq!(ci.ani, None);
            assert_eq!(ci.dnis, None);
            assert_eq!(ci.rdn, None);
            assert_eq!(ci.remote_name, None);
            assert_eq!(ci.remote_address, None);
        }
        _ => panic!("wrong variant"),
    }
}

#[test]
fn audio_level_notification_fields() {
    let ev = parse_event("EAudioLevelNotification 3 4 1 200").unwrap().unwrap();
    match ev {
        Event::AudioLevelNotification(a) => {
            assert_eq!(a.session_id, 3);
            assert_eq!(a.resource_id, 4);
            assert!(a.in_talk);
            assert_eq!(a.energy_level, 200);
        }
        _ => panic!("wrong variant"),
    }
    let ev = parse_event("EAudioLevelNotification 3 4 0 0").unwrap().unwrap();
    match ev {
        Event::AudioLevelNotification(a) => assert!(!a.in_talk),
        _ => panic!("wrong variant"),
    }
    match parse_event("EAudioLevelNotification 3 4 yes 0") {
        Err(ParseEventError::BadValue(tok)) => assert_eq!(tok, "yes"),
        other => panic!("expected BadValue, got {:?}", other),
    }
}

#[test]
fn stream_buffer_state_codes() {
    let ev = parse_event("EStreamBufferStateNotification 1 2 3").unwrap().unwrap();
    match ev {
        Event::StreamBufferStateNotification(s) => {
            assert_eq!(s.state, EStreamBufferStateNotification::Full)
        }
        _ => panic!("wrong variant"),
    }
    match parse_event("EStreamBufferStateNotification 1 2 9") {
        Err(ParseEventError::BadValue(tok)) => assert_eq!(tok, "9"),
        other => panic!("expected BadValue, got {:?}", other),
    }
}

#[test]
fn recorder_stopped_reason() {
    let ev = parse_event("ERecorderStopped 1 2 2").unwrap().unwrap();
    match ev {
        Event::RecorderStopped(r) => {
            assert_eq!(r.reason, RecorderStopReason::MaxSilenceReached)
        }
        _ => panic!("wrong variant"),
    }
}

#[test]
fn facsimile_page_started_round_trip() {
    let line = "EFacsimilePageStarted 5 6 9600 0 1 128";
    let ev = parse_event(line).unwrap().unwrap();
    match ev {
        Event::FacsimilePageStarted(f) => {
            assert_eq!(f.session_id, 5);
            assert_eq!(f.resource_id, 6);
            assert_eq!(f.speed, FaxSendSpeed::Bps9600);
            assert_eq!(f.paper_size, DocumentPreparePaperSize::A4);
            assert_eq!(f.resolution, DocumentPrepareResolution::Fine);
            assert_eq!(f.ecm, ECM::Ecm128);
        }
        _ => panic!("wrong variant"),
    }
}

#[test]
fn rtp_channel_started_receiving_round_trip() {
    let with = "ERtpChannelStartedReceiving 1 2 10.0.0.1:5004 \
                ReceiverControlAddress=10.0.0.1:5005 RtpPayloadType=8";
    let ev = parse_event(with).unwrap().unwrap();
    match ev {
        Event::RtpChannelStartedReceiving(r) => {
            assert_eq!(r.receiver_data_address, "10.0.0.1:5004");
            assert_eq!(r.receiver_control_address.as_deref(), Some("10.0.0.1:5005"));
            assert_eq!(r.rtp_payload_type, Some(PayloadType::Pcma));
        }
        _ => panic!("wrong variant"),
    }
    let without = "ERtpChannelStartedReceiving 1 2 10.0.0.1:5004";
    let ev = parse_event(without).unwrap().unwrap();
    match ev {
        Event::RtpChannelStartedReceiving(r) => {
            assert_eq!(r.receiver_control_address, None);
            assert_eq!(r.rtp_payload_type, None);
        }
        _ => panic!("wrong variant"),
    }
}

#[test]
fn call_key_press_duration() {
    let ev = parse_event("ECallKeyPress 1 2 5 Duration=120").unwrap().unwrap();
    match ev {
        Event::CallKeyPress(k) => {
            assert_eq!(k.key, "5");
            assert_eq!(k.duration, Some(120));
        }
        _ => panic!("wrong variant"),
    }
    match parse_event("ECallKeyPress 1 2 5 Duration=abc") {
        Err(ParseEventError::BadValue(tok)) => assert_eq!(tok, "abc"),
        other => panic!("expected BadValue, got {:?}", other),
    }
}

#[test]
fn call_cleared_with_and_without_reason_detail() {
    let ev = parse_event("ECallCleared 1 2 Normal ProtocolSpecificReason=16")
        .unwrap()
        .unwrap();
    match ev {
        Event::CallCleared(c) => {
            assert_eq!(c.reason, "Normal");
            assert_eq!(c.protocol_specific_reason.as_deref(), Some("16"));
        }
        _ => panic!("wrong variant"),
    }
    let ev = parse_event("ECallCleared 1 2 Normal").unwrap().unwrap();
    match ev {
        Event::CallCleared(c) => assert_eq!(c.protocol_specific_reason, None),
        _ => panic!("wrong variant"),
    }
}

#[test]
fn document_events_round_trip() {
    let ev = parse_event("EDocumentNotSaved 1 2 DiskFull").unwrap().unwrap();
    match ev {
        Event::DocumentNotSaved(d) => assert_eq!(d.reason, "DiskFull"),
        _ => panic!("wrong variant"),
    }
    let ev = parse_event("EDocumentCleared 1 2").unwrap().unwrap();
    assert!(matches!(ev, Event::DocumentCleared(_)));
    let ev = parse_event("EFaxOperationFinished 8 9").unwrap().unwrap();
    match ev {
        Event::FaxOperationFinished(f) => {
            assert_eq!(f.session_id, 8);
            assert_eq!(f.resource_id, 9);
        }
        _ => panic!("wrong variant"),
    }
}

#[test]
fn every_two_field_kind_parses() {
    let cases = [
        "EResourceDeleted",
        "ECallConnectionEstablished",
        "ECallSendDTMFFinished",
        "EPlayerStarted",
        "EPlayerStopped",
        "ERecorderStarted",
        "ERecorderVoiceTrigger",
        "ERtpChannelSendDTMFFinished",
        "ERtpChannelStopped",
        "ESoundDeviceStarted",
        "ESoundDeviceStopped",
        "ESoundDeviceError",
        "EModeChangeT38",
        "EModeChangeT38Refused",
        "EFaxIncoming",
        "EFacsimilePageReceived",
        "EFacsimilePageSent",
        "EFaxOperationsStarted",
        "EFaxOperationFailed",
        "EFaxOperationAborted",
        "EDocumentPrepared",
        "EDocumentSaved",
    ];
    for name in cases {
        let line = format!("{} 11 22", name);
        let ev = parse_event(&line).unwrap().unwrap();
        let debug = format!("{:?}", ev);
        assert!(debug.contains("11"), "{}", line);
        assert!(debug.contains("22"), "{}", line);
    }
}
