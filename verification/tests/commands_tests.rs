use gridborg::commands::{Command, PlayFile, RtpChannelStartSending};
use gridborg::constants::{AudioFormatType, PayloadType};

#[test]
fn product_information_commands_encode() {
    assert_eq!(Command::protocol_version().encode(), "ProtocolVersion");
    assert_eq!(Command::get_version().encode(), "GetVersion");
    assert_eq!(Command::logout().encode(), "Logout");
    assert_eq!(Command::quit().encode(), "Quit");
}

#[test]
fn login_applies_protocol_defaults() {
    let c = Command::login(String::from("user1"), String::from("abc"), None, None, None);
    assert_eq!(c.encode(), "Login user1 abc 2 3");
    let c = Command::login(
        String::from("op"),
        String::from("pw"),
        Some(4),
        Some(0),
        Some(7),
    );
    assert_eq!(c.encode(), "Login op pw 4 0 7");
}

#[test]
fn call_make_applies_documented_defaults() {
    let c = Command::call_make(1, String::from("sip:100"), None, None, None, None, None);
    assert_eq!(c.encode(), "CallMake 1 sip:100 TimeOut=30000 Privacy=0 Screen=1");
    let c = Command::call_make(
        2,
        String::from("sip:200"),
        Some(5000),
        Some(String::from("100")),
        Some(String::from("Ann")),
        Some(1),
        Some(0),
    );
    assert_eq!(
        c.encode(),
        "CallMake 2 sip:200 TimeOut=5000 CallerNumber=100 CallerName=Ann Privacy=1 Screen=0"
    );
}

#[test]
fn call_send_dtmf_applies_documented_defaults() {
    let c = Command::call_send_dtmf(2, String::from("123#"), None, None, None);
    assert_eq!(
        c.encode(),
        "CallSendDTMF 2 123# Duration=300 Delay=200 PauseDuration=2000"
    );
}

#[test]
fn call_transfer_blind_applies_h450_default() {
    let c = Command::call_transfer_blind(3, String::from("sip:300"), None);
    assert_eq!(c.encode(), "CallTransferBlind 3 sip:300 UseH450=1");
    let c = Command::call_transfer_blind(3, String::from("sip:300"), Some(0));
    assert_eq!(c.encode(), "CallTransferBlind 3 sip:300 UseH450=0");
}

#[test]
fn resource_commands_encode() {
    assert_eq!(Command::resource_create_player().encode(), "ResourceCreatePlayer");
    assert_eq!(Command::resource_delete(12).encode(), "ResourceDelete 12");
    assert_eq!(Command::resource_get_status(5).encode(), "ResourceGetStatus 5");
    let c = Command::resource_create_frontend(
        Some(String::from("5551212")),
        None,
        None,
        Some(true),
    );
    assert_eq!(
        c.encode(),
        "ResourceCreateFrontEnd RegIncomingANI=5551212 Accepting=1"
    );
    let c = Command::resource_create_sound_device(
        String::from("In"),
        Some(String::from("default")),
        Some(4),
    );
    assert_eq!(
        c.encode(),
        "ResourceCreateSoundDevice Direction=In Device=default Buffers=4"
    );
    let c = Command::resource_create_rtp_channel(Some(false));
    assert_eq!(c.encode(), "ResourceCreateRtpChannel InBandDTMFEnabled=0");
    let c = Command::resource_create_transport_channel(String::from("tcp"));
    assert_eq!(c.encode(), "ResourceCreateTransportChannel tcp");
}

#[test]
fn call_control_commands_encode() {
    assert_eq!(Command::call_answer(4).encode(), "CallAnswer 4");
    assert_eq!(
        Command::call_clear(4, Some(String::from("Busy"))).encode(),
        "CallClear 4 Reason=Busy"
    );
    assert_eq!(Command::call_clear(4, None).encode(), "CallClear 4");
    assert_eq!(
        Command::call_transfer_consultation(4, 5).encode(),
        "CallTransferConsultation 4 5"
    );
    assert_eq!(Command::call_hold(4).encode(), "CallHold 4");
    assert_eq!(Command::call_retrieve(4).encode(), "CallRetrieve 4");
    assert_eq!(Command::call_stop_activity(4).encode(), "CallStopActivity 4");
    assert_eq!(Command::call_t38_relay(4, 5).encode(), "CallT38Relay 4 5");
    assert_eq!(
        Command::calls_set_alerting_type(4, String::from("Ring")).encode(),
        "CallsSetAlertingType 4 Ring"
    );
    assert_eq!(Command::calls_set_accepting(9, false).encode(), "CallsSetAccepting 9 0");
    assert_eq!(Command::calls_set_accepting(9, true).encode(), "CallsSetAccepting 9 1");
}

#[test]
fn boolean_options_render_as_digits() {
    let c = Command::resource_create_frontend(None, None, None, Some(false));
    assert_eq!(c.encode(), "ResourceCreateFrontEnd Accepting=0");
    let c = Command::resource_create_frontend(None, None, None, None);
    assert_eq!(c.encode(), "ResourceCreateFrontEnd");
}

#[test]
fn play_file_encodes_enum_codes_and_signed_offsets() {
    let c = Command::PlayFile(PlayFile {
        resource_id: 7,
        file_name: String::from("beep.wav"),
        audio_type: Some(AudioFormatType::Alaw),
        sample_rate: None,
        channels: None,
        index: None,
        skip_bytes: Some(-5),
    });
    assert_eq!(c.encode(), "PlayFile 7 beep.wav AudioType=2 SkipBytes=-5");
}

#[test]
fn rtp_channel_start_sending_encodes() {
    let c = Command::RtpChannelStartSending(RtpChannelStartSending {
        resource_id: 3,
        receiver_data_address: String::from("10.0.0.2:5004"),
        receiver_control_address: None,
        sender_data_address: None,
        sender_control_address: Some(String::from("10.0.0.3:5005")),
        payload_type: Some(PayloadType::Pcmu),
        rfc2833_payload_type: Some(101),
        rtp_session_id: None,
    });
    assert_eq!(
        c.encode(),
        "RtpChannelStartSending 3 10.0.0.2:5004 SenderControlAddress=10.0.0.3:5005 \
         PayloadType=0 Rfc2833PayloadType=101"
    );
}
