//! The canonical wire rendering of each event kind, and the round-trip law:
//! a rendered event line parses back to exactly the event it renders.

use crate::constants::{
    DocumentPreparePaperSize, DocumentPrepareResolution, EStreamBufferStateNotification,
    FaxSendSpeed, PayloadType, RecorderStopReason,
};
use crate::events::{EventV, ParseErrorV};
use crate::parser::parse_line_spec;
use crate::primitives::ECM;
use crate::wire::{
    dec_of, is_space, join_tokens, key_wf, lower, opt_tokens, token_safe, value_wf,
};
use vstd::prelude::*;

verus! {

/// The token list of the canonical wire line announcing an event: the
/// event name, its required positional fields in fixed order, then one
/// `Key=Value` token per present optional field, keys in canonical case and
/// fixed order, numbers in canonical decimal.
pub open spec fn event_tokens(e: EventV) -> Seq<Seq<char>> {
    match e {
        EventV::SessionCreated { session_id } => seq!["ESessionCreated"@, dec_of(session_id as nat)],
        EventV::SessionDeleted { session_id } => seq!["ESessionDeleted"@, dec_of(session_id as nat)],
        EventV::ResourceCreated { session_id, resource_id } => seq!["EResourceCreated"@, dec_of(session_id as nat), dec_of(resource_id as nat)],
        EventV::ResourceDeleted { session_id, resource_id } => seq!["EResourceDeleted"@, dec_of(session_id as nat), dec_of(resource_id as nat)],
        EventV::AudioLevelNotification { session_id, resource_id, in_talk, energy_level } => seq!["EAudioLevelNotification"@, dec_of(session_id as nat), dec_of(resource_id as nat), (if in_talk { seq!['1'] } else { seq!['0'] }), dec_of(energy_level as nat)],
        EventV::StreamBufferStateNotification { session_id, resource_id, state } => seq!["EStreamBufferStateNotification"@, dec_of(session_id as nat), dec_of(resource_id as nat), dec_of(state.spec_code() as nat)],
        EventV::CallIncoming { session_id, resource_id, call_identifier, ani, dnis, rdn, remote_name, remote_address } => seq!["ECallIncoming"@, dec_of(session_id as nat), dec_of(resource_id as nat), call_identifier] + opt_tokens(seq![("ANI"@, ani), ("DNIS"@, dnis), ("RDN"@, rdn), ("RemoteName"@, remote_name), ("RemoteAddress"@, remote_address)]),
        EventV::CallOutgoing { session_id, resource_id, address, call_identifier } => seq!["ECallOutgoing"@, dec_of(session_id as nat), dec_of(resource_id as nat), address, call_identifier],
        EventV::CallRemoteAlerting { session_id, resource_id, user } => seq!["ECallRemoteAlerting"@, dec_of(session_id as nat), dec_of(resource_id as nat)] + opt_tokens(seq![("User"@, user)]),
        EventV::CallConnectionEstablished { session_id, resource_id } => seq!["ECallConnectionEstablished"@, dec_of(session_id as nat), dec_of(resource_id as nat)],
        EventV::CallConnectionFailed { session_id, resource_id, reason, protocol_specific_reason } => seq!["ECallConnectionFailed"@, dec_of(session_id as nat), dec_of(resource_id as nat), reason] + opt_tokens(seq![("ProtocolSpecificReason"@, protocol_specific_reason)]),
        EventV::CallCleared { session_id, resource_id, reason, protocol_specific_reason } => seq!["ECallCleared"@, dec_of(session_id as nat), dec_of(resource_id as nat), reason] + opt_tokens(seq![("ProtocolSpecificReason"@, protocol_specific_reason)]),
        EventV::CallSendDTMFFinished { session_id, resource_id } => seq!["ECallSendDTMFFinished"@, dec_of(session_id as nat), dec_of(resource_id as nat)],
        EventV::CallKeyPress { session_id, resource_id, key, duration } => seq!["ECallKeyPress"@, dec_of(session_id as nat), dec_of(resource_id as nat), key] + opt_tokens(seq![("Duration"@, (match duration { Some(n) => Some(dec_of(n as nat)), None => None::<Seq<char>> }))]),
        EventV::PlayerStarted { session_id, resource_id } => seq!["EPlayerStarted"@, dec_of(session_id as nat), dec_of(resource_id as nat)],
        EventV::PlayerStopped { session_id, resource_id } => seq!["EPlayerStopped"@, dec_of(session_id as nat), dec_of(resource_id as nat)],
        EventV::PlayerError { session_id, resource_id, error_text } => seq!["EPlayerError"@, dec_of(session_id as nat), dec_of(resource_id as nat), error_text],
        EventV::RecorderStarted { session_id, resource_id } => seq!["ERecorderStarted"@, dec_of(session_id as nat), dec_of(resource_id as nat)],
        EventV::RecorderStopped { session_id, resource_id, reason } => seq!["ERecorderStopped"@, dec_of(session_id as nat), dec_of(resource_id as nat), dec_of(reason.spec_code() as nat)],
        EventV::RecorderError { session_id, resource_id, error_text } => seq!["ERecorderError"@, dec_of(session_id as nat), dec_of(resource_id as nat), error_text],
        EventV::RecorderVoiceTrigger { session_id, resource_id } => seq!["ERecorderVoiceTrigger"@, dec_of(session_id as nat), dec_of(resource_id as nat)],
        EventV::RtpChannelStartedReceiving { session_id, resource_id, receiver_data_address, receiver_control_address, rtp_payload_type } => seq!["ERtpChannelStartedReceiving"@, dec_of(session_id as nat), dec_of(resource_id as nat), receiver_data_address] + opt_tokens(seq![("ReceiverControlAddress"@, receiver_control_address), ("RtpPayloadType"@, (match rtp_payload_type { Some(p) => Some(dec_of(p.spec_code() as nat)), None => None::<Seq<char>> }))]),
        EventV::RtpChannelStartedSending { session_id, resource_id, sender_control_address, rtp_payload_type } => seq!["ERtpChannelStartedSending"@, dec_of(session_id as nat), dec_of(resource_id as nat)] + opt_tokens(seq![("SenderControlAddress"@, sender_control_address), ("RtpPayloadType"@, (match rtp_payload_type { Some(p) => Some(dec_of(p.spec_code() as nat)), None => None::<Seq<char>> }))]),
        EventV::RtpChannelSendDTMFFinished { session_id, resource_id } => seq!["ERtpChannelSendDTMFFinished"@, dec_of(session_id as nat), dec_of(resource_id as nat)],
        EventV::RtpChannelReceivedDTMF { session_id, resource_id, key, duration } => seq!["ERtpChannelReceivedDTMF"@, dec_of(session_id as nat), dec_of(resource_id as nat), key] + opt_tokens(seq![("Duration"@, (match duration { Some(n) => Some(dec_of(n as nat)), None => None::<Seq<char>> }))]),
        EventV::RtpChannelStopped { session_id, resource_id } => seq!["ERtpChannelStopped"@, dec_of(session_id as nat), dec_of(resource_id as nat)],
        EventV::SoundDeviceStarted { session_id, resource_id } => seq!["ESoundDeviceStarted"@, dec_of(session_id as nat), dec_of(resource_id as nat)],
        EventV::SoundDeviceStopped { session_id, resource_id } => seq!["ESoundDeviceStopped"@, dec_of(session_id as nat), dec_of(resource_id as nat)],
        EventV::SoundDeviceError { session_id, resource_id } => seq!["ESoundDeviceError"@, dec_of(session_id as nat), dec_of(resource_id as nat)],
        EventV::ModeChangeT38 { session_id, resource_id } => seq!["EModeChangeT38"@, dec_of(session_id as nat), dec_of(resource_id as nat)],
        EventV::ModeChangeT38Refused { session_id, resource_id } => seq!["EModeChangeT38Refused"@, dec_of(session_id as nat), dec_of(resource_id as nat)],
        EventV::FaxIncoming { session_id, resource_id } => seq!["EFaxIncoming"@, dec_of(session_id as nat), dec_of(resource_id as nat)],
        EventV::FacsimilePageStarted { session_id, resource_id, speed, paper_size, resolution, ecm } => seq!["EFacsimilePageStarted"@, dec_of(session_id as nat), dec_of(resource_id as nat), dec_of(speed.spec_code() as nat), dec_of(paper_size.spec_code() as nat), dec_of(resolution.spec_code() as nat), dec_of(ecm.spec_code() as nat)],
        EventV::FacsimilePageReceived { session_id, resource_id } => seq!["EFacsimilePageReceived"@, dec_of(session_id as nat), dec_of(resource_id as nat)],
        EventV::FacsimilePageSent { session_id, resource_id } => seq!["EFacsimilePageSent"@, dec_of(session_id as nat), dec_of(resource_id as nat)],
        EventV::FaxOperationsStarted { session_id, resource_id } => seq!["EFaxOperationsStarted"@, dec_of(session_id as nat), dec_of(resource_id as nat)],
        EventV::FaxOperationFailed { session_id, resource_id } => seq!["EFaxOperationFailed"@, dec_of(session_id as nat), dec_of(resource_id as nat)],
        EventV::FaxOperationFinished { session_id, resource_id } => seq!["EFaxOperationFinished"@, dec_of(session_id as nat), dec_of(resource_id as nat)],
        EventV::FaxOperationAborted { session_id, resource_id } => seq!["EFaxOperationAborted"@, dec_of(session_id as nat), dec_of(resource_id as nat)],
        EventV::DocumentPrepared { session_id, resource_id } => seq!["EDocumentPrepared"@, dec_of(session_id as nat), dec_of(resource_id as nat)],
        EventV::DocumentNotPrepared { session_id, resource_id, reason } => seq!["EDocumentNotPrepared"@, dec_of(session_id as nat), dec_of(resource_id as nat), reason],
        EventV::DocumentSaved { session_id, resource_id } => seq!["EDocumentSaved"@, dec_of(session_id as nat), dec_of(resource_id as nat)],
        EventV::DocumentNotSaved { session_id, resource_id, reason } => seq!["EDocumentNotSaved"@, dec_of(session_id as nat), dec_of(resource_id as nat), reason],
        EventV::DocumentCleared { session_id, resource_id } => seq!["EDocumentCleared"@, dec_of(session_id as nat), dec_of(resource_id as nat)],
    }
}

/// The canonical wire line announcing an event.
pub open spec fn event_line(e: EventV) -> Seq<char> {
    join_tokens(event_tokens(e))
}

/// When an event can stand on a wire line at all: every string field is
/// free of the characters the line format reacts to, and required string
/// fields are nonempty. Numeric and enumerated fields are always fine.
pub open spec fn event_wf(e: EventV) -> bool {
    match e {
        EventV::SessionCreated { session_id } => true,
        EventV::SessionDeleted { session_id } => true,
        EventV::ResourceCreated { session_id, resource_id } => true,
        EventV::ResourceDeleted { session_id, resource_id } => true,
        EventV::AudioLevelNotification { session_id, resource_id, in_talk, energy_level } => true,
        EventV::StreamBufferStateNotification { session_id, resource_id, state } => true,
        EventV::CallIncoming { session_id, resource_id, call_identifier, ani, dnis, rdn, remote_name, remote_address } => token_safe(call_identifier) && (ani matches Some(v) ==> value_wf(v)) && (dnis matches Some(v) ==> value_wf(v)) && (rdn matches Some(v) ==> value_wf(v)) && (remote_name matches Some(v) ==> value_wf(v)) && (remote_address matches Some(v) ==> value_wf(v)),
        EventV::CallOutgoing { session_id, resource_id, address, call_identifier } => token_safe(address) && token_safe(call_identifier),
        EventV::CallRemoteAlerting { session_id, resource_id, user } => (user matches Some(v) ==> value_wf(v)),
        EventV::CallConnectionEstablished { session_id, resource_id } => true,
        EventV::CallConnectionFailed { session_id, resource_id, reason, protocol_specific_reason } => token_safe(reason) && (protocol_specific_reason matches Some(v) ==> value_wf(v)),
        EventV::CallCleared { session_id, resource_id, reason, protocol_specific_reason } => token_safe(reason) && (protocol_specific_reason matches Some(v) ==> value_wf(v)),
        EventV::CallSendDTMFFinished { session_id, resource_id } => true,
        EventV::CallKeyPress { session_id, resource_id, key, duration } => token_safe(key),
        EventV::PlayerStarted { session_id, resource_id } => true,
        EventV::PlayerStopped { session_id, resource_id } => true,
        EventV::PlayerError { session_id, resource_id, error_text } => token_safe(error_text),
        EventV::RecorderStarted { session_id, resource_id } => true,
        EventV::RecorderStopped { session_id, resource_id, reason } => true,
        EventV::RecorderError { session_id, resource_id, error_text } => token_safe(error_text),
        EventV::RecorderVoiceTrigger { session_id, resource_id } => true,
        EventV::RtpChannelStartedReceiving { session_id, resource_id, receiver_data_address, receiver_control_address, rtp_payload_type } => token_safe(receiver_data_address) && (receiver_control_address matches Some(v) ==> value_wf(v)),
        EventV::RtpChannelStartedSending { session_id, resource_id, sender_control_address, rtp_payload_type } => (sender_control_address matches Some(v) ==> value_wf(v)),
        EventV::RtpChannelSendDTMFFinished { session_id, resource_id } => true,
        EventV::RtpChannelReceivedDTMF { session_id, resource_id, key, duration } => token_safe(key),
        EventV::RtpChannelStopped { session_id, resource_id } => true,
        EventV::SoundDeviceStarted { session_id, resource_id } => true,
        EventV::SoundDeviceStopped { session_id, resource_id } => true,
        EventV::SoundDeviceError { session_id, resource_id } => true,
        EventV::ModeChangeT38 { session_id, resource_id } => true,
        EventV::ModeChangeT38Refused { session_id, resource_id } => true,
        EventV::FaxIncoming { session_id, resource_id } => true,
        EventV::FacsimilePageStarted { session_id, resource_id, speed, paper_size, resolution, ecm } => true,
        EventV::FacsimilePageReceived { session_id, resource_id } => true,
        EventV::FacsimilePageSent { session_id, resource_id } => true,
        EventV::FaxOperationsStarted { session_id, resource_id } => true,
        EventV::FaxOperationFailed { session_id, resource_id } => true,
        EventV::FaxOperationFinished { session_id, resource_id } => true,
        EventV::FaxOperationAborted { session_id, resource_id } => true,
        EventV::DocumentPrepared { session_id, resource_id } => true,
        EventV::DocumentNotPrepared { session_id, resource_id, reason } => token_safe(reason),
        EventV::DocumentSaved { session_id, resource_id } => true,
        EventV::DocumentNotSaved { session_id, resource_id, reason } => token_safe(reason),
        EventV::DocumentCleared { session_id, resource_id } => true,
    }
}

/// Decimal tokens are safe wire tokens and safe attribute values.
proof fn lemma_dec_token_safe(n: nat)
    ensures
        token_safe(dec_of(n)),
        value_wf(dec_of(n)),
{
    crate::wire::lemma_dec_of_val(n);
    let s = dec_of(n);
    assert forall|i: int| 0 <= i < s.len() implies !is_space(#[trigger] s[i]) && s[i] != '#' by {
        crate::wire::lemma_digit_not_special(s[i]);
    }
}

proof fn name_safe_session_created()
    ensures
        token_safe("ESessionCreated"@),
{
    reveal_strlit("ESessionCreated");
    let s = "ESessionCreated"@;
    assert forall|i: int| 0 <= i < s.len() implies !is_space(#[trigger] s[i]) && s[i]
        != '#' by {
        if i == 0 {
            assert(s[0] == 'E');
        } else if i == 1 {
            assert(s[1] == 'S');
        } else if i == 2 {
            assert(s[2] == 'e');
        } else if i == 3 {
            assert(s[3] == 's');
        } else if i == 4 {
            assert(s[4] == 's');
        } else if i == 5 {
            assert(s[5] == 'i');
        } else if i == 6 {
            assert(s[6] == 'o');
        } else if i == 7 {
            assert(s[7] == 'n');
        } else if i == 8 {
            assert(s[8] == 'C');
        } else if i == 9 {
            assert(s[9] == 'r');
        } else if i == 10 {
            assert(s[10] == 'e');
        } else if i == 11 {
            assert(s[11] == 'a');
        } else if i == 12 {
            assert(s[12] == 't');
        } else if i == 13 {
            assert(s[13] == 'e');
        } else if i == 14 {
            assert(s[14] == 'd');
        } else {
            assert(false);
        }
    }
}

proof fn name_safe_session_deleted()
    ensures
        token_safe("ESessionDeleted"@),
{
    reveal_strlit("ESessionDeleted");
    let s = "ESessionDeleted"@;
    assert forall|i: int| 0 <= i < s.len() implies !is_space(#[trigger] s[i]) && s[i]
        != '#' by {
        if i == 0 {
            assert(s[0] == 'E');
        } else if i == 1 {
            assert(s[1] == 'S');
        } else if i == 2 {
            assert(s[2] == 'e');
        } else if i == 3 {
            assert(s[3] == 's');
        } else if i == 4 {
            assert(s[4] == 's');
        } else if i == 5 {
            assert(s[5] == 'i');
        } else if i == 6 {
            assert(s[6] == 'o');
        } else if i == 7 {
            assert(s[7] == 'n');
        } else if i == 8 {
            assert(s[8] == 'D');
        } else if i == 9 {
            assert(s[9] == 'e');
        } else if i == 10 {
            assert(s[10] == 'l');
        } else if i == 11 {
            assert(s[11] == 'e');
        } else if i == 12 {
            assert(s[12] == 't');
        } else if i == 13 {
            assert(s[13] == 'e');
        } else if i == 14 {
            assert(s[14] == 'd');
        } else {
            assert(false);
        }
    }
}

proof fn name_safe_resource_created()
    ensures
        token_safe("EResourceCreated"@),
{
    reveal_strlit("EResourceCreated");
    let s = "EResourceCreated"@;
    assert forall|i: int| 0 <= i < s.len() implies !is_space(#[trigger] s[i]) && s[i]
        != '#' by {
        if i == 0 {
            assert(s[0] == 'E');
        } else if i == 1 {
            assert(s[1] == 'R');
        } else if i == 2 {
            assert(s[2] == 'e');
        } else if i == 3 {
            assert(s[3] == 's');
        } else if i == 4 {
            assert(s[4] == 'o');
        } else if i == 5 {
            assert(s[5] == 'u');
        } else if i == 6 {
            assert(s[6] == 'r');
        } else if i == 7 {
            assert(s[7] == 'c');
        } else if i == 8 {
            assert(s[8] == 'e');
        } else if i == 9 {
            assert(s[9] == 'C');
        } else if i == 10 {
            assert(s[10] == 'r');
        } else if i == 11 {
            assert(s[11] == 'e');
        } else if i == 12 {
            assert(s[12] == 'a');
        } else if i == 13 {
            assert(s[13] == 't');
        } else if i == 14 {
            assert(s[14] == 'e');
        } else if i == 15 {
            assert(s[15] == 'd');
        } else {
            assert(false);
        }
    }
}

proof fn name_safe_resource_deleted()
    ensures
        token_safe("EResourceDeleted"@),
{
    reveal_strlit("EResourceDeleted");
    let s = "EResourceDeleted"@;
    assert forall|i: int| 0 <= i < s.len() implies !is_space(#[trigger] s[i]) && s[i]
        != '#' by {
        if i == 0 {
            assert(s[0] == 'E');
        } else if i == 1 {
            assert(s[1] == 'R');
        } else if i == 2 {
            assert(s[2] == 'e');
        } else if i == 3 {
            assert(s[3] == 's');
        } else if i == 4 {
            assert(s[4] == 'o');
        } else if i == 5 {
            assert(s[5] == 'u');
        } else if i == 6 {
            assert(s[6] == 'r');
        } else if i == 7 {
            assert(s[7] == 'c');
        } else if i == 8 {
            assert(s[8] == 'e');
        } else if i == 9 {
            assert(s[9] == 'D');
        } else if i == 10 {
            assert(s[10] == 'e');
        } else if i == 11 {
            assert(s[11] == 'l');
        } else if i == 12 {
            assert(s[12] == 'e');
        } else if i == 13 {
            assert(s[13] == 't');
        } else if i == 14 {
            assert(s[14] == 'e');
        } else if i == 15 {
            assert(s[15] == 'd');
        } else {
            assert(false);
        }
    }
}

proof fn name_safe_audio_level_notification()
    ensures
        token_safe("EAudioLevelNotification"@),
{
    reveal_strlit("EAudioLevelNotification");
    let s = "EAudioLevelNotification"@;
    assert forall|i: int| 0 <= i < s.len() implies !is_space(#[trigger] s[i]) && s[i]
        != '#' by {
        if i == 0 {
            assert(s[0] == 'E');
        } else if i == 1 {
            assert(s[1] == 'A');
        } else if i == 2 {
            assert(s[2] == 'u');
        } else if i == 3 {
            assert(s[3] == 'd');
        } else if i == 4 {
            assert(s[4] == 'i');
        } else if i == 5 {
            assert(s[5] == 'o');
        } else if i == 6 {
            assert(s[6] == 'L');
        } else if i == 7 {
            assert(s[7] == 'e');
        } else if i == 8 {
            assert(s[8] == 'v');
        } else if i == 9 {
            assert(s[9] == 'e');
        } else if i == 10 {
            assert(s[10] == 'l');
        } else if i == 11 {
            assert(s[11] == 'N');
        } else if i == 12 {
            assert(s[12] == 'o');
        } else if i == 13 {
            assert(s[13] == 't');
        } else if i == 14 {
            assert(s[14] == 'i');
        } else if i == 15 {
            assert(s[15] == 'f');
        } else if i == 16 {
            assert(s[16] == 'i');
        } else if i == 17 {
            assert(s[17] == 'c');
        } else if i == 18 {
            assert(s[18] == 'a');
        } else if i == 19 {
            assert(s[19] == 't');
        } else if i == 20 {
            assert(s[20] == 'i');
        } else if i == 21 {
            assert(s[21] == 'o');
        } else if i == 22 {
            assert(s[22] == 'n');
        } else {
            assert(false);
        }
    }
}

proof fn name_safe_stream_buffer_state_notification()
    ensures
        token_safe("EStreamBufferStateNotification"@),
{
    reveal_strlit("EStreamBufferStateNotification");
    let s = "EStreamBufferStateNotification"@;
    assert forall|i: int| 0 <= i < s.len() implies !is_space(#[trigger] s[i]) && s[i]
        != '#' by {
        if i == 0 {
            assert(s[0] == 'E');
        } else if i == 1 {
            assert(s[1] == 'S');
        } else if i == 2 {
            assert(s[2] == 't');
        } else if i == 3 {
            assert(s[3] == 'r');
        } else if i == 4 {
            assert(s[4] == 'e');
        } else if i == 5 {
            assert(s[5] == 'a');
        } else if i == 6 {
            assert(s[6] == 'm');
        } else if i == 7 {
            assert(s[7] == 'B');
        } else if i == 8 {
            assert(s[8] == 'u');
        } else if i == 9 {
            assert(s[9] == 'f');
        } else if i == 10 {
            assert(s[10] == 'f');
        } else if i == 11 {
            assert(s[11] == 'e');
        } else if i == 12 {
            assert(s[12] == 'r');
        } else if i == 13 {
            assert(s[13] == 'S');
        } else if i == 14 {
            assert(s[14] == 't');
        } else if i == 15 {
            assert(s[15] == 'a');
        } else if i == 16 {
            assert(s[16] == 't');
        } else if i == 17 {
            assert(s[17] == 'e');
        } else if i == 18 {
            assert(s[18] == 'N');
        } else if i == 19 {
            assert(s[19] == 'o');
        } else if i == 20 {
            assert(s[20] == 't');
        } else if i == 21 {
            assert(s[21] == 'i');
        } else if i == 22 {
            assert(s[22] == 'f');
        } else if i == 23 {
            assert(s[23] == 'i');
        } else if i == 24 {
            assert(s[24] == 'c');
        } else if i == 25 {
            assert(s[25] == 'a');
        } else if i == 26 {
            assert(s[26] == 't');
        } else if i == 27 {
            assert(s[27] == 'i');
        } else if i == 28 {
            assert(s[28] == 'o');
        } else if i == 29 {
            assert(s[29] == 'n');
        } else {
            assert(false);
        }
    }
}

proof fn name_safe_call_incoming()
    ensures
        token_safe("ECallIncoming"@),
{
    reveal_strlit("ECallIncoming");
    let s = "ECallIncoming"@;
    assert forall|i: int| 0 <= i < s.len() implies !is_space(#[trigger] s[i]) && s[i]
        != '#' by {
        if i == 0 {
            assert(s[0] == 'E');
        } else if i == 1 {
            assert(s[1] == 'C');
        } else if i == 2 {
            assert(s[2] == 'a');
        } else if i == 3 {
            assert(s[3] == 'l');
        } else if i == 4 {
            assert(s[4] == 'l');
        } else if i == 5 {
            assert(s[5] == 'I');
        } else if i == 6 {
            assert(s[6] == 'n');
        } else if i == 7 {
            assert(s[7] == 'c');
        } else if i == 8 {
            assert(s[8] == 'o');
        } else if i == 9 {
            assert(s[9] == 'm');
        } else if i == 10 {
            assert(s[10] == 'i');
        } else if i == 11 {
            assert(s[11] == 'n');
        } else if i == 12 {
            assert(s[12] == 'g');
        } else {
            assert(false);
        }
    }
}

proof fn name_safe_call_outgoing()
    ensures
        token_safe("ECallOutgoing"@),
{
    reveal_strlit("ECallOutgoing");
    let s = "ECallOutgoing"@;
    assert forall|i: int| 0 <= i < s.len() implies !is_space(#[trigger] s[i]) && s[i]
        != '#' by {
        if i == 0 {
            assert(s[0] == 'E');
        } else if i == 1 {
            assert(s[1] == 'C');
        } else if i == 2 {
            assert(s[2] == 'a');
        } else if i == 3 {
            assert(s[3] == 'l');
        } else if i == 4 {
            assert(s[4] == 'l');
        } else if i == 5 {
            assert(s[5] == 'O');
        } else if i == 6 {
            assert(s[6] == 'u');
        } else if i == 7 {
            assert(s[7] == 't');
        } else if i == 8 {
            assert(s[8] == 'g');
        } else if i == 9 {
            assert(s[9] == 'o');
        } else if i == 10 {
            assert(s[10] == 'i');
        } else if i == 11 {
            assert(s[11] == 'n');
        } else if i == 12 {
            assert(s[12] == 'g');
        } else {
            assert(false);
        }
    }
}

proof fn name_safe_call_remote_alerting()
    ensures
        token_safe("ECallRemoteAlerting"@),
{
    reveal_strlit("ECallRemoteAlerting");
    let s = "ECallRemoteAlerting"@;
    assert forall|i: int| 0 <= i < s.len() implies !is_space(#[trigger] s[i]) && s[i]
        != '#' by {
        if i == 0 {
            assert(s[0] == 'E');
        } else if i == 1 {
            assert(s[1] == 'C');
        } else if i == 2 {
            assert(s[2] == 'a');
        } else if i == 3 {
            assert(s[3] == 'l');
        } else if i == 4 {
            assert(s[4] == 'l');
        } else if i == 5 {
            assert(s[5] == 'R');
        } else if i == 6 {
            assert(s[6] == 'e');
        } else if i == 7 {
            assert(s[7] == 'm');
        } else if i == 8 {
            assert(s[8] == 'o');
        } else if i == 9 {
            assert(s[9] == 't');
        } else if i == 10 {
            assert(s[10] == 'e');
        } else if i == 11 {
            assert(s[11] == 'A');
        } else if i == 12 {
            assert(s[12] == 'l');
        } else if i == 13 {
            assert(s[13] == 'e');
        } else if i == 14 {
            assert(s[14] == 'r');
        } else if i == 15 {
            assert(s[15] == 't');
        } else if i == 16 {
            assert(s[16] == 'i');
        } else if i == 17 {
            assert(s[17] == 'n');
        } else if i == 18 {
            assert(s[18] == 'g');
        } else {
            assert(false);
        }
    }
}

proof fn name_safe_call_connection_established()
    ensures
        token_safe("ECallConnectionEstablished"@),
{
    reveal_strlit("ECallConnectionEstablished");
    let s = "ECallConnectionEstablished"@;
    assert forall|i: int| 0 <= i < s.len() implies !is_space(#[trigger] s[i]) && s[i]
        != '#' by {
        if i == 0 {
            assert(s[0] == 'E');
        } else if i == 1 {
            assert(s[1] == 'C');
        } else if i == 2 {
            assert(s[2] == 'a');
        } else if i == 3 {
            assert(s[3] == 'l');
        } else if i == 4 {
            assert(s[4] == 'l');
        } else if i == 5 {
            assert(s[5] == 'C');
        } else if i == 6 {
            assert(s[6] == 'o');
        } else if i == 7 {
            assert(s[7] == 'n');
        } else if i == 8 {
            assert(s[8] == 'n');
        } else if i == 9 {
            assert(s[9] == 'e');
        } else if i == 10 {
            assert(s[10] == 'c');
        } else if i == 11 {
            assert(s[11] == 't');
        } else if i == 12 {
            assert(s[12] == 'i');
        } else if i == 13 {
            assert(s[13] == 'o');
        } else if i == 14 {
            assert(s[14] == 'n');
        } else if i == 15 {
            assert(s[15] == 'E');
        } else if i == 16 {
            assert(s[16] == 's');
        } else if i == 17 {
            assert(s[17] == 't');
        } else if i == 18 {
            assert(s[18] == 'a');
        } else if i == 19 {
            assert(s[19] == 'b');
        } else if i == 20 {
            assert(s[20] == 'l');
        } else if i == 21 {
            assert(s[21] == 'i');
        } else if i == 22 {
            assert(s[22] == 's');
        } else if i == 23 {
            assert(s[23] == 'h');
        } else if i == 24 {
            assert(s[24] == 'e');
        } else if i == 25 {
            assert(s[25] == 'd');
        } else {
            assert(false);
        }
    }
}

proof fn name_safe_call_connection_failed()
    ensures
        token_safe("ECallConnectionFailed"@),
{
    reveal_strlit("ECallConnectionFailed");
    let s = "ECallConnectionFailed"@;
    assert forall|i: int| 0 <= i < s.len() implies !is_space(#[trigger] s[i]) && s[i]
        != '#' by {
        if i == 0 {
            assert(s[0] == 'E');
        } else if i == 1 {
            assert(s[1] == 'C');
        } else if i == 2 {
            assert(s[2] == 'a');
        } else if i == 3 {
            assert(s[3] == 'l');
        } else if i == 4 {
            assert(s[4] == 'l');
        } else if i == 5 {
            assert(s[5] == 'C');
        } else if i == 6 {
            assert(s[6] == 'o');
        } else if i == 7 {
            assert(s[7] == 'n');
        } else if i == 8 {
            assert(s[8] == 'n');
        } else if i == 9 {
            assert(s[9] == 'e');
        } else if i == 10 {
            assert(s[10] == 'c');
        } else if i == 11 {
            assert(s[11] == 't');
        } else if i == 12 {
            assert(s[12] == 'i');
        } else if i == 13 {
            assert(s[13] == 'o');
        } else if i == 14 {
            assert(s[14] == 'n');
        } else if i == 15 {
            assert(s[15] == 'F');
        } else if i == 16 {
            assert(s[16] == 'a');
        } else if i == 17 {
            assert(s[17] == 'i');
        } else if i == 18 {
            assert(s[18] == 'l');
        } else if i == 19 {
            assert(s[19] == 'e');
        } else if i == 20 {
            assert(s[20] == 'd');
        } else {
            assert(false);
        }
    }
}

proof fn name_safe_call_cleared()
    ensures
        token_safe("ECallCleared"@),
{
    reveal_strlit("ECallCleared");
    let s = "ECallCleared"@;
    assert forall|i: int| 0 <= i < s.len() implies !is_space(#[trigger] s[i]) && s[i]
        != '#' by {
        if i == 0 {
            assert(s[0] == 'E');
        } else if i == 1 {
            assert(s[1] == 'C');
        } else if i == 2 {
            assert(s[2] == 'a');
        } else if i == 3 {
            assert(s[3] == 'l');
        } else if i == 4 {
            assert(s[4] == 'l');
        } else if i == 5 {
            assert(s[5] == 'C');
        } else if i == 6 {
            assert(s[6] == 'l');
        } else if i == 7 {
            assert(s[7] == 'e');
        } else if i == 8 {
            assert(s[8] == 'a');
        } else if i == 9 {
            assert(s[9] == 'r');
        } else if i == 10 {
            assert(s[10] == 'e');
        } else if i == 11 {
            assert(s[11] == 'd');
        } else {
            assert(false);
        }
    }
}

proof fn name_safe_call_send_dtmf_finished()
    ensures
        token_safe("ECallSendDTMFFinished"@),
{
    reveal_strlit("ECallSendDTMFFinished");
    let s = "ECallSendDTMFFinished"@;
    assert forall|i: int| 0 <= i < s.len() implies !is_space(#[trigger] s[i]) && s[i]
        != '#' by {
        if i == 0 {
            assert(s[0] == 'E');
        } else if i == 1 {
            assert(s[1] == 'C');
        } else if i == 2 {
            assert(s[2] == 'a');
        } else if i == 3 {
            assert(s[3] == 'l');
        } else if i == 4 {
            assert(s[4] == 'l');
        } else if i == 5 {
            assert(s[5] == 'S');
        } else if i == 6 {
            assert(s[6] == 'e');
        } else if i == 7 {
            assert(s[7] == 'n');
        } else if i == 8 {
            assert(s[8] == 'd');
        } else if i == 9 {
            assert(s[9] == 'D');
        } else if i == 10 {
            assert(s[10] == 'T');
        } else if i == 11 {
            assert(s[11] == 'M');
        } else if i == 12 {
            assert(s[12] == 'F');
        } else if i == 13 {
            assert(s[13] == 'F');
        } else if i == 14 {
            assert(s[14] == 'i');
        } else if i == 15 {
            assert(s[15] == 'n');
        } else if i == 16 {
            assert(s[16] == 'i');
        } else if i == 17 {
            assert(s[17] == 's');
        } else if i == 18 {
            assert(s[18] == 'h');
        } else if i == 19 {
            assert(s[19] == 'e');
        } else if i == 20 {
            assert(s[20] == 'd');
        } else {
            assert(false);
        }
    }
}

proof fn name_safe_call_key_press()
    ensures
        token_safe("ECallKeyPress"@),
{
    reveal_strlit("ECallKeyPress");
    let s = "ECallKeyPress"@;
    assert forall|i: int| 0 <= i < s.len() implies !is_space(#[trigger] s[i]) && s[i]
        != '#' by {
        if i == 0 {
            assert(s[0] == 'E');
        } else if i == 1 {
            assert(s[1] == 'C');
        } else if i == 2 {
            assert(s[2] == 'a');
        } else if i == 3 {
            assert(s[3] == 'l');
        } else if i == 4 {
            assert(s[4] == 'l');
        } else if i == 5 {
            assert(s[5] == 'K');
        } else if i == 6 {
            assert(s[6] == 'e');
        } else if i == 7 {
            assert(s[7] == 'y');
        } else if i == 8 {
            assert(s[8] == 'P');
        } else if i == 9 {
            assert(s[9] == 'r');
        } else if i == 10 {
            assert(s[10] == 'e');
        } else if i == 11 {
            assert(s[11] == 's');
        } else if i == 12 {
            assert(s[12] == 's');
        } else {
            assert(false);
        }
    }
}

proof fn name_safe_player_started()
    ensures
        token_safe("EPlayerStarted"@),
{
    reveal_strlit("EPlayerStarted");
    let s = "EPlayerStarted"@;
    assert forall|i: int| 0 <= i < s.len() implies !is_space(#[trigger] s[i]) && s[i]
        != '#' by {
        if i == 0 {
            assert(s[0] == 'E');
        } else if i == 1 {
            assert(s[1] == 'P');
        } else if i == 2 {
            assert(s[2] == 'l');
        } else if i == 3 {
            assert(s[3] == 'a');
        } else if i == 4 {
            assert(s[4] == 'y');
        } else if i == 5 {
            assert(s[5] == 'e');
        } else if i == 6 {
            assert(s[6] == 'r');
        } else if i == 7 {
            assert(s[7] == 'S');
        } else if i == 8 {
            assert(s[8] == 't');
        } else if i == 9 {
            assert(s[9] == 'a');
        } else if i == 10 {
            assert(s[10] == 'r');
        } else if i == 11 {
            assert(s[11] == 't');
        } else if i == 12 {
            assert(s[12] == 'e');
        } else if i == 13 {
            assert(s[13] == 'd');
        } else {
            assert(false);
        }
    }
}

proof fn name_safe_player_stopped()
    ensures
        token_safe("EPlayerStopped"@),
{
    reveal_strlit("EPlayerStopped");
    let s = "EPlayerStopped"@;
    assert forall|i: int| 0 <= i < s.len() implies !is_space(#[trigger] s[i]) && s[i]
        != '#' by {
        if i == 0 {
            assert(s[0] == 'E');
        } else if i == 1 {
            assert(s[1] == 'P');
        } else if i == 2 {
            assert(s[2] == 'l');
        } else if i == 3 {
            assert(s[3] == 'a');
        } else if i == 4 {
            assert(s[4] == 'y');
        } else if i == 5 {
            assert(s[5] == 'e');
        } else if i == 6 {
            assert(s[6] == 'r');
        } else if i == 7 {
            assert(s[7] == 'S');
        } else if i == 8 {
            assert(s[8] == 't');
        } else if i == 9 {
            assert(s[9] == 'o');
        } else if i == 10 {
            assert(s[10] == 'p');
        } else if i == 11 {
            assert(s[11] == 'p');
        } else if i == 12 {
            assert(s[12] == 'e');
        } else if i == 13 {
            assert(s[13] == 'd');
        } else {
            assert(false);
        }
    }
}

proof fn name_safe_player_error()
    ensures
        token_safe("EPlayerError"@),
{
    reveal_strlit("EPlayerError");
    let s = "EPlayerError"@;
    assert forall|i: int| 0 <= i < s.len() implies !is_space(#[trigger] s[i]) && s[i]
        != '#' by {
        if i == 0 {
            assert(s[0] == 'E');
        } else if i == 1 {
            assert(s[1] == 'P');
        } else if i == 2 {
            assert(s[2] == 'l');
        } else if i == 3 {
            assert(s[3] == 'a');
        } else if i == 4 {
            assert(s[4] == 'y');
        } else if i == 5 {
            assert(s[5] == 'e');
        } else if i == 6 {
            assert(s[6] == 'r');
        } else if i == 7 {
            assert(s[7] == 'E');
        } else if i == 8 {
            assert(s[8] == 'r');
        } else if i == 9 {
            assert(s[9] == 'r');
        } else if i == 10 {
            assert(s[10] == 'o');
        } else if i == 11 {
            assert(s[11] == 'r');
        } else {
            assert(false);
        }
    }
}

proof fn name_safe_recorder_started()
    ensures
        token_safe("ERecorderStarted"@),
{
    reveal_strlit("ERecorderStarted");
    let s = "ERecorderStarted"@;
    assert forall|i: int| 0 <= i < s.len() implies !is_space(#[trigger] s[i]) && s[i]
        != '#' by {
        if i == 0 {
            assert(s[0] == 'E');
        } else if i == 1 {
            assert(s[1] == 'R');
        } else if i == 2 {
            assert(s[2] == 'e');
        } else if i == 3 {
            assert(s[3] == 'c');
        } else if i == 4 {
            assert(s[4] == 'o');
        } else if i == 5 {
            assert(s[5] == 'r');
        } else if i == 6 {
            assert(s[6] == 'd');
        } else if i == 7 {
            assert(s[7] == 'e');
        } else if i == 8 {
            assert(s[8] == 'r');
        } else if i == 9 {
            assert(s[9] == 'S');
        } else if i == 10 {
            assert(s[10] == 't');
        } else if i == 11 {
            assert(s[11] == 'a');
        } else if i == 12 {
            assert(s[12] == 'r');
        } else if i == 13 {
            assert(s[13] == 't');
        } else if i == 14 {
            assert(s[14] == 'e');
        } else if i == 15 {
            assert(s[15] == 'd');
        } else {
            assert(false);
        }
    }
}

proof fn name_safe_recorder_stopped()
    ensures
        token_safe("ERecorderStopped"@),
{
    reveal_strlit("ERecorderStopped");
    let s = "ERecorderStopped"@;
    assert forall|i: int| 0 <= i < s.len() implies !is_space(#[trigger] s[i]) && s[i]
        != '#' by {
        if i == 0 {
            assert(s[0] == 'E');
        } else if i == 1 {
            assert(s[1] == 'R');
        } else if i == 2 {
            assert(s[2] == 'e');
        } else if i == 3 {
            assert(s[3] == 'c');
        } else if i == 4 {
            assert(s[4] == 'o');
        } else if i == 5 {
            assert(s[5] == 'r');
        } else if i == 6 {
            assert(s[6] == 'd');
        } else if i == 7 {
            assert(s[7] == 'e');
        } else if i == 8 {
            assert(s[8] == 'r');
        } else if i == 9 {
            assert(s[9] == 'S');
        } else if i == 10 {
            assert(s[10] == 't');
        } else if i == 11 {
            assert(s[11] == 'o');
        } else if i == 12 {
            assert(s[12] == 'p');
        } else if i == 13 {
            assert(s[13] == 'p');
        } else if i == 14 {
            assert(s[14] == 'e');
        } else if i == 15 {
            assert(s[15] == 'd');
        } else {
            assert(false);
        }
    }
}

proof fn name_safe_recorder_error()
    ensures
        token_safe("ERecorderError"@),
{
    reveal_strlit("ERecorderError");
    let s = "ERecorderError"@;
    assert forall|i: int| 0 <= i < s.len() implies !is_space(#[trigger] s[i]) && s[i]
        != '#' by {
        if i == 0 {
            assert(s[0] == 'E');
        } else if i == 1 {
            assert(s[1] == 'R');
        } else if i == 2 {
            assert(s[2] == 'e');
        } else if i == 3 {
            assert(s[3] == 'c');
        } else if i == 4 {
            assert(s[4] == 'o');
        } else if i == 5 {
            assert(s[5] == 'r');
        } else if i == 6 {
            assert(s[6] == 'd');
        } else if i == 7 {
            assert(s[7] == 'e');
        } else if i == 8 {
            assert(s[8] == 'r');
        } else if i == 9 {
            assert(s[9] == 'E');
        } else if i == 10 {
            assert(s[10] == 'r');
        } else if i == 11 {
            assert(s[11] == 'r');
        } else if i == 12 {
            assert(s[12] == 'o');
        } else if i == 13 {
            assert(s[13] == 'r');
        } else {
            assert(false);
        }
    }
}

proof fn name_safe_recorder_voice_trigger()
    ensures
        token_safe("ERecorderVoiceTrigger"@),
{
    reveal_strlit("ERecorderVoiceTrigger");
    let s = "ERecorderVoiceTrigger"@;
    assert forall|i: int| 0 <= i < s.len() implies !is_space(#[trigger] s[i]) && s[i]
        != '#' by {
        if i == 0 {
            assert(s[0] == 'E');
        } else if i == 1 {
            assert(s[1] == 'R');
        } else if i == 2 {
            assert(s[2] == 'e');
        } else if i == 3 {
            assert(s[3] == 'c');
        } else if i == 4 {
            assert(s[4] == 'o');
        } else if i == 5 {
            assert(s[5] == 'r');
        } else if i == 6 {
            assert(s[6] == 'd');
        } else if i == 7 {
            assert(s[7] == 'e');
        } else if i == 8 {
            assert(s[8] == 'r');
        } else if i == 9 {
            assert(s[9] == 'V');
        } else if i == 10 {
            assert(s[10] == 'o');
        } else if i == 11 {
            assert(s[11] == 'i');
        } else if i == 12 {
            assert(s[12] == 'c');
        } else if i == 13 {
            assert(s[13] == 'e');
        } else if i == 14 {
            assert(s[14] == 'T');
        } else if i == 15 {
            assert(s[15] == 'r');
        } else if i == 16 {
            assert(s[16] == 'i');
        } else if i == 17 {
            assert(s[17] == 'g');
        } else if i == 18 {
            assert(s[18] == 'g');
        } else if i == 19 {
            assert(s[19] == 'e');
        } else if i == 20 {
            assert(s[20] == 'r');
        } else {
            assert(false);
        }
    }
}

proof fn name_safe_rtp_channel_started_receiving()
    ensures
        token_safe("ERtpChannelStartedReceiving"@),
{
    reveal_strlit("ERtpChannelStartedReceiving");
    let s = "ERtpChannelStartedReceiving"@;
    assert forall|i: int| 0 <= i < s.len() implies !is_space(#[trigger] s[i]) && s[i]
        != '#' by {
        if i == 0 {
            assert(s[0] == 'E');
        } else if i == 1 {
            assert(s[1] == 'R');
        } else if i == 2 {
            assert(s[2] == 't');
        } else if i == 3 {
            assert(s[3] == 'p');
        } else if i == 4 {
            assert(s[4] == 'C');
        } else if i == 5 {
            assert(s[5] == 'h');
        } else if i == 6 {
            assert(s[6] == 'a');
        } else if i == 7 {
            assert(s[7] == 'n');
        } else if i == 8 {
            assert(s[8] == 'n');
        } else if i == 9 {
            assert(s[9] == 'e');
        } else if i == 10 {
            assert(s[10] == 'l');
        } else if i == 11 {
            assert(s[11] == 'S');
        } else if i == 12 {
            assert(s[12] == 't');
        } else if i == 13 {
            assert(s[13] == 'a');
        } else if i == 14 {
            assert(s[14] == 'r');
        } else if i == 15 {
            assert(s[15] == 't');
        } else if i == 16 {
            assert(s[16] == 'e');
        } else if i == 17 {
            assert(s[17] == 'd');
        } else if i == 18 {
            assert(s[18] == 'R');
        } else if i == 19 {
            assert(s[19] == 'e');
        } else if i == 20 {
            assert(s[20] == 'c');
        } else if i == 21 {
            assert(s[21] == 'e');
        } else if i == 22 {
            assert(s[22] == 'i');
        } else if i == 23 {
            assert(s[23] == 'v');
        } else if i == 24 {
            assert(s[24] == 'i');
        } else if i == 25 {
            assert(s[25] == 'n');
        } else if i == 26 {
            assert(s[26] == 'g');
        } else {
            assert(false);
        }
    }
}

proof fn name_safe_rtp_channel_started_sending()
    ensures
        token_safe("ERtpChannelStartedSending"@),
{
    reveal_strlit("ERtpChannelStartedSending");
    let s = "ERtpChannelStartedSending"@;
    assert forall|i: int| 0 <= i < s.len() implies !is_space(#[trigger] s[i]) && s[i]
        != '#' by {
        if i == 0 {
            assert(s[0] == 'E');
        } else if i == 1 {
            assert(s[1] == 'R');
        } else if i == 2 {
            assert(s[2] == 't');
        } else if i == 3 {
            assert(s[3] == 'p');
        } else if i == 4 {
            assert(s[4] == 'C');
        } else if i == 5 {
            assert(s[5] == 'h');
        } else if i == 6 {
            assert(s[6] == 'a');
        } else if i == 7 {
            assert(s[7] == 'n');
        } else if i == 8 {
            assert(s[8] == 'n');
        } else if i == 9 {
            assert(s[9] == 'e');
        } else if i == 10 {
            assert(s[10] == 'l');
        } else if i == 11 {
            assert(s[11] == 'S');
        } else if i == 12 {
            assert(s[12] == 't');
        } else if i == 13 {
            assert(s[13] == 'a');
        } else if i == 14 {
            assert(s[14] == 'r');
        } else if i == 15 {
            assert(s[15] == 't');
        } else if i == 16 {
            assert(s[16] == 'e');
        } else if i == 17 {
            assert(s[17] == 'd');
        } else if i == 18 {
            assert(s[18] == 'S');
        } else if i == 19 {
            assert(s[19] == 'e');
        } else if i == 20 {
            assert(s[20] == 'n');
        } else if i == 21 {
            assert(s[21] == 'd');
        } else if i == 22 {
            assert(s[22] == 'i');
        } else if i == 23 {
            assert(s[23] == 'n');
        } else if i == 24 {
            assert(s[24] == 'g');
        } else {
            assert(false);
        }
    }
}

proof fn name_safe_rtp_channel_send_dtmf_finished()
    ensures
        token_safe("ERtpChannelSendDTMFFinished"@),
{
    reveal_strlit("ERtpChannelSendDTMFFinished");
    let s = "ERtpChannelSendDTMFFinished"@;
    assert forall|i: int| 0 <= i < s.len() implies !is_space(#[trigger] s[i]) && s[i]
        != '#' by {
        if i == 0 {
            assert(s[0] == 'E');
        } else if i == 1 {
            assert(s[1] == 'R');
        } else if i == 2 {
            assert(s[2] == 't');
        } else if i == 3 {
            assert(s[3] == 'p');
        } else if i == 4 {
            assert(s[4] == 'C');
        } else if i == 5 {
            assert(s[5] == 'h');
        } else if i == 6 {
            assert(s[6] == 'a');
        } else if i == 7 {
            assert(s[7] == 'n');
        } else if i == 8 {
            assert(s[8] == 'n');
        } else if i == 9 {
            assert(s[9] == 'e');
        } else if i == 10 {
            assert(s[10] == 'l');
        } else if i == 11 {
            assert(s[11] == 'S');
        } else if i == 12 {
            assert(s[12] == 'e');
        } else if i == 13 {
            assert(s[13] == 'n');
        } else if i == 14 {
            assert(s[14] == 'd');
        } else if i == 15 {
            assert(s[15] == 'D');
        } else if i == 16 {
            assert(s[16] == 'T');
        } else if i == 17 {
            assert(s[17] == 'M');
        } else if i == 18 {
            assert(s[18] == 'F');
        } else if i == 19 {
            assert(s[19] == 'F');
        } else if i == 20 {
            assert(s[20] == 'i');
        } else if i == 21 {
            assert(s[21] == 'n');
        } else if i == 22 {
            assert(s[22] == 'i');
        } else if i == 23 {
            assert(s[23] == 's');
        } else if i == 24 {
            assert(s[24] == 'h');
        } else if i == 25 {
            assert(s[25] == 'e');
        } else if i == 26 {
            assert(s[26] == 'd');
        } else {
            assert(false);
        }
    }
}

proof fn name_safe_rtp_channel_received_dtmf()
    ensures
        token_safe("ERtpChannelReceivedDTMF"@),
{
    reveal_strlit("ERtpChannelReceivedDTMF");
    let s = "ERtpChannelReceivedDTMF"@;
    assert forall|i: int| 0 <= i < s.len() implies !is_space(#[trigger] s[i]) && s[i]
        != '#' by {
        if i == 0 {
            assert(s[0] == 'E');
        } else if i == 1 {
            assert(s[1] == 'R');
        } else if i == 2 {
            assert(s[2] == 't');
        } else if i == 3 {
            assert(s[3] == 'p');
        } else if i == 4 {
            assert(s[4] == 'C');
        } else if i == 5 {
            assert(s[5] == 'h');
        } else if i == 6 {
            assert(s[6] == 'a');
        } else if i == 7 {
            assert(s[7] == 'n');
        } else if i == 8 {
            assert(s[8] == 'n');
        } else if i == 9 {
            assert(s[9] == 'e');
        } else if i == 10 {
            assert(s[10] == 'l');
        } else if i == 11 {
            assert(s[11] == 'R');
        } else if i == 12 {
            assert(s[12] == 'e');
        } else if i == 13 {
            assert(s[13] == 'c');
        } else if i == 14 {
            assert(s[14] == 'e');
        } else if i == 15 {
            assert(s[15] == 'i');
        } else if i == 16 {
            assert(s[16] == 'v');
        } else if i == 17 {
            assert(s[17] == 'e');
        } else if i == 18 {
            assert(s[18] == 'd');
        } else if i == 19 {
            assert(s[19] == 'D');
        } else if i == 20 {
            assert(s[20] == 'T');
        } else if i == 21 {
            assert(s[21] == 'M');
        } else if i == 22 {
            assert(s[22] == 'F');
        } else {
            assert(false);
        }
    }
}

proof fn name_safe_rtp_channel_stopped()
    ensures
        token_safe("ERtpChannelStopped"@),
{
    reveal_strlit("ERtpChannelStopped");
    let s = "ERtpChannelStopped"@;
    assert forall|i: int| 0 <= i < s.len() implies !is_space(#[trigger] s[i]) && s[i]
        != '#' by {
        if i == 0 {
            assert(s[0] == 'E');
        } else if i == 1 {
            assert(s[1] == 'R');
        } else if i == 2 {
            assert(s[2] == 't');
        } else if i == 3 {
            assert(s[3] == 'p');
        } else if i == 4 {
            assert(s[4] == 'C');
        } else if i == 5 {
            assert(s[5] == 'h');
        } else if i == 6 {
            assert(s[6] == 'a');
        } else if i == 7 {
            assert(s[7] == 'n');
        } else if i == 8 {
            assert(s[8] == 'n');
        } else if i == 9 {
            assert(s[9] == 'e');
        } else if i == 10 {
            assert(s[10] == 'l');
        } else if i == 11 {
            assert(s[11] == 'S');
        } else if i == 12 {
            assert(s[12] == 't');
        } else if i == 13 {
            assert(s[13] == 'o');
        } else if i == 14 {
            assert(s[14] == 'p');
        } else if i == 15 {
            assert(s[15] == 'p');
        } else if i == 16 {
            assert(s[16] == 'e');
        } else if i == 17 {
            assert(s[17] == 'd');
        } else {
            assert(false);
        }
    }
}

proof fn name_safe_sound_device_started()
    ensures
        token_safe("ESoundDeviceStarted"@),
{
    reveal_strlit("ESoundDeviceStarted");
    let s = "ESoundDeviceStarted"@;
    assert forall|i: int| 0 <= i < s.len() implies !is_space(#[trigger] s[i]) && s[i]
        != '#' by {
        if i == 0 {
            assert(s[0] == 'E');
        } else if i == 1 {
            assert(s[1] == 'S');
        } else if i == 2 {
            assert(s[2] == 'o');
        } else if i == 3 {
            assert(s[3] == 'u');
        } else if i == 4 {
            assert(s[4] == 'n');
        } else if i == 5 {
            assert(s[5] == 'd');
        } else if i == 6 {
            assert(s[6] == 'D');
        } else if i == 7 {
            assert(s[7] == 'e');
        } else if i == 8 {
            assert(s[8] == 'v');
        } else if i == 9 {
            assert(s[9] == 'i');
        } else if i == 10 {
            assert(s[10] == 'c');
        } else if i == 11 {
            assert(s[11] == 'e');
        } else if i == 12 {
            assert(s[12] == 'S');
        } else if i == 13 {
            assert(s[13] == 't');
        } else if i == 14 {
            assert(s[14] == 'a');
        } else if i == 15 {
            assert(s[15] == 'r');
        } else if i == 16 {
            assert(s[16] == 't');
        } else if i == 17 {
            assert(s[17] == 'e');
        } else if i == 18 {
            assert(s[18] == 'd');
        } else {
            assert(false);
        }
    }
}

proof fn name_safe_sound_device_stopped()
    ensures
        token_safe("ESoundDeviceStopped"@),
{
    reveal_strlit("ESoundDeviceStopped");
    let s = "ESoundDeviceStopped"@;
    assert forall|i: int| 0 <= i < s.len() implies !is_space(#[trigger] s[i]) && s[i]
        != '#' by {
        if i == 0 {
            assert(s[0] == 'E');
        } else if i == 1 {
            assert(s[1] == 'S');
        } else if i == 2 {
            assert(s[2] == 'o');
        } else if i == 3 {
            assert(s[3] == 'u');
        } else if i == 4 {
            assert(s[4] == 'n');
        } else if i == 5 {
            assert(s[5] == 'd');
        } else if i == 6 {
            assert(s[6] == 'D');
        } else if i == 7 {
            assert(s[7] == 'e');
        } else if i == 8 {
            assert(s[8] == 'v');
        } else if i == 9 {
            assert(s[9] == 'i');
        } else if i == 10 {
            assert(s[10] == 'c');
        } else if i == 11 {
            assert(s[11] == 'e');
        } else if i == 12 {
            assert(s[12] == 'S');
        } else if i == 13 {
            assert(s[13] == 't');
        } else if i == 14 {
            assert(s[14] == 'o');
        } else if i == 15 {
            assert(s[15] == 'p');
        } else if i == 16 {
            assert(s[16] == 'p');
        } else if i == 17 {
            assert(s[17] == 'e');
        } else if i == 18 {
            assert(s[18] == 'd');
        } else {
            assert(false);
        }
    }
}

proof fn name_safe_sound_device_error()
    ensures
        token_safe("ESoundDeviceError"@),
{
    reveal_strlit("ESoundDeviceError");
    let s = "ESoundDeviceError"@;
    assert forall|i: int| 0 <= i < s.len() implies !is_space(#[trigger] s[i]) && s[i]
        != '#' by {
        if i == 0 {
            assert(s[0] == 'E');
        } else if i == 1 {
            assert(s[1] == 'S');
        } else if i == 2 {
            assert(s[2] == 'o');
        } else if i == 3 {
            assert(s[3] == 'u');
        } else if i == 4 {
            assert(s[4] == 'n');
        } else if i == 5 {
            assert(s[5] == 'd');
        } else if i == 6 {
            assert(s[6] == 'D');
        } else if i == 7 {
            assert(s[7] == 'e');
        } else if i == 8 {
            assert(s[8] == 'v');
        } else if i == 9 {
            assert(s[9] == 'i');
        } else if i == 10 {
            assert(s[10] == 'c');
        } else if i == 11 {
            assert(s[11] == 'e');
        } else if i == 12 {
            assert(s[12] == 'E');
        } else if i == 13 {
            assert(s[13] == 'r');
        } else if i == 14 {
            assert(s[14] == 'r');
        } else if i == 15 {
            assert(s[15] == 'o');
        } else if i == 16 {
            assert(s[16] == 'r');
        } else {
            assert(false);
        }
    }
}

proof fn name_safe_mode_change_t38()
    ensures
        token_safe("EModeChangeT38"@),
{
    reveal_strlit("EModeChangeT38");
    let s = "EModeChangeT38"@;
    assert forall|i: int| 0 <= i < s.len() implies !is_space(#[trigger] s[i]) && s[i]
        != '#' by {
        if i == 0 {
            assert(s[0] == 'E');
        } else if i == 1 {
            assert(s[1] == 'M');
        } else if i == 2 {
            assert(s[2] == 'o');
        } else if i == 3 {
            assert(s[3] == 'd');
        } else if i == 4 {
            assert(s[4] == 'e');
        } else if i == 5 {
            assert(s[5] == 'C');
        } else if i == 6 {
            assert(s[6] == 'h');
        } else if i == 7 {
            assert(s[7] == 'a');
        } else if i == 8 {
            assert(s[8] == 'n');
        } else if i == 9 {
            assert(s[9] == 'g');
        } else if i == 10 {
            assert(s[10] == 'e');
        } else if i == 11 {
            assert(s[11] == 'T');
        } else if i == 12 {
            assert(s[12] == '3');
        } else if i == 13 {
            assert(s[13] == '8');
        } else {
            assert(false);
        }
    }
}

proof fn name_safe_mode_change_t38_refused()
    ensures
        token_safe("EModeChangeT38Refused"@),
{
    reveal_strlit("EModeChangeT38Refused");
    let s = "EModeChangeT38Refused"@;
    assert forall|i: int| 0 <= i < s.len() implies !is_space(#[trigger] s[i]) && s[i]
        != '#' by {
        if i == 0 {
            assert(s[0] == 'E');
        } else if i == 1 {
            assert(s[1] == 'M');
        } else if i == 2 {
            assert(s[2] == 'o');
        } else if i == 3 {
            assert(s[3] == 'd');
        } else if i == 4 {
            assert(s[4] == 'e');
        } else if i == 5 {
            assert(s[5] == 'C');
        } else if i == 6 {
            assert(s[6] == 'h');
        } else if i == 7 {
            assert(s[7] == 'a');
        } else if i == 8 {
            assert(s[8] == 'n');
        } else if i == 9 {
            assert(s[9] == 'g');
        } else if i == 10 {
            assert(s[10] == 'e');
        } else if i == 11 {
            assert(s[11] == 'T');
        } else if i == 12 {
            assert(s[12] == '3');
        } else if i == 13 {
            assert(s[13] == '8');
        } else if i == 14 {
            assert(s[14] == 'R');
        } else if i == 15 {
            assert(s[15] == 'e');
        } else if i == 16 {
            assert(s[16] == 'f');
        } else if i == 17 {
            assert(s[17] == 'u');
        } else if i == 18 {
            assert(s[18] == 's');
        } else if i == 19 {
            assert(s[19] == 'e');
        } else if i == 20 {
            assert(s[20] == 'd');
        } else {
            assert(false);
        }
    }
}

proof fn name_safe_fax_incoming()
    ensures
        token_safe("EFaxIncoming"@),
{
    reveal_strlit("EFaxIncoming");
    let s = "EFaxIncoming"@;
    assert forall|i: int| 0 <= i < s.len() implies !is_space(#[trigger] s[i]) && s[i]
        != '#' by {
        if i == 0 {
            assert(s[0] == 'E');
        } else if i == 1 {
            assert(s[1] == 'F');
        } else if i == 2 {
            assert(s[2] == 'a');
        } else if i == 3 {
            assert(s[3] == 'x');
        } else if i == 4 {
            assert(s[4] == 'I');
        } else if i == 5 {
            assert(s[5] == 'n');
        } else if i == 6 {
            assert(s[6] == 'c');
        } else if i == 7 {
            assert(s[7] == 'o');
        } else if i == 8 {
            assert(s[8] == 'm');
        } else if i == 9 {
            assert(s[9] == 'i');
        } else if i == 10 {
            assert(s[10] == 'n');
        } else if i == 11 {
            assert(s[11] == 'g');
        } else {
            assert(false);
        }
    }
}

proof fn name_safe_facsimile_page_started()
    ensures
        token_safe("EFacsimilePageStarted"@),
{
    reveal_strlit("EFacsimilePageStarted");
    let s = "EFacsimilePageStarted"@;
    assert forall|i: int| 0 <= i < s.len() implies !is_space(#[trigger] s[i]) && s[i]
        != '#' by {
        if i == 0 {
            assert(s[0] == 'E');
        } else if i == 1 {
            assert(s[1] == 'F');
        } else if i == 2 {
            assert(s[2] == 'a');
        } else if i == 3 {
            assert(s[3] == 'c');
        } else if i == 4 {
            assert(s[4] == 's');
        } else if i == 5 {
            assert(s[5] == 'i');
        } else if i == 6 {
            assert(s[6] == 'm');
        } else if i == 7 {
            assert(s[7] == 'i');
        } else if i == 8 {
            assert(s[8] == 'l');
        } else if i == 9 {
            assert(s[9] == 'e');
        } else if i == 10 {
            assert(s[10] == 'P');
        } else if i == 11 {
            assert(s[11] == 'a');
        } else if i == 12 {
            assert(s[12] == 'g');
        } else if i == 13 {
            assert(s[13] == 'e');
        } else if i == 14 {
            assert(s[14] == 'S');
        } else if i == 15 {
            assert(s[15] == 't');
        } else if i == 16 {
            assert(s[16] == 'a');
        } else if i == 17 {
            assert(s[17] == 'r');
        } else if i == 18 {
            assert(s[18] == 't');
        } else if i == 19 {
            assert(s[19] == 'e');
        } else if i == 20 {
            assert(s[20] == 'd');
        } else {
            assert(false);
        }
    }
}

proof fn name_safe_facsimile_page_received()
    ensures
        token_safe("EFacsimilePageReceived"@),
{
    reveal_strlit("EFacsimilePageReceived");
    let s = "EFacsimilePageReceived"@;
    assert forall|i: int| 0 <= i < s.len() implies !is_space(#[trigger] s[i]) && s[i]
        != '#' by {
        if i == 0 {
            assert(s[0] == 'E');
        } else if i == 1 {
            assert(s[1] == 'F');
        } else if i == 2 {
            assert(s[2] == 'a');
        } else if i == 3 {
            assert(s[3] == 'c');
        } else if i == 4 {
            assert(s[4] == 's');
        } else if i == 5 {
            assert(s[5] == 'i');
        } else if i == 6 {
            assert(s[6] == 'm');
        } else if i == 7 {
            assert(s[7] == 'i');
        } else if i == 8 {
            assert(s[8] == 'l');
        } else if i == 9 {
            assert(s[9] == 'e');
        } else if i == 10 {
            assert(s[10] == 'P');
        } else if i == 11 {
            assert(s[11] == 'a');
        } else if i == 12 {
            assert(s[12] == 'g');
        } else if i == 13 {
            assert(s[13] == 'e');
        } else if i == 14 {
            assert(s[14] == 'R');
        } else if i == 15 {
            assert(s[15] == 'e');
        } else if i == 16 {
            assert(s[16] == 'c');
        } else if i == 17 {
            assert(s[17] == 'e');
        } else if i == 18 {
            assert(s[18] == 'i');
        } else if i == 19 {
            assert(s[19] == 'v');
        } else if i == 20 {
            assert(s[20] == 'e');
        } else if i == 21 {
            assert(s[21] == 'd');
        } else {
            assert(false);
        }
    }
}

proof fn name_safe_facsimile_page_sent()
    ensures
        token_safe("EFacsimilePageSent"@),
{
    reveal_strlit("EFacsimilePageSent");
    let s = "EFacsimilePageSent"@;
    assert forall|i: int| 0 <= i < s.len() implies !is_space(#[trigger] s[i]) && s[i]
        != '#' by {
        if i == 0 {
            assert(s[0] == 'E');
        } else if i == 1 {
            assert(s[1] == 'F');
        } else if i == 2 {
            assert(s[2] == 'a');
        } else if i == 3 {
            assert(s[3] == 'c');
        } else if i == 4 {
            assert(s[4] == 's');
        } else if i == 5 {
            assert(s[5] == 'i');
        } else if i == 6 {
            assert(s[6] == 'm');
        } else if i == 7 {
            assert(s[7] == 'i');
        } else if i == 8 {
            assert(s[8] == 'l');
        } else if i == 9 {
            assert(s[9] == 'e');
        } else if i == 10 {
            assert(s[10] == 'P');
        } else if i == 11 {
            assert(s[11] == 'a');
        } else if i == 12 {
            assert(s[12] == 'g');
        } else if i == 13 {
            assert(s[13] == 'e');
        } else if i == 14 {
            assert(s[14] == 'S');
        } else if i == 15 {
            assert(s[15] == 'e');
        } else if i == 16 {
            assert(s[16] == 'n');
        } else if i == 17 {
            assert(s[17] == 't');
        } else {
            assert(false);
        }
    }
}

proof fn name_safe_fax_operations_started()
    ensures
        token_safe("EFaxOperationsStarted"@),
{
    reveal_strlit("EFaxOperationsStarted");
    let s = "EFaxOperationsStarted"@;
    assert forall|i: int| 0 <= i < s.len() implies !is_space(#[trigger] s[i]) && s[i]
        != '#' by {
        if i == 0 {
            assert(s[0] == 'E');
        } else if i == 1 {
            assert(s[1] == 'F');
        } else if i == 2 {
            assert(s[2] == 'a');
        } else if i == 3 {
            assert(s[3] == 'x');
        } else if i == 4 {
            assert(s[4] == 'O');
        } else if i == 5 {
            assert(s[5] == 'p');
        } else if i == 6 {
            assert(s[6] == 'e');
        } else if i == 7 {
            assert(s[7] == 'r');
        } else if i == 8 {
            assert(s[8] == 'a');
        } else if i == 9 {
            assert(s[9] == 't');
        } else if i == 10 {
            assert(s[10] == 'i');
        } else if i == 11 {
            assert(s[11] == 'o');
        } else if i == 12 {
            assert(s[12] == 'n');
        } else if i == 13 {
            assert(s[13] == 's');
        } else if i == 14 {
            assert(s[14] == 'S');
        } else if i == 15 {
            assert(s[15] == 't');
        } else if i == 16 {
            assert(s[16] == 'a');
        } else if i == 17 {
            assert(s[17] == 'r');
        } else if i == 18 {
            assert(s[18] == 't');
        } else if i == 19 {
            assert(s[19] == 'e');
        } else if i == 20 {
            assert(s[20] == 'd');
        } else {
            assert(false);
        }
    }
}

proof fn name_safe_fax_operation_failed()
    ensures
        token_safe("EFaxOperationFailed"@),
{
    reveal_strlit("EFaxOperationFailed");
    let s = "EFaxOperationFailed"@;
    assert forall|i: int| 0 <= i < s.len() implies !is_space(#[trigger] s[i]) && s[i]
        != '#' by {
        if i == 0 {
            assert(s[0] == 'E');
        } else if i == 1 {
            assert(s[1] == 'F');
        } else if i == 2 {
            assert(s[2] == 'a');
        } else if i == 3 {
            assert(s[3] == 'x');
        } else if i == 4 {
            assert(s[4] == 'O');
        } else if i == 5 {
            assert(s[5] == 'p');
        } else if i == 6 {
            assert(s[6] == 'e');
        } else if i == 7 {
            assert(s[7] == 'r');
        } else if i == 8 {
            assert(s[8] == 'a');
        } else if i == 9 {
            assert(s[9] == 't');
        } else if i == 10 {
            assert(s[10] == 'i');
        } else if i == 11 {
            assert(s[11] == 'o');
        } else if i == 12 {
            assert(s[12] == 'n');
        } else if i == 13 {
            assert(s[13] == 'F');
        } else if i == 14 {
            assert(s[14] == 'a');
        } else if i == 15 {
            assert(s[15] == 'i');
        } else if i == 16 {
            assert(s[16] == 'l');
        } else if i == 17 {
            assert(s[17] == 'e');
        } else if i == 18 {
            assert(s[18] == 'd');
        } else {
            assert(false);
        }
    }
}

proof fn name_safe_fax_operation_finished()
    ensures
        token_safe("EFaxOperationFinished"@),
{
    reveal_strlit("EFaxOperationFinished");
    let s = "EFaxOperationFinished"@;
    assert forall|i: int| 0 <= i < s.len() implies !is_space(#[trigger] s[i]) && s[i]
        != '#' by {
        if i == 0 {
            assert(s[0] == 'E');
        } else if i == 1 {
            assert(s[1] == 'F');
        } else if i == 2 {
            assert(s[2] == 'a');
        } else if i == 3 {
            assert(s[3] == 'x');
        } else if i == 4 {
            assert(s[4] == 'O');
        } else if i == 5 {
            assert(s[5] == 'p');
        } else if i == 6 {
            assert(s[6] == 'e');
        } else if i == 7 {
            assert(s[7] == 'r');
        } else if i == 8 {
            assert(s[8] == 'a');
        } else if i == 9 {
            assert(s[9] == 't');
        } else if i == 10 {
            assert(s[10] == 'i');
        } else if i == 11 {
            assert(s[11] == 'o');
        } else if i == 12 {
            assert(s[12] == 'n');
        } else if i == 13 {
            assert(s[13] == 'F');
        } else if i == 14 {
            assert(s[14] == 'i');
        } else if i == 15 {
            assert(s[15] == 'n');
        } else if i == 16 {
            assert(s[16] == 'i');
        } else if i == 17 {
            assert(s[17] == 's');
        } else if i == 18 {
            assert(s[18] == 'h');
        } else if i == 19 {
            assert(s[19] == 'e');
        } else if i == 20 {
            assert(s[20] == 'd');
        } else {
            assert(false);
        }
    }
}

proof fn name_safe_fax_operation_aborted()
    ensures
        token_safe("EFaxOperationAborted"@),
{
    reveal_strlit("EFaxOperationAborted");
    let s = "EFaxOperationAborted"@;
    assert forall|i: int| 0 <= i < s.len() implies !is_space(#[trigger] s[i]) && s[i]
        != '#' by {
        if i == 0 {
            assert(s[0] == 'E');
        } else if i == 1 {
            assert(s[1] == 'F');
        } else if i == 2 {
            assert(s[2] == 'a');
        } else if i == 3 {
            assert(s[3] == 'x');
        } else if i == 4 {
            assert(s[4] == 'O');
        } else if i == 5 {
            assert(s[5] == 'p');
        } else if i == 6 {
            assert(s[6] == 'e');
        } else if i == 7 {
            assert(s[7] == 'r');
        } else if i == 8 {
            assert(s[8] == 'a');
        } else if i == 9 {
            assert(s[9] == 't');
        } else if i == 10 {
            assert(s[10] == 'i');
        } else if i == 11 {
            assert(s[11] == 'o');
        } else if i == 12 {
            assert(s[12] == 'n');
        } else if i == 13 {
            assert(s[13] == 'A');
        } else if i == 14 {
            assert(s[14] == 'b');
        } else if i == 15 {
            assert(s[15] == 'o');
        } else if i == 16 {
            assert(s[16] == 'r');
        } else if i == 17 {
            assert(s[17] == 't');
        } else if i == 18 {
            assert(s[18] == 'e');
        } else if i == 19 {
            assert(s[19] == 'd');
        } else {
            assert(false);
        }
    }
}

proof fn name_safe_document_prepared()
    ensures
        token_safe("EDocumentPrepared"@),
{
    reveal_strlit("EDocumentPrepared");
    let s = "EDocumentPrepared"@;
    assert forall|i: int| 0 <= i < s.len() implies !is_space(#[trigger] s[i]) && s[i]
        != '#' by {
        if i == 0 {
            assert(s[0] == 'E');
        } else if i == 1 {
            assert(s[1] == 'D');
        } else if i == 2 {
            assert(s[2] == 'o');
        } else if i == 3 {
            assert(s[3] == 'c');
        } else if i == 4 {
            assert(s[4] == 'u');
        } else if i == 5 {
            assert(s[5] == 'm');
        } else if i == 6 {
            assert(s[6] == 'e');
        } else if i == 7 {
            assert(s[7] == 'n');
        } else if i == 8 {
            assert(s[8] == 't');
        } else if i == 9 {
            assert(s[9] == 'P');
        } else if i == 10 {
            assert(s[10] == 'r');
        } else if i == 11 {
            assert(s[11] == 'e');
        } else if i == 12 {
            assert(s[12] == 'p');
        } else if i == 13 {
            assert(s[13] == 'a');
        } else if i == 14 {
            assert(s[14] == 'r');
        } else if i == 15 {
            assert(s[15] == 'e');
        } else if i == 16 {
            assert(s[16] == 'd');
        } else {
            assert(false);
        }
    }
}

proof fn name_safe_document_not_prepared()
    ensures
        token_safe("EDocumentNotPrepared"@),
{
    reveal_strlit("EDocumentNotPrepared");
    let s = "EDocumentNotPrepared"@;
    assert forall|i: int| 0 <= i < s.len() implies !is_space(#[trigger] s[i]) && s[i]
        != '#' by {
        if i == 0 {
            assert(s[0] == 'E');
        } else if i == 1 {
            assert(s[1] == 'D');
        } else if i == 2 {
            assert(s[2] == 'o');
        } else if i == 3 {
            assert(s[3] == 'c');
        } else if i == 4 {
            assert(s[4] == 'u');
        } else if i == 5 {
            assert(s[5] == 'm');
        } else if i == 6 {
            assert(s[6] == 'e');
        } else if i == 7 {
            assert(s[7] == 'n');
        } else if i == 8 {
            assert(s[8] == 't');
        } else if i == 9 {
            assert(s[9] == 'N');
        } else if i == 10 {
            assert(s[10] == 'o');
        } else if i == 11 {
            assert(s[11] == 't');
        } else if i == 12 {
            assert(s[12] == 'P');
        } else if i == 13 {
            assert(s[13] == 'r');
        } else if i == 14 {
            assert(s[14] == 'e');
        } else if i == 15 {
            assert(s[15] == 'p');
        } else if i == 16 {
            assert(s[16] == 'a');
        } else if i == 17 {
            assert(s[17] == 'r');
        } else if i == 18 {
            assert(s[18] == 'e');
        } else if i == 19 {
            assert(s[19] == 'd');
        } else {
            assert(false);
        }
    }
}

proof fn name_safe_document_saved()
    ensures
        token_safe("EDocumentSaved"@),
{
    reveal_strlit("EDocumentSaved");
    let s = "EDocumentSaved"@;
    assert forall|i: int| 0 <= i < s.len() implies !is_space(#[trigger] s[i]) && s[i]
        != '#' by {
        if i == 0 {
            assert(s[0] == 'E');
        } else if i == 1 {
            assert(s[1] == 'D');
        } else if i == 2 {
            assert(s[2] == 'o');
        } else if i == 3 {
            assert(s[3] == 'c');
        } else if i == 4 {
            assert(s[4] == 'u');
        } else if i == 5 {
            assert(s[5] == 'm');
        } else if i == 6 {
            assert(s[6] == 'e');
        } else if i == 7 {
            assert(s[7] == 'n');
        } else if i == 8 {
            assert(s[8] == 't');
        } else if i == 9 {
            assert(s[9] == 'S');
        } else if i == 10 {
            assert(s[10] == 'a');
        } else if i == 11 {
            assert(s[11] == 'v');
        } else if i == 12 {
            assert(s[12] == 'e');
        } else if i == 13 {
            assert(s[13] == 'd');
        } else {
            assert(false);
        }
    }
}

proof fn name_safe_document_not_saved()
    ensures
        token_safe("EDocumentNotSaved"@),
{
    reveal_strlit("EDocumentNotSaved");
    let s = "EDocumentNotSaved"@;
    assert forall|i: int| 0 <= i < s.len() implies !is_space(#[trigger] s[i]) && s[i]
        != '#' by {
        if i == 0 {
            assert(s[0] == 'E');
        } else if i == 1 {
            assert(s[1] == 'D');
        } else if i == 2 {
            assert(s[2] == 'o');
        } else if i == 3 {
            assert(s[3] == 'c');
        } else if i == 4 {
            assert(s[4] == 'u');
        } else if i == 5 {
            assert(s[5] == 'm');
        } else if i == 6 {
            assert(s[6] == 'e');
        } else if i == 7 {
            assert(s[7] == 'n');
        } else if i == 8 {
            assert(s[8] == 't');
        } else if i == 9 {
            assert(s[9] == 'N');
        } else if i == 10 {
            assert(s[10] == 'o');
        } else if i == 11 {
            assert(s[11] == 't');
        } else if i == 12 {
            assert(s[12] == 'S');
        } else if i == 13 {
            assert(s[13] == 'a');
        } else if i == 14 {
            assert(s[14] == 'v');
        } else if i == 15 {
            assert(s[15] == 'e');
        } else if i == 16 {
            assert(s[16] == 'd');
        } else {
            assert(false);
        }
    }
}

proof fn name_safe_document_cleared()
    ensures
        token_safe("EDocumentCleared"@),
{
    reveal_strlit("EDocumentCleared");
    let s = "EDocumentCleared"@;
    assert forall|i: int| 0 <= i < s.len() implies !is_space(#[trigger] s[i]) && s[i]
        != '#' by {
        if i == 0 {
            assert(s[0] == 'E');
        } else if i == 1 {
            assert(s[1] == 'D');
        } else if i == 2 {
            assert(s[2] == 'o');
        } else if i == 3 {
            assert(s[3] == 'c');
        } else if i == 4 {
            assert(s[4] == 'u');
        } else if i == 5 {
            assert(s[5] == 'm');
        } else if i == 6 {
            assert(s[6] == 'e');
        } else if i == 7 {
            assert(s[7] == 'n');
        } else if i == 8 {
            assert(s[8] == 't');
        } else if i == 9 {
            assert(s[9] == 'C');
        } else if i == 10 {
            assert(s[10] == 'l');
        } else if i == 11 {
            assert(s[11] == 'e');
        } else if i == 12 {
            assert(s[12] == 'a');
        } else if i == 13 {
            assert(s[13] == 'r');
        } else if i == 14 {
            assert(s[14] == 'e');
        } else if i == 15 {
            assert(s[15] == 'd');
        } else {
            assert(false);
        }
    }
}

proof fn key_facts_ani()
    ensures
        key_wf("ANI"@),
        lower("ANI"@) == "ani"@,
{
    reveal_strlit("ANI");
    reveal_strlit("ani");
    let k = "ANI"@;
    assert forall|i: int| 0 <= i < k.len() implies !is_space(#[trigger] k[i]) && k[i]
        != '#' && k[i] != '=' by {
        if i == 0 {
            assert(k[0] == 'A');
        } else if i == 1 {
            assert(k[1] == 'N');
        } else if i == 2 {
            assert(k[2] == 'I');
        } else {
            assert(false);
        }
    }
    assert forall|i: int| 0 <= i < k.len() implies lower(k)[i] == "ani"@[i] by {
        if i == 0 {
            assert(k[0] == 'A');
        } else if i == 1 {
            assert(k[1] == 'N');
        } else if i == 2 {
            assert(k[2] == 'I');
        } else {
            assert(false);
        }
    }
    assert(lower(k) =~= "ani"@);
}

proof fn key_facts_dnis()
    ensures
        key_wf("DNIS"@),
        lower("DNIS"@) == "dnis"@,
{
    reveal_strlit("DNIS");
    reveal_strlit("dnis");
    let k = "DNIS"@;
    assert forall|i: int| 0 <= i < k.len() implies !is_space(#[trigger] k[i]) && k[i]
        != '#' && k[i] != '=' by {
        if i == 0 {
            assert(k[0] == 'D');
        } else if i == 1 {
            assert(k[1] == 'N');
        } else if i == 2 {
            assert(k[2] == 'I');
        } else if i == 3 {
            assert(k[3] == 'S');
        } else {
            assert(false);
        }
    }
    assert forall|i: int| 0 <= i < k.len() implies lower(k)[i] == "dnis"@[i] by {
        if i == 0 {
            assert(k[0] == 'D');
        } else if i == 1 {
            assert(k[1] == 'N');
        } else if i == 2 {
            assert(k[2] == 'I');
        } else if i == 3 {
            assert(k[3] == 'S');
        } else {
            assert(false);
        }
    }
    assert(lower(k) =~= "dnis"@);
}

proof fn key_facts_rdn()
    ensures
        key_wf("RDN"@),
        lower("RDN"@) == "rdn"@,
{
    reveal_strlit("RDN");
    reveal_strlit("rdn");
    let k = "RDN"@;
    assert forall|i: int| 0 <= i < k.len() implies !is_space(#[trigger] k[i]) && k[i]
        != '#' && k[i] != '=' by {
        if i == 0 {
            assert(k[0] == 'R');
        } else if i == 1 {
            assert(k[1] == 'D');
        } else if i == 2 {
            assert(k[2] == 'N');
        } else {
            assert(false);
        }
    }
    assert forall|i: int| 0 <= i < k.len() implies lower(k)[i] == "rdn"@[i] by {
        if i == 0 {
            assert(k[0] == 'R');
        } else if i == 1 {
            assert(k[1] == 'D');
        } else if i == 2 {
            assert(k[2] == 'N');
        } else {
            assert(false);
        }
    }
    assert(lower(k) =~= "rdn"@);
}

proof fn key_facts_remotename()
    ensures
        key_wf("RemoteName"@),
        lower("RemoteName"@) == "remotename"@,
{
    reveal_strlit("RemoteName");
    reveal_strlit("remotename");
    let k = "RemoteName"@;
    assert forall|i: int| 0 <= i < k.len() implies !is_space(#[trigger] k[i]) && k[i]
        != '#' && k[i] != '=' by {
        if i == 0 {
            assert(k[0] == 'R');
        } else if i == 1 {
            assert(k[1] == 'e');
        } else if i == 2 {
            assert(k[2] == 'm');
        } else if i == 3 {
            assert(k[3] == 'o');
        } else if i == 4 {
            assert(k[4] == 't');
        } else if i == 5 {
            assert(k[5] == 'e');
        } else if i == 6 {
            assert(k[6] == 'N');
        } else if i == 7 {
            assert(k[7] == 'a');
        } else if i == 8 {
            assert(k[8] == 'm');
        } else if i == 9 {
            assert(k[9] == 'e');
        } else {
            assert(false);
        }
    }
    assert forall|i: int| 0 <= i < k.len() implies lower(k)[i] == "remotename"@[i] by {
        if i == 0 {
            assert(k[0] == 'R');
        } else if i == 1 {
            assert(k[1] == 'e');
        } else if i == 2 {
            assert(k[2] == 'm');
        } else if i == 3 {
            assert(k[3] == 'o');
        } else if i == 4 {
            assert(k[4] == 't');
        } else if i == 5 {
            assert(k[5] == 'e');
        } else if i == 6 {
            assert(k[6] == 'N');
        } else if i == 7 {
            assert(k[7] == 'a');
        } else if i == 8 {
            assert(k[8] == 'm');
        } else if i == 9 {
            assert(k[9] == 'e');
        } else {
            assert(false);
        }
    }
    assert(lower(k) =~= "remotename"@);
}

proof fn key_facts_remoteaddress()
    ensures
        key_wf("RemoteAddress"@),
        lower("RemoteAddress"@) == "remoteaddress"@,
{
    reveal_strlit("RemoteAddress");
    reveal_strlit("remoteaddress");
    let k = "RemoteAddress"@;
    assert forall|i: int| 0 <= i < k.len() implies !is_space(#[trigger] k[i]) && k[i]
        != '#' && k[i] != '=' by {
        if i == 0 {
            assert(k[0] == 'R');
        } else if i == 1 {
            assert(k[1] == 'e');
        } else if i == 2 {
            assert(k[2] == 'm');
        } else if i == 3 {
            assert(k[3] == 'o');
        } else if i == 4 {
            assert(k[4] == 't');
        } else if i == 5 {
            assert(k[5] == 'e');
        } else if i == 6 {
            assert(k[6] == 'A');
        } else if i == 7 {
            assert(k[7] == 'd');
        } else if i == 8 {
            assert(k[8] == 'd');
        } else if i == 9 {
            assert(k[9] == 'r');
        } else if i == 10 {
            assert(k[10] == 'e');
        } else if i == 11 {
            assert(k[11] == 's');
        } else if i == 12 {
            assert(k[12] == 's');
        } else {
            assert(false);
        }
    }
    assert forall|i: int| 0 <= i < k.len() implies lower(k)[i] == "remoteaddress"@[i] by {
        if i == 0 {
            assert(k[0] == 'R');
        } else if i == 1 {
            assert(k[1] == 'e');
        } else if i == 2 {
            assert(k[2] == 'm');
        } else if i == 3 {
            assert(k[3] == 'o');
        } else if i == 4 {
            assert(k[4] == 't');
        } else if i == 5 {
            assert(k[5] == 'e');
        } else if i == 6 {
            assert(k[6] == 'A');
        } else if i == 7 {
            assert(k[7] == 'd');
        } else if i == 8 {
            assert(k[8] == 'd');
        } else if i == 9 {
            assert(k[9] == 'r');
        } else if i == 10 {
            assert(k[10] == 'e');
        } else if i == 11 {
            assert(k[11] == 's');
        } else if i == 12 {
            assert(k[12] == 's');
        } else {
            assert(false);
        }
    }
    assert(lower(k) =~= "remoteaddress"@);
}

proof fn key_facts_user()
    ensures
        key_wf("User"@),
        lower("User"@) == "user"@,
{
    reveal_strlit("User");
    reveal_strlit("user");
    let k = "User"@;
    assert forall|i: int| 0 <= i < k.len() implies !is_space(#[trigger] k[i]) && k[i]
        != '#' && k[i] != '=' by {
        if i == 0 {
            assert(k[0] == 'U');
        } else if i == 1 {
            assert(k[1] == 's');
        } else if i == 2 {
            assert(k[2] == 'e');
        } else if i == 3 {
            assert(k[3] == 'r');
        } else {
            assert(false);
        }
    }
    assert forall|i: int| 0 <= i < k.len() implies lower(k)[i] == "user"@[i] by {
        if i == 0 {
            assert(k[0] == 'U');
        } else if i == 1 {
            assert(k[1] == 's');
        } else if i == 2 {
            assert(k[2] == 'e');
        } else if i == 3 {
            assert(k[3] == 'r');
        } else {
            assert(false);
        }
    }
    assert(lower(k) =~= "user"@);
}

proof fn key_facts_protocolspecificreason()
    ensures
        key_wf("ProtocolSpecificReason"@),
        lower("ProtocolSpecificReason"@) == "protocolspecificreason"@,
{
    reveal_strlit("ProtocolSpecificReason");
    reveal_strlit("protocolspecificreason");
    let k = "ProtocolSpecificReason"@;
    assert forall|i: int| 0 <= i < k.len() implies !is_space(#[trigger] k[i]) && k[i]
        != '#' && k[i] != '=' by {
        if i == 0 {
            assert(k[0] == 'P');
        } else if i == 1 {
            assert(k[1] == 'r');
        } else if i == 2 {
            assert(k[2] == 'o');
        } else if i == 3 {
            assert(k[3] == 't');
        } else if i == 4 {
            assert(k[4] == 'o');
        } else if i == 5 {
            assert(k[5] == 'c');
        } else if i == 6 {
            assert(k[6] == 'o');
        } else if i == 7 {
            assert(k[7] == 'l');
        } else if i == 8 {
            assert(k[8] == 'S');
        } else if i == 9 {
            assert(k[9] == 'p');
        } else if i == 10 {
            assert(k[10] == 'e');
        } else if i == 11 {
            assert(k[11] == 'c');
        } else if i == 12 {
            assert(k[12] == 'i');
        } else if i == 13 {
            assert(k[13] == 'f');
        } else if i == 14 {
            assert(k[14] == 'i');
        } else if i == 15 {
            assert(k[15] == 'c');
        } else if i == 16 {
            assert(k[16] == 'R');
        } else if i == 17 {
            assert(k[17] == 'e');
        } else if i == 18 {
            assert(k[18] == 'a');
        } else if i == 19 {
            assert(k[19] == 's');
        } else if i == 20 {
            assert(k[20] == 'o');
        } else if i == 21 {
            assert(k[21] == 'n');
        } else {
            assert(false);
        }
    }
    assert forall|i: int| 0 <= i < k.len() implies lower(k)[i] == "protocolspecificreason"@[i] by {
        if i == 0 {
            assert(k[0] == 'P');
        } else if i == 1 {
            assert(k[1] == 'r');
        } else if i == 2 {
            assert(k[2] == 'o');
        } else if i == 3 {
            assert(k[3] == 't');
        } else if i == 4 {
            assert(k[4] == 'o');
        } else if i == 5 {
            assert(k[5] == 'c');
        } else if i == 6 {
            assert(k[6] == 'o');
        } else if i == 7 {
            assert(k[7] == 'l');
        } else if i == 8 {
            assert(k[8] == 'S');
        } else if i == 9 {
            assert(k[9] == 'p');
        } else if i == 10 {
            assert(k[10] == 'e');
        } else if i == 11 {
            assert(k[11] == 'c');
        } else if i == 12 {
            assert(k[12] == 'i');
        } else if i == 13 {
            assert(k[13] == 'f');
        } else if i == 14 {
            assert(k[14] == 'i');
        } else if i == 15 {
            assert(k[15] == 'c');
        } else if i == 16 {
            assert(k[16] == 'R');
        } else if i == 17 {
            assert(k[17] == 'e');
        } else if i == 18 {
            assert(k[18] == 'a');
        } else if i == 19 {
            assert(k[19] == 's');
        } else if i == 20 {
            assert(k[20] == 'o');
        } else if i == 21 {
            assert(k[21] == 'n');
        } else {
            assert(false);
        }
    }
    assert(lower(k) =~= "protocolspecificreason"@);
}

proof fn key_facts_duration()
    ensures
        key_wf("Duration"@),
        lower("Duration"@) == "duration"@,
{
    reveal_strlit("Duration");
    reveal_strlit("duration");
    let k = "Duration"@;
    assert forall|i: int| 0 <= i < k.len() implies !is_space(#[trigger] k[i]) && k[i]
        != '#' && k[i] != '=' by {
        if i == 0 {
            assert(k[0] == 'D');
        } else if i == 1 {
            assert(k[1] == 'u');
        } else if i == 2 {
            assert(k[2] == 'r');
        } else if i == 3 {
            assert(k[3] == 'a');
        } else if i == 4 {
            assert(k[4] == 't');
        } else if i == 5 {
            assert(k[5] == 'i');
        } else if i == 6 {
            assert(k[6] == 'o');
        } else if i == 7 {
            assert(k[7] == 'n');
        } else {
            assert(false);
        }
    }
    assert forall|i: int| 0 <= i < k.len() implies lower(k)[i] == "duration"@[i] by {
        if i == 0 {
            assert(k[0] == 'D');
        } else if i == 1 {
            assert(k[1] == 'u');
        } else if i == 2 {
            assert(k[2] == 'r');
        } else if i == 3 {
            assert(k[3] == 'a');
        } else if i == 4 {
            assert(k[4] == 't');
        } else if i == 5 {
            assert(k[5] == 'i');
        } else if i == 6 {
            assert(k[6] == 'o');
        } else if i == 7 {
            assert(k[7] == 'n');
        } else {
            assert(false);
        }
    }
    assert(lower(k) =~= "duration"@);
}

proof fn key_facts_receivercontroladdress()
    ensures
        key_wf("ReceiverControlAddress"@),
        lower("ReceiverControlAddress"@) == "receivercontroladdress"@,
{
    reveal_strlit("ReceiverControlAddress");
    reveal_strlit("receivercontroladdress");
    let k = "ReceiverControlAddress"@;
    assert forall|i: int| 0 <= i < k.len() implies !is_space(#[trigger] k[i]) && k[i]
        != '#' && k[i] != '=' by {
        if i == 0 {
            assert(k[0] == 'R');
        } else if i == 1 {
            assert(k[1] == 'e');
        } else if i == 2 {
            assert(k[2] == 'c');
        } else if i == 3 {
            assert(k[3] == 'e');
        } else if i == 4 {
            assert(k[4] == 'i');
        } else if i == 5 {
            assert(k[5] == 'v');
        } else if i == 6 {
            assert(k[6] == 'e');
        } else if i == 7 {
            assert(k[7] == 'r');
        } else if i == 8 {
            assert(k[8] == 'C');
        } else if i == 9 {
            assert(k[9] == 'o');
        } else if i == 10 {
            assert(k[10] == 'n');
        } else if i == 11 {
            assert(k[11] == 't');
        } else if i == 12 {
            assert(k[12] == 'r');
        } else if i == 13 {
            assert(k[13] == 'o');
        } else if i == 14 {
            assert(k[14] == 'l');
        } else if i == 15 {
            assert(k[15] == 'A');
        } else if i == 16 {
            assert(k[16] == 'd');
        } else if i == 17 {
            assert(k[17] == 'd');
        } else if i == 18 {
            assert(k[18] == 'r');
        } else if i == 19 {
            assert(k[19] == 'e');
        } else if i == 20 {
            assert(k[20] == 's');
        } else if i == 21 {
            assert(k[21] == 's');
        } else {
            assert(false);
        }
    }
    assert forall|i: int| 0 <= i < k.len() implies lower(k)[i] == "receivercontroladdress"@[i] by {
        if i == 0 {
            assert(k[0] == 'R');
        } else if i == 1 {
            assert(k[1] == 'e');
        } else if i == 2 {
            assert(k[2] == 'c');
        } else if i == 3 {
            assert(k[3] == 'e');
        } else if i == 4 {
            assert(k[4] == 'i');
        } else if i == 5 {
            assert(k[5] == 'v');
        } else if i == 6 {
            assert(k[6] == 'e');
        } else if i == 7 {
            assert(k[7] == 'r');
        } else if i == 8 {
            assert(k[8] == 'C');
        } else if i == 9 {
            assert(k[9] == 'o');
        } else if i == 10 {
            assert(k[10] == 'n');
        } else if i == 11 {
            assert(k[11] == 't');
        } else if i == 12 {
            assert(k[12] == 'r');
        } else if i == 13 {
            assert(k[13] == 'o');
        } else if i == 14 {
            assert(k[14] == 'l');
        } else if i == 15 {
            assert(k[15] == 'A');
        } else if i == 16 {
            assert(k[16] == 'd');
        } else if i == 17 {
            assert(k[17] == 'd');
        } else if i == 18 {
            assert(k[18] == 'r');
        } else if i == 19 {
            assert(k[19] == 'e');
        } else if i == 20 {
            assert(k[20] == 's');
        } else if i == 21 {
            assert(k[21] == 's');
        } else {
            assert(false);
        }
    }
    assert(lower(k) =~= "receivercontroladdress"@);
}

proof fn key_facts_rtppayloadtype()
    ensures
        key_wf("RtpPayloadType"@),
        lower("RtpPayloadType"@) == "rtppayloadtype"@,
{
    reveal_strlit("RtpPayloadType");
    reveal_strlit("rtppayloadtype");
    let k = "RtpPayloadType"@;
    assert forall|i: int| 0 <= i < k.len() implies !is_space(#[trigger] k[i]) && k[i]
        != '#' && k[i] != '=' by {
        if i == 0 {
            assert(k[0] == 'R');
        } else if i == 1 {
            assert(k[1] == 't');
        } else if i == 2 {
            assert(k[2] == 'p');
        } else if i == 3 {
            assert(k[3] == 'P');
        } else if i == 4 {
            assert(k[4] == 'a');
        } else if i == 5 {
            assert(k[5] == 'y');
        } else if i == 6 {
            assert(k[6] == 'l');
        } else if i == 7 {
            assert(k[7] == 'o');
        } else if i == 8 {
            assert(k[8] == 'a');
        } else if i == 9 {
            assert(k[9] == 'd');
        } else if i == 10 {
            assert(k[10] == 'T');
        } else if i == 11 {
            assert(k[11] == 'y');
        } else if i == 12 {
            assert(k[12] == 'p');
        } else if i == 13 {
            assert(k[13] == 'e');
        } else {
            assert(false);
        }
    }
    assert forall|i: int| 0 <= i < k.len() implies lower(k)[i] == "rtppayloadtype"@[i] by {
        if i == 0 {
            assert(k[0] == 'R');
        } else if i == 1 {
            assert(k[1] == 't');
        } else if i == 2 {
            assert(k[2] == 'p');
        } else if i == 3 {
            assert(k[3] == 'P');
        } else if i == 4 {
            assert(k[4] == 'a');
        } else if i == 5 {
            assert(k[5] == 'y');
        } else if i == 6 {
            assert(k[6] == 'l');
        } else if i == 7 {
            assert(k[7] == 'o');
        } else if i == 8 {
            assert(k[8] == 'a');
        } else if i == 9 {
            assert(k[9] == 'd');
        } else if i == 10 {
            assert(k[10] == 'T');
        } else if i == 11 {
            assert(k[11] == 'y');
        } else if i == 12 {
            assert(k[12] == 'p');
        } else if i == 13 {
            assert(k[13] == 'e');
        } else {
            assert(false);
        }
    }
    assert(lower(k) =~= "rtppayloadtype"@);
}

proof fn key_facts_sendercontroladdress()
    ensures
        key_wf("SenderControlAddress"@),
        lower("SenderControlAddress"@) == "sendercontroladdress"@,
{
    reveal_strlit("SenderControlAddress");
    reveal_strlit("sendercontroladdress");
    let k = "SenderControlAddress"@;
    assert forall|i: int| 0 <= i < k.len() implies !is_space(#[trigger] k[i]) && k[i]
        != '#' && k[i] != '=' by {
        if i == 0 {
            assert(k[0] == 'S');
        } else if i == 1 {
            assert(k[1] == 'e');
        } else if i == 2 {
            assert(k[2] == 'n');
        } else if i == 3 {
            assert(k[3] == 'd');
        } else if i == 4 {
            assert(k[4] == 'e');
        } else if i == 5 {
            assert(k[5] == 'r');
        } else if i == 6 {
            assert(k[6] == 'C');
        } else if i == 7 {
            assert(k[7] == 'o');
        } else if i == 8 {
            assert(k[8] == 'n');
        } else if i == 9 {
            assert(k[9] == 't');
        } else if i == 10 {
            assert(k[10] == 'r');
        } else if i == 11 {
            assert(k[11] == 'o');
        } else if i == 12 {
            assert(k[12] == 'l');
        } else if i == 13 {
            assert(k[13] == 'A');
        } else if i == 14 {
            assert(k[14] == 'd');
        } else if i == 15 {
            assert(k[15] == 'd');
        } else if i == 16 {
            assert(k[16] == 'r');
        } else if i == 17 {
            assert(k[17] == 'e');
        } else if i == 18 {
            assert(k[18] == 's');
        } else if i == 19 {
            assert(k[19] == 's');
        } else {
            assert(false);
        }
    }
    assert forall|i: int| 0 <= i < k.len() implies lower(k)[i] == "sendercontroladdress"@[i] by {
        if i == 0 {
            assert(k[0] == 'S');
        } else if i == 1 {
            assert(k[1] == 'e');
        } else if i == 2 {
            assert(k[2] == 'n');
        } else if i == 3 {
            assert(k[3] == 'd');
        } else if i == 4 {
            assert(k[4] == 'e');
        } else if i == 5 {
            assert(k[5] == 'r');
        } else if i == 6 {
            assert(k[6] == 'C');
        } else if i == 7 {
            assert(k[7] == 'o');
        } else if i == 8 {
            assert(k[8] == 'n');
        } else if i == 9 {
            assert(k[9] == 't');
        } else if i == 10 {
            assert(k[10] == 'r');
        } else if i == 11 {
            assert(k[11] == 'o');
        } else if i == 12 {
            assert(k[12] == 'l');
        } else if i == 13 {
            assert(k[13] == 'A');
        } else if i == 14 {
            assert(k[14] == 'd');
        } else if i == 15 {
            assert(k[15] == 'd');
        } else if i == 16 {
            assert(k[16] == 'r');
        } else if i == 17 {
            assert(k[17] == 'e');
        } else if i == 18 {
            assert(k[18] == 's');
        } else if i == 19 {
            assert(k[19] == 's');
        } else {
            assert(false);
        }
    }
    assert(lower(k) =~= "sendercontroladdress"@);
}

/// A rendered `ESessionCreated` line parses back to the event it renders.
proof fn rt_session_created(
    session_id: u32,
)
    ensures
        ({
            let e = EventV::SessionCreated { session_id };
            parse_line_spec(event_line(e)) == Ok::<Option<EventV>, ParseErrorV>(Some(e))
        }),
{
    let e = EventV::SessionCreated { session_id };
    let name = "ESessionCreated"@;
    let toks = seq![name, dec_of(session_id as nat)];
    assert(event_tokens(e) == toks);
    name_safe_session_created();
    lemma_dec_token_safe(session_id as nat);
    assert forall|k: int| 0 <= k < toks.len() implies token_safe(#[trigger] toks[k]) by {
        if k == 0 {
            assert(toks[0] == name);
        } else if k == 1 {
            assert(toks[1] == dec_of(session_id as nat));
        } else {
            assert(false);
        }
    }
    crate::wire::lemma_line_tokens_join(toks);
    reveal_strlit("ESessionCreated");
    assert(toks[1] == dec_of(session_id as nat));
    crate::wire::lemma_dec_of_val(session_id as nat);
    assert(crate::parser::pos_u32(toks, 1, name) == Ok::<u32, ParseErrorV>(session_id));
    assert(crate::parser::ev_session_created(toks, name) == Ok::<EventV, ParseErrorV>(e));
    assert(crate::parser::parse_tokens_spec(toks) == Ok::<EventV, ParseErrorV>(e));
}

/// A rendered `ESessionDeleted` line parses back to the event it renders.
proof fn rt_session_deleted(
    session_id: u32,
)
    ensures
        ({
            let e = EventV::SessionDeleted { session_id };
            parse_line_spec(event_line(e)) == Ok::<Option<EventV>, ParseErrorV>(Some(e))
        }),
{
    let e = EventV::SessionDeleted { session_id };
    let name = "ESessionDeleted"@;
    let toks = seq![name, dec_of(session_id as nat)];
    assert(event_tokens(e) == toks);
    name_safe_session_deleted();
    lemma_dec_token_safe(session_id as nat);
    assert forall|k: int| 0 <= k < toks.len() implies token_safe(#[trigger] toks[k]) by {
        if k == 0 {
            assert(toks[0] == name);
        } else if k == 1 {
            assert(toks[1] == dec_of(session_id as nat));
        } else {
            assert(false);
        }
    }
    crate::wire::lemma_line_tokens_join(toks);
    reveal_strlit("ESessionDeleted");
    assert(toks[1] == dec_of(session_id as nat));
    crate::wire::lemma_dec_of_val(session_id as nat);
    assert(crate::parser::pos_u32(toks, 1, name) == Ok::<u32, ParseErrorV>(session_id));
    assert(crate::parser::ev_session_deleted(toks, name) == Ok::<EventV, ParseErrorV>(e));
    assert(crate::parser::parse_tokens_spec(toks) == Ok::<EventV, ParseErrorV>(e));
}

/// A rendered `EResourceCreated` line parses back to the event it renders.
proof fn rt_resource_created(
    session_id: u32,
    resource_id: u32,
)
    ensures
        ({
            let e = EventV::ResourceCreated { session_id, resource_id };
            parse_line_spec(event_line(e)) == Ok::<Option<EventV>, ParseErrorV>(Some(e))
        }),
{
    let e = EventV::ResourceCreated { session_id, resource_id };
    let name = "EResourceCreated"@;
    let toks = seq![name, dec_of(session_id as nat), dec_of(resource_id as nat)];
    assert(event_tokens(e) == toks);
    name_safe_resource_created();
    lemma_dec_token_safe(session_id as nat);
    lemma_dec_token_safe(resource_id as nat);
    assert forall|k: int| 0 <= k < toks.len() implies token_safe(#[trigger] toks[k]) by {
        if k == 0 {
            assert(toks[0] == name);
        } else if k == 1 {
            assert(toks[1] == dec_of(session_id as nat));
        } else if k == 2 {
            assert(toks[2] == dec_of(resource_id as nat));
        } else {
            assert(false);
        }
    }
    crate::wire::lemma_line_tokens_join(toks);
    reveal_strlit("EResourceCreated");
    assert(toks[1] == dec_of(session_id as nat));
    crate::wire::lemma_dec_of_val(session_id as nat);
    assert(crate::parser::pos_u32(toks, 1, name) == Ok::<u32, ParseErrorV>(session_id));
    assert(toks[2] == dec_of(resource_id as nat));
    crate::wire::lemma_dec_of_val(resource_id as nat);
    assert(crate::parser::pos_u32(toks, 2, name) == Ok::<u32, ParseErrorV>(resource_id));
    assert(crate::parser::ev_resource_created(toks, name) == Ok::<EventV, ParseErrorV>(e));
    assert(crate::parser::parse_tokens_spec(toks) == Ok::<EventV, ParseErrorV>(e));
}

/// A rendered `EResourceDeleted` line parses back to the event it renders.
proof fn rt_resource_deleted(
    session_id: u32,
    resource_id: u32,
)
    ensures
        ({
            let e = EventV::ResourceDeleted { session_id, resource_id };
            parse_line_spec(event_line(e)) == Ok::<Option<EventV>, ParseErrorV>(Some(e))
        }),
{
    let e = EventV::ResourceDeleted { session_id, resource_id };
    let name = "EResourceDeleted"@;
    let toks = seq![name, dec_of(session_id as nat), dec_of(resource_id as nat)];
    assert(event_tokens(e) == toks);
    name_safe_resource_deleted();
    lemma_dec_token_safe(session_id as nat);
    lemma_dec_token_safe(resource_id as nat);
    assert forall|k: int| 0 <= k < toks.len() implies token_safe(#[trigger] toks[k]) by {
        if k == 0 {
            assert(toks[0] == name);
        } else if k == 1 {
            assert(toks[1] == dec_of(session_id as nat));
        } else if k == 2 {
            assert(toks[2] == dec_of(resource_id as nat));
        } else {
            assert(false);
        }
    }
    crate::wire::lemma_line_tokens_join(toks);
    reveal_strlit("EResourceDeleted");
    assert(toks[1] == dec_of(session_id as nat));
    crate::wire::lemma_dec_of_val(session_id as nat);
    assert(crate::parser::pos_u32(toks, 1, name) == Ok::<u32, ParseErrorV>(session_id));
    assert(toks[2] == dec_of(resource_id as nat));
    crate::wire::lemma_dec_of_val(resource_id as nat);
    assert(crate::parser::pos_u32(toks, 2, name) == Ok::<u32, ParseErrorV>(resource_id));
    assert(crate::parser::ev_resource_deleted(toks, name) == Ok::<EventV, ParseErrorV>(e));
    assert(crate::parser::parse_tokens_spec(toks) == Ok::<EventV, ParseErrorV>(e));
}

/// A rendered `EAudioLevelNotification` line parses back to the event it renders.
proof fn rt_audio_level_notification(
    session_id: u32,
    resource_id: u32,
    in_talk: bool,
    energy_level: u8,
)
    ensures
        ({
            let e = EventV::AudioLevelNotification { session_id, resource_id, in_talk, energy_level };
            parse_line_spec(event_line(e)) == Ok::<Option<EventV>, ParseErrorV>(Some(e))
        }),
{
    let e = EventV::AudioLevelNotification { session_id, resource_id, in_talk, energy_level };
    let name = "EAudioLevelNotification"@;
    let bt_in_talk = if in_talk { seq!['1'] } else { seq!['0'] };
    let toks = seq![name, dec_of(session_id as nat), dec_of(resource_id as nat), bt_in_talk, dec_of(energy_level as nat)];
    assert(event_tokens(e) == toks);
    name_safe_audio_level_notification();
    lemma_dec_token_safe(session_id as nat);
    lemma_dec_token_safe(resource_id as nat);
    assert forall|i: int| 0 <= i < bt_in_talk.len() implies !is_space(#[trigger] bt_in_talk[i])
        && bt_in_talk[i] != '#' by {
        assert(i == 0);
        if in_talk {
            assert(bt_in_talk[0] == '1');
        } else {
            assert(bt_in_talk[0] == '0');
        }
    }
    assert(token_safe(bt_in_talk));
    lemma_dec_token_safe(energy_level as nat);
    assert forall|k: int| 0 <= k < toks.len() implies token_safe(#[trigger] toks[k]) by {
        if k == 0 {
            assert(toks[0] == name);
        } else if k == 1 {
            assert(toks[1] == dec_of(session_id as nat));
        } else if k == 2 {
            assert(toks[2] == dec_of(resource_id as nat));
        } else if k == 3 {
            assert(toks[3] == bt_in_talk);
        } else if k == 4 {
            assert(toks[4] == dec_of(energy_level as nat));
        } else {
            assert(false);
        }
    }
    crate::wire::lemma_line_tokens_join(toks);
    reveal_strlit("EAudioLevelNotification");
    assert(toks[1] == dec_of(session_id as nat));
    crate::wire::lemma_dec_of_val(session_id as nat);
    assert(crate::parser::pos_u32(toks, 1, name) == Ok::<u32, ParseErrorV>(session_id));
    assert(toks[2] == dec_of(resource_id as nat));
    crate::wire::lemma_dec_of_val(resource_id as nat);
    assert(crate::parser::pos_u32(toks, 2, name) == Ok::<u32, ParseErrorV>(resource_id));
    assert(toks[3] == bt_in_talk);
    if !in_talk {
        assert((seq!['0'])[0] == '0' && (seq!['1'])[0] == '1');
        assert(bt_in_talk != seq!['1']);
    }
    assert(crate::parser::pos_bool(toks, 3, name) == Ok::<bool, ParseErrorV>(in_talk));
    assert(toks[4] == dec_of(energy_level as nat));
    crate::wire::lemma_dec_of_val(energy_level as nat);
    assert(crate::parser::pos_u8(toks, 4, name) == Ok::<u8, ParseErrorV>(energy_level));
    assert(crate::parser::ev_audio_level_notification(toks, name) == Ok::<EventV, ParseErrorV>(e));
    assert(crate::parser::parse_tokens_spec(toks) == Ok::<EventV, ParseErrorV>(e));
}

/// A rendered `EStreamBufferStateNotification` line parses back to the event it renders.
proof fn rt_stream_buffer_state_notification(
    session_id: u32,
    resource_id: u32,
    state: EStreamBufferStateNotification,
)
    ensures
        ({
            let e = EventV::StreamBufferStateNotification { session_id, resource_id, state };
            parse_line_spec(event_line(e)) == Ok::<Option<EventV>, ParseErrorV>(Some(e))
        }),
{
    let e = EventV::StreamBufferStateNotification { session_id, resource_id, state };
    let name = "EStreamBufferStateNotification"@;
    let toks = seq![name, dec_of(session_id as nat), dec_of(resource_id as nat), dec_of(state.spec_code() as nat)];
    assert(event_tokens(e) == toks);
    name_safe_stream_buffer_state_notification();
    lemma_dec_token_safe(session_id as nat);
    lemma_dec_token_safe(resource_id as nat);
    lemma_dec_token_safe(state.spec_code() as nat);
    assert forall|k: int| 0 <= k < toks.len() implies token_safe(#[trigger] toks[k]) by {
        if k == 0 {
            assert(toks[0] == name);
        } else if k == 1 {
            assert(toks[1] == dec_of(session_id as nat));
        } else if k == 2 {
            assert(toks[2] == dec_of(resource_id as nat));
        } else if k == 3 {
            assert(toks[3] == dec_of(state.spec_code() as nat));
        } else {
            assert(false);
        }
    }
    crate::wire::lemma_line_tokens_join(toks);
    reveal_strlit("EStreamBufferStateNotification");
    assert(toks[1] == dec_of(session_id as nat));
    crate::wire::lemma_dec_of_val(session_id as nat);
    assert(crate::parser::pos_u32(toks, 1, name) == Ok::<u32, ParseErrorV>(session_id));
    assert(toks[2] == dec_of(resource_id as nat));
    crate::wire::lemma_dec_of_val(resource_id as nat);
    assert(crate::parser::pos_u32(toks, 2, name) == Ok::<u32, ParseErrorV>(resource_id));
    assert(toks[3] == dec_of(state.spec_code() as nat));
    crate::wire::lemma_dec_of_val(state.spec_code() as nat);
    match state { EStreamBufferStateNotification::Empty => {}, EStreamBufferStateNotification::Low => {}, EStreamBufferStateNotification::High => {}, EStreamBufferStateNotification::Full => {}, }
    assert(crate::parser::pos_u8(toks, 3, name) == Ok::<u8, ParseErrorV>(state.spec_code()));
    assert(EStreamBufferStateNotification::spec_from(state.spec_code()) == Some(state));
    assert(crate::parser::ev_stream_buffer_state_notification(toks, name) == Ok::<EventV, ParseErrorV>(e));
    assert(crate::parser::parse_tokens_spec(toks) == Ok::<EventV, ParseErrorV>(e));
}

/// A rendered `ECallIncoming` line parses back to the event it renders.
proof fn rt_call_incoming(
    session_id: u32,
    resource_id: u32,
    call_identifier: Seq<char>,
    ani: Option<Seq<char>>,
    dnis: Option<Seq<char>>,
    rdn: Option<Seq<char>>,
    remote_name: Option<Seq<char>>,
    remote_address: Option<Seq<char>>,
)
    requires
        token_safe(call_identifier),
        ani matches Some(v) ==> value_wf(v),
        dnis matches Some(v) ==> value_wf(v),
        rdn matches Some(v) ==> value_wf(v),
        remote_name matches Some(v) ==> value_wf(v),
        remote_address matches Some(v) ==> value_wf(v),
    ensures
        ({
            let e = EventV::CallIncoming { session_id, resource_id, call_identifier, ani, dnis, rdn, remote_name, remote_address };
            parse_line_spec(event_line(e)) == Ok::<Option<EventV>, ParseErrorV>(Some(e))
        }),
{
    let e = EventV::CallIncoming { session_id, resource_id, call_identifier, ani, dnis, rdn, remote_name, remote_address };
    let name = "ECallIncoming"@;
    let fields = seq![("ANI"@, ani), ("DNIS"@, dnis), ("RDN"@, rdn), ("RemoteName"@, remote_name), ("RemoteAddress"@, remote_address)];
    let pos = seq![name, dec_of(session_id as nat), dec_of(resource_id as nat), call_identifier];
    let toks = pos + opt_tokens(fields);
    assert(event_tokens(e) == toks);
    name_safe_call_incoming();
    lemma_dec_token_safe(session_id as nat);
    lemma_dec_token_safe(resource_id as nat);
    key_facts_ani();
    key_facts_dnis();
    key_facts_rdn();
    key_facts_remotename();
    key_facts_remoteaddress();
    assert(crate::wire::fields_wf(fields)) by {
        assert forall|k: int|
            0 <= k < fields.len() implies key_wf(#[trigger] fields[k].0) && (
        fields[k].1 matches Some(v) ==> value_wf(v)) by {
            if k == 0 {
                assert(fields[0].0 == "ANI"@);
            } else if k == 1 {
                assert(fields[1].0 == "DNIS"@);
            } else if k == 2 {
                assert(fields[2].0 == "RDN"@);
            } else if k == 3 {
                assert(fields[3].0 == "RemoteName"@);
            } else if k == 4 {
                assert(fields[4].0 == "RemoteAddress"@);
            } else {
                assert(false);
            }
        }
    }
    assert(crate::wire::keys_distinct(fields)) by {
        reveal_strlit("ani");
        reveal_strlit("dnis");
        reveal_strlit("rdn");
        reveal_strlit("remotename");
        reveal_strlit("remoteaddress");
        assert("ani"@.len() != "dnis"@.len());
        assert("ani"@ != "dnis"@);
        assert("ani"@[0] != "rdn"@[0]);
        assert("ani"@ != "rdn"@);
        assert("ani"@.len() != "remotename"@.len());
        assert("ani"@ != "remotename"@);
        assert("ani"@.len() != "remoteaddress"@.len());
        assert("ani"@ != "remoteaddress"@);
        assert("dnis"@.len() != "rdn"@.len());
        assert("dnis"@ != "rdn"@);
        assert("dnis"@.len() != "remotename"@.len());
        assert("dnis"@ != "remotename"@);
        assert("dnis"@.len() != "remoteaddress"@.len());
        assert("dnis"@ != "remoteaddress"@);
        assert("rdn"@.len() != "remotename"@.len());
        assert("rdn"@ != "remotename"@);
        assert("rdn"@.len() != "remoteaddress"@.len());
        assert("rdn"@ != "remoteaddress"@);
        assert("remotename"@.len() != "remoteaddress"@.len());
        assert("remotename"@ != "remoteaddress"@);
        assert forall|k1: int, k2: int|
            0 <= k1 < k2 < fields.len() implies lower(#[trigger] fields[k1].0) != lower(
            #[trigger] fields[k2].0,
        ) by {
            assert(fields[0].0 == "ANI"@);
            assert(fields[1].0 == "DNIS"@);
            assert(fields[2].0 == "RDN"@);
            assert(fields[3].0 == "RemoteName"@);
            assert(fields[4].0 == "RemoteAddress"@);
            assert(k1 == 0 || k1 == 1 || k1 == 2 || k1 == 3 || k1 == 4);
            assert(k2 == 0 || k2 == 1 || k2 == 2 || k2 == 3 || k2 == 4);
        }
    }
    crate::wire::lemma_opt_tokens_safe(fields);
    assert forall|k: int| 0 <= k < toks.len() implies token_safe(#[trigger] toks[k]) by {
        if k < 4 {
            assert(toks[k] == pos[k]);
        } else {
            assert(toks[k] == opt_tokens(fields)[k - 4]);
        }
    }
    crate::wire::lemma_line_tokens_join(toks);
    reveal_strlit("ECallIncoming");
    assert(toks[1] == dec_of(session_id as nat));
    crate::wire::lemma_dec_of_val(session_id as nat);
    assert(crate::parser::pos_u32(toks, 1, name) == Ok::<u32, ParseErrorV>(session_id));
    assert(toks[2] == dec_of(resource_id as nat));
    crate::wire::lemma_dec_of_val(resource_id as nat);
    assert(crate::parser::pos_u32(toks, 2, name) == Ok::<u32, ParseErrorV>(resource_id));
    assert(toks[3] == call_identifier);
    assert(crate::parser::pos_str(toks, 3, name) == Ok::<Seq<char>, ParseErrorV>(call_identifier));
    crate::wire::lemma_opts_from_shift(pos, opt_tokens(fields), 0);
    assert(crate::wire::opts_from(toks, 4) == crate::wire::opts_from(opt_tokens(fields), 0));
    crate::wire::lemma_opt_tokens_lookup(fields, 0);
    assert(crate::wire::opt_get(toks, 4, "ani"@) == fields[0].1);
    crate::wire::lemma_opt_tokens_lookup(fields, 1);
    assert(crate::wire::opt_get(toks, 4, "dnis"@) == fields[1].1);
    crate::wire::lemma_opt_tokens_lookup(fields, 2);
    assert(crate::wire::opt_get(toks, 4, "rdn"@) == fields[2].1);
    crate::wire::lemma_opt_tokens_lookup(fields, 3);
    assert(crate::wire::opt_get(toks, 4, "remotename"@) == fields[3].1);
    crate::wire::lemma_opt_tokens_lookup(fields, 4);
    assert(crate::wire::opt_get(toks, 4, "remoteaddress"@) == fields[4].1);
    assert(crate::parser::ev_call_incoming(toks, name) == Ok::<EventV, ParseErrorV>(e));
    assert(crate::parser::parse_tokens_spec(toks) == Ok::<EventV, ParseErrorV>(e));
}

/// A rendered `ECallOutgoing` line parses back to the event it renders.
proof fn rt_call_outgoing(
    session_id: u32,
    resource_id: u32,
    address: Seq<char>,
    call_identifier: Seq<char>,
)
    requires
        token_safe(address),
        token_safe(call_identifier),
    ensures
        ({
            let e = EventV::CallOutgoing { session_id, resource_id, address, call_identifier };
            parse_line_spec(event_line(e)) == Ok::<Option<EventV>, ParseErrorV>(Some(e))
        }),
{
    let e = EventV::CallOutgoing { session_id, resource_id, address, call_identifier };
    let name = "ECallOutgoing"@;
    let toks = seq![name, dec_of(session_id as nat), dec_of(resource_id as nat), address, call_identifier];
    assert(event_tokens(e) == toks);
    name_safe_call_outgoing();
    lemma_dec_token_safe(session_id as nat);
    lemma_dec_token_safe(resource_id as nat);
    assert forall|k: int| 0 <= k < toks.len() implies token_safe(#[trigger] toks[k]) by {
        if k == 0 {
            assert(toks[0] == name);
        } else if k == 1 {
            assert(toks[1] == dec_of(session_id as nat));
        } else if k == 2 {
            assert(toks[2] == dec_of(resource_id as nat));
        } else if k == 3 {
            assert(toks[3] == address);
        } else if k == 4 {
            assert(toks[4] == call_identifier);
        } else {
            assert(false);
        }
    }
    crate::wire::lemma_line_tokens_join(toks);
    reveal_strlit("ECallOutgoing");
    assert(toks[1] == dec_of(session_id as nat));
    crate::wire::lemma_dec_of_val(session_id as nat);
    assert(crate::parser::pos_u32(toks, 1, name) == Ok::<u32, ParseErrorV>(session_id));
    assert(toks[2] == dec_of(resource_id as nat));
    crate::wire::lemma_dec_of_val(resource_id as nat);
    assert(crate::parser::pos_u32(toks, 2, name) == Ok::<u32, ParseErrorV>(resource_id));
    assert(toks[3] == address);
    assert(crate::parser::pos_str(toks, 3, name) == Ok::<Seq<char>, ParseErrorV>(address));
    assert(toks[4] == call_identifier);
    assert(crate::parser::pos_str(toks, 4, name) == Ok::<Seq<char>, ParseErrorV>(call_identifier));
    assert(crate::parser::ev_call_outgoing(toks, name) == Ok::<EventV, ParseErrorV>(e));
    assert(crate::parser::parse_tokens_spec(toks) == Ok::<EventV, ParseErrorV>(e));
}

/// A rendered `ECallRemoteAlerting` line parses back to the event it renders.
proof fn rt_call_remote_alerting(
    session_id: u32,
    resource_id: u32,
    user: Option<Seq<char>>,
)
    requires
        user matches Some(v) ==> value_wf(v),
    ensures
        ({
            let e = EventV::CallRemoteAlerting { session_id, resource_id, user };
            parse_line_spec(event_line(e)) == Ok::<Option<EventV>, ParseErrorV>(Some(e))
        }),
{
    let e = EventV::CallRemoteAlerting { session_id, resource_id, user };
    let name = "ECallRemoteAlerting"@;
    let fields = seq![("User"@, user)];
    let pos = seq![name, dec_of(session_id as nat), dec_of(resource_id as nat)];
    let toks = pos + opt_tokens(fields);
    assert(event_tokens(e) == toks);
    name_safe_call_remote_alerting();
    lemma_dec_token_safe(session_id as nat);
    lemma_dec_token_safe(resource_id as nat);
    key_facts_user();
    assert(crate::wire::fields_wf(fields)) by {
        assert forall|k: int|
            0 <= k < fields.len() implies key_wf(#[trigger] fields[k].0) && (
        fields[k].1 matches Some(v) ==> value_wf(v)) by {
            if k == 0 {
                assert(fields[0].0 == "User"@);
            } else {
                assert(false);
            }
        }
    }
    assert(crate::wire::keys_distinct(fields));
    crate::wire::lemma_opt_tokens_safe(fields);
    assert forall|k: int| 0 <= k < toks.len() implies token_safe(#[trigger] toks[k]) by {
        if k < 3 {
            assert(toks[k] == pos[k]);
        } else {
            assert(toks[k] == opt_tokens(fields)[k - 3]);
        }
    }
    crate::wire::lemma_line_tokens_join(toks);
    reveal_strlit("ECallRemoteAlerting");
    assert(toks[1] == dec_of(session_id as nat));
    crate::wire::lemma_dec_of_val(session_id as nat);
    assert(crate::parser::pos_u32(toks, 1, name) == Ok::<u32, ParseErrorV>(session_id));
    assert(toks[2] == dec_of(resource_id as nat));
    crate::wire::lemma_dec_of_val(resource_id as nat);
    assert(crate::parser::pos_u32(toks, 2, name) == Ok::<u32, ParseErrorV>(resource_id));
    crate::wire::lemma_opts_from_shift(pos, opt_tokens(fields), 0);
    assert(crate::wire::opts_from(toks, 3) == crate::wire::opts_from(opt_tokens(fields), 0));
    crate::wire::lemma_opt_tokens_lookup(fields, 0);
    assert(crate::wire::opt_get(toks, 3, "user"@) == fields[0].1);
    assert(crate::parser::ev_call_remote_alerting(toks, name) == Ok::<EventV, ParseErrorV>(e));
    assert(crate::parser::parse_tokens_spec(toks) == Ok::<EventV, ParseErrorV>(e));
}

/// A rendered `ECallConnectionEstablished` line parses back to the event it renders.
proof fn rt_call_connection_established(
    session_id: u32,
    resource_id: u32,
)
    ensures
        ({
            let e = EventV::CallConnectionEstablished { session_id, resource_id };
            parse_line_spec(event_line(e)) == Ok::<Option<EventV>, ParseErrorV>(Some(e))
        }),
{
    let e = EventV::CallConnectionEstablished { session_id, resource_id };
    let name = "ECallConnectionEstablished"@;
    let toks = seq![name, dec_of(session_id as nat), dec_of(resource_id as nat)];
    assert(event_tokens(e) == toks);
    name_safe_call_connection_established();
    lemma_dec_token_safe(session_id as nat);
    lemma_dec_token_safe(resource_id as nat);
    assert forall|k: int| 0 <= k < toks.len() implies token_safe(#[trigger] toks[k]) by {
        if k == 0 {
            assert(toks[0] == name);
        } else if k == 1 {
            assert(toks[1] == dec_of(session_id as nat));
        } else if k == 2 {
            assert(toks[2] == dec_of(resource_id as nat));
        } else {
            assert(false);
        }
    }
    crate::wire::lemma_line_tokens_join(toks);
    reveal_strlit("ECallConnectionEstablished");
    assert(toks[1] == dec_of(session_id as nat));
    crate::wire::lemma_dec_of_val(session_id as nat);
    assert(crate::parser::pos_u32(toks, 1, name) == Ok::<u32, ParseErrorV>(session_id));
    assert(toks[2] == dec_of(resource_id as nat));
    crate::wire::lemma_dec_of_val(resource_id as nat);
    assert(crate::parser::pos_u32(toks, 2, name) == Ok::<u32, ParseErrorV>(resource_id));
    assert(crate::parser::ev_call_connection_established(toks, name) == Ok::<EventV, ParseErrorV>(e));
    assert(crate::parser::parse_tokens_spec(toks) == Ok::<EventV, ParseErrorV>(e));
}

/// A rendered `ECallConnectionFailed` line parses back to the event it renders.
proof fn rt_call_connection_failed(
    session_id: u32,
    resource_id: u32,
    reason: Seq<char>,
    protocol_specific_reason: Option<Seq<char>>,
)
    requires
        token_safe(reason),
        protocol_specific_reason matches Some(v) ==> value_wf(v),
    ensures
        ({
            let e = EventV::CallConnectionFailed { session_id, resource_id, reason, protocol_specific_reason };
            parse_line_spec(event_line(e)) == Ok::<Option<EventV>, ParseErrorV>(Some(e))
        }),
{
    let e = EventV::CallConnectionFailed { session_id, resource_id, reason, protocol_specific_reason };
    let name = "ECallConnectionFailed"@;
    let fields = seq![("ProtocolSpecificReason"@, protocol_specific_reason)];
    let pos = seq![name, dec_of(session_id as nat), dec_of(resource_id as nat), reason];
    let toks = pos + opt_tokens(fields);
    assert(event_tokens(e) == toks);
    name_safe_call_connection_failed();
    lemma_dec_token_safe(session_id as nat);
    lemma_dec_token_safe(resource_id as nat);
    key_facts_protocolspecificreason();
    assert(crate::wire::fields_wf(fields)) by {
        assert forall|k: int|
            0 <= k < fields.len() implies key_wf(#[trigger] fields[k].0) && (
        fields[k].1 matches Some(v) ==> value_wf(v)) by {
            if k == 0 {
                assert(fields[0].0 == "ProtocolSpecificReason"@);
            } else {
                assert(false);
            }
        }
    }
    assert(crate::wire::keys_distinct(fields));
    crate::wire::lemma_opt_tokens_safe(fields);
    assert forall|k: int| 0 <= k < toks.len() implies token_safe(#[trigger] toks[k]) by {
        if k < 4 {
            assert(toks[k] == pos[k]);
        } else {
            assert(toks[k] == opt_tokens(fields)[k - 4]);
        }
    }
    crate::wire::lemma_line_tokens_join(toks);
    reveal_strlit("ECallConnectionFailed");
    assert(toks[1] == dec_of(session_id as nat));
    crate::wire::lemma_dec_of_val(session_id as nat);
    assert(crate::parser::pos_u32(toks, 1, name) == Ok::<u32, ParseErrorV>(session_id));
    assert(toks[2] == dec_of(resource_id as nat));
    crate::wire::lemma_dec_of_val(resource_id as nat);
    assert(crate::parser::pos_u32(toks, 2, name) == Ok::<u32, ParseErrorV>(resource_id));
    assert(toks[3] == reason);
    assert(crate::parser::pos_str(toks, 3, name) == Ok::<Seq<char>, ParseErrorV>(reason));
    crate::wire::lemma_opts_from_shift(pos, opt_tokens(fields), 0);
    assert(crate::wire::opts_from(toks, 4) == crate::wire::opts_from(opt_tokens(fields), 0));
    crate::wire::lemma_opt_tokens_lookup(fields, 0);
    assert(crate::wire::opt_get(toks, 4, "protocolspecificreason"@) == fields[0].1);
    assert(crate::parser::ev_call_connection_failed(toks, name) == Ok::<EventV, ParseErrorV>(e));
    assert(crate::parser::parse_tokens_spec(toks) == Ok::<EventV, ParseErrorV>(e));
}

/// A rendered `ECallCleared` line parses back to the event it renders.
proof fn rt_call_cleared(
    session_id: u32,
    resource_id: u32,
    reason: Seq<char>,
    protocol_specific_reason: Option<Seq<char>>,
)
    requires
        token_safe(reason),
        protocol_specific_reason matches Some(v) ==> value_wf(v),
    ensures
        ({
            let e = EventV::CallCleared { session_id, resource_id, reason, protocol_specific_reason };
            parse_line_spec(event_line(e)) == Ok::<Option<EventV>, ParseErrorV>(Some(e))
        }),
{
    let e = EventV::CallCleared { session_id, resource_id, reason, protocol_specific_reason };
    let name = "ECallCleared"@;
    let fields = seq![("ProtocolSpecificReason"@, protocol_specific_reason)];
    let pos = seq![name, dec_of(session_id as nat), dec_of(resource_id as nat), reason];
    let toks = pos + opt_tokens(fields);
    assert(event_tokens(e) == toks);
    name_safe_call_cleared();
    lemma_dec_token_safe(session_id as nat);
    lemma_dec_token_safe(resource_id as nat);
    key_facts_protocolspecificreason();
    assert(crate::wire::fields_wf(fields)) by {
        assert forall|k: int|
            0 <= k < fields.len() implies key_wf(#[trigger] fields[k].0) && (
        fields[k].1 matches Some(v) ==> value_wf(v)) by {
            if k == 0 {
                assert(fields[0].0 == "ProtocolSpecificReason"@);
            } else {
                assert(false);
            }
        }
    }
    assert(crate::wire::keys_distinct(fields));
    crate::wire::lemma_opt_tokens_safe(fields);
    assert forall|k: int| 0 <= k < toks.len() implies token_safe(#[trigger] toks[k]) by {
        if k < 4 {
            assert(toks[k] == pos[k]);
        } else {
            assert(toks[k] == opt_tokens(fields)[k - 4]);
        }
    }
    crate::wire::lemma_line_tokens_join(toks);
    reveal_strlit("ECallCleared");
    assert(toks[1] == dec_of(session_id as nat));
    crate::wire::lemma_dec_of_val(session_id as nat);
    assert(crate::parser::pos_u32(toks, 1, name) == Ok::<u32, ParseErrorV>(session_id));
    assert(toks[2] == dec_of(resource_id as nat));
    crate::wire::lemma_dec_of_val(resource_id as nat);
    assert(crate::parser::pos_u32(toks, 2, name) == Ok::<u32, ParseErrorV>(resource_id));
    assert(toks[3] == reason);
    assert(crate::parser::pos_str(toks, 3, name) == Ok::<Seq<char>, ParseErrorV>(reason));
    crate::wire::lemma_opts_from_shift(pos, opt_tokens(fields), 0);
    assert(crate::wire::opts_from(toks, 4) == crate::wire::opts_from(opt_tokens(fields), 0));
    crate::wire::lemma_opt_tokens_lookup(fields, 0);
    assert(crate::wire::opt_get(toks, 4, "protocolspecificreason"@) == fields[0].1);
    assert(crate::parser::ev_call_cleared(toks, name) == Ok::<EventV, ParseErrorV>(e));
    assert(crate::parser::parse_tokens_spec(toks) == Ok::<EventV, ParseErrorV>(e));
}

/// A rendered `ECallSendDTMFFinished` line parses back to the event it renders.
proof fn rt_call_send_dtmf_finished(
    session_id: u32,
    resource_id: u32,
)
    ensures
        ({
            let e = EventV::CallSendDTMFFinished { session_id, resource_id };
            parse_line_spec(event_line(e)) == Ok::<Option<EventV>, ParseErrorV>(Some(e))
        }),
{
    let e = EventV::CallSendDTMFFinished { session_id, resource_id };
    let name = "ECallSendDTMFFinished"@;
    let toks = seq![name, dec_of(session_id as nat), dec_of(resource_id as nat)];
    assert(event_tokens(e) == toks);
    name_safe_call_send_dtmf_finished();
    lemma_dec_token_safe(session_id as nat);
    lemma_dec_token_safe(resource_id as nat);
    assert forall|k: int| 0 <= k < toks.len() implies token_safe(#[trigger] toks[k]) by {
        if k == 0 {
            assert(toks[0] == name);
        } else if k == 1 {
            assert(toks[1] == dec_of(session_id as nat));
        } else if k == 2 {
            assert(toks[2] == dec_of(resource_id as nat));
        } else {
            assert(false);
        }
    }
    crate::wire::lemma_line_tokens_join(toks);
    reveal_strlit("ECallSendDTMFFinished");
    assert(toks[1] == dec_of(session_id as nat));
    crate::wire::lemma_dec_of_val(session_id as nat);
    assert(crate::parser::pos_u32(toks, 1, name) == Ok::<u32, ParseErrorV>(session_id));
    assert(toks[2] == dec_of(resource_id as nat));
    crate::wire::lemma_dec_of_val(resource_id as nat);
    assert(crate::parser::pos_u32(toks, 2, name) == Ok::<u32, ParseErrorV>(resource_id));
    assert(crate::parser::ev_call_send_dtmf_finished(toks, name) == Ok::<EventV, ParseErrorV>(e));
    assert(crate::parser::parse_tokens_spec(toks) == Ok::<EventV, ParseErrorV>(e));
}

/// A rendered `ECallKeyPress` line parses back to the event it renders.
proof fn rt_call_key_press(
    session_id: u32,
    resource_id: u32,
    key: Seq<char>,
    duration: Option<u16>,
)
    requires
        token_safe(key),
    ensures
        ({
            let e = EventV::CallKeyPress { session_id, resource_id, key, duration };
            parse_line_spec(event_line(e)) == Ok::<Option<EventV>, ParseErrorV>(Some(e))
        }),
{
    let e = EventV::CallKeyPress { session_id, resource_id, key, duration };
    let name = "ECallKeyPress"@;
    let fields = seq![("Duration"@, (match duration { Some(n) => Some(dec_of(n as nat)), None => None::<Seq<char>> }))];
    let pos = seq![name, dec_of(session_id as nat), dec_of(resource_id as nat), key];
    let toks = pos + opt_tokens(fields);
    assert(event_tokens(e) == toks);
    name_safe_call_key_press();
    lemma_dec_token_safe(session_id as nat);
    lemma_dec_token_safe(resource_id as nat);
    key_facts_duration();
    match duration {
        Some(n) => {
            lemma_dec_token_safe(n as nat);
            crate::wire::lemma_dec_of_val(n as nat);
        },
        None => {},
    }
    assert(crate::wire::fields_wf(fields)) by {
        assert forall|k: int|
            0 <= k < fields.len() implies key_wf(#[trigger] fields[k].0) && (
        fields[k].1 matches Some(v) ==> value_wf(v)) by {
            if k == 0 {
                assert(fields[0].0 == "Duration"@);
            } else {
                assert(false);
            }
        }
    }
    assert(crate::wire::keys_distinct(fields));
    crate::wire::lemma_opt_tokens_safe(fields);
    assert forall|k: int| 0 <= k < toks.len() implies token_safe(#[trigger] toks[k]) by {
        if k < 4 {
            assert(toks[k] == pos[k]);
        } else {
            assert(toks[k] == opt_tokens(fields)[k - 4]);
        }
    }
    crate::wire::lemma_line_tokens_join(toks);
    reveal_strlit("ECallKeyPress");
    assert(toks[1] == dec_of(session_id as nat));
    crate::wire::lemma_dec_of_val(session_id as nat);
    assert(crate::parser::pos_u32(toks, 1, name) == Ok::<u32, ParseErrorV>(session_id));
    assert(toks[2] == dec_of(resource_id as nat));
    crate::wire::lemma_dec_of_val(resource_id as nat);
    assert(crate::parser::pos_u32(toks, 2, name) == Ok::<u32, ParseErrorV>(resource_id));
    assert(toks[3] == key);
    assert(crate::parser::pos_str(toks, 3, name) == Ok::<Seq<char>, ParseErrorV>(key));
    crate::wire::lemma_opts_from_shift(pos, opt_tokens(fields), 0);
    assert(crate::wire::opts_from(toks, 4) == crate::wire::opts_from(opt_tokens(fields), 0));
    crate::wire::lemma_opt_tokens_lookup(fields, 0);
    assert(crate::wire::opt_get(toks, 4, "duration"@) == fields[0].1);
    assert(crate::parser::ev_call_key_press(toks, name) == Ok::<EventV, ParseErrorV>(e));
    assert(crate::parser::parse_tokens_spec(toks) == Ok::<EventV, ParseErrorV>(e));
}

/// A rendered `EPlayerStarted` line parses back to the event it renders.
proof fn rt_player_started(
    session_id: u32,
    resource_id: u32,
)
    ensures
        ({
            let e = EventV::PlayerStarted { session_id, resource_id };
            parse_line_spec(event_line(e)) == Ok::<Option<EventV>, ParseErrorV>(Some(e))
        }),
{
    let e = EventV::PlayerStarted { session_id, resource_id };
    let name = "EPlayerStarted"@;
    let toks = seq![name, dec_of(session_id as nat), dec_of(resource_id as nat)];
    assert(event_tokens(e) == toks);
    name_safe_player_started();
    lemma_dec_token_safe(session_id as nat);
    lemma_dec_token_safe(resource_id as nat);
    assert forall|k: int| 0 <= k < toks.len() implies token_safe(#[trigger] toks[k]) by {
        if k == 0 {
            assert(toks[0] == name);
        } else if k == 1 {
            assert(toks[1] == dec_of(session_id as nat));
        } else if k == 2 {
            assert(toks[2] == dec_of(resource_id as nat));
        } else {
            assert(false);
        }
    }
    crate::wire::lemma_line_tokens_join(toks);
    reveal_strlit("EPlayerStarted");
    assert(toks[1] == dec_of(session_id as nat));
    crate::wire::lemma_dec_of_val(session_id as nat);
    assert(crate::parser::pos_u32(toks, 1, name) == Ok::<u32, ParseErrorV>(session_id));
    assert(toks[2] == dec_of(resource_id as nat));
    crate::wire::lemma_dec_of_val(resource_id as nat);
    assert(crate::parser::pos_u32(toks, 2, name) == Ok::<u32, ParseErrorV>(resource_id));
    assert(crate::parser::ev_player_started(toks, name) == Ok::<EventV, ParseErrorV>(e));
    assert(crate::parser::parse_tokens_spec(toks) == Ok::<EventV, ParseErrorV>(e));
}

/// A rendered `EPlayerStopped` line parses back to the event it renders.
proof fn rt_player_stopped(
    session_id: u32,
    resource_id: u32,
)
    ensures
        ({
            let e = EventV::PlayerStopped { session_id, resource_id };
            parse_line_spec(event_line(e)) == Ok::<Option<EventV>, ParseErrorV>(Some(e))
        }),
{
    let e = EventV::PlayerStopped { session_id, resource_id };
    let name = "EPlayerStopped"@;
    let toks = seq![name, dec_of(session_id as nat), dec_of(resource_id as nat)];
    assert(event_tokens(e) == toks);
    name_safe_player_stopped();
    lemma_dec_token_safe(session_id as nat);
    lemma_dec_token_safe(resource_id as nat);
    assert forall|k: int| 0 <= k < toks.len() implies token_safe(#[trigger] toks[k]) by {
        if k == 0 {
            assert(toks[0] == name);
        } else if k == 1 {
            assert(toks[1] == dec_of(session_id as nat));
        } else if k == 2 {
            assert(toks[2] == dec_of(resource_id as nat));
        } else {
            assert(false);
        }
    }
    crate::wire::lemma_line_tokens_join(toks);
    reveal_strlit("EPlayerStopped");
    assert(toks[1] == dec_of(session_id as nat));
    crate::wire::lemma_dec_of_val(session_id as nat);
    assert(crate::parser::pos_u32(toks, 1, name) == Ok::<u32, ParseErrorV>(session_id));
    assert(toks[2] == dec_of(resource_id as nat));
    crate::wire::lemma_dec_of_val(resource_id as nat);
    assert(crate::parser::pos_u32(toks, 2, name) == Ok::<u32, ParseErrorV>(resource_id));
    assert(crate::parser::ev_player_stopped(toks, name) == Ok::<EventV, ParseErrorV>(e));
    assert(crate::parser::parse_tokens_spec(toks) == Ok::<EventV, ParseErrorV>(e));
}

/// A rendered `EPlayerError` line parses back to the event it renders.
proof fn rt_player_error(
    session_id: u32,
    resource_id: u32,
    error_text: Seq<char>,
)
    requires
        token_safe(error_text),
    ensures
        ({
            let e = EventV::PlayerError { session_id, resource_id, error_text };
            parse_line_spec(event_line(e)) == Ok::<Option<EventV>, ParseErrorV>(Some(e))
        }),
{
    let e = EventV::PlayerError { session_id, resource_id, error_text };
    let name = "EPlayerError"@;
    let toks = seq![name, dec_of(session_id as nat), dec_of(resource_id as nat), error_text];
    assert(event_tokens(e) == toks);
    name_safe_player_error();
    lemma_dec_token_safe(session_id as nat);
    lemma_dec_token_safe(resource_id as nat);
    assert forall|k: int| 0 <= k < toks.len() implies token_safe(#[trigger] toks[k]) by {
        if k == 0 {
            assert(toks[0] == name);
        } else if k == 1 {
            assert(toks[1] == dec_of(session_id as nat));
        } else if k == 2 {
            assert(toks[2] == dec_of(resource_id as nat));
        } else if k == 3 {
            assert(toks[3] == error_text);
        } else {
            assert(false);
        }
    }
    crate::wire::lemma_line_tokens_join(toks);
    reveal_strlit("EPlayerError");
    assert(toks[1] == dec_of(session_id as nat));
    crate::wire::lemma_dec_of_val(session_id as nat);
    assert(crate::parser::pos_u32(toks, 1, name) == Ok::<u32, ParseErrorV>(session_id));
    assert(toks[2] == dec_of(resource_id as nat));
    crate::wire::lemma_dec_of_val(resource_id as nat);
    assert(crate::parser::pos_u32(toks, 2, name) == Ok::<u32, ParseErrorV>(resource_id));
    assert(toks[3] == error_text);
    assert(crate::parser::pos_str(toks, 3, name) == Ok::<Seq<char>, ParseErrorV>(error_text));
    assert(crate::parser::ev_player_error(toks, name) == Ok::<EventV, ParseErrorV>(e));
    assert(crate::parser::parse_tokens_spec(toks) == Ok::<EventV, ParseErrorV>(e));
}

/// A rendered `ERecorderStarted` line parses back to the event it renders.
proof fn rt_recorder_started(
    session_id: u32,
    resource_id: u32,
)
    ensures
        ({
            let e = EventV::RecorderStarted { session_id, resource_id };
            parse_line_spec(event_line(e)) == Ok::<Option<EventV>, ParseErrorV>(Some(e))
        }),
{
    let e = EventV::RecorderStarted { session_id, resource_id };
    let name = "ERecorderStarted"@;
    let toks = seq![name, dec_of(session_id as nat), dec_of(resource_id as nat)];
    assert(event_tokens(e) == toks);
    name_safe_recorder_started();
    lemma_dec_token_safe(session_id as nat);
    lemma_dec_token_safe(resource_id as nat);
    assert forall|k: int| 0 <= k < toks.len() implies token_safe(#[trigger] toks[k]) by {
        if k == 0 {
            assert(toks[0] == name);
        } else if k == 1 {
            assert(toks[1] == dec_of(session_id as nat));
        } else if k == 2 {
            assert(toks[2] == dec_of(resource_id as nat));
        } else {
            assert(false);
        }
    }
    crate::wire::lemma_line_tokens_join(toks);
    reveal_strlit("ERecorderStarted");
    assert(toks[1] == dec_of(session_id as nat));
    crate::wire::lemma_dec_of_val(session_id as nat);
    assert(crate::parser::pos_u32(toks, 1, name) == Ok::<u32, ParseErrorV>(session_id));
    assert(toks[2] == dec_of(resource_id as nat));
    crate::wire::lemma_dec_of_val(resource_id as nat);
    assert(crate::parser::pos_u32(toks, 2, name) == Ok::<u32, ParseErrorV>(resource_id));
    assert(crate::parser::ev_recorder_started(toks, name) == Ok::<EventV, ParseErrorV>(e));
    assert(crate::parser::parse_tokens_spec(toks) == Ok::<EventV, ParseErrorV>(e));
}

/// A rendered `ERecorderStopped` line parses back to the event it renders.
proof fn rt_recorder_stopped(
    session_id: u32,
    resource_id: u32,
    reason: RecorderStopReason,
)
    ensures
        ({
            let e = EventV::RecorderStopped { session_id, resource_id, reason };
            parse_line_spec(event_line(e)) == Ok::<Option<EventV>, ParseErrorV>(Some(e))
        }),
{
    let e = EventV::RecorderStopped { session_id, resource_id, reason };
    let name = "ERecorderStopped"@;
    let toks = seq![name, dec_of(session_id as nat), dec_of(resource_id as nat), dec_of(reason.spec_code() as nat)];
    assert(event_tokens(e) == toks);
    name_safe_recorder_stopped();
    lemma_dec_token_safe(session_id as nat);
    lemma_dec_token_safe(resource_id as nat);
    lemma_dec_token_safe(reason.spec_code() as nat);
    assert forall|k: int| 0 <= k < toks.len() implies token_safe(#[trigger] toks[k]) by {
        if k == 0 {
            assert(toks[0] == name);
        } else if k == 1 {
            assert(toks[1] == dec_of(session_id as nat));
        } else if k == 2 {
            assert(toks[2] == dec_of(resource_id as nat));
        } else if k == 3 {
            assert(toks[3] == dec_of(reason.spec_code() as nat));
        } else {
            assert(false);
        }
    }
    crate::wire::lemma_line_tokens_join(toks);
    reveal_strlit("ERecorderStopped");
    assert(toks[1] == dec_of(session_id as nat));
    crate::wire::lemma_dec_of_val(session_id as nat);
    assert(crate::parser::pos_u32(toks, 1, name) == Ok::<u32, ParseErrorV>(session_id));
    assert(toks[2] == dec_of(resource_id as nat));
    crate::wire::lemma_dec_of_val(resource_id as nat);
    assert(crate::parser::pos_u32(toks, 2, name) == Ok::<u32, ParseErrorV>(resource_id));
    assert(toks[3] == dec_of(reason.spec_code() as nat));
    crate::wire::lemma_dec_of_val(reason.spec_code() as nat);
    match reason { RecorderStopReason::Requested => {}, RecorderStopReason::MaxDurationReached => {}, RecorderStopReason::MaxSilenceReached => {}, RecorderStopReason::TransmissionError => {}, }
    assert(crate::parser::pos_u8(toks, 3, name) == Ok::<u8, ParseErrorV>(reason.spec_code()));
    assert(RecorderStopReason::spec_from(reason.spec_code()) == Some(reason));
    assert(crate::parser::ev_recorder_stopped(toks, name) == Ok::<EventV, ParseErrorV>(e));
    assert(crate::parser::parse_tokens_spec(toks) == Ok::<EventV, ParseErrorV>(e));
}

/// A rendered `ERecorderError` line parses back to the event it renders.
proof fn rt_recorder_error(
    session_id: u32,
    resource_id: u32,
    error_text: Seq<char>,
)
    requires
        token_safe(error_text),
    ensures
        ({
            let e = EventV::RecorderError { session_id, resource_id, error_text };
            parse_line_spec(event_line(e)) == Ok::<Option<EventV>, ParseErrorV>(Some(e))
        }),
{
    let e = EventV::RecorderError { session_id, resource_id, error_text };
    let name = "ERecorderError"@;
    let toks = seq![name, dec_of(session_id as nat), dec_of(resource_id as nat), error_text];
    assert(event_tokens(e) == toks);
    name_safe_recorder_error();
    lemma_dec_token_safe(session_id as nat);
    lemma_dec_token_safe(resource_id as nat);
    assert forall|k: int| 0 <= k < toks.len() implies token_safe(#[trigger] toks[k]) by {
        if k == 0 {
            assert(toks[0] == name);
        } else if k == 1 {
            assert(toks[1] == dec_of(session_id as nat));
        } else if k == 2 {
            assert(toks[2] == dec_of(resource_id as nat));
        } else if k == 3 {
            assert(toks[3] == error_text);
        } else {
            assert(false);
        }
    }
    crate::wire::lemma_line_tokens_join(toks);
    reveal_strlit("ERecorderError");
    assert(toks[1] == dec_of(session_id as nat));
    crate::wire::lemma_dec_of_val(session_id as nat);
    assert(crate::parser::pos_u32(toks, 1, name) == Ok::<u32, ParseErrorV>(session_id));
    assert(toks[2] == dec_of(resource_id as nat));
    crate::wire::lemma_dec_of_val(resource_id as nat);
    assert(crate::parser::pos_u32(toks, 2, name) == Ok::<u32, ParseErrorV>(resource_id));
    assert(toks[3] == error_text);
    assert(crate::parser::pos_str(toks, 3, name) == Ok::<Seq<char>, ParseErrorV>(error_text));
    assert(crate::parser::ev_recorder_error(toks, name) == Ok::<EventV, ParseErrorV>(e));
    assert(crate::parser::parse_tokens_spec(toks) == Ok::<EventV, ParseErrorV>(e));
}

/// A rendered `ERecorderVoiceTrigger` line parses back to the event it renders.
proof fn rt_recorder_voice_trigger(
    session_id: u32,
    resource_id: u32,
)
    ensures
        ({
            let e = EventV::RecorderVoiceTrigger { session_id, resource_id };
            parse_line_spec(event_line(e)) == Ok::<Option<EventV>, ParseErrorV>(Some(e))
        }),
{
    let e = EventV::RecorderVoiceTrigger { session_id, resource_id };
    let name = "ERecorderVoiceTrigger"@;
    let toks = seq![name, dec_of(session_id as nat), dec_of(resource_id as nat)];
    assert(event_tokens(e) == toks);
    name_safe_recorder_voice_trigger();
    lemma_dec_token_safe(session_id as nat);
    lemma_dec_token_safe(resource_id as nat);
    assert forall|k: int| 0 <= k < toks.len() implies token_safe(#[trigger] toks[k]) by {
        if k == 0 {
            assert(toks[0] == name);
        } else if k == 1 {
            assert(toks[1] == dec_of(session_id as nat));
        } else if k == 2 {
            assert(toks[2] == dec_of(resource_id as nat));
        } else {
            assert(false);
        }
    }
    crate::wire::lemma_line_tokens_join(toks);
    reveal_strlit("ERecorderVoiceTrigger");
    assert(toks[1] == dec_of(session_id as nat));
    crate::wire::lemma_dec_of_val(session_id as nat);
    assert(crate::parser::pos_u32(toks, 1, name) == Ok::<u32, ParseErrorV>(session_id));
    assert(toks[2] == dec_of(resource_id as nat));
    crate::wire::lemma_dec_of_val(resource_id as nat);
    assert(crate::parser::pos_u32(toks, 2, name) == Ok::<u32, ParseErrorV>(resource_id));
    assert(crate::parser::ev_recorder_voice_trigger(toks, name) == Ok::<EventV, ParseErrorV>(e));
    assert(crate::parser::parse_tokens_spec(toks) == Ok::<EventV, ParseErrorV>(e));
}

/// A rendered `ERtpChannelStartedReceiving` line parses back to the event it renders.
proof fn rt_rtp_channel_started_receiving(
    session_id: u32,
    resource_id: u32,
    receiver_data_address: Seq<char>,
    receiver_control_address: Option<Seq<char>>,
    rtp_payload_type: Option<PayloadType>,
)
    requires
        token_safe(receiver_data_address),
        receiver_control_address matches Some(v) ==> value_wf(v),
    ensures
        ({
            let e = EventV::RtpChannelStartedReceiving { session_id, resource_id, receiver_data_address, receiver_control_address, rtp_payload_type };
            parse_line_spec(event_line(e)) == Ok::<Option<EventV>, ParseErrorV>(Some(e))
        }),
{
    let e = EventV::RtpChannelStartedReceiving { session_id, resource_id, receiver_data_address, receiver_control_address, rtp_payload_type };
    let name = "ERtpChannelStartedReceiving"@;
    let fields = seq![("ReceiverControlAddress"@, receiver_control_address), ("RtpPayloadType"@, (match rtp_payload_type { Some(p) => Some(dec_of(p.spec_code() as nat)), None => None::<Seq<char>> }))];
    let pos = seq![name, dec_of(session_id as nat), dec_of(resource_id as nat), receiver_data_address];
    let toks = pos + opt_tokens(fields);
    assert(event_tokens(e) == toks);
    name_safe_rtp_channel_started_receiving();
    lemma_dec_token_safe(session_id as nat);
    lemma_dec_token_safe(resource_id as nat);
    key_facts_receivercontroladdress();
    key_facts_rtppayloadtype();
    match rtp_payload_type {
        Some(p) => {
            lemma_dec_token_safe(p.spec_code() as nat);
            crate::wire::lemma_dec_of_val(p.spec_code() as nat);
            match p { PayloadType::Pcmu => {}, PayloadType::Gsm => {}, PayloadType::G723 => {}, PayloadType::Pcma => {}, PayloadType::G722 => {}, PayloadType::G729 => {}, }
        },
        None => {},
    }
    assert(crate::wire::fields_wf(fields)) by {
        assert forall|k: int|
            0 <= k < fields.len() implies key_wf(#[trigger] fields[k].0) && (
        fields[k].1 matches Some(v) ==> value_wf(v)) by {
            if k == 0 {
                assert(fields[0].0 == "ReceiverControlAddress"@);
            } else if k == 1 {
                assert(fields[1].0 == "RtpPayloadType"@);
            } else {
                assert(false);
            }
        }
    }
    assert(crate::wire::keys_distinct(fields)) by {
        reveal_strlit("receivercontroladdress");
        reveal_strlit("rtppayloadtype");
        assert("receivercontroladdress"@.len() != "rtppayloadtype"@.len());
        assert("receivercontroladdress"@ != "rtppayloadtype"@);
        assert forall|k1: int, k2: int|
            0 <= k1 < k2 < fields.len() implies lower(#[trigger] fields[k1].0) != lower(
            #[trigger] fields[k2].0,
        ) by {
            assert(fields[0].0 == "ReceiverControlAddress"@);
            assert(fields[1].0 == "RtpPayloadType"@);
            assert(k1 == 0 || k1 == 1);
            assert(k2 == 0 || k2 == 1);
        }
    }
    crate::wire::lemma_opt_tokens_safe(fields);
    assert forall|k: int| 0 <= k < toks.len() implies token_safe(#[trigger] toks[k]) by {
        if k < 4 {
            assert(toks[k] == pos[k]);
        } else {
            assert(toks[k] == opt_tokens(fields)[k - 4]);
        }
    }
    crate::wire::lemma_line_tokens_join(toks);
    reveal_strlit("ERtpChannelStartedReceiving");
    assert(toks[1] == dec_of(session_id as nat));
    crate::wire::lemma_dec_of_val(session_id as nat);
    assert(crate::parser::pos_u32(toks, 1, name) == Ok::<u32, ParseErrorV>(session_id));
    assert(toks[2] == dec_of(resource_id as nat));
    crate::wire::lemma_dec_of_val(resource_id as nat);
    assert(crate::parser::pos_u32(toks, 2, name) == Ok::<u32, ParseErrorV>(resource_id));
    assert(toks[3] == receiver_data_address);
    assert(crate::parser::pos_str(toks, 3, name) == Ok::<Seq<char>, ParseErrorV>(receiver_data_address));
    crate::wire::lemma_opts_from_shift(pos, opt_tokens(fields), 0);
    assert(crate::wire::opts_from(toks, 4) == crate::wire::opts_from(opt_tokens(fields), 0));
    crate::wire::lemma_opt_tokens_lookup(fields, 0);
    assert(crate::wire::opt_get(toks, 4, "receivercontroladdress"@) == fields[0].1);
    crate::wire::lemma_opt_tokens_lookup(fields, 1);
    assert(crate::wire::opt_get(toks, 4, "rtppayloadtype"@) == fields[1].1);
    assert(crate::parser::ev_rtp_channel_started_receiving(toks, name) == Ok::<EventV, ParseErrorV>(e));
    assert(crate::parser::parse_tokens_spec(toks) == Ok::<EventV, ParseErrorV>(e));
}

/// A rendered `ERtpChannelStartedSending` line parses back to the event it renders.
proof fn rt_rtp_channel_started_sending(
    session_id: u32,
    resource_id: u32,
    sender_control_address: Option<Seq<char>>,
    rtp_payload_type: Option<PayloadType>,
)
    requires
        sender_control_address matches Some(v) ==> value_wf(v),
    ensures
        ({
            let e = EventV::RtpChannelStartedSending { session_id, resource_id, sender_control_address, rtp_payload_type };
            parse_line_spec(event_line(e)) == Ok::<Option<EventV>, ParseErrorV>(Some(e))
        }),
{
    let e = EventV::RtpChannelStartedSending { session_id, resource_id, sender_control_address, rtp_payload_type };
    let name = "ERtpChannelStartedSending"@;
    let fields = seq![("SenderControlAddress"@, sender_control_address), ("RtpPayloadType"@, (match rtp_payload_type { Some(p) => Some(dec_of(p.spec_code() as nat)), None => None::<Seq<char>> }))];
    let pos = seq![name, dec_of(session_id as nat), dec_of(resource_id as nat)];
    let toks = pos + opt_tokens(fields);
    assert(event_tokens(e) == toks);
    name_safe_rtp_channel_started_sending();
    lemma_dec_token_safe(session_id as nat);
    lemma_dec_token_safe(resource_id as nat);
    key_facts_sendercontroladdress();
    key_facts_rtppayloadtype();
    match rtp_payload_type {
        Some(p) => {
            lemma_dec_token_safe(p.spec_code() as nat);
            crate::wire::lemma_dec_of_val(p.spec_code() as nat);
            match p { PayloadType::Pcmu => {}, PayloadType::Gsm => {}, PayloadType::G723 => {}, PayloadType::Pcma => {}, PayloadType::G722 => {}, PayloadType::G729 => {}, }
        },
        None => {},
    }
    assert(crate::wire::fields_wf(fields)) by {
        assert forall|k: int|
            0 <= k < fields.len() implies key_wf(#[trigger] fields[k].0) && (
        fields[k].1 matches Some(v) ==> value_wf(v)) by {
            if k == 0 {
                assert(fields[0].0 == "SenderControlAddress"@);
            } else if k == 1 {
                assert(fields[1].0 == "RtpPayloadType"@);
            } else {
                assert(false);
            }
        }
    }
    assert(crate::wire::keys_distinct(fields)) by {
        reveal_strlit("sendercontroladdress");
        reveal_strlit("rtppayloadtype");
        assert("sendercontroladdress"@.len() != "rtppayloadtype"@.len());
        assert("sendercontroladdress"@ != "rtppayloadtype"@);
        assert forall|k1: int, k2: int|
            0 <= k1 < k2 < fields.len() implies lower(#[trigger] fields[k1].0) != lower(
            #[trigger] fields[k2].0,
        ) by {
            assert(fields[0].0 == "SenderControlAddress"@);
            assert(fields[1].0 == "RtpPayloadType"@);
            assert(k1 == 0 || k1 == 1);
            assert(k2 == 0 || k2 == 1);
        }
    }
    crate::wire::lemma_opt_tokens_safe(fields);
    assert forall|k: int| 0 <= k < toks.len() implies token_safe(#[trigger] toks[k]) by {
        if k < 3 {
            assert(toks[k] == pos[k]);
        } else {
            assert(toks[k] == opt_tokens(fields)[k - 3]);
        }
    }
    crate::wire::lemma_line_tokens_join(toks);
    reveal_strlit("ERtpChannelStartedSending");
    assert(toks[1] == dec_of(session_id as nat));
    crate::wire::lemma_dec_of_val(session_id as nat);
    assert(crate::parser::pos_u32(toks, 1, name) == Ok::<u32, ParseErrorV>(session_id));
    assert(toks[2] == dec_of(resource_id as nat));
    crate::wire::lemma_dec_of_val(resource_id as nat);
    assert(crate::parser::pos_u32(toks, 2, name) == Ok::<u32, ParseErrorV>(resource_id));
    crate::wire::lemma_opts_from_shift(pos, opt_tokens(fields), 0);
    assert(crate::wire::opts_from(toks, 3) == crate::wire::opts_from(opt_tokens(fields), 0));
    crate::wire::lemma_opt_tokens_lookup(fields, 0);
    assert(crate::wire::opt_get(toks, 3, "sendercontroladdress"@) == fields[0].1);
    crate::wire::lemma_opt_tokens_lookup(fields, 1);
    assert(crate::wire::opt_get(toks, 3, "rtppayloadtype"@) == fields[1].1);
    assert(crate::parser::ev_rtp_channel_started_sending(toks, name) == Ok::<EventV, ParseErrorV>(e));
    assert(crate::parser::parse_tokens_spec(toks) == Ok::<EventV, ParseErrorV>(e));
}

/// A rendered `ERtpChannelSendDTMFFinished` line parses back to the event it renders.
proof fn rt_rtp_channel_send_dtmf_finished(
    session_id: u32,
    resource_id: u32,
)
    ensures
        ({
            let e = EventV::RtpChannelSendDTMFFinished { session_id, resource_id };
            parse_line_spec(event_line(e)) == Ok::<Option<EventV>, ParseErrorV>(Some(e))
        }),
{
    let e = EventV::RtpChannelSendDTMFFinished { session_id, resource_id };
    let name = "ERtpChannelSendDTMFFinished"@;
    let toks = seq![name, dec_of(session_id as nat), dec_of(resource_id as nat)];
    assert(event_tokens(e) == toks);
    name_safe_rtp_channel_send_dtmf_finished();
    lemma_dec_token_safe(session_id as nat);
    lemma_dec_token_safe(resource_id as nat);
    assert forall|k: int| 0 <= k < toks.len() implies token_safe(#[trigger] toks[k]) by {
        if k == 0 {
            assert(toks[0] == name);
        } else if k == 1 {
            assert(toks[1] == dec_of(session_id as nat));
        } else if k == 2 {
            assert(toks[2] == dec_of(resource_id as nat));
        } else {
            assert(false);
        }
    }
    crate::wire::lemma_line_tokens_join(toks);
    reveal_strlit("ERtpChannelSendDTMFFinished");
    assert(toks[1] == dec_of(session_id as nat));
    crate::wire::lemma_dec_of_val(session_id as nat);
    assert(crate::parser::pos_u32(toks, 1, name) == Ok::<u32, ParseErrorV>(session_id));
    assert(toks[2] == dec_of(resource_id as nat));
    crate::wire::lemma_dec_of_val(resource_id as nat);
    assert(crate::parser::pos_u32(toks, 2, name) == Ok::<u32, ParseErrorV>(resource_id));
    assert(crate::parser::ev_rtp_channel_send_dtmf_finished(toks, name) == Ok::<EventV, ParseErrorV>(e));
    assert(crate::parser::parse_tokens_spec(toks) == Ok::<EventV, ParseErrorV>(e));
}

/// A rendered `ERtpChannelReceivedDTMF` line parses back to the event it renders.
proof fn rt_rtp_channel_received_dtmf(
    session_id: u32,
    resource_id: u32,
    key: Seq<char>,
    duration: Option<u16>,
)
    requires
        token_safe(key),
    ensures
        ({
            let e = EventV::RtpChannelReceivedDTMF { session_id, resource_id, key, duration };
            parse_line_spec(event_line(e)) == Ok::<Option<EventV>, ParseErrorV>(Some(e))
        }),
{
    let e = EventV::RtpChannelReceivedDTMF { session_id, resource_id, key, duration };
    let name = "ERtpChannelReceivedDTMF"@;
    let fields = seq![("Duration"@, (match duration { Some(n) => Some(dec_of(n as nat)), None => None::<Seq<char>> }))];
    let pos = seq![name, dec_of(session_id as nat), dec_of(resource_id as nat), key];
    let toks = pos + opt_tokens(fields);
    assert(event_tokens(e) == toks);
    name_safe_rtp_channel_received_dtmf();
    lemma_dec_token_safe(session_id as nat);
    lemma_dec_token_safe(resource_id as nat);
    key_facts_duration();
    match duration {
        Some(n) => {
            lemma_dec_token_safe(n as nat);
            crate::wire::lemma_dec_of_val(n as nat);
        },
        None => {},
    }
    assert(crate::wire::fields_wf(fields)) by {
        assert forall|k: int|
            0 <= k < fields.len() implies key_wf(#[trigger] fields[k].0) && (
        fields[k].1 matches Some(v) ==> value_wf(v)) by {
            if k == 0 {
                assert(fields[0].0 == "Duration"@);
            } else {
                assert(false);
            }
        }
    }
    assert(crate::wire::keys_distinct(fields));
    crate::wire::lemma_opt_tokens_safe(fields);
    assert forall|k: int| 0 <= k < toks.len() implies token_safe(#[trigger] toks[k]) by {
        if k < 4 {
            assert(toks[k] == pos[k]);
        } else {
            assert(toks[k] == opt_tokens(fields)[k - 4]);
        }
    }
    crate::wire::lemma_line_tokens_join(toks);
    reveal_strlit("ERtpChannelReceivedDTMF");
    assert(toks[1] == dec_of(session_id as nat));
    crate::wire::lemma_dec_of_val(session_id as nat);
    assert(crate::parser::pos_u32(toks, 1, name) == Ok::<u32, ParseErrorV>(session_id));
    assert(toks[2] == dec_of(resource_id as nat));
    crate::wire::lemma_dec_of_val(resource_id as nat);
    assert(crate::parser::pos_u32(toks, 2, name) == Ok::<u32, ParseErrorV>(resource_id));
    assert(toks[3] == key);
    assert(crate::parser::pos_str(toks, 3, name) == Ok::<Seq<char>, ParseErrorV>(key));
    crate::wire::lemma_opts_from_shift(pos, opt_tokens(fields), 0);
    assert(crate::wire::opts_from(toks, 4) == crate::wire::opts_from(opt_tokens(fields), 0));
    crate::wire::lemma_opt_tokens_lookup(fields, 0);
    assert(crate::wire::opt_get(toks, 4, "duration"@) == fields[0].1);
    assert(crate::parser::ev_rtp_channel_received_dtmf(toks, name) == Ok::<EventV, ParseErrorV>(e));
    assert(crate::parser::parse_tokens_spec(toks) == Ok::<EventV, ParseErrorV>(e));
}

/// A rendered `ERtpChannelStopped` line parses back to the event it renders.
proof fn rt_rtp_channel_stopped(
    session_id: u32,
    resource_id: u32,
)
    ensures
        ({
            let e = EventV::RtpChannelStopped { session_id, resource_id };
            parse_line_spec(event_line(e)) == Ok::<Option<EventV>, ParseErrorV>(Some(e))
        }),
{
    let e = EventV::RtpChannelStopped { session_id, resource_id };
    let name = "ERtpChannelStopped"@;
    let toks = seq![name, dec_of(session_id as nat), dec_of(resource_id as nat)];
    assert(event_tokens(e) == toks);
    name_safe_rtp_channel_stopped();
    lemma_dec_token_safe(session_id as nat);
    lemma_dec_token_safe(resource_id as nat);
    assert forall|k: int| 0 <= k < toks.len() implies token_safe(#[trigger] toks[k]) by {
        if k == 0 {
            assert(toks[0] == name);
        } else if k == 1 {
            assert(toks[1] == dec_of(session_id as nat));
        } else if k == 2 {
            assert(toks[2] == dec_of(resource_id as nat));
        } else {
            assert(false);
        }
    }
    crate::wire::lemma_line_tokens_join(toks);
    reveal_strlit("ERtpChannelStopped");
    assert(toks[1] == dec_of(session_id as nat));
    crate::wire::lemma_dec_of_val(session_id as nat);
    assert(crate::parser::pos_u32(toks, 1, name) == Ok::<u32, ParseErrorV>(session_id));
    assert(toks[2] == dec_of(resource_id as nat));
    crate::wire::lemma_dec_of_val(resource_id as nat);
    assert(crate::parser::pos_u32(toks, 2, name) == Ok::<u32, ParseErrorV>(resource_id));
    assert(crate::parser::ev_rtp_channel_stopped(toks, name) == Ok::<EventV, ParseErrorV>(e));
    assert(crate::parser::parse_tokens_spec(toks) == Ok::<EventV, ParseErrorV>(e));
}

/// A rendered `ESoundDeviceStarted` line parses back to the event it renders.
proof fn rt_sound_device_started(
    session_id: u32,
    resource_id: u32,
)
    ensures
        ({
            let e = EventV::SoundDeviceStarted { session_id, resource_id };
            parse_line_spec(event_line(e)) == Ok::<Option<EventV>, ParseErrorV>(Some(e))
        }),
{
    let e = EventV::SoundDeviceStarted { session_id, resource_id };
    let name = "ESoundDeviceStarted"@;
    let toks = seq![name, dec_of(session_id as nat), dec_of(resource_id as nat)];
    assert(event_tokens(e) == toks);
    name_safe_sound_device_started();
    lemma_dec_token_safe(session_id as nat);
    lemma_dec_token_safe(resource_id as nat);
    assert forall|k: int| 0 <= k < toks.len() implies token_safe(#[trigger] toks[k]) by {
        if k == 0 {
            assert(toks[0] == name);
        } else if k == 1 {
            assert(toks[1] == dec_of(session_id as nat));
        } else if k == 2 {
            assert(toks[2] == dec_of(resource_id as nat));
        } else {
            assert(false);
        }
    }
    crate::wire::lemma_line_tokens_join(toks);
    reveal_strlit("ESoundDeviceStarted");
    assert(toks[1] == dec_of(session_id as nat));
    crate::wire::lemma_dec_of_val(session_id as nat);
    assert(crate::parser::pos_u32(toks, 1, name) == Ok::<u32, ParseErrorV>(session_id));
    assert(toks[2] == dec_of(resource_id as nat));
    crate::wire::lemma_dec_of_val(resource_id as nat);
    assert(crate::parser::pos_u32(toks, 2, name) == Ok::<u32, ParseErrorV>(resource_id));
    assert(crate::parser::ev_sound_device_started(toks, name) == Ok::<EventV, ParseErrorV>(e));
    assert(crate::parser::parse_tokens_spec(toks) == Ok::<EventV, ParseErrorV>(e));
}

/// A rendered `ESoundDeviceStopped` line parses back to the event it renders.
proof fn rt_sound_device_stopped(
    session_id: u32,
    resource_id: u32,
)
    ensures
        ({
            let e = EventV::SoundDeviceStopped { session_id, resource_id };
            parse_line_spec(event_line(e)) == Ok::<Option<EventV>, ParseErrorV>(Some(e))
        }),
{
    let e = EventV::SoundDeviceStopped { session_id, resource_id };
    let name = "ESoundDeviceStopped"@;
    let toks = seq![name, dec_of(session_id as nat), dec_of(resource_id as nat)];
    assert(event_tokens(e) == toks);
    name_safe_sound_device_stopped();
    lemma_dec_token_safe(session_id as nat);
    lemma_dec_token_safe(resource_id as nat);
    assert forall|k: int| 0 <= k < toks.len() implies token_safe(#[trigger] toks[k]) by {
        if k == 0 {
            assert(toks[0] == name);
        } else if k == 1 {
            assert(toks[1] == dec_of(session_id as nat));
        } else if k == 2 {
            assert(toks[2] == dec_of(resource_id as nat));
        } else {
            assert(false);
        }
    }
    crate::wire::lemma_line_tokens_join(toks);
    reveal_strlit("ESoundDeviceStopped");
    assert(toks[1] == dec_of(session_id as nat));
    crate::wire::lemma_dec_of_val(session_id as nat);
    assert(crate::parser::pos_u32(toks, 1, name) == Ok::<u32, ParseErrorV>(session_id));
    assert(toks[2] == dec_of(resource_id as nat));
    crate::wire::lemma_dec_of_val(resource_id as nat);
    assert(crate::parser::pos_u32(toks, 2, name) == Ok::<u32, ParseErrorV>(resource_id));
    assert(crate::parser::ev_sound_device_stopped(toks, name) == Ok::<EventV, ParseErrorV>(e));
    assert(crate::parser::parse_tokens_spec(toks) == Ok::<EventV, ParseErrorV>(e));
}

/// A rendered `ESoundDeviceError` line parses back to the event it renders.
proof fn rt_sound_device_error(
    session_id: u32,
    resource_id: u32,
)
    ensures
        ({
            let e = EventV::SoundDeviceError { session_id, resource_id };
            parse_line_spec(event_line(e)) == Ok::<Option<EventV>, ParseErrorV>(Some(e))
        }),
{
    let e = EventV::SoundDeviceError { session_id, resource_id };
    let name = "ESoundDeviceError"@;
    let toks = seq![name, dec_of(session_id as nat), dec_of(resource_id as nat)];
    assert(event_tokens(e) == toks);
    name_safe_sound_device_error();
    lemma_dec_token_safe(session_id as nat);
    lemma_dec_token_safe(resource_id as nat);
    assert forall|k: int| 0 <= k < toks.len() implies token_safe(#[trigger] toks[k]) by {
        if k == 0 {
            assert(toks[0] == name);
        } else if k == 1 {
            assert(toks[1] == dec_of(session_id as nat));
        } else if k == 2 {
            assert(toks[2] == dec_of(resource_id as nat));
        } else {
            assert(false);
        }
    }
    crate::wire::lemma_line_tokens_join(toks);
    reveal_strlit("ESoundDeviceError");
    assert(toks[1] == dec_of(session_id as nat));
    crate::wire::lemma_dec_of_val(session_id as nat);
    assert(crate::parser::pos_u32(toks, 1, name) == Ok::<u32, ParseErrorV>(session_id));
    assert(toks[2] == dec_of(resource_id as nat));
    crate::wire::lemma_dec_of_val(resource_id as nat);
    assert(crate::parser::pos_u32(toks, 2, name) == Ok::<u32, ParseErrorV>(resource_id));
    assert(crate::parser::ev_sound_device_error(toks, name) == Ok::<EventV, ParseErrorV>(e));
    assert(crate::parser::parse_tokens_spec(toks) == Ok::<EventV, ParseErrorV>(e));
}

/// A rendered `EModeChangeT38` line parses back to the event it renders.
proof fn rt_mode_change_t38(
    session_id: u32,
    resource_id: u32,
)
    ensures
        ({
            let e = EventV::ModeChangeT38 { session_id, resource_id };
            parse_line_spec(event_line(e)) == Ok::<Option<EventV>, ParseErrorV>(Some(e))
        }),
{
    let e = EventV::ModeChangeT38 { session_id, resource_id };
    let name = "EModeChangeT38"@;
    let toks = seq![name, dec_of(session_id as nat), dec_of(resource_id as nat)];
    assert(event_tokens(e) == toks);
    name_safe_mode_change_t38();
    lemma_dec_token_safe(session_id as nat);
    lemma_dec_token_safe(resource_id as nat);
    assert forall|k: int| 0 <= k < toks.len() implies token_safe(#[trigger] toks[k]) by {
        if k == 0 {
            assert(toks[0] == name);
        } else if k == 1 {
            assert(toks[1] == dec_of(session_id as nat));
        } else if k == 2 {
            assert(toks[2] == dec_of(resource_id as nat));
        } else {
            assert(false);
        }
    }
    crate::wire::lemma_line_tokens_join(toks);
    reveal_strlit("EModeChangeT38");
    assert(toks[1] == dec_of(session_id as nat));
    crate::wire::lemma_dec_of_val(session_id as nat);
    assert(crate::parser::pos_u32(toks, 1, name) == Ok::<u32, ParseErrorV>(session_id));
    assert(toks[2] == dec_of(resource_id as nat));
    crate::wire::lemma_dec_of_val(resource_id as nat);
    assert(crate::parser::pos_u32(toks, 2, name) == Ok::<u32, ParseErrorV>(resource_id));
    assert(crate::parser::ev_mode_change_t38(toks, name) == Ok::<EventV, ParseErrorV>(e));
    assert(crate::parser::parse_tokens_spec(toks) == Ok::<EventV, ParseErrorV>(e));
}

/// A rendered `EModeChangeT38Refused` line parses back to the event it renders.
proof fn rt_mode_change_t38_refused(
    session_id: u32,
    resource_id: u32,
)
    ensures
        ({
            let e = EventV::ModeChangeT38Refused { session_id, resource_id };
            parse_line_spec(event_line(e)) == Ok::<Option<EventV>, ParseErrorV>(Some(e))
        }),
{
    let e = EventV::ModeChangeT38Refused { session_id, resource_id };
    let name = "EModeChangeT38Refused"@;
    let toks = seq![name, dec_of(session_id as nat), dec_of(resource_id as nat)];
    assert(event_tokens(e) == toks);
    name_safe_mode_change_t38_refused();
    lemma_dec_token_safe(session_id as nat);
    lemma_dec_token_safe(resource_id as nat);
    assert forall|k: int| 0 <= k < toks.len() implies token_safe(#[trigger] toks[k]) by {
        if k == 0 {
            assert(toks[0] == name);
        } else if k == 1 {
            assert(toks[1] == dec_of(session_id as nat));
        } else if k == 2 {
            assert(toks[2] == dec_of(resource_id as nat));
        } else {
            assert(false);
        }
    }
    crate::wire::lemma_line_tokens_join(toks);
    reveal_strlit("EModeChangeT38Refused");
    assert(toks[1] == dec_of(session_id as nat));
    crate::wire::lemma_dec_of_val(session_id as nat);
    assert(crate::parser::pos_u32(toks, 1, name) == Ok::<u32, ParseErrorV>(session_id));
    assert(toks[2] == dec_of(resource_id as nat));
    crate::wire::lemma_dec_of_val(resource_id as nat);
    assert(crate::parser::pos_u32(toks, 2, name) == Ok::<u32, ParseErrorV>(resource_id));
    assert(crate::parser::ev_mode_change_t38_refused(toks, name) == Ok::<EventV, ParseErrorV>(e));
    assert(crate::parser::parse_tokens_spec(toks) == Ok::<EventV, ParseErrorV>(e));
}

/// A rendered `EFaxIncoming` line parses back to the event it renders.
proof fn rt_fax_incoming(
    session_id: u32,
    resource_id: u32,
)
    ensures
        ({
            let e = EventV::FaxIncoming { session_id, resource_id };
            parse_line_spec(event_line(e)) == Ok::<Option<EventV>, ParseErrorV>(Some(e))
        }),
{
    let e = EventV::FaxIncoming { session_id, resource_id };
    let name = "EFaxIncoming"@;
    let toks = seq![name, dec_of(session_id as nat), dec_of(resource_id as nat)];
    assert(event_tokens(e) == toks);
    name_safe_fax_incoming();
    lemma_dec_token_safe(session_id as nat);
    lemma_dec_token_safe(resource_id as nat);
    assert forall|k: int| 0 <= k < toks.len() implies token_safe(#[trigger] toks[k]) by {
        if k == 0 {
            assert(toks[0] == name);
        } else if k == 1 {
            assert(toks[1] == dec_of(session_id as nat));
        } else if k == 2 {
            assert(toks[2] == dec_of(resource_id as nat));
        } else {
            assert(false);
        }
    }
    crate::wire::lemma_line_tokens_join(toks);
    reveal_strlit("EFaxIncoming");
    assert(toks[1] == dec_of(session_id as nat));
    crate::wire::lemma_dec_of_val(session_id as nat);
    assert(crate::parser::pos_u32(toks, 1, name) == Ok::<u32, ParseErrorV>(session_id));
    assert(toks[2] == dec_of(resource_id as nat));
    crate::wire::lemma_dec_of_val(resource_id as nat);
    assert(crate::parser::pos_u32(toks, 2, name) == Ok::<u32, ParseErrorV>(resource_id));
    assert(crate::parser::ev_fax_incoming(toks, name) == Ok::<EventV, ParseErrorV>(e));
    assert(crate::parser::parse_tokens_spec(toks) == Ok::<EventV, ParseErrorV>(e));
}

/// A rendered `EFacsimilePageStarted` line parses back to the event it renders.
proof fn rt_facsimile_page_started(
    session_id: u32,
    resource_id: u32,
    speed: FaxSendSpeed,
    paper_size: DocumentPreparePaperSize,
    resolution: DocumentPrepareResolution,
    ecm: ECM,
)
    ensures
        ({
            let e = EventV::FacsimilePageStarted { session_id, resource_id, speed, paper_size, resolution, ecm };
            parse_line_spec(event_line(e)) == Ok::<Option<EventV>, ParseErrorV>(Some(e))
        }),
{
    let e = EventV::FacsimilePageStarted { session_id, resource_id, speed, paper_size, resolution, ecm };
    let name = "EFacsimilePageStarted"@;
    let toks = seq![name, dec_of(session_id as nat), dec_of(resource_id as nat), dec_of(speed.spec_code() as nat), dec_of(paper_size.spec_code() as nat), dec_of(resolution.spec_code() as nat), dec_of(ecm.spec_code() as nat)];
    assert(event_tokens(e) == toks);
    name_safe_facsimile_page_started();
    lemma_dec_token_safe(session_id as nat);
    lemma_dec_token_safe(resource_id as nat);
    lemma_dec_token_safe(speed.spec_code() as nat);
    lemma_dec_token_safe(paper_size.spec_code() as nat);
    lemma_dec_token_safe(resolution.spec_code() as nat);
    lemma_dec_token_safe(ecm.spec_code() as nat);
    assert forall|k: int| 0 <= k < toks.len() implies token_safe(#[trigger] toks[k]) by {
        if k == 0 {
            assert(toks[0] == name);
        } else if k == 1 {
            assert(toks[1] == dec_of(session_id as nat));
        } else if k == 2 {
            assert(toks[2] == dec_of(resource_id as nat));
        } else if k == 3 {
            assert(toks[3] == dec_of(speed.spec_code() as nat));
        } else if k == 4 {
            assert(toks[4] == dec_of(paper_size.spec_code() as nat));
        } else if k == 5 {
            assert(toks[5] == dec_of(resolution.spec_code() as nat));
        } else if k == 6 {
            assert(toks[6] == dec_of(ecm.spec_code() as nat));
        } else {
            assert(false);
        }
    }
    crate::wire::lemma_line_tokens_join(toks);
    reveal_strlit("EFacsimilePageStarted");
    assert(toks[1] == dec_of(session_id as nat));
    crate::wire::lemma_dec_of_val(session_id as nat);
    assert(crate::parser::pos_u32(toks, 1, name) == Ok::<u32, ParseErrorV>(session_id));
    assert(toks[2] == dec_of(resource_id as nat));
    crate::wire::lemma_dec_of_val(resource_id as nat);
    assert(crate::parser::pos_u32(toks, 2, name) == Ok::<u32, ParseErrorV>(resource_id));
    assert(toks[3] == dec_of(speed.spec_code() as nat));
    crate::wire::lemma_dec_of_val(speed.spec_code() as nat);
    match speed { FaxSendSpeed::Bps2400 => {}, FaxSendSpeed::Bps4800 => {}, FaxSendSpeed::Bps7200 => {}, FaxSendSpeed::Bps9600 => {}, FaxSendSpeed::Bps12000 => {}, FaxSendSpeed::Bps14400 => {}, }
    assert(crate::parser::pos_u16(toks, 3, name) == Ok::<u16, ParseErrorV>(speed.spec_code()));
    assert(FaxSendSpeed::spec_from(speed.spec_code()) == Some(speed));
    assert(toks[4] == dec_of(paper_size.spec_code() as nat));
    crate::wire::lemma_dec_of_val(paper_size.spec_code() as nat);
    match paper_size { DocumentPreparePaperSize::A4 => {}, DocumentPreparePaperSize::Letter => {}, DocumentPreparePaperSize::Legal => {}, }
    assert(crate::parser::pos_u8(toks, 4, name) == Ok::<u8, ParseErrorV>(paper_size.spec_code()));
    assert(DocumentPreparePaperSize::spec_from(paper_size.spec_code()) == Some(paper_size));
    assert(toks[5] == dec_of(resolution.spec_code() as nat));
    crate::wire::lemma_dec_of_val(resolution.spec_code() as nat);
    match resolution { DocumentPrepareResolution::Standard => {}, DocumentPrepareResolution::Fine => {}, DocumentPrepareResolution::SuperFine => {}, }
    assert(crate::parser::pos_u8(toks, 5, name) == Ok::<u8, ParseErrorV>(resolution.spec_code()));
    assert(DocumentPrepareResolution::spec_from(resolution.spec_code()) == Some(resolution));
    assert(toks[6] == dec_of(ecm.spec_code() as nat));
    crate::wire::lemma_dec_of_val(ecm.spec_code() as nat);
    match ecm { ECM::Off => {}, ECM::Ecm64 => {}, ECM::Ecm128 => {}, }
    assert(crate::parser::pos_u8(toks, 6, name) == Ok::<u8, ParseErrorV>(ecm.spec_code()));
    assert(ECM::spec_from(ecm.spec_code()) == Some(ecm));
    assert(crate::parser::ev_facsimile_page_started(toks, name) == Ok::<EventV, ParseErrorV>(e));
    assert(crate::parser::parse_tokens_spec(toks) == Ok::<EventV, ParseErrorV>(e));
}

/// A rendered `EFacsimilePageReceived` line parses back to the event it renders.
proof fn rt_facsimile_page_received(
    session_id: u32,
    resource_id: u32,
)
    ensures
        ({
            let e = EventV::FacsimilePageReceived { session_id, resource_id };
            parse_line_spec(event_line(e)) == Ok::<Option<EventV>, ParseErrorV>(Some(e))
        }),
{
    let e = EventV::FacsimilePageReceived { session_id, resource_id };
    let name = "EFacsimilePageReceived"@;
    let toks = seq![name, dec_of(session_id as nat), dec_of(resource_id as nat)];
    assert(event_tokens(e) == toks);
    name_safe_facsimile_page_received();
    lemma_dec_token_safe(session_id as nat);
    lemma_dec_token_safe(resource_id as nat);
    assert forall|k: int| 0 <= k < toks.len() implies token_safe(#[trigger] toks[k]) by {
        if k == 0 {
            assert(toks[0] == name);
        } else if k == 1 {
            assert(toks[1] == dec_of(session_id as nat));
        } else if k == 2 {
            assert(toks[2] == dec_of(resource_id as nat));
        } else {
            assert(false);
        }
    }
    crate::wire::lemma_line_tokens_join(toks);
    reveal_strlit("EFacsimilePageReceived");
    assert(toks[1] == dec_of(session_id as nat));
    crate::wire::lemma_dec_of_val(session_id as nat);
    assert(crate::parser::pos_u32(toks, 1, name) == Ok::<u32, ParseErrorV>(session_id));
    assert(toks[2] == dec_of(resource_id as nat));
    crate::wire::lemma_dec_of_val(resource_id as nat);
    assert(crate::parser::pos_u32(toks, 2, name) == Ok::<u32, ParseErrorV>(resource_id));
    assert(crate::parser::ev_facsimile_page_received(toks, name) == Ok::<EventV, ParseErrorV>(e));
    assert(crate::parser::parse_tokens_spec(toks) == Ok::<EventV, ParseErrorV>(e));
}

/// A rendered `EFacsimilePageSent` line parses back to the event it renders.
proof fn rt_facsimile_page_sent(
    session_id: u32,
    resource_id: u32,
)
    ensures
        ({
            let e = EventV::FacsimilePageSent { session_id, resource_id };
            parse_line_spec(event_line(e)) == Ok::<Option<EventV>, ParseErrorV>(Some(e))
        }),
{
    let e = EventV::FacsimilePageSent { session_id, resource_id };
    let name = "EFacsimilePageSent"@;
    let toks = seq![name, dec_of(session_id as nat), dec_of(resource_id as nat)];
    assert(event_tokens(e) == toks);
    name_safe_facsimile_page_sent();
    lemma_dec_token_safe(session_id as nat);
    lemma_dec_token_safe(resource_id as nat);
    assert forall|k: int| 0 <= k < toks.len() implies token_safe(#[trigger] toks[k]) by {
        if k == 0 {
            assert(toks[0] == name);
        } else if k == 1 {
            assert(toks[1] == dec_of(session_id as nat));
        } else if k == 2 {
            assert(toks[2] == dec_of(resource_id as nat));
        } else {
            assert(false);
        }
    }
    crate::wire::lemma_line_tokens_join(toks);
    reveal_strlit("EFacsimilePageSent");
    assert(toks[1] == dec_of(session_id as nat));
    crate::wire::lemma_dec_of_val(session_id as nat);
    assert(crate::parser::pos_u32(toks, 1, name) == Ok::<u32, ParseErrorV>(session_id));
    assert(toks[2] == dec_of(resource_id as nat));
    crate::wire::lemma_dec_of_val(resource_id as nat);
    assert(crate::parser::pos_u32(toks, 2, name) == Ok::<u32, ParseErrorV>(resource_id));
    assert(crate::parser::ev_facsimile_page_sent(toks, name) == Ok::<EventV, ParseErrorV>(e));
    assert(crate::parser::parse_tokens_spec(toks) == Ok::<EventV, ParseErrorV>(e));
}

/// A rendered `EFaxOperationsStarted` line parses back to the event it renders.
proof fn rt_fax_operations_started(
    session_id: u32,
    resource_id: u32,
)
    ensures
        ({
            let e = EventV::FaxOperationsStarted { session_id, resource_id };
            parse_line_spec(event_line(e)) == Ok::<Option<EventV>, ParseErrorV>(Some(e))
        }),
{
    let e = EventV::FaxOperationsStarted { session_id, resource_id };
    let name = "EFaxOperationsStarted"@;
    let toks = seq![name, dec_of(session_id as nat), dec_of(resource_id as nat)];
    assert(event_tokens(e) == toks);
    name_safe_fax_operations_started();
    lemma_dec_token_safe(session_id as nat);
    lemma_dec_token_safe(resource_id as nat);
    assert forall|k: int| 0 <= k < toks.len() implies token_safe(#[trigger] toks[k]) by {
        if k == 0 {
            assert(toks[0] == name);
        } else if k == 1 {
            assert(toks[1] == dec_of(session_id as nat));
        } else if k == 2 {
            assert(toks[2] == dec_of(resource_id as nat));
        } else {
            assert(false);
        }
    }
    crate::wire::lemma_line_tokens_join(toks);
    reveal_strlit("EFaxOperationsStarted");
    assert(toks[1] == dec_of(session_id as nat));
    crate::wire::lemma_dec_of_val(session_id as nat);
    assert(crate::parser::pos_u32(toks, 1, name) == Ok::<u32, ParseErrorV>(session_id));
    assert(toks[2] == dec_of(resource_id as nat));
    crate::wire::lemma_dec_of_val(resource_id as nat);
    assert(crate::parser::pos_u32(toks, 2, name) == Ok::<u32, ParseErrorV>(resource_id));
    assert(crate::parser::ev_fax_operations_started(toks, name) == Ok::<EventV, ParseErrorV>(e));
    assert(crate::parser::parse_tokens_spec(toks) == Ok::<EventV, ParseErrorV>(e));
}

/// A rendered `EFaxOperationFailed` line parses back to the event it renders.
proof fn rt_fax_operation_failed(
    session_id: u32,
    resource_id: u32,
)
    ensures
        ({
            let e = EventV::FaxOperationFailed { session_id, resource_id };
            parse_line_spec(event_line(e)) == Ok::<Option<EventV>, ParseErrorV>(Some(e))
        }),
{
    let e = EventV::FaxOperationFailed { session_id, resource_id };
    let name = "EFaxOperationFailed"@;
    let toks = seq![name, dec_of(session_id as nat), dec_of(resource_id as nat)];
    assert(event_tokens(e) == toks);
    name_safe_fax_operation_failed();
    lemma_dec_token_safe(session_id as nat);
    lemma_dec_token_safe(resource_id as nat);
    assert forall|k: int| 0 <= k < toks.len() implies token_safe(#[trigger] toks[k]) by {
        if k == 0 {
            assert(toks[0] == name);
        } else if k == 1 {
            assert(toks[1] == dec_of(session_id as nat));
        } else if k == 2 {
            assert(toks[2] == dec_of(resource_id as nat));
        } else {
            assert(false);
        }
    }
    crate::wire::lemma_line_tokens_join(toks);
    reveal_strlit("EFaxOperationFailed");
    assert(toks[1] == dec_of(session_id as nat));
    crate::wire::lemma_dec_of_val(session_id as nat);
    assert(crate::parser::pos_u32(toks, 1, name) == Ok::<u32, ParseErrorV>(session_id));
    assert(toks[2] == dec_of(resource_id as nat));
    crate::wire::lemma_dec_of_val(resource_id as nat);
    assert(crate::parser::pos_u32(toks, 2, name) == Ok::<u32, ParseErrorV>(resource_id));
    assert(crate::parser::ev_fax_operation_failed(toks, name) == Ok::<EventV, ParseErrorV>(e));
    assert(crate::parser::parse_tokens_spec(toks) == Ok::<EventV, ParseErrorV>(e));
}

/// A rendered `EFaxOperationFinished` line parses back to the event it renders.
proof fn rt_fax_operation_finished(
    session_id: u32,
    resource_id: u32,
)
    ensures
        ({
            let e = EventV::FaxOperationFinished { session_id, resource_id };
            parse_line_spec(event_line(e)) == Ok::<Option<EventV>, ParseErrorV>(Some(e))
        }),
{
    let e = EventV::FaxOperationFinished { session_id, resource_id };
    let name = "EFaxOperationFinished"@;
    let toks = seq![name, dec_of(session_id as nat), dec_of(resource_id as nat)];
    assert(event_tokens(e) == toks);
    name_safe_fax_operation_finished();
    lemma_dec_token_safe(session_id as nat);
    lemma_dec_token_safe(resource_id as nat);
    assert forall|k: int| 0 <= k < toks.len() implies token_safe(#[trigger] toks[k]) by {
        if k == 0 {
            assert(toks[0] == name);
        } else if k == 1 {
            assert(toks[1] == dec_of(session_id as nat));
        } else if k == 2 {
            assert(toks[2] == dec_of(resource_id as nat));
        } else {
            assert(false);
        }
    }
    crate::wire::lemma_line_tokens_join(toks);
    reveal_strlit("EFaxOperationFinished");
    assert(toks[1] == dec_of(session_id as nat));
    crate::wire::lemma_dec_of_val(session_id as nat);
    assert(crate::parser::pos_u32(toks, 1, name) == Ok::<u32, ParseErrorV>(session_id));
    assert(toks[2] == dec_of(resource_id as nat));
    crate::wire::lemma_dec_of_val(resource_id as nat);
    assert(crate::parser::pos_u32(toks, 2, name) == Ok::<u32, ParseErrorV>(resource_id));
    assert(crate::parser::ev_fax_operation_finished(toks, name) == Ok::<EventV, ParseErrorV>(e));
    assert(crate::parser::parse_tokens_spec(toks) == Ok::<EventV, ParseErrorV>(e));
}

/// A rendered `EFaxOperationAborted` line parses back to the event it renders.
proof fn rt_fax_operation_aborted(
    session_id: u32,
    resource_id: u32,
)
    ensures
        ({
            let e = EventV::FaxOperationAborted { session_id, resource_id };
            parse_line_spec(event_line(e)) == Ok::<Option<EventV>, ParseErrorV>(Some(e))
        }),
{
    let e = EventV::FaxOperationAborted { session_id, resource_id };
    let name = "EFaxOperationAborted"@;
    let toks = seq![name, dec_of(session_id as nat), dec_of(resource_id as nat)];
    assert(event_tokens(e) == toks);
    name_safe_fax_operation_aborted();
    lemma_dec_token_safe(session_id as nat);
    lemma_dec_token_safe(resource_id as nat);
    assert forall|k: int| 0 <= k < toks.len() implies token_safe(#[trigger] toks[k]) by {
        if k == 0 {
            assert(toks[0] == name);
        } else if k == 1 {
            assert(toks[1] == dec_of(session_id as nat));
        } else if k == 2 {
            assert(toks[2] == dec_of(resource_id as nat));
        } else {
            assert(false);
        }
    }
    crate::wire::lemma_line_tokens_join(toks);
    reveal_strlit("EFaxOperationAborted");
    assert(toks[1] == dec_of(session_id as nat));
    crate::wire::lemma_dec_of_val(session_id as nat);
    assert(crate::parser::pos_u32(toks, 1, name) == Ok::<u32, ParseErrorV>(session_id));
    assert(toks[2] == dec_of(resource_id as nat));
    crate::wire::lemma_dec_of_val(resource_id as nat);
    assert(crate::parser::pos_u32(toks, 2, name) == Ok::<u32, ParseErrorV>(resource_id));
    assert(crate::parser::ev_fax_operation_aborted(toks, name) == Ok::<EventV, ParseErrorV>(e));
    assert(crate::parser::parse_tokens_spec(toks) == Ok::<EventV, ParseErrorV>(e));
}

/// A rendered `EDocumentPrepared` line parses back to the event it renders.
proof fn rt_document_prepared(
    session_id: u32,
    resource_id: u32,
)
    ensures
        ({
            let e = EventV::DocumentPrepared { session_id, resource_id };
            parse_line_spec(event_line(e)) == Ok::<Option<EventV>, ParseErrorV>(Some(e))
        }),
{
    let e = EventV::DocumentPrepared { session_id, resource_id };
    let name = "EDocumentPrepared"@;
    let toks = seq![name, dec_of(session_id as nat), dec_of(resource_id as nat)];
    assert(event_tokens(e) == toks);
    name_safe_document_prepared();
    lemma_dec_token_safe(session_id as nat);
    lemma_dec_token_safe(resource_id as nat);
    assert forall|k: int| 0 <= k < toks.len() implies token_safe(#[trigger] toks[k]) by {
        if k == 0 {
            assert(toks[0] == name);
        } else if k == 1 {
            assert(toks[1] == dec_of(session_id as nat));
        } else if k == 2 {
            assert(toks[2] == dec_of(resource_id as nat));
        } else {
            assert(false);
        }
    }
    crate::wire::lemma_line_tokens_join(toks);
    reveal_strlit("EDocumentPrepared");
    assert(toks[1] == dec_of(session_id as nat));
    crate::wire::lemma_dec_of_val(session_id as nat);
    assert(crate::parser::pos_u32(toks, 1, name) == Ok::<u32, ParseErrorV>(session_id));
    assert(toks[2] == dec_of(resource_id as nat));
    crate::wire::lemma_dec_of_val(resource_id as nat);
    assert(crate::parser::pos_u32(toks, 2, name) == Ok::<u32, ParseErrorV>(resource_id));
    assert(crate::parser::ev_document_prepared(toks, name) == Ok::<EventV, ParseErrorV>(e));
    assert(crate::parser::parse_tokens_spec(toks) == Ok::<EventV, ParseErrorV>(e));
}

/// A rendered `EDocumentNotPrepared` line parses back to the event it renders.
proof fn rt_document_not_prepared(
    session_id: u32,
    resource_id: u32,
    reason: Seq<char>,
)
    requires
        token_safe(reason),
    ensures
        ({
            let e = EventV::DocumentNotPrepared { session_id, resource_id, reason };
            parse_line_spec(event_line(e)) == Ok::<Option<EventV>, ParseErrorV>(Some(e))
        }),
{
    let e = EventV::DocumentNotPrepared { session_id, resource_id, reason };
    let name = "EDocumentNotPrepared"@;
    let toks = seq![name, dec_of(session_id as nat), dec_of(resource_id as nat), reason];
    assert(event_tokens(e) == toks);
    name_safe_document_not_prepared();
    lemma_dec_token_safe(session_id as nat);
    lemma_dec_token_safe(resource_id as nat);
    assert forall|k: int| 0 <= k < toks.len() implies token_safe(#[trigger] toks[k]) by {
        if k == 0 {
            assert(toks[0] == name);
        } else if k == 1 {
            assert(toks[1] == dec_of(session_id as nat));
        } else if k == 2 {
            assert(toks[2] == dec_of(resource_id as nat));
        } else if k == 3 {
            assert(toks[3] == reason);
        } else {
            assert(false);
        }
    }
    crate::wire::lemma_line_tokens_join(toks);
    reveal_strlit("EDocumentNotPrepared");
    assert(toks[1] == dec_of(session_id as nat));
    crate::wire::lemma_dec_of_val(session_id as nat);
    assert(crate::parser::pos_u32(toks, 1, name) == Ok::<u32, ParseErrorV>(session_id));
    assert(toks[2] == dec_of(resource_id as nat));
    crate::wire::lemma_dec_of_val(resource_id as nat);
    assert(crate::parser::pos_u32(toks, 2, name) == Ok::<u32, ParseErrorV>(resource_id));
    assert(toks[3] == reason);
    assert(crate::parser::pos_str(toks, 3, name) == Ok::<Seq<char>, ParseErrorV>(reason));
    assert(crate::parser::ev_document_not_prepared(toks, name) == Ok::<EventV, ParseErrorV>(e));
    assert(crate::parser::parse_tokens_spec(toks) == Ok::<EventV, ParseErrorV>(e));
}

/// A rendered `EDocumentSaved` line parses back to the event it renders.
proof fn rt_document_saved(
    session_id: u32,
    resource_id: u32,
)
    ensures
        ({
            let e = EventV::DocumentSaved { session_id, resource_id };
            parse_line_spec(event_line(e)) == Ok::<Option<EventV>, ParseErrorV>(Some(e))
        }),
{
    let e = EventV::DocumentSaved { session_id, resource_id };
    let name = "EDocumentSaved"@;
    let toks = seq![name, dec_of(session_id as nat), dec_of(resource_id as nat)];
    assert(event_tokens(e) == toks);
    name_safe_document_saved();
    lemma_dec_token_safe(session_id as nat);
    lemma_dec_token_safe(resource_id as nat);
    assert forall|k: int| 0 <= k < toks.len() implies token_safe(#[trigger] toks[k]) by {
        if k == 0 {
            assert(toks[0] == name);
        } else if k == 1 {
            assert(toks[1] == dec_of(session_id as nat));
        } else if k == 2 {
            assert(toks[2] == dec_of(resource_id as nat));
        } else {
            assert(false);
        }
    }
    crate::wire::lemma_line_tokens_join(toks);
    reveal_strlit("EDocumentSaved");
    assert(toks[1] == dec_of(session_id as nat));
    crate::wire::lemma_dec_of_val(session_id as nat);
    assert(crate::parser::pos_u32(toks, 1, name) == Ok::<u32, ParseErrorV>(session_id));
    assert(toks[2] == dec_of(resource_id as nat));
    crate::wire::lemma_dec_of_val(resource_id as nat);
    assert(crate::parser::pos_u32(toks, 2, name) == Ok::<u32, ParseErrorV>(resource_id));
    assert(crate::parser::ev_document_saved(toks, name) == Ok::<EventV, ParseErrorV>(e));
    assert(crate::parser::parse_tokens_spec(toks) == Ok::<EventV, ParseErrorV>(e));
}

/// A rendered `EDocumentNotSaved` line parses back to the event it renders.
proof fn rt_document_not_saved(
    session_id: u32,
    resource_id: u32,
    reason: Seq<char>,
)
    requires
        token_safe(reason),
    ensures
        ({
            let e = EventV::DocumentNotSaved { session_id, resource_id, reason };
            parse_line_spec(event_line(e)) == Ok::<Option<EventV>, ParseErrorV>(Some(e))
        }),
{
    let e = EventV::DocumentNotSaved { session_id, resource_id, reason };
    let name = "EDocumentNotSaved"@;
    let toks = seq![name, dec_of(session_id as nat), dec_of(resource_id as nat), reason];
    assert(event_tokens(e) == toks);
    name_safe_document_not_saved();
    lemma_dec_token_safe(session_id as nat);
    lemma_dec_token_safe(resource_id as nat);
    assert forall|k: int| 0 <= k < toks.len() implies token_safe(#[trigger] toks[k]) by {
        if k == 0 {
            assert(toks[0] == name);
        } else if k == 1 {
            assert(toks[1] == dec_of(session_id as nat));
        } else if k == 2 {
            assert(toks[2] == dec_of(resource_id as nat));
        } else if k == 3 {
            assert(toks[3] == reason);
        } else {
            assert(false);
        }
    }
    crate::wire::lemma_line_tokens_join(toks);
    reveal_strlit("EDocumentNotSaved");
    assert(toks[1] == dec_of(session_id as nat));
    crate::wire::lemma_dec_of_val(session_id as nat);
    assert(crate::parser::pos_u32(toks, 1, name) == Ok::<u32, ParseErrorV>(session_id));
    assert(toks[2] == dec_of(resource_id as nat));
    crate::wire::lemma_dec_of_val(resource_id as nat);
    assert(crate::parser::pos_u32(toks, 2, name) == Ok::<u32, ParseErrorV>(resource_id));
    assert(toks[3] == reason);
    assert(crate::parser::pos_str(toks, 3, name) == Ok::<Seq<char>, ParseErrorV>(reason));
    assert(crate::parser::ev_document_not_saved(toks, name) == Ok::<EventV, ParseErrorV>(e));
    assert(crate::parser::parse_tokens_spec(toks) == Ok::<EventV, ParseErrorV>(e));
}

/// A rendered `EDocumentCleared` line parses back to the event it renders.
proof fn rt_document_cleared(
    session_id: u32,
    resource_id: u32,
)
    ensures
        ({
            let e = EventV::DocumentCleared { session_id, resource_id };
            parse_line_spec(event_line(e)) == Ok::<Option<EventV>, ParseErrorV>(Some(e))
        }),
{
    let e = EventV::DocumentCleared { session_id, resource_id };
    let name = "EDocumentCleared"@;
    let toks = seq![name, dec_of(session_id as nat), dec_of(resource_id as nat)];
    assert(event_tokens(e) == toks);
    name_safe_document_cleared();
    lemma_dec_token_safe(session_id as nat);
    lemma_dec_token_safe(resource_id as nat);
    assert forall|k: int| 0 <= k < toks.len() implies token_safe(#[trigger] toks[k]) by {
        if k == 0 {
            assert(toks[0] == name);
        } else if k == 1 {
            assert(toks[1] == dec_of(session_id as nat));
        } else if k == 2 {
            assert(toks[2] == dec_of(resource_id as nat));
        } else {
            assert(false);
        }
    }
    crate::wire::lemma_line_tokens_join(toks);
    reveal_strlit("EDocumentCleared");
    assert(toks[1] == dec_of(session_id as nat));
    crate::wire::lemma_dec_of_val(session_id as nat);
    assert(crate::parser::pos_u32(toks, 1, name) == Ok::<u32, ParseErrorV>(session_id));
    assert(toks[2] == dec_of(resource_id as nat));
    crate::wire::lemma_dec_of_val(resource_id as nat);
    assert(crate::parser::pos_u32(toks, 2, name) == Ok::<u32, ParseErrorV>(resource_id));
    assert(crate::parser::ev_document_cleared(toks, name) == Ok::<EventV, ParseErrorV>(e));
    assert(crate::parser::parse_tokens_spec(toks) == Ok::<EventV, ParseErrorV>(e));
}

/// Round trip for every defined event kind: the canonical wire line of a
/// well-formed event parses back to exactly that event, each optional
/// field present or absent just as it was rendered.
pub proof fn lemma_event_round_trip(e: EventV)
    requires
        event_wf(e),
    ensures
        parse_line_spec(event_line(e)) == Ok::<Option<EventV>, ParseErrorV>(Some(e)),
{
    match e {
        EventV::SessionCreated { session_id } => rt_session_created(session_id),
        EventV::SessionDeleted { session_id } => rt_session_deleted(session_id),
        EventV::ResourceCreated { session_id, resource_id } => rt_resource_created(session_id, resource_id),
        EventV::ResourceDeleted { session_id, resource_id } => rt_resource_deleted(session_id, resource_id),
        EventV::AudioLevelNotification { session_id, resource_id, in_talk, energy_level } => rt_audio_level_notification(session_id, resource_id, in_talk, energy_level),
        EventV::StreamBufferStateNotification { session_id, resource_id, state } => rt_stream_buffer_state_notification(session_id, resource_id, state),
        EventV::CallIncoming { session_id, resource_id, call_identifier, ani, dnis, rdn, remote_name, remote_address } => rt_call_incoming(session_id, resource_id, call_identifier, ani, dnis, rdn, remote_name, remote_address),
        EventV::CallOutgoing { session_id, resource_id, address, call_identifier } => rt_call_outgoing(session_id, resource_id, address, call_identifier),
        EventV::CallRemoteAlerting { session_id, resource_id, user } => rt_call_remote_alerting(session_id, resource_id, user),
        EventV::CallConnectionEstablished { session_id, resource_id } => rt_call_connection_established(session_id, resource_id),
        EventV::CallConnectionFailed { session_id, resource_id, reason, protocol_specific_reason } => rt_call_connection_failed(session_id, resource_id, reason, protocol_specific_reason),
        EventV::CallCleared { session_id, resource_id, reason, protocol_specific_reason } => rt_call_cleared(session_id, resource_id, reason, protocol_specific_reason),
        EventV::CallSendDTMFFinished { session_id, resource_id } => rt_call_send_dtmf_finished(session_id, resource_id),
        EventV::CallKeyPress { session_id, resource_id, key, duration } => rt_call_key_press(session_id, resource_id, key, duration),
        EventV::PlayerStarted { session_id, resource_id } => rt_player_started(session_id, resource_id),
        EventV::PlayerStopped { session_id, resource_id } => rt_player_stopped(session_id, resource_id),
        EventV::PlayerError { session_id, resource_id, error_text } => rt_player_error(session_id, resource_id, error_text),
        EventV::RecorderStarted { session_id, resource_id } => rt_recorder_started(session_id, resource_id),
        EventV::RecorderStopped { session_id, resource_id, reason } => rt_recorder_stopped(session_id, resource_id, reason),
        EventV::RecorderError { session_id, resource_id, error_text } => rt_recorder_error(session_id, resource_id, error_text),
        EventV::RecorderVoiceTrigger { session_id, resource_id } => rt_recorder_voice_trigger(session_id, resource_id),
        EventV::RtpChannelStartedReceiving { session_id, resource_id, receiver_data_address, receiver_control_address, rtp_payload_type } => rt_rtp_channel_started_receiving(session_id, resource_id, receiver_data_address, receiver_control_address, rtp_payload_type),
        EventV::RtpChannelStartedSending { session_id, resource_id, sender_control_address, rtp_payload_type } => rt_rtp_channel_started_sending(session_id, resource_id, sender_control_address, rtp_payload_type),
        EventV::RtpChannelSendDTMFFinished { session_id, resource_id } => rt_rtp_channel_send_dtmf_finished(session_id, resource_id),
        EventV::RtpChannelReceivedDTMF { session_id, resource_id, key, duration } => rt_rtp_channel_received_dtmf(session_id, resource_id, key, duration),
        EventV::RtpChannelStopped { session_id, resource_id } => rt_rtp_channel_stopped(session_id, resource_id),
        EventV::SoundDeviceStarted { session_id, resource_id } => rt_sound_device_started(session_id, resource_id),
        EventV::SoundDeviceStopped { session_id, resource_id } => rt_sound_device_stopped(session_id, resource_id),
        EventV::SoundDeviceError { session_id, resource_id } => rt_sound_device_error(session_id, resource_id),
        EventV::ModeChangeT38 { session_id, resource_id } => rt_mode_change_t38(session_id, resource_id),
        EventV::ModeChangeT38Refused { session_id, resource_id } => rt_mode_change_t38_refused(session_id, resource_id),
        EventV::FaxIncoming { session_id, resource_id } => rt_fax_incoming(session_id, resource_id),
        EventV::FacsimilePageStarted { session_id, resource_id, speed, paper_size, resolution, ecm } => rt_facsimile_page_started(session_id, resource_id, speed, paper_size, resolution, ecm),
        EventV::FacsimilePageReceived { session_id, resource_id } => rt_facsimile_page_received(session_id, resource_id),
        EventV::FacsimilePageSent { session_id, resource_id } => rt_facsimile_page_sent(session_id, resource_id),
        EventV::FaxOperationsStarted { session_id, resource_id } => rt_fax_operations_started(session_id, resource_id),
        EventV::FaxOperationFailed { session_id, resource_id } => rt_fax_operation_failed(session_id, resource_id),
        EventV::FaxOperationFinished { session_id, resource_id } => rt_fax_operation_finished(session_id, resource_id),
        EventV::FaxOperationAborted { session_id, resource_id } => rt_fax_operation_aborted(session_id, resource_id),
        EventV::DocumentPrepared { session_id, resource_id } => rt_document_prepared(session_id, resource_id),
        EventV::DocumentNotPrepared { session_id, resource_id, reason } => rt_document_not_prepared(session_id, resource_id, reason),
        EventV::DocumentSaved { session_id, resource_id } => rt_document_saved(session_id, resource_id),
        EventV::DocumentNotSaved { session_id, resource_id, reason } => rt_document_not_saved(session_id, resource_id, reason),
        EventV::DocumentCleared { session_id, resource_id } => rt_document_cleared(session_id, resource_id),
    }
}

} // verus!
