//! The typed event model: one struct per server notification, the closed
//! `Event` union over them, and the mathematical view each value presents in
//! contracts.

use crate::constants::{
    DocumentPreparePaperSize, DocumentPrepareResolution, EStreamBufferStateNotification,
    FaxSendSpeed, PayloadType, RecorderStopReason,
};
use crate::primitives::{ResourceId, SessionId, ECM};
use vstd::prelude::*;

verus! {

/// Server notification `ESessionCreated`.
#[derive(Clone, Debug, PartialEq)]
pub struct SessionCreated {
    pub session_id: SessionId,
}

/// Server notification `ESessionDeleted`.
#[derive(Clone, Debug, PartialEq)]
pub struct SessionDeleted {
    pub session_id: SessionId,
}

/// Server notification `EResourceCreated`.
#[derive(Clone, Debug, PartialEq)]
pub struct ResourceCreated {
    pub session_id: SessionId,
    pub resource_id: ResourceId,
}

/// Server notification `EResourceDeleted`.
#[derive(Clone, Debug, PartialEq)]
pub struct ResourceDeleted {
    pub session_id: SessionId,
    pub resource_id: ResourceId,
}

/// Server notification `EAudioLevelNotification`.
#[derive(Clone, Debug, PartialEq)]
pub struct AudioLevelNotification {
    pub session_id: SessionId,
    pub resource_id: ResourceId,
    pub in_talk: bool,
    pub energy_level: u8,
}

/// Server notification `EStreamBufferStateNotification`.
#[derive(Clone, Debug, PartialEq)]
pub struct StreamBufferStateNotification {
    pub session_id: SessionId,
    pub resource_id: ResourceId,
    pub state: EStreamBufferStateNotification,
}

/// Server notification `ECallIncoming`.
#[derive(Clone, Debug, PartialEq)]
pub struct CallIncoming {
    pub session_id: SessionId,
    pub resource_id: ResourceId,
    pub call_identifier: String,
    pub ani: Option<String>,
    pub dnis: Option<String>,
    pub rdn: Option<String>,
    pub remote_name: Option<String>,
    pub remote_address: Option<String>,
}

/// Server notification `ECallOutgoing`.
#[derive(Clone, Debug, PartialEq)]
pub struct CallOutgoing {
    pub session_id: SessionId,
    pub resource_id: ResourceId,
    pub address: String,
    pub call_identifier: String,
}

/// Server notification `ECallRemoteAlerting`.
#[derive(Clone, Debug, PartialEq)]
pub struct CallRemoteAlerting {
    pub session_id: SessionId,
    pub resource_id: ResourceId,
    pub user: Option<String>,
}

/// Server notification `ECallConnectionEstablished`.
#[derive(Clone, Debug, PartialEq)]
pub struct CallConnectionEstablished {
    pub session_id: SessionId,
    pub resource_id: ResourceId,
}

/// Server notification `ECallConnectionFailed`.
#[derive(Clone, Debug, PartialEq)]
pub struct CallConnectionFailed {
    pub session_id: SessionId,
    pub resource_id: ResourceId,
    pub reason: String,
    pub protocol_specific_reason: Option<String>,
}

/// Server notification `ECallCleared`.
#[derive(Clone, Debug, PartialEq)]
pub struct CallCleared {
    pub session_id: SessionId,
    pub resource_id: ResourceId,
    pub reason: String,
    pub protocol_specific_reason: Option<String>,
}

/// Server notification `ECallSendDTMFFinished`.
#[derive(Clone, Debug, PartialEq)]
pub struct CallSendDTMFFinished {
    pub session_id: SessionId,
    pub resource_id: ResourceId,
}

/// Server notification `ECallKeyPress`.
#[derive(Clone, Debug, PartialEq)]
pub struct CallKeyPress {
    pub session_id: SessionId,
    pub resource_id: ResourceId,
    pub key: String,
    pub duration: Option<u16>,
}

/// Server notification `EPlayerStarted`.
#[derive(Clone, Debug, PartialEq)]
pub struct PlayerStarted {
    pub session_id: SessionId,
    pub resource_id: ResourceId,
}

/// Server notification `EPlayerStopped`.
#[derive(Clone, Debug, PartialEq)]
pub struct PlayerStopped {
    pub session_id: SessionId,
    pub resource_id: ResourceId,
}

/// Server notification `EPlayerError`.
#[derive(Clone, Debug, PartialEq)]
pub struct PlayerError {
    pub session_id: SessionId,
    pub resource_id: ResourceId,
    pub error_text: String,
}

/// Server notification `ERecorderStarted`.
#[derive(Clone, Debug, PartialEq)]
pub struct RecorderStarted {
    pub session_id: SessionId,
    pub resource_id: ResourceId,
}

/// Server notification `ERecorderStopped`.
#[derive(Clone, Debug, PartialEq)]
pub struct RecorderStopped {
    pub session_id: SessionId,
    pub resource_id: ResourceId,
    pub reason: RecorderStopReason,
}

/// Server notification `ERecorderError`.
#[derive(Clone, Debug, PartialEq)]
pub struct RecorderError {
    pub session_id: SessionId,
    pub resource_id: ResourceId,
    pub error_text: String,
}

/// Server notification `ERecorderVoiceTrigger`.
#[derive(Clone, Debug, PartialEq)]
pub struct RecorderVoiceTrigger {
    pub session_id: SessionId,
    pub resource_id: ResourceId,
}

/// Server notification `ERtpChannelStartedReceiving`.
#[derive(Clone, Debug, PartialEq)]
pub struct RtpChannelStartedReceiving {
    pub session_id: SessionId,
    pub resource_id: ResourceId,
    pub receiver_data_address: String,
    pub receiver_control_address: Option<String>,
    pub rtp_payload_type: Option<PayloadType>,
}

/// Server notification `ERtpChannelStartedSending`.
#[derive(Clone, Debug, PartialEq)]
pub struct RtpChannelStartedSending {
    pub session_id: SessionId,
    pub resource_id: ResourceId,
    pub sender_control_address: Option<String>,
    pub rtp_payload_type: Option<PayloadType>,
}

/// Server notification `ERtpChannelSendDTMFFinished`.
#[derive(Clone, Debug, PartialEq)]
pub struct RtpChannelSendDTMFFinished {
    pub session_id: SessionId,
    pub resource_id: ResourceId,
}

/// Server notification `ERtpChannelReceivedDTMF`.
#[derive(Clone, Debug, PartialEq)]
pub struct RtpChannelReceivedDTMF {
    pub session_id: SessionId,
    pub resource_id: ResourceId,
    pub key: String,
    pub duration: Option<u16>,
}

/// Server notification `ERtpChannelStopped`.
#[derive(Clone, Debug, PartialEq)]
pub struct RtpChannelStopped {
    pub session_id: SessionId,
    pub resource_id: ResourceId,
}

/// Server notification `ESoundDeviceStarted`.
#[derive(Clone, Debug, PartialEq)]
pub struct SoundDeviceStarted {
    pub session_id: SessionId,
    pub resource_id: ResourceId,
}

/// Server notification `ESoundDeviceStopped`.
#[derive(Clone, Debug, PartialEq)]
pub struct SoundDeviceStopped {
    pub session_id: SessionId,
    pub resource_id: ResourceId,
}

/// Server notification `ESoundDeviceError`.
#[derive(Clone, Debug, PartialEq)]
pub struct SoundDeviceError {
    pub session_id: SessionId,
    pub resource_id: ResourceId,
}

/// Server notification `EModeChangeT38`.
#[derive(Clone, Debug, PartialEq)]
pub struct ModeChangeT38 {
    pub session_id: SessionId,
    pub resource_id: ResourceId,
}

/// Server notification `EModeChangeT38Refused`.
#[derive(Clone, Debug, PartialEq)]
pub struct ModeChangeT38Refused {
    pub session_id: SessionId,
    pub resource_id: ResourceId,
}

/// Server notification `EFaxIncoming`.
#[derive(Clone, Debug, PartialEq)]
pub struct FaxIncoming {
    pub session_id: SessionId,
    pub resource_id: ResourceId,
}

/// Server notification `EFacsimilePageStarted`.
#[derive(Clone, Debug, PartialEq)]
pub struct FacsimilePageStarted {
    pub session_id: SessionId,
    pub resource_id: ResourceId,
    pub speed: FaxSendSpeed,
    pub paper_size: DocumentPreparePaperSize,
    pub resolution: DocumentPrepareResolution,
    pub ecm: ECM,
}

/// Server notification `EFacsimilePageReceived`.
#[derive(Clone, Debug, PartialEq)]
pub struct FacsimilePageReceived {
    pub session_id: SessionId,
    pub resource_id: ResourceId,
}

/// Server notification `EFacsimilePageSent`.
#[derive(Clone, Debug, PartialEq)]
pub struct FacsimilePageSent {
    pub session_id: SessionId,
    pub resource_id: ResourceId,
}

/// Server notification `EFaxOperationsStarted`.
#[derive(Clone, Debug, PartialEq)]
pub struct FaxOperationsStarted {
    pub session_id: SessionId,
    pub resource_id: ResourceId,
}

/// Server notification `EFaxOperationFailed`.
#[derive(Clone, Debug, PartialEq)]
pub struct FaxOperationFailed {
    pub session_id: SessionId,
    pub resource_id: ResourceId,
}

/// Server notification `EFaxOperationFinished`.
#[derive(Clone, Debug, PartialEq)]
pub struct FaxOperationFinished {
    pub session_id: SessionId,
    pub resource_id: ResourceId,
}

/// Server notification `EFaxOperationAborted`.
#[derive(Clone, Debug, PartialEq)]
pub struct FaxOperationAborted {
    pub session_id: SessionId,
    pub resource_id: ResourceId,
}

/// Server notification `EDocumentPrepared`.
#[derive(Clone, Debug, PartialEq)]
pub struct DocumentPrepared {
    pub session_id: SessionId,
    pub resource_id: ResourceId,
}

/// Server notification `EDocumentNotPrepared`.
#[derive(Clone, Debug, PartialEq)]
pub struct DocumentNotPrepared {
    pub session_id: SessionId,
    pub resource_id: ResourceId,
    pub reason: String,
}

/// Server notification `EDocumentSaved`.
#[derive(Clone, Debug, PartialEq)]
pub struct DocumentSaved {
    pub session_id: SessionId,
    pub resource_id: ResourceId,
}

/// Server notification `EDocumentNotSaved`.
#[derive(Clone, Debug, PartialEq)]
pub struct DocumentNotSaved {
    pub session_id: SessionId,
    pub resource_id: ResourceId,
    pub reason: String,
}

/// Server notification `EDocumentCleared`.
#[derive(Clone, Debug, PartialEq)]
pub struct DocumentCleared {
    pub session_id: SessionId,
    pub resource_id: ResourceId,
}

/// The closed set of server notifications.
#[derive(Clone, Debug, PartialEq)]
pub enum Event {
    SessionCreated(SessionCreated),
    SessionDeleted(SessionDeleted),
    ResourceCreated(ResourceCreated),
    ResourceDeleted(ResourceDeleted),
    AudioLevelNotification(AudioLevelNotification),
    StreamBufferStateNotification(StreamBufferStateNotification),
    CallIncoming(CallIncoming),
    CallOutgoing(CallOutgoing),
    CallRemoteAlerting(CallRemoteAlerting),
    CallConnectionEstablished(CallConnectionEstablished),
    CallConnectionFailed(CallConnectionFailed),
    CallCleared(CallCleared),
    CallSendDTMFFinished(CallSendDTMFFinished),
    CallKeyPress(CallKeyPress),
    PlayerStarted(PlayerStarted),
    PlayerStopped(PlayerStopped),
    PlayerError(PlayerError),
    RecorderStarted(RecorderStarted),
    RecorderStopped(RecorderStopped),
    RecorderError(RecorderError),
    RecorderVoiceTrigger(RecorderVoiceTrigger),
    RtpChannelStartedReceiving(RtpChannelStartedReceiving),
    RtpChannelStartedSending(RtpChannelStartedSending),
    RtpChannelSendDTMFFinished(RtpChannelSendDTMFFinished),
    RtpChannelReceivedDTMF(RtpChannelReceivedDTMF),
    RtpChannelStopped(RtpChannelStopped),
    SoundDeviceStarted(SoundDeviceStarted),
    SoundDeviceStopped(SoundDeviceStopped),
    SoundDeviceError(SoundDeviceError),
    ModeChangeT38(ModeChangeT38),
    ModeChangeT38Refused(ModeChangeT38Refused),
    FaxIncoming(FaxIncoming),
    FacsimilePageStarted(FacsimilePageStarted),
    FacsimilePageReceived(FacsimilePageReceived),
    FacsimilePageSent(FacsimilePageSent),
    FaxOperationsStarted(FaxOperationsStarted),
    FaxOperationFailed(FaxOperationFailed),
    FaxOperationFinished(FaxOperationFinished),
    FaxOperationAborted(FaxOperationAborted),
    DocumentPrepared(DocumentPrepared),
    DocumentNotPrepared(DocumentNotPrepared),
    DocumentSaved(DocumentSaved),
    DocumentNotSaved(DocumentNotSaved),
    DocumentCleared(DocumentCleared),
}

/// The mathematical image of an `Event`: the same closed variant set with
/// every owned string read as its character sequence.
#[verifier::ext_equal]
pub enum EventV {
    SessionCreated {
        session_id: SessionId,
    },
    SessionDeleted {
        session_id: SessionId,
    },
    ResourceCreated {
        session_id: SessionId,
        resource_id: ResourceId,
    },
    ResourceDeleted {
        session_id: SessionId,
        resource_id: ResourceId,
    },
    AudioLevelNotification {
        session_id: SessionId,
        resource_id: ResourceId,
        in_talk: bool,
        energy_level: u8,
    },
    StreamBufferStateNotification {
        session_id: SessionId,
        resource_id: ResourceId,
        state: EStreamBufferStateNotification,
    },
    CallIncoming {
        session_id: SessionId,
        resource_id: ResourceId,
        call_identifier: Seq<char>,
        ani: Option<Seq<char>>,
        dnis: Option<Seq<char>>,
        rdn: Option<Seq<char>>,
        remote_name: Option<Seq<char>>,
        remote_address: Option<Seq<char>>,
    },
    CallOutgoing {
        session_id: SessionId,
        resource_id: ResourceId,
        address: Seq<char>,
        call_identifier: Seq<char>,
    },
    CallRemoteAlerting {
        session_id: SessionId,
        resource_id: ResourceId,
        user: Option<Seq<char>>,
    },
    CallConnectionEstablished {
        session_id: SessionId,
        resource_id: ResourceId,
    },
    CallConnectionFailed {
        session_id: SessionId,
        resource_id: ResourceId,
        reason: Seq<char>,
        protocol_specific_reason: Option<Seq<char>>,
    },
    CallCleared {
        session_id: SessionId,
        resource_id: ResourceId,
        reason: Seq<char>,
        protocol_specific_reason: Option<Seq<char>>,
    },
    CallSendDTMFFinished {
        session_id: SessionId,
        resource_id: ResourceId,
    },
    CallKeyPress {
        session_id: SessionId,
        resource_id: ResourceId,
        key: Seq<char>,
        duration: Option<u16>,
    },
    PlayerStarted {
        session_id: SessionId,
        resource_id: ResourceId,
    },
    PlayerStopped {
        session_id: SessionId,
        resource_id: ResourceId,
    },
    PlayerError {
        session_id: SessionId,
        resource_id: ResourceId,
        error_text: Seq<char>,
    },
    RecorderStarted {
        session_id: SessionId,
        resource_id: ResourceId,
    },
    RecorderStopped {
        session_id: SessionId,
        resource_id: ResourceId,
        reason: RecorderStopReason,
    },
    RecorderError {
        session_id: SessionId,
        resource_id: ResourceId,
        error_text: Seq<char>,
    },
    RecorderVoiceTrigger {
        session_id: SessionId,
        resource_id: ResourceId,
    },
    RtpChannelStartedReceiving {
        session_id: SessionId,
        resource_id: ResourceId,
        receiver_data_address: Seq<char>,
        receiver_control_address: Option<Seq<char>>,
        rtp_payload_type: Option<PayloadType>,
    },
    RtpChannelStartedSending {
        session_id: SessionId,
        resource_id: ResourceId,
        sender_control_address: Option<Seq<char>>,
        rtp_payload_type: Option<PayloadType>,
    },
    RtpChannelSendDTMFFinished {
        session_id: SessionId,
        resource_id: ResourceId,
    },
    RtpChannelReceivedDTMF {
        session_id: SessionId,
        resource_id: ResourceId,
        key: Seq<char>,
        duration: Option<u16>,
    },
    RtpChannelStopped {
        session_id: SessionId,
        resource_id: ResourceId,
    },
    SoundDeviceStarted {
        session_id: SessionId,
        resource_id: ResourceId,
    },
    SoundDeviceStopped {
        session_id: SessionId,
        resource_id: ResourceId,
    },
    SoundDeviceError {
        session_id: SessionId,
        resource_id: ResourceId,
    },
    ModeChangeT38 {
        session_id: SessionId,
        resource_id: ResourceId,
    },
    ModeChangeT38Refused {
        session_id: SessionId,
        resource_id: ResourceId,
    },
    FaxIncoming {
        session_id: SessionId,
        resource_id: ResourceId,
    },
    FacsimilePageStarted {
        session_id: SessionId,
        resource_id: ResourceId,
        speed: FaxSendSpeed,
        paper_size: DocumentPreparePaperSize,
        resolution: DocumentPrepareResolution,
        ecm: ECM,
    },
    FacsimilePageReceived {
        session_id: SessionId,
        resource_id: ResourceId,
    },
    FacsimilePageSent {
        session_id: SessionId,
        resource_id: ResourceId,
    },
    FaxOperationsStarted {
        session_id: SessionId,
        resource_id: ResourceId,
    },
    FaxOperationFailed {
        session_id: SessionId,
        resource_id: ResourceId,
    },
    FaxOperationFinished {
        session_id: SessionId,
        resource_id: ResourceId,
    },
    FaxOperationAborted {
        session_id: SessionId,
        resource_id: ResourceId,
    },
    DocumentPrepared {
        session_id: SessionId,
        resource_id: ResourceId,
    },
    DocumentNotPrepared {
        session_id: SessionId,
        resource_id: ResourceId,
        reason: Seq<char>,
    },
    DocumentSaved {
        session_id: SessionId,
        resource_id: ResourceId,
    },
    DocumentNotSaved {
        session_id: SessionId,
        resource_id: ResourceId,
        reason: Seq<char>,
    },
    DocumentCleared {
        session_id: SessionId,
        resource_id: ResourceId,
    },
}

impl View for Event {
    type V = EventV;

    open spec fn view(&self) -> EventV {
        match self {
            Event::SessionCreated(x) => EventV::SessionCreated {
                session_id: x.session_id,
            },
            Event::SessionDeleted(x) => EventV::SessionDeleted {
                session_id: x.session_id,
            },
            Event::ResourceCreated(x) => EventV::ResourceCreated {
                session_id: x.session_id,
                resource_id: x.resource_id,
            },
            Event::ResourceDeleted(x) => EventV::ResourceDeleted {
                session_id: x.session_id,
                resource_id: x.resource_id,
            },
            Event::AudioLevelNotification(x) => EventV::AudioLevelNotification {
                session_id: x.session_id,
                resource_id: x.resource_id,
                in_talk: x.in_talk,
                energy_level: x.energy_level,
            },
            Event::StreamBufferStateNotification(x) => EventV::StreamBufferStateNotification {
                session_id: x.session_id,
                resource_id: x.resource_id,
                state: x.state,
            },
            Event::CallIncoming(x) => EventV::CallIncoming {
                session_id: x.session_id,
                resource_id: x.resource_id,
                call_identifier: x.call_identifier@,
                ani: x.ani.deep_view(),
                dnis: x.dnis.deep_view(),
                rdn: x.rdn.deep_view(),
                remote_name: x.remote_name.deep_view(),
                remote_address: x.remote_address.deep_view(),
            },
            Event::CallOutgoing(x) => EventV::CallOutgoing {
                session_id: x.session_id,
                resource_id: x.resource_id,
                address: x.address@,
                call_identifier: x.call_identifier@,
            },
            Event::CallRemoteAlerting(x) => EventV::CallRemoteAlerting {
                session_id: x.session_id,
                resource_id: x.resource_id,
                user: x.user.deep_view(),
            },
            Event::CallConnectionEstablished(x) => EventV::CallConnectionEstablished {
                session_id: x.session_id,
                resource_id: x.resource_id,
            },
            Event::CallConnectionFailed(x) => EventV::CallConnectionFailed {
                session_id: x.session_id,
                resource_id: x.resource_id,
                reason: x.reason@,
                protocol_specific_reason: x.protocol_specific_reason.deep_view(),
            },
            Event::CallCleared(x) => EventV::CallCleared {
                session_id: x.session_id,
                resource_id: x.resource_id,
                reason: x.reason@,
                protocol_specific_reason: x.protocol_specific_reason.deep_view(),
            },
            Event::CallSendDTMFFinished(x) => EventV::CallSendDTMFFinished {
                session_id: x.session_id,
                resource_id: x.resource_id,
            },
            Event::CallKeyPress(x) => EventV::CallKeyPress {
                session_id: x.session_id,
                resource_id: x.resource_id,
                key: x.key@,
                duration: x.duration,
            },
            Event::PlayerStarted(x) => EventV::PlayerStarted {
                session_id: x.session_id,
                resource_id: x.resource_id,
            },
            Event::PlayerStopped(x) => EventV::PlayerStopped {
                session_id: x.session_id,
                resource_id: x.resource_id,
            },
            Event::PlayerError(x) => EventV::PlayerError {
                session_id: x.session_id,
                resource_id: x.resource_id,
                error_text: x.error_text@,
            },
            Event::RecorderStarted(x) => EventV::RecorderStarted {
                session_id: x.session_id,
                resource_id: x.resource_id,
            },
            Event::RecorderStopped(x) => EventV::RecorderStopped {
                session_id: x.session_id,
                resource_id: x.resource_id,
                reason: x.reason,
            },
            Event::RecorderError(x) => EventV::RecorderError {
                session_id: x.session_id,
                resource_id: x.resource_id,
                error_text: x.error_text@,
            },
            Event::RecorderVoiceTrigger(x) => EventV::RecorderVoiceTrigger {
                session_id: x.session_id,
                resource_id: x.resource_id,
            },
            Event::RtpChannelStartedReceiving(x) => EventV::RtpChannelStartedReceiving {
                session_id: x.session_id,
                resource_id: x.resource_id,
                receiver_data_address: x.receiver_data_address@,
                receiver_control_address: x.receiver_control_address.deep_view(),
                rtp_payload_type: x.rtp_payload_type,
            },
            Event::RtpChannelStartedSending(x) => EventV::RtpChannelStartedSending {
                session_id: x.session_id,
                resource_id: x.resource_id,
                sender_control_address: x.sender_control_address.deep_view(),
                rtp_payload_type: x.rtp_payload_type,
            },
            Event::RtpChannelSendDTMFFinished(x) => EventV::RtpChannelSendDTMFFinished {
                session_id: x.session_id,
                resource_id: x.resource_id,
            },
            Event::RtpChannelReceivedDTMF(x) => EventV::RtpChannelReceivedDTMF {
                session_id: x.session_id,
                resource_id: x.resource_id,
                key: x.key@,
                duration: x.duration,
            },
            Event::RtpChannelStopped(x) => EventV::RtpChannelStopped {
                session_id: x.session_id,
                resource_id: x.resource_id,
            },
            Event::SoundDeviceStarted(x) => EventV::SoundDeviceStarted {
                session_id: x.session_id,
                resource_id: x.resource_id,
            },
            Event::SoundDeviceStopped(x) => EventV::SoundDeviceStopped {
                session_id: x.session_id,
                resource_id: x.resource_id,
            },
            Event::SoundDeviceError(x) => EventV::SoundDeviceError {
                session_id: x.session_id,
                resource_id: x.resource_id,
            },
            Event::ModeChangeT38(x) => EventV::ModeChangeT38 {
                session_id: x.session_id,
                resource_id: x.resource_id,
            },
            Event::ModeChangeT38Refused(x) => EventV::ModeChangeT38Refused {
                session_id: x.session_id,
                resource_id: x.resource_id,
            },
            Event::FaxIncoming(x) => EventV::FaxIncoming {
                session_id: x.session_id,
                resource_id: x.resource_id,
            },
            Event::FacsimilePageStarted(x) => EventV::FacsimilePageStarted {
                session_id: x.session_id,
                resource_id: x.resource_id,
                speed: x.speed,
                paper_size: x.paper_size,
                resolution: x.resolution,
                ecm: x.ecm,
            },
            Event::FacsimilePageReceived(x) => EventV::FacsimilePageReceived {
                session_id: x.session_id,
                resource_id: x.resource_id,
            },
            Event::FacsimilePageSent(x) => EventV::FacsimilePageSent {
                session_id: x.session_id,
                resource_id: x.resource_id,
            },
            Event::FaxOperationsStarted(x) => EventV::FaxOperationsStarted {
                session_id: x.session_id,
                resource_id: x.resource_id,
            },
            Event::FaxOperationFailed(x) => EventV::FaxOperationFailed {
                session_id: x.session_id,
                resource_id: x.resource_id,
            },
            Event::FaxOperationFinished(x) => EventV::FaxOperationFinished {
                session_id: x.session_id,
                resource_id: x.resource_id,
            },
            Event::FaxOperationAborted(x) => EventV::FaxOperationAborted {
                session_id: x.session_id,
                resource_id: x.resource_id,
            },
            Event::DocumentPrepared(x) => EventV::DocumentPrepared {
                session_id: x.session_id,
                resource_id: x.resource_id,
            },
            Event::DocumentNotPrepared(x) => EventV::DocumentNotPrepared {
                session_id: x.session_id,
                resource_id: x.resource_id,
                reason: x.reason@,
            },
            Event::DocumentSaved(x) => EventV::DocumentSaved {
                session_id: x.session_id,
                resource_id: x.resource_id,
            },
            Event::DocumentNotSaved(x) => EventV::DocumentNotSaved {
                session_id: x.session_id,
                resource_id: x.resource_id,
                reason: x.reason@,
            },
            Event::DocumentCleared(x) => EventV::DocumentCleared {
                session_id: x.session_id,
                resource_id: x.resource_id,
            },
        }
    }
}


/// Why a received line was rejected.
#[derive(Clone, Debug, PartialEq)]
pub enum ParseEventError {
    /// The first token names no known event.
    UnknownEvent(String),
    /// A required positional token is missing.
    WrongArity(String),
    /// A token is present but cannot be read as its declared type.
    BadValue(String),
}

/// The mathematical image of a parse error.
#[verifier::ext_equal]
pub enum ParseErrorV {
    UnknownEvent(Seq<char>),
    WrongArity(Seq<char>),
    BadValue(Seq<char>),
}

impl View for ParseEventError {
    type V = ParseErrorV;

    open spec fn view(&self) -> ParseErrorV {
        match self {
            ParseEventError::UnknownEvent(s) => ParseErrorV::UnknownEvent(s@),
            ParseEventError::WrongArity(s) => ParseErrorV::WrongArity(s@),
            ParseEventError::BadValue(s) => ParseErrorV::BadValue(s@),
        }
    }
}

} // verus!
