//! The typed command model: one struct per outbound operation, the closed
//! `Command` union over them, constructors that resolve documented defaults,
//! and the canonical wire encoding of each command.

use crate::constants::{
    AudioFormatType, DocumentAddFileTransformation, DocumentPreparePaperSize,
    DocumentPrepareResolution, DocumentSaveType, FaxReceiveMode, FaxSendSpeed, PayloadType,
    ToneType,
};
use crate::primitives::{Channels, ResourceId, SampleRate, ECM};
use crate::wire::{dec_of, i64_to_string, int_dec, u64_to_string};
use vstd::prelude::*;

verus! {

/// Fields of the `ProtocolVersion` command.
#[derive(Clone, Debug, PartialEq)]
pub struct ProtocolVersion;

/// Fields of the `GetVersion` command.
#[derive(Clone, Debug, PartialEq)]
pub struct GetVersion;

/// Fields of the `Login` command.
#[derive(Clone, Debug, PartialEq)]
pub struct Login {
    pub username: String,
    pub password: String,
    pub protocol_major_version: u8,
    pub protocol_minor_version: u8,
    pub protocol_revision: Option<u8>,
}

/// Fields of the `Logout` command.
#[derive(Clone, Debug, PartialEq)]
pub struct Logout;

/// Fields of the `Quit` command.
#[derive(Clone, Debug, PartialEq)]
pub struct Quit;

/// Fields of the `ResourceCreateFrontEnd` command.
#[derive(Clone, Debug, PartialEq)]
pub struct ResourceCreateFrontEnd {
    pub reg_incoming_ani: Option<String>,
    pub reg_incoming_dnis: Option<String>,
    pub reg_incoming_rdn: Option<String>,
    pub accepting: Option<bool>,
}

/// Fields of the `ResourceCreatePlayer` command.
#[derive(Clone, Debug, PartialEq)]
pub struct ResourceCreatePlayer;

/// Fields of the `ResourceCreateRecorder` command.
#[derive(Clone, Debug, PartialEq)]
pub struct ResourceCreateRecorder;

/// Fields of the `ResourceCreateTransportChannel` command.
#[derive(Clone, Debug, PartialEq)]
pub struct ResourceCreateTransportChannel {
    pub transport_type: String,
}

/// Fields of the `ResourceCreateRtpChannel` command.
#[derive(Clone, Debug, PartialEq)]
pub struct ResourceCreateRtpChannel {
    pub in_band_dtmf_enabled: Option<bool>,
}

/// Fields of the `ResourceCreateSoundDevice` command.
#[derive(Clone, Debug, PartialEq)]
pub struct ResourceCreateSoundDevice {
    pub direction: String,
    pub device: Option<String>,
    pub buffers: Option<u8>,
}

/// Fields of the `ResourceCreateFax` command.
#[derive(Clone, Debug, PartialEq)]
pub struct ResourceCreateFax;

/// Fields of the `ResourceCreateDocument` command.
#[derive(Clone, Debug, PartialEq)]
pub struct ResourceCreateDocument;

/// Fields of the `ResourceDelete` command.
#[derive(Clone, Debug, PartialEq)]
pub struct ResourceDelete {
    pub resource_id: ResourceId,
}

/// Fields of the `ResourceGetStatus` command.
#[derive(Clone, Debug, PartialEq)]
pub struct ResourceGetStatus {
    pub resource_id: ResourceId,
}

/// Fields of the `CallMake` command.
#[derive(Clone, Debug, PartialEq)]
pub struct CallMake {
    pub resource_id: ResourceId,
    pub address: String,
    pub timeout: Option<u32>,
    pub caller_number: Option<String>,
    pub caller_name: Option<String>,
    pub privacy: Option<u8>,
    pub screen: Option<u8>,
}

/// Fields of the `CallAnswer` command.
#[derive(Clone, Debug, PartialEq)]
pub struct CallAnswer {
    pub resource_id: ResourceId,
}

/// Fields of the `CallClear` command.
#[derive(Clone, Debug, PartialEq)]
pub struct CallClear {
    pub resource_id: ResourceId,
    pub reason: Option<String>,
}

/// Fields of the `CallTransferConsultation` command.
#[derive(Clone, Debug, PartialEq)]
pub struct CallTransferConsultation {
    pub resource_id1: ResourceId,
    pub resource_id2: ResourceId,
}

/// Fields of the `CallTransferBlind` command.
#[derive(Clone, Debug, PartialEq)]
pub struct CallTransferBlind {
    pub resource_id: ResourceId,
    pub address: String,
    pub use_h450: Option<u8>,
}

/// Fields of the `CallHold` command.
#[derive(Clone, Debug, PartialEq)]
pub struct CallHold {
    pub resource_id: ResourceId,
}

/// Fields of the `CallRetrieve` command.
#[derive(Clone, Debug, PartialEq)]
pub struct CallRetrieve {
    pub resource_id: ResourceId,
}

/// Fields of the `CallSendDTMF` command.
#[derive(Clone, Debug, PartialEq)]
pub struct CallSendDTMF {
    pub resource_id: ResourceId,
    pub dtmf_string: String,
    pub duration: Option<u32>,
    pub delay: Option<u32>,
    pub pause_duration: Option<u32>,
}

/// Fields of the `CallStopActivity` command.
#[derive(Clone, Debug, PartialEq)]
pub struct CallStopActivity {
    pub resource_id: ResourceId,
}

/// Fields of the `CallT38Relay` command.
#[derive(Clone, Debug, PartialEq)]
pub struct CallT38Relay {
    pub resource_id1: ResourceId,
    pub resource_id2: ResourceId,
}

/// Fields of the `CallsSetAlertingType` command.
#[derive(Clone, Debug, PartialEq)]
pub struct CallsSetAlertingType {
    pub resource_id: ResourceId,
    pub alerting_type: String,
}

/// Fields of the `CallsSetAccepting` command.
#[derive(Clone, Debug, PartialEq)]
pub struct CallsSetAccepting {
    pub resource_id: ResourceId,
    pub accepting: bool,
}

/// Fields of the `PlayFile` command.
#[derive(Clone, Debug, PartialEq)]
pub struct PlayFile {
    pub resource_id: ResourceId,
    pub file_name: String,
    pub audio_type: Option<AudioFormatType>,
    pub sample_rate: Option<SampleRate>,
    pub channels: Option<Channels>,
    pub index: Option<u32>,
    pub skip_bytes: Option<i64>,
}

/// Fields of the `PlayStream` command.
#[derive(Clone, Debug, PartialEq)]
pub struct PlayStream {
    pub player_id: ResourceId,
    pub transport_channel_id: ResourceId,
    pub audio_type: Option<AudioFormatType>,
    pub sample_rate: Option<SampleRate>,
    pub buffer_optimum_size: Option<u32>,
}

/// Fields of the `PlayTone` command.
#[derive(Clone, Debug, PartialEq)]
pub struct PlayTone {
    pub resource_id: ResourceId,
    pub frequency: Option<u16>,
    pub frequency2: Option<u16>,
    pub tone: Option<ToneType>,
    pub volume: Option<u8>,
    pub duration: Option<u16>,
}

/// Fields of the `PlayStop` command.
#[derive(Clone, Debug, PartialEq)]
pub struct PlayStop {
    pub resource_id: ResourceId,
}

/// Fields of the `RecorderStartToFile` command.
#[derive(Clone, Debug, PartialEq)]
pub struct RecorderStartToFile {
    pub resource_id: ResourceId,
    pub file_name: String,
    pub audio_type: Option<AudioFormatType>,
    pub sample_rate: Option<SampleRate>,
    pub channels: Option<Channels>,
    pub file_offset: Option<i64>,
    pub max_duration: Option<u32>,
    pub max_silence: Option<u32>,
    pub voice_trigger: Option<bool>,
    pub pause_if_empty: Option<bool>,
}

/// Fields of the `RecorderStartToStream` command.
#[derive(Clone, Debug, PartialEq)]
pub struct RecorderStartToStream {
    pub recorder_id: ResourceId,
    pub transport_channel_id: ResourceId,
    pub audio_type: Option<AudioFormatType>,
    pub sample_rate: Option<SampleRate>,
    pub max_duration: Option<u32>,
    pub max_silence: Option<u32>,
    pub voice_trigger: Option<bool>,
    pub pause_if_empty: Option<bool>,
}

/// Fields of the `RecorderStop` command.
#[derive(Clone, Debug, PartialEq)]
pub struct RecorderStop {
    pub resource_id: ResourceId,
}

/// Fields of the `RtpChannelStartReceiving` command.
#[derive(Clone, Debug, PartialEq)]
pub struct RtpChannelStartReceiving {
    pub resource_id: ResourceId,
    pub sender_control_address: Option<String>,
    pub receiver_data_address: Option<String>,
    pub receiver_control_address: Option<String>,
    pub payload_type: Option<PayloadType>,
    pub rfc2833_payload_type: Option<u8>,
    pub rtp_session_id: Option<u8>,
    pub jitter_buffer_length_min: Option<u16>,
    pub jitter_buffer_length_max: Option<u16>,
}

/// Fields of the `RtpChannelStartSending` command.
#[derive(Clone, Debug, PartialEq)]
pub struct RtpChannelStartSending {
    pub resource_id: ResourceId,
    pub receiver_data_address: String,
    pub receiver_control_address: Option<String>,
    pub sender_data_address: Option<String>,
    pub sender_control_address: Option<String>,
    pub payload_type: Option<PayloadType>,
    pub rfc2833_payload_type: Option<u8>,
    pub rtp_session_id: Option<u8>,
}

/// Fields of the `RtpChannelStop` command.
#[derive(Clone, Debug, PartialEq)]
pub struct RtpChannelStop {
    pub resource_id: ResourceId,
}

/// Fields of the `RtpChannelSendDTMF` command.
#[derive(Clone, Debug, PartialEq)]
pub struct RtpChannelSendDTMF {
    pub resource_id: ResourceId,
    pub dtmf_string: String,
    pub duration: Option<u32>,
    pub delay: Option<u32>,
    pub pause_duration: Option<u32>,
}

/// Fields of the `SoundDeviceStart` command.
#[derive(Clone, Debug, PartialEq)]
pub struct SoundDeviceStart {
    pub resource_id: ResourceId,
}

/// Fields of the `SoundDeviceStop` command.
#[derive(Clone, Debug, PartialEq)]
pub struct SoundDeviceStop {
    pub resource_id: ResourceId,
}

/// Fields of the `FaxReceive` command.
#[derive(Clone, Debug, PartialEq)]
pub struct FaxReceive {
    pub fax_resource_id: ResourceId,
    pub frontend_resource_id: ResourceId,
    pub document_resource_id: ResourceId,
    pub fax_mode: Option<FaxReceiveMode>,
    pub use_ecm: Option<ECM>,
    pub csi: Option<String>,
}

/// Fields of the `FaxSend` command.
#[derive(Clone, Debug, PartialEq)]
pub struct FaxSend {
    pub fax_resource_id: ResourceId,
    pub frontend_resource_id: ResourceId,
    pub document_resource_id: ResourceId,
    pub speed: Option<FaxSendSpeed>,
    pub use_ecm: Option<ECM>,
    pub header: Option<String>,
    pub tsi: Option<String>,
}

/// Fields of the `FaxAbort` command.
#[derive(Clone, Debug, PartialEq)]
pub struct FaxAbort {
    pub resource_id: ResourceId,
}

/// Fields of the `DocumentAddFile` command.
#[derive(Clone, Debug, PartialEq)]
pub struct DocumentAddFile {
    pub resource_id: ResourceId,
    pub file_path: String,
    pub transformation: Option<DocumentAddFileTransformation>,
}

/// Fields of the `DocumentPrepare` command.
#[derive(Clone, Debug, PartialEq)]
pub struct DocumentPrepare {
    pub resource_id: ResourceId,
    pub paper_size: Option<DocumentPreparePaperSize>,
    pub resolution: Option<DocumentPrepareResolution>,
}

/// Fields of the `DocumentSave` command.
#[derive(Clone, Debug, PartialEq)]
pub struct DocumentSave {
    pub resource_id: ResourceId,
    pub file_path: String,
    pub multipage: Option<bool>,
    pub document_type: Option<DocumentSaveType>,
}

/// Fields of the `DocumentClear` command.
#[derive(Clone, Debug, PartialEq)]
pub struct DocumentClear {
    pub resource_id: ResourceId,
}

/// Fields of the `AudioSend` command.
#[derive(Clone, Debug, PartialEq)]
pub struct AudioSend {
    pub source_resource_id: ResourceId,
    pub sink_resource_id: ResourceId,
    pub source_channel: Option<u8>,
    pub sink_channel: Option<u8>,
    pub volume: Option<i16>,
    pub auto_gain: Option<bool>,
    pub auto_gain_resolution: Option<u16>,
    pub auto_gain_rise_time: Option<u16>,
    pub auto_gain_fall_time: Option<u16>,
    pub auto_gain_kill_time: Option<u16>,
}

/// Fields of the `AudioCancel` command.
#[derive(Clone, Debug, PartialEq)]
pub struct AudioCancel {
    pub source_resource_id: ResourceId,
    pub sink_resource_id: ResourceId,
}

/// Fields of the `AudioLevelNotificationSend` command.
#[derive(Clone, Debug, PartialEq)]
pub struct AudioLevelNotificationSend {
    pub resource_id: ResourceId,
    pub resolution: Option<u16>,
    pub voice_dead_band: Option<u16>,
    pub silence_dead_band: Option<u16>,
    pub adaptive_period: Option<u16>,
    pub voice_timer: Option<u16>,
    pub silence_timer: Option<u16>,
}

/// Fields of the `AudioLevelNotificationCancel` command.
#[derive(Clone, Debug, PartialEq)]
pub struct AudioLevelNotificationCancel {
    pub resource_id: ResourceId,
}

/// Fields of the `InBandSignalingDetectionEnable` command.
#[derive(Clone, Debug, PartialEq)]
pub struct InBandSignalingDetectionEnable {
    pub resource_id: ResourceId,
}

/// Fields of the `InBandSignalingDetectionDisable` command.
#[derive(Clone, Debug, PartialEq)]
pub struct InBandSignalingDetectionDisable {
    pub resource_id: ResourceId,
}

/// Fields of the `GetRtpStatistics` command.
#[derive(Clone, Debug, PartialEq)]
pub struct GetRtpStatistics {
    pub resource_id: ResourceId,
}

/// The closed set of outbound commands.
#[derive(Clone, Debug, PartialEq)]
pub enum Command {
    ProtocolVersion(ProtocolVersion),
    GetVersion(GetVersion),
    Login(Login),
    Logout(Logout),
    Quit(Quit),
    ResourceCreateFrontEnd(ResourceCreateFrontEnd),
    ResourceCreatePlayer(ResourceCreatePlayer),
    ResourceCreateRecorder(ResourceCreateRecorder),
    ResourceCreateTransportChannel(ResourceCreateTransportChannel),
    ResourceCreateRtpChannel(ResourceCreateRtpChannel),
    ResourceCreateSoundDevice(ResourceCreateSoundDevice),
    ResourceCreateFax(ResourceCreateFax),
    ResourceCreateDocument(ResourceCreateDocument),
    ResourceDelete(ResourceDelete),
    ResourceGetStatus(ResourceGetStatus),
    CallMake(CallMake),
    CallAnswer(CallAnswer),
    CallClear(CallClear),
    CallTransferConsultation(CallTransferConsultation),
    CallTransferBlind(CallTransferBlind),
    CallHold(CallHold),
    CallRetrieve(CallRetrieve),
    CallSendDTMF(CallSendDTMF),
    CallStopActivity(CallStopActivity),
    CallT38Relay(CallT38Relay),
    CallsSetAlertingType(CallsSetAlertingType),
    CallsSetAccepting(CallsSetAccepting),
    PlayFile(PlayFile),
    PlayStream(PlayStream),
    PlayTone(PlayTone),
    PlayStop(PlayStop),
    RecorderStartToFile(RecorderStartToFile),
    RecorderStartToStream(RecorderStartToStream),
    RecorderStop(RecorderStop),
    RtpChannelStartReceiving(RtpChannelStartReceiving),
    RtpChannelStartSending(RtpChannelStartSending),
    RtpChannelStop(RtpChannelStop),
    RtpChannelSendDTMF(RtpChannelSendDTMF),
    SoundDeviceStart(SoundDeviceStart),
    SoundDeviceStop(SoundDeviceStop),
    FaxReceive(FaxReceive),
    FaxSend(FaxSend),
    FaxAbort(FaxAbort),
    DocumentAddFile(DocumentAddFile),
    DocumentPrepare(DocumentPrepare),
    DocumentSave(DocumentSave),
    DocumentClear(DocumentClear),
    AudioSend(AudioSend),
    AudioCancel(AudioCancel),
    AudioLevelNotificationSend(AudioLevelNotificationSend),
    AudioLevelNotificationCancel(AudioLevelNotificationCancel),
    InBandSignalingDetectionEnable(InBandSignalingDetectionEnable),
    InBandSignalingDetectionDisable(InBandSignalingDetectionDisable),
    GetRtpStatistics(GetRtpStatistics),
}

/// The wire line of a `ProtocolVersion` command.
pub open spec fn line_protocol_version(x: ProtocolVersion) -> Seq<char> {
    "ProtocolVersion"@
}

/// The wire line of a `GetVersion` command.
pub open spec fn line_get_version(x: GetVersion) -> Seq<char> {
    "GetVersion"@
}

/// The wire line of a `Login` command.
pub open spec fn line_login(x: Login) -> Seq<char> {
    "Login"@ + " "@ + x.username@ + " "@ + x.password@ + " "@ + dec_of(x.protocol_major_version as nat) + " "@ + dec_of(x.protocol_minor_version as nat) + (match x.protocol_revision { Some(v) => " "@ + dec_of(v as nat), None => Seq::<char>::empty() })
}

/// The wire line of a `Logout` command.
pub open spec fn line_logout(x: Logout) -> Seq<char> {
    "Logout"@
}

/// The wire line of a `Quit` command.
pub open spec fn line_quit(x: Quit) -> Seq<char> {
    "Quit"@
}

/// The wire line of a `ResourceCreateFrontEnd` command.
pub open spec fn line_resource_create_front_end(x: ResourceCreateFrontEnd) -> Seq<char> {
    "ResourceCreateFrontEnd"@ + (match x.reg_incoming_ani { Some(v) => " RegIncomingANI="@ + v@, None => Seq::<char>::empty() }) + (match x.reg_incoming_dnis { Some(v) => " RegIncomingDNIS="@ + v@, None => Seq::<char>::empty() }) + (match x.reg_incoming_rdn { Some(v) => " RegIncomingRDN="@ + v@, None => Seq::<char>::empty() }) + (match x.accepting { Some(v) => " Accepting="@ + (if v { "1"@ } else { "0"@ }), None => Seq::<char>::empty() })
}

/// The wire line of a `ResourceCreatePlayer` command.
pub open spec fn line_resource_create_player(x: ResourceCreatePlayer) -> Seq<char> {
    "ResourceCreatePlayer"@
}

/// The wire line of a `ResourceCreateRecorder` command.
pub open spec fn line_resource_create_recorder(x: ResourceCreateRecorder) -> Seq<char> {
    "ResourceCreateRecorder"@
}

/// The wire line of a `ResourceCreateTransportChannel` command.
pub open spec fn line_resource_create_transport_channel(x: ResourceCreateTransportChannel) -> Seq<char> {
    "ResourceCreateTransportChannel"@ + " "@ + x.transport_type@
}

/// The wire line of a `ResourceCreateRtpChannel` command.
pub open spec fn line_resource_create_rtp_channel(x: ResourceCreateRtpChannel) -> Seq<char> {
    "ResourceCreateRtpChannel"@ + (match x.in_band_dtmf_enabled { Some(v) => " InBandDTMFEnabled="@ + (if v { "1"@ } else { "0"@ }), None => Seq::<char>::empty() })
}

/// The wire line of a `ResourceCreateSoundDevice` command.
pub open spec fn line_resource_create_sound_device(x: ResourceCreateSoundDevice) -> Seq<char> {
    "ResourceCreateSoundDevice"@ + " Direction="@ + x.direction@ + (match x.device { Some(v) => " Device="@ + v@, None => Seq::<char>::empty() }) + (match x.buffers { Some(v) => " Buffers="@ + dec_of(v as nat), None => Seq::<char>::empty() })
}

/// The wire line of a `ResourceCreateFax` command.
pub open spec fn line_resource_create_fax(x: ResourceCreateFax) -> Seq<char> {
    "ResourceCreateFax"@
}

/// The wire line of a `ResourceCreateDocument` command.
pub open spec fn line_resource_create_document(x: ResourceCreateDocument) -> Seq<char> {
    "ResourceCreateDocument"@
}

/// The wire line of a `ResourceDelete` command.
pub open spec fn line_resource_delete(x: ResourceDelete) -> Seq<char> {
    "ResourceDelete"@ + " "@ + dec_of(x.resource_id as nat)
}

/// The wire line of a `ResourceGetStatus` command.
pub open spec fn line_resource_get_status(x: ResourceGetStatus) -> Seq<char> {
    "ResourceGetStatus"@ + " "@ + dec_of(x.resource_id as nat)
}

/// The wire line of a `CallMake` command.
pub open spec fn line_call_make(x: CallMake) -> Seq<char> {
    "CallMake"@ + " "@ + dec_of(x.resource_id as nat) + " "@ + x.address@ + (match x.timeout { Some(v) => " TimeOut="@ + dec_of(v as nat), None => Seq::<char>::empty() }) + (match x.caller_number { Some(v) => " CallerNumber="@ + v@, None => Seq::<char>::empty() }) + (match x.caller_name { Some(v) => " CallerName="@ + v@, None => Seq::<char>::empty() }) + (match x.privacy { Some(v) => " Privacy="@ + dec_of(v as nat), None => Seq::<char>::empty() }) + (match x.screen { Some(v) => " Screen="@ + dec_of(v as nat), None => Seq::<char>::empty() })
}

/// The wire line of a `CallAnswer` command.
pub open spec fn line_call_answer(x: CallAnswer) -> Seq<char> {
    "CallAnswer"@ + " "@ + dec_of(x.resource_id as nat)
}

/// The wire line of a `CallClear` command.
pub open spec fn line_call_clear(x: CallClear) -> Seq<char> {
    "CallClear"@ + " "@ + dec_of(x.resource_id as nat) + (match x.reason { Some(v) => " Reason="@ + v@, None => Seq::<char>::empty() })
}

/// The wire line of a `CallTransferConsultation` command.
pub open spec fn line_call_transfer_consultation(x: CallTransferConsultation) -> Seq<char> {
    "CallTransferConsultation"@ + " "@ + dec_of(x.resource_id1 as nat) + " "@ + dec_of(x.resource_id2 as nat)
}

/// The wire line of a `CallTransferBlind` command.
pub open spec fn line_call_transfer_blind(x: CallTransferBlind) -> Seq<char> {
    "CallTransferBlind"@ + " "@ + dec_of(x.resource_id as nat) + " "@ + x.address@ + (match x.use_h450 { Some(v) => " UseH450="@ + dec_of(v as nat), None => Seq::<char>::empty() })
}

/// The wire line of a `CallHold` command.
pub open spec fn line_call_hold(x: CallHold) -> Seq<char> {
    "CallHold"@ + " "@ + dec_of(x.resource_id as nat)
}

/// The wire line of a `CallRetrieve` command.
pub open spec fn line_call_retrieve(x: CallRetrieve) -> Seq<char> {
    "CallRetrieve"@ + " "@ + dec_of(x.resource_id as nat)
}

/// The wire line of a `CallSendDTMF` command.
pub open spec fn line_call_send_dtmf(x: CallSendDTMF) -> Seq<char> {
    "CallSendDTMF"@ + " "@ + dec_of(x.resource_id as nat) + " "@ + x.dtmf_string@ + (match x.duration { Some(v) => " Duration="@ + dec_of(v as nat), None => Seq::<char>::empty() }) + (match x.delay { Some(v) => " Delay="@ + dec_of(v as nat), None => Seq::<char>::empty() }) + (match x.pause_duration { Some(v) => " PauseDuration="@ + dec_of(v as nat), None => Seq::<char>::empty() })
}

/// The wire line of a `CallStopActivity` command.
pub open spec fn line_call_stop_activity(x: CallStopActivity) -> Seq<char> {
    "CallStopActivity"@ + " "@ + dec_of(x.resource_id as nat)
}

/// The wire line of a `CallT38Relay` command.
pub open spec fn line_call_t38_relay(x: CallT38Relay) -> Seq<char> {
    "CallT38Relay"@ + " "@ + dec_of(x.resource_id1 as nat) + " "@ + dec_of(x.resource_id2 as nat)
}

/// The wire line of a `CallsSetAlertingType` command.
pub open spec fn line_calls_set_alerting_type(x: CallsSetAlertingType) -> Seq<char> {
    "CallsSetAlertingType"@ + " "@ + dec_of(x.resource_id as nat) + " "@ + x.alerting_type@
}

/// The wire line of a `CallsSetAccepting` command.
pub open spec fn line_calls_set_accepting(x: CallsSetAccepting) -> Seq<char> {
    "CallsSetAccepting"@ + " "@ + dec_of(x.resource_id as nat) + " "@ + (if x.accepting { "1"@ } else { "0"@ })
}

/// The wire line of a `PlayFile` command.
pub open spec fn line_play_file(x: PlayFile) -> Seq<char> {
    "PlayFile"@ + " "@ + dec_of(x.resource_id as nat) + " "@ + x.file_name@ + (match x.audio_type { Some(v) => " AudioType="@ + dec_of(v.spec_code() as nat), None => Seq::<char>::empty() }) + (match x.sample_rate { Some(v) => " SampleRate="@ + dec_of(v as nat), None => Seq::<char>::empty() }) + (match x.channels { Some(v) => " Channels="@ + dec_of(v.spec_code() as nat), None => Seq::<char>::empty() }) + (match x.index { Some(v) => " Index="@ + dec_of(v as nat), None => Seq::<char>::empty() }) + (match x.skip_bytes { Some(v) => " SkipBytes="@ + int_dec(v as int), None => Seq::<char>::empty() })
}

/// The wire line of a `PlayStream` command.
pub open spec fn line_play_stream(x: PlayStream) -> Seq<char> {
    "PlayStream"@ + " "@ + dec_of(x.player_id as nat) + " "@ + dec_of(x.transport_channel_id as nat) + (match x.audio_type { Some(v) => " AudioType="@ + dec_of(v.spec_code() as nat), None => Seq::<char>::empty() }) + (match x.sample_rate { Some(v) => " SampleRate="@ + dec_of(v as nat), None => Seq::<char>::empty() }) + (match x.buffer_optimum_size { Some(v) => " BufferOptimumSize="@ + dec_of(v as nat), None => Seq::<char>::empty() })
}

/// The wire line of a `PlayTone` command.
pub open spec fn line_play_tone(x: PlayTone) -> Seq<char> {
    "PlayTone"@ + " "@ + dec_of(x.resource_id as nat) + (match x.frequency { Some(v) => " Frequency="@ + dec_of(v as nat), None => Seq::<char>::empty() }) + (match x.frequency2 { Some(v) => " Frequency2="@ + dec_of(v as nat), None => Seq::<char>::empty() }) + (match x.tone { Some(v) => " Tone="@ + dec_of(v.spec_code() as nat), None => Seq::<char>::empty() }) + (match x.volume { Some(v) => " Volume="@ + dec_of(v as nat), None => Seq::<char>::empty() }) + (match x.duration { Some(v) => " Duration="@ + dec_of(v as nat), None => Seq::<char>::empty() })
}

/// The wire line of a `PlayStop` command.
pub open spec fn line_play_stop(x: PlayStop) -> Seq<char> {
    "PlayStop"@ + " "@ + dec_of(x.resource_id as nat)
}

/// The name and leading fields of a `RecorderStartToFile` line.
pub open spec fn line_recorder_start_to_file_head(x: RecorderStartToFile) -> Seq<char> {
    "RecorderStartToFile"@ + " "@ + dec_of(x.resource_id as nat) + " "@ + x.file_name@ + (match x.audio_type { Some(v) => " AudioType="@ + dec_of(v.spec_code() as nat), None => Seq::<char>::empty() }) + (match x.sample_rate { Some(v) => " SampleRate="@ + dec_of(v as nat), None => Seq::<char>::empty() }) + (match x.channels { Some(v) => " Channels="@ + dec_of(v.spec_code() as nat), None => Seq::<char>::empty() })
}

/// The trailing attributes of a `RecorderStartToFile` line.
pub open spec fn line_recorder_start_to_file_tail(x: RecorderStartToFile) -> Seq<char> {
    (match x.file_offset { Some(v) => " FileOffset="@ + int_dec(v as int), None => Seq::<char>::empty() }) + (match x.max_duration { Some(v) => " MaxDuration="@ + dec_of(v as nat), None => Seq::<char>::empty() }) + (match x.max_silence { Some(v) => " MaxSilence="@ + dec_of(v as nat), None => Seq::<char>::empty() }) + (match x.voice_trigger { Some(v) => " VoiceTrigger="@ + (if v { "1"@ } else { "0"@ }), None => Seq::<char>::empty() }) + (match x.pause_if_empty { Some(v) => " PauseIfEmpty="@ + (if v { "1"@ } else { "0"@ }), None => Seq::<char>::empty() })
}

/// The wire line of a `RecorderStartToFile` command.
pub open spec fn line_recorder_start_to_file(x: RecorderStartToFile) -> Seq<char> {
    line_recorder_start_to_file_head(x) + line_recorder_start_to_file_tail(x)
}

/// The wire line of a `RecorderStartToStream` command.
pub open spec fn line_recorder_start_to_stream(x: RecorderStartToStream) -> Seq<char> {
    "RecorderStartToStream"@ + " "@ + dec_of(x.recorder_id as nat) + " "@ + dec_of(x.transport_channel_id as nat) + (match x.audio_type { Some(v) => " AudioType="@ + dec_of(v.spec_code() as nat), None => Seq::<char>::empty() }) + (match x.sample_rate { Some(v) => " SampleRate="@ + dec_of(v as nat), None => Seq::<char>::empty() }) + (match x.max_duration { Some(v) => " MaxDuration="@ + dec_of(v as nat), None => Seq::<char>::empty() }) + (match x.max_silence { Some(v) => " MaxSilence="@ + dec_of(v as nat), None => Seq::<char>::empty() }) + (match x.voice_trigger { Some(v) => " VoiceTrigger="@ + (if v { "1"@ } else { "0"@ }), None => Seq::<char>::empty() }) + (match x.pause_if_empty { Some(v) => " PauseIfEmpty="@ + (if v { "1"@ } else { "0"@ }), None => Seq::<char>::empty() })
}

/// The wire line of a `RecorderStop` command.
pub open spec fn line_recorder_stop(x: RecorderStop) -> Seq<char> {
    "RecorderStop"@ + " "@ + dec_of(x.resource_id as nat)
}

/// The name and leading fields of a `RtpChannelStartReceiving` line.
pub open spec fn line_rtp_channel_start_receiving_head(x: RtpChannelStartReceiving) -> Seq<char> {
    "RtpChannelStartReceiving"@ + " "@ + dec_of(x.resource_id as nat) + (match x.sender_control_address { Some(v) => " SenderControlAddress="@ + v@, None => Seq::<char>::empty() }) + (match x.receiver_data_address { Some(v) => " ReceiverDataAddress="@ + v@, None => Seq::<char>::empty() }) + (match x.receiver_control_address { Some(v) => " ReceiverControlAddress="@ + v@, None => Seq::<char>::empty() }) + (match x.payload_type { Some(v) => " PayloadType="@ + dec_of(v.spec_code() as nat), None => Seq::<char>::empty() })
}

/// The trailing attributes of a `RtpChannelStartReceiving` line.
pub open spec fn line_rtp_channel_start_receiving_tail(x: RtpChannelStartReceiving) -> Seq<char> {
    (match x.rfc2833_payload_type { Some(v) => " Rfc2833PayloadType="@ + dec_of(v as nat), None => Seq::<char>::empty() }) + (match x.rtp_session_id { Some(v) => " RtpSessionId="@ + dec_of(v as nat), None => Seq::<char>::empty() }) + (match x.jitter_buffer_length_min { Some(v) => " JitterBufferLengthMin="@ + dec_of(v as nat), None => Seq::<char>::empty() }) + (match x.jitter_buffer_length_max { Some(v) => " JitterBufferLengthMax="@ + dec_of(v as nat), None => Seq::<char>::empty() })
}

/// The wire line of a `RtpChannelStartReceiving` command.
pub open spec fn line_rtp_channel_start_receiving(x: RtpChannelStartReceiving) -> Seq<char> {
    line_rtp_channel_start_receiving_head(x) + line_rtp_channel_start_receiving_tail(x)
}

/// The wire line of a `RtpChannelStartSending` command.
pub open spec fn line_rtp_channel_start_sending(x: RtpChannelStartSending) -> Seq<char> {
    "RtpChannelStartSending"@ + " "@ + dec_of(x.resource_id as nat) + " "@ + x.receiver_data_address@ + (match x.receiver_control_address { Some(v) => " ReceiverControlAddress="@ + v@, None => Seq::<char>::empty() }) + (match x.sender_data_address { Some(v) => " SenderDataAddress="@ + v@, None => Seq::<char>::empty() }) + (match x.sender_control_address { Some(v) => " SenderControlAddress="@ + v@, None => Seq::<char>::empty() }) + (match x.payload_type { Some(v) => " PayloadType="@ + dec_of(v.spec_code() as nat), None => Seq::<char>::empty() }) + (match x.rfc2833_payload_type { Some(v) => " Rfc2833PayloadType="@ + dec_of(v as nat), None => Seq::<char>::empty() }) + (match x.rtp_session_id { Some(v) => " RtpSessionId="@ + dec_of(v as nat), None => Seq::<char>::empty() })
}

/// The wire line of a `RtpChannelStop` command.
pub open spec fn line_rtp_channel_stop(x: RtpChannelStop) -> Seq<char> {
    "RtpChannelStop"@ + " "@ + dec_of(x.resource_id as nat)
}

/// The wire line of a `RtpChannelSendDTMF` command.
pub open spec fn line_rtp_channel_send_dtmf(x: RtpChannelSendDTMF) -> Seq<char> {
    "RtpChannelSendDTMF"@ + " "@ + dec_of(x.resource_id as nat) + " "@ + x.dtmf_string@ + (match x.duration { Some(v) => " Duration="@ + dec_of(v as nat), None => Seq::<char>::empty() }) + (match x.delay { Some(v) => " Delay="@ + dec_of(v as nat), None => Seq::<char>::empty() }) + (match x.pause_duration { Some(v) => " PauseDuration="@ + dec_of(v as nat), None => Seq::<char>::empty() })
}

/// The wire line of a `SoundDeviceStart` command.
pub open spec fn line_sound_device_start(x: SoundDeviceStart) -> Seq<char> {
    "SoundDeviceStart"@ + " "@ + dec_of(x.resource_id as nat)
}

/// The wire line of a `SoundDeviceStop` command.
pub open spec fn line_sound_device_stop(x: SoundDeviceStop) -> Seq<char> {
    "SoundDeviceStop"@ + " "@ + dec_of(x.resource_id as nat)
}

/// The wire line of a `FaxReceive` command.
pub open spec fn line_fax_receive(x: FaxReceive) -> Seq<char> {
    "FaxReceive"@ + " "@ + dec_of(x.fax_resource_id as nat) + " "@ + dec_of(x.frontend_resource_id as nat) + " "@ + dec_of(x.document_resource_id as nat) + (match x.fax_mode { Some(v) => " FaxMode="@ + dec_of(v.spec_code() as nat), None => Seq::<char>::empty() }) + (match x.use_ecm { Some(v) => " UseECM="@ + dec_of(v.spec_code() as nat), None => Seq::<char>::empty() }) + (match x.csi { Some(v) => " CSI="@ + v@, None => Seq::<char>::empty() })
}

/// The wire line of a `FaxSend` command.
pub open spec fn line_fax_send(x: FaxSend) -> Seq<char> {
    "FaxSend"@ + " "@ + dec_of(x.fax_resource_id as nat) + " "@ + dec_of(x.frontend_resource_id as nat) + " "@ + dec_of(x.document_resource_id as nat) + (match x.speed { Some(v) => " Speed="@ + dec_of(v.spec_code() as nat), None => Seq::<char>::empty() }) + (match x.use_ecm { Some(v) => " UseECM="@ + dec_of(v.spec_code() as nat), None => Seq::<char>::empty() }) + (match x.header { Some(v) => " Header="@ + v@, None => Seq::<char>::empty() }) + (match x.tsi { Some(v) => " TSI="@ + v@, None => Seq::<char>::empty() })
}

/// The wire line of a `FaxAbort` command.
pub open spec fn line_fax_abort(x: FaxAbort) -> Seq<char> {
    "FaxAbort"@ + " "@ + dec_of(x.resource_id as nat)
}

/// The wire line of a `DocumentAddFile` command.
pub open spec fn line_document_add_file(x: DocumentAddFile) -> Seq<char> {
    "DocumentAddFile"@ + " "@ + dec_of(x.resource_id as nat) + " "@ + x.file_path@ + (match x.transformation { Some(v) => " Transformation="@ + dec_of(v.spec_code() as nat), None => Seq::<char>::empty() })
}

/// The wire line of a `DocumentPrepare` command.
pub open spec fn line_document_prepare(x: DocumentPrepare) -> Seq<char> {
    "DocumentPrepare"@ + " "@ + dec_of(x.resource_id as nat) + (match x.paper_size { Some(v) => " PaperSize="@ + dec_of(v.spec_code() as nat), None => Seq::<char>::empty() }) + (match x.resolution { Some(v) => " Resolution="@ + dec_of(v.spec_code() as nat), None => Seq::<char>::empty() })
}

/// The wire line of a `DocumentSave` command.
pub open spec fn line_document_save(x: DocumentSave) -> Seq<char> {
    "DocumentSave"@ + " "@ + dec_of(x.resource_id as nat) + " "@ + x.file_path@ + (match x.multipage { Some(v) => " Multipage="@ + (if v { "1"@ } else { "0"@ }), None => Seq::<char>::empty() }) + (match x.document_type { Some(v) => " DocumentType="@ + dec_of(v.spec_code() as nat), None => Seq::<char>::empty() })
}

/// The wire line of a `DocumentClear` command.
pub open spec fn line_document_clear(x: DocumentClear) -> Seq<char> {
    "DocumentClear"@ + " "@ + dec_of(x.resource_id as nat)
}

/// The name and leading fields of a `AudioSend` line.
pub open spec fn line_audio_send_head(x: AudioSend) -> Seq<char> {
    "AudioSend"@ + " "@ + dec_of(x.source_resource_id as nat) + " "@ + dec_of(x.sink_resource_id as nat) + (match x.source_channel { Some(v) => " SourceChannel="@ + dec_of(v as nat), None => Seq::<char>::empty() }) + (match x.sink_channel { Some(v) => " SinkChannel="@ + dec_of(v as nat), None => Seq::<char>::empty() }) + (match x.volume { Some(v) => " Volume="@ + int_dec(v as int), None => Seq::<char>::empty() })
}

/// The trailing attributes of a `AudioSend` line.
pub open spec fn line_audio_send_tail(x: AudioSend) -> Seq<char> {
    (match x.auto_gain { Some(v) => " AutoGain="@ + (if v { "1"@ } else { "0"@ }), None => Seq::<char>::empty() }) + (match x.auto_gain_resolution { Some(v) => " AutoGainResolution="@ + dec_of(v as nat), None => Seq::<char>::empty() }) + (match x.auto_gain_rise_time { Some(v) => " AutoGainRiseTime="@ + dec_of(v as nat), None => Seq::<char>::empty() }) + (match x.auto_gain_fall_time { Some(v) => " AutoGainFallTime="@ + dec_of(v as nat), None => Seq::<char>::empty() }) + (match x.auto_gain_kill_time { Some(v) => " AutoGainKillTime="@ + dec_of(v as nat), None => Seq::<char>::empty() })
}

/// The wire line of a `AudioSend` command.
pub open spec fn line_audio_send(x: AudioSend) -> Seq<char> {
    line_audio_send_head(x) + line_audio_send_tail(x)
}

/// The wire line of a `AudioCancel` command.
pub open spec fn line_audio_cancel(x: AudioCancel) -> Seq<char> {
    "AudioCancel"@ + " "@ + dec_of(x.source_resource_id as nat) + " "@ + dec_of(x.sink_resource_id as nat)
}

/// The wire line of a `AudioLevelNotificationSend` command.
pub open spec fn line_audio_level_notification_send(x: AudioLevelNotificationSend) -> Seq<char> {
    "AudioLevelNotificationSend"@ + " "@ + dec_of(x.resource_id as nat) + (match x.resolution { Some(v) => " Resolution="@ + dec_of(v as nat), None => Seq::<char>::empty() }) + (match x.voice_dead_band { Some(v) => " VoiceDeadBand="@ + dec_of(v as nat), None => Seq::<char>::empty() }) + (match x.silence_dead_band { Some(v) => " SilenceDeadBand="@ + dec_of(v as nat), None => Seq::<char>::empty() }) + (match x.adaptive_period { Some(v) => " AdaptivePeriod="@ + dec_of(v as nat), None => Seq::<char>::empty() }) + (match x.voice_timer { Some(v) => " VoiceTimer="@ + dec_of(v as nat), None => Seq::<char>::empty() }) + (match x.silence_timer { Some(v) => " SilenceTimer="@ + dec_of(v as nat), None => Seq::<char>::empty() })
}

/// The wire line of a `AudioLevelNotificationCancel` command.
pub open spec fn line_audio_level_notification_cancel(x: AudioLevelNotificationCancel) -> Seq<char> {
    "AudioLevelNotificationCancel"@ + " "@ + dec_of(x.resource_id as nat)
}

/// The wire line of a `InBandSignalingDetectionEnable` command.
pub open spec fn line_in_band_signaling_detection_enable(x: InBandSignalingDetectionEnable) -> Seq<char> {
    "InBandSignalingDetectionEnable"@ + " "@ + dec_of(x.resource_id as nat)
}

/// The wire line of a `InBandSignalingDetectionDisable` command.
pub open spec fn line_in_band_signaling_detection_disable(x: InBandSignalingDetectionDisable) -> Seq<char> {
    "InBandSignalingDetectionDisable"@ + " "@ + dec_of(x.resource_id as nat)
}

/// The wire line of a `GetRtpStatistics` command.
pub open spec fn line_get_rtp_statistics(x: GetRtpStatistics) -> Seq<char> {
    "GetRtpStatistics"@ + " "@ + dec_of(x.resource_id as nat)
}

/// The canonical wire line of a command: the command name, required
/// fields space-separated in fixed order, then `Key=Value` for each
/// present optional field in fixed order. Booleans render as `1`/`0`,
/// enumerations as their wire code, numbers in canonical decimal. The
/// correlation tag is not part of this line; the connection appends it.
pub open spec fn command_line(c: Command) -> Seq<char> {
    match c {
        Command::ProtocolVersion(x) => line_protocol_version(x),
        Command::GetVersion(x) => line_get_version(x),
        Command::Login(x) => line_login(x),
        Command::Logout(x) => line_logout(x),
        Command::Quit(x) => line_quit(x),
        Command::ResourceCreateFrontEnd(x) => line_resource_create_front_end(x),
        Command::ResourceCreatePlayer(x) => line_resource_create_player(x),
        Command::ResourceCreateRecorder(x) => line_resource_create_recorder(x),
        Command::ResourceCreateTransportChannel(x) => line_resource_create_transport_channel(x),
        Command::ResourceCreateRtpChannel(x) => line_resource_create_rtp_channel(x),
        Command::ResourceCreateSoundDevice(x) => line_resource_create_sound_device(x),
        Command::ResourceCreateFax(x) => line_resource_create_fax(x),
        Command::ResourceCreateDocument(x) => line_resource_create_document(x),
        Command::ResourceDelete(x) => line_resource_delete(x),
        Command::ResourceGetStatus(x) => line_resource_get_status(x),
        Command::CallMake(x) => line_call_make(x),
        Command::CallAnswer(x) => line_call_answer(x),
        Command::CallClear(x) => line_call_clear(x),
        Command::CallTransferConsultation(x) => line_call_transfer_consultation(x),
        Command::CallTransferBlind(x) => line_call_transfer_blind(x),
        Command::CallHold(x) => line_call_hold(x),
        Command::CallRetrieve(x) => line_call_retrieve(x),
        Command::CallSendDTMF(x) => line_call_send_dtmf(x),
        Command::CallStopActivity(x) => line_call_stop_activity(x),
        Command::CallT38Relay(x) => line_call_t38_relay(x),
        Command::CallsSetAlertingType(x) => line_calls_set_alerting_type(x),
        Command::CallsSetAccepting(x) => line_calls_set_accepting(x),
        Command::PlayFile(x) => line_play_file(x),
        Command::PlayStream(x) => line_play_stream(x),
        Command::PlayTone(x) => line_play_tone(x),
        Command::PlayStop(x) => line_play_stop(x),
        Command::RecorderStartToFile(x) => line_recorder_start_to_file(x),
        Command::RecorderStartToStream(x) => line_recorder_start_to_stream(x),
        Command::RecorderStop(x) => line_recorder_stop(x),
        Command::RtpChannelStartReceiving(x) => line_rtp_channel_start_receiving(x),
        Command::RtpChannelStartSending(x) => line_rtp_channel_start_sending(x),
        Command::RtpChannelStop(x) => line_rtp_channel_stop(x),
        Command::RtpChannelSendDTMF(x) => line_rtp_channel_send_dtmf(x),
        Command::SoundDeviceStart(x) => line_sound_device_start(x),
        Command::SoundDeviceStop(x) => line_sound_device_stop(x),
        Command::FaxReceive(x) => line_fax_receive(x),
        Command::FaxSend(x) => line_fax_send(x),
        Command::FaxAbort(x) => line_fax_abort(x),
        Command::DocumentAddFile(x) => line_document_add_file(x),
        Command::DocumentPrepare(x) => line_document_prepare(x),
        Command::DocumentSave(x) => line_document_save(x),
        Command::DocumentClear(x) => line_document_clear(x),
        Command::AudioSend(x) => line_audio_send(x),
        Command::AudioCancel(x) => line_audio_cancel(x),
        Command::AudioLevelNotificationSend(x) => line_audio_level_notification_send(x),
        Command::AudioLevelNotificationCancel(x) => line_audio_level_notification_cancel(x),
        Command::InBandSignalingDetectionEnable(x) => line_in_band_signaling_detection_enable(x),
        Command::InBandSignalingDetectionDisable(x) => line_in_band_signaling_detection_disable(x),
        Command::GetRtpStatistics(x) => line_get_rtp_statistics(x),
    }
}
/// One required numeric field as it stands on the line: a space and the
/// number.
fn piece_pos_num(v: u64) -> (r: String)
    ensures
        r@ == " "@ + dec_of(v as nat),
{
    let mut s = String::from_str(" ");
    let t = u64_to_string(v);
    s.append(t.as_str());
    proof {
        assert(s@ =~= " "@ + dec_of(v as nat));
    }
    s
}

/// One required string field as it stands on the line: a space and the value.
fn piece_pos_str(v: &str) -> (r: String)
    ensures
        r@ == " "@ + v@,
{
    let mut s = String::from_str(" ");
    s.append(v);
    s
}

/// One required boolean field as it stands on the line.
fn piece_pos_bool(v: bool) -> (r: String)
    ensures
        r@ == " "@ + (if v {
            "1"@
        } else {
            "0"@
        }),
{
    let mut s = String::from_str(" ");
    s.append(if v { "1" } else { "0" });
    s
}

/// One required `Key=` string field as it stands on the line; `key` carries
/// the leading space and the `=`.
fn piece_kv_str(key: &str, v: &str) -> (r: String)
    ensures
        r@ == key@ + v@,
{
    let mut s = String::from_str(key);
    s.append(v);
    s
}

/// An optional trailing positional number: nothing when absent.
fn piece_opt_pos_num(v: Option<u8>) -> (r: String)
    ensures
        r@ == (match v {
            Some(n) => " "@ + dec_of(n as nat),
            None => Seq::<char>::empty(),
        }),
{
    match v {
        Some(n) => piece_pos_num(n as u64),
        None => String::new(),
    }
}

/// An optional `Key=Value` string attribute: nothing when absent.
fn piece_opt_str(key: &str, v: &Option<String>) -> (r: String)
    ensures
        r@ == (match *v {
            Some(t) => key@ + t@,
            None => Seq::<char>::empty(),
        }),
{
    match v {
        Some(t) => piece_kv_str(key, t.as_str()),
        None => String::new(),
    }
}

/// An optional `Key=Value` numeric attribute: nothing when absent.
fn piece_opt_num(key: &str, v: Option<u64>) -> (r: String)
    ensures
        r@ == (match v {
            Some(n) => key@ + dec_of(n as nat),
            None => Seq::<char>::empty(),
        }),
{
    match v {
        Some(n) => {
            let mut s = String::from_str(key);
            let t = u64_to_string(n);
            s.append(t.as_str());
            proof {
                assert(s@ =~= key@ + dec_of(n as nat));
            }
            s
        },
        None => String::new(),
    }
}

/// An optional `Key=Value` `u8` attribute: nothing when absent.
fn piece_opt_u8(key: &str, v: Option<u8>) -> (r: String)
    ensures
        r@ == (match v {
            Some(n) => key@ + dec_of(n as nat),
            None => Seq::<char>::empty(),
        }),
{
    match v {
        Some(n) => {
            let mut s = String::from_str(key);
            let t = u64_to_string(n as u64);
            s.append(t.as_str());
            proof {
                assert(s@ =~= key@ + dec_of(n as nat));
            }
            s
        },
        None => String::new(),
    }
}

/// An optional `Key=Value` `u16` attribute: nothing when absent.
fn piece_opt_u16(key: &str, v: Option<u16>) -> (r: String)
    ensures
        r@ == (match v {
            Some(n) => key@ + dec_of(n as nat),
            None => Seq::<char>::empty(),
        }),
{
    match v {
        Some(n) => {
            let mut s = String::from_str(key);
            let t = u64_to_string(n as u64);
            s.append(t.as_str());
            proof {
                assert(s@ =~= key@ + dec_of(n as nat));
            }
            s
        },
        None => String::new(),
    }
}

/// An optional `Key=Value` `u32` attribute: nothing when absent.
fn piece_opt_u32(key: &str, v: Option<u32>) -> (r: String)
    ensures
        r@ == (match v {
            Some(n) => key@ + dec_of(n as nat),
            None => Seq::<char>::empty(),
        }),
{
    match v {
        Some(n) => {
            let mut s = String::from_str(key);
            let t = u64_to_string(n as u64);
            s.append(t.as_str());
            proof {
                assert(s@ =~= key@ + dec_of(n as nat));
            }
            s
        },
        None => String::new(),
    }
}

/// An optional `Key=Value` `i16` attribute: nothing when absent.
fn piece_opt_i16(key: &str, v: Option<i16>) -> (r: String)
    ensures
        r@ == (match v {
            Some(n) => key@ + int_dec(n as int),
            None => Seq::<char>::empty(),
        }),
{
    match v {
        Some(n) => {
            let mut s = String::from_str(key);
            let t = i64_to_string(n as i64);
            s.append(t.as_str());
            proof {
                assert(s@ =~= key@ + int_dec(n as int));
            }
            s
        },
        None => String::new(),
    }
}

/// An optional `Key=Value` boolean attribute: nothing when absent.
fn piece_opt_bool(key: &str, v: Option<bool>) -> (r: String)
    ensures
        r@ == (match v {
            Some(b) => key@ + (if b {
                "1"@
            } else {
                "0"@
            }),
            None => Seq::<char>::empty(),
        }),
{
    match v {
        Some(b) => {
            let mut s = String::from_str(key);
            s.append(if b { "1" } else { "0" });
            s
        },
        None => String::new(),
    }
}

/// An optional `Key=Value` signed numeric attribute: nothing when absent.
fn piece_opt_int(key: &str, v: Option<i64>) -> (r: String)
    ensures
        r@ == (match v {
            Some(n) => key@ + int_dec(n as int),
            None => Seq::<char>::empty(),
        }),
{
    match v {
        Some(n) => {
            let mut s = String::from_str(key);
            let t = i64_to_string(n);
            s.append(t.as_str());
            proof {
                assert(s@ =~= key@ + int_dec(n as int));
            }
            s
        },
        None => String::new(),
    }
}

/// An optional `Key=Value` `AudioFormatType` attribute, rendered as its wire code.
fn piece_opt_audio_format_type(key: &str, v: Option<AudioFormatType>) -> (r: String)
    ensures
        r@ == (match v {
            Some(e) => key@ + dec_of(e.spec_code() as nat),
            None => Seq::<char>::empty(),
        }),
{
    match v {
        Some(e) => {
            let mut s = String::from_str(key);
            let t = u64_to_string(e.code() as u64);
            s.append(t.as_str());
            proof {
                assert(s@ =~= key@ + dec_of(e.spec_code() as nat));
            }
            s
        },
        None => String::new(),
    }
}

/// An optional `Key=Value` `Channels` attribute, rendered as its wire code.
fn piece_opt_channels(key: &str, v: Option<Channels>) -> (r: String)
    ensures
        r@ == (match v {
            Some(e) => key@ + dec_of(e.spec_code() as nat),
            None => Seq::<char>::empty(),
        }),
{
    match v {
        Some(e) => {
            let mut s = String::from_str(key);
            let t = u64_to_string(e.code() as u64);
            s.append(t.as_str());
            proof {
                assert(s@ =~= key@ + dec_of(e.spec_code() as nat));
            }
            s
        },
        None => String::new(),
    }
}

/// An optional `Key=Value` `ToneType` attribute, rendered as its wire code.
fn piece_opt_tone_type(key: &str, v: Option<ToneType>) -> (r: String)
    ensures
        r@ == (match v {
            Some(e) => key@ + dec_of(e.spec_code() as nat),
            None => Seq::<char>::empty(),
        }),
{
    match v {
        Some(e) => {
            let mut s = String::from_str(key);
            let t = u64_to_string(e.code() as u64);
            s.append(t.as_str());
            proof {
                assert(s@ =~= key@ + dec_of(e.spec_code() as nat));
            }
            s
        },
        None => String::new(),
    }
}

/// An optional `Key=Value` `PayloadType` attribute, rendered as its wire code.
fn piece_opt_payload_type(key: &str, v: Option<PayloadType>) -> (r: String)
    ensures
        r@ == (match v {
            Some(e) => key@ + dec_of(e.spec_code() as nat),
            None => Seq::<char>::empty(),
        }),
{
    match v {
        Some(e) => {
            let mut s = String::from_str(key);
            let t = u64_to_string(e.code() as u64);
            s.append(t.as_str());
            proof {
                assert(s@ =~= key@ + dec_of(e.spec_code() as nat));
            }
            s
        },
        None => String::new(),
    }
}

/// An optional `Key=Value` `FaxReceiveMode` attribute, rendered as its wire code.
fn piece_opt_fax_receive_mode(key: &str, v: Option<FaxReceiveMode>) -> (r: String)
    ensures
        r@ == (match v {
            Some(e) => key@ + dec_of(e.spec_code() as nat),
            None => Seq::<char>::empty(),
        }),
{
    match v {
        Some(e) => {
            let mut s = String::from_str(key);
            let t = u64_to_string(e.code() as u64);
            s.append(t.as_str());
            proof {
                assert(s@ =~= key@ + dec_of(e.spec_code() as nat));
            }
            s
        },
        None => String::new(),
    }
}

/// An optional `Key=Value` `ECM` attribute, rendered as its wire code.
fn piece_opt_ecm(key: &str, v: Option<ECM>) -> (r: String)
    ensures
        r@ == (match v {
            Some(e) => key@ + dec_of(e.spec_code() as nat),
            None => Seq::<char>::empty(),
        }),
{
    match v {
        Some(e) => {
            let mut s = String::from_str(key);
            let t = u64_to_string(e.code() as u64);
            s.append(t.as_str());
            proof {
                assert(s@ =~= key@ + dec_of(e.spec_code() as nat));
            }
            s
        },
        None => String::new(),
    }
}

/// An optional `Key=Value` `FaxSendSpeed` attribute, rendered as its wire code.
fn piece_opt_fax_send_speed(key: &str, v: Option<FaxSendSpeed>) -> (r: String)
    ensures
        r@ == (match v {
            Some(e) => key@ + dec_of(e.spec_code() as nat),
            None => Seq::<char>::empty(),
        }),
{
    match v {
        Some(e) => {
            let mut s = String::from_str(key);
            let t = u64_to_string(e.code() as u64);
            s.append(t.as_str());
            proof {
                assert(s@ =~= key@ + dec_of(e.spec_code() as nat));
            }
            s
        },
        None => String::new(),
    }
}

/// An optional `Key=Value` `DocumentAddFileTransformation` attribute, rendered as its wire code.
fn piece_opt_document_add_file_transformation(key: &str, v: Option<DocumentAddFileTransformation>) -> (r: String)
    ensures
        r@ == (match v {
            Some(e) => key@ + dec_of(e.spec_code() as nat),
            None => Seq::<char>::empty(),
        }),
{
    match v {
        Some(e) => {
            let mut s = String::from_str(key);
            let t = u64_to_string(e.code() as u64);
            s.append(t.as_str());
            proof {
                assert(s@ =~= key@ + dec_of(e.spec_code() as nat));
            }
            s
        },
        None => String::new(),
    }
}

/// An optional `Key=Value` `DocumentPreparePaperSize` attribute, rendered as its wire code.
fn piece_opt_document_prepare_paper_size(key: &str, v: Option<DocumentPreparePaperSize>) -> (r: String)
    ensures
        r@ == (match v {
            Some(e) => key@ + dec_of(e.spec_code() as nat),
            None => Seq::<char>::empty(),
        }),
{
    match v {
        Some(e) => {
            let mut s = String::from_str(key);
            let t = u64_to_string(e.code() as u64);
            s.append(t.as_str());
            proof {
                assert(s@ =~= key@ + dec_of(e.spec_code() as nat));
            }
            s
        },
        None => String::new(),
    }
}

/// An optional `Key=Value` `DocumentPrepareResolution` attribute, rendered as its wire code.
fn piece_opt_document_prepare_resolution(key: &str, v: Option<DocumentPrepareResolution>) -> (r: String)
    ensures
        r@ == (match v {
            Some(e) => key@ + dec_of(e.spec_code() as nat),
            None => Seq::<char>::empty(),
        }),
{
    match v {
        Some(e) => {
            let mut s = String::from_str(key);
            let t = u64_to_string(e.code() as u64);
            s.append(t.as_str());
            proof {
                assert(s@ =~= key@ + dec_of(e.spec_code() as nat));
            }
            s
        },
        None => String::new(),
    }
}

/// An optional `Key=Value` `DocumentSaveType` attribute, rendered as its wire code.
fn piece_opt_document_save_type(key: &str, v: Option<DocumentSaveType>) -> (r: String)
    ensures
        r@ == (match v {
            Some(e) => key@ + dec_of(e.spec_code() as nat),
            None => Seq::<char>::empty(),
        }),
{
    match v {
        Some(e) => {
            let mut s = String::from_str(key);
            let t = u64_to_string(e.code() as u64);
            s.append(t.as_str());
            proof {
                assert(s@ =~= key@ + dec_of(e.spec_code() as nat));
            }
            s
        },
        None => String::new(),
    }
}

/// Renders a `ProtocolVersion` command, as `line_protocol_version` describes.
fn encode_protocol_version(x: &ProtocolVersion) -> (r: String)
    ensures
        r@ == line_protocol_version(*x),
{
    let mut s = String::from_str("ProtocolVersion");
    proof {
        assert(s@ == line_protocol_version(*x));
    }
    s
}

/// Renders a `GetVersion` command, as `line_get_version` describes.
fn encode_get_version(x: &GetVersion) -> (r: String)
    ensures
        r@ == line_get_version(*x),
{
    let mut s = String::from_str("GetVersion");
    proof {
        assert(s@ == line_get_version(*x));
    }
    s
}

/// Renders a `Login` command, as `line_login` describes.
fn encode_login(x: &Login) -> (r: String)
    ensures
        r@ == line_login(*x),
{
    let mut s = String::from_str("Login");
    let p_username = piece_pos_str(x.username.as_str());
    s.append(p_username.as_str());
    let p_password = piece_pos_str(x.password.as_str());
    s.append(p_password.as_str());
    let p_protocol_major_version = piece_pos_num(x.protocol_major_version as u64);
    s.append(p_protocol_major_version.as_str());
    let p_protocol_minor_version = piece_pos_num(x.protocol_minor_version as u64);
    s.append(p_protocol_minor_version.as_str());
    let p_protocol_revision = piece_opt_pos_num(x.protocol_revision);
    s.append(p_protocol_revision.as_str());
    proof {
        assert(s@ == line_login(*x));
    }
    s
}

/// Renders a `Logout` command, as `line_logout` describes.
fn encode_logout(x: &Logout) -> (r: String)
    ensures
        r@ == line_logout(*x),
{
    let mut s = String::from_str("Logout");
    proof {
        assert(s@ == line_logout(*x));
    }
    s
}

/// Renders a `Quit` command, as `line_quit` describes.
fn encode_quit(x: &Quit) -> (r: String)
    ensures
        r@ == line_quit(*x),
{
    let mut s = String::from_str("Quit");
    proof {
        assert(s@ == line_quit(*x));
    }
    s
}

/// Renders a `ResourceCreateFrontEnd` command, as `line_resource_create_front_end` describes.
fn encode_resource_create_front_end(x: &ResourceCreateFrontEnd) -> (r: String)
    ensures
        r@ == line_resource_create_front_end(*x),
{
    let mut s = String::from_str("ResourceCreateFrontEnd");
    let p_reg_incoming_ani = piece_opt_str(" RegIncomingANI=", &x.reg_incoming_ani);
    s.append(p_reg_incoming_ani.as_str());
    let p_reg_incoming_dnis = piece_opt_str(" RegIncomingDNIS=", &x.reg_incoming_dnis);
    s.append(p_reg_incoming_dnis.as_str());
    let p_reg_incoming_rdn = piece_opt_str(" RegIncomingRDN=", &x.reg_incoming_rdn);
    s.append(p_reg_incoming_rdn.as_str());
    let p_accepting = piece_opt_bool(" Accepting=", x.accepting);
    s.append(p_accepting.as_str());
    proof {
        assert(s@ == line_resource_create_front_end(*x));
    }
    s
}

/// Renders a `ResourceCreatePlayer` command, as `line_resource_create_player` describes.
fn encode_resource_create_player(x: &ResourceCreatePlayer) -> (r: String)
    ensures
        r@ == line_resource_create_player(*x),
{
    let mut s = String::from_str("ResourceCreatePlayer");
    proof {
        assert(s@ == line_resource_create_player(*x));
    }
    s
}

/// Renders a `ResourceCreateRecorder` command, as `line_resource_create_recorder` describes.
fn encode_resource_create_recorder(x: &ResourceCreateRecorder) -> (r: String)
    ensures
        r@ == line_resource_create_recorder(*x),
{
    let mut s = String::from_str("ResourceCreateRecorder");
    proof {
        assert(s@ == line_resource_create_recorder(*x));
    }
    s
}

/// Renders a `ResourceCreateTransportChannel` command, as `line_resource_create_transport_channel` describes.
fn encode_resource_create_transport_channel(x: &ResourceCreateTransportChannel) -> (r: String)
    ensures
        r@ == line_resource_create_transport_channel(*x),
{
    let mut s = String::from_str("ResourceCreateTransportChannel");
    let p_transport_type = piece_pos_str(x.transport_type.as_str());
    s.append(p_transport_type.as_str());
    proof {
        assert(s@ == line_resource_create_transport_channel(*x));
    }
    s
}

/// Renders a `ResourceCreateRtpChannel` command, as `line_resource_create_rtp_channel` describes.
fn encode_resource_create_rtp_channel(x: &ResourceCreateRtpChannel) -> (r: String)
    ensures
        r@ == line_resource_create_rtp_channel(*x),
{
    let mut s = String::from_str("ResourceCreateRtpChannel");
    let p_in_band_dtmf_enabled = piece_opt_bool(" InBandDTMFEnabled=", x.in_band_dtmf_enabled);
    s.append(p_in_band_dtmf_enabled.as_str());
    proof {
        assert(s@ == line_resource_create_rtp_channel(*x));
    }
    s
}

/// Renders a `ResourceCreateSoundDevice` command, as `line_resource_create_sound_device` describes.
fn encode_resource_create_sound_device(x: &ResourceCreateSoundDevice) -> (r: String)
    ensures
        r@ == line_resource_create_sound_device(*x),
{
    let mut s = String::from_str("ResourceCreateSoundDevice");
    let p_direction = piece_kv_str(" Direction=", x.direction.as_str());
    s.append(p_direction.as_str());
    let p_device = piece_opt_str(" Device=", &x.device);
    s.append(p_device.as_str());
    let p_buffers = piece_opt_u8(" Buffers=", x.buffers);
    s.append(p_buffers.as_str());
    proof {
        assert(s@ == line_resource_create_sound_device(*x));
    }
    s
}

/// Renders a `ResourceCreateFax` command, as `line_resource_create_fax` describes.
fn encode_resource_create_fax(x: &ResourceCreateFax) -> (r: String)
    ensures
        r@ == line_resource_create_fax(*x),
{
    let mut s = String::from_str("ResourceCreateFax");
    proof {
        assert(s@ == line_resource_create_fax(*x));
    }
    s
}

/// Renders a `ResourceCreateDocument` command, as `line_resource_create_document` describes.
fn encode_resource_create_document(x: &ResourceCreateDocument) -> (r: String)
    ensures
        r@ == line_resource_create_document(*x),
{
    let mut s = String::from_str("ResourceCreateDocument");
    proof {
        assert(s@ == line_resource_create_document(*x));
    }
    s
}

/// Renders a `ResourceDelete` command, as `line_resource_delete` describes.
fn encode_resource_delete(x: &ResourceDelete) -> (r: String)
    ensures
        r@ == line_resource_delete(*x),
{
    let mut s = String::from_str("ResourceDelete");
    let p_resource_id = piece_pos_num(x.resource_id as u64);
    s.append(p_resource_id.as_str());
    proof {
        assert(s@ == line_resource_delete(*x));
    }
    s
}

/// Renders a `ResourceGetStatus` command, as `line_resource_get_status` describes.
fn encode_resource_get_status(x: &ResourceGetStatus) -> (r: String)
    ensures
        r@ == line_resource_get_status(*x),
{
    let mut s = String::from_str("ResourceGetStatus");
    let p_resource_id = piece_pos_num(x.resource_id as u64);
    s.append(p_resource_id.as_str());
    proof {
        assert(s@ == line_resource_get_status(*x));
    }
    s
}

/// Renders a `CallMake` command, as `line_call_make` describes.
fn encode_call_make(x: &CallMake) -> (r: String)
    ensures
        r@ == line_call_make(*x),
{
    let mut s = String::from_str("CallMake");
    let p_resource_id = piece_pos_num(x.resource_id as u64);
    s.append(p_resource_id.as_str());
    let p_address = piece_pos_str(x.address.as_str());
    s.append(p_address.as_str());
    let p_timeout = piece_opt_u32(" TimeOut=", x.timeout);
    s.append(p_timeout.as_str());
    let p_caller_number = piece_opt_str(" CallerNumber=", &x.caller_number);
    s.append(p_caller_number.as_str());
    let p_caller_name = piece_opt_str(" CallerName=", &x.caller_name);
    s.append(p_caller_name.as_str());
    let p_privacy = piece_opt_u8(" Privacy=", x.privacy);
    s.append(p_privacy.as_str());
    let p_screen = piece_opt_u8(" Screen=", x.screen);
    s.append(p_screen.as_str());
    proof {
        assert(s@ == line_call_make(*x));
    }
    s
}

/// Renders a `CallAnswer` command, as `line_call_answer` describes.
fn encode_call_answer(x: &CallAnswer) -> (r: String)
    ensures
        r@ == line_call_answer(*x),
{
    let mut s = String::from_str("CallAnswer");
    let p_resource_id = piece_pos_num(x.resource_id as u64);
    s.append(p_resource_id.as_str());
    proof {
        assert(s@ == line_call_answer(*x));
    }
    s
}

/// Renders a `CallClear` command, as `line_call_clear` describes.
fn encode_call_clear(x: &CallClear) -> (r: String)
    ensures
        r@ == line_call_clear(*x),
{
    let mut s = String::from_str("CallClear");
    let p_resource_id = piece_pos_num(x.resource_id as u64);
    s.append(p_resource_id.as_str());
    let p_reason = piece_opt_str(" Reason=", &x.reason);
    s.append(p_reason.as_str());
    proof {
        assert(s@ == line_call_clear(*x));
    }
    s
}

/// Renders a `CallTransferConsultation` command, as `line_call_transfer_consultation` describes.
fn encode_call_transfer_consultation(x: &CallTransferConsultation) -> (r: String)
    ensures
        r@ == line_call_transfer_consultation(*x),
{
    let mut s = String::from_str("CallTransferConsultation");
    let p_resource_id1 = piece_pos_num(x.resource_id1 as u64);
    s.append(p_resource_id1.as_str());
    let p_resource_id2 = piece_pos_num(x.resource_id2 as u64);
    s.append(p_resource_id2.as_str());
    proof {
        assert(s@ == line_call_transfer_consultation(*x));
    }
    s
}

/// Renders a `CallTransferBlind` command, as `line_call_transfer_blind` describes.
fn encode_call_transfer_blind(x: &CallTransferBlind) -> (r: String)
    ensures
        r@ == line_call_transfer_blind(*x),
{
    let mut s = String::from_str("CallTransferBlind");
    let p_resource_id = piece_pos_num(x.resource_id as u64);
    s.append(p_resource_id.as_str());
    let p_address = piece_pos_str(x.address.as_str());
    s.append(p_address.as_str());
    let p_use_h450 = piece_opt_u8(" UseH450=", x.use_h450);
    s.append(p_use_h450.as_str());
    proof {
        assert(s@ == line_call_transfer_blind(*x));
    }
    s
}

/// Renders a `CallHold` command, as `line_call_hold` describes.
fn encode_call_hold(x: &CallHold) -> (r: String)
    ensures
        r@ == line_call_hold(*x),
{
    let mut s = String::from_str("CallHold");
    let p_resource_id = piece_pos_num(x.resource_id as u64);
    s.append(p_resource_id.as_str());
    proof {
        assert(s@ == line_call_hold(*x));
    }
    s
}

/// Renders a `CallRetrieve` command, as `line_call_retrieve` describes.
fn encode_call_retrieve(x: &CallRetrieve) -> (r: String)
    ensures
        r@ == line_call_retrieve(*x),
{
    let mut s = String::from_str("CallRetrieve");
    let p_resource_id = piece_pos_num(x.resource_id as u64);
    s.append(p_resource_id.as_str());
    proof {
        assert(s@ == line_call_retrieve(*x));
    }
    s
}

/// Renders a `CallSendDTMF` command, as `line_call_send_dtmf` describes.
fn encode_call_send_dtmf(x: &CallSendDTMF) -> (r: String)
    ensures
        r@ == line_call_send_dtmf(*x),
{
    let mut s = String::from_str("CallSendDTMF");
    let p_resource_id = piece_pos_num(x.resource_id as u64);
    s.append(p_resource_id.as_str());
    let p_dtmf_string = piece_pos_str(x.dtmf_string.as_str());
    s.append(p_dtmf_string.as_str());
    let p_duration = piece_opt_u32(" Duration=", x.duration);
    s.append(p_duration.as_str());
    let p_delay = piece_opt_u32(" Delay=", x.delay);
    s.append(p_delay.as_str());
    let p_pause_duration = piece_opt_u32(" PauseDuration=", x.pause_duration);
    s.append(p_pause_duration.as_str());
    proof {
        assert(s@ == line_call_send_dtmf(*x));
    }
    s
}

/// Renders a `CallStopActivity` command, as `line_call_stop_activity` describes.
fn encode_call_stop_activity(x: &CallStopActivity) -> (r: String)
    ensures
        r@ == line_call_stop_activity(*x),
{
    let mut s = String::from_str("CallStopActivity");
    let p_resource_id = piece_pos_num(x.resource_id as u64);
    s.append(p_resource_id.as_str());
    proof {
        assert(s@ == line_call_stop_activity(*x));
    }
    s
}

/// Renders a `CallT38Relay` command, as `line_call_t38_relay` describes.
fn encode_call_t38_relay(x: &CallT38Relay) -> (r: String)
    ensures
        r@ == line_call_t38_relay(*x),
{
    let mut s = String::from_str("CallT38Relay");
    let p_resource_id1 = piece_pos_num(x.resource_id1 as u64);
    s.append(p_resource_id1.as_str());
    let p_resource_id2 = piece_pos_num(x.resource_id2 as u64);
    s.append(p_resource_id2.as_str());
    proof {
        assert(s@ == line_call_t38_relay(*x));
    }
    s
}

/// Renders a `CallsSetAlertingType` command, as `line_calls_set_alerting_type` describes.
fn encode_calls_set_alerting_type(x: &CallsSetAlertingType) -> (r: String)
    ensures
        r@ == line_calls_set_alerting_type(*x),
{
    let mut s = String::from_str("CallsSetAlertingType");
    let p_resource_id = piece_pos_num(x.resource_id as u64);
    s.append(p_resource_id.as_str());
    let p_alerting_type = piece_pos_str(x.alerting_type.as_str());
    s.append(p_alerting_type.as_str());
    proof {
        assert(s@ == line_calls_set_alerting_type(*x));
    }
    s
}

/// Renders a `CallsSetAccepting` command, as `line_calls_set_accepting` describes.
fn encode_calls_set_accepting(x: &CallsSetAccepting) -> (r: String)
    ensures
        r@ == line_calls_set_accepting(*x),
{
    let mut s = String::from_str("CallsSetAccepting");
    let p_resource_id = piece_pos_num(x.resource_id as u64);
    s.append(p_resource_id.as_str());
    let p_accepting = piece_pos_bool(x.accepting);
    s.append(p_accepting.as_str());
    proof {
        assert(s@ == line_calls_set_accepting(*x));
    }
    s
}

/// Renders a `PlayFile` command, as `line_play_file` describes.
#[verifier::rlimit(100)]
fn encode_play_file(x: &PlayFile) -> (r: String)
    ensures
        r@ == line_play_file(*x),
{
    let mut s = String::from_str("PlayFile");
    let p_resource_id = piece_pos_num(x.resource_id as u64);
    s.append(p_resource_id.as_str());
    let p_file_name = piece_pos_str(x.file_name.as_str());
    s.append(p_file_name.as_str());
    let p_audio_type = piece_opt_audio_format_type(" AudioType=", x.audio_type);
    s.append(p_audio_type.as_str());
    let p_sample_rate = piece_opt_u16(" SampleRate=", x.sample_rate);
    s.append(p_sample_rate.as_str());
    let p_channels = piece_opt_channels(" Channels=", x.channels);
    s.append(p_channels.as_str());
    let p_index = piece_opt_u32(" Index=", x.index);
    s.append(p_index.as_str());
    let p_skip_bytes = piece_opt_int(" SkipBytes=", x.skip_bytes);
    s.append(p_skip_bytes.as_str());
    proof {
        assert(s@ == line_play_file(*x));
    }
    s
}

/// Renders a `PlayStream` command, as `line_play_stream` describes.
fn encode_play_stream(x: &PlayStream) -> (r: String)
    ensures
        r@ == line_play_stream(*x),
{
    let mut s = String::from_str("PlayStream");
    let p_player_id = piece_pos_num(x.player_id as u64);
    s.append(p_player_id.as_str());
    let p_transport_channel_id = piece_pos_num(x.transport_channel_id as u64);
    s.append(p_transport_channel_id.as_str());
    let p_audio_type = piece_opt_audio_format_type(" AudioType=", x.audio_type);
    s.append(p_audio_type.as_str());
    let p_sample_rate = piece_opt_u16(" SampleRate=", x.sample_rate);
    s.append(p_sample_rate.as_str());
    let p_buffer_optimum_size = piece_opt_u32(" BufferOptimumSize=", x.buffer_optimum_size);
    s.append(p_buffer_optimum_size.as_str());
    proof {
        assert(s@ == line_play_stream(*x));
    }
    s
}

/// Renders a `PlayTone` command, as `line_play_tone` describes.
fn encode_play_tone(x: &PlayTone) -> (r: String)
    ensures
        r@ == line_play_tone(*x),
{
    let mut s = String::from_str("PlayTone");
    let p_resource_id = piece_pos_num(x.resource_id as u64);
    s.append(p_resource_id.as_str());
    let p_frequency = piece_opt_u16(" Frequency=", x.frequency);
    s.append(p_frequency.as_str());
    let p_frequency2 = piece_opt_u16(" Frequency2=", x.frequency2);
    s.append(p_frequency2.as_str());
    let p_tone = piece_opt_tone_type(" Tone=", x.tone);
    s.append(p_tone.as_str());
    let p_volume = piece_opt_u8(" Volume=", x.volume);
    s.append(p_volume.as_str());
    let p_duration = piece_opt_u16(" Duration=", x.duration);
    s.append(p_duration.as_str());
    proof {
        assert(s@ == line_play_tone(*x));
    }
    s
}

/// Renders a `PlayStop` command, as `line_play_stop` describes.
fn encode_play_stop(x: &PlayStop) -> (r: String)
    ensures
        r@ == line_play_stop(*x),
{
    let mut s = String::from_str("PlayStop");
    let p_resource_id = piece_pos_num(x.resource_id as u64);
    s.append(p_resource_id.as_str());
    proof {
        assert(s@ == line_play_stop(*x));
    }
    s
}

/// Renders a `RecorderStartToFile` command, as `line_recorder_start_to_file` describes.
fn encode_recorder_start_to_file(x: &RecorderStartToFile) -> (r: String)
    ensures
        r@ == line_recorder_start_to_file(*x),
{
    let mut s = String::from_str("RecorderStartToFile");
    let p_resource_id = piece_pos_num(x.resource_id as u64);
    s.append(p_resource_id.as_str());
    let p_file_name = piece_pos_str(x.file_name.as_str());
    s.append(p_file_name.as_str());
    let p_audio_type = piece_opt_audio_format_type(" AudioType=", x.audio_type);
    s.append(p_audio_type.as_str());
    let p_sample_rate = piece_opt_u16(" SampleRate=", x.sample_rate);
    s.append(p_sample_rate.as_str());
    let p_channels = piece_opt_channels(" Channels=", x.channels);
    s.append(p_channels.as_str());
    proof {
        assert(s@ == line_recorder_start_to_file_head(*x));
    }
    let t = encode_recorder_start_to_file_tail(x);
    s.append(t.as_str());
    s
}

/// Renders the trailing attributes of a `RecorderStartToFile` line.
fn encode_recorder_start_to_file_tail(x: &RecorderStartToFile) -> (r: String)
    ensures
        r@ == line_recorder_start_to_file_tail(*x),
{
    let mut s = piece_opt_int(" FileOffset=", x.file_offset);
    let p_max_duration = piece_opt_u32(" MaxDuration=", x.max_duration);
    s.append(p_max_duration.as_str());
    let p_max_silence = piece_opt_u32(" MaxSilence=", x.max_silence);
    s.append(p_max_silence.as_str());
    let p_voice_trigger = piece_opt_bool(" VoiceTrigger=", x.voice_trigger);
    s.append(p_voice_trigger.as_str());
    let p_pause_if_empty = piece_opt_bool(" PauseIfEmpty=", x.pause_if_empty);
    s.append(p_pause_if_empty.as_str());
    proof {
        assert(s@ == line_recorder_start_to_file_tail(*x));
    }
    s
}


/// Renders a `RecorderStartToStream` command, as `line_recorder_start_to_stream` describes.
#[verifier::rlimit(100)]
fn encode_recorder_start_to_stream(x: &RecorderStartToStream) -> (r: String)
    ensures
        r@ == line_recorder_start_to_stream(*x),
{
    let mut s = String::from_str("RecorderStartToStream");
    let p_recorder_id = piece_pos_num(x.recorder_id as u64);
    s.append(p_recorder_id.as_str());
    let p_transport_channel_id = piece_pos_num(x.transport_channel_id as u64);
    s.append(p_transport_channel_id.as_str());
    let p_audio_type = piece_opt_audio_format_type(" AudioType=", x.audio_type);
    s.append(p_audio_type.as_str());
    let p_sample_rate = piece_opt_u16(" SampleRate=", x.sample_rate);
    s.append(p_sample_rate.as_str());
    let p_max_duration = piece_opt_u32(" MaxDuration=", x.max_duration);
    s.append(p_max_duration.as_str());
    let p_max_silence = piece_opt_u32(" MaxSilence=", x.max_silence);
    s.append(p_max_silence.as_str());
    let p_voice_trigger = piece_opt_bool(" VoiceTrigger=", x.voice_trigger);
    s.append(p_voice_trigger.as_str());
    let p_pause_if_empty = piece_opt_bool(" PauseIfEmpty=", x.pause_if_empty);
    s.append(p_pause_if_empty.as_str());
    proof {
        assert(s@ == line_recorder_start_to_stream(*x));
    }
    s
}

/// Renders a `RecorderStop` command, as `line_recorder_stop` describes.
fn encode_recorder_stop(x: &RecorderStop) -> (r: String)
    ensures
        r@ == line_recorder_stop(*x),
{
    let mut s = String::from_str("RecorderStop");
    let p_resource_id = piece_pos_num(x.resource_id as u64);
    s.append(p_resource_id.as_str());
    proof {
        assert(s@ == line_recorder_stop(*x));
    }
    s
}

/// Renders a `RtpChannelStartReceiving` command, as `line_rtp_channel_start_receiving` describes.
fn encode_rtp_channel_start_receiving(x: &RtpChannelStartReceiving) -> (r: String)
    ensures
        r@ == line_rtp_channel_start_receiving(*x),
{
    let mut s = String::from_str("RtpChannelStartReceiving");
    let p_resource_id = piece_pos_num(x.resource_id as u64);
    s.append(p_resource_id.as_str());
    let p_sender_control_address = piece_opt_str(" SenderControlAddress=", &x.sender_control_address);
    s.append(p_sender_control_address.as_str());
    let p_receiver_data_address = piece_opt_str(" ReceiverDataAddress=", &x.receiver_data_address);
    s.append(p_receiver_data_address.as_str());
    let p_receiver_control_address = piece_opt_str(" ReceiverControlAddress=", &x.receiver_control_address);
    s.append(p_receiver_control_address.as_str());
    let p_payload_type = piece_opt_payload_type(" PayloadType=", x.payload_type);
    s.append(p_payload_type.as_str());
    proof {
        assert(s@ == line_rtp_channel_start_receiving_head(*x));
    }
    let t = encode_rtp_channel_start_receiving_tail(x);
    s.append(t.as_str());
    s
}

/// Renders the trailing attributes of a `RtpChannelStartReceiving` line.
fn encode_rtp_channel_start_receiving_tail(x: &RtpChannelStartReceiving) -> (r: String)
    ensures
        r@ == line_rtp_channel_start_receiving_tail(*x),
{
    let mut s = piece_opt_u8(" Rfc2833PayloadType=", x.rfc2833_payload_type);
    let p_rtp_session_id = piece_opt_u8(" RtpSessionId=", x.rtp_session_id);
    s.append(p_rtp_session_id.as_str());
    let p_jitter_buffer_length_min = piece_opt_u16(" JitterBufferLengthMin=", x.jitter_buffer_length_min);
    s.append(p_jitter_buffer_length_min.as_str());
    let p_jitter_buffer_length_max = piece_opt_u16(" JitterBufferLengthMax=", x.jitter_buffer_length_max);
    s.append(p_jitter_buffer_length_max.as_str());
    proof {
        assert(s@ == line_rtp_channel_start_receiving_tail(*x));
    }
    s
}


/// Renders a `RtpChannelStartSending` command, as `line_rtp_channel_start_sending` describes.
#[verifier::rlimit(100)]
fn encode_rtp_channel_start_sending(x: &RtpChannelStartSending) -> (r: String)
    ensures
        r@ == line_rtp_channel_start_sending(*x),
{
    let mut s = String::from_str("RtpChannelStartSending");
    let p_resource_id = piece_pos_num(x.resource_id as u64);
    s.append(p_resource_id.as_str());
    let p_receiver_data_address = piece_pos_str(x.receiver_data_address.as_str());
    s.append(p_receiver_data_address.as_str());
    let p_receiver_control_address = piece_opt_str(" ReceiverControlAddress=", &x.receiver_control_address);
    s.append(p_receiver_control_address.as_str());
    let p_sender_data_address = piece_opt_str(" SenderDataAddress=", &x.sender_data_address);
    s.append(p_sender_data_address.as_str());
    let p_sender_control_address = piece_opt_str(" SenderControlAddress=", &x.sender_control_address);
    s.append(p_sender_control_address.as_str());
    let p_payload_type = piece_opt_payload_type(" PayloadType=", x.payload_type);
    s.append(p_payload_type.as_str());
    let p_rfc2833_payload_type = piece_opt_u8(" Rfc2833PayloadType=", x.rfc2833_payload_type);
    s.append(p_rfc2833_payload_type.as_str());
    let p_rtp_session_id = piece_opt_u8(" RtpSessionId=", x.rtp_session_id);
    s.append(p_rtp_session_id.as_str());
    proof {
        assert(s@ == line_rtp_channel_start_sending(*x));
    }
    s
}

/// Renders a `RtpChannelStop` command, as `line_rtp_channel_stop` describes.
fn encode_rtp_channel_stop(x: &RtpChannelStop) -> (r: String)
    ensures
        r@ == line_rtp_channel_stop(*x),
{
    let mut s = String::from_str("RtpChannelStop");
    let p_resource_id = piece_pos_num(x.resource_id as u64);
    s.append(p_resource_id.as_str());
    proof {
        assert(s@ == line_rtp_channel_stop(*x));
    }
    s
}

/// Renders a `RtpChannelSendDTMF` command, as `line_rtp_channel_send_dtmf` describes.
#[verifier::rlimit(100)]
fn encode_rtp_channel_send_dtmf(x: &RtpChannelSendDTMF) -> (r: String)
    ensures
        r@ == line_rtp_channel_send_dtmf(*x),
{
    let mut s = String::from_str("RtpChannelSendDTMF");
    let p_resource_id = piece_pos_num(x.resource_id as u64);
    s.append(p_resource_id.as_str());
    let p_dtmf_string = piece_pos_str(x.dtmf_string.as_str());
    s.append(p_dtmf_string.as_str());
    let p_duration = piece_opt_u32(" Duration=", x.duration);
    s.append(p_duration.as_str());
    let p_delay = piece_opt_u32(" Delay=", x.delay);
    s.append(p_delay.as_str());
    let p_pause_duration = piece_opt_u32(" PauseDuration=", x.pause_duration);
    s.append(p_pause_duration.as_str());
    proof {
        assert(s@ == line_rtp_channel_send_dtmf(*x));
    }
    s
}

/// Renders a `SoundDeviceStart` command, as `line_sound_device_start` describes.
fn encode_sound_device_start(x: &SoundDeviceStart) -> (r: String)
    ensures
        r@ == line_sound_device_start(*x),
{
    let mut s = String::from_str("SoundDeviceStart");
    let p_resource_id = piece_pos_num(x.resource_id as u64);
    s.append(p_resource_id.as_str());
    proof {
        assert(s@ == line_sound_device_start(*x));
    }
    s
}

/// Renders a `SoundDeviceStop` command, as `line_sound_device_stop` describes.
fn encode_sound_device_stop(x: &SoundDeviceStop) -> (r: String)
    ensures
        r@ == line_sound_device_stop(*x),
{
    let mut s = String::from_str("SoundDeviceStop");
    let p_resource_id = piece_pos_num(x.resource_id as u64);
    s.append(p_resource_id.as_str());
    proof {
        assert(s@ == line_sound_device_stop(*x));
    }
    s
}

/// Renders a `FaxReceive` command, as `line_fax_receive` describes.
fn encode_fax_receive(x: &FaxReceive) -> (r: String)
    ensures
        r@ == line_fax_receive(*x),
{
    let mut s = String::from_str("FaxReceive");
    let p_fax_resource_id = piece_pos_num(x.fax_resource_id as u64);
    s.append(p_fax_resource_id.as_str());
    let p_frontend_resource_id = piece_pos_num(x.frontend_resource_id as u64);
    s.append(p_frontend_resource_id.as_str());
    let p_document_resource_id = piece_pos_num(x.document_resource_id as u64);
    s.append(p_document_resource_id.as_str());
    let p_fax_mode = piece_opt_fax_receive_mode(" FaxMode=", x.fax_mode);
    s.append(p_fax_mode.as_str());
    let p_use_ecm = piece_opt_ecm(" UseECM=", x.use_ecm);
    s.append(p_use_ecm.as_str());
    let p_csi = piece_opt_str(" CSI=", &x.csi);
    s.append(p_csi.as_str());
    proof {
        assert(s@ == line_fax_receive(*x));
    }
    s
}

/// Renders a `FaxSend` command, as `line_fax_send` describes.
fn encode_fax_send(x: &FaxSend) -> (r: String)
    ensures
        r@ == line_fax_send(*x),
{
    let mut s = String::from_str("FaxSend");
    let p_fax_resource_id = piece_pos_num(x.fax_resource_id as u64);
    s.append(p_fax_resource_id.as_str());
    let p_frontend_resource_id = piece_pos_num(x.frontend_resource_id as u64);
    s.append(p_frontend_resource_id.as_str());
    let p_document_resource_id = piece_pos_num(x.document_resource_id as u64);
    s.append(p_document_resource_id.as_str());
    let p_speed = piece_opt_fax_send_speed(" Speed=", x.speed);
    s.append(p_speed.as_str());
    let p_use_ecm = piece_opt_ecm(" UseECM=", x.use_ecm);
    s.append(p_use_ecm.as_str());
    let p_header = piece_opt_str(" Header=", &x.header);
    s.append(p_header.as_str());
    let p_tsi = piece_opt_str(" TSI=", &x.tsi);
    s.append(p_tsi.as_str());
    proof {
        assert(s@ == line_fax_send(*x));
    }
    s
}

/// Renders a `FaxAbort` command, as `line_fax_abort` describes.
fn encode_fax_abort(x: &FaxAbort) -> (r: String)
    ensures
        r@ == line_fax_abort(*x),
{
    let mut s = String::from_str("FaxAbort");
    let p_resource_id = piece_pos_num(x.resource_id as u64);
    s.append(p_resource_id.as_str());
    proof {
        assert(s@ == line_fax_abort(*x));
    }
    s
}

/// Renders a `DocumentAddFile` command, as `line_document_add_file` describes.
fn encode_document_add_file(x: &DocumentAddFile) -> (r: String)
    ensures
        r@ == line_document_add_file(*x),
{
    let mut s = String::from_str("DocumentAddFile");
    let p_resource_id = piece_pos_num(x.resource_id as u64);
    s.append(p_resource_id.as_str());
    let p_file_path = piece_pos_str(x.file_path.as_str());
    s.append(p_file_path.as_str());
    let p_transformation = piece_opt_document_add_file_transformation(" Transformation=", x.transformation);
    s.append(p_transformation.as_str());
    proof {
        assert(s@ == line_document_add_file(*x));
    }
    s
}

/// Renders a `DocumentPrepare` command, as `line_document_prepare` describes.
fn encode_document_prepare(x: &DocumentPrepare) -> (r: String)
    ensures
        r@ == line_document_prepare(*x),
{
    let mut s = String::from_str("DocumentPrepare");
    let p_resource_id = piece_pos_num(x.resource_id as u64);
    s.append(p_resource_id.as_str());
    let p_paper_size = piece_opt_document_prepare_paper_size(" PaperSize=", x.paper_size);
    s.append(p_paper_size.as_str());
    let p_resolution = piece_opt_document_prepare_resolution(" Resolution=", x.resolution);
    s.append(p_resolution.as_str());
    proof {
        assert(s@ == line_document_prepare(*x));
    }
    s
}

/// Renders a `DocumentSave` command, as `line_document_save` describes.
fn encode_document_save(x: &DocumentSave) -> (r: String)
    ensures
        r@ == line_document_save(*x),
{
    let mut s = String::from_str("DocumentSave");
    let p_resource_id = piece_pos_num(x.resource_id as u64);
    s.append(p_resource_id.as_str());
    let p_file_path = piece_pos_str(x.file_path.as_str());
    s.append(p_file_path.as_str());
    let p_multipage = piece_opt_bool(" Multipage=", x.multipage);
    s.append(p_multipage.as_str());
    let p_document_type = piece_opt_document_save_type(" DocumentType=", x.document_type);
    s.append(p_document_type.as_str());
    proof {
        assert(s@ == line_document_save(*x));
    }
    s
}

/// Renders a `DocumentClear` command, as `line_document_clear` describes.
fn encode_document_clear(x: &DocumentClear) -> (r: String)
    ensures
        r@ == line_document_clear(*x),
{
    let mut s = String::from_str("DocumentClear");
    let p_resource_id = piece_pos_num(x.resource_id as u64);
    s.append(p_resource_id.as_str());
    proof {
        assert(s@ == line_document_clear(*x));
    }
    s
}

/// Renders a `AudioSend` command, as `line_audio_send` describes.
fn encode_audio_send(x: &AudioSend) -> (r: String)
    ensures
        r@ == line_audio_send(*x),
{
    let mut s = String::from_str("AudioSend");
    let p_source_resource_id = piece_pos_num(x.source_resource_id as u64);
    s.append(p_source_resource_id.as_str());
    let p_sink_resource_id = piece_pos_num(x.sink_resource_id as u64);
    s.append(p_sink_resource_id.as_str());
    let p_source_channel = piece_opt_u8(" SourceChannel=", x.source_channel);
    s.append(p_source_channel.as_str());
    let p_sink_channel = piece_opt_u8(" SinkChannel=", x.sink_channel);
    s.append(p_sink_channel.as_str());
    let p_volume = piece_opt_i16(" Volume=", x.volume);
    s.append(p_volume.as_str());
    proof {
        assert(s@ == line_audio_send_head(*x));
    }
    let t = encode_audio_send_tail(x);
    s.append(t.as_str());
    s
}

/// Renders the trailing attributes of a `AudioSend` line.
fn encode_audio_send_tail(x: &AudioSend) -> (r: String)
    ensures
        r@ == line_audio_send_tail(*x),
{
    let mut s = piece_opt_bool(" AutoGain=", x.auto_gain);
    let p_auto_gain_resolution = piece_opt_u16(" AutoGainResolution=", x.auto_gain_resolution);
    s.append(p_auto_gain_resolution.as_str());
    let p_auto_gain_rise_time = piece_opt_u16(" AutoGainRiseTime=", x.auto_gain_rise_time);
    s.append(p_auto_gain_rise_time.as_str());
    let p_auto_gain_fall_time = piece_opt_u16(" AutoGainFallTime=", x.auto_gain_fall_time);
    s.append(p_auto_gain_fall_time.as_str());
    let p_auto_gain_kill_time = piece_opt_u16(" AutoGainKillTime=", x.auto_gain_kill_time);
    s.append(p_auto_gain_kill_time.as_str());
    proof {
        assert(s@ == line_audio_send_tail(*x));
    }
    s
}


/// Renders a `AudioCancel` command, as `line_audio_cancel` describes.
fn encode_audio_cancel(x: &AudioCancel) -> (r: String)
    ensures
        r@ == line_audio_cancel(*x),
{
    let mut s = String::from_str("AudioCancel");
    let p_source_resource_id = piece_pos_num(x.source_resource_id as u64);
    s.append(p_source_resource_id.as_str());
    let p_sink_resource_id = piece_pos_num(x.sink_resource_id as u64);
    s.append(p_sink_resource_id.as_str());
    proof {
        assert(s@ == line_audio_cancel(*x));
    }
    s
}

/// Renders a `AudioLevelNotificationSend` command, as `line_audio_level_notification_send` describes.
#[verifier::rlimit(100)]
fn encode_audio_level_notification_send(x: &AudioLevelNotificationSend) -> (r: String)
    ensures
        r@ == line_audio_level_notification_send(*x),
{
    let mut s = String::from_str("AudioLevelNotificationSend");
    let p_resource_id = piece_pos_num(x.resource_id as u64);
    s.append(p_resource_id.as_str());
    let p_resolution = piece_opt_u16(" Resolution=", x.resolution);
    s.append(p_resolution.as_str());
    let p_voice_dead_band = piece_opt_u16(" VoiceDeadBand=", x.voice_dead_band);
    s.append(p_voice_dead_band.as_str());
    let p_silence_dead_band = piece_opt_u16(" SilenceDeadBand=", x.silence_dead_band);
    s.append(p_silence_dead_band.as_str());
    let p_adaptive_period = piece_opt_u16(" AdaptivePeriod=", x.adaptive_period);
    s.append(p_adaptive_period.as_str());
    let p_voice_timer = piece_opt_u16(" VoiceTimer=", x.voice_timer);
    s.append(p_voice_timer.as_str());
    let p_silence_timer = piece_opt_u16(" SilenceTimer=", x.silence_timer);
    s.append(p_silence_timer.as_str());
    proof {
        assert(s@ == line_audio_level_notification_send(*x));
    }
    s
}

/// Renders a `AudioLevelNotificationCancel` command, as `line_audio_level_notification_cancel` describes.
fn encode_audio_level_notification_cancel(x: &AudioLevelNotificationCancel) -> (r: String)
    ensures
        r@ == line_audio_level_notification_cancel(*x),
{
    let mut s = String::from_str("AudioLevelNotificationCancel");
    let p_resource_id = piece_pos_num(x.resource_id as u64);
    s.append(p_resource_id.as_str());
    proof {
        assert(s@ == line_audio_level_notification_cancel(*x));
    }
    s
}

/// Renders a `InBandSignalingDetectionEnable` command, as `line_in_band_signaling_detection_enable` describes.
fn encode_in_band_signaling_detection_enable(x: &InBandSignalingDetectionEnable) -> (r: String)
    ensures
        r@ == line_in_band_signaling_detection_enable(*x),
{
    let mut s = String::from_str("InBandSignalingDetectionEnable");
    let p_resource_id = piece_pos_num(x.resource_id as u64);
    s.append(p_resource_id.as_str());
    proof {
        assert(s@ == line_in_band_signaling_detection_enable(*x));
    }
    s
}

/// Renders a `InBandSignalingDetectionDisable` command, as `line_in_band_signaling_detection_disable` describes.
fn encode_in_band_signaling_detection_disable(x: &InBandSignalingDetectionDisable) -> (r: String)
    ensures
        r@ == line_in_band_signaling_detection_disable(*x),
{
    let mut s = String::from_str("InBandSignalingDetectionDisable");
    let p_resource_id = piece_pos_num(x.resource_id as u64);
    s.append(p_resource_id.as_str());
    proof {
        assert(s@ == line_in_band_signaling_detection_disable(*x));
    }
    s
}

/// Renders a `GetRtpStatistics` command, as `line_get_rtp_statistics` describes.
fn encode_get_rtp_statistics(x: &GetRtpStatistics) -> (r: String)
    ensures
        r@ == line_get_rtp_statistics(*x),
{
    let mut s = String::from_str("GetRtpStatistics");
    let p_resource_id = piece_pos_num(x.resource_id as u64);
    s.append(p_resource_id.as_str());
    proof {
        assert(s@ == line_get_rtp_statistics(*x));
    }
    s
}
impl Command {
    /// Builds the protocol-version query.
    pub fn protocol_version() -> (r: Command)
        ensures
            r matches Command::ProtocolVersion(l),
    {
        Command::ProtocolVersion(ProtocolVersion)
    }

    /// Builds the server-version query.
    pub fn get_version() -> (r: Command)
        ensures
            r matches Command::GetVersion(l),
    {
        Command::GetVersion(GetVersion)
    }

    /// Builds a login with the documented protocol defaults: major version 2 and minor version 3 when none are given.
    pub fn login(username: String, password: String, major: Option<u8>, minor: Option<u8>, revision: Option<u8>) -> (r: Command)
        ensures
            ({
                &&& r matches Command::Login(l)
                &&& l.username@ == username@
                &&& l.password@ == password@
                &&& l.protocol_major_version == (match major { Some(m) => m, None => 2u8 })
                &&& l.protocol_minor_version == (match minor { Some(m) => m, None => 3u8 })
                &&& l.protocol_revision == revision
            }),
    {
        let protocol_major_version = match major {
            Some(m) => m,
            None => 2,
        };
        let protocol_minor_version = match minor {
            Some(m) => m,
            None => 3,
        };
        Command::Login(Login {
            username,
            password,
            protocol_major_version,
            protocol_minor_version,
            protocol_revision: revision,
        })
    }

    /// Builds a logout.
    pub fn logout() -> (r: Command)
        ensures
            r matches Command::Logout(l),
    {
        Command::Logout(Logout)
    }

    /// Builds a quit.
    pub fn quit() -> (r: Command)
        ensures
            r matches Command::Quit(l),
    {
        Command::Quit(Quit)
    }

    /// Builds a `ResourceCreateFrontEnd` command.
    pub fn resource_create_frontend(reg_incoming_ani: Option<String>, reg_incoming_dnis: Option<String>, reg_incoming_rdn: Option<String>, accepting: Option<bool>) -> (r: Command)
        ensures
            ({
                &&& r matches Command::ResourceCreateFrontEnd(l)
                &&& l.reg_incoming_ani == reg_incoming_ani
                &&& l.reg_incoming_dnis == reg_incoming_dnis
                &&& l.reg_incoming_rdn == reg_incoming_rdn
                &&& l.accepting == accepting
            }),
    {
        Command::ResourceCreateFrontEnd(ResourceCreateFrontEnd { reg_incoming_ani, reg_incoming_dnis, reg_incoming_rdn, accepting })
    }

    /// Builds a `ResourceCreatePlayer` command.
    pub fn resource_create_player() -> (r: Command)
        ensures
            r matches Command::ResourceCreatePlayer(l),
    {
        Command::ResourceCreatePlayer(ResourceCreatePlayer)
    }

    /// Builds a `ResourceCreateRecorder` command.
    pub fn resource_create_recorder() -> (r: Command)
        ensures
            r matches Command::ResourceCreateRecorder(l),
    {
        Command::ResourceCreateRecorder(ResourceCreateRecorder)
    }

    /// Builds a `ResourceCreateTransportChannel` command.
    pub fn resource_create_transport_channel(transport_type: String) -> (r: Command)
        ensures
            ({
                &&& r matches Command::ResourceCreateTransportChannel(l)
                &&& l.transport_type@ == transport_type@
            }),
    {
        Command::ResourceCreateTransportChannel(ResourceCreateTransportChannel { transport_type })
    }

    /// Builds a `ResourceCreateRtpChannel` command.
    pub fn resource_create_rtp_channel(in_band_dtmf_enabled: Option<bool>) -> (r: Command)
        ensures
            ({
                &&& r matches Command::ResourceCreateRtpChannel(l)
                &&& l.in_band_dtmf_enabled == in_band_dtmf_enabled
            }),
    {
        Command::ResourceCreateRtpChannel(ResourceCreateRtpChannel { in_band_dtmf_enabled })
    }

    /// Builds a `ResourceCreateSoundDevice` command.
    pub fn resource_create_sound_device(direction: String, device: Option<String>, buffers: Option<u8>) -> (r: Command)
        ensures
            ({
                &&& r matches Command::ResourceCreateSoundDevice(l)
                &&& l.direction@ == direction@
                &&& l.device == device
                &&& l.buffers == buffers
            }),
    {
        Command::ResourceCreateSoundDevice(ResourceCreateSoundDevice { direction, device, buffers })
    }

    /// Builds a `ResourceCreateFax` command.
    pub fn resource_create_fax() -> (r: Command)
        ensures
            r matches Command::ResourceCreateFax(l),
    {
        Command::ResourceCreateFax(ResourceCreateFax)
    }

    /// Builds a `ResourceCreateDocument` command.
    pub fn resource_create_document() -> (r: Command)
        ensures
            r matches Command::ResourceCreateDocument(l),
    {
        Command::ResourceCreateDocument(ResourceCreateDocument)
    }

    /// Builds a `ResourceDelete` command.
    pub fn resource_delete(resource_id: ResourceId) -> (r: Command)
        ensures
            ({
                &&& r matches Command::ResourceDelete(l)
                &&& l.resource_id == resource_id
            }),
    {
        Command::ResourceDelete(ResourceDelete { resource_id })
    }

    /// Builds a `ResourceGetStatus` command.
    pub fn resource_get_status(resource_id: ResourceId) -> (r: Command)
        ensures
            ({
                &&& r matches Command::ResourceGetStatus(l)
                &&& l.resource_id == resource_id
            }),
    {
        Command::ResourceGetStatus(ResourceGetStatus { resource_id })
    }

    /// Builds a `CallMake` command; absent options keep their documented defaults.
    pub fn call_make(resource_id: ResourceId, address: String, timeout: Option<u32>, caller_number: Option<String>, caller_name: Option<String>, privacy: Option<u8>, screen: Option<u8>) -> (r: Command)
        ensures
            ({
                &&& r matches Command::CallMake(l)
                &&& l.resource_id == resource_id
                &&& l.address@ == address@
                &&& l.timeout == Some(match timeout { Some(v) => v, None => 30000u32 })
                &&& l.caller_number == caller_number
                &&& l.caller_name == caller_name
                &&& l.privacy == Some(match privacy { Some(v) => v, None => 0u8 })
                &&& l.screen == Some(match screen { Some(v) => v, None => 1u8 })
            }),
    {
        let timeout = Some(match timeout {
            Some(v) => v,
            None => 30000,
        });
        let privacy = Some(match privacy {
            Some(v) => v,
            None => 0,
        });
        let screen = Some(match screen {
            Some(v) => v,
            None => 1,
        });
        Command::CallMake(CallMake { resource_id, address, timeout, caller_number, caller_name, privacy, screen })
    }

    /// Builds a `CallAnswer` command.
    pub fn call_answer(resource_id: ResourceId) -> (r: Command)
        ensures
            ({
                &&& r matches Command::CallAnswer(l)
                &&& l.resource_id == resource_id
            }),
    {
        Command::CallAnswer(CallAnswer { resource_id })
    }

    /// Builds a `CallClear` command.
    pub fn call_clear(resource_id: ResourceId, reason: Option<String>) -> (r: Command)
        ensures
            ({
                &&& r matches Command::CallClear(l)
                &&& l.resource_id == resource_id
                &&& l.reason == reason
            }),
    {
        Command::CallClear(CallClear { resource_id, reason })
    }

    /// Builds a `CallTransferConsultation` command.
    pub fn call_transfer_consultation(resource_id1: ResourceId, resource_id2: ResourceId) -> (r: Command)
        ensures
            ({
                &&& r matches Command::CallTransferConsultation(l)
                &&& l.resource_id1 == resource_id1
                &&& l.resource_id2 == resource_id2
            }),
    {
        Command::CallTransferConsultation(CallTransferConsultation { resource_id1, resource_id2 })
    }

    /// Builds a `CallTransferBlind` command; absent options keep their documented defaults.
    pub fn call_transfer_blind(resource_id: ResourceId, address: String, use_h450: Option<u8>) -> (r: Command)
        ensures
            ({
                &&& r matches Command::CallTransferBlind(l)
                &&& l.resource_id == resource_id
                &&& l.address@ == address@
                &&& l.use_h450 == Some(match use_h450 { Some(v) => v, None => 1u8 })
            }),
    {
        let use_h450 = Some(match use_h450 {
            Some(v) => v,
            None => 1,
        });
        Command::CallTransferBlind(CallTransferBlind { resource_id, address, use_h450 })
    }

    /// Builds a `CallHold` command.
    pub fn call_hold(resource_id: ResourceId) -> (r: Command)
        ensures
            ({
                &&& r matches Command::CallHold(l)
                &&& l.resource_id == resource_id
            }),
    {
        Command::CallHold(CallHold { resource_id })
    }

    /// Builds a `CallRetrieve` command.
    pub fn call_retrieve(resource_id: ResourceId) -> (r: Command)
        ensures
            ({
                &&& r matches Command::CallRetrieve(l)
                &&& l.resource_id == resource_id
            }),
    {
        Command::CallRetrieve(CallRetrieve { resource_id })
    }

    /// Builds a `CallSendDTMF` command; absent options keep their documented defaults.
    pub fn call_send_dtmf(resource_id: ResourceId, dtmf_string: String, duration: Option<u32>, delay: Option<u32>, pause_duration: Option<u32>) -> (r: Command)
        ensures
            ({
                &&& r matches Command::CallSendDTMF(l)
                &&& l.resource_id == resource_id
                &&& l.dtmf_string@ == dtmf_string@
                &&& l.duration == Some(match duration { Some(v) => v, None => 300u32 })
                &&& l.delay == Some(match delay { Some(v) => v, None => 200u32 })
                &&& l.pause_duration == Some(match pause_duration { Some(v) => v, None => 2000u32 })
            }),
    {
        let duration = Some(match duration {
            Some(v) => v,
            None => 300,
        });
        let delay = Some(match delay {
            Some(v) => v,
            None => 200,
        });
        let pause_duration = Some(match pause_duration {
            Some(v) => v,
            None => 2000,
        });
        Command::CallSendDTMF(CallSendDTMF { resource_id, dtmf_string, duration, delay, pause_duration })
    }

    /// Builds a `CallStopActivity` command.
    pub fn call_stop_activity(resource_id: ResourceId) -> (r: Command)
        ensures
            ({
                &&& r matches Command::CallStopActivity(l)
                &&& l.resource_id == resource_id
            }),
    {
        Command::CallStopActivity(CallStopActivity { resource_id })
    }

    /// Builds a `CallT38Relay` command.
    pub fn call_t38_relay(resource_id1: ResourceId, resource_id2: ResourceId) -> (r: Command)
        ensures
            ({
                &&& r matches Command::CallT38Relay(l)
                &&& l.resource_id1 == resource_id1
                &&& l.resource_id2 == resource_id2
            }),
    {
        Command::CallT38Relay(CallT38Relay { resource_id1, resource_id2 })
    }

    /// Builds a `CallsSetAlertingType` command.
    pub fn calls_set_alerting_type(resource_id: ResourceId, alerting_type: String) -> (r: Command)
        ensures
            ({
                &&& r matches Command::CallsSetAlertingType(l)
                &&& l.resource_id == resource_id
                &&& l.alerting_type@ == alerting_type@
            }),
    {
        Command::CallsSetAlertingType(CallsSetAlertingType { resource_id, alerting_type })
    }

    /// Builds a `CallsSetAccepting` command.
    pub fn calls_set_accepting(resource_id: ResourceId, accepting: bool) -> (r: Command)
        ensures
            ({
                &&& r matches Command::CallsSetAccepting(l)
                &&& l.resource_id == resource_id
                &&& l.accepting == accepting
            }),
    {
        Command::CallsSetAccepting(CallsSetAccepting { resource_id, accepting })
    }

    /// Renders this command to its canonical wire line, exactly as
    /// `command_line` describes. Pure: no tag, no terminator, no I/O.
    pub fn encode(&self) -> (r: String)
        ensures
            r@ == command_line(*self),
    {
        match self {
            Command::ProtocolVersion(x) => encode_protocol_version(x),
            Command::GetVersion(x) => encode_get_version(x),
            Command::Login(x) => encode_login(x),
            Command::Logout(x) => encode_logout(x),
            Command::Quit(x) => encode_quit(x),
            Command::ResourceCreateFrontEnd(x) => encode_resource_create_front_end(x),
            Command::ResourceCreatePlayer(x) => encode_resource_create_player(x),
            Command::ResourceCreateRecorder(x) => encode_resource_create_recorder(x),
            Command::ResourceCreateTransportChannel(x) => encode_resource_create_transport_channel(x),
            Command::ResourceCreateRtpChannel(x) => encode_resource_create_rtp_channel(x),
            Command::ResourceCreateSoundDevice(x) => encode_resource_create_sound_device(x),
            Command::ResourceCreateFax(x) => encode_resource_create_fax(x),
            Command::ResourceCreateDocument(x) => encode_resource_create_document(x),
            Command::ResourceDelete(x) => encode_resource_delete(x),
            Command::ResourceGetStatus(x) => encode_resource_get_status(x),
            Command::CallMake(x) => encode_call_make(x),
            Command::CallAnswer(x) => encode_call_answer(x),
            Command::CallClear(x) => encode_call_clear(x),
            Command::CallTransferConsultation(x) => encode_call_transfer_consultation(x),
            Command::CallTransferBlind(x) => encode_call_transfer_blind(x),
            Command::CallHold(x) => encode_call_hold(x),
            Command::CallRetrieve(x) => encode_call_retrieve(x),
            Command::CallSendDTMF(x) => encode_call_send_dtmf(x),
            Command::CallStopActivity(x) => encode_call_stop_activity(x),
            Command::CallT38Relay(x) => encode_call_t38_relay(x),
            Command::CallsSetAlertingType(x) => encode_calls_set_alerting_type(x),
            Command::CallsSetAccepting(x) => encode_calls_set_accepting(x),
            Command::PlayFile(x) => encode_play_file(x),
            Command::PlayStream(x) => encode_play_stream(x),
            Command::PlayTone(x) => encode_play_tone(x),
            Command::PlayStop(x) => encode_play_stop(x),
            Command::RecorderStartToFile(x) => encode_recorder_start_to_file(x),
            Command::RecorderStartToStream(x) => encode_recorder_start_to_stream(x),
            Command::RecorderStop(x) => encode_recorder_stop(x),
            Command::RtpChannelStartReceiving(x) => encode_rtp_channel_start_receiving(x),
            Command::RtpChannelStartSending(x) => encode_rtp_channel_start_sending(x),
            Command::RtpChannelStop(x) => encode_rtp_channel_stop(x),
            Command::RtpChannelSendDTMF(x) => encode_rtp_channel_send_dtmf(x),
            Command::SoundDeviceStart(x) => encode_sound_device_start(x),
            Command::SoundDeviceStop(x) => encode_sound_device_stop(x),
            Command::FaxReceive(x) => encode_fax_receive(x),
            Command::FaxSend(x) => encode_fax_send(x),
            Command::FaxAbort(x) => encode_fax_abort(x),
            Command::DocumentAddFile(x) => encode_document_add_file(x),
            Command::DocumentPrepare(x) => encode_document_prepare(x),
            Command::DocumentSave(x) => encode_document_save(x),
            Command::DocumentClear(x) => encode_document_clear(x),
            Command::AudioSend(x) => encode_audio_send(x),
            Command::AudioCancel(x) => encode_audio_cancel(x),
            Command::AudioLevelNotificationSend(x) => encode_audio_level_notification_send(x),
            Command::AudioLevelNotificationCancel(x) => encode_audio_level_notification_cancel(x),
            Command::InBandSignalingDetectionEnable(x) => encode_in_band_signaling_detection_enable(x),
            Command::InBandSignalingDetectionDisable(x) => encode_in_band_signaling_detection_disable(x),
            Command::GetRtpStatistics(x) => encode_get_rtp_statistics(x),
        }
    }
}

} // verus!
