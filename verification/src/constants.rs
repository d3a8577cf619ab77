//! The remaining closed protocol enumerations: stream-buffer states, recorder
//! stop reasons, fax parameters, document parameters, payload and audio
//! codes. Each has an explicit wire code per variant and strict, fallible
//! construction.

use crate::primitives::ValueError;
use vstd::prelude::*;

verus! {

/// Fill state a stream buffer reports.
#[derive(Clone, Copy, Debug, PartialEq, Eq, Structural)]
pub enum EStreamBufferStateNotification {
    Empty,
    Low,
    High,
    Full,
}

impl EStreamBufferStateNotification {
    /// The wire code of each variant.
    pub open spec fn spec_code(self) -> u8 {
        match self {
            EStreamBufferStateNotification::Empty => 0,
            EStreamBufferStateNotification::Low => 1,
            EStreamBufferStateNotification::High => 2,
            EStreamBufferStateNotification::Full => 3,
        }
    }

    /// The variant a raw code names, if any.
    pub open spec fn spec_from(value: u8) -> Option<EStreamBufferStateNotification> {
        if value == 0 {
            Some(EStreamBufferStateNotification::Empty)
        } else if value == 1 {
            Some(EStreamBufferStateNotification::Low)
        } else if value == 2 {
            Some(EStreamBufferStateNotification::High)
        } else if value == 3 {
            Some(EStreamBufferStateNotification::Full)
        } else {
            None
        }
    }

    /// Strict construction from a raw wire code: any code outside the
    /// closed set is rejected with a typed error.
    pub fn from_u8(value: u8) -> (r: Result<EStreamBufferStateNotification, ValueError>)
        ensures
            match EStreamBufferStateNotification::spec_from(value) {
                Some(c) => r == Ok::<EStreamBufferStateNotification, ValueError>(c),
                None => r matches Err(e) && e.code == value as u16 && e.target@ == "EStreamBufferStateNotification"@,
            },
    {
        match value {
            0 => Ok(EStreamBufferStateNotification::Empty),
            1 => Ok(EStreamBufferStateNotification::Low),
            2 => Ok(EStreamBufferStateNotification::High),
            3 => Ok(EStreamBufferStateNotification::Full),
            _ => Err(ValueError { code: value as u16, target: String::from_str("EStreamBufferStateNotification") }),
        }
    }

    /// The wire code of this variant; codes determine variants uniquely.
    pub fn code(&self) -> (c: u8)
        ensures
            c == self.spec_code(),
            EStreamBufferStateNotification::spec_from(c) == Some(*self),
    {
        match self {
            EStreamBufferStateNotification::Empty => 0,
            EStreamBufferStateNotification::Low => 1,
            EStreamBufferStateNotification::High => 2,
            EStreamBufferStateNotification::Full => 3,
        }
    }
}
/// Why a recorder stopped.
#[derive(Clone, Copy, Debug, PartialEq, Eq, Structural)]
pub enum RecorderStopReason {
    Requested,
    MaxDurationReached,
    MaxSilenceReached,
    TransmissionError,
}

impl RecorderStopReason {
    /// The wire code of each variant.
    pub open spec fn spec_code(self) -> u8 {
        match self {
            RecorderStopReason::Requested => 0,
            RecorderStopReason::MaxDurationReached => 1,
            RecorderStopReason::MaxSilenceReached => 2,
            RecorderStopReason::TransmissionError => 3,
        }
    }

    /// The variant a raw code names, if any.
    pub open spec fn spec_from(value: u8) -> Option<RecorderStopReason> {
        if value == 0 {
            Some(RecorderStopReason::Requested)
        } else if value == 1 {
            Some(RecorderStopReason::MaxDurationReached)
        } else if value == 2 {
            Some(RecorderStopReason::MaxSilenceReached)
        } else if value == 3 {
            Some(RecorderStopReason::TransmissionError)
        } else {
            None
        }
    }

    /// Strict construction from a raw wire code: any code outside the
    /// closed set is rejected with a typed error.
    pub fn from_u8(value: u8) -> (r: Result<RecorderStopReason, ValueError>)
        ensures
            match RecorderStopReason::spec_from(value) {
                Some(c) => r == Ok::<RecorderStopReason, ValueError>(c),
                None => r matches Err(e) && e.code == value as u16 && e.target@ == "RecorderStopReason"@,
            },
    {
        match value {
            0 => Ok(RecorderStopReason::Requested),
            1 => Ok(RecorderStopReason::MaxDurationReached),
            2 => Ok(RecorderStopReason::MaxSilenceReached),
            3 => Ok(RecorderStopReason::TransmissionError),
            _ => Err(ValueError { code: value as u16, target: String::from_str("RecorderStopReason") }),
        }
    }

    /// The wire code of this variant; codes determine variants uniquely.
    pub fn code(&self) -> (c: u8)
        ensures
            c == self.spec_code(),
            RecorderStopReason::spec_from(c) == Some(*self),
    {
        match self {
            RecorderStopReason::Requested => 0,
            RecorderStopReason::MaxDurationReached => 1,
            RecorderStopReason::MaxSilenceReached => 2,
            RecorderStopReason::TransmissionError => 3,
        }
    }
}
/// Fax modulation speed in bits per second.
#[derive(Clone, Copy, Debug, PartialEq, Eq, Structural)]
pub enum FaxSendSpeed {
    Bps2400,
    Bps4800,
    Bps7200,
    Bps9600,
    Bps12000,
    Bps14400,
}

impl FaxSendSpeed {
    /// The wire code of each variant.
    pub open spec fn spec_code(self) -> u16 {
        match self {
            FaxSendSpeed::Bps2400 => 2400,
            FaxSendSpeed::Bps4800 => 4800,
            FaxSendSpeed::Bps7200 => 7200,
            FaxSendSpeed::Bps9600 => 9600,
            FaxSendSpeed::Bps12000 => 12000,
            FaxSendSpeed::Bps14400 => 14400,
        }
    }

    /// The variant a raw code names, if any.
    pub open spec fn spec_from(value: u16) -> Option<FaxSendSpeed> {
        if value == 2400 {
            Some(FaxSendSpeed::Bps2400)
        } else if value == 4800 {
            Some(FaxSendSpeed::Bps4800)
        } else if value == 7200 {
            Some(FaxSendSpeed::Bps7200)
        } else if value == 9600 {
            Some(FaxSendSpeed::Bps9600)
        } else if value == 12000 {
            Some(FaxSendSpeed::Bps12000)
        } else if value == 14400 {
            Some(FaxSendSpeed::Bps14400)
        } else {
            None
        }
    }

    /// Strict construction from a raw wire code: any code outside the
    /// closed set is rejected with a typed error.
    pub fn from_u16(value: u16) -> (r: Result<FaxSendSpeed, ValueError>)
        ensures
            match FaxSendSpeed::spec_from(value) {
                Some(c) => r == Ok::<FaxSendSpeed, ValueError>(c),
                None => r matches Err(e) && e.code == value as u16 && e.target@ == "FaxSendSpeed"@,
            },
    {
        match value {
            2400 => Ok(FaxSendSpeed::Bps2400),
            4800 => Ok(FaxSendSpeed::Bps4800),
            7200 => Ok(FaxSendSpeed::Bps7200),
            9600 => Ok(FaxSendSpeed::Bps9600),
            12000 => Ok(FaxSendSpeed::Bps12000),
            14400 => Ok(FaxSendSpeed::Bps14400),
            _ => Err(ValueError { code: value as u16, target: String::from_str("FaxSendSpeed") }),
        }
    }

    /// The wire code of this variant; codes determine variants uniquely.
    pub fn code(&self) -> (c: u16)
        ensures
            c == self.spec_code(),
            FaxSendSpeed::spec_from(c) == Some(*self),
    {
        match self {
            FaxSendSpeed::Bps2400 => 2400,
            FaxSendSpeed::Bps4800 => 4800,
            FaxSendSpeed::Bps7200 => 7200,
            FaxSendSpeed::Bps9600 => 9600,
            FaxSendSpeed::Bps12000 => 12000,
            FaxSendSpeed::Bps14400 => 14400,
        }
    }
}
/// RTP payload code of a supported codec.
#[derive(Clone, Copy, Debug, PartialEq, Eq, Structural)]
pub enum PayloadType {
    Pcmu,
    Gsm,
    G723,
    Pcma,
    G722,
    G729,
}

impl PayloadType {
    /// The wire code of each variant.
    pub open spec fn spec_code(self) -> u8 {
        match self {
            PayloadType::Pcmu => 0,
            PayloadType::Gsm => 3,
            PayloadType::G723 => 4,
            PayloadType::Pcma => 8,
            PayloadType::G722 => 9,
            PayloadType::G729 => 18,
        }
    }

    /// The variant a raw code names, if any.
    pub open spec fn spec_from(value: u8) -> Option<PayloadType> {
        if value == 0 {
            Some(PayloadType::Pcmu)
        } else if value == 3 {
            Some(PayloadType::Gsm)
        } else if value == 4 {
            Some(PayloadType::G723)
        } else if value == 8 {
            Some(PayloadType::Pcma)
        } else if value == 9 {
            Some(PayloadType::G722)
        } else if value == 18 {
            Some(PayloadType::G729)
        } else {
            None
        }
    }

    /// Strict construction from a raw wire code: any code outside the
    /// closed set is rejected with a typed error.
    pub fn from_u8(value: u8) -> (r: Result<PayloadType, ValueError>)
        ensures
            match PayloadType::spec_from(value) {
                Some(c) => r == Ok::<PayloadType, ValueError>(c),
                None => r matches Err(e) && e.code == value as u16 && e.target@ == "PayloadType"@,
            },
    {
        match value {
            0 => Ok(PayloadType::Pcmu),
            3 => Ok(PayloadType::Gsm),
            4 => Ok(PayloadType::G723),
            8 => Ok(PayloadType::Pcma),
            9 => Ok(PayloadType::G722),
            18 => Ok(PayloadType::G729),
            _ => Err(ValueError { code: value as u16, target: String::from_str("PayloadType") }),
        }
    }

    /// The wire code of this variant; codes determine variants uniquely.
    pub fn code(&self) -> (c: u8)
        ensures
            c == self.spec_code(),
            PayloadType::spec_from(c) == Some(*self),
    {
        match self {
            PayloadType::Pcmu => 0,
            PayloadType::Gsm => 3,
            PayloadType::G723 => 4,
            PayloadType::Pcma => 8,
            PayloadType::G722 => 9,
            PayloadType::G729 => 18,
        }
    }
}
/// Paper size a fax document is rendered for.
#[derive(Clone, Copy, Debug, PartialEq, Eq, Structural)]
pub enum DocumentPreparePaperSize {
    A4,
    Letter,
    Legal,
}

impl DocumentPreparePaperSize {
    /// The wire code of each variant.
    pub open spec fn spec_code(self) -> u8 {
        match self {
            DocumentPreparePaperSize::A4 => 0,
            DocumentPreparePaperSize::Letter => 1,
            DocumentPreparePaperSize::Legal => 2,
        }
    }

    /// The variant a raw code names, if any.
    pub open spec fn spec_from(value: u8) -> Option<DocumentPreparePaperSize> {
        if value == 0 {
            Some(DocumentPreparePaperSize::A4)
        } else if value == 1 {
            Some(DocumentPreparePaperSize::Letter)
        } else if value == 2 {
            Some(DocumentPreparePaperSize::Legal)
        } else {
            None
        }
    }

    /// Strict construction from a raw wire code: any code outside the
    /// closed set is rejected with a typed error.
    pub fn from_u8(value: u8) -> (r: Result<DocumentPreparePaperSize, ValueError>)
        ensures
            match DocumentPreparePaperSize::spec_from(value) {
                Some(c) => r == Ok::<DocumentPreparePaperSize, ValueError>(c),
                None => r matches Err(e) && e.code == value as u16 && e.target@ == "DocumentPreparePaperSize"@,
            },
    {
        match value {
            0 => Ok(DocumentPreparePaperSize::A4),
            1 => Ok(DocumentPreparePaperSize::Letter),
            2 => Ok(DocumentPreparePaperSize::Legal),
            _ => Err(ValueError { code: value as u16, target: String::from_str("DocumentPreparePaperSize") }),
        }
    }

    /// The wire code of this variant; codes determine variants uniquely.
    pub fn code(&self) -> (c: u8)
        ensures
            c == self.spec_code(),
            DocumentPreparePaperSize::spec_from(c) == Some(*self),
    {
        match self {
            DocumentPreparePaperSize::A4 => 0,
            DocumentPreparePaperSize::Letter => 1,
            DocumentPreparePaperSize::Legal => 2,
        }
    }
}
/// Vertical resolution a fax document is rendered at.
#[derive(Clone, Copy, Debug, PartialEq, Eq, Structural)]
pub enum DocumentPrepareResolution {
    Standard,
    Fine,
    SuperFine,
}

impl DocumentPrepareResolution {
    /// The wire code of each variant.
    pub open spec fn spec_code(self) -> u8 {
        match self {
            DocumentPrepareResolution::Standard => 0,
            DocumentPrepareResolution::Fine => 1,
            DocumentPrepareResolution::SuperFine => 2,
        }
    }

    /// The variant a raw code names, if any.
    pub open spec fn spec_from(value: u8) -> Option<DocumentPrepareResolution> {
        if value == 0 {
            Some(DocumentPrepareResolution::Standard)
        } else if value == 1 {
            Some(DocumentPrepareResolution::Fine)
        } else if value == 2 {
            Some(DocumentPrepareResolution::SuperFine)
        } else {
            None
        }
    }

    /// Strict construction from a raw wire code: any code outside the
    /// closed set is rejected with a typed error.
    pub fn from_u8(value: u8) -> (r: Result<DocumentPrepareResolution, ValueError>)
        ensures
            match DocumentPrepareResolution::spec_from(value) {
                Some(c) => r == Ok::<DocumentPrepareResolution, ValueError>(c),
                None => r matches Err(e) && e.code == value as u16 && e.target@ == "DocumentPrepareResolution"@,
            },
    {
        match value {
            0 => Ok(DocumentPrepareResolution::Standard),
            1 => Ok(DocumentPrepareResolution::Fine),
            2 => Ok(DocumentPrepareResolution::SuperFine),
            _ => Err(ValueError { code: value as u16, target: String::from_str("DocumentPrepareResolution") }),
        }
    }

    /// The wire code of this variant; codes determine variants uniquely.
    pub fn code(&self) -> (c: u8)
        ensures
            c == self.spec_code(),
            DocumentPrepareResolution::spec_from(c) == Some(*self),
    {
        match self {
            DocumentPrepareResolution::Standard => 0,
            DocumentPrepareResolution::Fine => 1,
            DocumentPrepareResolution::SuperFine => 2,
        }
    }
}
/// Encoding of audio samples in files and streams.
#[derive(Clone, Copy, Debug, PartialEq, Eq, Structural)]
pub enum AudioFormatType {
    Pcm16,
    Pcm8,
    Alaw,
    Mulaw,
    Gsm610,
}

impl AudioFormatType {
    /// The wire code of each variant.
    pub open spec fn spec_code(self) -> u8 {
        match self {
            AudioFormatType::Pcm16 => 0,
            AudioFormatType::Pcm8 => 1,
            AudioFormatType::Alaw => 2,
            AudioFormatType::Mulaw => 3,
            AudioFormatType::Gsm610 => 4,
        }
    }

    /// The variant a raw code names, if any.
    pub open spec fn spec_from(value: u8) -> Option<AudioFormatType> {
        if value == 0 {
            Some(AudioFormatType::Pcm16)
        } else if value == 1 {
            Some(AudioFormatType::Pcm8)
        } else if value == 2 {
            Some(AudioFormatType::Alaw)
        } else if value == 3 {
            Some(AudioFormatType::Mulaw)
        } else if value == 4 {
            Some(AudioFormatType::Gsm610)
        } else {
            None
        }
    }

    /// Strict construction from a raw wire code: any code outside the
    /// closed set is rejected with a typed error.
    pub fn from_u8(value: u8) -> (r: Result<AudioFormatType, ValueError>)
        ensures
            match AudioFormatType::spec_from(value) {
                Some(c) => r == Ok::<AudioFormatType, ValueError>(c),
                None => r matches Err(e) && e.code == value as u16 && e.target@ == "AudioFormatType"@,
            },
    {
        match value {
            0 => Ok(AudioFormatType::Pcm16),
            1 => Ok(AudioFormatType::Pcm8),
            2 => Ok(AudioFormatType::Alaw),
            3 => Ok(AudioFormatType::Mulaw),
            4 => Ok(AudioFormatType::Gsm610),
            _ => Err(ValueError { code: value as u16, target: String::from_str("AudioFormatType") }),
        }
    }

    /// The wire code of this variant; codes determine variants uniquely.
    pub fn code(&self) -> (c: u8)
        ensures
            c == self.spec_code(),
            AudioFormatType::spec_from(c) == Some(*self),
    {
        match self {
            AudioFormatType::Pcm16 => 0,
            AudioFormatType::Pcm8 => 1,
            AudioFormatType::Alaw => 2,
            AudioFormatType::Mulaw => 3,
            AudioFormatType::Gsm610 => 4,
        }
    }
}
/// Call-progress tone a player can generate.
#[derive(Clone, Copy, Debug, PartialEq, Eq, Structural)]
pub enum ToneType {
    Dial,
    Busy,
    Ring,
    Beep,
}

impl ToneType {
    /// The wire code of each variant.
    pub open spec fn spec_code(self) -> u8 {
        match self {
            ToneType::Dial => 0,
            ToneType::Busy => 1,
            ToneType::Ring => 2,
            ToneType::Beep => 3,
        }
    }

    /// The variant a raw code names, if any.
    pub open spec fn spec_from(value: u8) -> Option<ToneType> {
        if value == 0 {
            Some(ToneType::Dial)
        } else if value == 1 {
            Some(ToneType::Busy)
        } else if value == 2 {
            Some(ToneType::Ring)
        } else if value == 3 {
            Some(ToneType::Beep)
        } else {
            None
        }
    }

    /// Strict construction from a raw wire code: any code outside the
    /// closed set is rejected with a typed error.
    pub fn from_u8(value: u8) -> (r: Result<ToneType, ValueError>)
        ensures
            match ToneType::spec_from(value) {
                Some(c) => r == Ok::<ToneType, ValueError>(c),
                None => r matches Err(e) && e.code == value as u16 && e.target@ == "ToneType"@,
            },
    {
        match value {
            0 => Ok(ToneType::Dial),
            1 => Ok(ToneType::Busy),
            2 => Ok(ToneType::Ring),
            3 => Ok(ToneType::Beep),
            _ => Err(ValueError { code: value as u16, target: String::from_str("ToneType") }),
        }
    }

    /// The wire code of this variant; codes determine variants uniquely.
    pub fn code(&self) -> (c: u8)
        ensures
            c == self.spec_code(),
            ToneType::spec_from(c) == Some(*self),
    {
        match self {
            ToneType::Dial => 0,
            ToneType::Busy => 1,
            ToneType::Ring => 2,
            ToneType::Beep => 3,
        }
    }
}
/// How an incoming fax is taken.
#[derive(Clone, Copy, Debug, PartialEq, Eq, Structural)]
pub enum FaxReceiveMode {
    Analog,
    T38,
}

impl FaxReceiveMode {
    /// The wire code of each variant.
    pub open spec fn spec_code(self) -> u8 {
        match self {
            FaxReceiveMode::Analog => 0,
            FaxReceiveMode::T38 => 1,
        }
    }

    /// The variant a raw code names, if any.
    pub open spec fn spec_from(value: u8) -> Option<FaxReceiveMode> {
        if value == 0 {
            Some(FaxReceiveMode::Analog)
        } else if value == 1 {
            Some(FaxReceiveMode::T38)
        } else {
            None
        }
    }

    /// Strict construction from a raw wire code: any code outside the
    /// closed set is rejected with a typed error.
    pub fn from_u8(value: u8) -> (r: Result<FaxReceiveMode, ValueError>)
        ensures
            match FaxReceiveMode::spec_from(value) {
                Some(c) => r == Ok::<FaxReceiveMode, ValueError>(c),
                None => r matches Err(e) && e.code == value as u16 && e.target@ == "FaxReceiveMode"@,
            },
    {
        match value {
            0 => Ok(FaxReceiveMode::Analog),
            1 => Ok(FaxReceiveMode::T38),
            _ => Err(ValueError { code: value as u16, target: String::from_str("FaxReceiveMode") }),
        }
    }

    /// The wire code of this variant; codes determine variants uniquely.
    pub fn code(&self) -> (c: u8)
        ensures
            c == self.spec_code(),
            FaxReceiveMode::spec_from(c) == Some(*self),
    {
        match self {
            FaxReceiveMode::Analog => 0,
            FaxReceiveMode::T38 => 1,
        }
    }
}
/// Transformation applied to a file added to a document.
#[derive(Clone, Copy, Debug, PartialEq, Eq, Structural)]
pub enum DocumentAddFileTransformation {
    Unchanged,
    Scaled,
    Cropped,
}

impl DocumentAddFileTransformation {
    /// The wire code of each variant.
    pub open spec fn spec_code(self) -> u8 {
        match self {
            DocumentAddFileTransformation::Unchanged => 0,
            DocumentAddFileTransformation::Scaled => 1,
            DocumentAddFileTransformation::Cropped => 2,
        }
    }

    /// The variant a raw code names, if any.
    pub open spec fn spec_from(value: u8) -> Option<DocumentAddFileTransformation> {
        if value == 0 {
            Some(DocumentAddFileTransformation::Unchanged)
        } else if value == 1 {
            Some(DocumentAddFileTransformation::Scaled)
        } else if value == 2 {
            Some(DocumentAddFileTransformation::Cropped)
        } else {
            None
        }
    }

    /// Strict construction from a raw wire code: any code outside the
    /// closed set is rejected with a typed error.
    pub fn from_u8(value: u8) -> (r: Result<DocumentAddFileTransformation, ValueError>)
        ensures
            match DocumentAddFileTransformation::spec_from(value) {
                Some(c) => r == Ok::<DocumentAddFileTransformation, ValueError>(c),
                None => r matches Err(e) && e.code == value as u16 && e.target@ == "DocumentAddFileTransformation"@,
            },
    {
        match value {
            0 => Ok(DocumentAddFileTransformation::Unchanged),
            1 => Ok(DocumentAddFileTransformation::Scaled),
            2 => Ok(DocumentAddFileTransformation::Cropped),
            _ => Err(ValueError { code: value as u16, target: String::from_str("DocumentAddFileTransformation") }),
        }
    }

    /// The wire code of this variant; codes determine variants uniquely.
    pub fn code(&self) -> (c: u8)
        ensures
            c == self.spec_code(),
            DocumentAddFileTransformation::spec_from(c) == Some(*self),
    {
        match self {
            DocumentAddFileTransformation::Unchanged => 0,
            DocumentAddFileTransformation::Scaled => 1,
            DocumentAddFileTransformation::Cropped => 2,
        }
    }
}
/// On-disk format a document is saved as.
#[derive(Clone, Copy, Debug, PartialEq, Eq, Structural)]
pub enum DocumentSaveType {
    Tiff,
    Pdf,
}

impl DocumentSaveType {
    /// The wire code of each variant.
    pub open spec fn spec_code(self) -> u8 {
        match self {
            DocumentSaveType::Tiff => 0,
            DocumentSaveType::Pdf => 1,
        }
    }

    /// The variant a raw code names, if any.
    pub open spec fn spec_from(value: u8) -> Option<DocumentSaveType> {
        if value == 0 {
            Some(DocumentSaveType::Tiff)
        } else if value == 1 {
            Some(DocumentSaveType::Pdf)
        } else {
            None
        }
    }

    /// Strict construction from a raw wire code: any code outside the
    /// closed set is rejected with a typed error.
    pub fn from_u8(value: u8) -> (r: Result<DocumentSaveType, ValueError>)
        ensures
            match DocumentSaveType::spec_from(value) {
                Some(c) => r == Ok::<DocumentSaveType, ValueError>(c),
                None => r matches Err(e) && e.code == value as u16 && e.target@ == "DocumentSaveType"@,
            },
    {
        match value {
            0 => Ok(DocumentSaveType::Tiff),
            1 => Ok(DocumentSaveType::Pdf),
            _ => Err(ValueError { code: value as u16, target: String::from_str("DocumentSaveType") }),
        }
    }

    /// The wire code of this variant; codes determine variants uniquely.
    pub fn code(&self) -> (c: u8)
        ensures
            c == self.spec_code(),
            DocumentSaveType::spec_from(c) == Some(*self),
    {
        match self {
            DocumentSaveType::Tiff => 0,
            DocumentSaveType::Pdf => 1,
        }
    }
}
} // verus!
