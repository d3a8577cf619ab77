//! Opaque protocol handles and the small closed value enumerations shared by
//! commands and events, with strict, fallible construction from raw codes.

use vstd::prelude::*;

verus! {

/// Server-assigned session handle; an opaque pass-through correlation key.
pub type SessionId = u32;

/// Server-assigned resource handle; an opaque pass-through correlation key.
pub type ResourceId = u32;

/// Audio sample rate in hertz.
pub type SampleRate = u16;

/// A raw code that no variant of a closed enumeration carries: the offending
/// code and the name of the enumeration it was offered to.
#[derive(Clone, Debug, PartialEq)]
pub struct ValueError {
    pub code: u16,
    pub target: String,
}

/// Channel count of an audio stream.
#[derive(Clone, Copy, Debug, PartialEq, Eq, Structural)]
pub enum Channels {
    Mono,
    Stereo,
}

impl Channels {
    /// The wire code of each variant.
    pub open spec fn spec_code(self) -> u8 {
        match self {
            Channels::Mono => 1,
            Channels::Stereo => 2,
        }
    }

    /// The variant a raw code names, if any.
    pub open spec fn spec_from(value: u8) -> Option<Channels> {
        if value == 1 {
            Some(Channels::Mono)
        } else if value == 2 {
            Some(Channels::Stereo)
        } else {
            None
        }
    }

    /// Strict construction from a raw wire code: any code outside the
    /// closed set is rejected with a typed error.
    pub fn from_u8(value: u8) -> (r: Result<Channels, ValueError>)
        ensures
            match Channels::spec_from(value) {
                Some(c) => r == Ok::<Channels, ValueError>(c),
                None => r matches Err(e) && e.code == value as u16 && e.target@ == "Channels"@,
            },
    {
        match value {
            1 => Ok(Channels::Mono),
            2 => Ok(Channels::Stereo),
            _ => Err(ValueError { code: value as u16, target: String::from_str("Channels") }),
        }
    }

    /// The wire code of this variant; codes determine variants uniquely.
    pub fn code(&self) -> (c: u8)
        ensures
            c == self.spec_code(),
            Channels::spec_from(c) == Some(*self),
    {
        match self {
            Channels::Mono => 1,
            Channels::Stereo => 2,
        }
    }
}
/// Error Correction Mode of a fax transmission.
#[derive(Clone, Copy, Debug, PartialEq, Eq, Structural)]
pub enum ECM {
    Off,
    Ecm64,
    Ecm128,
}

impl ECM {
    /// The wire code of each variant.
    pub open spec fn spec_code(self) -> u8 {
        match self {
            ECM::Off => 0,
            ECM::Ecm64 => 64,
            ECM::Ecm128 => 128,
        }
    }

    /// The variant a raw code names, if any.
    pub open spec fn spec_from(value: u8) -> Option<ECM> {
        if value == 0 {
            Some(ECM::Off)
        } else if value == 64 {
            Some(ECM::Ecm64)
        } else if value == 128 {
            Some(ECM::Ecm128)
        } else {
            None
        }
    }

    /// Strict construction from a raw wire code: any code outside the
    /// closed set is rejected with a typed error.
    pub fn from_u8(value: u8) -> (r: Result<ECM, ValueError>)
        ensures
            match ECM::spec_from(value) {
                Some(c) => r == Ok::<ECM, ValueError>(c),
                None => r matches Err(e) && e.code == value as u16 && e.target@ == "ECM"@,
            },
    {
        match value {
            0 => Ok(ECM::Off),
            64 => Ok(ECM::Ecm64),
            128 => Ok(ECM::Ecm128),
            _ => Err(ValueError { code: value as u16, target: String::from_str("ECM") }),
        }
    }

    /// The wire code of this variant; codes determine variants uniquely.
    pub fn code(&self) -> (c: u8)
        ensures
            c == self.spec_code(),
            ECM::spec_from(c) == Some(*self),
    {
        match self {
            ECM::Off => 0,
            ECM::Ecm64 => 64,
            ECM::Ecm128 => 128,
        }
    }
}
} // verus!
