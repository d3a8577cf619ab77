//! The event line parser: tokenizes a received line, reads the fixed
//! positional fields of the named event kind, then the trailing `Key=Value`
//! attributes, and yields a structured event or a typed parse error.

use crate::constants::{
    DocumentPreparePaperSize, DocumentPrepareResolution, EStreamBufferStateNotification,
    FaxSendSpeed, PayloadType, RecorderStopReason,
};
use crate::primitives::ECM;
use crate::events::{
    Event, EventV, ParseErrorV, ParseEventError, SessionCreated, SessionDeleted, ResourceCreated, ResourceDeleted, AudioLevelNotification, StreamBufferStateNotification, CallIncoming, CallOutgoing, CallRemoteAlerting, CallConnectionEstablished, CallConnectionFailed, CallCleared, CallSendDTMFFinished, CallKeyPress, PlayerStarted, PlayerStopped, PlayerError, RecorderStarted, RecorderStopped, RecorderError, RecorderVoiceTrigger, RtpChannelStartedReceiving, RtpChannelStartedSending, RtpChannelSendDTMFFinished, RtpChannelReceivedDTMF, RtpChannelStopped, SoundDeviceStarted, SoundDeviceStopped, SoundDeviceError, ModeChangeT38, ModeChangeT38Refused, FaxIncoming, FacsimilePageStarted, FacsimilePageReceived, FacsimilePageSent, FaxOperationsStarted, FaxOperationFailed, FaxOperationFinished, FaxOperationAborted, DocumentPrepared, DocumentNotPrepared, DocumentSaved, DocumentNotSaved, DocumentCleared
};
use crate::wire::{
    chars_of, dec_bounded, find_eq, find_hash, has_eq, lemma_hash_end, line_region, line_tokens,
    lookup, opt_get, opt_pair, opts_from, parse_u64_tok, subvec, tok_eq, tokenize, vec_lower,
    vec_to_string,
};
use vstd::prelude::*;

verus! {

/// Required positional token at `i` read as a 32-bit unsigned number. A
/// missing token is an arity error of the event `name`; a malformed or
/// out-of-range token is a value error carrying the token itself.
pub open spec fn pos_u32(toks: Seq<Seq<char>>, i: int, name: Seq<char>) -> Result<u32, ParseErrorV> {
    if toks.len() <= i {
        Err(ParseErrorV::WrongArity(name))
    } else {
        match dec_bounded(toks[i], u32::MAX as nat) {
            Some(n) => Ok(n as u32),
            None => Err(ParseErrorV::BadValue(toks[i])),
        }
    }
}

/// Required positional token at `i` read as an 8-bit unsigned number.
pub open spec fn pos_u8(toks: Seq<Seq<char>>, i: int, name: Seq<char>) -> Result<u8, ParseErrorV> {
    if toks.len() <= i {
        Err(ParseErrorV::WrongArity(name))
    } else {
        match dec_bounded(toks[i], u8::MAX as nat) {
            Some(n) => Ok(n as u8),
            None => Err(ParseErrorV::BadValue(toks[i])),
        }
    }
}

/// Required positional token at `i` read as a 16-bit unsigned number.
pub open spec fn pos_u16(toks: Seq<Seq<char>>, i: int, name: Seq<char>) -> Result<u16, ParseErrorV> {
    if toks.len() <= i {
        Err(ParseErrorV::WrongArity(name))
    } else {
        match dec_bounded(toks[i], u16::MAX as nat) {
            Some(n) => Ok(n as u16),
            None => Err(ParseErrorV::BadValue(toks[i])),
        }
    }
}

/// Required positional token at `i` read as a boolean, rendered `1`/`0` on
/// the wire.
pub open spec fn pos_bool(toks: Seq<Seq<char>>, i: int, name: Seq<char>) -> Result<bool, ParseErrorV> {
    if toks.len() <= i {
        Err(ParseErrorV::WrongArity(name))
    } else if toks[i] == seq!['1'] {
        Ok(true)
    } else if toks[i] == seq!['0'] {
        Ok(false)
    } else {
        Err(ParseErrorV::BadValue(toks[i]))
    }
}

/// Required positional token at `i` taken verbatim as a string field.
pub open spec fn pos_str(toks: Seq<Seq<char>>, i: int, name: Seq<char>) -> Result<Seq<char>, ParseErrorV> {
    if toks.len() <= i {
        Err(ParseErrorV::WrongArity(name))
    } else {
        Ok(toks[i])
    }
}

/// Optional attribute `key` read as a 16-bit unsigned number; an absent key
/// reads as absent, a present but malformed value is a value error.
pub open spec fn opt_u16(toks: Seq<Seq<char>>, start: int, key: Seq<char>) -> Result<
    Option<u16>,
    ParseErrorV,
> {
    match opt_get(toks, start, key) {
        None => Ok(None),
        Some(v) => match dec_bounded(v, u16::MAX as nat) {
            Some(n) => Ok(Some(n as u16)),
            None => Err(ParseErrorV::BadValue(v)),
        },
    }
}

/// Optional attribute `key` read as an RTP payload code.
pub open spec fn opt_payload(toks: Seq<Seq<char>>, start: int, key: Seq<char>) -> Result<
    Option<PayloadType>,
    ParseErrorV,
> {
    match opt_get(toks, start, key) {
        None => Ok(None),
        Some(v) => match dec_bounded(v, u8::MAX as nat) {
            Some(n) => match PayloadType::spec_from(n as u8) {
                Some(p) => Ok(Some(p)),
                None => Err(ParseErrorV::BadValue(v)),
            },
            None => Err(ParseErrorV::BadValue(v)),
        },
    }
}

/// Exec reading of a required `u32` positional field, as `pos_u32` describes.
pub fn parse_pos(toks: &Vec<Vec<char>>, idx: usize, name: &Vec<char>) -> (r: Result<
    u32,
    ParseEventError,
>)
    ensures
        ({
            let s = pos_u32(toks.deep_view(), idx as int, name@);
            match r {
                Ok(v) => s == Ok::<u32, ParseErrorV>(v),
                Err(e) => s == Err::<u32, ParseErrorV>(e@),
            }
        }),
{
    if idx >= toks.len() {
        proof {
            assert(toks.deep_view().len() == toks@.len());
        }
        return Err(ParseEventError::WrongArity(vec_to_string(name)));
    }
    proof {
        assert(toks.deep_view()[idx as int] =~= toks@[idx as int]@);
    }
    match parse_u64_tok(&toks[idx]) {
        Some(n) if n <= u32::MAX as u64 => Ok(n as u32),
        _ => Err(ParseEventError::BadValue(vec_to_string(&toks[idx]))),
    }
}

/// Exec reading of a required `u8` positional field, as `pos_u8` describes.
pub fn parse_pos_u8(toks: &Vec<Vec<char>>, idx: usize, name: &Vec<char>) -> (r: Result<
    u8,
    ParseEventError,
>)
    ensures
        ({
            let s = pos_u8(toks.deep_view(), idx as int, name@);
            match r {
                Ok(v) => s == Ok::<u8, ParseErrorV>(v),
                Err(e) => s == Err::<u8, ParseErrorV>(e@),
            }
        }),
{
    if idx >= toks.len() {
        proof {
            assert(toks.deep_view().len() == toks@.len());
        }
        return Err(ParseEventError::WrongArity(vec_to_string(name)));
    }
    proof {
        assert(toks.deep_view()[idx as int] =~= toks@[idx as int]@);
    }
    match parse_u64_tok(&toks[idx]) {
        Some(n) if n <= u8::MAX as u64 => Ok(n as u8),
        _ => Err(ParseEventError::BadValue(vec_to_string(&toks[idx]))),
    }
}

/// Exec reading of a required `u16` positional field, as `pos_u16` describes.
pub fn parse_pos_u16(toks: &Vec<Vec<char>>, idx: usize, name: &Vec<char>) -> (r: Result<
    u16,
    ParseEventError,
>)
    ensures
        ({
            let s = pos_u16(toks.deep_view(), idx as int, name@);
            match r {
                Ok(v) => s == Ok::<u16, ParseErrorV>(v),
                Err(e) => s == Err::<u16, ParseErrorV>(e@),
            }
        }),
{
    if idx >= toks.len() {
        proof {
            assert(toks.deep_view().len() == toks@.len());
        }
        return Err(ParseEventError::WrongArity(vec_to_string(name)));
    }
    proof {
        assert(toks.deep_view()[idx as int] =~= toks@[idx as int]@);
    }
    match parse_u64_tok(&toks[idx]) {
        Some(n) if n <= u16::MAX as u64 => Ok(n as u16),
        _ => Err(ParseEventError::BadValue(vec_to_string(&toks[idx]))),
    }
}

/// Exec reading of a required boolean positional field, as `pos_bool`
/// describes.
pub fn parse_pos_bool(toks: &Vec<Vec<char>>, idx: usize, name: &Vec<char>) -> (r: Result<
    bool,
    ParseEventError,
>)
    ensures
        ({
            let s = pos_bool(toks.deep_view(), idx as int, name@);
            match r {
                Ok(v) => s == Ok::<bool, ParseErrorV>(v),
                Err(e) => s == Err::<bool, ParseErrorV>(e@),
            }
        }),
{
    if idx >= toks.len() {
        proof {
            assert(toks.deep_view().len() == toks@.len());
        }
        return Err(ParseEventError::WrongArity(vec_to_string(name)));
    }
    proof {
        assert(toks.deep_view()[idx as int] =~= toks@[idx as int]@);
    }
    let t = &toks[idx];
    if tok_eq(t, "1") {
        proof {
            reveal_strlit("1");
            assert(t@ =~= seq!['1']);
        }
        Ok(true)
    } else if tok_eq(t, "0") {
        proof {
            reveal_strlit("0");
            reveal_strlit("1");
            assert("1"@ =~= seq!['1']);
            assert(t@ =~= seq!['0']);
            assert(t@ != seq!['1']);
        }
        Ok(false)
    } else {
        proof {
            reveal_strlit("0");
            reveal_strlit("1");
            assert("1"@ =~= seq!['1']);
            assert("0"@ =~= seq!['0']);
            assert(t@ != seq!['1'] && t@ != seq!['0']);
        }
        Err(ParseEventError::BadValue(vec_to_string(t)))
    }
}

/// Exec reading of a required string positional field, as `pos_str`
/// describes.
pub fn parse_pos_str(toks: &Vec<Vec<char>>, idx: usize, name: &Vec<char>) -> (r: Result<
    String,
    ParseEventError,
>)
    ensures
        ({
            let s = pos_str(toks.deep_view(), idx as int, name@);
            match r {
                Ok(v) => s == Ok::<Seq<char>, ParseErrorV>(v@),
                Err(e) => s == Err::<Seq<char>, ParseErrorV>(e@),
            }
        }),
{
    if idx >= toks.len() {
        proof {
            assert(toks.deep_view().len() == toks@.len());
        }
        return Err(ParseEventError::WrongArity(vec_to_string(name)));
    }
    proof {
        assert(toks.deep_view()[idx as int] =~= toks@[idx as int]@);
    }
    Ok(vec_to_string(&toks[idx]))
}

/// Collects the trailing `Key=Value` attribute tokens from `start` on, keys
/// lower-cased, order kept; tokens without `'='` are passed over.
pub fn parse_opts(toks: &Vec<Vec<char>>, start: usize) -> (r: Vec<(Vec<char>, Vec<char>)>)
    ensures
        r.deep_view() == opts_from(toks.deep_view(), start as int),
{
    let ghost tv = toks.deep_view();
    let mut r: Vec<(Vec<char>, Vec<char>)> = Vec::new();
    let mut i: usize = start;
    if start > toks.len() {
        proof {
            assert(r.deep_view() =~~= opts_from(tv, start as int));
        }
        return r;
    }
    while i < toks.len()
        invariant
            start <= i <= toks@.len(),
            tv == toks.deep_view(),
            tv.len() == toks@.len(),
            opts_from(tv, start as int) == r.deep_view() + opts_from(tv, i as int),
        decreases toks@.len() - i,
    {
        let t = &toks[i];
        proof {
            assert(tv[i as int] =~= t@);
        }
        let e = find_eq(t);
        if e < t.len() {
            let key = vec_lower(&subvec(t, 0, e));
            let val = subvec(t, e + 1, t.len());
            proof {
                assert(t@.subrange(0, e as int) =~= t@.take(e as int));
                assert(t@.subrange(e + 1, t@.len() as int) =~= t@.skip(e + 1));
                assert(has_eq(tv[i as int]));
                assert((key@, val@) == opt_pair(tv[i as int]));
            }
            let ghost old_r = r.deep_view();
            r.push((key, val));
            proof {
                assert(r.deep_view() =~~= old_r.push((key@, val@)));
                assert(old_r.push((key@, val@)) + opts_from(tv, i + 1) =~~= old_r + (seq![
                    opt_pair(tv[i as int]),
                ] + opts_from(tv, i + 1)));
            }
        } else {
            proof {
                assert(!has_eq(tv[i as int]));
            }
        }
        i = i + 1;
    }
    proof {
        assert(opts_from(tv, i as int) =~~= Seq::<(Seq<char>, Seq<char>)>::empty());
        assert(r.deep_view() + Seq::<(Seq<char>, Seq<char>)>::empty() =~~= r.deep_view());
    }
    r
}

/// Looks an attribute key up in a collected attribute list; the latest
/// occurrence wins, as `lookup` describes.
pub fn opt_find(opts: &Vec<(Vec<char>, Vec<char>)>, key: &str) -> (r: Option<Vec<char>>)
    ensures
        ({
            let s = lookup(opts.deep_view(), key@);
            match r {
                Some(v) => s == Some(v@),
                None => s == None::<Seq<char>>,
            }
        }),
{
    let ghost ov = opts.deep_view();
    let mut i: usize = opts.len();
    proof {
        assert(ov.take(i as int) =~~= ov);
    }
    while i > 0
        invariant
            i <= opts@.len(),
            ov == opts.deep_view(),
            ov.len() == opts@.len(),
            lookup(ov, key@) == lookup(ov.take(i as int), key@),
        decreases i,
    {
        i = i - 1;
        proof {
            assert(ov[i as int].0 =~= opts@[i as int].0@);
            assert(ov[i as int].1 =~= opts@[i as int].1@);
            assert(ov.take(i + 1).last() == ov[i as int]);
            assert(ov.take(i + 1).drop_last() =~~= ov.take(i as int));
        }
        if tok_eq(&opts[i].0, key) {
            let v = subvec(&opts[i].1, 0, opts[i].1.len());
            proof {
                assert(v@ =~= opts@[i as int].1@);
                assert(lookup(ov.take(i + 1), key@) == Some(v@));
            }
            return Some(v);
        }
    }
    proof {
        assert(ov.take(0) =~~= Seq::<(Seq<char>, Seq<char>)>::empty());
    }
    None
}

/// How a `ESessionCreated` line reads, given its tokens.
pub open spec fn ev_session_created(toks: Seq<Seq<char>>, name: Seq<char>) -> Result<EventV, ParseErrorV> {
    match pos_u32(toks, 1, name) {
        Err(e) => Err(e),
        Ok(session_id) => Ok(EventV::SessionCreated { session_id }),
    }
}

/// How a `ESessionDeleted` line reads, given its tokens.
pub open spec fn ev_session_deleted(toks: Seq<Seq<char>>, name: Seq<char>) -> Result<EventV, ParseErrorV> {
    match pos_u32(toks, 1, name) {
        Err(e) => Err(e),
        Ok(session_id) => Ok(EventV::SessionDeleted { session_id }),
    }
}

/// How a `EResourceCreated` line reads, given its tokens.
pub open spec fn ev_resource_created(toks: Seq<Seq<char>>, name: Seq<char>) -> Result<EventV, ParseErrorV> {
    match pos_u32(toks, 1, name) {
        Err(e) => Err(e),
        Ok(session_id) => match pos_u32(toks, 2, name) {
        Err(e) => Err(e),
        Ok(resource_id) => Ok(EventV::ResourceCreated { session_id, resource_id }),
    },
    }
}

/// How a `EResourceDeleted` line reads, given its tokens.
pub open spec fn ev_resource_deleted(toks: Seq<Seq<char>>, name: Seq<char>) -> Result<EventV, ParseErrorV> {
    match pos_u32(toks, 1, name) {
        Err(e) => Err(e),
        Ok(session_id) => match pos_u32(toks, 2, name) {
        Err(e) => Err(e),
        Ok(resource_id) => Ok(EventV::ResourceDeleted { session_id, resource_id }),
    },
    }
}

/// How a `EAudioLevelNotification` line reads, given its tokens.
pub open spec fn ev_audio_level_notification(toks: Seq<Seq<char>>, name: Seq<char>) -> Result<EventV, ParseErrorV> {
    match pos_u32(toks, 1, name) {
        Err(e) => Err(e),
        Ok(session_id) => match pos_u32(toks, 2, name) {
        Err(e) => Err(e),
        Ok(resource_id) => match pos_bool(toks, 3, name) {
        Err(e) => Err(e),
        Ok(in_talk) => match pos_u8(toks, 4, name) {
        Err(e) => Err(e),
        Ok(energy_level) => Ok(EventV::AudioLevelNotification { session_id, resource_id, in_talk, energy_level }),
    },
    },
    },
    }
}

/// How a `EStreamBufferStateNotification` line reads, given its tokens.
pub open spec fn ev_stream_buffer_state_notification(toks: Seq<Seq<char>>, name: Seq<char>) -> Result<EventV, ParseErrorV> {
    match pos_u32(toks, 1, name) {
        Err(e) => Err(e),
        Ok(session_id) => match pos_u32(toks, 2, name) {
        Err(e) => Err(e),
        Ok(resource_id) => match pos_u8(toks, 3, name) {
        Err(e) => Err(e),
        Ok(c3) => match EStreamBufferStateNotification::spec_from(c3) {
            None => Err(ParseErrorV::BadValue(toks[3])),
            Some(state) => Ok(EventV::StreamBufferStateNotification { session_id, resource_id, state }),
        },
    },
    },
    }
}

/// How a `ECallIncoming` line reads, given its tokens.
pub open spec fn ev_call_incoming(toks: Seq<Seq<char>>, name: Seq<char>) -> Result<EventV, ParseErrorV> {
    match pos_u32(toks, 1, name) {
        Err(e) => Err(e),
        Ok(session_id) => match pos_u32(toks, 2, name) {
        Err(e) => Err(e),
        Ok(resource_id) => match pos_str(toks, 3, name) {
        Err(e) => Err(e),
        Ok(call_identifier) => Ok(EventV::CallIncoming { session_id, resource_id, call_identifier, ani: opt_get(toks, 4, "ani"@), dnis: opt_get(toks, 4, "dnis"@), rdn: opt_get(toks, 4, "rdn"@), remote_name: opt_get(toks, 4, "remotename"@), remote_address: opt_get(toks, 4, "remoteaddress"@) }),
    },
    },
    }
}

/// How a `ECallOutgoing` line reads, given its tokens.
pub open spec fn ev_call_outgoing(toks: Seq<Seq<char>>, name: Seq<char>) -> Result<EventV, ParseErrorV> {
    match pos_u32(toks, 1, name) {
        Err(e) => Err(e),
        Ok(session_id) => match pos_u32(toks, 2, name) {
        Err(e) => Err(e),
        Ok(resource_id) => match pos_str(toks, 3, name) {
        Err(e) => Err(e),
        Ok(address) => match pos_str(toks, 4, name) {
        Err(e) => Err(e),
        Ok(call_identifier) => Ok(EventV::CallOutgoing { session_id, resource_id, address, call_identifier }),
    },
    },
    },
    }
}

/// How a `ECallRemoteAlerting` line reads, given its tokens.
pub open spec fn ev_call_remote_alerting(toks: Seq<Seq<char>>, name: Seq<char>) -> Result<EventV, ParseErrorV> {
    match pos_u32(toks, 1, name) {
        Err(e) => Err(e),
        Ok(session_id) => match pos_u32(toks, 2, name) {
        Err(e) => Err(e),
        Ok(resource_id) => Ok(EventV::CallRemoteAlerting { session_id, resource_id, user: opt_get(toks, 3, "user"@) }),
    },
    }
}

/// How a `ECallConnectionEstablished` line reads, given its tokens.
pub open spec fn ev_call_connection_established(toks: Seq<Seq<char>>, name: Seq<char>) -> Result<EventV, ParseErrorV> {
    match pos_u32(toks, 1, name) {
        Err(e) => Err(e),
        Ok(session_id) => match pos_u32(toks, 2, name) {
        Err(e) => Err(e),
        Ok(resource_id) => Ok(EventV::CallConnectionEstablished { session_id, resource_id }),
    },
    }
}

/// How a `ECallConnectionFailed` line reads, given its tokens.
pub open spec fn ev_call_connection_failed(toks: Seq<Seq<char>>, name: Seq<char>) -> Result<EventV, ParseErrorV> {
    match pos_u32(toks, 1, name) {
        Err(e) => Err(e),
        Ok(session_id) => match pos_u32(toks, 2, name) {
        Err(e) => Err(e),
        Ok(resource_id) => match pos_str(toks, 3, name) {
        Err(e) => Err(e),
        Ok(reason) => Ok(EventV::CallConnectionFailed { session_id, resource_id, reason, protocol_specific_reason: opt_get(toks, 4, "protocolspecificreason"@) }),
    },
    },
    }
}

/// How a `ECallCleared` line reads, given its tokens.
pub open spec fn ev_call_cleared(toks: Seq<Seq<char>>, name: Seq<char>) -> Result<EventV, ParseErrorV> {
    match pos_u32(toks, 1, name) {
        Err(e) => Err(e),
        Ok(session_id) => match pos_u32(toks, 2, name) {
        Err(e) => Err(e),
        Ok(resource_id) => match pos_str(toks, 3, name) {
        Err(e) => Err(e),
        Ok(reason) => Ok(EventV::CallCleared { session_id, resource_id, reason, protocol_specific_reason: opt_get(toks, 4, "protocolspecificreason"@) }),
    },
    },
    }
}

/// How a `ECallSendDTMFFinished` line reads, given its tokens.
pub open spec fn ev_call_send_dtmf_finished(toks: Seq<Seq<char>>, name: Seq<char>) -> Result<EventV, ParseErrorV> {
    match pos_u32(toks, 1, name) {
        Err(e) => Err(e),
        Ok(session_id) => match pos_u32(toks, 2, name) {
        Err(e) => Err(e),
        Ok(resource_id) => Ok(EventV::CallSendDTMFFinished { session_id, resource_id }),
    },
    }
}

/// How a `ECallKeyPress` line reads, given its tokens.
pub open spec fn ev_call_key_press(toks: Seq<Seq<char>>, name: Seq<char>) -> Result<EventV, ParseErrorV> {
    match pos_u32(toks, 1, name) {
        Err(e) => Err(e),
        Ok(session_id) => match pos_u32(toks, 2, name) {
        Err(e) => Err(e),
        Ok(resource_id) => match pos_str(toks, 3, name) {
        Err(e) => Err(e),
        Ok(key) => match opt_u16(toks, 4, "duration"@) {
        Err(e) => Err(e),
        Ok(duration) => Ok(EventV::CallKeyPress { session_id, resource_id, key, duration }),
    },
    },
    },
    }
}

/// How a `EPlayerStarted` line reads, given its tokens.
pub open spec fn ev_player_started(toks: Seq<Seq<char>>, name: Seq<char>) -> Result<EventV, ParseErrorV> {
    match pos_u32(toks, 1, name) {
        Err(e) => Err(e),
        Ok(session_id) => match pos_u32(toks, 2, name) {
        Err(e) => Err(e),
        Ok(resource_id) => Ok(EventV::PlayerStarted { session_id, resource_id }),
    },
    }
}

/// How a `EPlayerStopped` line reads, given its tokens.
pub open spec fn ev_player_stopped(toks: Seq<Seq<char>>, name: Seq<char>) -> Result<EventV, ParseErrorV> {
    match pos_u32(toks, 1, name) {
        Err(e) => Err(e),
        Ok(session_id) => match pos_u32(toks, 2, name) {
        Err(e) => Err(e),
        Ok(resource_id) => Ok(EventV::PlayerStopped { session_id, resource_id }),
    },
    }
}

/// How a `EPlayerError` line reads, given its tokens.
pub open spec fn ev_player_error(toks: Seq<Seq<char>>, name: Seq<char>) -> Result<EventV, ParseErrorV> {
    match pos_u32(toks, 1, name) {
        Err(e) => Err(e),
        Ok(session_id) => match pos_u32(toks, 2, name) {
        Err(e) => Err(e),
        Ok(resource_id) => match pos_str(toks, 3, name) {
        Err(e) => Err(e),
        Ok(error_text) => Ok(EventV::PlayerError { session_id, resource_id, error_text }),
    },
    },
    }
}

/// How a `ERecorderStarted` line reads, given its tokens.
pub open spec fn ev_recorder_started(toks: Seq<Seq<char>>, name: Seq<char>) -> Result<EventV, ParseErrorV> {
    match pos_u32(toks, 1, name) {
        Err(e) => Err(e),
        Ok(session_id) => match pos_u32(toks, 2, name) {
        Err(e) => Err(e),
        Ok(resource_id) => Ok(EventV::RecorderStarted { session_id, resource_id }),
    },
    }
}

/// How a `ERecorderStopped` line reads, given its tokens.
pub open spec fn ev_recorder_stopped(toks: Seq<Seq<char>>, name: Seq<char>) -> Result<EventV, ParseErrorV> {
    match pos_u32(toks, 1, name) {
        Err(e) => Err(e),
        Ok(session_id) => match pos_u32(toks, 2, name) {
        Err(e) => Err(e),
        Ok(resource_id) => match pos_u8(toks, 3, name) {
        Err(e) => Err(e),
        Ok(c3) => match RecorderStopReason::spec_from(c3) {
            None => Err(ParseErrorV::BadValue(toks[3])),
            Some(reason) => Ok(EventV::RecorderStopped { session_id, resource_id, reason }),
        },
    },
    },
    }
}

/// How a `ERecorderError` line reads, given its tokens.
pub open spec fn ev_recorder_error(toks: Seq<Seq<char>>, name: Seq<char>) -> Result<EventV, ParseErrorV> {
    match pos_u32(toks, 1, name) {
        Err(e) => Err(e),
        Ok(session_id) => match pos_u32(toks, 2, name) {
        Err(e) => Err(e),
        Ok(resource_id) => match pos_str(toks, 3, name) {
        Err(e) => Err(e),
        Ok(error_text) => Ok(EventV::RecorderError { session_id, resource_id, error_text }),
    },
    },
    }
}

/// How a `ERecorderVoiceTrigger` line reads, given its tokens.
pub open spec fn ev_recorder_voice_trigger(toks: Seq<Seq<char>>, name: Seq<char>) -> Result<EventV, ParseErrorV> {
    match pos_u32(toks, 1, name) {
        Err(e) => Err(e),
        Ok(session_id) => match pos_u32(toks, 2, name) {
        Err(e) => Err(e),
        Ok(resource_id) => Ok(EventV::RecorderVoiceTrigger { session_id, resource_id }),
    },
    }
}

/// How a `ERtpChannelStartedReceiving` line reads, given its tokens.
pub open spec fn ev_rtp_channel_started_receiving(toks: Seq<Seq<char>>, name: Seq<char>) -> Result<EventV, ParseErrorV> {
    match pos_u32(toks, 1, name) {
        Err(e) => Err(e),
        Ok(session_id) => match pos_u32(toks, 2, name) {
        Err(e) => Err(e),
        Ok(resource_id) => match pos_str(toks, 3, name) {
        Err(e) => Err(e),
        Ok(receiver_data_address) => match opt_payload(toks, 4, "rtppayloadtype"@) {
        Err(e) => Err(e),
        Ok(rtp_payload_type) => Ok(EventV::RtpChannelStartedReceiving { session_id, resource_id, receiver_data_address, receiver_control_address: opt_get(toks, 4, "receivercontroladdress"@), rtp_payload_type }),
    },
    },
    },
    }
}

/// How a `ERtpChannelStartedSending` line reads, given its tokens.
pub open spec fn ev_rtp_channel_started_sending(toks: Seq<Seq<char>>, name: Seq<char>) -> Result<EventV, ParseErrorV> {
    match pos_u32(toks, 1, name) {
        Err(e) => Err(e),
        Ok(session_id) => match pos_u32(toks, 2, name) {
        Err(e) => Err(e),
        Ok(resource_id) => match opt_payload(toks, 3, "rtppayloadtype"@) {
        Err(e) => Err(e),
        Ok(rtp_payload_type) => Ok(EventV::RtpChannelStartedSending { session_id, resource_id, sender_control_address: opt_get(toks, 3, "sendercontroladdress"@), rtp_payload_type }),
    },
    },
    }
}

/// How a `ERtpChannelSendDTMFFinished` line reads, given its tokens.
pub open spec fn ev_rtp_channel_send_dtmf_finished(toks: Seq<Seq<char>>, name: Seq<char>) -> Result<EventV, ParseErrorV> {
    match pos_u32(toks, 1, name) {
        Err(e) => Err(e),
        Ok(session_id) => match pos_u32(toks, 2, name) {
        Err(e) => Err(e),
        Ok(resource_id) => Ok(EventV::RtpChannelSendDTMFFinished { session_id, resource_id }),
    },
    }
}

/// How a `ERtpChannelReceivedDTMF` line reads, given its tokens.
pub open spec fn ev_rtp_channel_received_dtmf(toks: Seq<Seq<char>>, name: Seq<char>) -> Result<EventV, ParseErrorV> {
    match pos_u32(toks, 1, name) {
        Err(e) => Err(e),
        Ok(session_id) => match pos_u32(toks, 2, name) {
        Err(e) => Err(e),
        Ok(resource_id) => match pos_str(toks, 3, name) {
        Err(e) => Err(e),
        Ok(key) => match opt_u16(toks, 4, "duration"@) {
        Err(e) => Err(e),
        Ok(duration) => Ok(EventV::RtpChannelReceivedDTMF { session_id, resource_id, key, duration }),
    },
    },
    },
    }
}

/// How a `ERtpChannelStopped` line reads, given its tokens.
pub open spec fn ev_rtp_channel_stopped(toks: Seq<Seq<char>>, name: Seq<char>) -> Result<EventV, ParseErrorV> {
    match pos_u32(toks, 1, name) {
        Err(e) => Err(e),
        Ok(session_id) => match pos_u32(toks, 2, name) {
        Err(e) => Err(e),
        Ok(resource_id) => Ok(EventV::RtpChannelStopped { session_id, resource_id }),
    },
    }
}

/// How a `ESoundDeviceStarted` line reads, given its tokens.
pub open spec fn ev_sound_device_started(toks: Seq<Seq<char>>, name: Seq<char>) -> Result<EventV, ParseErrorV> {
    match pos_u32(toks, 1, name) {
        Err(e) => Err(e),
        Ok(session_id) => match pos_u32(toks, 2, name) {
        Err(e) => Err(e),
        Ok(resource_id) => Ok(EventV::SoundDeviceStarted { session_id, resource_id }),
    },
    }
}

/// How a `ESoundDeviceStopped` line reads, given its tokens.
pub open spec fn ev_sound_device_stopped(toks: Seq<Seq<char>>, name: Seq<char>) -> Result<EventV, ParseErrorV> {
    match pos_u32(toks, 1, name) {
        Err(e) => Err(e),
        Ok(session_id) => match pos_u32(toks, 2, name) {
        Err(e) => Err(e),
        Ok(resource_id) => Ok(EventV::SoundDeviceStopped { session_id, resource_id }),
    },
    }
}

/// How a `ESoundDeviceError` line reads, given its tokens.
pub open spec fn ev_sound_device_error(toks: Seq<Seq<char>>, name: Seq<char>) -> Result<EventV, ParseErrorV> {
    match pos_u32(toks, 1, name) {
        Err(e) => Err(e),
        Ok(session_id) => match pos_u32(toks, 2, name) {
        Err(e) => Err(e),
        Ok(resource_id) => Ok(EventV::SoundDeviceError { session_id, resource_id }),
    },
    }
}

/// How a `EModeChangeT38` line reads, given its tokens.
pub open spec fn ev_mode_change_t38(toks: Seq<Seq<char>>, name: Seq<char>) -> Result<EventV, ParseErrorV> {
    match pos_u32(toks, 1, name) {
        Err(e) => Err(e),
        Ok(session_id) => match pos_u32(toks, 2, name) {
        Err(e) => Err(e),
        Ok(resource_id) => Ok(EventV::ModeChangeT38 { session_id, resource_id }),
    },
    }
}

/// How a `EModeChangeT38Refused` line reads, given its tokens.
pub open spec fn ev_mode_change_t38_refused(toks: Seq<Seq<char>>, name: Seq<char>) -> Result<EventV, ParseErrorV> {
    match pos_u32(toks, 1, name) {
        Err(e) => Err(e),
        Ok(session_id) => match pos_u32(toks, 2, name) {
        Err(e) => Err(e),
        Ok(resource_id) => Ok(EventV::ModeChangeT38Refused { session_id, resource_id }),
    },
    }
}

/// How a `EFaxIncoming` line reads, given its tokens.
pub open spec fn ev_fax_incoming(toks: Seq<Seq<char>>, name: Seq<char>) -> Result<EventV, ParseErrorV> {
    match pos_u32(toks, 1, name) {
        Err(e) => Err(e),
        Ok(session_id) => match pos_u32(toks, 2, name) {
        Err(e) => Err(e),
        Ok(resource_id) => Ok(EventV::FaxIncoming { session_id, resource_id }),
    },
    }
}

/// How a `EFacsimilePageStarted` line reads, given its tokens.
pub open spec fn ev_facsimile_page_started(toks: Seq<Seq<char>>, name: Seq<char>) -> Result<EventV, ParseErrorV> {
    match pos_u32(toks, 1, name) {
        Err(e) => Err(e),
        Ok(session_id) => match pos_u32(toks, 2, name) {
        Err(e) => Err(e),
        Ok(resource_id) => match pos_u16(toks, 3, name) {
        Err(e) => Err(e),
        Ok(c3) => match FaxSendSpeed::spec_from(c3) {
            None => Err(ParseErrorV::BadValue(toks[3])),
            Some(speed) => match pos_u8(toks, 4, name) {
        Err(e) => Err(e),
        Ok(c4) => match DocumentPreparePaperSize::spec_from(c4) {
            None => Err(ParseErrorV::BadValue(toks[4])),
            Some(paper_size) => match pos_u8(toks, 5, name) {
        Err(e) => Err(e),
        Ok(c5) => match DocumentPrepareResolution::spec_from(c5) {
            None => Err(ParseErrorV::BadValue(toks[5])),
            Some(resolution) => match pos_u8(toks, 6, name) {
        Err(e) => Err(e),
        Ok(c6) => match ECM::spec_from(c6) {
            None => Err(ParseErrorV::BadValue(toks[6])),
            Some(ecm) => Ok(EventV::FacsimilePageStarted { session_id, resource_id, speed, paper_size, resolution, ecm }),
        },
    },
        },
    },
        },
    },
        },
    },
    },
    }
}

/// How a `EFacsimilePageReceived` line reads, given its tokens.
pub open spec fn ev_facsimile_page_received(toks: Seq<Seq<char>>, name: Seq<char>) -> Result<EventV, ParseErrorV> {
    match pos_u32(toks, 1, name) {
        Err(e) => Err(e),
        Ok(session_id) => match pos_u32(toks, 2, name) {
        Err(e) => Err(e),
        Ok(resource_id) => Ok(EventV::FacsimilePageReceived { session_id, resource_id }),
    },
    }
}

/// How a `EFacsimilePageSent` line reads, given its tokens.
pub open spec fn ev_facsimile_page_sent(toks: Seq<Seq<char>>, name: Seq<char>) -> Result<EventV, ParseErrorV> {
    match pos_u32(toks, 1, name) {
        Err(e) => Err(e),
        Ok(session_id) => match pos_u32(toks, 2, name) {
        Err(e) => Err(e),
        Ok(resource_id) => Ok(EventV::FacsimilePageSent { session_id, resource_id }),
    },
    }
}

/// How a `EFaxOperationsStarted` line reads, given its tokens.
pub open spec fn ev_fax_operations_started(toks: Seq<Seq<char>>, name: Seq<char>) -> Result<EventV, ParseErrorV> {
    match pos_u32(toks, 1, name) {
        Err(e) => Err(e),
        Ok(session_id) => match pos_u32(toks, 2, name) {
        Err(e) => Err(e),
        Ok(resource_id) => Ok(EventV::FaxOperationsStarted { session_id, resource_id }),
    },
    }
}

/// How a `EFaxOperationFailed` line reads, given its tokens.
pub open spec fn ev_fax_operation_failed(toks: Seq<Seq<char>>, name: Seq<char>) -> Result<EventV, ParseErrorV> {
    match pos_u32(toks, 1, name) {
        Err(e) => Err(e),
        Ok(session_id) => match pos_u32(toks, 2, name) {
        Err(e) => Err(e),
        Ok(resource_id) => Ok(EventV::FaxOperationFailed { session_id, resource_id }),
    },
    }
}

/// How a `EFaxOperationFinished` line reads, given its tokens.
pub open spec fn ev_fax_operation_finished(toks: Seq<Seq<char>>, name: Seq<char>) -> Result<EventV, ParseErrorV> {
    match pos_u32(toks, 1, name) {
        Err(e) => Err(e),
        Ok(session_id) => match pos_u32(toks, 2, name) {
        Err(e) => Err(e),
        Ok(resource_id) => Ok(EventV::FaxOperationFinished { session_id, resource_id }),
    },
    }
}

/// How a `EFaxOperationAborted` line reads, given its tokens.
pub open spec fn ev_fax_operation_aborted(toks: Seq<Seq<char>>, name: Seq<char>) -> Result<EventV, ParseErrorV> {
    match pos_u32(toks, 1, name) {
        Err(e) => Err(e),
        Ok(session_id) => match pos_u32(toks, 2, name) {
        Err(e) => Err(e),
        Ok(resource_id) => Ok(EventV::FaxOperationAborted { session_id, resource_id }),
    },
    }
}

/// How a `EDocumentPrepared` line reads, given its tokens.
pub open spec fn ev_document_prepared(toks: Seq<Seq<char>>, name: Seq<char>) -> Result<EventV, ParseErrorV> {
    match pos_u32(toks, 1, name) {
        Err(e) => Err(e),
        Ok(session_id) => match pos_u32(toks, 2, name) {
        Err(e) => Err(e),
        Ok(resource_id) => Ok(EventV::DocumentPrepared { session_id, resource_id }),
    },
    }
}

/// How a `EDocumentNotPrepared` line reads, given its tokens.
pub open spec fn ev_document_not_prepared(toks: Seq<Seq<char>>, name: Seq<char>) -> Result<EventV, ParseErrorV> {
    match pos_u32(toks, 1, name) {
        Err(e) => Err(e),
        Ok(session_id) => match pos_u32(toks, 2, name) {
        Err(e) => Err(e),
        Ok(resource_id) => match pos_str(toks, 3, name) {
        Err(e) => Err(e),
        Ok(reason) => Ok(EventV::DocumentNotPrepared { session_id, resource_id, reason }),
    },
    },
    }
}

/// How a `EDocumentSaved` line reads, given its tokens.
pub open spec fn ev_document_saved(toks: Seq<Seq<char>>, name: Seq<char>) -> Result<EventV, ParseErrorV> {
    match pos_u32(toks, 1, name) {
        Err(e) => Err(e),
        Ok(session_id) => match pos_u32(toks, 2, name) {
        Err(e) => Err(e),
        Ok(resource_id) => Ok(EventV::DocumentSaved { session_id, resource_id }),
    },
    }
}

/// How a `EDocumentNotSaved` line reads, given its tokens.
pub open spec fn ev_document_not_saved(toks: Seq<Seq<char>>, name: Seq<char>) -> Result<EventV, ParseErrorV> {
    match pos_u32(toks, 1, name) {
        Err(e) => Err(e),
        Ok(session_id) => match pos_u32(toks, 2, name) {
        Err(e) => Err(e),
        Ok(resource_id) => match pos_str(toks, 3, name) {
        Err(e) => Err(e),
        Ok(reason) => Ok(EventV::DocumentNotSaved { session_id, resource_id, reason }),
    },
    },
    }
}

/// How a `EDocumentCleared` line reads, given its tokens.
pub open spec fn ev_document_cleared(toks: Seq<Seq<char>>, name: Seq<char>) -> Result<EventV, ParseErrorV> {
    match pos_u32(toks, 1, name) {
        Err(e) => Err(e),
        Ok(session_id) => match pos_u32(toks, 2, name) {
        Err(e) => Err(e),
        Ok(resource_id) => Ok(EventV::DocumentCleared { session_id, resource_id }),
    },
    }
}

/// Reads a token list as an event: the first token picks the kind, the rest
/// are its fields. The redundant length and character tests ahead of each
/// name comparison let the verifier tell the names apart cheaply.
pub open spec fn parse_tokens_spec(toks: Seq<Seq<char>>) -> Result<EventV, ParseErrorV> {
    let name = toks[0];
    if name.len() == 15 && name[8] == 'C' && name == "ESessionCreated"@ {
        ev_session_created(toks, name)
    } else if name.len() == 15 && name[8] == 'D' && name == "ESessionDeleted"@ {
        ev_session_deleted(toks, name)
    } else if name.len() == 16 && name[1] == 'R' && name[9] == 'C' && name == "EResourceCreated"@ {
        ev_resource_created(toks, name)
    } else if name.len() == 16 && name[9] == 'D' && name == "EResourceDeleted"@ {
        ev_resource_deleted(toks, name)
    } else if name.len() == 23 && name[1] == 'A' && name == "EAudioLevelNotification"@ {
        ev_audio_level_notification(toks, name)
    } else if name.len() == 30 && name == "EStreamBufferStateNotification"@ {
        ev_stream_buffer_state_notification(toks, name)
    } else if name.len() == 13 && name[5] == 'I' && name == "ECallIncoming"@ {
        ev_call_incoming(toks, name)
    } else if name.len() == 13 && name[5] == 'O' && name == "ECallOutgoing"@ {
        ev_call_outgoing(toks, name)
    } else if name.len() == 19 && name[1] == 'C' && name == "ECallRemoteAlerting"@ {
        ev_call_remote_alerting(toks, name)
    } else if name.len() == 26 && name == "ECallConnectionEstablished"@ {
        ev_call_connection_established(toks, name)
    } else if name.len() == 21 && name[1] == 'C' && name[5] == 'C' && name == "ECallConnectionFailed"@ {
        ev_call_connection_failed(toks, name)
    } else if name.len() == 12 && name[1] == 'C' && name == "ECallCleared"@ {
        ev_call_cleared(toks, name)
    } else if name.len() == 21 && name[5] == 'S' && name == "ECallSendDTMFFinished"@ {
        ev_call_send_dtmf_finished(toks, name)
    } else if name.len() == 13 && name[5] == 'K' && name == "ECallKeyPress"@ {
        ev_call_key_press(toks, name)
    } else if name.len() == 14 && name[9] == 'a' && name == "EPlayerStarted"@ {
        ev_player_started(toks, name)
    } else if name.len() == 14 && name[9] == 'o' && name == "EPlayerStopped"@ {
        ev_player_stopped(toks, name)
    } else if name.len() == 12 && name[1] == 'P' && name == "EPlayerError"@ {
        ev_player_error(toks, name)
    } else if name.len() == 16 && name[3] == 'c' && name[11] == 'a' && name == "ERecorderStarted"@ {
        ev_recorder_started(toks, name)
    } else if name.len() == 16 && name[3] == 'c' && name[11] == 'o' && name == "ERecorderStopped"@ {
        ev_recorder_stopped(toks, name)
    } else if name.len() == 14 && name[1] == 'R' && name == "ERecorderError"@ {
        ev_recorder_error(toks, name)
    } else if name.len() == 21 && name[1] == 'R' && name == "ERecorderVoiceTrigger"@ {
        ev_recorder_voice_trigger(toks, name)
    } else if name.len() == 27 && name[12] == 't' && name == "ERtpChannelStartedReceiving"@ {
        ev_rtp_channel_started_receiving(toks, name)
    } else if name.len() == 25 && name == "ERtpChannelStartedSending"@ {
        ev_rtp_channel_started_sending(toks, name)
    } else if name.len() == 27 && name[12] == 'e' && name == "ERtpChannelSendDTMFFinished"@ {
        ev_rtp_channel_send_dtmf_finished(toks, name)
    } else if name.len() == 23 && name[1] == 'R' && name == "ERtpChannelReceivedDTMF"@ {
        ev_rtp_channel_received_dtmf(toks, name)
    } else if name.len() == 18 && name[1] == 'R' && name == "ERtpChannelStopped"@ {
        ev_rtp_channel_stopped(toks, name)
    } else if name.len() == 19 && name[1] == 'S' && name[14] == 'a' && name == "ESoundDeviceStarted"@ {
        ev_sound_device_started(toks, name)
    } else if name.len() == 19 && name[1] == 'S' && name[14] == 'o' && name == "ESoundDeviceStopped"@ {
        ev_sound_device_stopped(toks, name)
    } else if name.len() == 17 && name[1] == 'S' && name == "ESoundDeviceError"@ {
        ev_sound_device_error(toks, name)
    } else if name.len() == 14 && name[1] == 'M' && name == "EModeChangeT38"@ {
        ev_mode_change_t38(toks, name)
    } else if name.len() == 21 && name[1] == 'M' && name == "EModeChangeT38Refused"@ {
        ev_mode_change_t38_refused(toks, name)
    } else if name.len() == 12 && name[1] == 'F' && name == "EFaxIncoming"@ {
        ev_fax_incoming(toks, name)
    } else if name.len() == 21 && name[1] == 'F' && name[3] == 'c' && name == "EFacsimilePageStarted"@ {
        ev_facsimile_page_started(toks, name)
    } else if name.len() == 22 && name == "EFacsimilePageReceived"@ {
        ev_facsimile_page_received(toks, name)
    } else if name.len() == 18 && name[1] == 'F' && name == "EFacsimilePageSent"@ {
        ev_facsimile_page_sent(toks, name)
    } else if name.len() == 21 && name[1] == 'F' && name[3] == 'x' && name[13] == 's' && name == "EFaxOperationsStarted"@ {
        ev_fax_operations_started(toks, name)
    } else if name.len() == 19 && name[1] == 'F' && name == "EFaxOperationFailed"@ {
        ev_fax_operation_failed(toks, name)
    } else if name.len() == 21 && name[1] == 'F' && name[3] == 'x' && name[13] == 'F' && name == "EFaxOperationFinished"@ {
        ev_fax_operation_finished(toks, name)
    } else if name.len() == 20 && name[1] == 'F' && name == "EFaxOperationAborted"@ {
        ev_fax_operation_aborted(toks, name)
    } else if name.len() == 17 && name[1] == 'D' && name[9] == 'P' && name == "EDocumentPrepared"@ {
        ev_document_prepared(toks, name)
    } else if name.len() == 20 && name[1] == 'D' && name == "EDocumentNotPrepared"@ {
        ev_document_not_prepared(toks, name)
    } else if name.len() == 14 && name[1] == 'D' && name == "EDocumentSaved"@ {
        ev_document_saved(toks, name)
    } else if name.len() == 17 && name[1] == 'D' && name[9] == 'N' && name == "EDocumentNotSaved"@ {
        ev_document_not_saved(toks, name)
    } else if name.len() == 16 && name[1] == 'D' && name == "EDocumentCleared"@ {
        ev_document_cleared(toks, name)
    } else {
        Err(ParseErrorV::UnknownEvent(name))
    }
}

/// How one received line reads: comment stripped, tokens split; a blank
/// line is a no-op, anything else is an event or a typed error.
pub open spec fn parse_line_spec(s: Seq<char>) -> Result<Option<EventV>, ParseErrorV> {
    let toks = line_tokens(s);
    if toks.len() == 0 {
        Ok(None)
    } else {
        match parse_tokens_spec(toks) {
            Ok(e) => Ok(Some(e)),
            Err(e) => Err(e),
        }
    }
}

/// Exec reading of a `ESessionCreated` line, as `ev_session_created` describes.
fn parse_session_created(toks: &Vec<Vec<char>>, name: &Vec<char>) -> (r: Result<Event, ParseEventError>)
    requires
        toks@.len() >= 1,
    ensures
        ({
            let s = ev_session_created(toks.deep_view(), name@);
            match r {
                Ok(e) => s == Ok::<EventV, ParseErrorV>(e@),
                Err(e) => s == Err::<EventV, ParseErrorV>(e@),
            }
        }),
{
    proof {
        assert(toks.deep_view().len() == toks@.len());
        assert forall|k: int| 0 <= k < toks@.len() implies toks.deep_view()[k] =~= toks@[k]@ by {}
    }
    let session_id = match parse_pos(toks, 1, name) {
        Ok(v) => v,
        Err(e) => return Err(e),
    };
    Ok(Event::SessionCreated(SessionCreated { session_id }))
}

/// Exec reading of a `ESessionDeleted` line, as `ev_session_deleted` describes.
fn parse_session_deleted(toks: &Vec<Vec<char>>, name: &Vec<char>) -> (r: Result<Event, ParseEventError>)
    requires
        toks@.len() >= 1,
    ensures
        ({
            let s = ev_session_deleted(toks.deep_view(), name@);
            match r {
                Ok(e) => s == Ok::<EventV, ParseErrorV>(e@),
                Err(e) => s == Err::<EventV, ParseErrorV>(e@),
            }
        }),
{
    proof {
        assert(toks.deep_view().len() == toks@.len());
        assert forall|k: int| 0 <= k < toks@.len() implies toks.deep_view()[k] =~= toks@[k]@ by {}
    }
    let session_id = match parse_pos(toks, 1, name) {
        Ok(v) => v,
        Err(e) => return Err(e),
    };
    Ok(Event::SessionDeleted(SessionDeleted { session_id }))
}

/// Exec reading of a `EResourceCreated` line, as `ev_resource_created` describes.
fn parse_resource_created(toks: &Vec<Vec<char>>, name: &Vec<char>) -> (r: Result<Event, ParseEventError>)
    requires
        toks@.len() >= 1,
    ensures
        ({
            let s = ev_resource_created(toks.deep_view(), name@);
            match r {
                Ok(e) => s == Ok::<EventV, ParseErrorV>(e@),
                Err(e) => s == Err::<EventV, ParseErrorV>(e@),
            }
        }),
{
    proof {
        assert(toks.deep_view().len() == toks@.len());
        assert forall|k: int| 0 <= k < toks@.len() implies toks.deep_view()[k] =~= toks@[k]@ by {}
    }
    let session_id = match parse_pos(toks, 1, name) {
        Ok(v) => v,
        Err(e) => return Err(e),
    };
    let resource_id = match parse_pos(toks, 2, name) {
        Ok(v) => v,
        Err(e) => return Err(e),
    };
    Ok(Event::ResourceCreated(ResourceCreated { session_id, resource_id }))
}

/// Exec reading of a `EResourceDeleted` line, as `ev_resource_deleted` describes.
fn parse_resource_deleted(toks: &Vec<Vec<char>>, name: &Vec<char>) -> (r: Result<Event, ParseEventError>)
    requires
        toks@.len() >= 1,
    ensures
        ({
            let s = ev_resource_deleted(toks.deep_view(), name@);
            match r {
                Ok(e) => s == Ok::<EventV, ParseErrorV>(e@),
                Err(e) => s == Err::<EventV, ParseErrorV>(e@),
            }
        }),
{
    proof {
        assert(toks.deep_view().len() == toks@.len());
        assert forall|k: int| 0 <= k < toks@.len() implies toks.deep_view()[k] =~= toks@[k]@ by {}
    }
    let session_id = match parse_pos(toks, 1, name) {
        Ok(v) => v,
        Err(e) => return Err(e),
    };
    let resource_id = match parse_pos(toks, 2, name) {
        Ok(v) => v,
        Err(e) => return Err(e),
    };
    Ok(Event::ResourceDeleted(ResourceDeleted { session_id, resource_id }))
}

/// Exec reading of a `EAudioLevelNotification` line, as `ev_audio_level_notification` describes.
fn parse_audio_level_notification(toks: &Vec<Vec<char>>, name: &Vec<char>) -> (r: Result<Event, ParseEventError>)
    requires
        toks@.len() >= 1,
    ensures
        ({
            let s = ev_audio_level_notification(toks.deep_view(), name@);
            match r {
                Ok(e) => s == Ok::<EventV, ParseErrorV>(e@),
                Err(e) => s == Err::<EventV, ParseErrorV>(e@),
            }
        }),
{
    proof {
        assert(toks.deep_view().len() == toks@.len());
        assert forall|k: int| 0 <= k < toks@.len() implies toks.deep_view()[k] =~= toks@[k]@ by {}
    }
    let session_id = match parse_pos(toks, 1, name) {
        Ok(v) => v,
        Err(e) => return Err(e),
    };
    let resource_id = match parse_pos(toks, 2, name) {
        Ok(v) => v,
        Err(e) => return Err(e),
    };
    let in_talk = match parse_pos_bool(toks, 3, name) {
        Ok(v) => v,
        Err(e) => return Err(e),
    };
    let energy_level = match parse_pos_u8(toks, 4, name) {
        Ok(v) => v,
        Err(e) => return Err(e),
    };
    Ok(Event::AudioLevelNotification(AudioLevelNotification { session_id, resource_id, in_talk, energy_level }))
}

/// Exec reading of a `EStreamBufferStateNotification` line, as `ev_stream_buffer_state_notification` describes.
fn parse_stream_buffer_state_notification(toks: &Vec<Vec<char>>, name: &Vec<char>) -> (r: Result<Event, ParseEventError>)
    requires
        toks@.len() >= 1,
    ensures
        ({
            let s = ev_stream_buffer_state_notification(toks.deep_view(), name@);
            match r {
                Ok(e) => s == Ok::<EventV, ParseErrorV>(e@),
                Err(e) => s == Err::<EventV, ParseErrorV>(e@),
            }
        }),
{
    proof {
        assert(toks.deep_view().len() == toks@.len());
        assert forall|k: int| 0 <= k < toks@.len() implies toks.deep_view()[k] =~= toks@[k]@ by {}
    }
    let session_id = match parse_pos(toks, 1, name) {
        Ok(v) => v,
        Err(e) => return Err(e),
    };
    let resource_id = match parse_pos(toks, 2, name) {
        Ok(v) => v,
        Err(e) => return Err(e),
    };
    let c3 = match parse_pos_u8(toks, 3, name) {
        Ok(v) => v,
        Err(e) => return Err(e),
    };
    let state = match EStreamBufferStateNotification::from_u8(c3) {
        Ok(v) => v,
        Err(_) => return Err(ParseEventError::BadValue(vec_to_string(&toks[3]))),
    };
    Ok(Event::StreamBufferStateNotification(StreamBufferStateNotification { session_id, resource_id, state }))
}

/// Exec reading of a `ECallIncoming` line, as `ev_call_incoming` describes.
fn parse_call_incoming(toks: &Vec<Vec<char>>, name: &Vec<char>) -> (r: Result<Event, ParseEventError>)
    requires
        toks@.len() >= 1,
    ensures
        ({
            let s = ev_call_incoming(toks.deep_view(), name@);
            match r {
                Ok(e) => s == Ok::<EventV, ParseErrorV>(e@),
                Err(e) => s == Err::<EventV, ParseErrorV>(e@),
            }
        }),
{
    proof {
        assert(toks.deep_view().len() == toks@.len());
        assert forall|k: int| 0 <= k < toks@.len() implies toks.deep_view()[k] =~= toks@[k]@ by {}
    }
    let session_id = match parse_pos(toks, 1, name) {
        Ok(v) => v,
        Err(e) => return Err(e),
    };
    let resource_id = match parse_pos(toks, 2, name) {
        Ok(v) => v,
        Err(e) => return Err(e),
    };
    let call_identifier = match parse_pos_str(toks, 3, name) {
        Ok(v) => v,
        Err(e) => return Err(e),
    };
    let opts = parse_opts(toks, 4);
    let ani = match opt_find(&opts, "ani") {
        Some(v) => Some(vec_to_string(&v)),
        None => None,
    };
    let dnis = match opt_find(&opts, "dnis") {
        Some(v) => Some(vec_to_string(&v)),
        None => None,
    };
    let rdn = match opt_find(&opts, "rdn") {
        Some(v) => Some(vec_to_string(&v)),
        None => None,
    };
    let remote_name = match opt_find(&opts, "remotename") {
        Some(v) => Some(vec_to_string(&v)),
        None => None,
    };
    let remote_address = match opt_find(&opts, "remoteaddress") {
        Some(v) => Some(vec_to_string(&v)),
        None => None,
    };
    Ok(Event::CallIncoming(CallIncoming { session_id, resource_id, call_identifier, ani, dnis, rdn, remote_name, remote_address }))
}

/// Exec reading of a `ECallOutgoing` line, as `ev_call_outgoing` describes.
fn parse_call_outgoing(toks: &Vec<Vec<char>>, name: &Vec<char>) -> (r: Result<Event, ParseEventError>)
    requires
        toks@.len() >= 1,
    ensures
        ({
            let s = ev_call_outgoing(toks.deep_view(), name@);
            match r {
                Ok(e) => s == Ok::<EventV, ParseErrorV>(e@),
                Err(e) => s == Err::<EventV, ParseErrorV>(e@),
            }
        }),
{
    proof {
        assert(toks.deep_view().len() == toks@.len());
        assert forall|k: int| 0 <= k < toks@.len() implies toks.deep_view()[k] =~= toks@[k]@ by {}
    }
    let session_id = match parse_pos(toks, 1, name) {
        Ok(v) => v,
        Err(e) => return Err(e),
    };
    let resource_id = match parse_pos(toks, 2, name) {
        Ok(v) => v,
        Err(e) => return Err(e),
    };
    let address = match parse_pos_str(toks, 3, name) {
        Ok(v) => v,
        Err(e) => return Err(e),
    };
    let call_identifier = match parse_pos_str(toks, 4, name) {
        Ok(v) => v,
        Err(e) => return Err(e),
    };
    Ok(Event::CallOutgoing(CallOutgoing { session_id, resource_id, address, call_identifier }))
}

/// Exec reading of a `ECallRemoteAlerting` line, as `ev_call_remote_alerting` describes.
fn parse_call_remote_alerting(toks: &Vec<Vec<char>>, name: &Vec<char>) -> (r: Result<Event, ParseEventError>)
    requires
        toks@.len() >= 1,
    ensures
        ({
            let s = ev_call_remote_alerting(toks.deep_view(), name@);
            match r {
                Ok(e) => s == Ok::<EventV, ParseErrorV>(e@),
                Err(e) => s == Err::<EventV, ParseErrorV>(e@),
            }
        }),
{
    proof {
        assert(toks.deep_view().len() == toks@.len());
        assert forall|k: int| 0 <= k < toks@.len() implies toks.deep_view()[k] =~= toks@[k]@ by {}
    }
    let session_id = match parse_pos(toks, 1, name) {
        Ok(v) => v,
        Err(e) => return Err(e),
    };
    let resource_id = match parse_pos(toks, 2, name) {
        Ok(v) => v,
        Err(e) => return Err(e),
    };
    let opts = parse_opts(toks, 3);
    let user = match opt_find(&opts, "user") {
        Some(v) => Some(vec_to_string(&v)),
        None => None,
    };
    Ok(Event::CallRemoteAlerting(CallRemoteAlerting { session_id, resource_id, user }))
}

/// Exec reading of a `ECallConnectionEstablished` line, as `ev_call_connection_established` describes.
fn parse_call_connection_established(toks: &Vec<Vec<char>>, name: &Vec<char>) -> (r: Result<Event, ParseEventError>)
    requires
        toks@.len() >= 1,
    ensures
        ({
            let s = ev_call_connection_established(toks.deep_view(), name@);
            match r {
                Ok(e) => s == Ok::<EventV, ParseErrorV>(e@),
                Err(e) => s == Err::<EventV, ParseErrorV>(e@),
            }
        }),
{
    proof {
        assert(toks.deep_view().len() == toks@.len());
        assert forall|k: int| 0 <= k < toks@.len() implies toks.deep_view()[k] =~= toks@[k]@ by {}
    }
    let session_id = match parse_pos(toks, 1, name) {
        Ok(v) => v,
        Err(e) => return Err(e),
    };
    let resource_id = match parse_pos(toks, 2, name) {
        Ok(v) => v,
        Err(e) => return Err(e),
    };
    Ok(Event::CallConnectionEstablished(CallConnectionEstablished { session_id, resource_id }))
}

/// Exec reading of a `ECallConnectionFailed` line, as `ev_call_connection_failed` describes.
fn parse_call_connection_failed(toks: &Vec<Vec<char>>, name: &Vec<char>) -> (r: Result<Event, ParseEventError>)
    requires
        toks@.len() >= 1,
    ensures
        ({
            let s = ev_call_connection_failed(toks.deep_view(), name@);
            match r {
                Ok(e) => s == Ok::<EventV, ParseErrorV>(e@),
                Err(e) => s == Err::<EventV, ParseErrorV>(e@),
            }
        }),
{
    proof {
        assert(toks.deep_view().len() == toks@.len());
        assert forall|k: int| 0 <= k < toks@.len() implies toks.deep_view()[k] =~= toks@[k]@ by {}
    }
    let session_id = match parse_pos(toks, 1, name) {
        Ok(v) => v,
        Err(e) => return Err(e),
    };
    let resource_id = match parse_pos(toks, 2, name) {
        Ok(v) => v,
        Err(e) => return Err(e),
    };
    let reason = match parse_pos_str(toks, 3, name) {
        Ok(v) => v,
        Err(e) => return Err(e),
    };
    let opts = parse_opts(toks, 4);
    let protocol_specific_reason = match opt_find(&opts, "protocolspecificreason") {
        Some(v) => Some(vec_to_string(&v)),
        None => None,
    };
    Ok(Event::CallConnectionFailed(CallConnectionFailed { session_id, resource_id, reason, protocol_specific_reason }))
}

/// Exec reading of a `ECallCleared` line, as `ev_call_cleared` describes.
fn parse_call_cleared(toks: &Vec<Vec<char>>, name: &Vec<char>) -> (r: Result<Event, ParseEventError>)
    requires
        toks@.len() >= 1,
    ensures
        ({
            let s = ev_call_cleared(toks.deep_view(), name@);
            match r {
                Ok(e) => s == Ok::<EventV, ParseErrorV>(e@),
                Err(e) => s == Err::<EventV, ParseErrorV>(e@),
            }
        }),
{
    proof {
        assert(toks.deep_view().len() == toks@.len());
        assert forall|k: int| 0 <= k < toks@.len() implies toks.deep_view()[k] =~= toks@[k]@ by {}
    }
    let session_id = match parse_pos(toks, 1, name) {
        Ok(v) => v,
        Err(e) => return Err(e),
    };
    let resource_id = match parse_pos(toks, 2, name) {
        Ok(v) => v,
        Err(e) => return Err(e),
    };
    let reason = match parse_pos_str(toks, 3, name) {
        Ok(v) => v,
        Err(e) => return Err(e),
    };
    let opts = parse_opts(toks, 4);
    let protocol_specific_reason = match opt_find(&opts, "protocolspecificreason") {
        Some(v) => Some(vec_to_string(&v)),
        None => None,
    };
    Ok(Event::CallCleared(CallCleared { session_id, resource_id, reason, protocol_specific_reason }))
}

/// Exec reading of a `ECallSendDTMFFinished` line, as `ev_call_send_dtmf_finished` describes.
fn parse_call_send_dtmf_finished(toks: &Vec<Vec<char>>, name: &Vec<char>) -> (r: Result<Event, ParseEventError>)
    requires
        toks@.len() >= 1,
    ensures
        ({
            let s = ev_call_send_dtmf_finished(toks.deep_view(), name@);
            match r {
                Ok(e) => s == Ok::<EventV, ParseErrorV>(e@),
                Err(e) => s == Err::<EventV, ParseErrorV>(e@),
            }
        }),
{
    proof {
        assert(toks.deep_view().len() == toks@.len());
        assert forall|k: int| 0 <= k < toks@.len() implies toks.deep_view()[k] =~= toks@[k]@ by {}
    }
    let session_id = match parse_pos(toks, 1, name) {
        Ok(v) => v,
        Err(e) => return Err(e),
    };
    let resource_id = match parse_pos(toks, 2, name) {
        Ok(v) => v,
        Err(e) => return Err(e),
    };
    Ok(Event::CallSendDTMFFinished(CallSendDTMFFinished { session_id, resource_id }))
}

/// Exec reading of a `ECallKeyPress` line, as `ev_call_key_press` describes.
fn parse_call_key_press(toks: &Vec<Vec<char>>, name: &Vec<char>) -> (r: Result<Event, ParseEventError>)
    requires
        toks@.len() >= 1,
    ensures
        ({
            let s = ev_call_key_press(toks.deep_view(), name@);
            match r {
                Ok(e) => s == Ok::<EventV, ParseErrorV>(e@),
                Err(e) => s == Err::<EventV, ParseErrorV>(e@),
            }
        }),
{
    proof {
        assert(toks.deep_view().len() == toks@.len());
        assert forall|k: int| 0 <= k < toks@.len() implies toks.deep_view()[k] =~= toks@[k]@ by {}
    }
    let session_id = match parse_pos(toks, 1, name) {
        Ok(v) => v,
        Err(e) => return Err(e),
    };
    let resource_id = match parse_pos(toks, 2, name) {
        Ok(v) => v,
        Err(e) => return Err(e),
    };
    let key = match parse_pos_str(toks, 3, name) {
        Ok(v) => v,
        Err(e) => return Err(e),
    };
    let opts = parse_opts(toks, 4);
    let duration = match opt_find(&opts, "duration") {
        None => None,
        Some(v) => match parse_u64_tok(&v) {
            Some(n) if n <= u16::MAX as u64 => Some(n as u16),
            _ => return Err(ParseEventError::BadValue(vec_to_string(&v))),
        },
    };
    Ok(Event::CallKeyPress(CallKeyPress { session_id, resource_id, key, duration }))
}

/// Exec reading of a `EPlayerStarted` line, as `ev_player_started` describes.
fn parse_player_started(toks: &Vec<Vec<char>>, name: &Vec<char>) -> (r: Result<Event, ParseEventError>)
    requires
        toks@.len() >= 1,
    ensures
        ({
            let s = ev_player_started(toks.deep_view(), name@);
            match r {
                Ok(e) => s == Ok::<EventV, ParseErrorV>(e@),
                Err(e) => s == Err::<EventV, ParseErrorV>(e@),
            }
        }),
{
    proof {
        assert(toks.deep_view().len() == toks@.len());
        assert forall|k: int| 0 <= k < toks@.len() implies toks.deep_view()[k] =~= toks@[k]@ by {}
    }
    let session_id = match parse_pos(toks, 1, name) {
        Ok(v) => v,
        Err(e) => return Err(e),
    };
    let resource_id = match parse_pos(toks, 2, name) {
        Ok(v) => v,
        Err(e) => return Err(e),
    };
    Ok(Event::PlayerStarted(PlayerStarted { session_id, resource_id }))
}

/// Exec reading of a `EPlayerStopped` line, as `ev_player_stopped` describes.
fn parse_player_stopped(toks: &Vec<Vec<char>>, name: &Vec<char>) -> (r: Result<Event, ParseEventError>)
    requires
        toks@.len() >= 1,
    ensures
        ({
            let s = ev_player_stopped(toks.deep_view(), name@);
            match r {
                Ok(e) => s == Ok::<EventV, ParseErrorV>(e@),
                Err(e) => s == Err::<EventV, ParseErrorV>(e@),
            }
        }),
{
    proof {
        assert(toks.deep_view().len() == toks@.len());
        assert forall|k: int| 0 <= k < toks@.len() implies toks.deep_view()[k] =~= toks@[k]@ by {}
    }
    let session_id = match parse_pos(toks, 1, name) {
        Ok(v) => v,
        Err(e) => return Err(e),
    };
    let resource_id = match parse_pos(toks, 2, name) {
        Ok(v) => v,
        Err(e) => return Err(e),
    };
    Ok(Event::PlayerStopped(PlayerStopped { session_id, resource_id }))
}

/// Exec reading of a `EPlayerError` line, as `ev_player_error` describes.
fn parse_player_error(toks: &Vec<Vec<char>>, name: &Vec<char>) -> (r: Result<Event, ParseEventError>)
    requires
        toks@.len() >= 1,
    ensures
        ({
            let s = ev_player_error(toks.deep_view(), name@);
            match r {
                Ok(e) => s == Ok::<EventV, ParseErrorV>(e@),
                Err(e) => s == Err::<EventV, ParseErrorV>(e@),
            }
        }),
{
    proof {
        assert(toks.deep_view().len() == toks@.len());
        assert forall|k: int| 0 <= k < toks@.len() implies toks.deep_view()[k] =~= toks@[k]@ by {}
    }
    let session_id = match parse_pos(toks, 1, name) {
        Ok(v) => v,
        Err(e) => return Err(e),
    };
    let resource_id = match parse_pos(toks, 2, name) {
        Ok(v) => v,
        Err(e) => return Err(e),
    };
    let error_text = match parse_pos_str(toks, 3, name) {
        Ok(v) => v,
        Err(e) => return Err(e),
    };
    Ok(Event::PlayerError(PlayerError { session_id, resource_id, error_text }))
}

/// Exec reading of a `ERecorderStarted` line, as `ev_recorder_started` describes.
fn parse_recorder_started(toks: &Vec<Vec<char>>, name: &Vec<char>) -> (r: Result<Event, ParseEventError>)
    requires
        toks@.len() >= 1,
    ensures
        ({
            let s = ev_recorder_started(toks.deep_view(), name@);
            match r {
                Ok(e) => s == Ok::<EventV, ParseErrorV>(e@),
                Err(e) => s == Err::<EventV, ParseErrorV>(e@),
            }
        }),
{
    proof {
        assert(toks.deep_view().len() == toks@.len());
        assert forall|k: int| 0 <= k < toks@.len() implies toks.deep_view()[k] =~= toks@[k]@ by {}
    }
    let session_id = match parse_pos(toks, 1, name) {
        Ok(v) => v,
        Err(e) => return Err(e),
    };
    let resource_id = match parse_pos(toks, 2, name) {
        Ok(v) => v,
        Err(e) => return Err(e),
    };
    Ok(Event::RecorderStarted(RecorderStarted { session_id, resource_id }))
}

/// Exec reading of a `ERecorderStopped` line, as `ev_recorder_stopped` describes.
fn parse_recorder_stopped(toks: &Vec<Vec<char>>, name: &Vec<char>) -> (r: Result<Event, ParseEventError>)
    requires
        toks@.len() >= 1,
    ensures
        ({
            let s = ev_recorder_stopped(toks.deep_view(), name@);
            match r {
                Ok(e) => s == Ok::<EventV, ParseErrorV>(e@),
                Err(e) => s == Err::<EventV, ParseErrorV>(e@),
            }
        }),
{
    proof {
        assert(toks.deep_view().len() == toks@.len());
        assert forall|k: int| 0 <= k < toks@.len() implies toks.deep_view()[k] =~= toks@[k]@ by {}
    }
    let session_id = match parse_pos(toks, 1, name) {
        Ok(v) => v,
        Err(e) => return Err(e),
    };
    let resource_id = match parse_pos(toks, 2, name) {
        Ok(v) => v,
        Err(e) => return Err(e),
    };
    let c3 = match parse_pos_u8(toks, 3, name) {
        Ok(v) => v,
        Err(e) => return Err(e),
    };
    let reason = match RecorderStopReason::from_u8(c3) {
        Ok(v) => v,
        Err(_) => return Err(ParseEventError::BadValue(vec_to_string(&toks[3]))),
    };
    Ok(Event::RecorderStopped(RecorderStopped { session_id, resource_id, reason }))
}

/// Exec reading of a `ERecorderError` line, as `ev_recorder_error` describes.
fn parse_recorder_error(toks: &Vec<Vec<char>>, name: &Vec<char>) -> (r: Result<Event, ParseEventError>)
    requires
        toks@.len() >= 1,
    ensures
        ({
            let s = ev_recorder_error(toks.deep_view(), name@);
            match r {
                Ok(e) => s == Ok::<EventV, ParseErrorV>(e@),
                Err(e) => s == Err::<EventV, ParseErrorV>(e@),
            }
        }),
{
    proof {
        assert(toks.deep_view().len() == toks@.len());
        assert forall|k: int| 0 <= k < toks@.len() implies toks.deep_view()[k] =~= toks@[k]@ by {}
    }
    let session_id = match parse_pos(toks, 1, name) {
        Ok(v) => v,
        Err(e) => return Err(e),
    };
    let resource_id = match parse_pos(toks, 2, name) {
        Ok(v) => v,
        Err(e) => return Err(e),
    };
    let error_text = match parse_pos_str(toks, 3, name) {
        Ok(v) => v,
        Err(e) => return Err(e),
    };
    Ok(Event::RecorderError(RecorderError { session_id, resource_id, error_text }))
}

/// Exec reading of a `ERecorderVoiceTrigger` line, as `ev_recorder_voice_trigger` describes.
fn parse_recorder_voice_trigger(toks: &Vec<Vec<char>>, name: &Vec<char>) -> (r: Result<Event, ParseEventError>)
    requires
        toks@.len() >= 1,
    ensures
        ({
            let s = ev_recorder_voice_trigger(toks.deep_view(), name@);
            match r {
                Ok(e) => s == Ok::<EventV, ParseErrorV>(e@),
                Err(e) => s == Err::<EventV, ParseErrorV>(e@),
            }
        }),
{
    proof {
        assert(toks.deep_view().len() == toks@.len());
        assert forall|k: int| 0 <= k < toks@.len() implies toks.deep_view()[k] =~= toks@[k]@ by {}
    }
    let session_id = match parse_pos(toks, 1, name) {
        Ok(v) => v,
        Err(e) => return Err(e),
    };
    let resource_id = match parse_pos(toks, 2, name) {
        Ok(v) => v,
        Err(e) => return Err(e),
    };
    Ok(Event::RecorderVoiceTrigger(RecorderVoiceTrigger { session_id, resource_id }))
}

/// Exec reading of a `ERtpChannelStartedReceiving` line, as `ev_rtp_channel_started_receiving` describes.
fn parse_rtp_channel_started_receiving(toks: &Vec<Vec<char>>, name: &Vec<char>) -> (r: Result<Event, ParseEventError>)
    requires
        toks@.len() >= 1,
    ensures
        ({
            let s = ev_rtp_channel_started_receiving(toks.deep_view(), name@);
            match r {
                Ok(e) => s == Ok::<EventV, ParseErrorV>(e@),
                Err(e) => s == Err::<EventV, ParseErrorV>(e@),
            }
        }),
{
    proof {
        assert(toks.deep_view().len() == toks@.len());
        assert forall|k: int| 0 <= k < toks@.len() implies toks.deep_view()[k] =~= toks@[k]@ by {}
    }
    let session_id = match parse_pos(toks, 1, name) {
        Ok(v) => v,
        Err(e) => return Err(e),
    };
    let resource_id = match parse_pos(toks, 2, name) {
        Ok(v) => v,
        Err(e) => return Err(e),
    };
    let receiver_data_address = match parse_pos_str(toks, 3, name) {
        Ok(v) => v,
        Err(e) => return Err(e),
    };
    let opts = parse_opts(toks, 4);
    let receiver_control_address = match opt_find(&opts, "receivercontroladdress") {
        Some(v) => Some(vec_to_string(&v)),
        None => None,
    };
    let rtp_payload_type = match opt_find(&opts, "rtppayloadtype") {
        None => None,
        Some(v) => match parse_u64_tok(&v) {
            Some(n) if n <= u8::MAX as u64 => match PayloadType::from_u8(n as u8) {
                Ok(p) => Some(p),
                Err(_) => return Err(ParseEventError::BadValue(vec_to_string(&v))),
            },
            _ => return Err(ParseEventError::BadValue(vec_to_string(&v))),
        },
    };
    Ok(Event::RtpChannelStartedReceiving(RtpChannelStartedReceiving { session_id, resource_id, receiver_data_address, receiver_control_address, rtp_payload_type }))
}

/// Exec reading of a `ERtpChannelStartedSending` line, as `ev_rtp_channel_started_sending` describes.
fn parse_rtp_channel_started_sending(toks: &Vec<Vec<char>>, name: &Vec<char>) -> (r: Result<Event, ParseEventError>)
    requires
        toks@.len() >= 1,
    ensures
        ({
            let s = ev_rtp_channel_started_sending(toks.deep_view(), name@);
            match r {
                Ok(e) => s == Ok::<EventV, ParseErrorV>(e@),
                Err(e) => s == Err::<EventV, ParseErrorV>(e@),
            }
        }),
{
    proof {
        assert(toks.deep_view().len() == toks@.len());
        assert forall|k: int| 0 <= k < toks@.len() implies toks.deep_view()[k] =~= toks@[k]@ by {}
    }
    let session_id = match parse_pos(toks, 1, name) {
        Ok(v) => v,
        Err(e) => return Err(e),
    };
    let resource_id = match parse_pos(toks, 2, name) {
        Ok(v) => v,
        Err(e) => return Err(e),
    };
    let opts = parse_opts(toks, 3);
    let sender_control_address = match opt_find(&opts, "sendercontroladdress") {
        Some(v) => Some(vec_to_string(&v)),
        None => None,
    };
    let rtp_payload_type = match opt_find(&opts, "rtppayloadtype") {
        None => None,
        Some(v) => match parse_u64_tok(&v) {
            Some(n) if n <= u8::MAX as u64 => match PayloadType::from_u8(n as u8) {
                Ok(p) => Some(p),
                Err(_) => return Err(ParseEventError::BadValue(vec_to_string(&v))),
            },
            _ => return Err(ParseEventError::BadValue(vec_to_string(&v))),
        },
    };
    Ok(Event::RtpChannelStartedSending(RtpChannelStartedSending { session_id, resource_id, sender_control_address, rtp_payload_type }))
}

/// Exec reading of a `ERtpChannelSendDTMFFinished` line, as `ev_rtp_channel_send_dtmf_finished` describes.
fn parse_rtp_channel_send_dtmf_finished(toks: &Vec<Vec<char>>, name: &Vec<char>) -> (r: Result<Event, ParseEventError>)
    requires
        toks@.len() >= 1,
    ensures
        ({
            let s = ev_rtp_channel_send_dtmf_finished(toks.deep_view(), name@);
            match r {
                Ok(e) => s == Ok::<EventV, ParseErrorV>(e@),
                Err(e) => s == Err::<EventV, ParseErrorV>(e@),
            }
        }),
{
    proof {
        assert(toks.deep_view().len() == toks@.len());
        assert forall|k: int| 0 <= k < toks@.len() implies toks.deep_view()[k] =~= toks@[k]@ by {}
    }
    let session_id = match parse_pos(toks, 1, name) {
        Ok(v) => v,
        Err(e) => return Err(e),
    };
    let resource_id = match parse_pos(toks, 2, name) {
        Ok(v) => v,
        Err(e) => return Err(e),
    };
    Ok(Event::RtpChannelSendDTMFFinished(RtpChannelSendDTMFFinished { session_id, resource_id }))
}

/// Exec reading of a `ERtpChannelReceivedDTMF` line, as `ev_rtp_channel_received_dtmf` describes.
fn parse_rtp_channel_received_dtmf(toks: &Vec<Vec<char>>, name: &Vec<char>) -> (r: Result<Event, ParseEventError>)
    requires
        toks@.len() >= 1,
    ensures
        ({
            let s = ev_rtp_channel_received_dtmf(toks.deep_view(), name@);
            match r {
                Ok(e) => s == Ok::<EventV, ParseErrorV>(e@),
                Err(e) => s == Err::<EventV, ParseErrorV>(e@),
            }
        }),
{
    proof {
        assert(toks.deep_view().len() == toks@.len());
        assert forall|k: int| 0 <= k < toks@.len() implies toks.deep_view()[k] =~= toks@[k]@ by {}
    }
    let session_id = match parse_pos(toks, 1, name) {
        Ok(v) => v,
        Err(e) => return Err(e),
    };
    let resource_id = match parse_pos(toks, 2, name) {
        Ok(v) => v,
        Err(e) => return Err(e),
    };
    let key = match parse_pos_str(toks, 3, name) {
        Ok(v) => v,
        Err(e) => return Err(e),
    };
    let opts = parse_opts(toks, 4);
    let duration = match opt_find(&opts, "duration") {
        None => None,
        Some(v) => match parse_u64_tok(&v) {
            Some(n) if n <= u16::MAX as u64 => Some(n as u16),
            _ => return Err(ParseEventError::BadValue(vec_to_string(&v))),
        },
    };
    Ok(Event::RtpChannelReceivedDTMF(RtpChannelReceivedDTMF { session_id, resource_id, key, duration }))
}

/// Exec reading of a `ERtpChannelStopped` line, as `ev_rtp_channel_stopped` describes.
fn parse_rtp_channel_stopped(toks: &Vec<Vec<char>>, name: &Vec<char>) -> (r: Result<Event, ParseEventError>)
    requires
        toks@.len() >= 1,
    ensures
        ({
            let s = ev_rtp_channel_stopped(toks.deep_view(), name@);
            match r {
                Ok(e) => s == Ok::<EventV, ParseErrorV>(e@),
                Err(e) => s == Err::<EventV, ParseErrorV>(e@),
            }
        }),
{
    proof {
        assert(toks.deep_view().len() == toks@.len());
        assert forall|k: int| 0 <= k < toks@.len() implies toks.deep_view()[k] =~= toks@[k]@ by {}
    }
    let session_id = match parse_pos(toks, 1, name) {
        Ok(v) => v,
        Err(e) => return Err(e),
    };
    let resource_id = match parse_pos(toks, 2, name) {
        Ok(v) => v,
        Err(e) => return Err(e),
    };
    Ok(Event::RtpChannelStopped(RtpChannelStopped { session_id, resource_id }))
}

/// Exec reading of a `ESoundDeviceStarted` line, as `ev_sound_device_started` describes.
fn parse_sound_device_started(toks: &Vec<Vec<char>>, name: &Vec<char>) -> (r: Result<Event, ParseEventError>)
    requires
        toks@.len() >= 1,
    ensures
        ({
            let s = ev_sound_device_started(toks.deep_view(), name@);
            match r {
                Ok(e) => s == Ok::<EventV, ParseErrorV>(e@),
                Err(e) => s == Err::<EventV, ParseErrorV>(e@),
            }
        }),
{
    proof {
        assert(toks.deep_view().len() == toks@.len());
        assert forall|k: int| 0 <= k < toks@.len() implies toks.deep_view()[k] =~= toks@[k]@ by {}
    }
    let session_id = match parse_pos(toks, 1, name) {
        Ok(v) => v,
        Err(e) => return Err(e),
    };
    let resource_id = match parse_pos(toks, 2, name) {
        Ok(v) => v,
        Err(e) => return Err(e),
    };
    Ok(Event::SoundDeviceStarted(SoundDeviceStarted { session_id, resource_id }))
}

/// Exec reading of a `ESoundDeviceStopped` line, as `ev_sound_device_stopped` describes.
fn parse_sound_device_stopped(toks: &Vec<Vec<char>>, name: &Vec<char>) -> (r: Result<Event, ParseEventError>)
    requires
        toks@.len() >= 1,
    ensures
        ({
            let s = ev_sound_device_stopped(toks.deep_view(), name@);
            match r {
                Ok(e) => s == Ok::<EventV, ParseErrorV>(e@),
                Err(e) => s == Err::<EventV, ParseErrorV>(e@),
            }
        }),
{
    proof {
        assert(toks.deep_view().len() == toks@.len());
        assert forall|k: int| 0 <= k < toks@.len() implies toks.deep_view()[k] =~= toks@[k]@ by {}
    }
    let session_id = match parse_pos(toks, 1, name) {
        Ok(v) => v,
        Err(e) => return Err(e),
    };
    let resource_id = match parse_pos(toks, 2, name) {
        Ok(v) => v,
        Err(e) => return Err(e),
    };
    Ok(Event::SoundDeviceStopped(SoundDeviceStopped { session_id, resource_id }))
}

/// Exec reading of a `ESoundDeviceError` line, as `ev_sound_device_error` describes.
fn parse_sound_device_error(toks: &Vec<Vec<char>>, name: &Vec<char>) -> (r: Result<Event, ParseEventError>)
    requires
        toks@.len() >= 1,
    ensures
        ({
            let s = ev_sound_device_error(toks.deep_view(), name@);
            match r {
                Ok(e) => s == Ok::<EventV, ParseErrorV>(e@),
                Err(e) => s == Err::<EventV, ParseErrorV>(e@),
            }
        }),
{
    proof {
        assert(toks.deep_view().len() == toks@.len());
        assert forall|k: int| 0 <= k < toks@.len() implies toks.deep_view()[k] =~= toks@[k]@ by {}
    }
    let session_id = match parse_pos(toks, 1, name) {
        Ok(v) => v,
        Err(e) => return Err(e),
    };
    let resource_id = match parse_pos(toks, 2, name) {
        Ok(v) => v,
        Err(e) => return Err(e),
    };
    Ok(Event::SoundDeviceError(SoundDeviceError { session_id, resource_id }))
}

/// Exec reading of a `EModeChangeT38` line, as `ev_mode_change_t38` describes.
fn parse_mode_change_t38(toks: &Vec<Vec<char>>, name: &Vec<char>) -> (r: Result<Event, ParseEventError>)
    requires
        toks@.len() >= 1,
    ensures
        ({
            let s = ev_mode_change_t38(toks.deep_view(), name@);
            match r {
                Ok(e) => s == Ok::<EventV, ParseErrorV>(e@),
                Err(e) => s == Err::<EventV, ParseErrorV>(e@),
            }
        }),
{
    proof {
        assert(toks.deep_view().len() == toks@.len());
        assert forall|k: int| 0 <= k < toks@.len() implies toks.deep_view()[k] =~= toks@[k]@ by {}
    }
    let session_id = match parse_pos(toks, 1, name) {
        Ok(v) => v,
        Err(e) => return Err(e),
    };
    let resource_id = match parse_pos(toks, 2, name) {
        Ok(v) => v,
        Err(e) => return Err(e),
    };
    Ok(Event::ModeChangeT38(ModeChangeT38 { session_id, resource_id }))
}

/// Exec reading of a `EModeChangeT38Refused` line, as `ev_mode_change_t38_refused` describes.
fn parse_mode_change_t38_refused(toks: &Vec<Vec<char>>, name: &Vec<char>) -> (r: Result<Event, ParseEventError>)
    requires
        toks@.len() >= 1,
    ensures
        ({
            let s = ev_mode_change_t38_refused(toks.deep_view(), name@);
            match r {
                Ok(e) => s == Ok::<EventV, ParseErrorV>(e@),
                Err(e) => s == Err::<EventV, ParseErrorV>(e@),
            }
        }),
{
    proof {
        assert(toks.deep_view().len() == toks@.len());
        assert forall|k: int| 0 <= k < toks@.len() implies toks.deep_view()[k] =~= toks@[k]@ by {}
    }
    let session_id = match parse_pos(toks, 1, name) {
        Ok(v) => v,
        Err(e) => return Err(e),
    };
    let resource_id = match parse_pos(toks, 2, name) {
        Ok(v) => v,
        Err(e) => return Err(e),
    };
    Ok(Event::ModeChangeT38Refused(ModeChangeT38Refused { session_id, resource_id }))
}

/// Exec reading of a `EFaxIncoming` line, as `ev_fax_incoming` describes.
fn parse_fax_incoming(toks: &Vec<Vec<char>>, name: &Vec<char>) -> (r: Result<Event, ParseEventError>)
    requires
        toks@.len() >= 1,
    ensures
        ({
            let s = ev_fax_incoming(toks.deep_view(), name@);
            match r {
                Ok(e) => s == Ok::<EventV, ParseErrorV>(e@),
                Err(e) => s == Err::<EventV, ParseErrorV>(e@),
            }
        }),
{
    proof {
        assert(toks.deep_view().len() == toks@.len());
        assert forall|k: int| 0 <= k < toks@.len() implies toks.deep_view()[k] =~= toks@[k]@ by {}
    }
    let session_id = match parse_pos(toks, 1, name) {
        Ok(v) => v,
        Err(e) => return Err(e),
    };
    let resource_id = match parse_pos(toks, 2, name) {
        Ok(v) => v,
        Err(e) => return Err(e),
    };
    Ok(Event::FaxIncoming(FaxIncoming { session_id, resource_id }))
}

/// Exec reading of a `EFacsimilePageStarted` line, as `ev_facsimile_page_started` describes.
fn parse_facsimile_page_started(toks: &Vec<Vec<char>>, name: &Vec<char>) -> (r: Result<Event, ParseEventError>)
    requires
        toks@.len() >= 1,
    ensures
        ({
            let s = ev_facsimile_page_started(toks.deep_view(), name@);
            match r {
                Ok(e) => s == Ok::<EventV, ParseErrorV>(e@),
                Err(e) => s == Err::<EventV, ParseErrorV>(e@),
            }
        }),
{
    proof {
        assert(toks.deep_view().len() == toks@.len());
        assert forall|k: int| 0 <= k < toks@.len() implies toks.deep_view()[k] =~= toks@[k]@ by {}
    }
    let session_id = match parse_pos(toks, 1, name) {
        Ok(v) => v,
        Err(e) => return Err(e),
    };
    let resource_id = match parse_pos(toks, 2, name) {
        Ok(v) => v,
        Err(e) => return Err(e),
    };
    let c3 = match parse_pos_u16(toks, 3, name) {
        Ok(v) => v,
        Err(e) => return Err(e),
    };
    let speed = match FaxSendSpeed::from_u16(c3) {
        Ok(v) => v,
        Err(_) => return Err(ParseEventError::BadValue(vec_to_string(&toks[3]))),
    };
    let c4 = match parse_pos_u8(toks, 4, name) {
        Ok(v) => v,
        Err(e) => return Err(e),
    };
    let paper_size = match DocumentPreparePaperSize::from_u8(c4) {
        Ok(v) => v,
        Err(_) => return Err(ParseEventError::BadValue(vec_to_string(&toks[4]))),
    };
    let c5 = match parse_pos_u8(toks, 5, name) {
        Ok(v) => v,
        Err(e) => return Err(e),
    };
    let resolution = match DocumentPrepareResolution::from_u8(c5) {
        Ok(v) => v,
        Err(_) => return Err(ParseEventError::BadValue(vec_to_string(&toks[5]))),
    };
    let c6 = match parse_pos_u8(toks, 6, name) {
        Ok(v) => v,
        Err(e) => return Err(e),
    };
    let ecm = match ECM::from_u8(c6) {
        Ok(v) => v,
        Err(_) => return Err(ParseEventError::BadValue(vec_to_string(&toks[6]))),
    };
    Ok(Event::FacsimilePageStarted(FacsimilePageStarted { session_id, resource_id, speed, paper_size, resolution, ecm }))
}

/// Exec reading of a `EFacsimilePageReceived` line, as `ev_facsimile_page_received` describes.
fn parse_facsimile_page_received(toks: &Vec<Vec<char>>, name: &Vec<char>) -> (r: Result<Event, ParseEventError>)
    requires
        toks@.len() >= 1,
    ensures
        ({
            let s = ev_facsimile_page_received(toks.deep_view(), name@);
            match r {
                Ok(e) => s == Ok::<EventV, ParseErrorV>(e@),
                Err(e) => s == Err::<EventV, ParseErrorV>(e@),
            }
        }),
{
    proof {
        assert(toks.deep_view().len() == toks@.len());
        assert forall|k: int| 0 <= k < toks@.len() implies toks.deep_view()[k] =~= toks@[k]@ by {}
    }
    let session_id = match parse_pos(toks, 1, name) {
        Ok(v) => v,
        Err(e) => return Err(e),
    };
    let resource_id = match parse_pos(toks, 2, name) {
        Ok(v) => v,
        Err(e) => return Err(e),
    };
    Ok(Event::FacsimilePageReceived(FacsimilePageReceived { session_id, resource_id }))
}

/// Exec reading of a `EFacsimilePageSent` line, as `ev_facsimile_page_sent` describes.
fn parse_facsimile_page_sent(toks: &Vec<Vec<char>>, name: &Vec<char>) -> (r: Result<Event, ParseEventError>)
    requires
        toks@.len() >= 1,
    ensures
        ({
            let s = ev_facsimile_page_sent(toks.deep_view(), name@);
            match r {
                Ok(e) => s == Ok::<EventV, ParseErrorV>(e@),
                Err(e) => s == Err::<EventV, ParseErrorV>(e@),
            }
        }),
{
    proof {
        assert(toks.deep_view().len() == toks@.len());
        assert forall|k: int| 0 <= k < toks@.len() implies toks.deep_view()[k] =~= toks@[k]@ by {}
    }
    let session_id = match parse_pos(toks, 1, name) {
        Ok(v) => v,
        Err(e) => return Err(e),
    };
    let resource_id = match parse_pos(toks, 2, name) {
        Ok(v) => v,
        Err(e) => return Err(e),
    };
    Ok(Event::FacsimilePageSent(FacsimilePageSent { session_id, resource_id }))
}

/// Exec reading of a `EFaxOperationsStarted` line, as `ev_fax_operations_started` describes.
fn parse_fax_operations_started(toks: &Vec<Vec<char>>, name: &Vec<char>) -> (r: Result<Event, ParseEventError>)
    requires
        toks@.len() >= 1,
    ensures
        ({
            let s = ev_fax_operations_started(toks.deep_view(), name@);
            match r {
                Ok(e) => s == Ok::<EventV, ParseErrorV>(e@),
                Err(e) => s == Err::<EventV, ParseErrorV>(e@),
            }
        }),
{
    proof {
        assert(toks.deep_view().len() == toks@.len());
        assert forall|k: int| 0 <= k < toks@.len() implies toks.deep_view()[k] =~= toks@[k]@ by {}
    }
    let session_id = match parse_pos(toks, 1, name) {
        Ok(v) => v,
        Err(e) => return Err(e),
    };
    let resource_id = match parse_pos(toks, 2, name) {
        Ok(v) => v,
        Err(e) => return Err(e),
    };
    Ok(Event::FaxOperationsStarted(FaxOperationsStarted { session_id, resource_id }))
}

/// Exec reading of a `EFaxOperationFailed` line, as `ev_fax_operation_failed` describes.
fn parse_fax_operation_failed(toks: &Vec<Vec<char>>, name: &Vec<char>) -> (r: Result<Event, ParseEventError>)
    requires
        toks@.len() >= 1,
    ensures
        ({
            let s = ev_fax_operation_failed(toks.deep_view(), name@);
            match r {
                Ok(e) => s == Ok::<EventV, ParseErrorV>(e@),
                Err(e) => s == Err::<EventV, ParseErrorV>(e@),
            }
        }),
{
    proof {
        assert(toks.deep_view().len() == toks@.len());
        assert forall|k: int| 0 <= k < toks@.len() implies toks.deep_view()[k] =~= toks@[k]@ by {}
    }
    let session_id = match parse_pos(toks, 1, name) {
        Ok(v) => v,
        Err(e) => return Err(e),
    };
    let resource_id = match parse_pos(toks, 2, name) {
        Ok(v) => v,
        Err(e) => return Err(e),
    };
    Ok(Event::FaxOperationFailed(FaxOperationFailed { session_id, resource_id }))
}

/// Exec reading of a `EFaxOperationFinished` line, as `ev_fax_operation_finished` describes.
fn parse_fax_operation_finished(toks: &Vec<Vec<char>>, name: &Vec<char>) -> (r: Result<Event, ParseEventError>)
    requires
        toks@.len() >= 1,
    ensures
        ({
            let s = ev_fax_operation_finished(toks.deep_view(), name@);
            match r {
                Ok(e) => s == Ok::<EventV, ParseErrorV>(e@),
                Err(e) => s == Err::<EventV, ParseErrorV>(e@),
            }
        }),
{
    proof {
        assert(toks.deep_view().len() == toks@.len());
        assert forall|k: int| 0 <= k < toks@.len() implies toks.deep_view()[k] =~= toks@[k]@ by {}
    }
    let session_id = match parse_pos(toks, 1, name) {
        Ok(v) => v,
        Err(e) => return Err(e),
    };
    let resource_id = match parse_pos(toks, 2, name) {
        Ok(v) => v,
        Err(e) => return Err(e),
    };
    Ok(Event::FaxOperationFinished(FaxOperationFinished { session_id, resource_id }))
}

/// Exec reading of a `EFaxOperationAborted` line, as `ev_fax_operation_aborted` describes.
fn parse_fax_operation_aborted(toks: &Vec<Vec<char>>, name: &Vec<char>) -> (r: Result<Event, ParseEventError>)
    requires
        toks@.len() >= 1,
    ensures
        ({
            let s = ev_fax_operation_aborted(toks.deep_view(), name@);
            match r {
                Ok(e) => s == Ok::<EventV, ParseErrorV>(e@),
                Err(e) => s == Err::<EventV, ParseErrorV>(e@),
            }
        }),
{
    proof {
        assert(toks.deep_view().len() == toks@.len());
        assert forall|k: int| 0 <= k < toks@.len() implies toks.deep_view()[k] =~= toks@[k]@ by {}
    }
    let session_id = match parse_pos(toks, 1, name) {
        Ok(v) => v,
        Err(e) => return Err(e),
    };
    let resource_id = match parse_pos(toks, 2, name) {
        Ok(v) => v,
        Err(e) => return Err(e),
    };
    Ok(Event::FaxOperationAborted(FaxOperationAborted { session_id, resource_id }))
}

/// Exec reading of a `EDocumentPrepared` line, as `ev_document_prepared` describes.
fn parse_document_prepared(toks: &Vec<Vec<char>>, name: &Vec<char>) -> (r: Result<Event, ParseEventError>)
    requires
        toks@.len() >= 1,
    ensures
        ({
            let s = ev_document_prepared(toks.deep_view(), name@);
            match r {
                Ok(e) => s == Ok::<EventV, ParseErrorV>(e@),
                Err(e) => s == Err::<EventV, ParseErrorV>(e@),
            }
        }),
{
    proof {
        assert(toks.deep_view().len() == toks@.len());
        assert forall|k: int| 0 <= k < toks@.len() implies toks.deep_view()[k] =~= toks@[k]@ by {}
    }
    let session_id = match parse_pos(toks, 1, name) {
        Ok(v) => v,
        Err(e) => return Err(e),
    };
    let resource_id = match parse_pos(toks, 2, name) {
        Ok(v) => v,
        Err(e) => return Err(e),
    };
    Ok(Event::DocumentPrepared(DocumentPrepared { session_id, resource_id }))
}

/// Exec reading of a `EDocumentNotPrepared` line, as `ev_document_not_prepared` describes.
fn parse_document_not_prepared(toks: &Vec<Vec<char>>, name: &Vec<char>) -> (r: Result<Event, ParseEventError>)
    requires
        toks@.len() >= 1,
    ensures
        ({
            let s = ev_document_not_prepared(toks.deep_view(), name@);
            match r {
                Ok(e) => s == Ok::<EventV, ParseErrorV>(e@),
                Err(e) => s == Err::<EventV, ParseErrorV>(e@),
            }
        }),
{
    proof {
        assert(toks.deep_view().len() == toks@.len());
        assert forall|k: int| 0 <= k < toks@.len() implies toks.deep_view()[k] =~= toks@[k]@ by {}
    }
    let session_id = match parse_pos(toks, 1, name) {
        Ok(v) => v,
        Err(e) => return Err(e),
    };
    let resource_id = match parse_pos(toks, 2, name) {
        Ok(v) => v,
        Err(e) => return Err(e),
    };
    let reason = match parse_pos_str(toks, 3, name) {
        Ok(v) => v,
        Err(e) => return Err(e),
    };
    Ok(Event::DocumentNotPrepared(DocumentNotPrepared { session_id, resource_id, reason }))
}

/// Exec reading of a `EDocumentSaved` line, as `ev_document_saved` describes.
fn parse_document_saved(toks: &Vec<Vec<char>>, name: &Vec<char>) -> (r: Result<Event, ParseEventError>)
    requires
        toks@.len() >= 1,
    ensures
        ({
            let s = ev_document_saved(toks.deep_view(), name@);
            match r {
                Ok(e) => s == Ok::<EventV, ParseErrorV>(e@),
                Err(e) => s == Err::<EventV, ParseErrorV>(e@),
            }
        }),
{
    proof {
        assert(toks.deep_view().len() == toks@.len());
        assert forall|k: int| 0 <= k < toks@.len() implies toks.deep_view()[k] =~= toks@[k]@ by {}
    }
    let session_id = match parse_pos(toks, 1, name) {
        Ok(v) => v,
        Err(e) => return Err(e),
    };
    let resource_id = match parse_pos(toks, 2, name) {
        Ok(v) => v,
        Err(e) => return Err(e),
    };
    Ok(Event::DocumentSaved(DocumentSaved { session_id, resource_id }))
}

/// Exec reading of a `EDocumentNotSaved` line, as `ev_document_not_saved` describes.
fn parse_document_not_saved(toks: &Vec<Vec<char>>, name: &Vec<char>) -> (r: Result<Event, ParseEventError>)
    requires
        toks@.len() >= 1,
    ensures
        ({
            let s = ev_document_not_saved(toks.deep_view(), name@);
            match r {
                Ok(e) => s == Ok::<EventV, ParseErrorV>(e@),
                Err(e) => s == Err::<EventV, ParseErrorV>(e@),
            }
        }),
{
    proof {
        assert(toks.deep_view().len() == toks@.len());
        assert forall|k: int| 0 <= k < toks@.len() implies toks.deep_view()[k] =~= toks@[k]@ by {}
    }
    let session_id = match parse_pos(toks, 1, name) {
        Ok(v) => v,
        Err(e) => return Err(e),
    };
    let resource_id = match parse_pos(toks, 2, name) {
        Ok(v) => v,
        Err(e) => return Err(e),
    };
    let reason = match parse_pos_str(toks, 3, name) {
        Ok(v) => v,
        Err(e) => return Err(e),
    };
    Ok(Event::DocumentNotSaved(DocumentNotSaved { session_id, resource_id, reason }))
}

/// Exec reading of a `EDocumentCleared` line, as `ev_document_cleared` describes.
fn parse_document_cleared(toks: &Vec<Vec<char>>, name: &Vec<char>) -> (r: Result<Event, ParseEventError>)
    requires
        toks@.len() >= 1,
    ensures
        ({
            let s = ev_document_cleared(toks.deep_view(), name@);
            match r {
                Ok(e) => s == Ok::<EventV, ParseErrorV>(e@),
                Err(e) => s == Err::<EventV, ParseErrorV>(e@),
            }
        }),
{
    proof {
        assert(toks.deep_view().len() == toks@.len());
        assert forall|k: int| 0 <= k < toks@.len() implies toks.deep_view()[k] =~= toks@[k]@ by {}
    }
    let session_id = match parse_pos(toks, 1, name) {
        Ok(v) => v,
        Err(e) => return Err(e),
    };
    let resource_id = match parse_pos(toks, 2, name) {
        Ok(v) => v,
        Err(e) => return Err(e),
    };
    Ok(Event::DocumentCleared(DocumentCleared { session_id, resource_id }))
}

/// Exec dispatch over the event-name table, as `parse_tokens_spec`
/// describes.
#[verifier::rlimit(30)]
fn parse_tokens(toks: &Vec<Vec<char>>) -> (r: Result<Event, ParseEventError>)
    requires
        toks@.len() >= 1,
    ensures
        ({
            let s = parse_tokens_spec(toks.deep_view());
            match r {
                Ok(e) => s == Ok::<EventV, ParseErrorV>(e@),
                Err(e) => s == Err::<EventV, ParseErrorV>(e@),
            }
        }),
{
    let name = &toks[0];
    proof {
        assert(toks.deep_view().len() == toks@.len());
        assert(toks.deep_view()[0] =~= name@);
    }
    if tok_eq(name, "ESessionCreated") {
        proof {
            reveal_strlit("ESessionCreated");
        }
        parse_session_created(toks, name)
    } else if tok_eq(name, "ESessionDeleted") {
        proof {
            reveal_strlit("ESessionDeleted");
        }
        parse_session_deleted(toks, name)
    } else if tok_eq(name, "EResourceCreated") {
        proof {
            reveal_strlit("EResourceCreated");
        }
        parse_resource_created(toks, name)
    } else if tok_eq(name, "EResourceDeleted") {
        proof {
            reveal_strlit("EResourceDeleted");
        }
        parse_resource_deleted(toks, name)
    } else if tok_eq(name, "EAudioLevelNotification") {
        proof {
            reveal_strlit("EAudioLevelNotification");
        }
        parse_audio_level_notification(toks, name)
    } else if tok_eq(name, "EStreamBufferStateNotification") {
        proof {
            reveal_strlit("EStreamBufferStateNotification");
        }
        parse_stream_buffer_state_notification(toks, name)
    } else if tok_eq(name, "ECallIncoming") {
        proof {
            reveal_strlit("ECallIncoming");
        }
        parse_call_incoming(toks, name)
    } else if tok_eq(name, "ECallOutgoing") {
        proof {
            reveal_strlit("ECallOutgoing");
        }
        parse_call_outgoing(toks, name)
    } else if tok_eq(name, "ECallRemoteAlerting") {
        proof {
            reveal_strlit("ECallRemoteAlerting");
        }
        parse_call_remote_alerting(toks, name)
    } else if tok_eq(name, "ECallConnectionEstablished") {
        proof {
            reveal_strlit("ECallConnectionEstablished");
        }
        parse_call_connection_established(toks, name)
    } else if tok_eq(name, "ECallConnectionFailed") {
        proof {
            reveal_strlit("ECallConnectionFailed");
        }
        parse_call_connection_failed(toks, name)
    } else if tok_eq(name, "ECallCleared") {
        proof {
            reveal_strlit("ECallCleared");
        }
        parse_call_cleared(toks, name)
    } else if tok_eq(name, "ECallSendDTMFFinished") {
        proof {
            reveal_strlit("ECallSendDTMFFinished");
        }
        parse_call_send_dtmf_finished(toks, name)
    } else if tok_eq(name, "ECallKeyPress") {
        proof {
            reveal_strlit("ECallKeyPress");
        }
        parse_call_key_press(toks, name)
    } else if tok_eq(name, "EPlayerStarted") {
        proof {
            reveal_strlit("EPlayerStarted");
        }
        parse_player_started(toks, name)
    } else if tok_eq(name, "EPlayerStopped") {
        proof {
            reveal_strlit("EPlayerStopped");
        }
        parse_player_stopped(toks, name)
    } else if tok_eq(name, "EPlayerError") {
        proof {
            reveal_strlit("EPlayerError");
        }
        parse_player_error(toks, name)
    } else if tok_eq(name, "ERecorderStarted") {
        proof {
            reveal_strlit("ERecorderStarted");
        }
        parse_recorder_started(toks, name)
    } else if tok_eq(name, "ERecorderStopped") {
        proof {
            reveal_strlit("ERecorderStopped");
        }
        parse_recorder_stopped(toks, name)
    } else if tok_eq(name, "ERecorderError") {
        proof {
            reveal_strlit("ERecorderError");
        }
        parse_recorder_error(toks, name)
    } else if tok_eq(name, "ERecorderVoiceTrigger") {
        proof {
            reveal_strlit("ERecorderVoiceTrigger");
        }
        parse_recorder_voice_trigger(toks, name)
    } else if tok_eq(name, "ERtpChannelStartedReceiving") {
        proof {
            reveal_strlit("ERtpChannelStartedReceiving");
        }
        parse_rtp_channel_started_receiving(toks, name)
    } else if tok_eq(name, "ERtpChannelStartedSending") {
        proof {
            reveal_strlit("ERtpChannelStartedSending");
        }
        parse_rtp_channel_started_sending(toks, name)
    } else if tok_eq(name, "ERtpChannelSendDTMFFinished") {
        proof {
            reveal_strlit("ERtpChannelSendDTMFFinished");
        }
        parse_rtp_channel_send_dtmf_finished(toks, name)
    } else if tok_eq(name, "ERtpChannelReceivedDTMF") {
        proof {
            reveal_strlit("ERtpChannelReceivedDTMF");
        }
        parse_rtp_channel_received_dtmf(toks, name)
    } else if tok_eq(name, "ERtpChannelStopped") {
        proof {
            reveal_strlit("ERtpChannelStopped");
        }
        parse_rtp_channel_stopped(toks, name)
    } else if tok_eq(name, "ESoundDeviceStarted") {
        proof {
            reveal_strlit("ESoundDeviceStarted");
        }
        parse_sound_device_started(toks, name)
    } else if tok_eq(name, "ESoundDeviceStopped") {
        proof {
            reveal_strlit("ESoundDeviceStopped");
        }
        parse_sound_device_stopped(toks, name)
    } else if tok_eq(name, "ESoundDeviceError") {
        proof {
            reveal_strlit("ESoundDeviceError");
        }
        parse_sound_device_error(toks, name)
    } else if tok_eq(name, "EModeChangeT38") {
        proof {
            reveal_strlit("EModeChangeT38");
        }
        parse_mode_change_t38(toks, name)
    } else if tok_eq(name, "EModeChangeT38Refused") {
        proof {
            reveal_strlit("EModeChangeT38Refused");
        }
        parse_mode_change_t38_refused(toks, name)
    } else if tok_eq(name, "EFaxIncoming") {
        proof {
            reveal_strlit("EFaxIncoming");
        }
        parse_fax_incoming(toks, name)
    } else if tok_eq(name, "EFacsimilePageStarted") {
        proof {
            reveal_strlit("EFacsimilePageStarted");
        }
        parse_facsimile_page_started(toks, name)
    } else if tok_eq(name, "EFacsimilePageReceived") {
        proof {
            reveal_strlit("EFacsimilePageReceived");
        }
        parse_facsimile_page_received(toks, name)
    } else if tok_eq(name, "EFacsimilePageSent") {
        proof {
            reveal_strlit("EFacsimilePageSent");
        }
        parse_facsimile_page_sent(toks, name)
    } else if tok_eq(name, "EFaxOperationsStarted") {
        proof {
            reveal_strlit("EFaxOperationsStarted");
        }
        parse_fax_operations_started(toks, name)
    } else if tok_eq(name, "EFaxOperationFailed") {
        proof {
            reveal_strlit("EFaxOperationFailed");
        }
        parse_fax_operation_failed(toks, name)
    } else if tok_eq(name, "EFaxOperationFinished") {
        proof {
            reveal_strlit("EFaxOperationFinished");
        }
        parse_fax_operation_finished(toks, name)
    } else if tok_eq(name, "EFaxOperationAborted") {
        proof {
            reveal_strlit("EFaxOperationAborted");
        }
        parse_fax_operation_aborted(toks, name)
    } else if tok_eq(name, "EDocumentPrepared") {
        proof {
            reveal_strlit("EDocumentPrepared");
        }
        parse_document_prepared(toks, name)
    } else if tok_eq(name, "EDocumentNotPrepared") {
        proof {
            reveal_strlit("EDocumentNotPrepared");
        }
        parse_document_not_prepared(toks, name)
    } else if tok_eq(name, "EDocumentSaved") {
        proof {
            reveal_strlit("EDocumentSaved");
        }
        parse_document_saved(toks, name)
    } else if tok_eq(name, "EDocumentNotSaved") {
        proof {
            reveal_strlit("EDocumentNotSaved");
        }
        parse_document_not_saved(toks, name)
    } else if tok_eq(name, "EDocumentCleared") {
        proof {
            reveal_strlit("EDocumentCleared");
        }
        parse_document_cleared(toks, name)
    } else {
        Err(ParseEventError::UnknownEvent(vec_to_string(name)))
    }
}

/// Parses one received protocol line. The part from the first `'#'` on is
/// comment; a line that is then blank is no event and no error; otherwise
/// the line must read as one of the known events, exactly as
/// `parse_line_spec` describes.
pub fn parse_event(line: &str) -> (r: Result<Option<Event>, ParseEventError>)
    ensures
        ({
            let s = parse_line_spec(line@);
            match r {
                Ok(Some(e)) => s == Ok::<Option<EventV>, ParseErrorV>(Some(e@)),
                Ok(None) => s == Ok::<Option<EventV>, ParseErrorV>(None),
                Err(e) => s == Err::<Option<EventV>, ParseErrorV>(e@),
            }
        }),
{
    let v = chars_of(line);
    let h = find_hash(&v);
    proof {
        lemma_hash_end(v@, 0);
    }
    let toks = tokenize(&v, h);
    proof {
        assert(v@.take(h as int) =~= line_region(line@));
        assert(toks.deep_view() == line_tokens(line@));
        assert(toks.deep_view().len() == toks@.len());
    }
    if toks.len() == 0 {
        return Ok(None);
    }
    match parse_tokens(&toks) {
        Ok(e) => Ok(Some(e)),
        Err(e) => Err(e),
    }
}

} // verus!
