//! Audio session identifiers and error codes.
use vstd::prelude::*;

use crate::base_types::fourcc_spec;

verus! {

/// The signed word size of the audio session API.
pub type AVAudioInteger = i64;

/// The unsigned word size of the audio session API.
pub type AVAudioUInteger = u64;

pub type AudioSessionID = u32;

pub type AVAudioSessionErrorCode = AVAudioInteger;

/// Packs four ASCII bytes into a session error code: the same big-endian
/// reading as the 32-bit four-character code, widened without change of value.
pub fn fourcc(code: &[u8; 4]) -> (r: AVAudioInteger)
    ensures
        r == fourcc_spec(code@),
{
    crate::base_types::fourcc(code) as AVAudioInteger
}

pub const AVAudioSessionErrorCodeNone: AVAudioSessionErrorCode = 0;
/// `b"msrv"`
pub const AVAudioSessionErrorCodeMediaServicesFailed: AVAudioSessionErrorCode = 0x6D73_7276;
/// `b"!act"`
pub const AVAudioSessionErrorCodeIsBusy: AVAudioSessionErrorCode = 0x2161_6374;
/// `b"!cat"`
pub const AVAudioSessionErrorCodeIncompatibleCategory: AVAudioSessionErrorCode = 0x2163_6174;
/// `b"!int"`
pub const AVAudioSessionErrorCodeCannotInterruptOthers: AVAudioSessionErrorCode = 0x2169_6E74;
/// `b"ent?"`
pub const AVAudioSessionErrorCodeMissingEntitlement: AVAudioSessionErrorCode = 0x656E_743F;
/// `b"siri"`
pub const AVAudioSessionErrorCodeSiriIsRecording: AVAudioSessionErrorCode = 0x7369_7269;
/// `b"!pla"`
pub const AVAudioSessionErrorCodeCannotStartPlaying: AVAudioSessionErrorCode = 0x2170_6C61;
/// `b"!rec"`
pub const AVAudioSessionErrorCodeCannotStartRecording: AVAudioSessionErrorCode = 0x2172_6563;
pub const AVAudioSessionErrorCodeBadParam: AVAudioSessionErrorCode = -50;
/// `b"!pri"`
pub const AVAudioSessionErrorCodeInsufficientPriority: AVAudioSessionErrorCode = 0x2170_7269;
/// `b"!res"`
pub const AVAudioSessionErrorCodeResourceNotAvailable: AVAudioSessionErrorCode = 0x2172_6573;
/// `b"what"`
pub const AVAudioSessionErrorCodeUnspecified: AVAudioSessionErrorCode = 0x7768_6174;
/// `b"!ses"`
pub const AVAudioSessionErrorCodeExpiredSession: AVAudioSessionErrorCode = 0x2173_6573;
/// `b"inac"`
pub const AVAudioSessionErrorCodeSessionNotActive: AVAudioSessionErrorCode = 0x696E_6163;

} // verus!
