//! The base data types of CoreAudio: four-character codes, stream format
//! identifiers and flags, packet descriptions, SMPTE time, channel labels,
//! bitmaps and layout tags, and the helper computations defined over them.
//!
//! Values that the framework reads as floating point (sample rates, channel
//! coordinates, time stamps) are out of this module's scope; only the
//! integer-valued types and the computations on them live here.
use vstd::prelude::*;

use crate::{OSStatus, OSType};

verus! {

/// The numeric value of a four-character code: the four bytes read as one
/// big-endian base-256 number.
pub open spec fn fourcc_spec(code: Seq<u8>) -> int
    recommends
        code.len() == 4,
{
    code[0] * 0x100_0000 + code[1] * 0x1_0000 + code[2] * 0x100 + code[3]
}

/// Packs four ASCII bytes into the big-endian 32-bit code that identifies
/// formats, codecs and error conditions throughout CoreAudio.
pub fn fourcc(code: &[u8; 4]) -> (r: u32)
    ensures
        r == fourcc_spec(code@),
{
    let b0 = code[0];
    let b1 = code[1];
    let b2 = code[2];
    let b3 = code[3];
    let r = ((b0 as u32) << 24) | ((b1 as u32) << 16) | ((b2 as u32) << 8) | (b3 as u32);
    proof {
        assert(r == b0 * 0x100_0000 + b1 * 0x1_0000 + b2 * 0x100 + b3) by (bit_vector)
            requires
                r == ((b0 as u32) << 24) | ((b1 as u32) << 16) | ((b2 as u32) << 8) | (b3 as u32),
        ;
    }
    r
}

/// Distinct four-byte codes always yield distinct numeric values: a code is
/// the big-endian base-256 reading of its bytes, and that reading is unique.
pub proof fn lemma_fourcc_injective(a: Seq<u8>, b: Seq<u8>)
    requires
        a.len() == 4,
        b.len() == 4,
        fourcc_spec(a) == fourcc_spec(b),
    ensures
        a =~= b,
{
    let (a0, a1, a2, a3) = (a[0], a[1], a[2], a[3]);
    let (b0, b1, b2, b3) = (b[0], b[1], b[2], b[3]);
    assert(a0 == b0 && a1 == b1 && a2 == b2 && a3 == b3) by (bit_vector)
        requires
            a0 * 0x100_0000 + a1 * 0x1_0000 + a2 * 0x100 + a3
                == b0 * 0x100_0000 + b1 * 0x1_0000 + b2 * 0x100 + b3,
    ;
}

pub const kAudio_NoError: OSStatus = 0;
pub const kAudio_UnimplementedError: OSStatus = -4;
pub const kAudio_FileNotFoundError: OSStatus = -43;
pub const kAudio_FilePermissionError: OSStatus = -54;
pub const kAudio_TooManyFilesOpenError: OSStatus = -42;
/// `b"!pth"`
pub const kAudio_BadFilePathError: OSStatus = 0x2170_7468;
pub const kAudio_ParamError: OSStatus = -50;
pub const kAudio_MemFullError: OSStatus = -108;

pub type AudioFormatID = u32;

pub type AudioFormatFlags = u32;

/// `b"lpcm"`
pub const kAudioFormatLinearPCM: AudioFormatID = 0x6C70_636D;
/// `b"ac-3"`
pub const kAudioFormatAC3: AudioFormatID = 0x6163_2D33;
/// `b"cac3"`
pub const kAudioFormat60958AC3: AudioFormatID = 0x6361_6333;
/// `b"ima4"`
pub const kAudioFormatAppleIMA4: AudioFormatID = 0x696D_6134;
/// `b"aac "`
pub const kAudioFormatMPEG4AAC: AudioFormatID = 0x6161_6320;
/// `b"celp"`
pub const kAudioFormatMPEG4CELP: AudioFormatID = 0x6365_6C70;
/// `b"hvxc"`
pub const kAudioFormatMPEG4HVXC: AudioFormatID = 0x6876_7863;
/// `b"twvq"`
pub const kAudioFormatMPEG4TwinVQ: AudioFormatID = 0x7477_7671;
/// `b"MAC3"`
pub const kAudioFormatMACE3: AudioFormatID = 0x4D41_4333;
/// `b"MAC6"`
pub const kAudioFormatMACE6: AudioFormatID = 0x4D41_4336;
/// `b"ulaw"`
pub const kAudioFormatULaw: AudioFormatID = 0x756C_6177;
/// `b"alaw"`
pub const kAudioFormatALaw: AudioFormatID = 0x616C_6177;
/// `b"QDMC"`
pub const kAudioFormatQDesign: AudioFormatID = 0x5144_4D43;
/// `b"QDM2"`
pub const kAudioFormatQDesign2: AudioFormatID = 0x5144_4D32;
/// `b"Qclp"`
pub const kAudioFormatQUALCOMM: AudioFormatID = 0x5163_6C70;
/// `b".mp1"`
pub const kAudioFormatMPEGLayer1: AudioFormatID = 0x2E6D_7031;
/// `b".mp2"`
pub const kAudioFormatMPEGLayer2: AudioFormatID = 0x2E6D_7032;
/// `b".mp3"`
pub const kAudioFormatMPEGLayer3: AudioFormatID = 0x2E6D_7033;
/// `b"time"`
pub const kAudioFormatTimeCode: AudioFormatID = 0x7469_6D65;
/// `b"midi"`
pub const kAudioFormatMIDIStream: AudioFormatID = 0x6D69_6469;
/// `b"apvs"`
pub const kAudioFormatParameterValueStream: AudioFormatID = 0x6170_7673;
/// `b"alac"`
pub const kAudioFormatAppleLossless: AudioFormatID = 0x616C_6163;
/// `b"aach"`
pub const kAudioFormatMPEG4AAC_HE: AudioFormatID = 0x6161_6368;
/// `b"aacl"`
pub const kAudioFormatMPEG4AAC_LD: AudioFormatID = 0x6161_636C;
/// `b"aace"`
pub const kAudioFormatMPEG4AAC_ELD: AudioFormatID = 0x6161_6365;
/// `b"aacf"`
pub const kAudioFormatMPEG4AAC_ELD_SBR: AudioFormatID = 0x6161_6366;
/// `b"aacg"`
pub const kAudioFormatMPEG4AAC_ELD_V2: AudioFormatID = 0x6161_6367;
/// `b"aacp"`
pub const kAudioFormatMPEG4AAC_HE_V2: AudioFormatID = 0x6161_6370;
/// `b"aacs"`
pub const kAudioFormatMPEG4AAC_Spatial: AudioFormatID = 0x6161_6373;
/// `b"usac"`
pub const kAudioFormatMPEGD_USAC: AudioFormatID = 0x7573_6163;
/// `b"samr"`
pub const kAudioFormatAMR: AudioFormatID = 0x7361_6D72;
/// `b"sawb"`
pub const kAudioFormatAMR_WB: AudioFormatID = 0x7361_7762;
/// `b"AUDB"`
pub const kAudioFormatAudible: AudioFormatID = 0x4155_4442;
/// `b"ilbc"`
pub const kAudioFormatiLBC: AudioFormatID = 0x696C_6263;
pub const kAudioFormatDVIIntelIMA: AudioFormatID = 0x6D730011;
pub const kAudioFormatMicrosoftGSM: AudioFormatID = 0x6D730031;
/// `b"aes3"`
pub const kAudioFormatAES3: AudioFormatID = 0x6165_7333;
/// `b"ec-3"`
pub const kAudioFormatEnhancedAC3: AudioFormatID = 0x6563_2D33;
/// `b"flac"`
pub const kAudioFormatFLAC: AudioFormatID = 0x666C_6163;
/// `b"opus"`
pub const kAudioFormatOpus: AudioFormatID = 0x6F70_7573;

pub const kAudioFormatFlagIsFloat: AudioFormatFlags = 0x1;
pub const kAudioFormatFlagIsBigEndian: AudioFormatFlags = 0x2;
pub const kAudioFormatFlagIsSignedInteger: AudioFormatFlags = 0x4;
pub const kAudioFormatFlagIsPacked: AudioFormatFlags = 0x8;
pub const kAudioFormatFlagIsAlignedHigh: AudioFormatFlags = 0x10;
pub const kAudioFormatFlagIsNonInterleaved: AudioFormatFlags = 0x20;
pub const kAudioFormatFlagIsNonMixable: AudioFormatFlags = 0x40;
pub const kAudioFormatFlagsAreAllClear: AudioFormatFlags = 0x80000000;
/// This build targets little-endian machines, where no flag is set.
pub const kAudioFormatFlagsNativeEndian: AudioFormatFlags = 0;
/// kAudioFormatFlagIsFloat | kAudioFormatFlagsNativeEndian | kAudioFormatFlagIsPacked
pub const kAudioFormatFlagsCanonical: AudioFormatFlags = 0x9;
/// kAudioFormatFlagIsFloat | kAudioFormatFlagsNativeEndian | kAudioFormatFlagIsPacked
/// | kAudioFormatFlagIsNonInterleaved
pub const kAudioFormatFlagsAudioUnitCanonical: AudioFormatFlags = 0x29;
/// kAudioFormatFlagIsFloat | kAudioFormatFlagsNativeEndian | kAudioFormatFlagIsPacked
pub const kAudioFormatFlagsNativeFloatPacked: AudioFormatFlags = 0x9;

pub const kLinearPCMFormatFlagIsFloat: AudioFormatFlags = kAudioFormatFlagIsFloat;
pub const kLinearPCMFormatFlagIsBigEndian: AudioFormatFlags = kAudioFormatFlagIsBigEndian;
pub const kLinearPCMFormatFlagIsSignedInteger: AudioFormatFlags = kAudioFormatFlagIsSignedInteger;
pub const kLinearPCMFormatFlagIsPacked: AudioFormatFlags = kAudioFormatFlagIsPacked;
pub const kLinearPCMFormatFlagIsAlignedHigh: AudioFormatFlags = kAudioFormatFlagIsAlignedHigh;
pub const kLinearPCMFormatFlagIsNonInterleaved: AudioFormatFlags = kAudioFormatFlagIsNonInterleaved;
pub const kLinearPCMFormatFlagIsNonMixable: AudioFormatFlags = kAudioFormatFlagIsNonMixable;
pub const kLinearPCMFormatFlagsSampleFractionShift: AudioFormatFlags = 7;
pub const kLinearPCMFormatFlagsSampleFractionMask: AudioFormatFlags = 0x1F80;  // 0x3F << kLinearPCMFormatFlagsSampleFractionShift
pub const kLinearPCMFormatFlagsAreAllClear: AudioFormatFlags = kAudioFormatFlagsAreAllClear;

pub const kAppleLosslessFormatFlag_16BitSourceData: AudioFormatFlags = 1;
pub const kAppleLosslessFormatFlag_20BitSourceData: AudioFormatFlags = 2;
pub const kAppleLosslessFormatFlag_24BitSourceData: AudioFormatFlags = 3;
pub const kAppleLosslessFormatFlag_32BitSourceData: AudioFormatFlags = 4;

/// Whether a stream format is linear PCM stored in this machine's own byte
/// order. On a little-endian machine that means the big-endian flag is clear;
/// the second form states the same bit test arithmetically.
pub fn IsAudioFormatNativeEndian(format_id: AudioFormatID, format_flags: AudioFormatFlags) -> (r:
    bool)
    ensures
        r == (format_id == kAudioFormatLinearPCM && format_flags & kAudioFormatFlagIsBigEndian
            == kAudioFormatFlagsNativeEndian),
        r == (format_id == kAudioFormatLinearPCM && (format_flags / 2) % 2 == 0),
{
    proof {
        assert(format_flags & 2u32 == 0u32 <==> (format_flags / 2u32) % 2u32 == 0u32)
            by (bit_vector);
    }
    format_id == kAudioFormatLinearPCM && (format_flags & kAudioFormatFlagIsBigEndian)
        == kAudioFormatFlagsNativeEndian
}

/// The linear-PCM format flags that describe a sample layout: float or signed
/// integer, big-endian or not, packed when the valid bits fill the allotted
/// bits and high-aligned otherwise, and interleaved or not. The four
/// ingredients sit in disjoint bits, so their union is their sum.
pub open spec fn calculate_lpcm_flags_spec(
    valid_bits_per_channel: u32,
    total_bits_per_channel: u32,
    is_float: bool,
    is_big_endian: bool,
    is_non_interleaved: bool,
) -> int {
    (if is_float {
        kAudioFormatFlagIsFloat
    } else {
        kAudioFormatFlagIsSignedInteger
    }) + (if is_big_endian {
        kAudioFormatFlagIsBigEndian
    } else {
        0u32
    }) + (if valid_bits_per_channel == total_bits_per_channel {
        kAudioFormatFlagIsPacked
    } else {
        kAudioFormatFlagIsAlignedHigh
    }) + (if is_non_interleaved {
        kAudioFormatFlagIsNonInterleaved
    } else {
        0u32
    })
}

pub fn CalculateLPCMFlags(
    inValidBitsPerChannel: u32,
    inTotalBitsPerChannel: u32,
    inIsFloat: bool,
    inIsBigEndian: bool,
    inIsNonInterleaved: bool,
) -> (r: AudioFormatFlags)
    ensures
        r == calculate_lpcm_flags_spec(
            inValidBitsPerChannel,
            inTotalBitsPerChannel,
            inIsFloat,
            inIsBigEndian,
            inIsNonInterleaved,
        ),
        r & kAudioFormatFlagIsFloat != 0 <==> inIsFloat,
        r & kAudioFormatFlagIsSignedInteger != 0 <==> !inIsFloat,
        r & kAudioFormatFlagIsBigEndian != 0 <==> inIsBigEndian,
        r & kAudioFormatFlagIsPacked != 0 <==> inValidBitsPerChannel == inTotalBitsPerChannel,
        r & kAudioFormatFlagIsAlignedHigh != 0 <==> inValidBitsPerChannel != inTotalBitsPerChannel,
        r & kAudioFormatFlagIsNonInterleaved != 0 <==> inIsNonInterleaved,
{
    let r = (if inIsFloat {
        kAudioFormatFlagIsFloat
    } else {
        kAudioFormatFlagIsSignedInteger
    }) | (if inIsBigEndian {
        kAudioFormatFlagIsBigEndian
    } else {
        0
    }) | (if inValidBitsPerChannel == inTotalBitsPerChannel {
        kAudioFormatFlagIsPacked
    } else {
        kAudioFormatFlagIsAlignedHigh
    }) | (if inIsNonInterleaved {
        kAudioFormatFlagIsNonInterleaved
    } else {
        0
    });
    proof {
        let f: u32 = if inIsFloat {
            kAudioFormatFlagIsFloat
        } else {
            kAudioFormatFlagIsSignedInteger
        };
        let e: u32 = if inIsBigEndian {
            kAudioFormatFlagIsBigEndian
        } else {
            0u32
        };
        let p: u32 = if inValidBitsPerChannel == inTotalBitsPerChannel {
            kAudioFormatFlagIsPacked
        } else {
            kAudioFormatFlagIsAlignedHigh
        };
        let n: u32 = if inIsNonInterleaved {
            kAudioFormatFlagIsNonInterleaved
        } else {
            0u32
        };
        assert((f | e | p | n) == f + e + p + n) by (bit_vector)
            requires
                (f == 1u32 || f == 4u32) && (e == 0u32 || e == 2u32) && (p == 8u32 || p == 16u32)
                    && (n == 0u32 || n == 32u32),
        ;
        lemma_lpcm_flag_bits(
            r,
            inValidBitsPerChannel,
            inTotalBitsPerChannel,
            inIsFloat,
            inIsBigEndian,
            inIsNonInterleaved,
        );
    }
    r
}

/// Each ingredient of the linear-PCM flag word sits in its own bit, so every
/// choice that went into the word can be read back out of it.
pub proof fn lemma_lpcm_flag_bits(
    r: u32,
    valid_bits_per_channel: u32,
    total_bits_per_channel: u32,
    is_float: bool,
    is_big_endian: bool,
    is_non_interleaved: bool,
)
    requires
        r == calculate_lpcm_flags_spec(
            valid_bits_per_channel,
            total_bits_per_channel,
            is_float,
            is_big_endian,
            is_non_interleaved,
        ),
    ensures
        r & kAudioFormatFlagIsFloat != 0 <==> is_float,
        r & kAudioFormatFlagIsSignedInteger != 0 <==> !is_float,
        r & kAudioFormatFlagIsBigEndian != 0 <==> is_big_endian,
        r & kAudioFormatFlagIsPacked != 0 <==> valid_bits_per_channel == total_bits_per_channel,
        r & kAudioFormatFlagIsAlignedHigh != 0 <==> valid_bits_per_channel
            != total_bits_per_channel,
        r & kAudioFormatFlagIsNonInterleaved != 0 <==> is_non_interleaved,
{
    let f: u32 = if is_float {
        kAudioFormatFlagIsFloat
    } else {
        kAudioFormatFlagIsSignedInteger
    };
    let e: u32 = if is_big_endian {
        kAudioFormatFlagIsBigEndian
    } else {
        0u32
    };
    let p: u32 = if valid_bits_per_channel == total_bits_per_channel {
        kAudioFormatFlagIsPacked
    } else {
        kAudioFormatFlagIsAlignedHigh
    };
    let n: u32 = if is_non_interleaved {
        kAudioFormatFlagIsNonInterleaved
    } else {
        0u32
    };
    assert((r & 1u32 != 0 <==> f == 1u32) && (r & 4u32 != 0 <==> f == 4u32) && (r & 2u32 != 0
        <==> e == 2u32) && (r & 8u32 != 0 <==> p == 8u32) && (r & 16u32 != 0 <==> p == 16u32) && (
    r & 32u32 != 0 <==> n == 32u32)) by (bit_vector)
        requires
            (f == 1u32 || f == 4u32) && (e == 0u32 || e == 2u32) && (p == 8u32 || p == 16u32) && (
            n == 0u32 || n == 32u32) && r == f + e + p + n,
    ;
}

/// How many bytes one frame of linear PCM occupies: one channel's worth when
/// the channels are carried in separate buffers, otherwise all channels side
/// by side. This is the frame and packet size that a linear PCM stream
/// descriptor carries.
pub fn CalculateLPCMBytesPerFrame(
    inChannelsPerFrame: u32,
    inTotalBitsPerChannel: u32,
    inIsNonInterleaved: bool,
) -> (r: u32)
    requires
        inIsNonInterleaved || inChannelsPerFrame * (inTotalBitsPerChannel / 8) <= u32::MAX,
    ensures
        r == (if inIsNonInterleaved {
            1int
        } else {
            inChannelsPerFrame as int
        }) * (inTotalBitsPerChannel as int / 8),
{
    (if inIsNonInterleaved {
        1
    } else {
        inChannelsPerFrame
    }) * (inTotalBitsPerChannel / 8)
}

#[derive(Clone, Copy, Debug, PartialEq, Eq, Structural)]
pub struct AudioStreamPacketDescription {
    pub mStartOffset: i64,
    pub mVariableFramesInPacket: u32,
    pub mDataByteSize: u32,
}

impl Default for AudioStreamPacketDescription {
    /// The all-zero packet description.
    fn default() -> (r: AudioStreamPacketDescription)
        ensures
            r == (AudioStreamPacketDescription {
                mStartOffset: 0,
                mVariableFramesInPacket: 0,
                mDataByteSize: 0,
            }),
    {
        AudioStreamPacketDescription { mStartOffset: 0, mVariableFramesInPacket: 0, mDataByteSize: 0 }
    }
}

pub type SMPTETimeType = u32;

pub const kSMPTETimeType24: SMPTETimeType = 0;
pub const kSMPTETimeType25: SMPTETimeType = 1;
pub const kSMPTETimeType30Drop: SMPTETimeType = 2;
pub const kSMPTETimeType30: SMPTETimeType = 3;
pub const kSMPTETimeType2997: SMPTETimeType = 4;
pub const kSMPTETimeType2997Drop: SMPTETimeType = 5;
pub const kSMPTETimeType60: SMPTETimeType = 6;
pub const kSMPTETimeType5994: SMPTETimeType = 7;
pub const kSMPTETimeType60Drop: SMPTETimeType = 8;
pub const kSMPTETimeType5994Drop: SMPTETimeType = 9;
pub const kSMPTETimeType50: SMPTETimeType = 10;
pub const kSMPTETimeType2398: SMPTETimeType = 11;

pub type SMPTETimeFlags = u32;

pub const kSMPTETimeUnknown: SMPTETimeFlags = 0;
pub const kSMPTETimeValid: SMPTETimeFlags = 0x1;
pub const kSMPTETimeRunning: SMPTETimeFlags = 0x2;

#[derive(Clone, Copy, Debug, PartialEq, Eq, Structural)]
pub struct SMPTETime {
    pub mSubframes: i16,
    pub mSubframeDivisor: i16,
    pub mCounter: u32,
    pub mType: SMPTETimeType,
    pub mFlags: SMPTETimeFlags,
    pub mHours: i16,
    pub mMinutes: i16,
    pub mSeconds: i16,
    pub mFrames: i16,
}

impl Default for SMPTETime {
    /// The all-zero time: type 24 frames per second, no flag set.
    fn default() -> (r: SMPTETime)
        ensures
            r == (SMPTETime {
                mSubframes: 0,
                mSubframeDivisor: 0,
                mCounter: 0,
                mType: kSMPTETimeType24,
                mFlags: kSMPTETimeUnknown,
                mHours: 0,
                mMinutes: 0,
                mSeconds: 0,
                mFrames: 0,
            }),
    {
        SMPTETime {
            mSubframes: 0,
            mSubframeDivisor: 0,
            mCounter: 0,
            mType: kSMPTETimeType24,
            mFlags: kSMPTETimeUnknown,
            mHours: 0,
            mMinutes: 0,
            mSeconds: 0,
            mFrames: 0,
        }
    }
}

pub type AudioTimeStampFlags = u32;

pub const kAudioTimeStampNothingValid: AudioTimeStampFlags = 0;
pub const kAudioTimeStampSampleTimeValid: AudioTimeStampFlags = 0x1;
pub const kAudioTimeStampHostTimeValid: AudioTimeStampFlags = 0x2;
pub const kAudioTimeStampRateScalarValid: AudioTimeStampFlags = 0x4;
pub const kAudioTimeStampWordClockTimeValid: AudioTimeStampFlags = 0x8;
pub const kAudioTimeStampSMPTETimeValid: AudioTimeStampFlags = 0x10;
/// kAudioTimeStampSampleTimeValid | kAudioTimeStampHostTimeValid
pub const kAudioTimeStampSampleHostTimeValid: AudioTimeStampFlags = 0x3;

#[derive(Clone, Copy, Debug, PartialEq, Eq, Structural)]
pub struct AudioClassDescription {
    pub mType: OSType,
    pub mSubType: OSType,
    pub mManufacturer: OSType,
}

impl Default for AudioClassDescription {
    /// The all-zero class description.
    fn default() -> (r: AudioClassDescription)
        ensures
            r == (AudioClassDescription { mType: 0, mSubType: 0, mManufacturer: 0 }),
    {
        AudioClassDescription { mType: 0, mSubType: 0, mManufacturer: 0 }
    }
}

pub type AudioChannelLabel = u32;

pub const kAudioChannelLabel_Unknown: AudioChannelLabel = 0xFFFFFFFF;
pub const kAudioChannelLabel_Unused: AudioChannelLabel = 0;
pub const kAudioChannelLabel_UseCoordinates: AudioChannelLabel = 100;
pub const kAudioChannelLabel_Left: AudioChannelLabel = 1;
pub const kAudioChannelLabel_Right: AudioChannelLabel = 2;
pub const kAudioChannelLabel_Center: AudioChannelLabel = 3;
pub const kAudioChannelLabel_LFEScreen: AudioChannelLabel = 4;
pub const kAudioChannelLabel_LeftSurround: AudioChannelLabel = 5;
pub const kAudioChannelLabel_RightSurround: AudioChannelLabel = 6;
pub const kAudioChannelLabel_LeftCenter: AudioChannelLabel = 7;
pub const kAudioChannelLabel_RightCenter: AudioChannelLabel = 8;
pub const kAudioChannelLabel_CenterSurround: AudioChannelLabel = 9;
pub const kAudioChannelLabel_LeftSurroundDirect: AudioChannelLabel = 10;
pub const kAudioChannelLabel_RightSurroundDirect: AudioChannelLabel = 11;
pub const kAudioChannelLabel_TopCenterSurround: AudioChannelLabel = 12;
pub const kAudioChannelLabel_VerticalHeightLeft: AudioChannelLabel = 13;
pub const kAudioChannelLabel_VerticalHeightCenter: AudioChannelLabel = 14;
pub const kAudioChannelLabel_VerticalHeightRight: AudioChannelLabel = 15;
pub const kAudioChannelLabel_TopBackLeft: AudioChannelLabel = 16;
pub const kAudioChannelLabel_TopBackCenter: AudioChannelLabel = 17;
pub const kAudioChannelLabel_TopBackRight: AudioChannelLabel = 18;
pub const kAudioChannelLabel_RearSurroundLeft: AudioChannelLabel = 33;
pub const kAudioChannelLabel_RearSurroundRight: AudioChannelLabel = 34;
pub const kAudioChannelLabel_LeftWide: AudioChannelLabel = 35;
pub const kAudioChannelLabel_RightWide: AudioChannelLabel = 36;
pub const kAudioChannelLabel_LFE2: AudioChannelLabel = 37;
pub const kAudioChannelLabel_LeftTotal: AudioChannelLabel = 38;
pub const kAudioChannelLabel_RightTotal: AudioChannelLabel = 39;
pub const kAudioChannelLabel_HearingImpaired: AudioChannelLabel = 40;
pub const kAudioChannelLabel_Narration: AudioChannelLabel = 41;
pub const kAudioChannelLabel_Mono: AudioChannelLabel = 42;
pub const kAudioChannelLabel_DialogCentricMix: AudioChannelLabel = 43;
pub const kAudioChannelLabel_CenterSurroundDirect: AudioChannelLabel = 44;
pub const kAudioChannelLabel_Haptic: AudioChannelLabel = 45;
pub const kAudioChannelLabel_LeftTopFront: AudioChannelLabel = kAudioChannelLabel_VerticalHeightLeft;
pub const kAudioChannelLabel_CenterTopFront: AudioChannelLabel = kAudioChannelLabel_VerticalHeightCenter;
pub const kAudioChannelLabel_RightTopFront: AudioChannelLabel = kAudioChannelLabel_VerticalHeightRight;
pub const kAudioChannelLabel_LeftTopMiddle: AudioChannelLabel = 49;
pub const kAudioChannelLabel_CenterTopMiddle: AudioChannelLabel = kAudioChannelLabel_TopCenterSurround;
pub const kAudioChannelLabel_RightTopMiddle: AudioChannelLabel = 51;
pub const kAudioChannelLabel_LeftTopRear: AudioChannelLabel = 52;
pub const kAudioChannelLabel_CenterTopRear: AudioChannelLabel = 53;
pub const kAudioChannelLabel_RightTopRear: AudioChannelLabel = 54;
pub const kAudioChannelLabel_LeftSideSurround: AudioChannelLabel = 55;
pub const kAudioChannelLabel_RightSideSurround: AudioChannelLabel = 56;
pub const kAudioChannelLabel_LeftBottom: AudioChannelLabel = 57;
pub const kAudioChannelLabel_RightBottomL: AudioChannelLabel = 58;
pub const kAudioChannelLabel_CenterBottom: AudioChannelLabel = 59;
pub const kAudioChannelLabel_LeftTopSurround: AudioChannelLabel = 60;
pub const kAudioChannelLabel_RightTopSurround: AudioChannelLabel = 61;
pub const kAudioChannelLabel_LFE3: AudioChannelLabel = 62;
pub const kAudioChannelLabel_LeftBackSurround: AudioChannelLabel = 63;
pub const kAudioChannelLabel_RightBackSurround: AudioChannelLabel = 64;
pub const kAudioChannelLabel_LeftEdgeOfScreen: AudioChannelLabel = 65;
pub const kAudioChannelLabel_RightEdgeOfScreen: AudioChannelLabel = 66;
pub const kAudioChannelLabel_Ambisonic_W: AudioChannelLabel = 200;
pub const kAudioChannelLabel_Ambisonic_X: AudioChannelLabel = 201;
pub const kAudioChannelLabel_Ambisonic_Y: AudioChannelLabel = 202;
pub const kAudioChannelLabel_Ambisonic_Z: AudioChannelLabel = 203;
pub const kAudioChannelLabel_MS_Mid: AudioChannelLabel = 204;
pub const kAudioChannelLabel_MS_Side: AudioChannelLabel = 205;
pub const kAudioChannelLabel_XY_X: AudioChannelLabel = 206;
pub const kAudioChannelLabel_XY_Y: AudioChannelLabel = 207;
pub const kAudioChannelLabel_BinauralLeft: AudioChannelLabel = 208;
pub const kAudioChannelLabel_BinauralRight: AudioChannelLabel = 209;
pub const kAudioChannelLabel_HeadphonesLeft: AudioChannelLabel = 301;
pub const kAudioChannelLabel_HeadphonesRight: AudioChannelLabel = 302;
pub const kAudioChannelLabel_ClickTrack: AudioChannelLabel = 304;
pub const kAudioChannelLabel_ForeignLanguage: AudioChannelLabel = 305;
pub const kAudioChannelLabel_Discrete: AudioChannelLabel = 400;
pub const kAudioChannelLabel_Discrete_0: AudioChannelLabel = 0x0001_0000;  // (1 << 16) | 0
pub const kAudioChannelLabel_Discrete_1: AudioChannelLabel = 0x0001_0001;  // (1 << 16) | 1
pub const kAudioChannelLabel_Discrete_2: AudioChannelLabel = 0x0001_0002;  // (1 << 16) | 2
pub const kAudioChannelLabel_Discrete_3: AudioChannelLabel = 0x0001_0003;  // (1 << 16) | 3
pub const kAudioChannelLabel_Discrete_4: AudioChannelLabel = 0x0001_0004;  // (1 << 16) | 4
pub const kAudioChannelLabel_Discrete_5: AudioChannelLabel = 0x0001_0005;  // (1 << 16) | 5
pub const kAudioChannelLabel_Discrete_6: AudioChannelLabel = 0x0001_0006;  // (1 << 16) | 6
pub const kAudioChannelLabel_Discrete_7: AudioChannelLabel = 0x0001_0007;  // (1 << 16) | 7
pub const kAudioChannelLabel_Discrete_8: AudioChannelLabel = 0x0001_0008;  // (1 << 16) | 8
pub const kAudioChannelLabel_Discrete_9: AudioChannelLabel = 0x0001_0009;  // (1 << 16) | 9
pub const kAudioChannelLabel_Discrete_10: AudioChannelLabel = 0x0001_000A;  // (1 << 16) | 10
pub const kAudioChannelLabel_Discrete_11: AudioChannelLabel = 0x0001_000B;  // (1 << 16) | 11
pub const kAudioChannelLabel_Discrete_12: AudioChannelLabel = 0x0001_000C;  // (1 << 16) | 12
pub const kAudioChannelLabel_Discrete_13: AudioChannelLabel = 0x0001_000D;  // (1 << 16) | 13
pub const kAudioChannelLabel_Discrete_14: AudioChannelLabel = 0x0001_000E;  // (1 << 16) | 14
pub const kAudioChannelLabel_Discrete_15: AudioChannelLabel = 0x0001_000F;  // (1 << 16) | 15
pub const kAudioChannelLabel_Discrete_65535: AudioChannelLabel = 0x0001_FFFF;  // (1 << 16) | 65535
pub const kAudioChannelLabel_HOA_ACN: AudioChannelLabel = 500;
pub const kAudioChannelLabel_HOA_ACN_0: AudioChannelLabel = 0x0002_0000;  // (2 << 16) | 0
pub const kAudioChannelLabel_HOA_ACN_1: AudioChannelLabel = 0x0002_0001;  // (2 << 16) | 1
pub const kAudioChannelLabel_HOA_ACN_2: AudioChannelLabel = 0x0002_0002;  // (2 << 16) | 2
pub const kAudioChannelLabel_HOA_ACN_3: AudioChannelLabel = 0x0002_0003;  // (2 << 16) | 3
pub const kAudioChannelLabel_HOA_ACN_4: AudioChannelLabel = 0x0002_0004;  // (2 << 16) | 4
pub const kAudioChannelLabel_HOA_ACN_5: AudioChannelLabel = 0x0002_0005;  // (2 << 16) | 5
pub const kAudioChannelLabel_HOA_ACN_6: AudioChannelLabel = 0x0002_0006;  // (2 << 16) | 6
pub const kAudioChannelLabel_HOA_ACN_7: AudioChannelLabel = 0x0002_0007;  // (2 << 16) | 7
pub const kAudioChannelLabel_HOA_ACN_8: AudioChannelLabel = 0x0002_0008;  // (2 << 16) | 8
pub const kAudioChannelLabel_HOA_ACN_9: AudioChannelLabel = 0x0002_0009;  // (2 << 16) | 9
pub const kAudioChannelLabel_HOA_ACN_10: AudioChannelLabel = 0x0002_000A;  // (2 << 16) | 10
pub const kAudioChannelLabel_HOA_ACN_11: AudioChannelLabel = 0x0002_000B;  // (2 << 16) | 11
pub const kAudioChannelLabel_HOA_ACN_12: AudioChannelLabel = 0x0002_000C;  // (2 << 16) | 12
pub const kAudioChannelLabel_HOA_ACN_13: AudioChannelLabel = 0x0002_000D;  // (2 << 16) | 13
pub const kAudioChannelLabel_HOA_ACN_14: AudioChannelLabel = 0x0002_000E;  // (2 << 16) | 14
pub const kAudioChannelLabel_HOA_ACN_15: AudioChannelLabel = 0x0002_000F;  // (2 << 16) | 15
pub const kAudioChannelLabel_HOA_ACN_65024: AudioChannelLabel = 0x0002_FE00;  // (2 << 16) | 65024
pub const kAudioChannelLabel_HOA_SN3D: AudioChannelLabel = kAudioChannelLabel_HOA_ACN_0;
pub const kAudioChannelLabel_HOA_N3D: AudioChannelLabel = 0x0003_0000;  // 3 << 16
pub const kAudioChannelLabel_Object: AudioChannelLabel = 0x0004_0000;  // 4 << 16
pub const kAudioChannelLabel_BeginReserved: AudioChannelLabel = 0xF0000000;
pub const kAudioChannelLabel_EndReserved: AudioChannelLabel = 0xFFFFFFFE;

pub type AudioChannelBitmap = u32;

pub const kAudioChannelBit_Left: AudioChannelBitmap = 0x1;  // 1 << 0
pub const kAudioChannelBit_Right: AudioChannelBitmap = 0x2;  // 1 << 1
pub const kAudioChannelBit_Center: AudioChannelBitmap = 0x4;  // 1 << 2
pub const kAudioChannelBit_LFEScreen: AudioChannelBitmap = 0x8;  // 1 << 3
pub const kAudioChannelBit_LeftSurround: AudioChannelBitmap = 0x10;  // 1 << 4
pub const kAudioChannelBit_RightSurround: AudioChannelBitmap = 0x20;  // 1 << 5
pub const kAudioChannelBit_LeftCenter: AudioChannelBitmap = 0x40;  // 1 << 6
pub const kAudioChannelBit_RightCenter: AudioChannelBitmap = 0x80;  // 1 << 7
pub const kAudioChannelBit_CenterSurround: AudioChannelBitmap = 0x100;  // 1 << 8
pub const kAudioChannelBit_LeftSurroundDirect: AudioChannelBitmap = 0x200;  // 1 << 9
pub const kAudioChannelBit_RightSurroundDirect: AudioChannelBitmap = 0x400;  // 1 << 10
pub const kAudioChannelBit_TopCenterSurround: AudioChannelBitmap = 0x800;  // 1 << 11
pub const kAudioChannelBit_VerticalHeightLeft: AudioChannelBitmap = 0x1000;  // 1 << 12
pub const kAudioChannelBit_VerticalHeightCenter: AudioChannelBitmap = 0x2000;  // 1 << 13
pub const kAudioChannelBit_VerticalHeightRight: AudioChannelBitmap = 0x4000;  // 1 << 14
pub const kAudioChannelBit_TopBackLeft: AudioChannelBitmap = 0x8000;  // 1 << 15
pub const kAudioChannelBit_TopBackCenter: AudioChannelBitmap = 0x10000;  // 1 << 16
pub const kAudioChannelBit_TopBackRight: AudioChannelBitmap = 0x20000;  // 1 << 17
pub const kAudioChannelBit_LeftTopFront: AudioChannelBitmap = kAudioChannelBit_VerticalHeightLeft;
pub const kAudioChannelBit_CenterTopFront: AudioChannelBitmap = kAudioChannelBit_VerticalHeightCenter;
pub const kAudioChannelBit_RightTopFront: AudioChannelBitmap = kAudioChannelBit_VerticalHeightRight;
pub const kAudioChannelBit_LeftTopMiddle: AudioChannelBitmap = 0x200000;  // 1 << 21
pub const kAudioChannelBit_CenterTopMiddle: AudioChannelBitmap = kAudioChannelBit_TopCenterSurround;
pub const kAudioChannelBit_RightTopMiddle: AudioChannelBitmap = 0x800000;  // 1 << 23
pub const kAudioChannelBit_LeftTopRear: AudioChannelBitmap = 0x1000000;  // 1 << 24
pub const kAudioChannelBit_CenterTopRear: AudioChannelBitmap = 0x2000000;  // 1 << 25
pub const kAudioChannelBit_RightTopRear: AudioChannelBitmap = 0x4000000;  // 1 << 26

pub type AudioChannelFlags = u32;

pub const kAudioChannelFlags_AllOff: AudioChannelFlags = 0;
pub const kAudioChannelFlags_RectangularCoordinates: AudioChannelFlags = 0x1;  // 1 << 0
pub const kAudioChannelFlags_SphericalCoordinates: AudioChannelFlags = 0x2;  // 1 << 1
pub const kAudioChannelFlags_Meters: AudioChannelFlags = 0x4;  // 1 << 2

pub type AudioChannelCoordinateIndex = u32;

pub const kAudioChannelCoordinates_LeftRight: AudioChannelCoordinateIndex = 0;
pub const kAudioChannelCoordinates_BackFront: AudioChannelCoordinateIndex = 1;
pub const kAudioChannelCoordinates_DownUp: AudioChannelCoordinateIndex = 2;
pub const kAudioChannelCoordinates_Azimuth: AudioChannelCoordinateIndex = 0;
pub const kAudioChannelCoordinates_Elevation: AudioChannelCoordinateIndex = 1;
pub const kAudioChannelCoordinates_Distance: AudioChannelCoordinateIndex = 2;

pub type AudioChannelLayoutTag = u32;

pub const kAudioChannelLayoutTag_UseChannelDescriptions: AudioChannelLayoutTag = 0x0000_0000;  // (0 << 16) | 0
pub const kAudioChannelLayoutTag_UseChannelBitmap: AudioChannelLayoutTag = 0x0001_0000;  // (1 << 16) | 0
pub const kAudioChannelLayoutTag_Mono: AudioChannelLayoutTag = 0x0064_0001;  // (100 << 16) | 1
pub const kAudioChannelLayoutTag_Stereo: AudioChannelLayoutTag = 0x0065_0002;  // (101 << 16) | 2
pub const kAudioChannelLayoutTag_StereoHeadphones: AudioChannelLayoutTag = 0x0066_0002;  // (102 << 16) | 2
pub const kAudioChannelLayoutTag_MatrixStereo: AudioChannelLayoutTag = 0x0067_0002;  // (103 << 16) | 2
pub const kAudioChannelLayoutTag_MidSide: AudioChannelLayoutTag = 0x0068_0002;  // (104 << 16) | 2
pub const kAudioChannelLayoutTag_XY: AudioChannelLayoutTag = 0x0069_0002;  // (105 << 16) | 2
pub const kAudioChannelLayoutTag_Binaural: AudioChannelLayoutTag = 0x006A_0002;  // (106 << 16) | 2
pub const kAudioChannelLayoutTag_Ambisonic_B_Format: AudioChannelLayoutTag = 0x006B_0004;  // (107 << 16) | 4
pub const kAudioChannelLayoutTag_Quadraphonic: AudioChannelLayoutTag = 0x006C_0004;  // (108 << 16) | 4
pub const kAudioChannelLayoutTag_Pentagonal: AudioChannelLayoutTag = 0x006D_0005;  // (109 << 16) | 5
pub const kAudioChannelLayoutTag_Hexagonal: AudioChannelLayoutTag = 0x006E_0006;  // (110 << 16) | 6
pub const kAudioChannelLayoutTag_Octagonal: AudioChannelLayoutTag = 0x006F_0008;  // (111 << 16) | 8
pub const kAudioChannelLayoutTag_Cube: AudioChannelLayoutTag = 0x0070_0008;  // (112 << 16) | 8
pub const kAudioChannelLayoutTag_MPEG_1_0: AudioChannelLayoutTag = kAudioChannelLayoutTag_Mono;
pub const kAudioChannelLayoutTag_MPEG_2_0: AudioChannelLayoutTag = kAudioChannelLayoutTag_Stereo;
pub const kAudioChannelLayoutTag_MPEG_3_0_A: AudioChannelLayoutTag = 0x0071_0003;  // (113 << 16) | 3
pub const kAudioChannelLayoutTag_MPEG_3_0_B: AudioChannelLayoutTag = 0x0072_0003;  // (114 << 16) | 3
pub const kAudioChannelLayoutTag_MPEG_4_0_A: AudioChannelLayoutTag = 0x0073_0004;  // (115 << 16) | 4
pub const kAudioChannelLayoutTag_MPEG_4_0_B: AudioChannelLayoutTag = 0x0074_0004;  // (116 << 16) | 4
pub const kAudioChannelLayoutTag_MPEG_5_0_A: AudioChannelLayoutTag = 0x0075_0005;  // (117 << 16) | 5
pub const kAudioChannelLayoutTag_MPEG_5_0_B: AudioChannelLayoutTag = 0x0076_0005;  // (118 << 16) | 5
pub const kAudioChannelLayoutTag_MPEG_5_0_C: AudioChannelLayoutTag = 0x0077_0005;  // (119 << 16) | 5
pub const kAudioChannelLayoutTag_MPEG_5_0_D: AudioChannelLayoutTag = 0x0078_0005;  // (120 << 16) | 5
pub const kAudioChannelLayoutTag_MPEG_5_1_A: AudioChannelLayoutTag = 0x0079_0006;  // (121 << 16) | 6
pub const kAudioChannelLayoutTag_MPEG_5_1_B: AudioChannelLayoutTag = 0x007A_0006;  // (122 << 16) | 6
pub const kAudioChannelLayoutTag_MPEG_5_1_C: AudioChannelLayoutTag = 0x007B_0006;  // (123 << 16) | 6
pub const kAudioChannelLayoutTag_MPEG_5_1_D: AudioChannelLayoutTag = 0x007C_0006;  // (124 << 16) | 6
pub const kAudioChannelLayoutTag_MPEG_6_1_A: AudioChannelLayoutTag = 0x007D_0007;  // (125 << 16) | 7
pub const kAudioChannelLayoutTag_MPEG_7_1_A: AudioChannelLayoutTag = 0x007E_0008;  // (126 << 16) | 8
pub const kAudioChannelLayoutTag_MPEG_7_1_B: AudioChannelLayoutTag = 0x007F_0008;  // (127 << 16) | 8
pub const kAudioChannelLayoutTag_MPEG_7_1_C: AudioChannelLayoutTag = 0x0080_0008;  // (128 << 16) | 8
pub const kAudioChannelLayoutTag_Emagic_Default_7_1: AudioChannelLayoutTag = 0x0081_0008;  // (129 << 16) | 8
pub const kAudioChannelLayoutTag_SMPTE_DTV: AudioChannelLayoutTag = 0x0082_0008;  // (130 << 16) | 8
pub const kAudioChannelLayoutTag_ITU_1_0: AudioChannelLayoutTag = kAudioChannelLayoutTag_Mono;
pub const kAudioChannelLayoutTag_ITU_2_0: AudioChannelLayoutTag = kAudioChannelLayoutTag_Stereo;
pub const kAudioChannelLayoutTag_ITU_2_1: AudioChannelLayoutTag = 0x0083_0003;  // (131 << 16) | 3
pub const kAudioChannelLayoutTag_ITU_2_2: AudioChannelLayoutTag = 0x0084_0004;  // (132 << 16) | 4
pub const kAudioChannelLayoutTag_ITU_3_0: AudioChannelLayoutTag = kAudioChannelLayoutTag_MPEG_3_0_A;
pub const kAudioChannelLayoutTag_ITU_3_1: AudioChannelLayoutTag = kAudioChannelLayoutTag_MPEG_4_0_A;
pub const kAudioChannelLayoutTag_ITU_3_2: AudioChannelLayoutTag = kAudioChannelLayoutTag_MPEG_5_0_A;
pub const kAudioChannelLayoutTag_ITU_3_2_1: AudioChannelLayoutTag = kAudioChannelLayoutTag_MPEG_5_1_A;
pub const kAudioChannelLayoutTag_ITU_3_4_1: AudioChannelLayoutTag = kAudioChannelLayoutTag_MPEG_7_1_C;
pub const kAudioChannelLayoutTag_DVD_0: AudioChannelLayoutTag = kAudioChannelLayoutTag_Mono;
pub const kAudioChannelLayoutTag_DVD_1: AudioChannelLayoutTag = kAudioChannelLayoutTag_Stereo;
pub const kAudioChannelLayoutTag_DVD_2: AudioChannelLayoutTag = kAudioChannelLayoutTag_ITU_2_1;
pub const kAudioChannelLayoutTag_DVD_3: AudioChannelLayoutTag = kAudioChannelLayoutTag_ITU_2_2;
pub const kAudioChannelLayoutTag_DVD_4: AudioChannelLayoutTag = 0x0085_0003;  // (133 << 16) | 3
pub const kAudioChannelLayoutTag_DVD_5: AudioChannelLayoutTag = 0x0086_0004;  // (134 << 16) | 4
pub const kAudioChannelLayoutTag_DVD_6: AudioChannelLayoutTag = 0x0087_0005;  // (135 << 16) | 5
pub const kAudioChannelLayoutTag_DVD_7: AudioChannelLayoutTag = kAudioChannelLayoutTag_MPEG_3_0_A;
pub const kAudioChannelLayoutTag_DVD_8: AudioChannelLayoutTag = kAudioChannelLayoutTag_MPEG_4_0_A;
pub const kAudioChannelLayoutTag_DVD_9: AudioChannelLayoutTag = kAudioChannelLayoutTag_MPEG_5_0_A;
pub const kAudioChannelLayoutTag_DVD_10: AudioChannelLayoutTag = 0x0088_0004;  // (136 << 16) | 4
pub const kAudioChannelLayoutTag_DVD_11: AudioChannelLayoutTag = 0x0089_0005;  // (137 << 16) | 5
pub const kAudioChannelLayoutTag_DVD_12: AudioChannelLayoutTag = kAudioChannelLayoutTag_MPEG_5_1_A;
pub const kAudioChannelLayoutTag_DVD_13: AudioChannelLayoutTag = kAudioChannelLayoutTag_DVD_8;
pub const kAudioChannelLayoutTag_DVD_14: AudioChannelLayoutTag = kAudioChannelLayoutTag_DVD_9;
pub const kAudioChannelLayoutTag_DVD_15: AudioChannelLayoutTag = kAudioChannelLayoutTag_DVD_10;
pub const kAudioChannelLayoutTag_DVD_16: AudioChannelLayoutTag = kAudioChannelLayoutTag_DVD_11;
pub const kAudioChannelLayoutTag_DVD_17: AudioChannelLayoutTag = kAudioChannelLayoutTag_DVD_12;
pub const kAudioChannelLayoutTag_DVD_18: AudioChannelLayoutTag = 0x008A_0005;  // (138 << 16) | 5
pub const kAudioChannelLayoutTag_DVD_19: AudioChannelLayoutTag = kAudioChannelLayoutTag_MPEG_5_0_B;
pub const kAudioChannelLayoutTag_DVD_20: AudioChannelLayoutTag = kAudioChannelLayoutTag_MPEG_5_1_B;
pub const kAudioChannelLayoutTag_AudioUnit_4: AudioChannelLayoutTag = kAudioChannelLayoutTag_Quadraphonic;
pub const kAudioChannelLayoutTag_AudioUnit_5: AudioChannelLayoutTag = kAudioChannelLayoutTag_Pentagonal;
pub const kAudioChannelLayoutTag_AudioUnit_6: AudioChannelLayoutTag = kAudioChannelLayoutTag_Hexagonal;
pub const kAudioChannelLayoutTag_AudioUnit_8: AudioChannelLayoutTag = kAudioChannelLayoutTag_Octagonal;
pub const kAudioChannelLayoutTag_AudioUnit_5_0: AudioChannelLayoutTag = kAudioChannelLayoutTag_MPEG_5_0_B;
pub const kAudioChannelLayoutTag_AudioUnit_6_0: AudioChannelLayoutTag = 0x008B_0006;  // (139 << 16) | 6
pub const kAudioChannelLayoutTag_AudioUnit_7_0: AudioChannelLayoutTag = 0x008C_0007;  // (140 << 16) | 7
pub const kAudioChannelLayoutTag_AudioUnit_7_0_Front: AudioChannelLayoutTag = 0x0094_0007;  // (148 << 16) | 7
pub const kAudioChannelLayoutTag_AudioUnit_5_1: AudioChannelLayoutTag = kAudioChannelLayoutTag_MPEG_5_1_A;
pub const kAudioChannelLayoutTag_AudioUnit_6_1: AudioChannelLayoutTag = kAudioChannelLayoutTag_MPEG_6_1_A;
pub const kAudioChannelLayoutTag_AudioUnit_7_1: AudioChannelLayoutTag = kAudioChannelLayoutTag_MPEG_7_1_C;
pub const kAudioChannelLayoutTag_AudioUnit_7_1_Front: AudioChannelLayoutTag = kAudioChannelLayoutTag_MPEG_7_1_A;
pub const kAudioChannelLayoutTag_AAC_3_0: AudioChannelLayoutTag = kAudioChannelLayoutTag_MPEG_3_0_B;
pub const kAudioChannelLayoutTag_AAC_Quadraphonic: AudioChannelLayoutTag = kAudioChannelLayoutTag_Quadraphonic;
pub const kAudioChannelLayoutTag_AAC_4_0: AudioChannelLayoutTag = kAudioChannelLayoutTag_MPEG_4_0_B;
pub const kAudioChannelLayoutTag_AAC_5_0: AudioChannelLayoutTag = kAudioChannelLayoutTag_MPEG_5_0_D;
pub const kAudioChannelLayoutTag_AAC_5_1: AudioChannelLayoutTag = kAudioChannelLayoutTag_MPEG_5_1_D;
pub const kAudioChannelLayoutTag_AAC_6_0: AudioChannelLayoutTag = 0x008D_0006;  // (141 << 16) | 6
pub const kAudioChannelLayoutTag_AAC_6_1: AudioChannelLayoutTag = 0x008E_0007;  // (142 << 16) | 7
pub const kAudioChannelLayoutTag_AAC_7_0: AudioChannelLayoutTag = 0x008F_0007;  // (143 << 16) | 7
pub const kAudioChannelLayoutTag_AAC_7_1: AudioChannelLayoutTag = kAudioChannelLayoutTag_MPEG_7_1_B;
pub const kAudioChannelLayoutTag_AAC_7_1_B: AudioChannelLayoutTag = 0x00B7_0008;  // (183 << 16) | 8
pub const kAudioChannelLayoutTag_AAC_7_1_C: AudioChannelLayoutTag = 0x00B8_0008;  // (184 << 16) | 8
pub const kAudioChannelLayoutTag_AAC_Octagonal: AudioChannelLayoutTag = 0x0090_0008;  // (144 << 16) | 8
pub const kAudioChannelLayoutTag_TMH_10_2_std: AudioChannelLayoutTag = 0x0091_0010;  // (145 << 16) | 16
pub const kAudioChannelLayoutTag_TMH_10_2_full: AudioChannelLayoutTag = 0x0092_0015;  // (146 << 16) | 21
pub const kAudioChannelLayoutTag_AC3_1_0_1: AudioChannelLayoutTag = 0x0095_0002;  // (149 << 16) | 2
pub const kAudioChannelLayoutTag_AC3_3_0: AudioChannelLayoutTag = 0x0096_0003;  // (150 << 16) | 3
pub const kAudioChannelLayoutTag_AC3_3_1: AudioChannelLayoutTag = 0x0097_0004;  // (151 << 16) | 4
pub const kAudioChannelLayoutTag_AC3_3_0_1: AudioChannelLayoutTag = 0x0098_0004;  // (152 << 16) | 4
pub const kAudioChannelLayoutTag_AC3_2_1_1: AudioChannelLayoutTag = 0x0099_0004;  // (153 << 16) | 4
pub const kAudioChannelLayoutTag_AC3_3_1_1: AudioChannelLayoutTag = 0x009A_0005;  // (154 << 16) | 5
pub const kAudioChannelLayoutTag_EAC_6_0_A: AudioChannelLayoutTag = 0x009B_0006;  // (155 << 16) | 6
pub const kAudioChannelLayoutTag_EAC_7_0_A: AudioChannelLayoutTag = 0x009C_0007;  // (156 << 16) | 7
pub const kAudioChannelLayoutTag_EAC3_6_1_A: AudioChannelLayoutTag = 0x009D_0007;  // (157 << 16) | 7
pub const kAudioChannelLayoutTag_EAC3_6_1_B: AudioChannelLayoutTag = 0x009E_0007;  // (158 << 16) | 7
pub const kAudioChannelLayoutTag_EAC3_6_1_C: AudioChannelLayoutTag = 0x009F_0007;  // (159 << 16) | 7
pub const kAudioChannelLayoutTag_EAC3_7_1_A: AudioChannelLayoutTag = 0x00A0_0008;  // (160 << 16) | 8
pub const kAudioChannelLayoutTag_EAC3_7_1_B: AudioChannelLayoutTag = 0x00A1_0008;  // (161 << 16) | 8
pub const kAudioChannelLayoutTag_EAC3_7_1_C: AudioChannelLayoutTag = 0x00A2_0008;  // (162 << 16) | 8
pub const kAudioChannelLayoutTag_EAC3_7_1_D: AudioChannelLayoutTag = 0x00A3_0008;  // (163 << 16) | 8
pub const kAudioChannelLayoutTag_EAC3_7_1_E: AudioChannelLayoutTag = 0x00A4_0008;  // (164 << 16) | 8
pub const kAudioChannelLayoutTag_EAC3_7_1_F: AudioChannelLayoutTag = 0x00A5_0008;  // (165 << 16) | 8
pub const kAudioChannelLayoutTag_EAC3_7_1_G: AudioChannelLayoutTag = 0x00A6_0008;  // (166 << 16) | 8
pub const kAudioChannelLayoutTag_EAC3_7_1_H: AudioChannelLayoutTag = 0x00A7_0008;  // (167 << 16) | 8
pub const kAudioChannelLayoutTag_DTS_3_1: AudioChannelLayoutTag = 0x00A8_0004;  // (168 << 16) | 4
pub const kAudioChannelLayoutTag_DTS_4_1: AudioChannelLayoutTag = 0x00A9_0005;  // (169 << 16) | 5
pub const kAudioChannelLayoutTag_DTS_6_0_A: AudioChannelLayoutTag = 0x00AA_0006;  // (170 << 16) | 6
pub const kAudioChannelLayoutTag_DTS_6_0_B: AudioChannelLayoutTag = 0x00AB_0006;  // (171 << 16) | 6
pub const kAudioChannelLayoutTag_DTS_6_0_C: AudioChannelLayoutTag = 0x00AC_0006;  // (172 << 16) | 6
pub const kAudioChannelLayoutTag_DTS_6_1_A: AudioChannelLayoutTag = 0x00AD_0007;  // (173 << 16) | 7
pub const kAudioChannelLayoutTag_DTS_6_1_B: AudioChannelLayoutTag = 0x00AE_0007;  // (174 << 16) | 7
pub const kAudioChannelLayoutTag_DTS_6_1_C: AudioChannelLayoutTag = 0x00AF_0007;  // (175 << 16) | 7
pub const kAudioChannelLayoutTag_DTS_7_0: AudioChannelLayoutTag = 0x00B0_0007;  // (176 << 16) | 7
pub const kAudioChannelLayoutTag_DTS_7_1: AudioChannelLayoutTag = 0x00B1_0008;  // (177 << 16) | 8
pub const kAudioChannelLayoutTag_DTS_8_0_A: AudioChannelLayoutTag = 0x00B2_0008;  // (178 << 16) | 8
pub const kAudioChannelLayoutTag_DTS_8_0_B: AudioChannelLayoutTag = 0x00B3_0008;  // (179 << 16) | 8
pub const kAudioChannelLayoutTag_DTS_8_1_A: AudioChannelLayoutTag = 0x00B4_0009;  // (180 << 16) | 9
pub const kAudioChannelLayoutTag_DTS_8_1_B: AudioChannelLayoutTag = 0x00B5_0009;  // (181 << 16) | 9
pub const kAudioChannelLayoutTag_DTS_6_1_D: AudioChannelLayoutTag = 0x00B6_0007;  // (182 << 16) | 7
pub const kAudioChannelLayoutTag_WAVE_2_1: AudioChannelLayoutTag = kAudioChannelLayoutTag_DVD_4;
pub const kAudioChannelLayoutTag_WAVE_3_0: AudioChannelLayoutTag = kAudioChannelLayoutTag_MPEG_3_0_A;
pub const kAudioChannelLayoutTag_WAVE_4_0_A: AudioChannelLayoutTag = kAudioChannelLayoutTag_ITU_2_2;
pub const kAudioChannelLayoutTag_WAVE_4_0_B: AudioChannelLayoutTag = 0x00B9_0004;  // (185 << 16) | 4
pub const kAudioChannelLayoutTag_WAVE_5_0_A: AudioChannelLayoutTag = kAudioChannelLayoutTag_MPEG_5_0_A;
pub const kAudioChannelLayoutTag_WAVE_5_0_B: AudioChannelLayoutTag = 0x00BA_0005;  // (186 << 16) | 5
pub const kAudioChannelLayoutTag_WAVE_5_1_A: AudioChannelLayoutTag = kAudioChannelLayoutTag_MPEG_5_1_A;
pub const kAudioChannelLayoutTag_WAVE_5_1_B: AudioChannelLayoutTag = 0x00BB_0006;  // (187 << 16) | 6
pub const kAudioChannelLayoutTag_WAVE_6_1: AudioChannelLayoutTag = 0x00BC_0007;  // (188 << 16) | 7
pub const kAudioChannelLayoutTag_WAVE_7_1: AudioChannelLayoutTag = 0x00BD_0008;  // (189 << 16) | 8
pub const kAudioChannelLayoutTag_HOA_ACN_SN3D: AudioChannelLayoutTag = 0x00BE_0000;  // (190 << 16) | 0
pub const kAudioChannelLayoutTag_HOA_ACN_N3D: AudioChannelLayoutTag = 0x00BF_0000;  // (191 << 16) | 0
pub const kAudioChannelLayoutTag_Atmos_5_1_2: AudioChannelLayoutTag = 0x00C2_0008;  // (194 << 16) | 8
pub const kAudioChannelLayoutTag_Atmos_5_1_4: AudioChannelLayoutTag = 0x00C3_000A;  // (195 << 16) | 10
pub const kAudioChannelLayoutTag_Atmos_7_1_2: AudioChannelLayoutTag = 0x00C4_000A;  // (196 << 16) | 10
pub const kAudioChannelLayoutTag_Atmos_7_1_4: AudioChannelLayoutTag = 0x00C0_000C;  // (192 << 16) | 12
pub const kAudioChannelLayoutTag_Atmos_9_1_6: AudioChannelLayoutTag = 0x00C1_0010;  // (193 << 16) | 16
pub const kAudioChannelLayoutTag_Logic_Mono: AudioChannelLayoutTag = kAudioChannelLayoutTag_Mono;
pub const kAudioChannelLayoutTag_Logic_Stereo: AudioChannelLayoutTag = kAudioChannelLayoutTag_Stereo;
pub const kAudioChannelLayoutTag_Logic_Quadraphonic: AudioChannelLayoutTag = kAudioChannelLayoutTag_Quadraphonic;
pub const kAudioChannelLayoutTag_Logic_4_0_A: AudioChannelLayoutTag = kAudioChannelLayoutTag_MPEG_4_0_A;
pub const kAudioChannelLayoutTag_Logic_4_0_B: AudioChannelLayoutTag = kAudioChannelLayoutTag_MPEG_4_0_B;
pub const kAudioChannelLayoutTag_Logic_4_0_C: AudioChannelLayoutTag = 0x00C5_0004;  // (197 << 16) | 4
pub const kAudioChannelLayoutTag_Logic_5_0_A: AudioChannelLayoutTag = kAudioChannelLayoutTag_MPEG_5_0_A;
pub const kAudioChannelLayoutTag_Logic_5_0_B: AudioChannelLayoutTag = kAudioChannelLayoutTag_MPEG_5_0_B;
pub const kAudioChannelLayoutTag_Logic_5_0_C: AudioChannelLayoutTag = kAudioChannelLayoutTag_MPEG_5_0_C;
pub const kAudioChannelLayoutTag_Logic_5_0_D: AudioChannelLayoutTag = kAudioChannelLayoutTag_MPEG_5_0_D;
pub const kAudioChannelLayoutTag_Logic_5_1_A: AudioChannelLayoutTag = kAudioChannelLayoutTag_MPEG_5_1_A;
pub const kAudioChannelLayoutTag_Logic_5_1_B: AudioChannelLayoutTag = kAudioChannelLayoutTag_MPEG_5_1_B;
pub const kAudioChannelLayoutTag_Logic_5_1_C: AudioChannelLayoutTag = kAudioChannelLayoutTag_MPEG_5_1_C;
pub const kAudioChannelLayoutTag_Logic_5_1_D: AudioChannelLayoutTag = kAudioChannelLayoutTag_MPEG_5_1_D;
pub const kAudioChannelLayoutTag_Logic_6_0_A: AudioChannelLayoutTag = kAudioChannelLayoutTag_AAC_6_0;
pub const kAudioChannelLayoutTag_Logic_6_0_B: AudioChannelLayoutTag = 0x00C6_0006;  // (198 << 16) | 6
pub const kAudioChannelLayoutTag_Logic_6_0_C: AudioChannelLayoutTag = kAudioChannelLayoutTag_AudioUnit_6_0;
pub const kAudioChannelLayoutTag_Logic_6_1_A: AudioChannelLayoutTag = kAudioChannelLayoutTag_AAC_6_1;
pub const kAudioChannelLayoutTag_Logic_6_1_B: AudioChannelLayoutTag = 0x00C7_0007;  // (199 << 16) | 7
pub const kAudioChannelLayoutTag_Logic_6_1_C: AudioChannelLayoutTag = kAudioChannelLayoutTag_MPEG_6_1_A;
pub const kAudioChannelLayoutTag_Logic_6_1_D: AudioChannelLayoutTag = 0x00C8_0007;  // (200 << 16) | 7
pub const kAudioChannelLayoutTag_Logic_7_1_A: AudioChannelLayoutTag = kAudioChannelLayoutTag_AudioUnit_7_1;
pub const kAudioChannelLayoutTag_Logic_7_1_B: AudioChannelLayoutTag = 0x00C9_0008;  // (201 << 16) | 8
pub const kAudioChannelLayoutTag_Logic_7_1_C: AudioChannelLayoutTag = kAudioChannelLayoutTag_MPEG_7_1_C;
pub const kAudioChannelLayoutTag_Logic_7_1_SDDS_A: AudioChannelLayoutTag = kAudioChannelLayoutTag_MPEG_7_1_A;
pub const kAudioChannelLayoutTag_Logic_7_1_SDDS_B: AudioChannelLayoutTag = kAudioChannelLayoutTag_MPEG_7_1_B;
pub const kAudioChannelLayoutTag_Logic_7_1_SDDS_C: AudioChannelLayoutTag = kAudioChannelLayoutTag_Emagic_Default_7_1;
pub const kAudioChannelLayoutTag_Logic_Atmos_5_1_2: AudioChannelLayoutTag = kAudioChannelLayoutTag_Atmos_5_1_2;
pub const kAudioChannelLayoutTag_Logic_Atmos_5_1_4: AudioChannelLayoutTag = kAudioChannelLayoutTag_Atmos_5_1_4;
pub const kAudioChannelLayoutTag_Logic_Atmos_7_1_2: AudioChannelLayoutTag = kAudioChannelLayoutTag_Atmos_7_1_2;
pub const kAudioChannelLayoutTag_Logic_Atmos_7_1_4_A: AudioChannelLayoutTag = kAudioChannelLayoutTag_Atmos_7_1_4;
pub const kAudioChannelLayoutTag_Logic_Atmos_7_1_4_B: AudioChannelLayoutTag = 0x00CA_000C;  // (202 << 16) | 12
pub const kAudioChannelLayoutTag_Logic_Atmos_7_1_6: AudioChannelLayoutTag = 0x00CB_000E;  // (203 << 16) | 14
pub const kAudioChannelLayoutTag_DiscreteInOrder: AudioChannelLayoutTag = 0x0093_0000;  // (147 << 16) | 0
pub const kAudioChannelLayoutTag_CICP_1: AudioChannelLayoutTag = kAudioChannelLayoutTag_MPEG_1_0;
pub const kAudioChannelLayoutTag_CICP_2: AudioChannelLayoutTag = kAudioChannelLayoutTag_MPEG_2_0;
pub const kAudioChannelLayoutTag_CICP_3: AudioChannelLayoutTag = kAudioChannelLayoutTag_MPEG_3_0_A;
pub const kAudioChannelLayoutTag_CICP_4: AudioChannelLayoutTag = kAudioChannelLayoutTag_MPEG_4_0_A;
pub const kAudioChannelLayoutTag_CICP_5: AudioChannelLayoutTag = kAudioChannelLayoutTag_MPEG_5_0_A;
pub const kAudioChannelLayoutTag_CICP_6: AudioChannelLayoutTag = kAudioChannelLayoutTag_MPEG_5_1_A;
pub const kAudioChannelLayoutTag_CICP_7: AudioChannelLayoutTag = kAudioChannelLayoutTag_MPEG_7_1_B;
pub const kAudioChannelLayoutTag_CICP_9: AudioChannelLayoutTag = kAudioChannelLayoutTag_ITU_2_1;
pub const kAudioChannelLayoutTag_CICP_10: AudioChannelLayoutTag = kAudioChannelLayoutTag_ITU_2_2;
pub const kAudioChannelLayoutTag_CICP_11: AudioChannelLayoutTag = kAudioChannelLayoutTag_MPEG_6_1_A;
pub const kAudioChannelLayoutTag_CICP_12: AudioChannelLayoutTag = kAudioChannelLayoutTag_MPEG_7_1_C;
pub const kAudioChannelLayoutTag_CICP_13: AudioChannelLayoutTag = 0x00CC_0018;  // (204 << 16) | 24
pub const kAudioChannelLayoutTag_CICP_14: AudioChannelLayoutTag = 0x00CD_0008;  // (205 << 16) | 8
pub const kAudioChannelLayoutTag_CICP_15: AudioChannelLayoutTag = 0x00CE_000C;  // (206 << 16) | 12
pub const kAudioChannelLayoutTag_CICP_16: AudioChannelLayoutTag = 0x00CF_000A;  // (207 << 16) | 10
pub const kAudioChannelLayoutTag_CICP_17: AudioChannelLayoutTag = 0x00D0_000C;  // (208 << 16) | 12
pub const kAudioChannelLayoutTag_CICP_18: AudioChannelLayoutTag = 0x00D1_000E;  // (209 << 16) | 14
pub const kAudioChannelLayoutTag_CICP_19: AudioChannelLayoutTag = 0x00D2_000C;  // (210 << 16) | 12
pub const kAudioChannelLayoutTag_CICP_20: AudioChannelLayoutTag = 0x00D3_000E;  // (211 << 16) | 14
pub const kAudioChannelLayoutTag_Ogg_3_0: AudioChannelLayoutTag = kAudioChannelLayoutTag_AC3_3_0;
pub const kAudioChannelLayoutTag_Ogg_4_0: AudioChannelLayoutTag = kAudioChannelLayoutTag_WAVE_4_0_B;
pub const kAudioChannelLayoutTag_Ogg_5_0: AudioChannelLayoutTag = 0x00D4_0005;  // (212 << 16) | 5
pub const kAudioChannelLayoutTag_Ogg_5_1: AudioChannelLayoutTag = 0x00D5_0006;  // (213 << 16) | 6
pub const kAudioChannelLayoutTag_Ogg_6_1: AudioChannelLayoutTag = 0x00D6_0007;  // (214 << 16) | 7
pub const kAudioChannelLayoutTag_Ogg_7_1: AudioChannelLayoutTag = 0x00D7_0008;  // (215 << 16) | 8
pub const kAudioChannelLayoutTag_BeginReserved: AudioChannelLayoutTag = 0xF0000000;
pub const kAudioChannelLayoutTag_EndReserved: AudioChannelLayoutTag = 0xFFFEFFFF;
pub const kAudioChannelLayoutTag_Unknown: AudioChannelLayoutTag = 0xFFFF0000;

/// Every layout tag carries the number of channels it describes in its low
/// 16 bits; this reads that count back out.
pub fn AudioChannelLayoutTag_GetNumberOfChannels(inLayoutTag: AudioChannelLayoutTag) -> (r: u32)
    ensures
        r == inLayoutTag & 0x0000_FFFF,
        r == inLayoutTag % 0x1_0000,
        r < 0x1_0000,
{
    let r = inLayoutTag & 0x0000FFFF;
    proof {
        assert(inLayoutTag & 0x0000FFFF == inLayoutTag % 0x10000 && inLayoutTag & 0x0000FFFF
            < 0x10000) by (bit_vector);
    }
    r
}

/// A layout tag is built as `family * 0x1_0000 + count`: the family sits in
/// the high 16 bits, the channel count in the low 16, and reading the count
/// back out recovers exactly what was put in.
pub proof fn lemma_layout_tag_channels(family: u32, count: u32)
    requires
        family < 0x1_0000,
        count < 0x1_0000,
    ensures
        (family * 0x1_0000 + count) % 0x1_0000 == count,
        family * 0x1_0000 + count <= u32::MAX,
{
    assert((family * 0x10000 + count) % 0x10000 == count && family * 0x10000 + count
        < 0x1_0000_0000) by (bit_vector)
        requires
            family < 0x10000u32 && count < 0x10000u32,
    ;
}

pub type MPEG4ObjectID = i64;

pub const kMPEG4Object_AAC_Main: MPEG4ObjectID = 1;
pub const kMPEG4Object_AAC_LC: MPEG4ObjectID = 2;
pub const kMPEG4Object_AAC_SSR: MPEG4ObjectID = 3;
pub const kMPEG4Object_AAC_LTP: MPEG4ObjectID = 4;
pub const kMPEG4Object_AAC_SBR: MPEG4ObjectID = 5;
pub const kMPEG4Object_AAC_Scalable: MPEG4ObjectID = 6;
pub const kMPEG4Object_TwinVQ: MPEG4ObjectID = 7;
pub const kMPEG4Object_CELP: MPEG4ObjectID = 8;
pub const kMPEG4Object_HVXC: MPEG4ObjectID = 9;

} // verus!
