use core_audio_types::base_types::{
    AudioChannelLayoutTag_GetNumberOfChannels, AudioClassDescription,
    AudioStreamPacketDescription, CalculateLPCMBytesPerFrame, CalculateLPCMFlags, fourcc,
    IsAudioFormatNativeEndian, kAudio_BadFilePathError, kAudioChannelBit_Left,
    kAudioChannelBit_RightTopRear, kAudioChannelBit_TopBackCenter,
    kAudioChannelLabel_Discrete_15, kAudioChannelLabel_HOA_ACN_65024,
    kAudioChannelLabel_HOA_N3D, kAudioChannelLabel_Object, kAudioChannelLayoutTag_Atmos_9_1_6,
    kAudioChannelLayoutTag_DiscreteInOrder, kAudioChannelLayoutTag_HOA_ACN_SN3D,
    kAudioChannelLayoutTag_Mono, kAudioChannelLayoutTag_MPEG_5_1_A,
    kAudioChannelLayoutTag_MPEG_7_1_C, kAudioChannelLayoutTag_Ogg_7_1,
    kAudioChannelLayoutTag_Stereo, kAudioChannelLayoutTag_UseChannelBitmap,
    kAudioFormatAppleLossless, kAudioFormatFlagIsAlignedHigh, kAudioFormatFlagIsBigEndian,
    kAudioFormatFlagIsFloat, kAudioFormatFlagIsNonInterleaved, kAudioFormatFlagIsPacked,
    kAudioFormatFlagIsSignedInteger, kAudioFormatFlagsAudioUnitCanonical,
    kAudioFormatFlagsCanonical, kAudioFormatFlagsNativeEndian,
    kAudioFormatFlagsNativeFloatPacked, kAudioFormatLinearPCM, kAudioFormatMPEG4AAC,
    kAudioFormatOpus, kAudioTimeStampHostTimeValid, kAudioTimeStampSampleHostTimeValid,
    kAudioTimeStampSampleTimeValid, kLinearPCMFormatFlagsSampleFractionMask,
    kLinearPCMFormatFlagsSampleFractionShift, kSMPTETimeType24, kSMPTETimeUnknown, SMPTETime,
};

#[test]
fn fourcc_reads_bytes_big_endian() {
    assert_eq!(fourcc(b"lpcm"), 0x6C70_636D);
    assert_eq!(fourcc(b"\x00\x00\x00\x01"), 1);
    assert_eq!(fourcc(b"\x01\x00\x00\x00"), 0x0100_0000);
    assert_eq!(fourcc(b"\xFF\xFF\xFF\xFF"), u32::MAX);
}

#[test]
fn fourcc_matches_format_ids() {
    assert_eq!(fourcc(b"lpcm"), kAudioFormatLinearPCM);
    assert_eq!(fourcc(b"aac "), kAudioFormatMPEG4AAC);
    assert_eq!(fourcc(b"alac"), kAudioFormatAppleLossless);
    assert_eq!(fourcc(b"opus"), kAudioFormatOpus);
}

#[test]
fn fourcc_matches_error_codes() {
    assert_eq!(fourcc(b"!pth") as i32, kAudio_BadFilePathError);
}

#[test]
fn lpcm_flags_float_packed() {
    let flags = CalculateLPCMFlags(32, 32, true, false, false);
    assert_eq!(flags, kAudioFormatFlagIsFloat | kAudioFormatFlagIsPacked);
    assert_eq!(flags, kAudioFormatFlagsNativeFloatPacked);
    assert_eq!(flags, 0x9);
}

#[test]
fn lpcm_flags_signed_integer_packed() {
    let flags = CalculateLPCMFlags(16, 16, false, false, false);
    assert_eq!(flags, kAudioFormatFlagIsSignedInteger | kAudioFormatFlagIsPacked);
    assert_eq!(flags, 0xC);
}

#[test]
fn lpcm_flags_high_aligned_big_endian_planar() {
    let flags = CalculateLPCMFlags(24, 32, false, true, true);
    assert_eq!(
        flags,
        kAudioFormatFlagIsSignedInteger
            | kAudioFormatFlagIsBigEndian
            | kAudioFormatFlagIsAlignedHigh
            | kAudioFormatFlagIsNonInterleaved
    );
    assert_eq!(flags, 0x36);
}

#[test]
fn native_endian_means_linear_pcm_without_big_endian_flag() {
    assert!(IsAudioFormatNativeEndian(kAudioFormatLinearPCM, 0));
    assert!(IsAudioFormatNativeEndian(
        kAudioFormatLinearPCM,
        kAudioFormatFlagIsFloat | kAudioFormatFlagIsPacked
    ));
    assert!(!IsAudioFormatNativeEndian(
        kAudioFormatLinearPCM,
        kAudioFormatFlagIsBigEndian
    ));
    assert!(!IsAudioFormatNativeEndian(kAudioFormatMPEG4AAC, 0));
    assert_eq!(kAudioFormatFlagsNativeEndian, 0);
}

#[test]
fn lpcm_bytes_per_frame_interleaved_counts_all_channels() {
    assert_eq!(CalculateLPCMBytesPerFrame(2, 16, false), 4);
    assert_eq!(CalculateLPCMBytesPerFrame(6, 32, false), 24);
}

#[test]
fn lpcm_bytes_per_frame_planar_counts_one_channel() {
    assert_eq!(CalculateLPCMBytesPerFrame(8, 24, true), 3);
    assert_eq!(CalculateLPCMBytesPerFrame(8, 0, true), 0);
}

#[test]
fn layout_tag_low_word_is_channel_count() {
    assert_eq!(
        AudioChannelLayoutTag_GetNumberOfChannels(kAudioChannelLayoutTag_Mono),
        1
    );
    assert_eq!(
        AudioChannelLayoutTag_GetNumberOfChannels(kAudioChannelLayoutTag_Stereo),
        2
    );
    assert_eq!(
        AudioChannelLayoutTag_GetNumberOfChannels(kAudioChannelLayoutTag_MPEG_5_1_A),
        6
    );
    assert_eq!(
        AudioChannelLayoutTag_GetNumberOfChannels(kAudioChannelLayoutTag_Atmos_9_1_6),
        16
    );
    assert_eq!(
        AudioChannelLayoutTag_GetNumberOfChannels(kAudioChannelLayoutTag_DiscreteInOrder),
        0
    );
    assert_eq!(AudioChannelLayoutTag_GetNumberOfChannels(0xFFFF_FFFF), 0xFFFF);
}

#[test]
fn packet_description_default_is_all_zero() {
    let d = AudioStreamPacketDescription::default();
    assert_eq!(d.mStartOffset, 0);
    assert_eq!(d.mVariableFramesInPacket, 0);
    assert_eq!(d.mDataByteSize, 0);
    assert_eq!(
        d,
        AudioStreamPacketDescription {
            mStartOffset: 0,
            mVariableFramesInPacket: 0,
            mDataByteSize: 0,
        }
    );
}

#[test]
fn smpte_time_default_is_all_zero() {
    let t = SMPTETime::default();
    assert_eq!(t.mSubframes, 0);
    assert_eq!(t.mSubframeDivisor, 0);
    assert_eq!(t.mCounter, 0);
    assert_eq!(t.mType, kSMPTETimeType24);
    assert_eq!(t.mFlags, kSMPTETimeUnknown);
    assert_eq!(t.mHours, 0);
    assert_eq!(t.mMinutes, 0);
    assert_eq!(t.mSeconds, 0);
    assert_eq!(t.mFrames, 0);
    let copy = t;
    assert_eq!(copy, t);
}

#[test]
fn class_description_default_is_all_zero() {
    let d = AudioClassDescription::default();
    assert_eq!(d.mType, 0);
    assert_eq!(d.mSubType, 0);
    assert_eq!(d.mManufacturer, 0);
}

#[test]
fn layout_tags_carry_id_high_and_channel_count_low() {
    assert_eq!(kAudioChannelLayoutTag_Mono, (100 << 16) | 1);
    assert_eq!(kAudioChannelLayoutTag_Stereo, (101 << 16) | 2);
    assert_eq!(kAudioChannelLayoutTag_MPEG_7_1_C, (128 << 16) | 8);
    assert_eq!(kAudioChannelLayoutTag_Ogg_7_1, (215 << 16) | 8);
    assert_eq!(kAudioChannelLayoutTag_HOA_ACN_SN3D, 190 << 16);
    assert_eq!(kAudioChannelLayoutTag_UseChannelBitmap, 1 << 16);
}

#[test]
fn channel_bits_and_labels_hold_their_positions() {
    assert_eq!(kAudioChannelBit_Left, 1 << 0);
    assert_eq!(kAudioChannelBit_TopBackCenter, 1 << 16);
    assert_eq!(kAudioChannelBit_RightTopRear, 1 << 26);
    assert_eq!(kAudioChannelLabel_Discrete_15, (1 << 16) | 15);
    assert_eq!(kAudioChannelLabel_HOA_ACN_65024, (2 << 16) | 65024);
    assert_eq!(kAudioChannelLabel_HOA_N3D, 3 << 16);
    assert_eq!(kAudioChannelLabel_Object, 4 << 16);
}

#[test]
fn composed_flag_words_match_their_parts() {
    assert_eq!(
        kAudioFormatFlagsCanonical,
        kAudioFormatFlagIsFloat | kAudioFormatFlagsNativeEndian | kAudioFormatFlagIsPacked
    );
    assert_eq!(
        kAudioFormatFlagsAudioUnitCanonical,
        kAudioFormatFlagIsFloat
            | kAudioFormatFlagsNativeEndian
            | kAudioFormatFlagIsPacked
            | kAudioFormatFlagIsNonInterleaved
    );
    assert_eq!(
        kLinearPCMFormatFlagsSampleFractionMask,
        0x3F << kLinearPCMFormatFlagsSampleFractionShift
    );
    assert_eq!(
        kAudioTimeStampSampleHostTimeValid,
        kAudioTimeStampSampleTimeValid | kAudioTimeStampHostTimeValid
    );
}
