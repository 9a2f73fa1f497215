use core_audio_types::session_types::{
    fourcc, AVAudioSessionErrorCodeBadParam, AVAudioSessionErrorCodeIsBusy,
    AVAudioSessionErrorCodeMediaServicesFailed, AVAudioSessionErrorCodeNone,
    AVAudioSessionErrorCodeSessionNotActive, AVAudioSessionErrorCodeUnspecified,
};

#[test]
fn session_fourcc_widens_without_change_of_value() {
    assert_eq!(fourcc(b"msrv"), 0x6D73_7276_i64);
    assert_eq!(fourcc(b"\xFF\xFF\xFF\xFF"), 0xFFFF_FFFF_i64);
    assert!(fourcc(b"\xFF\xFF\xFF\xFF") > 0);
}

#[test]
fn session_error_codes_match_their_four_character_codes() {
    assert_eq!(fourcc(b"msrv"), AVAudioSessionErrorCodeMediaServicesFailed);
    assert_eq!(fourcc(b"!act"), AVAudioSessionErrorCodeIsBusy);
    assert_eq!(fourcc(b"what"), AVAudioSessionErrorCodeUnspecified);
    assert_eq!(fourcc(b"inac"), AVAudioSessionErrorCodeSessionNotActive);
}

#[test]
fn session_error_codes_without_four_character_codes() {
    assert_eq!(AVAudioSessionErrorCodeNone, 0);
    assert_eq!(AVAudioSessionErrorCodeBadParam, -50);
}
