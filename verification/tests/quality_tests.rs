use sfu::quality::{str_eq, Codec, Error, StreamQuality};

#[test]
fn stream_quality_parses_known_rids() {
    assert_eq!(StreamQuality::from_str("low"), Ok(StreamQuality::Low));
    assert_eq!(StreamQuality::from_str("mid"), Ok(StreamQuality::Mid));
    assert_eq!(StreamQuality::from_str("high"), Ok(StreamQuality::High));
}

#[test]
fn stream_quality_rejects_unknown_rid() {
    assert_eq!(
        StreamQuality::from_str("ultra"),
        Err(Error::SystemError { message: "Unknown StreamQuality type".to_string() })
    );
    assert!(StreamQuality::from_str("").is_err());
    assert!(StreamQuality::from_str("High").is_err());
}

#[test]
fn stream_quality_order_and_default() {
    assert_eq!(StreamQuality::Audio.as_u8(), 0);
    assert_eq!(StreamQuality::Low.as_u8(), 1);
    assert_eq!(StreamQuality::Mid.as_u8(), 2);
    assert_eq!(StreamQuality::High.as_u8(), 3);
    assert!(StreamQuality::Low < StreamQuality::Mid);
    assert!(StreamQuality::Mid < StreamQuality::High);
    assert_eq!(StreamQuality::default(), StreamQuality::High);
}

#[test]
fn codec_parses_video_mime_types() {
    assert_eq!(Codec::from_str("video/VP8"), Ok(Codec::VP8));
    assert_eq!(Codec::from_str("video/VP9"), Ok(Codec::VP9));
    assert_eq!(Codec::from_str("video/H264"), Ok(Codec::H264));
    assert_eq!(Codec::from_str("video/AV1"), Ok(Codec::AV1));
}

#[test]
fn codec_keeps_other_mime_types_as_audio() {
    assert_eq!(Codec::from_str("audio/opus"), Ok(Codec::Audio("audio/opus".to_string())));
    assert_eq!(Codec::from_str("video/vp8"), Ok(Codec::Audio("video/vp8".to_string())));
}

#[test]
fn codec_mime_round_trip() {
    for mime in ["video/VP8", "video/VP9", "video/H264", "video/AV1", "audio/opus", "x"] {
        let codec = Codec::from_str(mime).unwrap();
        assert_eq!(codec.to_string(), mime);
    }
    for codec in [Codec::VP8, Codec::VP9, Codec::H264, Codec::AV1, Codec::Audio("audio/PCMU".to_string())] {
        let again = Codec::from_str(&codec.to_string()).unwrap();
        assert_eq!(again, codec);
    }
}

#[test]
fn codec_payload_types() {
    assert_eq!(Codec::AV1.payload_type(), 41);
    assert_eq!(Codec::H264.payload_type(), 102);
    assert_eq!(Codec::VP8.payload_type(), 96);
    assert_eq!(Codec::VP9.payload_type(), 100);
    assert_eq!(Codec::Audio("audio/opus".to_string()).payload_type(), 0);
}

#[test]
fn codec_keyframe_parsers() {
    assert!(Codec::H264.has_keyframe_parser());
    assert!(Codec::VP8.has_keyframe_parser());
    assert!(Codec::VP9.has_keyframe_parser());
    assert!(!Codec::AV1.has_keyframe_parser());
    assert!(!Codec::Audio("audio/opus".to_string()).has_keyframe_parser());
}

#[test]
fn codec_default_and_duplicate() {
    assert_eq!(Codec::default(), Codec::VP8);
    let audio = Codec::Audio("audio/opus".to_string());
    assert_eq!(audio.duplicate(), audio);
}

#[test]
fn string_comparison() {
    assert!(str_eq("abc", "abc"));
    assert!(!str_eq("abc", "abd"));
    assert!(!str_eq("abc", "ab"));
}
