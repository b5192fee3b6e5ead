use sfu::keyframe::{is_h264_key_frame, is_vp8_key_frame, is_vp9_key_frame};
use sfu::packet::{RtpHeader, RtpPacket};

fn vp8_packet(payload: Vec<u8>) -> RtpPacket {
    RtpPacket {
        header: RtpHeader { marker: false, payload_type: 96, sequence_number: 1, timestamp: 0, ssrc: 7 },
        payload,
    }
}

#[test]
fn h264_single_idr_nal_is_key_frame() {
    assert!(is_h264_key_frame(&[0x65]));
    assert!(is_h264_key_frame(&[0x65, 0x88, 0x84]));
}

#[test]
fn h264_non_idr_slice_is_not_key_frame() {
    assert!(!is_h264_key_frame(&[0x61]));
    assert!(!is_h264_key_frame(&[0x67, 0x42]));
}

#[test]
fn h264_empty_payload_is_not_key_frame() {
    assert!(!is_h264_key_frame(&[]));
}

#[test]
fn h264_fu_a_start_of_idr_is_key_frame() {
    assert!(is_h264_key_frame(&[0x7C, 0x85]));
    assert!(is_h264_key_frame(&[0x7D, 0x85]));
}

#[test]
fn h264_fu_a_continuation_is_not_key_frame() {
    assert!(!is_h264_key_frame(&[0x7C, 0x05]));
    assert!(!is_h264_key_frame(&[0x7C, 0x81]));
    assert!(!is_h264_key_frame(&[0x7C]));
}

#[test]
fn h264_stap_a_with_idr_is_key_frame() {
    assert!(is_h264_key_frame(&[0x78, 0x00, 0x02, 0x67, 0x42, 0x00, 0x01, 0x65]));
}

#[test]
fn h264_stap_a_without_idr_is_not_key_frame() {
    assert!(!is_h264_key_frame(&[0x78, 0x00, 0x02, 0x67, 0x42]));
    assert!(!is_h264_key_frame(&[0x78, 0x00, 0x09, 0x65]));
}

#[test]
fn h264_reserved_types_are_not_key_frames() {
    assert!(!is_h264_key_frame(&[0x00]));
    assert!(!is_h264_key_frame(&[0x1E, 0x85]));
}

#[test]
fn vp8_key_frame_without_extension() {
    assert!(is_vp8_key_frame(&vp8_packet(vec![0x10, 0x00])));
}

#[test]
fn vp8_inter_frame_without_extension() {
    assert!(!is_vp8_key_frame(&vp8_packet(vec![0x10, 0x01])));
}

#[test]
fn vp8_key_frame_with_long_picture_id() {
    assert!(is_vp8_key_frame(&vp8_packet(vec![0x90, 0x80, 0x81, 0x23, 0x00])));
    assert!(!is_vp8_key_frame(&vp8_packet(vec![0x90, 0x80, 0x81, 0x23, 0x01])));
}

#[test]
fn vp8_truncated_payloads_are_not_key_frames() {
    assert!(!is_vp8_key_frame(&vp8_packet(vec![])));
    assert!(!is_vp8_key_frame(&vp8_packet(vec![0x90])));
    assert!(!is_vp8_key_frame(&vp8_packet(vec![0x10])));
}

#[test]
fn vp9_key_frame_without_picture_id() {
    assert!(is_vp9_key_frame(&[0x00, 0x02, 0x00]));
}

#[test]
fn vp9_inter_frame() {
    assert!(!is_vp9_key_frame(&[0x00, 0x02, 0x40]));
}

#[test]
fn vp9_key_frame_with_picture_id() {
    assert!(is_vp9_key_frame(&[0x80, 0x00, 0x02, 0x00]));
}

#[test]
fn vp9_wrong_frame_marker() {
    assert!(!is_vp9_key_frame(&[0x00, 0x01, 0x00]));
}

#[test]
fn vp9_truncated_payloads() {
    assert!(!is_vp9_key_frame(&[]));
    assert!(!is_vp9_key_frame(&[0x80]));
    assert!(!is_vp9_key_frame(&[0x00, 0x02]));
}
