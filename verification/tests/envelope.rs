//! Tests of the wire envelope codec: encode, decode, truncation, and the
//! equivalence of the two envelope representations.

use taos_core::data::{raw_data_t, RawData};
use taos_core::error::FrameError;

#[test]
fn frame_layout_is_bit_exact() {
    let raw = raw_data_t { raw: bytes::Bytes::from(vec![0xAAu8]), raw_type: 0x0102 };
    let framed = raw.to_bytes();
    assert_eq!(framed.as_ref(), &[0x01, 0x00, 0x00, 0x00, 0x02, 0x01, 0xAA][..]);
}

#[test]
fn envelope_round_trip() {
    let payload = vec![9u8, 8, 7, 6, 5];
    let raw = raw_data_t { raw: bytes::Bytes::from(payload.clone()), raw_type: 21 };
    let framed = raw.to_bytes();
    let (decoded, consumed) = RawData::read_inlined(framed.as_ref()).unwrap();
    assert_eq!(consumed, payload.len() + 6);
    assert_eq!(decoded.raw_len() as usize, payload.len());
    assert_eq!(decoded.raw_type(), 21);
    assert_eq!(decoded.raw().as_ref(), &payload[..]);
}

#[test]
fn truncated_frames_fail_without_partial_payloads() {
    let raw = raw_data_t { raw: bytes::Bytes::from(vec![1u8, 2, 3, 4]), raw_type: 5 };
    let framed = raw.to_bytes();
    for cut in 0..framed.len() {
        let r = RawData::read_inlined(&framed.as_ref()[..cut]);
        assert_eq!(r.unwrap_err(), FrameError::UnexpectedEof);
    }
    assert!(RawData::read_inlined(framed.as_ref()).is_ok());
}

#[test]
fn decode_consumes_exactly_one_frame() {
    let first = raw_data_t { raw: bytes::Bytes::from(vec![1u8, 2]), raw_type: 1 };
    let second = raw_data_t { raw: bytes::Bytes::from(vec![3u8]), raw_type: 2 };
    let mut stream: Vec<u8> = Vec::new();
    let n1 = RawData::from(first).write_inlined(&mut stream);
    let n2 = RawData::from(second).write_inlined(&mut stream);
    assert_eq!(n1, 8);
    assert_eq!(n2, 7);
    let (d1, c1) = RawData::read_inlined(&stream).unwrap();
    assert_eq!(c1, n1);
    assert_eq!(d1.raw().as_ref(), &[1, 2]);
    let (d2, c2) = RawData::read_inlined(&stream[c1..]).unwrap();
    assert_eq!(c2, n2);
    assert_eq!(d2.raw_type(), 2);
    assert_eq!(d2.raw().as_ref(), &[3]);
}

#[test]
fn representations_are_indistinguishable() {
    // The same frame once as the native header-and-payload view and once as
    // an owned self-contained buffer: every accessor agrees.
    let raw = raw_data_t { raw: bytes::Bytes::from(vec![10u8, 20, 30]), raw_type: 77 };
    let native = RawData::from(raw.clone());
    let owned = RawData::new(native.as_bytes());
    assert_eq!(native.raw_len(), owned.raw_len());
    assert_eq!(native.raw_type(), owned.raw_type());
    assert_eq!(native.raw().as_ref(), owned.raw().as_ref());
    assert_eq!(native.as_bytes().as_ref(), owned.as_bytes().as_ref());
    let back = owned.as_raw_data_t();
    assert_eq!(back.raw_type, raw.raw_type);
    assert_eq!(back.raw.as_ref(), raw.raw.as_ref());
}
