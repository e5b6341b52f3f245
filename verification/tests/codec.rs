//! The 14-bit fader value codec and the sysex framing primitives.

use mpris_controller::midi::{Msg, normalized_from_be, normalized_to_be};

#[test]
fn round_trip_zero() {
    let (hi, lo) = normalized_to_be(0);
    assert_eq!((hi, lo), (0, 0));
    assert_eq!(normalized_from_be(hi, lo), Some(0));
}

#[test]
fn round_trip_full_scale() {
    let (hi, lo) = normalized_to_be(0x3fff);
    assert_eq!((hi, lo), (0x7f, 0x7f));
    assert_eq!(normalized_from_be(hi, lo), Some(0x3fff));
}

#[test]
fn round_trip_midpoint() {
    let (hi, lo) = normalized_to_be(8192);
    assert_eq!((hi, lo), (64, 0));
    assert_eq!(normalized_from_be(hi, lo), Some(8192));
}

#[test]
fn round_trip_every_representable_value() {
    let mut v: u16 = 0;
    loop {
        let (hi, lo) = normalized_to_be(v);
        assert!(hi < 0x80 && lo < 0x80);
        assert_eq!(normalized_from_be(hi, lo), Some(v));
        if v == 0x3fff {
            break;
        }
        v += 1;
    }
}

#[test]
fn from_be_rejects_high_bits() {
    assert_eq!(normalized_from_be(0x80, 0x00), None);
    assert_eq!(normalized_from_be(0x00, 0x80), None);
    assert_eq!(normalized_from_be(0xff, 0xff), None);
}

#[test]
fn sysex_framing_round_trip() {
    let msg = Msg::new_sysex(&vec![0x00, 0x00, 0x66, 0x14, 0x00]);
    assert_eq!(msg.inner(), &vec![0xf0, 0x00, 0x00, 0x66, 0x14, 0x00, 0xf7]);
    assert_eq!(msg.parse_sysex(), Some(vec![0x00, 0x00, 0x66, 0x14, 0x00]));
}

#[test]
fn parse_sysex_rejects_unframed_bytes() {
    assert_eq!(Msg::from_bytes(vec![0xf0, 0x00, 0x00]).parse_sysex(), None);
    assert_eq!(Msg::from_bytes(vec![0x00, 0x00, 0xf7]).parse_sysex(), None);
    assert_eq!(Msg::from_bytes(vec![0xf0]).parse_sysex(), None);
    assert_eq!(Msg::from_bytes(vec![]).parse_sysex(), None);
}
