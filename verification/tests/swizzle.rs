use base64::Engine;
use base64::prelude::BASE64_STANDARD;
use udata::swizzle::{base64_swizzle, base64_unswizzle, swizzle, unswizzle, CodecError};

#[test]
fn test_swizzle() {
    let x0: u8 = 0b0001_0101;
    let y0: u8 = 0b1011_1100;

    let mut x: u8 = 0b0001_0101;
    let mut y: u8 = 0b1011_1100;

    // swizzle
    {
        let n1 = x % 8;

        y = (y >> n1) | (y << (8 - n1));

        let n2 = y % 8;

        x = (x >> n2) | (x << (8 - n2));
    }

    // unswizzle
    {
        let n1 = y % 8;

        x = (x << n1) | (x >> (8 - n1));

        let n2 = x % 8;

        y = (y << n2) | (y >> (8 - n2));
    }

    assert_eq!(x, x0);
    assert_eq!(y, y0);

    let data = vec![0x01u8, 0x02u8, 0x03u8, 0x04u8, 0x05u8, 0x06u8, 0x07u8, 0x08u8];

    let swizzled = swizzle(&data);
    let unswizzled = unswizzle(&swizzled);

    assert_eq!(data, unswizzled);
}

#[test]
fn test_base64_swizzle() {
    let data = "A quick brown fox jumps over the lazy dog!";
    let swizzled = base64_swizzle(data.as_bytes());
    let unswizzled = base64_unswizzle(&swizzled).unwrap();
    assert_eq!(data.as_bytes(), unswizzled.as_slice());
    assert_eq!(data.len(), unswizzled.len());
    assert_eq!(data, String::from_utf8(unswizzled.clone()).unwrap());

    let udata = BASE64_STANDARD.decode(&swizzled).unwrap();
    assert_ne!(data.as_bytes(), udata.as_slice());
}

#[test]
fn swizzle_known_pair() {
    // x = 1: rotate y = 2 right by 1 -> 1; rotate x right by 1 -> 0x80.
    assert_eq!(swizzle(&[0x01, 0x02]), vec![0x80, 0x01]);
    assert_eq!(unswizzle(&[0x80, 0x01]), vec![0x01, 0x02]);
    assert_eq!(base64_swizzle(&[0x01, 0x02]), "gAE=");
    assert_eq!(base64_unswizzle("gAE=").unwrap(), vec![0x01, 0x02]);
}

#[test]
fn swizzle_empty_input() {
    assert_eq!(swizzle(&[]), Vec::<u8>::new());
    assert_eq!(unswizzle(&[]), Vec::<u8>::new());
    assert_eq!(base64_swizzle(&[]), "");
    assert_eq!(base64_unswizzle("").unwrap(), Vec::<u8>::new());
}

#[test]
fn swizzle_odd_length_grows_by_one() {
    // An odd-length input is padded with a copy of its first byte, and the
    // padding is never stripped: the round trip comes back one byte longer.
    let enc = swizzle(&[0x07]);
    assert_eq!(enc.len(), 2);
    assert_eq!(unswizzle(&enc), vec![0x07, 0x07]);

    let text = base64_swizzle(&[0x07]);
    assert_eq!(base64_unswizzle(&text).unwrap(), vec![0x07, 0x07]);
}

#[test]
fn base64_round_trip_even_lengths() {
    for data in [&b"AB"[..], &b"ABCD"[..], &[0u8, 255, 17, 4, 99, 200][..]] {
        let text = base64_swizzle(data);
        assert_eq!(base64_unswizzle(&text).unwrap(), data.to_vec());
    }
}

#[test]
fn base64_unswizzle_rejects_invalid_text() {
    assert_eq!(base64_unswizzle("!!!"), Err(CodecError));
    assert_eq!(base64_unswizzle("abc"), Err(CodecError));
}
