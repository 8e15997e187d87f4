use oxxy::text::{is_utf8, scalar_width};

#[test]
fn empty_payload_is_text() {
    assert!(is_utf8(b""));
}

#[test]
fn ascii_is_text() {
    assert!(is_utf8(b"not json"));
    assert!(is_utf8(b"{\"stream\":{\"job\":\"x\"},\"values\":[]}"));
}

#[test]
fn every_encoded_width_is_text() {
    assert!(is_utf8("a".as_bytes()));
    assert!(is_utf8("é".as_bytes()));
    assert!(is_utf8("€".as_bytes()));
    assert!(is_utf8("𝄞".as_bytes()));
    assert!(is_utf8("log: grüße → 日本語 𝄞".as_bytes()));
}

#[test]
fn boundary_scalars_are_text() {
    assert!(is_utf8(&[0x7f]));
    assert!(is_utf8(&[0xc2, 0x80]));
    assert!(is_utf8(&[0xdf, 0xbf]));
    assert!(is_utf8(&[0xe0, 0xa0, 0x80]));
    assert!(is_utf8(&[0xed, 0x9f, 0xbf]));
    assert!(is_utf8(&[0xee, 0x80, 0x80]));
    assert!(is_utf8(&[0xef, 0xbf, 0xbf]));
    assert!(is_utf8(&[0xf0, 0x90, 0x80, 0x80]));
    assert!(is_utf8(&[0xf4, 0x8f, 0xbf, 0xbf]));
}

#[test]
fn stray_continuation_byte_is_not_text() {
    assert!(!is_utf8(&[0x80]));
    assert!(!is_utf8(&[b'a', 0xbf, b'b']));
}

#[test]
fn overlong_encodings_are_not_text() {
    assert!(!is_utf8(&[0xc0, 0x80]));
    assert!(!is_utf8(&[0xc1, 0xbf]));
    assert!(!is_utf8(&[0xe0, 0x9f, 0xbf]));
    assert!(!is_utf8(&[0xf0, 0x8f, 0xbf, 0xbf]));
}

#[test]
fn surrogates_are_not_text() {
    assert!(!is_utf8(&[0xed, 0xa0, 0x80]));
    assert!(!is_utf8(&[0xed, 0xbf, 0xbf]));
}

#[test]
fn scalars_beyond_the_last_plane_are_not_text() {
    assert!(!is_utf8(&[0xf4, 0x90, 0x80, 0x80]));
    assert!(!is_utf8(&[0xf5, 0x80, 0x80, 0x80]));
    assert!(!is_utf8(&[0xf7, 0xbf, 0xbf, 0xbf]));
    assert!(!is_utf8(&[0xf8, 0x88, 0x80, 0x80, 0x80]));
    assert!(!is_utf8(&[0xff]));
}

#[test]
fn truncated_scalars_are_not_text() {
    assert!(!is_utf8(&[0xc3]));
    assert!(!is_utf8(&[0xe2, 0x82]));
    assert!(!is_utf8(&[0xf0, 0x9d, 0x84]));
    assert!(!is_utf8(&[b'o', b'k', 0xe2, 0x82]));
}

#[test]
fn binary_payload_is_not_text() {
    assert!(!is_utf8(b"\x80\x05\xf0\xc2\n\xfd\x04\nG{hostname=\"boomer\"}"));
}

#[test]
fn scalar_width_counts_the_bytes_of_one_scalar() {
    let bytes = "a é€𝄞".as_bytes();
    assert_eq!(scalar_width(bytes, 0), 1);
    assert_eq!(scalar_width(bytes, 1), 1);
    assert_eq!(scalar_width(bytes, 2), 2);
    assert_eq!(scalar_width(bytes, 4), 3);
    assert_eq!(scalar_width(bytes, 7), 4);
}

#[test]
fn scalar_width_is_zero_where_no_scalar_starts() {
    let bytes = "é€".as_bytes();
    assert_eq!(scalar_width(bytes, 1), 0);
    assert_eq!(scalar_width(bytes, 3), 0);
    assert_eq!(scalar_width(&[0xe2, 0x82], 0), 0);
    assert_eq!(scalar_width(&[0xc0, 0x80], 0), 0);
    assert_eq!(scalar_width(&[0xed, 0xa0, 0x80], 0), 0);
}

#[test]
fn agrees_with_the_standard_library_on_all_short_inputs() {
    for first in 0..=255u8 {
        assert_eq!(is_utf8(&[first]), std::str::from_utf8(&[first]).is_ok());
        for second in 0..=255u8 {
            let pair = [first, second];
            assert_eq!(is_utf8(&pair), std::str::from_utf8(&pair).is_ok(), "{:?}", pair);
        }
    }
}

#[test]
fn agrees_with_the_standard_library_on_longer_inputs() {
    let edges: [u8; 16] = [
        0x00, 0x7f, 0x80, 0x8f, 0x90, 0x9f, 0xa0, 0xbf, 0xc2, 0xe0, 0xed, 0xef, 0xf0, 0xf4, 0xf5,
        0xff,
    ];
    for first in [0xe0u8, 0xe1, 0xec, 0xed, 0xee, 0xef, 0xf0, 0xf1, 0xf3, 0xf4, 0xf5] {
        for second in edges {
            for third in edges {
                let three = [first, second, third];
                assert_eq!(is_utf8(&three), std::str::from_utf8(&three).is_ok(), "{:?}", three);
                for fourth in edges {
                    let four = [first, second, third, fourth];
                    assert_eq!(is_utf8(&four), std::str::from_utf8(&four).is_ok(), "{:?}", four);
                }
            }
        }
    }
}

#[test]
fn scalar_width_is_zero_past_the_end() {
    assert_eq!(scalar_width(b"abc", 3), 0);
    assert_eq!(scalar_width(b"abc", 4), 0);
    assert_eq!(scalar_width(b"", 0), 0);
    assert_eq!(scalar_width(b"abc", usize::MAX), 0);
}
