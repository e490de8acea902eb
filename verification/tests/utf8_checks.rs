use host_buffer::buffer::Buffer;
use host_buffer::encoding::check_utf8;
use host_buffer::error::Utf8Error;
use host_buffer::host::Host;
use host_buffer::value::downcast;

fn buffer_with_bytes(host: &mut Host, bytes: &[u8]) -> Buffer {
    let g = Buffer::new(host, bytes.len() as u32).unwrap();
    let b: Option<Buffer> = downcast(host, g);
    let b = b.unwrap();
    for (i, v) in bytes.iter().enumerate() {
        *b.index_mut(host, i) = *v;
    }
    b
}

#[test]
fn valid_ascii_as_str() {
    let mut host = Host::empty();
    let b = buffer_with_bytes(&mut host, b"hello");
    assert_eq!(b.as_str(&host), Ok("hello"));
}

#[test]
fn valid_multibyte_as_str() {
    let mut host = Host::empty();
    let text = "h\u{e9}llo \u{2192} \u{1F600}";
    let b = buffer_with_bytes(&mut host, text.as_bytes());
    assert_eq!(b.as_str(&host), Ok(text));
}

#[test]
fn zero_bytes_are_valid_utf8() {
    let mut host = Host::empty();
    let b = buffer_with_bytes(&mut host, &[0, 0, 0]);
    assert_eq!(b.as_str(&host), Ok("\0\0\0"));
}

#[test]
fn empty_buffer_as_str() {
    let mut host = Host::empty();
    let b = buffer_with_bytes(&mut host, &[]);
    assert_eq!(b.as_str(&host), Ok(""));
}

#[test]
fn invalid_bytes_as_str_fails() {
    let mut host = Host::empty();
    let b = buffer_with_bytes(&mut host, &[0xFF, 0xFE, 0xFD]);
    assert_eq!(b.as_str(&host), Err(Utf8Error));
}

#[test]
fn invalid_subsequence_fails_whole_range() {
    let mut host = Host::empty();
    // Valid ASCII around one lone continuation byte.
    let b = buffer_with_bytes(&mut host, b"ok\x80ok");
    assert_eq!(b.as_str(&host), Err(Utf8Error));
}

#[test]
fn check_str_ok_on_valid_bytes() {
    let mut host = Host::empty();
    let b = buffer_with_bytes(&mut host, b"sound");
    match b.check_str(&host) {
        Ok(s) => assert_eq!(s, "sound"),
        Err(_) => panic!("valid UTF-8 was refused"),
    }
}

#[test]
fn check_str_carries_fixed_message() {
    let mut host = Host::empty();
    let b = buffer_with_bytes(&mut host, &[0xFF, 0xFE, 0xFD]);
    match b.check_str(&host) {
        Ok(_) => panic!("invalid UTF-8 was accepted"),
        Err(t) => assert_eq!(t.message(), "buffer contents are invalid UTF-8"),
    }
}

#[test]
fn check_utf8_accepts_well_formed_sequences() {
    assert!(check_utf8(&[]));
    assert!(check_utf8(b"plain ascii"));
    assert!(check_utf8(&[0xC3, 0xA9])); // U+00E9, two bytes
    assert!(check_utf8(&[0xC2, 0x80])); // smallest two-byte scalar
    assert!(check_utf8(&[0xE0, 0xA0, 0x80])); // smallest three-byte scalar
    assert!(check_utf8(&[0xED, 0x9F, 0xBF])); // U+D7FF, just below surrogates
    assert!(check_utf8(&[0xEE, 0x80, 0x80])); // U+E000, just above surrogates
    assert!(check_utf8(&[0xEF, 0xBF, 0xBF])); // U+FFFF
    assert!(check_utf8(&[0xF0, 0x90, 0x80, 0x80])); // smallest four-byte scalar
    assert!(check_utf8(&[0xF4, 0x8F, 0xBF, 0xBF])); // U+10FFFF, the largest scalar
}

#[test]
fn check_utf8_rejects_malformed_sequences() {
    assert!(!check_utf8(&[0x80])); // continuation byte leading
    assert!(!check_utf8(&[0xC3])); // truncated two-byte sequence
    assert!(!check_utf8(&[0xC3, 0x28])); // continuation missing its high bit
    assert!(!check_utf8(&[0xC0, 0x80])); // overlong two-byte encoding of U+0000
    assert!(!check_utf8(&[0xC1, 0xBF])); // overlong two-byte encoding of U+007F
    assert!(!check_utf8(&[0xE0, 0x9F, 0xBF])); // overlong three-byte encoding
    assert!(!check_utf8(&[0xE2, 0x86])); // truncated three-byte sequence
    assert!(!check_utf8(&[0xED, 0xA0, 0x80])); // surrogate U+D800
    assert!(!check_utf8(&[0xED, 0xBF, 0xBF])); // surrogate U+DFFF
    assert!(!check_utf8(&[0xF0, 0x8F, 0xBF, 0xBF])); // overlong four-byte encoding
    assert!(!check_utf8(&[0xF0, 0x9F, 0x98])); // truncated four-byte sequence
    assert!(!check_utf8(&[0xF4, 0x90, 0x80, 0x80])); // above U+10FFFF
    assert!(!check_utf8(&[0xF8, 0x88, 0x80, 0x80, 0x80])); // five-byte pattern
    assert!(!check_utf8(&[0xFF]));
}

#[test]
fn check_utf8_agrees_with_std() {
    let samples: &[&[u8]] = &[
        b"",
        b"a",
        b"mixed \xC3\xA9 text \xE2\x86\x92 here \xF0\x9F\x98\x80",
        &[0xC3, 0xA9, 0xFF],
        &[0xE2, 0x82, 0xAC],
        &[0x00, 0x7F, 0x80],
        &[0xED, 0x9F, 0xBF, 0xEE, 0x80, 0x80],
    ];
    for bytes in samples {
        assert_eq!(check_utf8(bytes), core::str::from_utf8(bytes).is_ok());
    }
}
