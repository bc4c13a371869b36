use bip_rier::decoder::{decode, DecodeError};
use bip_rier::report::{Report, REPORT_CAPACITY};

fn buffer_with(bytes: &[u8], offset: usize) -> Vec<u8> {
    let mut buffer = vec![0u8; REPORT_CAPACITY];
    buffer[offset..offset + bytes.len()].copy_from_slice(bytes);
    buffer
}

#[test]
fn decode_capture_happy_path() {
    let buffer = buffer_with(b"/tmp/file.txt", 2);
    assert_eq!(&buffer[..17], b"\0\0/tmp/file.txt\0\0");
    assert_eq!(decode(&buffer, 18), Ok(String::from("/tmp/file.txt")));
}

#[test]
fn decode_exact_padded_slice() {
    let bytes = b"\0\0/tmp/file.txt\0\0";
    assert_eq!(decode(bytes, bytes.len()), Ok(String::from("/tmp/file.txt")));
}

#[test]
fn decode_is_deterministic() {
    let buffer = buffer_with("caf\u{e9} 42".as_bytes(), 5);
    let first = decode(&buffer, 64);
    let second = decode(&buffer, 64);
    assert_eq!(first, second);
    assert_eq!(first, Ok(String::from("caf\u{e9} 42")));

    let broken = [0x61u8, 0xff, 0x62];
    assert_eq!(decode(&broken, 3), decode(&broken, 3));
}

#[test]
fn decode_undoes_any_padding() {
    let text = "scan-0042";
    for before in 0..6usize {
        for after in 0..6usize {
            let mut bytes = vec![0u8; before];
            bytes.extend_from_slice(text.as_bytes());
            bytes.extend(std::iter::repeat(0u8).take(after));
            assert_eq!(decode(&bytes, bytes.len()), Ok(String::from(text)));
        }
    }
}

#[test]
fn decode_undoes_padding_of_multibyte_text() {
    let text = "\u{e9}t\u{e9} \u{20ac} \u{1f600}";
    let mut bytes = vec![0u8; 3];
    bytes.extend_from_slice(text.as_bytes());
    bytes.extend_from_slice(&[0, 0]);
    assert_eq!(decode(&bytes, bytes.len()), Ok(String::from(text)));
}

#[test]
fn decode_keeps_inner_nul() {
    let bytes = b"\0ab\0cd\0\0";
    assert_eq!(decode(bytes, bytes.len()), Ok(String::from("ab\0cd")));
}

#[test]
fn decode_all_nul_is_empty_line() {
    let buffer = vec![0u8; REPORT_CAPACITY];
    assert_eq!(decode(&buffer, REPORT_CAPACITY), Ok(String::new()));
    assert_eq!(decode(&buffer, 1), Ok(String::new()));
}

#[test]
fn decode_empty_slice_is_empty_line() {
    let buffer = buffer_with(b"left over", 0);
    assert_eq!(decode(&buffer, 0), Ok(String::new()));
    assert_eq!(decode(&[], 0), Ok(String::new()));
}

#[test]
fn decode_unpadded_text_is_itself() {
    assert_eq!(decode(b"4006381333931", 13), Ok(String::from("4006381333931")));
}

#[test]
fn decode_takes_only_the_first_length_bytes() {
    let mut buffer = buffer_with(b"first", 0);
    buffer[5..11].copy_from_slice(b"-stale");
    assert_eq!(decode(&buffer, 5), Ok(String::from("first")));
    assert_eq!(decode(&buffer, 11), Ok(String::from("first-stale")));
    assert_eq!(decode(&buffer, 3), Ok(String::from("fir")));
}

#[test]
fn decode_ignores_invalid_bytes_behind_the_length() {
    let mut buffer = buffer_with(b"ok", 1);
    buffer[10] = 0xff;
    assert_eq!(decode(&buffer, 10), Ok(String::from("ok")));
    assert_eq!(
        decode(&buffer, 11),
        Err(DecodeError::InvalidEncoding { valid_up_to: 10 })
    );
}

#[test]
fn decode_rejects_invalid_encoding() {
    let bytes = [0x61u8, 0xff, 0x62];
    assert_eq!(
        decode(&bytes, 3),
        Err(DecodeError::InvalidEncoding { valid_up_to: 1 })
    );
    assert!(matches!(
        decode(&[0x00, 0x80, 0x00], 3),
        Err(DecodeError::InvalidEncoding { .. })
    ));
}

#[test]
fn decode_rejects_truncated_sequence() {
    assert_eq!(
        decode(&[0xc3], 1),
        Err(DecodeError::InvalidEncoding { valid_up_to: 0 })
    );
    assert_eq!(
        decode(&[0x61, 0xc3], 2),
        Err(DecodeError::InvalidEncoding { valid_up_to: 1 })
    );
    // The same bytes, one more of them: now the sequence is whole.
    assert_eq!(decode(&[0x61, 0xc3, 0xa9], 3), Ok(String::from("a\u{e9}")));
}

#[test]
fn decode_reports_longest_valid_prefix() {
    assert_eq!(
        decode(&[0xc3, 0xa9, 0xff, 0x41], 4),
        Err(DecodeError::InvalidEncoding { valid_up_to: 2 })
    );
}

#[test]
fn decode_rejects_surrogates_and_overlong_forms() {
    assert_eq!(
        decode(&[0xed, 0xa0, 0x80], 3),
        Err(DecodeError::InvalidEncoding { valid_up_to: 0 })
    );
    assert_eq!(
        decode(&[0x41, 0xc0, 0x80], 3),
        Err(DecodeError::InvalidEncoding { valid_up_to: 1 })
    );
}

#[test]
fn decode_error_message() {
    let error = DecodeError::InvalidEncoding { valid_up_to: 1 };
    assert_eq!(error.message(), "invalid utf-8 sequence from index 1");
    let far = DecodeError::InvalidEncoding { valid_up_to: 511 };
    assert_eq!(far.message(), "invalid utf-8 sequence from index 511");
}

#[test]
fn report_holds_the_filled_bytes_only() {
    let buffer = buffer_with(b"\0\0/tmp/file.txt\0\0", 0);
    let report = Report::new(buffer, 18).unwrap();
    assert_eq!(report.len(), 18);
    assert_eq!(report.decode(), Ok(String::from("/tmp/file.txt")));
}

#[test]
fn report_needs_a_buffer_of_its_length() {
    assert!(Report::new(vec![1, 2, 3], 4).is_none());
    assert!(Report::new(vec![1, 2, 3], 3).is_some());
    assert!(Report::new(Vec::new(), 0).is_some());
    assert!(Report::new(Vec::new(), 1).is_none());
}

#[test]
fn report_decode_rejects_invalid_encoding() {
    let report = Report::new(vec![0x00, 0x41, 0xfe, 0x00], 4).unwrap();
    assert_eq!(
        report.decode(),
        Err(DecodeError::InvalidEncoding { valid_up_to: 2 })
    );
}
