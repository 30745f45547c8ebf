use rustfs_mimalloc::output::{
    owned_mimalloc_string, write_owned_c_string, OutputBuffer, OutputError, Sink,
    OUTPUT_BUFFER_CAPACITY,
};
use rustfs_mimalloc::utf8_lossy::{to_string_lossy, write_bytes};

fn std_lossy(bytes: &[u8]) -> String {
    String::from_utf8_lossy(bytes).into_owned()
}

#[test]
fn ascii_passes_through() {
    assert_eq!(to_string_lossy(b"hello, mimalloc"), "hello, mimalloc");
    assert_eq!(to_string_lossy(b""), "");
}

#[test]
fn valid_multibyte_text_passes_through() {
    let text = "héllo – 世界 🦀";
    assert_eq!(to_string_lossy(text.as_bytes()), text);
}

#[test]
fn ill_formed_subparts_become_one_replacement_each() {
    // A truncated 3-byte sequence is one maximal subpart.
    assert_eq!(to_string_lossy(&[0xE2, 0x82]), "\u{FFFD}");
    // E0 A0 is a proper prefix; the following 'A' is decoded on its own.
    assert_eq!(to_string_lossy(&[0xE0, 0xA0, 0x41]), "\u{FFFD}A");
    // A surrogate encoding: ED may not be followed by A0, so each byte is replaced.
    assert_eq!(to_string_lossy(&[0xED, 0xA0, 0x80]), "\u{FFFD}\u{FFFD}\u{FFFD}");
    // Overlong lead bytes never start a well-formed encoding.
    assert_eq!(to_string_lossy(&[0xC0, 0x80]), "\u{FFFD}\u{FFFD}");
    // A 4-byte sequence cut short after three bytes.
    assert_eq!(to_string_lossy(&[0xF0, 0x9F, 0xA6, b'x']), "\u{FFFD}x");
    // Beyond U+10FFFF.
    assert_eq!(to_string_lossy(&[0xF4, 0x90, 0x80, 0x80]), "\u{FFFD}\u{FFFD}\u{FFFD}\u{FFFD}");
    // A lone continuation byte.
    assert_eq!(to_string_lossy(&[b'a', 0x80, b'b']), "a\u{FFFD}b");
    // A byte that never appears in UTF-8.
    assert_eq!(to_string_lossy(&[0xFF]), "\u{FFFD}");
}

#[test]
fn agrees_with_std_on_all_two_byte_inputs() {
    for a in 0..=255u8 {
        for b in 0..=255u8 {
            let bytes = [a, b];
            assert_eq!(to_string_lossy(&bytes), std_lossy(&bytes), "{bytes:?}");
        }
    }
}

#[test]
fn agrees_with_std_on_three_and_four_byte_inputs() {
    let interesting: Vec<u8> =
        vec![0x00, 0x41, 0x7F, 0x80, 0x8F, 0x90, 0x9F, 0xA0, 0xBF, 0xC0, 0xC1, 0xC2, 0xDF, 0xE0,
            0xE1, 0xEC, 0xED, 0xEE, 0xEF, 0xF0, 0xF1, 0xF3, 0xF4, 0xF5, 0xF7, 0xF8, 0xFF];
    for &a in &interesting {
        for &b in &interesting {
            for &c in &interesting {
                let three = [a, b, c];
                assert_eq!(to_string_lossy(&three), std_lossy(&three), "{three:?}");
                for &d in &interesting {
                    let four = [a, b, c, d];
                    assert_eq!(to_string_lossy(&four), std_lossy(&four), "{four:?}");
                }
            }
        }
    }
}

#[test]
fn write_bytes_appends() {
    let mut out = String::from("stats: ");
    write_bytes(&mut out, b"ok\xFF");
    assert_eq!(out, "stats: ok\u{FFFD}");
}

#[test]
fn null_string_is_empty() {
    assert_eq!(owned_mimalloc_string(None), "");
    assert_eq!(owned_mimalloc_string(Some(b"{\"version\": 3}")), "{\"version\": 3}");
}

#[test]
fn null_string_fails_the_write() {
    let mut out = String::from("x");
    assert_eq!(write_owned_c_string(&mut out, None), Err(OutputError));
    assert_eq!(out, "x");
    assert_eq!(write_owned_c_string(&mut out, Some(b"{}")), Ok(()));
    assert_eq!(out, "x{}");
}

#[test]
fn sink_stops_after_the_first_failure() {
    let mut sink = Sink::new();
    assert_eq!(sink.output_callback(None), None);
    assert_eq!(sink.output_callback(Some(b"line 1\n")).as_deref(), Some("line 1\n"));
    sink.record(Ok(()));
    assert_eq!(sink.result(), Ok(()));
    sink.record(Err(OutputError));
    assert_eq!(sink.result(), Err(OutputError));
    assert_eq!(sink.output_callback(Some(b"line 2\n")), None);
    sink.record(Ok(()));
    assert_eq!(sink.result(), Err(OutputError));
}

#[test]
fn buffer_keeps_everything_that_fits() {
    let mut buf = OutputBuffer::new();
    buf.collect_mimalloc_output_callback(Some(b"heap stats\n"));
    buf.collect_mimalloc_output_callback(None);
    buf.collect_mimalloc_output_callback(Some(b"  reserved: 1 GiB\n"));
    assert_eq!(buf.collect_mimalloc_output(), "heap stats\n  reserved: 1 GiB\n");
}

#[test]
fn buffer_truncates_at_capacity() {
    let mut buf = OutputBuffer::new();
    let chunk = vec![b'a'; 40 * 1024];
    buf.collect_mimalloc_output_callback(Some(&chunk));
    buf.collect_mimalloc_output_callback(Some(&chunk));
    buf.collect_mimalloc_output_callback(Some(b"dropped"));
    let text = buf.collect_mimalloc_output();
    let notice = "\n[truncated: mimalloc profile output exceeded internal buffer]\n";
    assert!(text.ends_with(notice));
    assert_eq!(text.len(), OUTPUT_BUFFER_CAPACITY + notice.len());
    assert!(text[..OUTPUT_BUFFER_CAPACITY].bytes().all(|b| b == b'a'));
}

#[test]
fn buffer_exactly_full_is_not_truncated() {
    let mut buf = OutputBuffer::new();
    let chunk = vec![b'z'; OUTPUT_BUFFER_CAPACITY];
    buf.collect_mimalloc_output_callback(Some(&chunk));
    let text = buf.collect_mimalloc_output();
    assert_eq!(text.len(), OUTPUT_BUFFER_CAPACITY);
    assert!(!text.contains("truncated"));
}

#[test]
fn unbounded_buffer_keeps_everything() {
    let mut buf = OutputBuffer::unbounded();
    let chunk = vec![b'b'; 100 * 1024];
    buf.collect_mimalloc_output_callback(Some(&chunk));
    buf.collect_mimalloc_output_callback(Some(b"\xF0\x9F\xA6\x80"));
    let text = buf.collect_mimalloc_output();
    assert_eq!(text.len(), 100 * 1024 + 4);
    assert!(text.ends_with('🦀'));
}

#[test]
fn well_formed_prefix_decodes_on_its_own() {
    let prefix = "ab€".as_bytes();
    let suffix: &[u8] = &[0xE2, 0x82, b'!', 0xC3];
    let mut joined = prefix.to_vec();
    joined.extend_from_slice(suffix);
    assert_eq!(
        to_string_lossy(&joined),
        format!("{}{}", to_string_lossy(prefix), to_string_lossy(suffix))
    );
    assert_eq!(to_string_lossy(&joined), "ab€\u{FFFD}!\u{FFFD}");
}

#[test]
fn text_is_never_longer_than_the_bytes() {
    let samples: [&[u8]; 5] = [b"", b"plain", &[0xFF, 0xFE, 0xFD], &[0xF0, 0x9F, 0xA6, 0x80], &[0xE0, 0x80, 0x80]];
    for bytes in samples {
        assert!(to_string_lossy(bytes).chars().count() <= bytes.len());
    }
}
