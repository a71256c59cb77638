use kernel::sbi::{echo_step, getchar_decode, Eid, StdOut};
use kernel::{panic_message, stdout};

#[test]
fn service_identifiers() {
    assert_eq!(Eid::CONSOLE_PUTCHAR, 1);
    assert_eq!(Eid::CONSOLE_GETCHAR, 2);
    assert_eq!(Eid::SHUTDOWN, 8);
}

#[test]
fn getchar_decode_byte_values() {
    assert_eq!(getchar_decode(0), Some(0));
    assert_eq!(getchar_decode(65), Some(65));
    assert_eq!(getchar_decode(255), Some(255));
}

#[test]
fn getchar_decode_256_means_no_byte_available() {
    // The boundary word 256 is "no input", not byte 0.
    assert_eq!(getchar_decode(256), None);
    assert_eq!(getchar_decode(usize::MAX), None);
}

#[test]
fn echo_step_forwards_printable_bytes_only() {
    assert_eq!(echo_step(Some(65)), Some(65));
    assert_eq!(echo_step(Some(1)), Some(1));
    assert_eq!(echo_step(Some(0)), None);
    assert_eq!(echo_step(None), None);
}

#[test]
fn stdout_starts_empty_and_accumulates_raw_bytes() {
    let mut out = stdout();
    assert!(out.bytes().is_empty());
    out.write_str("Hello");
    out.write_str(", world!\n");
    assert_eq!(out.bytes().as_slice(), b"Hello, world!\n");
    out.clear();
    assert!(out.bytes().is_empty());
}

#[test]
fn write_str_keeps_utf8_bytes_verbatim() {
    let mut out = StdOut::new();
    out.write_str("gr\u{00FC}n\n");
    assert_eq!(out.bytes().as_slice(), "gr\u{00FC}n\n".as_bytes());
    out.write_byte(0x07);
    assert_eq!(out.bytes().last(), Some(&0x07));
}

#[test]
fn panic_report_is_banner_then_payload_verbatim() {
    let payload = "panicked at src/x.rs:1:1:\nfirst line\nsecond line";
    let report = panic_message(payload);
    let bytes = report.bytes();
    let mut expected: Vec<u8> = b"\n\x1b[m#### KERNEL PANIC ####\n".to_vec();
    expected.extend_from_slice(payload.as_bytes());
    assert_eq!(bytes.as_slice(), expected.as_slice());

    // The reset-escape-and-banner prefix appears exactly once.
    let banner = b"#### KERNEL PANIC ####";
    let count = bytes
        .windows(banner.len())
        .filter(|w| *w == banner.as_slice())
        .count();
    assert_eq!(count, 1);
}
