use libcdio_rs::bytes::{read_u16, read_u32, u16_to_be, u32_to_be};
use libcdio_rs::logging::{log_record, log_severity, LogSeverity};
use libcdio_rs::mode::FileMode;
use libcdio_rs::text::{c_field_text, c_string_text, decode_utf8_text, padded_field_text};

#[test]
fn big_endian() {
    assert_eq!(read_u16(&[0x12, 0x34, 0xFF]), 0x1234);
    assert_eq!(read_u32(&[0x12, 0x34, 0x56, 0x78]), 0x1234_5678);
    assert_eq!(u16_to_be(0xABCD), [0xAB, 0xCD]);
    assert_eq!(u32_to_be(0x0102_0304), [1, 2, 3, 4]);
    assert_eq!(read_u32(&u32_to_be(0xDEAD_BEEF)), 0xDEAD_BEEF);
}

#[test]
fn text_fields() {
    assert_eq!(decode_utf8_text(b"abc"), Some("abc".to_string()));
    assert_eq!(decode_utf8_text(b"a\xFF"), None);
    assert_eq!(padded_field_text(b"  SONY    "), "SONY");
    assert_eq!(padded_field_text(b"A\xFF "), "A\u{FFFD}");
    assert_eq!(c_field_text(b"CD-ROM  \0junk"), "CD-ROM");
    assert_eq!(c_field_text(b"no nul"), "no nul");
    assert_eq!(c_string_text(None), None);
    assert_eq!(c_string_text(Some(b"ok")), Some("ok".to_string()));
    assert_eq!(c_string_text(Some(b"\xC0")), None);
}

#[test]
fn log_levels() {
    assert_eq!(log_severity(5), LogSeverity::Error);
    assert_eq!(log_severity(4), LogSeverity::Error);
    assert_eq!(log_severity(3), LogSeverity::Warn);
    assert_eq!(log_severity(2), LogSeverity::Info);
    assert_eq!(log_severity(1), LogSeverity::Debug);
    assert_eq!(log_severity(0), LogSeverity::Debug);
    assert_eq!(
        log_record(3, Some(b"warn msg")),
        Some((LogSeverity::Warn, "warn msg".to_string()))
    );
    assert_eq!(log_record(3, None), None);
    assert_eq!(log_record(1, Some(b"\xFF")), None);
}

#[test]
fn file_modes() {
    assert_eq!(FileMode::new(0o100555).to_string(), "-r-xr-xr-x");
    assert_eq!(FileMode::new(0o040555).to_string(), "dr-xr-xr-x");
    assert_eq!(FileMode::new(0o100444).to_string(), "-r--r--r--");
    assert_eq!(FileMode::new(0o010644).to_string(), "prw-r--r--");
    assert_eq!(FileMode::new(0o755).to_string().chars().next(), Some('?'));
    assert_eq!(FileMode::new(0o100444).bits(), 0o100444);
    assert_eq!(FileMode::new(0o104755).to_string(), "-rwsr-xr-x");
    assert_eq!(FileMode::new(0o041777).to_string(), "drwxrwxrwt");
    assert_eq!(FileMode::new(0o041776).to_string(), "drwxrwxrwT");
    assert_eq!(FileMode::new(0o102640).to_string(), "-rw-r-S---");
    assert_eq!(FileMode::new(0o2610).to_string(), "?rw---s---");
    assert_eq!(FileMode::new(0o120777).to_string(), "lrwxrwxrwx");
    assert_eq!(FileMode::new(0o140000).to_string(), "s---------");
}
