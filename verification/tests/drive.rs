use libcdio_rs::drive::{
    capabilities_from, hardware_identifiers_from, DriveOpenError, DriveOperationError,
    MiscCapabilities, ReadCapabilities, WriteCapabilities,
};

#[test]
fn drive_open_error() {
    let err = DriveOpenError::new(b"/dev/sr0".to_vec(), "no such device".to_string());
    assert_eq!(err.path(), b"/dev/sr0");
    assert_eq!(err.reason(), "no such device");
}

#[test]
fn hardware_identifiers() {
    let ids = hardware_identifiers_from(
        true,
        b"DVD-RW DRU-830A \0garbage",
        b"SONY    \0",
        b"1.0a\0",
    )
    .unwrap();
    assert_eq!(ids.model, "DVD-RW DRU-830A");
    assert_eq!(ids.vendor, "SONY");
    assert_eq!(ids.revision, "1.0a");
    assert!(matches!(
        hardware_identifiers_from(false, b"x\0", b"y\0", b"z\0"),
        Err(DriveOperationError { .. })
    ));
    let lossy = hardware_identifiers_from(true, b"A\xFFB\0", b"\0", b"").unwrap();
    assert_eq!(lossy.model, "A\u{FFFD}B");
    assert_eq!(lossy.vendor, "");
    assert_eq!(lossy.revision, "");
}

#[test]
fn capability_sets() {
    let caps = capabilities_from(0x0003, 0x0001, 0x0003).unwrap();
    assert!(caps.read.contains(ReadCapabilities::audio()));
    assert!(caps.read.contains(ReadCapabilities::cd_da()));
    assert!(!caps.read.contains(ReadCapabilities::cd_r()));
    assert!(caps.write.contains(WriteCapabilities::cd_r()));
    assert!(caps.misc.contains(MiscCapabilities::eject()));
    assert!(matches!(capabilities_from(0x1_0000, 0, 0), Err(DriveOperationError { .. })));
    assert!(matches!(capabilities_from(0, 0x200, 0), Err(DriveOperationError { .. })));
    assert!(matches!(capabilities_from(0, 0, 0x40), Err(DriveOperationError { .. })));
}

#[test]
fn capability_flags() {
    let read = ReadCapabilities::from_bits(0x4000 | 0x8000 | 0x2).unwrap();
    let names: Vec<&str> = read.iter_flags().iter().map(|f| f.name()).collect();
    assert_eq!(names, vec!["CD-DA", "MCN", "ISRC"]);
    assert_eq!(ReadCapabilities::from_bits_truncate(0xFFFF_FFFF).bits(), 0xFFFF);
    assert_eq!(MiscCapabilities::from_bits(0x40), None);
    assert_eq!(MiscCapabilities::from_bits_truncate(0x1FF).bits(), 0x1BF);
    assert!(WriteCapabilities::from_bits(0).unwrap().is_empty());
    assert_eq!(MiscCapabilities::from_bits(0x3).unwrap().name(), "Unknown");
    assert_eq!(WriteCapabilities::cd_r().name(), "CD-R");
}
