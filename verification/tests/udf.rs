use libcdio_rs::datetime::{datetime_from_tm, TmError};
use libcdio_rs::udf::entry::{filename_from, id_from_le, modify_time_from, InvalidEntryReason};
use libcdio_rs::udf::{UdfGetEntryError, UdfInvalidEntryError, UdfOpenError};

#[test]
fn udf_open_error() {
    let err = UdfOpenError::new(b"tests/data/udf.iso".to_vec(), None);
    assert_eq!(err.reason(), None);
    assert_eq!(err.path(), b"tests/data/udf.iso".to_vec());
    let err = UdfOpenError::new(b"x".to_vec(), Some("nul byte".to_string()));
    assert_eq!(err.reason(), Some("nul byte"));
}

#[test]
fn entry_errors() {
    let err = UdfGetEntryError::new("/missing".to_string(), "no entry".to_string());
    assert_eq!(err.path(), "/missing");
    assert_eq!(err.reason(), "no entry");
    let err = UdfInvalidEntryError::new(
        Some("file".to_string()),
        InvalidEntryReason::MissingModificationTime,
    );
    assert_eq!(err.name(), Some("file"));
    assert_eq!(err.reason(), InvalidEntryReason::MissingModificationTime);
}

#[test]
fn filenames() {
    assert_eq!(filename_from(Some(b"")).unwrap(), ".");
    assert_eq!(filename_from(Some("FéжΘvrier".as_bytes())).unwrap(), "FéжΘvrier");
    let missing = filename_from(None).unwrap_err();
    assert_eq!(missing.name(), None);
    assert_eq!(missing.reason(), InvalidEntryReason::MissingFilename);
    let invalid = filename_from(Some(b"\xC3")).unwrap_err();
    assert_eq!(invalid.name(), None);
    assert_eq!(invalid.reason(), InvalidEntryReason::FilenameNotUtf8);
}

#[test]
fn modify_times() {
    let time = modify_time_from(1392859580, Some("/".to_string())).unwrap();
    assert_eq!(time.unix_timestamp(), 1392859580);
    assert_eq!((time.year(), time.month() as u8, time.day()), (2014, 2, 20));
    assert_eq!((time.hour(), time.minute(), time.second()), (1, 26, 20));
    let none = modify_time_from(-1, Some("f".to_string())).unwrap_err();
    assert_eq!(none.name(), Some("f"));
    assert_eq!(none.reason(), InvalidEntryReason::MissingModificationTime);
    let far = modify_time_from(i64::MAX, None).unwrap_err();
    assert_eq!(far.reason(), InvalidEntryReason::ModificationTimeOutOfRange);
    assert!(modify_time_from(253402300799, None).is_ok());
    assert!(modify_time_from(253402300800, None).is_err());
    assert!(modify_time_from(-377705116800, None).is_ok());
    assert!(modify_time_from(-377705116801, None).is_err());
}

#[test]
fn ids() {
    assert_eq!(id_from_le([0xE8, 0x03, 0, 0]), 1000);
    assert_eq!(id_from_le([0xFF, 0xFF, 0xFF, 0xFF]), 4294967295);
}

#[test]
fn broken_down_times() {
    assert_eq!(datetime_from_tm(105, -1, 0, 0, 0).unwrap_err(), TmError::FieldOutOfRange);
    assert_eq!(datetime_from_tm(105, 365, 0, 0, 0).unwrap_err(), TmError::InvalidDate);
    assert_eq!(datetime_from_tm(10000, 0, 0, 0, 0).unwrap_err(), TmError::InvalidDate);
    assert_eq!(datetime_from_tm(105, 63, 24, 0, 0).unwrap_err(), TmError::InvalidTime);
    assert_eq!(datetime_from_tm(105, 63, 300, 0, 0).unwrap_err(), TmError::FieldOutOfRange);
    match datetime_from_tm(105, 63, 20, 55, 51) {
        Ok(t) => {
            assert_eq!((t.year(), t.ordinal()), (2005, 64));
            assert_eq!((t.hour(), t.minute(), t.second()), (20, 55, 51));
        }
        Err(e) => assert_eq!(e, TmError::IndeterminateOffset),
    }
    match datetime_from_tm(104, 365, 0, 0, 0) {
        Ok(t) => assert_eq!((t.year(), t.ordinal()), (2004, 366)),
        Err(e) => assert_eq!(e, TmError::IndeterminateOffset),
    }
}
