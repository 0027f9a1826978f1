use libcdio_rs::drive::drive_open_result;
use libcdio_rs::iso9660::entry::iso_entry_result;
use libcdio_rs::iso9660::iso_open_result;
use libcdio_rs::open::{null_reason_text, OpenAttempt};
use libcdio_rs::udf::entry::{entry_modify_time, udf_entry_result, udf_root_result};
use libcdio_rs::udf::{udf_open_result, InvalidEntryReason};

#[test]
fn null_reasons() {
    assert_eq!(null_reason_text("udf_fopen"), "udf_fopen() returned NULL");
}

#[test]
fn image_open_errors_keep_the_path() {
    let refused = iso_open_result::<u8>(b"a\0b".to_vec(), "iso9660_open_ext", OpenAttempt::Refused("nul byte".to_string()))
        .unwrap_err();
    assert_eq!(refused.path(), b"a\0b");
    assert_eq!(refused.reason(), "nul byte");
    let failed = iso_open_result::<u8>(b"/img.iso".to_vec(), "iso9660_open_ext", OpenAttempt::Failed).unwrap_err();
    assert_eq!(failed.path(), b"/img.iso");
    assert_eq!(failed.reason(), "iso9660_open_ext() returned NULL");
    assert_eq!(iso_open_result(b"/img.iso".to_vec(), "iso9660_open_ext", OpenAttempt::Opened(7u8)), Ok(7));

    let drive = drive_open_result::<u8>(b"/dev/sr0".to_vec(), "cdio_open_am", OpenAttempt::Failed).unwrap_err();
    assert_eq!(drive.path(), b"/dev/sr0");
    assert_eq!(drive.reason(), "cdio_open_am() returned NULL");

    let udf = udf_open_result::<u8>(b"/u.img".to_vec(), OpenAttempt::Failed).unwrap_err();
    assert_eq!(udf.reason(), None);
    assert_eq!(udf.path(), b"/u.img".to_vec());
    let udf = udf_open_result::<u8>(b"x\0".to_vec(), OpenAttempt::Refused("nul".to_string())).unwrap_err();
    assert_eq!(udf.reason(), Some("nul"));
}

#[test]
fn entry_errors_keep_the_path() {
    let e = iso_entry_result::<u8>("/a\0b".to_string(), "iso9660_ifs_stat", OpenAttempt::Refused("nul".to_string()))
        .unwrap_err();
    assert_eq!(e.path(), "/a\0b");
    let e = iso_entry_result::<u8>("/DIR".to_string(), "iso9660_ifs_readdir", OpenAttempt::Failed).unwrap_err();
    assert_eq!((e.path(), e.reason()), ("/DIR", "iso9660_ifs_readdir() returned NULL"));

    let e = udf_entry_result::<u8>("/f".to_string(), "udf_fopen", OpenAttempt::Failed).unwrap_err();
    assert_eq!((e.path(), e.reason()), ("/f", "udf_fopen() returned NULL"));
    let e = udf_root_result::<u8>(None).unwrap_err();
    assert_eq!((e.path(), e.reason()), ("/", "udf_get_root() returned NULL"));
    assert_eq!(udf_root_result(Some(3u8)), Ok(3));
}

#[test]
fn modify_time_errors_name_the_entry() {
    let e = entry_modify_time(-1, Some(b"song.wav")).unwrap_err();
    assert_eq!(e.name(), Some("song.wav"));
    assert_eq!(e.reason(), InvalidEntryReason::MissingModificationTime);
    let e = entry_modify_time(-1, None).unwrap_err();
    assert_eq!(e.name(), None);
    let e = entry_modify_time(i64::MAX, Some(&[0xFF])).unwrap_err();
    assert_eq!(e.name(), None);
    assert_eq!(e.reason(), InvalidEntryReason::ModificationTimeOutOfRange);
    assert_eq!(entry_modify_time(0, None).unwrap().unix_timestamp(), 0);
}
