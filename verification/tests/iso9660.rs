use libcdio_rs::iso9660::entry::translated_filename;
use libcdio_rs::iso9660::rock::{
    have_rock_ridge_from, search_file_limit, symlink_target, RockRidgeAttributes,
    RockRidgeSearchError,
};
use libcdio_rs::iso9660::xa::{CdRomXa, XaFileAttributes};
use libcdio_rs::iso9660::{joliet_level_from, IsoGetEntryError, IsoOpenError, JolietLevel};

#[test]
fn iso_open_error() {
    let err = IsoOpenError::new(b"../test-data/missing.iso".to_vec(), "not found".to_string());
    assert_eq!(err.path(), b"../test-data/missing.iso");
    assert_eq!(err.reason(), "not found");
}

#[test]
fn get_entry_error() {
    let err = IsoGetEntryError::new("/copy".to_string(), "no entry".to_string());
    assert_eq!(err.path(), "/copy");
    assert_eq!(err.reason(), "no entry");
}

#[test]
fn joliet_levels() {
    assert_eq!(joliet_level_from(0), None);
    assert_eq!(joliet_level_from(1), Some(JolietLevel::One));
    assert_eq!(joliet_level_from(3), Some(JolietLevel::Three));
    assert_eq!(JolietLevel::Two.code(), 2);
    assert_eq!(JolietLevel::from_code(4), None);
}

#[test]
fn rock_ridge_search() {
    assert_eq!(search_file_limit(None), u64::MAX);
    assert_eq!(search_file_limit(Some(20)), 20);
    assert_eq!(have_rock_ridge_from(1), Ok(true));
    assert_eq!(have_rock_ridge_from(0), Ok(false));
    assert!(matches!(have_rock_ridge_from(2), Err(RockRidgeSearchError { .. })));
}

#[test]
fn symlink_to() {
    assert_eq!(symlink_target(None), None);
    assert_eq!(symlink_target(Some(b"")), None);
    assert_eq!(symlink_target(Some(b"\xFF\xFE")), None);
    assert_eq!(symlink_target(Some(b"COPYING")), Some("COPYING".to_string()));
    assert_eq!(
        symlink_target(Some(b"../copying/COPYING")),
        Some("../copying/COPYING".to_string())
    );
}

#[test]
fn rock_ridge_attributes() {
    let rock = RockRidgeAttributes::from_record(1, None, 0, 1, 0o100444, None, Some(b""), 0)
        .unwrap();
    assert_eq!(rock.hard_links, 1);
    assert_eq!(rock.user_id, 0);
    assert_eq!(rock.group_id, 0);
    assert_eq!(rock.mode.bits(), 0o100444);
    assert!(rock.symlink_to.is_none());
    assert!(RockRidgeAttributes::from_record(0, None, 0, 1, 0, None, None, 0).is_none());
    assert!(RockRidgeAttributes::from_record(2, None, 0, 1, 0, None, None, 0).is_none());
    let link =
        RockRidgeAttributes::from_record(1, None, 0, 1, 0o120555, None, Some(b"COPYING"), 0)
            .unwrap();
    assert_eq!(link.symlink_to.as_deref(), Some("COPYING"));
}

#[test]
fn rock_ridge_modes() {
    let mode = |m: u32| {
        RockRidgeAttributes::from_record(1, None, 0, 1, m, None, None, 0)
            .unwrap()
            .mode
            .to_string()
    };
    assert_eq!(mode(0o020444), "cr--r--r--");
    assert_eq!(mode(0o060444), "br--r--r--");
    assert_eq!(mode(0o120555), "lr-xr-xr-x");
    assert_eq!(mode(0o040555), "dr-xr-xr-x");
}

#[test]
fn xa_attributes() {
    let xa = CdRomXa::from_record([0x0D, 0x55], 0, [0x0B, 0xB8], [0x03, 0xE8], 35149);
    assert_eq!(xa.file_num, 0);
    assert_eq!(xa.group_id, 3000);
    assert_eq!(xa.user_id, 1000);
    assert!(xa.file_attr.contains(XaFileAttributes::mode2()));
    assert!(xa.file_attr.contains(XaFileAttributes::group_read()));
    let expected = XaFileAttributes::group_read()
        .intersection(XaFileAttributes::group_execute())
        .intersection(XaFileAttributes::mode2());
    assert!(xa.file_attr.contains(expected));
    assert!(expected.is_empty());
    assert!(xa.mode2form2_size_fits());
    assert_eq!(xa.mode2form2_size(), None);
}

#[test]
fn mode2form2_sizes() {
    let form2 = XaFileAttributes::mode2_form2().union(XaFileAttributes::mode2());
    let xa = CdRomXa::from_record(form2.bits().to_be_bytes(), 1, [0, 0], [0, 0], 4097);
    assert!(xa.mode2form2_size_fits());
    assert_eq!(xa.mode2form2_size(), Some(3 * 2324));
    let exact = CdRomXa::from_record(form2.bits().to_be_bytes(), 1, [0, 0], [0, 0], 4096);
    assert_eq!(exact.mode2form2_size(), Some(2 * 2324));
    let empty = CdRomXa::from_record(form2.bits().to_be_bytes(), 1, [0, 0], [0, 0], 0);
    assert_eq!(empty.mode2form2_size(), Some(0));
    let huge = CdRomXa::from_record(form2.bits().to_be_bytes(), 1, [0, 0], [0, 0], u64::MAX);
    assert!(!huge.mode2form2_size_fits());
}

#[test]
fn translated_names() {
    assert_eq!(translated_filename(b"copy\0\0\0\0", 4), Some("copy".to_string()));
    assert_eq!(translated_filename(b"readme.txt", 20), Some("readme.txt".to_string()));
    assert_eq!(translated_filename(b"\xFF\xFEab", 2), None);
    assert_eq!(translated_filename(b"ab\xFF", 2), Some("ab".to_string()));
    assert_eq!(translated_filename(b"abc", -1), Some("abc".to_string()));
}
