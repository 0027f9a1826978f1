use libcdio_rs::drive::{capabilities_from, HardwareIdentifiers};
use libcdio_rs::iso9660::rock::{have_rock_ridge_from, RockRidgeAttributes};
use libcdio_rs::iso9660::xa::{CdRomXa, XaFileAttributes};
use libcdio_rs::iso9660::JolietLevel;
use libcdio_rs::mmc::get_config::{
    MmcFeature, MmcInterface, MmcLoadMech, MmcProfile, ProfileKind,
};
use libcdio_rs::mode::FileMode;
use libcdio_rs::report::drive::{capabilities_report, device_info_report};
use libcdio_rs::report::features::{feature_report, features_report};
use libcdio_rs::report::iso::{
    identifier_text, joliet_level_text, listing_columns_text, listing_tail_text, listing_time,
    rock_ridge_status_text, xa_file_mode_str,
};
use libcdio_rs::report::text::{
    decimal_text, marked_line_text, pad_left_text, padded_decimal_text,
    padded_signed_decimal_text, signed_decimal_text, to_char, to_char1, two_digit_text, L2,
};
use libcdio_rs::report::udf::udf_columns_text;

#[test]
fn marks_and_numbers() {
    assert_eq!(to_char(true), "[*]");
    assert_eq!(to_char(false), "[ ]");
    assert_eq!(to_char1(true), "+");
    assert_eq!(to_char1(false), "-");
    assert_eq!(decimal_text(0), "0");
    assert_eq!(decimal_text(17992), "17992");
    assert_eq!(decimal_text(u64::MAX), "18446744073709551615");
    assert_eq!(signed_decimal_text(-42), "-42");
    assert_eq!(signed_decimal_text(i64::MIN), "-9223372036854775808");
    assert_eq!(padded_decimal_text(4, 3), "  4");
    assert_eq!(padded_decimal_text(12345, 3), "12345");
    assert_eq!(padded_signed_decimal_text(-5, 6), "    -5");
    assert_eq!(two_digit_text(0), "00");
    assert_eq!(two_digit_text(7), "07");
    assert_eq!(two_digit_text(123), "123");
    assert_eq!(pad_left_text("é", 3), "  é");
    assert_eq!(marked_line_text(L2, "[*]", "Core:"), "      [*] Core:");
}

#[test]
fn feature_lines() {
    assert_eq!(
        feature_report(&MmcFeature::ProfileList {
            profiles: vec![
                MmcProfile { active: true, kind: ProfileKind::CdRom },
                MmcProfile { active: false, kind: ProfileKind::CdR },
            ]
        }),
        vec![
            "      [*] Profile List: ".to_string(),
            "         [*] CD-ROM".to_string(),
            "         [ ] CD-R".to_string(),
        ]
    );
    assert_eq!(
        feature_report(&MmcFeature::Core { interface: MmcInterface::Atapi }),
        vec!["      [*] Core:", "         + Interface: ATAPI"]
    );
    assert_eq!(
        feature_report(&MmcFeature::RemovableMedium {
            eject: true,
            lock: false,
            prevent_jumper: true,
            load_mech: MmcLoadMech::Tray,
        }),
        vec![
            "      [*] Removable Medium:",
            "         + Eject",
            "         - Lock",
            "         + Prevent Jumper",
            "         + Loading Mechanism: Tray type",
        ]
    );
    assert_eq!(
        feature_report(&MmcFeature::CdAudioExternalPlay {
            active: false,
            scan: true,
            sep_channel_mute: true,
            sep_volume: false,
            volume_levels: 256,
        }),
        vec![
            "      [ ] CD Audio External Play:",
            "         + SCAN",
            "         + Separate Channel Mute",
            "         - Separate Volume",
            "         + Volume Levels: 256",
        ]
    );
    assert_eq!(
        feature_report(&MmcFeature::DriveSerialNumber { sno: "SN1".to_string() }),
        vec!["      [*] Drive Serial Number:", "         + S/N: SN1"]
    );
    assert_eq!(feature_report(&MmcFeature::Smart), vec!["      (?) SMART:"]);
    assert_eq!(
        feature_report(&MmcFeature::DvdCss { active: true, version: 1 }),
        vec!["      [*] DVD-CSS:"]
    );
}

#[test]
fn features_heading() {
    let lines = features_report(&[
        MmcFeature::Morphing { async_events: true, op_chg_events: false },
        MmcFeature::MultiRead,
    ]);
    assert_eq!(
        lines,
        vec![
            "   Supported features:",
            "      [*] Morphing:",
            "         + Asynchronous events",
            "         - Operational change events",
            "      (?) Multi-Read:",
        ]
    );
    assert_eq!(features_report(&[]), vec!["   Supported features:"]);
}

#[test]
fn drive_reports() {
    let ids = HardwareIdentifiers {
        model: "DRU-830A".to_string(),
        vendor: "SONY".to_string(),
        revision: "1.0a".to_string(),
    };
    assert_eq!(
        device_info_report(&ids),
        vec!["   Vendor   : SONY", "   Model    : DRU-830A", "   Revision : 1.0a"]
    );
    let caps = capabilities_from(0x0002 | 0x4000, 0x0001, 0x0002).unwrap();
    assert_eq!(
        capabilities_report(&caps),
        vec![
            "   Hardware:",
            "      + Eject",
            "   Read:",
            "      + CD-DA",
            "      + MCN",
            "   Write:",
            "      + CD-R",
        ]
    );
}

#[test]
fn xa_modes() {
    let dir = XaFileAttributes::from_bits_retain(0x8D55);
    assert_eq!(xa_file_mode_str(dir), "d---1xrxrxr");
    let file = XaFileAttributes::from_bits_retain(0x0850);
    assert_eq!(xa_file_mode_str(file), "----1--xr--");
    assert_eq!(xa_file_mode_str(XaFileAttributes::empty()), "-----------");
}

fn rock(mode: u32, links: u32, symlink: Option<&[u8]>) -> RockRidgeAttributes {
    RockRidgeAttributes::from_record(1, None, 0, links, mode, None, symlink, 0).unwrap()
}

#[test]
fn rock_listing() {
    let dir = rock(0o040555, 4, None);
    assert_eq!(
        listing_columns_text(Some(&dir), None, true, true, 23, 2048),
        "  dr-xr-xr-x   4 0 0 [LSN     23]      2048"
    );
    let link = rock(0o120555, 1, Some(b"COPYING"));
    assert_eq!(
        listing_columns_text(Some(&link), None, true, false, 27, 17992),
        "  lr-xr-xr-x   1 0 0 [LSN     27]         7"
    );
    assert_eq!(listing_tail_text("Copy2", Some(&link)), " Copy2 -> COPYING");
    assert_eq!(listing_tail_text("COPYING", Some(&dir)), " COPYING");
    let device = rock(0o020444, 1, None);
    assert_eq!(
        listing_columns_text(Some(&device), None, true, false, 36, 0),
        "  cr--r--r--   1 0 0 [LSN     36]         0"
    );
}

#[test]
fn xa_listing() {
    let xa = CdRomXa::from_record([0x8D, 0x55], 0, [0x0B, 0xB8], [0x03, 0xE8], 2048);
    assert_eq!(
        listing_columns_text(None, Some(&xa), true, true, 23, 2048),
        "  d---1xrxrxr 1000 3000 [fn 00] [LSN     23]      2048"
    );
    assert_eq!(
        listing_columns_text(None, Some(&xa), false, true, 23, 2048),
        "  d [LSN     23]      2048"
    );
    let form2 = CdRomXa::from_record([0x18, 0x00], 3, [0, 0], [0, 0], 4096);
    assert_eq!(
        listing_columns_text(None, Some(&form2), true, false, 40, 4096),
        "  ---21------ 0 0 [fn 03] [LSN     40]      4648 (     4096)"
    );
}

#[test]
fn plain_listing() {
    assert_eq!(
        listing_columns_text(None, None, true, false, 34, 17992),
        "  - [LSN     34]     17992"
    );
    assert_eq!(
        listing_columns_text(None, None, true, true, 31, 2048),
        "  d [LSN     31]      2048"
    );
    assert_eq!(listing_tail_text("README", None), " README");
}

#[test]
fn listing_times() {
    let modified = time::OffsetDateTime::from_unix_timestamp(1_110_000_000).unwrap();
    let recorded = time::OffsetDateTime::from_unix_timestamp(1_000_000_000).unwrap();
    let with_time =
        RockRidgeAttributes::from_record(1, None, 0, 1, 0o100444, Some(modified), None, 0)
            .unwrap();
    let without = rock(0o100444, 1, None);
    assert_eq!(listing_time(Some(&with_time), Some(recorded)), Some(modified));
    assert_eq!(listing_time(Some(&without), Some(recorded)), Some(recorded));
    assert_eq!(listing_time(None, Some(recorded)), Some(recorded));
    assert_eq!(listing_time(None, None), None);
}

#[test]
fn status_lines() {
    assert_eq!(rock_ridge_status_text(Ok(true)), "Rock Ridge  : yes");
    assert_eq!(rock_ridge_status_text(Ok(false)), "Rock Ridge  : no");
    assert_eq!(
        rock_ridge_status_text(have_rock_ridge_from(2)),
        "Rock Ridge  : possibly not"
    );
    assert_eq!(joliet_level_text(Some(JolietLevel::Three)), "Joliet Level: 3");
    assert_eq!(joliet_level_text(None), "No Joliet extensions");
    assert_eq!(
        identifier_text("Publisher  ", Some("Rocky Bernstein")),
        Some("Publisher   : Rocky Bernstein".to_string())
    );
    assert_eq!(identifier_text("Volume Set ", None), None);
}

#[test]
fn udf_listing() {
    assert_eq!(
        udf_columns_text(FileMode::new(0o040555), u32::MAX, u32::MAX, 1, 100),
        "  dr-xr-xr-x 4294967295 4294967295   1       100"
    );
    assert_eq!(
        udf_columns_text(FileMode::new(0o100555), u32::MAX, u32::MAX, 1, 10),
        "  -r-xr-xr-x 4294967295 4294967295   1        10"
    );
}
