use libcdio_rs::mmc::get_config::{
    descriptors_are_walkable, features_from_configuration,
    parse_feature_descriptors, MmcFeature, MmcInterface, MmcLoadMech, MmcProfile, ProfileKind,
};
use libcdio_rs::mmc::MmcOperationError;

/// A feature descriptor: code, version byte (bit 0: current), then data.
fn descriptor(code: u16, flags: u8, data: &[u8]) -> Vec<u8> {
    let mut d = vec![(code >> 8) as u8, code as u8, flags, data.len() as u8];
    d.extend_from_slice(data);
    d
}

/// A `GET CONFIGURATION` response listing `descriptors`, in a buffer of
/// `size` bytes.
fn configuration(descriptors: &[Vec<u8>], size: usize) -> Vec<u8> {
    let list: Vec<u8> = descriptors.concat();
    let len = (list.len() + 4) as u32;
    let mut buf = len.to_be_bytes().to_vec();
    buf.extend_from_slice(&[0, 0, 0, 0x08]);
    buf.extend_from_slice(&list);
    buf.resize(size, 0);
    buf
}

#[test]
fn profile_kinds() {
    assert_eq!(ProfileKind::from_code(0x0008), Some(ProfileKind::CdRom));
    assert_eq!(ProfileKind::from_code(0x0007), None);
    assert_eq!(ProfileKind::CdRom.code(), 0x0008);
    assert_eq!(ProfileKind::CdRom.name(), "CD-ROM");
    assert_eq!(MmcInterface::from_code(2), Some(MmcInterface::Atapi));
    assert_eq!(MmcInterface::Usb.name(), "USB (both 1.1 and 2.0)");
    assert_eq!(MmcLoadMech::from_code(0b001), Some(MmcLoadMech::Tray));
    assert_eq!(MmcLoadMech::from_code(0b011), None);
    assert_eq!(MmcLoadMech::Tray.name(), "Tray type");
}

#[test]
fn single_features() {
    let profiles = descriptor(0x0000, 0x03, &[0x00, 0x08, 0x01, 0, 0x00, 0x10, 0x00, 0, 0xAB, 0xCD, 0x01, 0]);
    assert_eq!(
        MmcFeature::parse(&profiles),
        Some(MmcFeature::ProfileList {
            profiles: vec![
                MmcProfile { active: true, kind: ProfileKind::CdRom },
                MmcProfile { active: false, kind: ProfileKind::DvdRom },
            ]
        })
    );
    let core = descriptor(0x0001, 0x0B, &[0, 0, 0, 2, 1, 0, 0, 0]);
    assert_eq!(
        MmcFeature::parse(&core),
        Some(MmcFeature::Core { interface: MmcInterface::Atapi })
    );
    let morphing = descriptor(0x0002, 0x07, &[0x02, 0, 0, 0]);
    assert_eq!(
        MmcFeature::parse(&morphing),
        Some(MmcFeature::Morphing { async_events: false, op_chg_events: true })
    );
    let medium = descriptor(0x0003, 0x03, &[0x29, 0, 0, 0]);
    assert_eq!(
        MmcFeature::parse(&medium),
        Some(MmcFeature::RemovableMedium {
            eject: true,
            lock: true,
            prevent_jumper: true,
            load_mech: MmcLoadMech::Tray,
        })
    );
    let cd_read = descriptor(0x001e, 0x09, &[0x03, 0, 0, 0]);
    assert_eq!(
        MmcFeature::parse(&cd_read),
        Some(MmcFeature::CdRead { active: true, c2_error: true, cd_text: true, dap: false })
    );
    let audio = descriptor(0x0103, 0x01, &[0x05, 0, 0x01, 0x00]);
    assert_eq!(
        MmcFeature::parse(&audio),
        Some(MmcFeature::CdAudioExternalPlay {
            active: true,
            scan: true,
            sep_channel_mute: false,
            sep_volume: true,
            volume_levels: 256,
        })
    );
    let css = descriptor(0x0106, 0x00, &[0, 0, 0, 1]);
    assert_eq!(MmcFeature::parse(&css), Some(MmcFeature::DvdCss { active: false, version: 1 }));
    let serial = descriptor(0x0108, 0x01, b"SN1234  ");
    assert_eq!(
        MmcFeature::parse(&serial),
        Some(MmcFeature::DriveSerialNumber { sno: "SN1234  ".to_string() })
    );
}

#[test]
fn features_that_do_not_parse() {
    let unknown = descriptor(0x0107, 0x01, &[0, 0, 0, 0]);
    assert_eq!(MmcFeature::parse(&unknown), None);
    let bad_interface = descriptor(0x0001, 0x0B, &[0, 0, 0, 9, 1, 0, 0, 0]);
    assert_eq!(MmcFeature::parse(&bad_interface), None);
    let bad_mech = descriptor(0x0003, 0x03, &[0x60, 0, 0, 0]);
    assert_eq!(MmcFeature::parse(&bad_mech), None);
    let mut cut = descriptor(0x0002, 0x07, &[0x02, 0, 0, 0]);
    cut.pop();
    assert_eq!(MmcFeature::parse(&cut), None);
}

#[test]
fn descriptor_lists() {
    let list = [
        descriptor(0x0002, 0x07, &[0x03, 0, 0, 0]),
        descriptor(0x0107, 0x01, &[0, 0, 0, 0]),
        descriptor(0x0106, 0x01, &[0, 0, 0, 2]),
    ]
    .concat();
    assert!(descriptors_are_walkable(&list));
    assert_eq!(
        parse_feature_descriptors(&list),
        vec![
            MmcFeature::Morphing { async_events: true, op_chg_events: true },
            MmcFeature::DvdCss { active: true, version: 2 },
        ]
    );
    let mut overlong = descriptor(0x0002, 0x07, &[0x03, 0, 0, 0]);
    overlong[3] = 20;
    assert!(!descriptors_are_walkable(&overlong));
}

#[test]
fn configurations() {
    let buf = configuration(
        &[
            descriptor(0x0001, 0x0B, &[0, 0, 0, 1, 1, 0, 0, 0]),
            descriptor(0x001e, 0x09, &[0x01, 0, 0, 0]),
        ],
        4096,
    );
    assert_eq!(
        features_from_configuration(0, &buf),
        Ok(vec![
            MmcFeature::Core { interface: MmcInterface::Scsi },
            MmcFeature::CdRead { active: true, c2_error: true, cd_text: false, dap: false },
        ])
    );
    assert!(matches!(features_from_configuration(-1, &buf), Err(MmcOperationError { .. })));

    let mut too_long = configuration(&[], 64);
    too_long[0..4].copy_from_slice(&5000u32.to_be_bytes());
    assert!(matches!(features_from_configuration(0, &too_long), Err(MmcOperationError { .. })));
}

#[test]
fn malformed_configurations() {
    // no header
    assert!(matches!(features_from_configuration(0, &[0, 0]), Err(MmcOperationError { .. })));
    // announced length below the rest of the header
    let mut short = configuration(&[], 64);
    short[0..4].copy_from_slice(&2u32.to_be_bytes());
    assert!(matches!(features_from_configuration(0, &short), Err(MmcOperationError { .. })));
    // a descriptor that runs past the announced data
    let mut overrun = descriptor(0x0002, 0x07, &[0x03, 0, 0, 0]);
    overrun[3] = 20;
    let buf = configuration(&[overrun], 4096);
    assert!(matches!(features_from_configuration(0, &buf), Err(MmcOperationError { .. })));
    // a descriptor too short for its decoder
    let buf = configuration(&[descriptor(0x0001, 0x0B, &[0, 0])], 4096);
    assert!(matches!(features_from_configuration(0, &buf), Err(MmcOperationError { .. })));
    // an empty list is fine
    assert_eq!(features_from_configuration(0, &configuration(&[], 4096)), Ok(vec![]));
}
