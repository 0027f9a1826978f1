use libcdio_rs::mmc::read_subchannel::{
    audio_status_from, cd_current_position_from, isrc_from, isrc_is_readable,
    mcn_is_readable, media_catalog_number_from, read_subchannel_cdb, AddressFormat,
    InvalidTrackNumber, MmcAudioStatus, MmcAudioStatusError, MmcSubchannelError,
    SubchannelParameter, TrackNumber,
};
use libcdio_rs::mmc::read_toc::{
    cd_text_from, cd_type_from, last_sector_from, parse_header, read_toc_cdb,
    toc_required_size, CdType, MmcTocError, ResponseFormat,
};

/// A table of contents response: the header announcing `descriptors`,
/// then them.
fn toc_response(first: u8, last: u8, descriptors: &[u8]) -> Vec<u8> {
    let len = descriptors.len() as u16;
    let mut data = vec![(len >> 8) as u8, len as u8, first, last];
    data.extend_from_slice(descriptors);
    data
}

#[test]
fn toc_blocks() {
    assert_eq!(
        read_toc_cdb(
            ResponseFormat::Toc { address_format: AddressFormat::Time, track_number: 0xAA },
            64
        ),
        [0x43, 0x02, 0x00, 0, 0, 0, 0xAA, 0x00, 0x40, 0, 0, 0]
    );
    assert_eq!(
        read_toc_cdb(ResponseFormat::FullToc { session_number: 1 }, 0x1234),
        [0x43, 0x00, 0x02, 0, 0, 0, 0x01, 0x12, 0x34, 0, 0, 0]
    );
    assert_eq!(
        read_toc_cdb(ResponseFormat::Cdtext, 0x10004),
        [0x43, 0x00, 0x05, 0, 0, 0, 0, 0x00, 0x04, 0, 0, 0]
    );
}

#[test]
fn toc_sizes() {
    let mut buf = vec![0u8; 64];
    buf[0] = 0;
    buf[1] = 100;
    assert_eq!(toc_required_size(&buf), Some(104));
    buf[1] = 60;
    assert_eq!(toc_required_size(&buf), None);
}

#[test]
fn toc_header() {
    assert_eq!(parse_header(&toc_response(7, 9, &[0xAA, 0xBB])).unwrap(), (7, 9));
    assert!(matches!(parse_header(&[0, 5, 1, 1]), Err(MmcTocError::InvalidResponse(_))));
    assert!(matches!(parse_header(&[0, 0, 1]), Err(MmcTocError::InvalidResponse(_))));
}

#[test]
fn cd_text() {
    let mut data = toc_response(0, 0, &[1, 2, 3, 4, 5]);
    data.extend_from_slice(&[0, 0, 0]);
    assert_eq!(cd_text_from(&data).unwrap(), vec![1, 2, 3, 4, 5]);
}

#[test]
fn cd_types() {
    let descriptor = [1, 0x14, 0, 0xA0, 1, 0, 0, 0, 1, 0x20, 0];
    assert_eq!(cd_type_from(&toc_response(1, 1, &descriptor)).unwrap(), CdType::CdromXa);
    let cdi = [1, 0x14, 0, 0xA0, 1, 0, 0, 0, 1, 0x10, 0];
    assert_eq!(cd_type_from(&toc_response(1, 1, &cdi)).unwrap(), CdType::Cdi);
    let unknown = [1, 0x14, 0, 0xA0, 1, 0, 0, 0, 1, 0x30, 0];
    assert!(matches!(
        cd_type_from(&toc_response(1, 1, &unknown)),
        Err(MmcTocError::InvalidResponse(_))
    ));
    let wrong_point = [1, 0x14, 0, 0xA1, 1, 0, 0, 0, 1, 0x20, 0];
    assert!(cd_type_from(&toc_response(1, 1, &wrong_point)).is_err());
    assert_eq!(CdType::from_code(0x00), Some(CdType::CddaOrCdData));
    assert_eq!(CdType::CdromXa.code(), 0x20);
}

#[test]
fn last_sectors() {
    let leadout = [0, 0x14, 0xAA, 0, 0x00, 0x00, 0x12, 0x34];
    assert_eq!(last_sector_from(&toc_response(1, 1, &leadout)).unwrap(), 0x1233);
    let start = [0, 0x14, 0xAA, 0, 0, 0, 0, 0];
    assert_eq!(last_sector_from(&toc_response(1, 1, &start)).unwrap(), 0);
    let track = [0, 0x14, 0x01, 0, 0, 0, 0x10, 0];
    assert!(last_sector_from(&toc_response(1, 1, &track)).is_err());
}

/// A sub-channel response: audio status, then the data block.
fn subchannel_response(audio_status: u8, block: &[u8]) -> Vec<u8> {
    let len = block.len() as u16;
    let mut data = vec![0, audio_status, (len >> 8) as u8, len as u8];
    data.extend_from_slice(block);
    data
}

#[test]
fn subchannel_block() {
    assert_eq!(
        read_subchannel_cdb(AddressFormat::Time, SubchannelParameter::CdCurrentPosition, 24),
        [0x42, 0x02, 0x40, 0x01, 0, 0, 0, 0, 24, 0, 0, 0]
    );
    assert_eq!(
        read_subchannel_cdb(
            AddressFormat::Lba,
            SubchannelParameter::Isrc { track_number: 5 },
            0x0102
        ),
        [0x42, 0x00, 0x40, 0x03, 0, 0, 5, 0x01, 0x02, 0, 0, 0]
    );
}

#[test]
fn audio_statuses() {
    assert_eq!(
        audio_status_from(&subchannel_response(0x11, &[1, 0, 0, 0])).unwrap(),
        MmcAudioStatus::PlayInProgress
    );
    assert_eq!(
        audio_status_from(&subchannel_response(0x15, &[])).unwrap(),
        MmcAudioStatus::NoStatus
    );
    assert_eq!(
        audio_status_from(&subchannel_response(0, &[])),
        Err(MmcAudioStatusError::NotSupported)
    );
    assert!(matches!(
        audio_status_from(&subchannel_response(0x42, &[])),
        Err(MmcAudioStatusError::InvalidResponse(_))
    ));
    assert!(matches!(
        audio_status_from(&[0, 0x11, 0, 8]),
        Err(MmcAudioStatusError::InvalidResponse(_))
    ));
    assert_eq!(MmcAudioStatus::from_code(0x13), Some(MmcAudioStatus::PlayCompleted));
    assert_eq!(MmcAudioStatus::PlayStopped.code(), 0x14);
}

#[test]
fn media_catalog_numbers() {
    let mut block = vec![0u8; 20];
    block[0] = 2;
    block[4] = 0x80;
    block[5..18].copy_from_slice(b"0123456789012");
    let data = subchannel_response(0x15, &block);
    assert!(mcn_is_readable(&data));
    assert_eq!(
        media_catalog_number_from(&data).unwrap(),
        Some("0123456789012".to_string())
    );

    block[4] = 0;
    let data = subchannel_response(0x15, &block);
    assert_eq!(media_catalog_number_from(&data).unwrap(), None);

    block[0] = 1;
    let data = subchannel_response(0x15, &block);
    assert!(matches!(
        media_catalog_number_from(&data),
        Err(MmcSubchannelError::InvalidResponse(_))
    ));

    let mut bad = vec![0u8; 20];
    bad[0] = 2;
    bad[4] = 0x80;
    bad[5] = 0xFF;
    assert!(!mcn_is_readable(&subchannel_response(0x15, &bad)));
}

#[test]
fn track_numbers() {
    assert_eq!(TrackNumber::try_from(1).unwrap().get(), 1);
    assert_eq!(TrackNumber::try_from(99).unwrap().get(), 99);
    assert_eq!(TrackNumber::try_from(0), Err(InvalidTrackNumber(0)));
    assert_eq!(TrackNumber::try_from(100), Err(InvalidTrackNumber(100)));
    assert_eq!(TrackNumber::default().get(), 1);
}

#[test]
fn isrcs() {
    let track = TrackNumber::try_from(3).unwrap();
    let mut block = vec![0u8; 19];
    block[0] = 3;
    block[2] = 3;
    block[4] = 0x80;
    block[5..17].copy_from_slice(b"USRC17607839");
    let data = subchannel_response(0x15, &block);
    assert!(isrc_is_readable(&data, track));
    assert_eq!(isrc_from(&data, track).unwrap(), Some("USRC17607839".to_string()));

    block[4] = 0;
    assert_eq!(isrc_from(&subchannel_response(0x15, &block), track).unwrap(), None);

    block[2] = 4;
    assert!(isrc_from(&subchannel_response(0x15, &block), track).is_err());
}

#[test]
fn current_positions() {
    let block = [1, 0x10, 2, 1, 0, 3, 20, 5, 0, 0, 45, 7];
    let position = cd_current_position_from(&subchannel_response(0x11, &block)).unwrap();
    assert_eq!(position.track, 2);
    assert_eq!(position.index, 1);
    assert_eq!(position.absolute_position.minute, 3);
    assert_eq!(position.absolute_position.second, 20);
    assert_eq!(position.absolute_position.frame, 5);
    assert_eq!(position.relative_position.second, 45);
    assert_eq!(position.relative_position.frame, 7);

    let wrong_format = [2, 0x10, 2, 1, 0, 3, 20, 5, 0, 0, 45, 7];
    assert!(cd_current_position_from(&subchannel_response(0x11, &wrong_format)).is_err());
}
