use std::time::Duration;

use libcdio_rs::mmc::get_event_status::{
    busy_status_from, event_status_cdb, media_status_from, operational_status_from,
    parse_header, power_status_from, supported_events_from, tray_open_from, BusyEvent,
    BusyState, EventClass, EventMode, MediaEvent, MediaState, MmcStatusError, PowerEvent,
    PowerState,
};
use libcdio_rs::mmc::read_cd::{
    read_cd_cdb, C2Option, ReadCdOptions, SectorOption, SubchannelOption,
};
use libcdio_rs::mmc::read_disc_info::{
    disc_info_data, disc_info_required_size, is_disc_erasable_from, read_disc_info_cdb,
    DiscInfoKind,
};

/// An event status response of notification class `class` (0 to 7), with
/// `supported` classes and `descriptor`.
fn event_response(nea: bool, class: u8, supported: u8, descriptor: &[u8]) -> Vec<u8> {
    let len = (descriptor.len() + 2) as u16;
    let mut data = vec![
        (len >> 8) as u8,
        len as u8,
        if nea { 0x80 } else { 0 } | class,
        supported,
    ];
    data.extend_from_slice(descriptor);
    data
}

#[test]
fn event_block() {
    assert_eq!(
        event_status_cdb(EventMode::Polled, EventClass::media(), 8),
        [0x4A, 0x01, 0, 0, 0x10, 0, 0, 0, 8, 0, 0, 0]
    );
    assert_eq!(
        event_status_cdb(
            EventMode::Async,
            EventClass::power_management().union(EventClass::device_busy()),
            0x0102
        ),
        [0x4A, 0x00, 0, 0, 0x44, 0, 0, 0x01, 0x02, 0, 0, 0]
    );
}

#[test]
fn event_classes() {
    assert_eq!(EventClass::from_bits(0x7E).map(|c| c.bits()), Some(0x7E));
    assert_eq!(EventClass::from_bits(0x81), None);
    assert_eq!(EventClass::from_bits_truncate(0xFF).bits(), 0x7E);
    assert_eq!(EventClass::all().bits(), 0x7E);
    assert!(EventClass::empty().is_empty());
    assert!(EventClass::all().contains(EventClass::multi_host()));
    assert_eq!(EventClass::operational_change().bits(), 0x02);
    assert_eq!(EventClass::external_request().bits(), 0x08);
}

#[test]
fn supported_events() {
    let data = event_response(true, 0, 0x52, &[]);
    assert_eq!(supported_events_from(&data).unwrap().bits(), 0x52);
    assert_eq!(parse_header(EventClass::empty(), &data).unwrap().bits(), 0x52);
    assert!(matches!(
        supported_events_from(&[0, 1, 0]),
        Err(MmcStatusError::InvalidResponse(_))
    ));
}

#[test]
fn media_statuses() {
    let data = event_response(false, 4, 0x7E, &[0x02, 0x02, 0, 0]);
    let status = media_status_from(&data).unwrap();
    assert_eq!(status.event, Some(MediaEvent::NewMedia));
    assert!(status.state.contains(MediaState::media_present()));
    assert!(!status.state.contains(MediaState::door_or_tray_open()));
    assert_eq!(tray_open_from(&data).unwrap(), false);

    let open = event_response(false, 4, 0x7E, &[0x00, 0x01, 0, 0]);
    assert_eq!(media_status_from(&open).unwrap().event, None);
    assert_eq!(tray_open_from(&open).unwrap(), true);

    let unsupported = event_response(true, 4, 0x6E, &[]);
    assert_eq!(
        media_status_from(&unsupported),
        Err(MmcStatusError::EventNotSupported(EventClass::media()))
    );
    let wrong_class = event_response(false, 2, 0x7E, &[0, 1, 0, 0]);
    assert!(matches!(media_status_from(&wrong_class), Err(MmcStatusError::InvalidResponse(_))));
    let unknown_event = event_response(false, 4, 0x7E, &[0x0F, 0, 0, 0]);
    assert!(matches!(
        media_status_from(&unknown_event),
        Err(MmcStatusError::InvalidResponse(_))
    ));
    assert_eq!(MediaState::from_bits_truncate(0xFF).bits(), 0x03);
}

#[test]
fn power_statuses() {
    let data = event_response(false, 2, 0x7E, &[0x01, 0x03, 0, 0]);
    let status = power_status_from(&data).unwrap();
    assert_eq!(status.event, Some(PowerEvent::PwrChgSuccessful));
    assert_eq!(status.state, PowerState::Standby);
    let bad_state = event_response(false, 2, 0x7E, &[0x01, 0x09, 0, 0]);
    assert!(power_status_from(&bad_state).is_err());
}

#[test]
fn operational_statuses() {
    let data = event_response(false, 1, 0x7E, &[0x00, 0x80, 0x00, 0x00]);
    let status = operational_status_from(&data).unwrap();
    assert_eq!(status.event, None);
    assert!(status.persistent_prevent);
}

#[test]
fn busy_statuses() {
    let busy = event_response(false, 6, 0x7E, &[0x01, 0x01, 0x01, 0xF4]);
    let status = busy_status_from(&busy).unwrap();
    assert_eq!(status.event, Some(BusyEvent::Change));
    assert_eq!(status.state, BusyState::Busy);
    assert_eq!(status.busy_time, Some(Duration::from_millis(500)));

    let idle = event_response(false, 6, 0x7E, &[0x00, 0x00, 0x01, 0xF4]);
    let status = busy_status_from(&idle).unwrap();
    assert_eq!(status.state, BusyState::NotBusy);
    assert_eq!(status.busy_time, None);
}

#[test]
fn disc_info() {
    assert_eq!(
        read_disc_info_cdb(DiscInfoKind::Standard, 64),
        [0x51, 0, 0, 0, 0, 0, 0, 0, 64, 0, 0, 0]
    );
    assert_eq!(
        read_disc_info_cdb(DiscInfoKind::PowResources, 0x1_0102),
        [0x51, 2, 0, 0, 0, 0, 0, 0x01, 0x02, 0, 0, 0]
    );
    let mut buf = vec![0u8; 64];
    buf[1] = 32;
    assert_eq!(disc_info_required_size(&buf), None);
    assert_eq!(disc_info_data(&buf).len(), 34);
    buf[1] = 100;
    assert_eq!(disc_info_required_size(&buf), Some(102));
    assert_eq!(disc_info_data(&buf).len(), 64);
    assert!(is_disc_erasable_from(&[0, 32, 0x1E]));
    assert!(!is_disc_erasable_from(&[0, 32, 0x0E]));
}

#[test]
fn read_cd_blocks() {
    assert_eq!(
        read_cd_cdb(ReadCdOptions::default(), 200, 10),
        [0xBE, 0, 0, 0, 0, 200, 0, 0, 10, 0x10, 0, 0]
    );
    let options = ReadCdOptions {
        expected_sector_type: Some(SectorOption::Cdda { dap: true }),
        include_sync: true,
        include_header: true,
        include_subheader: false,
        include_user_data: true,
        include_ecc: true,
        include_c2_error: Some(C2Option::RawAndBlock),
        include_subchannel: Some(SubchannelOption::Rw),
    };
    assert_eq!(
        read_cd_cdb(options, 0x01020304, 0x0506),
        [0xBE, 0x06, 0x01, 0x02, 0x03, 0x04, 0, 0x05, 0x06, 0xBC, 0x04, 0]
    );
    let mode2 = ReadCdOptions {
        expected_sector_type: Some(SectorOption::Mode2Form2),
        ..ReadCdOptions::default()
    };
    assert_eq!(read_cd_cdb(mode2, 0, 1)[1], 0x14);
}
