use libcdio_rs::mmc::get_event_status::{
    busy_status_from, media_status_from, operational_status_from, power_status_from,
    supported_events_from, MmcStatusError,
};
use libcdio_rs::mmc::read_subchannel::{
    audio_status_from, cd_current_position_from, media_catalog_number_from, MmcAudioStatusError,
    MmcSubchannelError,
};
use libcdio_rs::mmc::read_toc::{cd_type_from, last_sector_from, MmcTocError};
use libcdio_rs::report::text::binary_text;

fn toc_invalid(message: &str) -> MmcTocError {
    MmcTocError::InvalidResponse(message.to_string())
}

fn subchannel_invalid(message: &str) -> MmcSubchannelError {
    MmcSubchannelError::InvalidResponse(message.to_string())
}

fn status_invalid(message: &str) -> MmcStatusError {
    MmcStatusError::InvalidResponse(message.to_string())
}

#[test]
fn binary_numbers() {
    assert_eq!(binary_text(0), "0");
    assert_eq!(binary_text(1), "1");
    assert_eq!(binary_text(2), "10");
    assert_eq!(binary_text(0x10), "10000");
    assert_eq!(binary_text(0x7E), "1111110");
}

#[test]
fn toc_messages() {
    assert_eq!(cd_type_from(&[0, 9, 1]), Err(toc_invalid("invalid READ TOC/PMA/ATIP header")));
    assert_eq!(
        cd_type_from(&[0, 2, 1, 1, 0, 0]),
        Err(toc_invalid("invalid raw toc descriptor"))
    );
    let unknown = [0, 11, 1, 1, 1, 0x14, 0, 0xA0, 1, 0, 0, 0, 1, 0x30, 0];
    assert_eq!(
        cd_type_from(&unknown),
        Err(toc_invalid("No discriminant in enum `CdType` matches the value `48`"))
    );
    assert_eq!(
        last_sector_from(&[0, 2, 1, 1, 0, 0]),
        Err(toc_invalid("invalid formatted toc descriptor"))
    );
}

#[test]
fn subchannel_messages() {
    assert_eq!(
        cd_current_position_from(&[0, 0x11, 0, 9]),
        Err(subchannel_invalid("invalid READ SUB-CHANNEL response header"))
    );
    assert_eq!(
        cd_current_position_from(&[0, 0x11, 0, 2, 2, 0]),
        Err(subchannel_invalid("invalid cd current position descriptor"))
    );
    assert_eq!(
        media_catalog_number_from(&[0, 0x11, 0, 2, 1, 0]),
        Err(subchannel_invalid("invalid media catalog number descriptor"))
    );
    assert_eq!(
        cd_current_position_from(&[0, 0x42, 0, 0]),
        Err(subchannel_invalid("No discriminant in enum `MmcAudioStatus` matches the value `66`"))
    );
    assert_eq!(
        audio_status_from(&[0, 0x42, 0, 0]),
        Err(MmcAudioStatusError::InvalidResponse(
            "No discriminant in enum `MmcAudioStatus` matches the value `66`".to_string()
        ))
    );
}

#[test]
fn event_status_messages() {
    assert_eq!(
        supported_events_from(&[0, 1, 0]),
        Err(status_invalid("invalid GET EVENT STATUS NOTIFICATION response header"))
    );
    // a media query answered with an operational change header
    assert_eq!(
        media_status_from(&[0, 6, 0x01, 0x7E, 0, 1, 0, 0]),
        Err(status_invalid("invalid event code, expected 0b10000 got 0b10"))
    );
    assert_eq!(
        operational_status_from(&[0, 3, 0x01, 0x7E, 0]),
        Err(status_invalid("invalid operational change event descriptor"))
    );
    assert_eq!(
        operational_status_from(&[0, 2, 0x01, 0x7E]),
        Err(status_invalid("invalid event code"))
    );
    assert_eq!(
        operational_status_from(&[0, 6, 0x01, 0x7E, 0, 0, 0, 9]),
        Err(status_invalid("No discriminant in enum `OperationalEvent` matches the value `9`"))
    );
    assert_eq!(
        media_status_from(&[0, 6, 0x04, 0x7E, 0x0F, 0, 0, 0]),
        Err(status_invalid("No discriminant in enum `MediaEvent` matches the value `15`"))
    );
    // the event is checked before the state
    assert_eq!(
        power_status_from(&[0, 4, 0x02, 0x7E, 0x0F, 0x09]),
        Err(status_invalid("No discriminant in enum `PowerEvent` matches the value `15`"))
    );
    assert_eq!(
        power_status_from(&[0, 4, 0x02, 0x7E, 0x00, 0x09]),
        Err(status_invalid("No discriminant in enum `PowerState` matches the value `9`"))
    );
    assert_eq!(
        busy_status_from(&[0, 6, 0x06, 0x7E, 0x00, 0x07, 0, 0]),
        Err(status_invalid("No discriminant in enum `BusyState` matches the value `7`"))
    );
}
