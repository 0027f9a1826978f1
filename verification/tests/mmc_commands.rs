use libcdio_rs::mmc::prevent_allow_medium_removal::{
    allow_media_removal_cdb, prevent_allow_medium_removal_cdb, prevent_media_removal_cdb,
    PreventOption,
};
use libcdio_rs::mmc::set_cd_speed::{set_cd_speed_cdb, RotationMode};
use libcdio_rs::mmc::start_stop_unit::{
    close_tray_cdb, eject_cdb, set_power_state_cdb, start_stop_unit_cdb, PowerCondition,
    StartStopOperation,
};
use libcdio_rs::mmc::test_unit_ready::test_unit_ready_cdb;
use libcdio_rs::mmc::{
    command_outcome, direction_code, MmcCommand, MmcDirection, MmcError, MmcLevel,
    MmcOperationError, MmcSenseData, OsError, SenseKey,
};

#[test]
fn opcodes() {
    assert_eq!(MmcCommand::GetConfiguration.opcode(), 0x46);
    assert_eq!(MmcCommand::Inquiry.opcode(), 0x12);
    assert_eq!(MmcCommand::PreventAllowMediumRemoval.opcode(), 0x1E);
    assert_eq!(MmcCommand::ReadCd.opcode(), 0xBE);
    assert_eq!(MmcCommand::ReadDiscInfo.opcode(), 0x51);
    assert_eq!(MmcCommand::ReadToc.opcode(), 0x43);
    assert_eq!(MmcCommand::SetCdSpeed.opcode(), 0xBB);
    assert_eq!(MmcCommand::StartStopUnit.opcode(), 0x1B);
    assert_eq!(MmcCommand::TestUnitReady.opcode(), 0x00);
}

#[test]
fn directions() {
    assert_eq!(direction_code(Some(MmcDirection::Read)), 0);
    assert_eq!(direction_code(Some(MmcDirection::Write)), 1);
    assert_eq!(direction_code(None), 2);
}

#[test]
fn mmc_levels() {
    assert_eq!(MmcLevel::from_raw(0), Ok(MmcLevel::Unknown));
    assert_eq!(MmcLevel::from_raw(1), Ok(MmcLevel::Mmc1));
    assert_eq!(MmcLevel::from_raw(2), Ok(MmcLevel::Mmc2));
    assert_eq!(MmcLevel::from_raw(3), Ok(MmcLevel::Mmc3));
    assert!(matches!(MmcLevel::from_raw(4), Err(MmcOperationError { .. })));
}

#[test]
fn sense_keys() {
    assert_eq!(SenseKey::from(0x5), SenseKey::IllegalRequest);
    assert_eq!(SenseKey::from(0x6), SenseKey::UnitAttention);
    assert_eq!(SenseKey::from(0xC), SenseKey::Unknown(0xC));
    assert_eq!(SenseKey::from(0xF), SenseKey::Unknown(0xF));
    for v in 0..=255u8 {
        assert_eq!(SenseKey::from(v).code(), v);
    }
    assert_eq!(SenseKey::default(), SenseKey::NoSense);
}

#[test]
fn sense_data_fixed_format() {
    let mut raw = [0u8; 64];
    raw[0] = 0x70;
    raw[2] = 0x25; // ILI set, sense key ILLEGAL REQUEST
    raw[8..12].copy_from_slice(&[1, 2, 3, 4]);
    raw[12] = 0x24;
    raw[13] = 0x00;
    raw[14] = 0x07;
    raw[15..18].copy_from_slice(&[9, 8, 7]);
    raw[18] = 0xAB;
    raw[63] = 0xCD;
    let sense = MmcSenseData::from_fixed_format(&raw);
    assert_eq!(sense.sense_key, SenseKey::IllegalRequest);
    assert!(sense.ili);
    assert_eq!(sense.csi, [1, 2, 3, 4]);
    assert_eq!(sense.asc, 0x24);
    assert_eq!(sense.ascq, 0x00);
    assert_eq!(sense.fruc, 0x07);
    assert_eq!(sense.sks, [9, 8, 7]);
    assert_eq!(sense.asb[0], 0xAB);
    assert_eq!(sense.asb[45], 0xCD);

    let default = MmcSenseData::default();
    assert_eq!(default.sense_key, SenseKey::NoSense);
    assert!(!default.ili);
    assert_eq!(default.asb, [0u8; 46]);
}

#[test]
fn command_outcomes() {
    assert_eq!(command_outcome(0, None), Ok(()));
    assert_eq!(command_outcome(12, None), Ok(()));
    let sense = MmcSenseData::default();
    assert_eq!(
        command_outcome(-1, Some(sense.clone())),
        Err(MmcError::CheckCondition(sense.clone()))
    );
    assert_eq!(command_outcome(-1, None), Err(MmcError::Os(OsError::Other(-1))));
    assert_eq!(command_outcome(-2, Some(sense)), Err(MmcError::Os(OsError::Unsupported)));
    assert_eq!(
        command_outcome(-4, None),
        Err(MmcError::Os(OsError::OperationNotPermitted))
    );
    assert_eq!(command_outcome(-5, None), Err(MmcError::Os(OsError::BadParameter)));
    assert_eq!(OsError::from_code(-7), OsError::Other(-7));
}

#[test]
fn start_stop_blocks() {
    assert_eq!(eject_cdb(), [0x1B, 0, 0, 0, 0x02, 0, 0, 0, 0, 0, 0, 0]);
    assert_eq!(close_tray_cdb(), [0x1B, 0, 0, 0, 0x03, 0, 0, 0, 0, 0, 0, 0]);
    assert_eq!(
        start_stop_unit_cdb(StartStopOperation::StopDisc),
        [0x1B, 0, 0, 0, 0x00, 0, 0, 0, 0, 0, 0, 0]
    );
    assert_eq!(
        start_stop_unit_cdb(StartStopOperation::StartDisc),
        [0x1B, 0, 0, 0, 0x01, 0, 0, 0, 0, 0, 0, 0]
    );
    assert_eq!(
        start_stop_unit_cdb(StartStopOperation::Jump { layer_number: 0xFE }),
        [0x1B, 0, 0, 0x02, 0x07, 0, 0, 0, 0, 0, 0, 0]
    );
    assert_eq!(
        set_power_state_cdb(PowerCondition::Standby),
        [0x1B, 0, 0, 0, 0x30, 0, 0, 0, 0, 0, 0, 0]
    );
    assert_eq!(
        start_stop_unit_cdb(StartStopOperation::Power(PowerCondition::Sleep)),
        [0x1B, 0, 0, 0, 0x50, 0, 0, 0, 0, 0, 0, 0]
    );
    assert_eq!(PowerCondition::Idle.code(), 0x2);
}

#[test]
fn media_removal_blocks() {
    assert_eq!(allow_media_removal_cdb(), [0x1E, 0, 0, 0, 0, 0, 0, 0, 0, 0, 0, 0]);
    assert_eq!(prevent_media_removal_cdb(), [0x1E, 0, 0, 0, 1, 0, 0, 0, 0, 0, 0, 0]);
    assert_eq!(
        prevent_allow_medium_removal_cdb(PreventOption::PreventPersistent),
        [0x1E, 0, 0, 0, 3, 0, 0, 0, 0, 0, 0, 0]
    );
    assert_eq!(PreventOption::AllowPersistent.code(), 2);
}

#[test]
fn speed_block() {
    assert_eq!(
        set_cd_speed_cdb(RotationMode::Clv, 0x1234, 0xABCD),
        [0xBB, 0x01, 0x12, 0x34, 0xAB, 0xCD, 0, 0, 0, 0, 0, 0]
    );
    assert_eq!(
        set_cd_speed_cdb(RotationMode::Cav, 176, 0xFFFF),
        [0xBB, 0x00, 0x00, 0xB0, 0xFF, 0xFF, 0, 0, 0, 0, 0, 0]
    );
}

#[test]
fn unit_ready_block() {
    assert_eq!(test_unit_ready_cdb(), [0u8; 12]);
}
