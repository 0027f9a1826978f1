//! Routines based on MMC `START STOP UNIT`.

use vstd::prelude::*;

use crate::mmc::{Cdb, MmcCommand, MmcError};

verus! {

/// A power state as defined under MMC `START STOP UNIT`
#[derive(Clone, Copy, Debug, PartialEq, Eq)]
pub enum PowerCondition {
    Idle,
    Standby,
    Sleep,
}

impl PowerCondition {
    /// The power condition code.
    pub open spec fn spec_code(self) -> u8 {
        match self {
            PowerCondition::Idle => 0x2,
            PowerCondition::Standby => 0x3,
            PowerCondition::Sleep => 0x5,
        }
    }

    /// The power condition code.
    #[verifier::when_used_as_spec(spec_code)]
    pub fn code(self) -> (r: u8)
        ensures
            r == self.spec_code(),
    {
        match self {
            PowerCondition::Idle => 0x2,
            PowerCondition::Standby => 0x3,
            PowerCondition::Sleep => 0x5,
        }
    }
}

/// Operations of the `START STOP UNIT` command
#[derive(Clone, Copy, Debug, PartialEq, Eq)]
pub enum StartStopOperation {
    StopDisc,
    StartDisc,
    EjectDisc,
    LoadStartDisc,
    /// Change the online format-layer to the specified value for hybrid discs.
    /// Only the last two bits will be set.
    Jump { layer_number: u8 },
    /// Place the device in the specified power condition
    Power(PowerCondition),
}

/// Byte 3 of the command block: the format layer number of a jump.
pub open spec fn start_stop_byte3(operation: StartStopOperation) -> u8 {
    match operation {
        StartStopOperation::Jump { layer_number } => layer_number & 0b11,
        _ => 0,
    }
}

/// Byte 4 of the command block: the power condition in the high nibble,
/// the format layer bit (bit 2) of a jump, and the LoEj and Start bits
/// (bits 1 and 0) as MMC-6 2g, 6.42.3.1 describes.
pub open spec fn start_stop_byte4(operation: StartStopOperation) -> u8 {
    match operation {
        StartStopOperation::StopDisc => 0b000,
        StartStopOperation::StartDisc => 0b001,
        StartStopOperation::EjectDisc => 0b010,
        StartStopOperation::LoadStartDisc => 0b011,
        StartStopOperation::Jump { .. } => 0b111,
        StartStopOperation::Power(cond) => (cond.spec_code() * 16) as u8,
    }
}

/// The command block of `START STOP UNIT` for `operation`; the immediate
/// bit is left clear.
pub fn start_stop_unit_cdb(operation: StartStopOperation) -> (r: Cdb)
    ensures
        r@ == seq![
            MmcCommand::StartStopUnit.spec_opcode(),
            0u8,
            0u8,
            start_stop_byte3(operation),
            start_stop_byte4(operation),
            0u8,
            0u8,
            0u8,
            0u8,
            0u8,
            0u8,
            0u8,
        ],
{
    let mut b3: u8 = 0;
    let mut b4: u8 = 0;
    if let StartStopOperation::Jump { layer_number } = operation {
        b3 = layer_number & 0b11;
        b4 = b4 | 0x04;
    }
    b4 = b4 | match operation {
        StartStopOperation::StartDisc => 0b01,
        StartStopOperation::EjectDisc => 0b10,
        StartStopOperation::LoadStartDisc | StartStopOperation::Jump { .. } => 0b11,
        _ => 0b00,
    };
    if let StartStopOperation::Power(pow_cond) = operation {
        let c = pow_cond.code();
        assert((c & 0b1111) << 4u8 == c * 16) by (bit_vector)
            requires
                c <= 5,
        ;
        b4 = b4 | (c & 0b1111) << 4;
    }
    proof {
        assert(0x04u8 | 0b11 == 0b111) by (bit_vector);
        assert(forall|x: u8| 0u8 | x == x) by (bit_vector);
        assert(forall|x: u8| x | 0u8 == x) by (bit_vector);
    }
    let r = [MmcCommand::StartStopUnit.opcode(), 0, 0, b3, b4, 0, 0, 0, 0, 0, 0, 0];
    assert(r@ =~= seq![
        MmcCommand::StartStopUnit.spec_opcode(),
        0u8,
        0u8,
        start_stop_byte3(operation),
        start_stop_byte4(operation),
        0u8,
        0u8,
        0u8,
        0u8,
        0u8,
        0u8,
        0u8,
    ]);
    r
}

/// The command block that ejects the media: LoEj set, Start clear.
pub fn eject_cdb() -> (r: Cdb)
    ensures
        r@ == seq![MmcCommand::StartStopUnit.spec_opcode(), 0u8, 0, 0, 0b10, 0, 0, 0, 0, 0, 0, 0],
{
    start_stop_unit_cdb(StartStopOperation::EjectDisc)
}

/// The command block that closes the tray: LoEj and Start set.
pub fn close_tray_cdb() -> (r: Cdb)
    ensures
        r@ == seq![MmcCommand::StartStopUnit.spec_opcode(), 0u8, 0, 0, 0b11, 0, 0, 0, 0, 0, 0, 0],
{
    start_stop_unit_cdb(StartStopOperation::LoadStartDisc)
}

/// The command block that puts the device in power condition `state`.
pub fn set_power_state_cdb(state: PowerCondition) -> (r: Cdb)
    ensures
        r@ == seq![
            MmcCommand::StartStopUnit.spec_opcode(),
            0u8,
            0,
            0,
            (state.spec_code() * 16) as u8,
            0,
            0,
            0,
            0,
            0,
            0,
            0,
        ],
{
    start_stop_unit_cdb(StartStopOperation::Power(state))
}

/// error from a `START STOP UNIT` command
#[derive(Clone, Debug, PartialEq, Eq)]
pub struct MmcStartStopError {
    pub source: MmcError,
}

/// could not eject MMC device
#[derive(Clone, Debug, PartialEq, Eq)]
pub struct MmcEjectError {
    pub source: MmcStartStopError,
}

/// could not close tray of the MMC device
#[derive(Clone, Debug, PartialEq, Eq)]
pub struct MmcCloseTrayError {
    pub source: MmcStartStopError,
}

/// could not set power state of MMC device
#[derive(Clone, Debug, PartialEq, Eq)]
pub struct MmcSetPowerStateError {
    pub source: MmcStartStopError,
}

impl From<MmcError> for MmcStartStopError {
    fn from(source: MmcError) -> (r: MmcStartStopError) {
        MmcStartStopError { source }
    }
}

impl vstd::std_specs::convert::FromSpecImpl<MmcError> for MmcStartStopError {
    open spec fn obeys_from_spec() -> bool {
        true
    }

    open spec fn from_spec(source: MmcError) -> MmcStartStopError {
        MmcStartStopError { source }
    }
}

impl From<MmcStartStopError> for MmcEjectError {
    fn from(source: MmcStartStopError) -> (r: MmcEjectError) {
        MmcEjectError { source }
    }
}

impl vstd::std_specs::convert::FromSpecImpl<MmcStartStopError> for MmcEjectError {
    open spec fn obeys_from_spec() -> bool {
        true
    }

    open spec fn from_spec(source: MmcStartStopError) -> MmcEjectError {
        MmcEjectError { source }
    }
}

impl From<MmcStartStopError> for MmcCloseTrayError {
    fn from(source: MmcStartStopError) -> (r: MmcCloseTrayError) {
        MmcCloseTrayError { source }
    }
}

impl vstd::std_specs::convert::FromSpecImpl<MmcStartStopError> for MmcCloseTrayError {
    open spec fn obeys_from_spec() -> bool {
        true
    }

    open spec fn from_spec(source: MmcStartStopError) -> MmcCloseTrayError {
        MmcCloseTrayError { source }
    }
}

impl From<MmcStartStopError> for MmcSetPowerStateError {
    fn from(source: MmcStartStopError) -> (r: MmcSetPowerStateError) {
        MmcSetPowerStateError { source }
    }
}

impl vstd::std_specs::convert::FromSpecImpl<MmcStartStopError> for MmcSetPowerStateError {
    open spec fn obeys_from_spec() -> bool {
        true
    }

    open spec fn from_spec(source: MmcStartStopError) -> MmcSetPowerStateError {
        MmcSetPowerStateError { source }
    }
}

} // verus!
