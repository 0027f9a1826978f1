//! Routines based on MMC `SET CD SPEED`.

use vstd::prelude::*;

use crate::bytes::{be16_bytes, u16_to_be};
use crate::mmc::{Cdb, MmcCommand, MmcError};

verus! {

/// Rotation mode used by the drive.
#[derive(Clone, Copy, Debug, Default, Eq, Hash, Ord, PartialEq, PartialOrd)]
pub enum RotationMode {
    /// Constant Angular Velocity: Maintains a fixed rotation rate.
    /// Provides faster seek times.
    #[default]
    Cav,
    /// Constant Linear Velocity: Variable rotation rate.
    /// Provides consistent data rates.
    Clv,
}

impl RotationMode {
    /// The rotation control code of the mode.
    pub open spec fn spec_code(self) -> u8 {
        match self {
            RotationMode::Cav => 0b00,
            RotationMode::Clv => 0b01,
        }
    }

    /// The rotation control code of the mode.
    #[verifier::when_used_as_spec(spec_code)]
    pub fn code(self) -> (r: u8)
        ensures
            r == self.spec_code(),
    {
        match self {
            RotationMode::Cav => 0b00,
            RotationMode::Clv => 0b01,
        }
    }
}

/// The command block of `SET CD SPEED`: the rotation mode, then the read
/// and the write speed in kilobytes per second, big-endian.
pub fn set_cd_speed_cdb(rotation_mode: RotationMode, read_speed: u16, write_speed: u16) -> (r: Cdb)
    ensures
        r@ == seq![MmcCommand::SetCdSpeed.spec_opcode(), rotation_mode.spec_code()] + be16_bytes(
            read_speed,
        ) + be16_bytes(write_speed) + seq![0u8, 0, 0, 0, 0, 0],
{
    let rs = u16_to_be(read_speed);
    let ws = u16_to_be(write_speed);
    let r = [MmcCommand::SetCdSpeed.opcode(), rotation_mode.code(), rs[0], rs[1], ws[0], ws[1], 0, 0, 0, 0, 0, 0];
    assert(r@ =~= seq![MmcCommand::SetCdSpeed.spec_opcode(), rotation_mode.spec_code()]
        + be16_bytes(read_speed) + be16_bytes(write_speed) + seq![0u8, 0, 0, 0, 0, 0]);
    r
}

/// error from a `SET CD SPEED` command.
#[derive(Clone, Debug, PartialEq, Eq)]
pub struct MmcSetCdSpeedError {
    pub source: MmcError,
}

impl From<MmcError> for MmcSetCdSpeedError {
    fn from(source: MmcError) -> (r: MmcSetCdSpeedError) {
        MmcSetCdSpeedError { source }
    }
}

impl vstd::std_specs::convert::FromSpecImpl<MmcError> for MmcSetCdSpeedError {
    open spec fn obeys_from_spec() -> bool {
        true
    }

    open spec fn from_spec(source: MmcError) -> MmcSetCdSpeedError {
        MmcSetCdSpeedError { source }
    }
}

} // verus!
