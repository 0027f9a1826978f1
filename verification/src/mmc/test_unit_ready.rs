//! Routines on MMC `TEST UNIT READY`.

use vstd::prelude::*;

use crate::mmc::{Cdb, MmcCommand, MmcError};

verus! {

/// The command block of `TEST UNIT READY`: the operation code, all else
/// zero.
pub fn test_unit_ready_cdb() -> (r: Cdb)
    ensures
        r@ == seq![MmcCommand::TestUnitReady.spec_opcode(), 0u8, 0, 0, 0, 0, 0, 0, 0, 0, 0, 0],
{
    let r = [MmcCommand::TestUnitReady.opcode(), 0, 0, 0, 0, 0, 0, 0, 0, 0, 0, 0];
    assert(r@ =~= seq![MmcCommand::TestUnitReady.spec_opcode(), 0u8, 0, 0, 0, 0, 0, 0, 0, 0, 0, 0]);
    r
}

/// error from an MMC `TEST UNIT READY` command.
#[derive(Clone, Debug, PartialEq, Eq)]
pub struct MmcTestUnitReadyError {
    pub source: MmcError,
}

impl From<MmcError> for MmcTestUnitReadyError {
    fn from(source: MmcError) -> (r: MmcTestUnitReadyError) {
        MmcTestUnitReadyError { source }
    }
}

impl vstd::std_specs::convert::FromSpecImpl<MmcError> for MmcTestUnitReadyError {
    open spec fn obeys_from_spec() -> bool {
        true
    }

    open spec fn from_spec(source: MmcError) -> MmcTestUnitReadyError {
        MmcTestUnitReadyError { source }
    }
}

} // verus!
