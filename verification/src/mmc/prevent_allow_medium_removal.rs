//! Routines based on MMC `PREVENT ALLOW MEDIUM REMOVAL`.

use vstd::prelude::*;

use crate::mmc::{Cdb, MmcCommand, MmcError};

verus! {

/// Operations of the `PREVENT ALLOW MEDIUM REMOVAL` command
#[derive(Clone, Copy, Debug, PartialEq, Eq)]
pub enum PreventOption {
    Allow,
    Prevent,
    AllowPersistent,
    PreventPersistent,
}

impl PreventOption {
    /// The prevent field value of the option.
    pub open spec fn spec_code(self) -> u8 {
        match self {
            PreventOption::Allow => 0b00,
            PreventOption::Prevent => 0b01,
            PreventOption::AllowPersistent => 0b10,
            PreventOption::PreventPersistent => 0b11,
        }
    }

    /// The prevent field value of the option.
    #[verifier::when_used_as_spec(spec_code)]
    pub fn code(self) -> (r: u8)
        ensures
            r == self.spec_code(),
    {
        match self {
            PreventOption::Allow => 0b00,
            PreventOption::Prevent => 0b01,
            PreventOption::AllowPersistent => 0b10,
            PreventOption::PreventPersistent => 0b11,
        }
    }
}

/// The command block of `PREVENT ALLOW MEDIUM REMOVAL`: the prevent field
/// in byte 4.
pub fn prevent_allow_medium_removal_cdb(prevent: PreventOption) -> (r: Cdb)
    ensures
        r@ == seq![
            MmcCommand::PreventAllowMediumRemoval.spec_opcode(),
            0u8,
            0,
            0,
            prevent.spec_code(),
            0,
            0,
            0,
            0,
            0,
            0,
            0,
        ],
{
    let r = [MmcCommand::PreventAllowMediumRemoval.opcode(), 0, 0, 0, prevent.code(), 0, 0, 0, 0, 0, 0, 0];
    assert(r@ =~= seq![
        MmcCommand::PreventAllowMediumRemoval.spec_opcode(),
        0u8,
        0,
        0,
        prevent.spec_code(),
        0,
        0,
        0,
        0,
        0,
        0,
        0,
    ]);
    r
}

/// The command block that allows media removal.
pub fn allow_media_removal_cdb() -> (r: Cdb)
    ensures
        r@ == seq![MmcCommand::PreventAllowMediumRemoval.spec_opcode(), 0u8, 0, 0, 0, 0, 0, 0, 0, 0, 0, 0],
{
    let r = prevent_allow_medium_removal_cdb(PreventOption::Allow);
    assert(r@ =~= seq![MmcCommand::PreventAllowMediumRemoval.spec_opcode(), 0u8, 0, 0, 0, 0, 0, 0, 0, 0, 0, 0]);
    r
}

/// The command block that prevents media removal.
pub fn prevent_media_removal_cdb() -> (r: Cdb)
    ensures
        r@ == seq![MmcCommand::PreventAllowMediumRemoval.spec_opcode(), 0u8, 0, 0, 1, 0, 0, 0, 0, 0, 0, 0],
{
    let r = prevent_allow_medium_removal_cdb(PreventOption::Prevent);
    assert(r@ =~= seq![MmcCommand::PreventAllowMediumRemoval.spec_opcode(), 0u8, 0, 0, 1, 0, 0, 0, 0, 0, 0, 0]);
    r
}

/// error from a `PREVENT ALLOW MEDIUM REMOVAL` command.
#[non_exhaustive]
#[derive(Clone, Debug, PartialEq, Eq)]
pub struct MmcMediaRemovalError {
    pub source: MmcError,
}

impl From<MmcError> for MmcMediaRemovalError {
    fn from(source: MmcError) -> (r: MmcMediaRemovalError) {
        MmcMediaRemovalError { source }
    }
}

impl vstd::std_specs::convert::FromSpecImpl<MmcError> for MmcMediaRemovalError {
    open spec fn obeys_from_spec() -> bool {
        true
    }

    open spec fn from_spec(source: MmcError) -> MmcMediaRemovalError {
        MmcMediaRemovalError { source }
    }
}

} // verus!
