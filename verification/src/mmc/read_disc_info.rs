//! Routines based on MMC `READ DISC INFORMATION`.

use vstd::prelude::*;

use crate::bytes::{be16_at, read_u16, u16_to_be};
use crate::mmc::{Cdb, MmcCommand, MmcError};

verus! {

/// Size of the buffer of a first `READ DISC INFORMATION`.
pub const DISC_INFO_INITIAL_BUFFER_SIZE: usize = 64;

/// The kind of disc information requested.
#[derive(Clone, Copy, Debug, PartialEq, Eq)]
pub enum DiscInfoKind {
    /// Disc type, codes, sessions, opc entries..
    Standard,
    /// Assigned, appendable and other track counts..
    TrackResources,
    /// Pseudo Overwrite entries, updates and replacements
    PowResources,
}

impl DiscInfoKind {
    /// The data type code of the kind.
    pub open spec fn spec_code(self) -> u8 {
        match self {
            DiscInfoKind::Standard => 0b000,
            DiscInfoKind::TrackResources => 0b001,
            DiscInfoKind::PowResources => 0b010,
        }
    }

    /// The data type code of the kind.
    #[verifier::when_used_as_spec(spec_code)]
    pub fn code(self) -> (r: u8)
        ensures
            r == self.spec_code(),
    {
        match self {
            DiscInfoKind::Standard => 0b000,
            DiscInfoKind::TrackResources => 0b001,
            DiscInfoKind::PowResources => 0b010,
        }
    }
}

/// The command block of `READ DISC INFORMATION` for `kind` with a buffer
/// of `alloc_len` bytes, of which the allocation length keeps the low 16
/// bits.
pub fn read_disc_info_cdb(kind: DiscInfoKind, alloc_len: usize) -> (r: Cdb)
    ensures
        r@ == seq![
            MmcCommand::ReadDiscInfo.spec_opcode(),
            kind.spec_code(),
            0u8,
            0u8,
            0u8,
            0u8,
            0u8,
            ((alloc_len % 0x10000) / 0x100) as u8,
            (alloc_len % 0x100) as u8,
            0u8,
            0u8,
            0u8,
        ],
{
    let len = u16_to_be((alloc_len % 0x10000) as u16);
    let code = kind.code();
    let r = [MmcCommand::ReadDiscInfo.opcode(), code & 0b111, 0, 0, 0, 0, 0, len[0], len[1], 0, 0, 0];
    assert(code & 0b111 == code) by (bit_vector)
        requires
            code <= 2,
    ;
    assert(r@ =~= seq![
        MmcCommand::ReadDiscInfo.spec_opcode(),
        kind.spec_code(),
        0u8,
        0u8,
        0u8,
        0u8,
        0u8,
        ((alloc_len % 0x10000) / 0x100) as u8,
        (alloc_len % 0x100) as u8,
        0u8,
        0u8,
        0u8,
    ]);
    r
}

/// The length of the disc information that the response announces,
/// including its two-byte length field.
pub open spec fn disc_info_length(buf: Seq<u8>) -> int {
    be16_at(buf, 0) as int + 2
}

/// After a `READ DISC INFORMATION`: the buffer size to repeat the command
/// with when the information does not fit the buffer, or `None` when it
/// does.
pub fn disc_info_required_size(buf: &[u8]) -> (r: Option<usize>)
    requires
        buf@.len() >= 2,
    ensures
        buf@.len() < disc_info_length(buf@) ==> r == Some(disc_info_length(buf@) as usize),
        buf@.len() >= disc_info_length(buf@) ==> r is None,
{
    let data_length = read_u16(buf) as usize + 2;
    if buf.len() < data_length {
        Some(data_length)
    } else {
        None
    }
}

/// The disc information of a response: the buffer cut to the announced
/// length.
pub fn disc_info_data(buf: &[u8]) -> (r: Vec<u8>)
    requires
        buf@.len() >= 2,
    ensures
        buf@.len() <= disc_info_length(buf@) ==> r@ == buf@,
        buf@.len() > disc_info_length(buf@) ==> r@ == buf@.subrange(0, disc_info_length(buf@)),
{
    let data_length = read_u16(buf) as usize + 2;
    let mut v = vstd::slice::slice_to_vec(buf);
    v.truncate(data_length);
    assert(buf@.len() <= data_length ==> v@ =~= buf@);
    v
}

/// Whether the media is of a writable kind (such as CD-RW, BD-RE,
/// DVD+RW, etc) and the drive is capable of writing to it: bit 4 of byte
/// 2 of the disc information.
pub fn is_disc_erasable_from(data: &[u8]) -> (r: bool)
    requires
        data@.len() >= 3,
    ensures
        r == (data@[2] & 0x10 != 0),
{
    data[2] & 0x10 != 0
}

/// error from a `READ DISC INFORMATION` command.
#[derive(Clone, Debug, PartialEq, Eq)]
pub enum MmcReadDiscInfoError {
    /// operating system returned an error
    Os(MmcError),
    /// invalid response from mmc command: {0}
    InvalidResponse(String),
}

impl From<MmcError> for MmcReadDiscInfoError {
    fn from(err: MmcError) -> (r: MmcReadDiscInfoError) {
        MmcReadDiscInfoError::Os(err)
    }
}

impl vstd::std_specs::convert::FromSpecImpl<MmcError> for MmcReadDiscInfoError {
    open spec fn obeys_from_spec() -> bool {
        true
    }

    open spec fn from_spec(err: MmcError) -> MmcReadDiscInfoError {
        MmcReadDiscInfoError::Os(err)
    }
}

} // verus!
