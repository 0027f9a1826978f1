//! CD-ROM XA (eXtended Architecture) attributes of ISO 9660 entries.

use vstd::prelude::*;

use crate::bytes::{be16_at, read_u16};

verus! {

/// XA File Attributes.
/// For more information: https://psx-spx.consoledev.net/cdromformat/#cdrom-iso-file-and-directory-descriptors
#[derive(Clone, Copy, Debug, PartialEq, Eq)]
pub struct XaFileAttributes {
    bits: u16,
}

impl XaFileAttributes {
    /// The raw bits of the set.
    pub closed spec fn spec_bits(self) -> u16 {
        self.bits
    }

    /// The raw bits of the set.
    pub fn bits(&self) -> (r: u16)
        ensures
            r == self.spec_bits(),
    {
        self.bits
    }

    /// The set with exactly the bits `bits`, also those that name no flag.
    pub fn from_bits_retain(bits: u16) -> (r: XaFileAttributes)
        ensures
            r.spec_bits() == bits,
    {
        XaFileAttributes { bits }
    }

    /// The empty set.
    pub fn empty() -> (r: XaFileAttributes)
        ensures
            r.spec_bits() == 0,
    {
        XaFileAttributes { bits: 0 }
    }

    /// Whether all flags of `other` are in the set.
    pub fn contains(&self, other: XaFileAttributes) -> (r: bool)
        ensures
            r == (self.spec_bits() & other.spec_bits() == other.spec_bits()),
    {
        self.bits & other.bits == other.bits
    }

    /// The flags in both sets.
    pub fn intersection(self, other: XaFileAttributes) -> (r: XaFileAttributes)
        ensures
            r.spec_bits() == self.spec_bits() & other.spec_bits(),
    {
        XaFileAttributes { bits: self.bits & other.bits }
    }

    /// The flags in either set.
    pub fn union(self, other: XaFileAttributes) -> (r: XaFileAttributes)
        ensures
            r.spec_bits() == self.spec_bits() | other.spec_bits(),
    {
        XaFileAttributes { bits: self.bits | other.bits }
    }

    /// Whether the set is empty.
    pub fn is_empty(&self) -> (r: bool)
        ensures
            r == (self.spec_bits() == 0),
    {
        self.bits == 0
    }

    /// Owner may read.
    pub fn owner_read() -> (r: XaFileAttributes)
        ensures
            r.spec_bits() == 1u16 << 0,
    {
        XaFileAttributes { bits: 1 << 0 }
    }

    /// Owner may execute.
    pub fn owner_execute() -> (r: XaFileAttributes)
        ensures
            r.spec_bits() == 1u16 << 2,
    {
        XaFileAttributes { bits: 1 << 2 }
    }

    /// Group may read.
    pub fn group_read() -> (r: XaFileAttributes)
        ensures
            r.spec_bits() == 1u16 << 4,
    {
        XaFileAttributes { bits: 1 << 4 }
    }

    /// Group may execute.
    pub fn group_execute() -> (r: XaFileAttributes)
        ensures
            r.spec_bits() == 1u16 << 6,
    {
        XaFileAttributes { bits: 1 << 6 }
    }

    /// World may read.
    pub fn world_read() -> (r: XaFileAttributes)
        ensures
            r.spec_bits() == 1u16 << 8,
    {
        XaFileAttributes { bits: 1 << 8 }
    }

    /// World may execute.
    pub fn world_execute() -> (r: XaFileAttributes)
        ensures
            r.spec_bits() == 1u16 << 10,
    {
        XaFileAttributes { bits: 1 << 10 }
    }

    /// Mode 2 sectors.
    pub fn mode2() -> (r: XaFileAttributes)
        ensures
            r.spec_bits() == 1u16 << 11,
    {
        XaFileAttributes { bits: 1 << 11 }
    }

    /// Mode 2 Form 2 sectors.
    pub fn mode2_form2() -> (r: XaFileAttributes)
        ensures
            r.spec_bits() == 1u16 << 12,
    {
        XaFileAttributes { bits: 1 << 12 }
    }

    /// Interleaved sectors.
    pub fn interleaved() -> (r: XaFileAttributes)
        ensures
            r.spec_bits() == 1u16 << 13,
    {
        XaFileAttributes { bits: 1 << 13 }
    }

    /// CD-DA audio sectors.
    pub fn cdda() -> (r: XaFileAttributes)
        ensures
            r.spec_bits() == 1u16 << 14,
    {
        XaFileAttributes { bits: 1 << 14 }
    }

    /// A directory.
    pub fn directory() -> (r: XaFileAttributes)
        ensures
            r.spec_bits() == 1u16 << 15,
    {
        XaFileAttributes { bits: 1 << 15 }
    }
}

/// The number of bytes of an ISO 9660 block.
pub const ISO_BLOCK_BYTES: u64 = 2048;

/// The number of bytes of user data in a Mode 2 Form 2 sector.
pub const MODE2FORM2_SECTOR_BYTES: u64 = 2324;

/// CD-ROM XA (eXtended Architecture) attributes
#[non_exhaustive]
#[derive(Clone, Copy, Debug, PartialEq, Eq)]
pub struct CdRomXa {
    pub file_attr: XaFileAttributes,
    pub file_num: u8,
    pub group_id: u16,
    pub user_id: u16,
    /// The size of the entry's data, in bytes.
    pub total_size: u64,
}

/// The multi-extent size of Mode 2 Form 2 data of `total_size` bytes:
/// the number of ISO 9660 blocks it spans, rounded up, times the bytes of
/// a Form 2 sector.
pub open spec fn spec_mode2form2_size(total_size: u64) -> int {
    ((total_size + ISO_BLOCK_BYTES - 1) / (ISO_BLOCK_BYTES as int)) * (MODE2FORM2_SECTOR_BYTES as int)
}

impl CdRomXa {
    /// The XA attributes as an entry's directory record holds them: the
    /// attribute word, file number, group and user id as stored (each
    /// multi-byte field big-endian), and the entry's size.
    pub fn from_record(
        attributes: [u8; 2],
        file_num: u8,
        group_id: [u8; 2],
        user_id: [u8; 2],
        total_size: u64,
    ) -> (r: CdRomXa)
        ensures
            r.file_attr.spec_bits() == be16_at(attributes@, 0),
            r.file_num == file_num,
            r.group_id == be16_at(group_id@, 0),
            r.user_id == be16_at(user_id@, 0),
            r.total_size == total_size,
    {
        CdRomXa {
            file_attr: XaFileAttributes::from_bits_retain(read_u16(&attributes)),
            file_num,
            group_id: read_u16(&group_id),
            user_id: read_u16(&user_id),
            total_size,
        }
    }

    /// Whether the Mode 2 Form 2 size of the entry fits a `u64`; where it
    /// does not, computing it overflows.
    pub fn mode2form2_size_fits(&self) -> (r: bool)
        ensures
            r == (spec_mode2form2_size(self.total_size) <= u64::MAX),
    {
        let total_sectors = Self::total_sectors(self.total_size);
        total_sectors <= u64::MAX / MODE2FORM2_SECTOR_BYTES
    }

    /// The number of ISO 9660 blocks that `total_size` bytes span.
    fn total_sectors(total_size: u64) -> (r: u64)
        ensures
            r == (total_size + ISO_BLOCK_BYTES - 1) / (ISO_BLOCK_BYTES as int),
            r <= u64::MAX / MODE2FORM2_SECTOR_BYTES <==> r * MODE2FORM2_SECTOR_BYTES <= u64::MAX,
    {
        let r: u64 = total_size / ISO_BLOCK_BYTES + if total_size % ISO_BLOCK_BYTES == 0 {
            0
        } else {
            1
        };
        proof {
            let t = total_size as int;
            assert((t + 2047) / 2048 == t / 2048 + (if t % 2048 == 0 { 0int } else { 1int })) by (nonlinear_arith)
                requires
                    t >= 0,
            ;
            let q = r as int;
            assert(q <= 0xffff_ffff_ffff_ffffint / 2324 <==> q * 2324 <= 0xffff_ffff_ffff_ffffint) by (nonlinear_arith)
                requires
                    q >= 0,
            ;
        }
        r
    }

    /// Return multi extent size.
    /// Returns `None` if not using Mode2/Form2 encoding.
    pub fn mode2form2_size(&self) -> (r: Option<u64>)
        requires
            spec_mode2form2_size(self.total_size) <= u64::MAX,
        ensures
            r is Some <==> self.file_attr.spec_bits() & (1u16 << 12) == 1u16 << 12,
            r matches Some(n) ==> n == spec_mode2form2_size(self.total_size),
    {
        if !self.file_attr.contains(XaFileAttributes::mode2_form2()) {
            return None;
        }
        let total_sectors = Self::total_sectors(self.total_size);
        Some(total_sectors * MODE2FORM2_SECTOR_BYTES)
    }
}

} // verus!
