//! Routines based on `READ CD` (MMC-6 2g, 6.19): the command block that
//! selects the sector type and the fields to transfer.

use vstd::prelude::*;

use crate::bytes::{be16_at, be32_at, u16_to_be, u32_to_be};
use crate::mmc::{Cdb, MmcCommand, MmcError};

verus! {

/// Sector type to include.
#[derive(Clone, Copy, Debug, Default, Eq, Hash, Ord, PartialEq, PartialOrd)]
pub enum SectorOption {
    /// IEC 908 (CD-DA) with user data of 2352 bytes.
    Cdda {
        /// Return data with flaw obsuring mechanisms such as audio data mute
        /// and interpolate.
        dap: bool,
    },
    /// User data of 2048 bytes.
    #[default]
    Mode1,
    /// User data of 2336 bytes.
    Mode2Formless,
    /// User data of 2048 bytes.
    Mode2Form1,
    /// User data of 2324 bytes.
    Mode2Form2,
}

impl SectorOption {
    /// The expected sector type code.
    pub open spec fn spec_discriminant(&self) -> u8 {
        match self {
            SectorOption::Cdda { .. } => 0b001,
            SectorOption::Mode1 => 0b010,
            SectorOption::Mode2Formless => 0b011,
            SectorOption::Mode2Form1 => 0b100,
            SectorOption::Mode2Form2 => 0b101,
        }
    }

    /// The expected sector type code.
    #[verifier::when_used_as_spec(spec_discriminant)]
    pub fn discriminant(&self) -> (r: u8)
        ensures
            r == self.spec_discriminant(),
    {
        match self {
            SectorOption::Cdda { .. } => 0b001,
            SectorOption::Mode1 => 0b010,
            SectorOption::Mode2Formless => 0b011,
            SectorOption::Mode2Form1 => 0b100,
            SectorOption::Mode2Form2 => 0b101,
        }
    }
}

/// C2 error information to include.
#[derive(Clone, Copy, Debug, Default, Eq, Hash, Ord, PartialEq, PartialOrd)]
pub enum C2Option {
    /// 294 bytes of "C2 error bits".
    #[default]
    Raw,
    /// 296 bytes consisting of:
    /// - Block error byte: logical OR of all the 294 bytes of "C2 error bits"
    /// - A pad byte of zero
    /// - 294 bytes of "C2 error bits"
    RawAndBlock,
}

impl C2Option {
    /// The C2 error field code.
    pub open spec fn spec_code(self) -> u8 {
        match self {
            C2Option::Raw => 0b01,
            C2Option::RawAndBlock => 0b10,
        }
    }

    /// The C2 error field code.
    #[verifier::when_used_as_spec(spec_code)]
    pub fn code(self) -> (r: u8)
        ensures
            r == self.spec_code(),
    {
        match self {
            C2Option::Raw => 0b01,
            C2Option::RawAndBlock => 0b10,
        }
    }
}

/// Sub-Channel information to include.
#[derive(Clone, Copy, Debug, Default, Eq, Hash, Ord, PartialEq, PartialOrd)]
pub enum SubchannelOption {
    /// RAW P-W sub-channel data (96 bytes)
    RawPw,
    /// Formatted Q sub-channel data (16 bytes).
    #[default]
    Q,
    /// Corrected and de-interleaved R-W sub-channel data (96 bytes).
    Rw,
}

impl SubchannelOption {
    /// The sub-channel selection code.
    pub open spec fn spec_code(self) -> u8 {
        match self {
            SubchannelOption::RawPw => 0b001,
            SubchannelOption::Q => 0b010,
            SubchannelOption::Rw => 0b100,
        }
    }

    /// The sub-channel selection code.
    #[verifier::when_used_as_spec(spec_code)]
    pub fn code(self) -> (r: u8)
        ensures
            r == self.spec_code(),
    {
        match self {
            SubchannelOption::RawPw => 0b001,
            SubchannelOption::Q => 0b010,
            SubchannelOption::Rw => 0b100,
        }
    }
}

/// Disc read options.
///
/// A few options are valid only for certain sector types.
/// Non-contiguous combinations of fields may not be feasible to read, and will
/// result in an error (such as include_sync + include_User_data).
#[derive(Clone, Copy, Debug, Eq, Hash, Ord, PartialEq, PartialOrd)]
pub struct ReadCdOptions {
    /// Restrict read to sector type.
    pub expected_sector_type: Option<SectorOption>,
    /// Include sync fields (12 bytes per sector).
    /// Sync fields are not present in CD-DA.
    pub include_sync: bool,
    /// Include headers (4 bytes per sector).
    /// Headers are present in all sector types except CD-DA.
    pub include_header: bool,
    /// Include sub-headers (8 bytes per sector).
    /// Sub-headers are present only in Mode2 formed sectors.
    pub include_subheader: bool,
    /// Include user data. Defaults to `true`.
    /// Size depends on the sector type of the disc.
    pub include_user_data: bool,
    /// Include ECC/EDC, i.e the fields that follow user data. Present only in
    /// Mode1 (288 bytes per sector) and Mode2 formed sectors
    /// (Form1: 280 bytes per sector; Form2: 4 bytes per sector).
    pub include_ecc: bool,
    /// Include "C2 error bits" (294 to 296 bytes per sector).
    pub include_c2_error: Option<C2Option>,
    /// Include sub-channel information. (16 to 96 bytes per sector).
    pub include_subchannel: Option<SubchannelOption>,
}

impl Default for ReadCdOptions {
    /// Include only user data.
    fn default() -> (r: ReadCdOptions)
        ensures
            r.expected_sector_type is None,
            !r.include_sync,
            !r.include_header,
            !r.include_subheader,
            r.include_user_data,
            !r.include_ecc,
            r.include_c2_error is None,
            r.include_subchannel is None,
    {
        ReadCdOptions {
            expected_sector_type: None,
            include_sync: false,
            include_header: false,
            include_subheader: false,
            include_user_data: true,
            include_ecc: false,
            include_c2_error: None,
            include_subchannel: None,
        }
    }
}

/// Byte 1 of the command block: the expected sector type in bits 4 to 2,
/// and the DAP bit (bit 1) for CD-DA with flaw obscuring.
pub open spec fn read_cd_byte1(options: ReadCdOptions) -> u8 {
    match options.expected_sector_type {
        None => 0,
        Some(s) => ((if s == (SectorOption::Cdda { dap: true }) { 2u8 } else { 0u8 }) + s.spec_discriminant()
            * 4) as u8,
    }
}

/// Byte 9 of the command block: sync (bit 7), sub-header (6), header (5),
/// user data (4), ECC (3) and the C2 error field (bits 2 and 1).
pub open spec fn read_cd_byte9(options: ReadCdOptions) -> u8 {
    ((if options.include_sync { 0x80u8 } else { 0u8 }) + (if options.include_subheader {
        0x40u8
    } else {
        0u8
    }) + (if options.include_header { 0x20u8 } else { 0u8 }) + (if options.include_user_data {
        0x10u8
    } else {
        0u8
    }) + (if options.include_ecc { 0x08u8 } else { 0u8 }) + match options.include_c2_error {
        None => 0u8,
        Some(c) => (c.spec_code() * 2) as u8,
    }) as u8
}

/// Byte 10 of the command block: the sub-channel selection.
pub open spec fn read_cd_byte10(options: ReadCdOptions) -> u8 {
    match options.include_subchannel {
        None => 0,
        Some(s) => s.spec_code(),
    }
}

/// The command block of `READ CD` for `count` sectors from `sector`: the
/// sector address big-endian in bytes 2 to 5, the count in bytes 7 and 8,
/// and the options in bytes 1, 9 and 10.
pub fn read_cd_cdb(options: ReadCdOptions, sector: u32, count: u16) -> (r: Cdb)
    ensures
        r@.len() == 12,
        r@[0] == MmcCommand::ReadCd.spec_opcode(),
        r@[1] == read_cd_byte1(options),
        be32_at(r@, 2) == sector,
        r@[6] == 0,
        be16_at(r@, 7) == count,
        r@[9] == read_cd_byte9(options),
        r@[10] == read_cd_byte10(options),
        r@[11] == 0,
{
    let b1: u8 = match options.expected_sector_type {
        None => 0,
        Some(s) => {
            let dap: u8 = match s {
                SectorOption::Cdda { dap: true } => 2,
                _ => 0,
            };
            let d = s.discriminant();
            assert(d & 0b111 == d) by (bit_vector)
                requires
                    d <= 5,
            ;
            dap + (d & 0b111) * 4
        },
    };
    let sync: u8 = if options.include_sync { 0x80 } else { 0 };
    let subheader: u8 = if options.include_subheader { 0x40 } else { 0 };
    let header: u8 = if options.include_header { 0x20 } else { 0 };
    let user: u8 = if options.include_user_data { 0x10 } else { 0 };
    let ecc: u8 = if options.include_ecc { 0x08 } else { 0 };
    let c2: u8 = match options.include_c2_error {
        None => 0,
        Some(c) => {
            let k = c.code();
            assert(k & 0b11 == k) by (bit_vector)
                requires
                    k <= 2,
            ;
            (k & 0b11) * 2
        },
    };
    let b9: u8 = sync + subheader + header + user + ecc + c2;
    let b10: u8 = match options.include_subchannel {
        None => 0,
        Some(s) => {
            let k = s.code();
            assert(k & 0b111 == k) by (bit_vector)
                requires
                    k <= 4,
            ;
            k & 0b111
        },
    };
    let sec = u32_to_be(sector);
    let cnt = u16_to_be(count);
    let r = [
        MmcCommand::ReadCd.opcode(),
        b1,
        sec[0],
        sec[1],
        sec[2],
        sec[3],
        0,
        cnt[0],
        cnt[1],
        b9,
        b10,
        0,
    ];
    assert(be32_at(r@, 2) == be32_at(sec@, 0));
    assert(be16_at(r@, 7) == be16_at(cnt@, 0));
    r
}

/// The fields of a `READ CD` command block can be read back from it:
/// each flag from its bit, the C2 and sub-channel codes from their
/// fields, and the sector type and DAP bit from byte 1.
pub proof fn lemma_read_cd_cdb_decodes(options: ReadCdOptions)
    ensures
        (read_cd_byte9(options) & 0x80 != 0) == options.include_sync,
        (read_cd_byte9(options) & 0x40 != 0) == options.include_subheader,
        (read_cd_byte9(options) & 0x20 != 0) == options.include_header,
        (read_cd_byte9(options) & 0x10 != 0) == options.include_user_data,
        (read_cd_byte9(options) & 0x08 != 0) == options.include_ecc,
        (read_cd_byte9(options) >> 1) & 0b11 == match options.include_c2_error {
            None => 0u8,
            Some(c) => c.spec_code(),
        },
        read_cd_byte10(options) & 0b111 == read_cd_byte10(options),
        (read_cd_byte1(options) >> 2) & 0b111 == match options.expected_sector_type {
            None => 0u8,
            Some(s) => s.spec_discriminant(),
        },
        (read_cd_byte1(options) & 0x02 != 0) == (options.expected_sector_type == Some(
            SectorOption::Cdda { dap: true },
        )),
{
    let s = options.include_sync;
    let sh = options.include_subheader;
    let h = options.include_header;
    let u = options.include_user_data;
    let e = options.include_ecc;
    let c: u8 = match options.include_c2_error {
        None => 0,
        Some(x) => x.spec_code(),
    };
    let b9 = read_cd_byte9(options);
    assert(b9 == ((if s { 0x80u8 } else { 0u8 }) + (if sh { 0x40u8 } else { 0u8 }) + (if h {
        0x20u8
    } else {
        0u8
    }) + (if u { 0x10u8 } else { 0u8 }) + (if e { 0x08u8 } else { 0u8 }) + c * 2) as u8);
    assert({
        let b = ((if s { 0x80u8 } else { 0u8 }) + (if sh { 0x40u8 } else { 0u8 }) + (if h {
            0x20u8
        } else {
            0u8
        }) + (if u { 0x10u8 } else { 0u8 }) + (if e { 0x08u8 } else { 0u8 }) + c * 2) as u8;
        &&& (b & 0x80 != 0) == s
        &&& (b & 0x40 != 0) == sh
        &&& (b & 0x20 != 0) == h
        &&& (b & 0x10 != 0) == u
        &&& (b & 0x08 != 0) == e
        &&& (b >> 1) & 0b11 == c
    }) by (bit_vector)
        requires
            c <= 2,
    ;
    let sub = read_cd_byte10(options);
    assert(sub <= 4 ==> sub & 0b111 == sub) by (bit_vector);
    match options.expected_sector_type {
        None => {
            assert((0u8 >> 2) & 0b111 == 0 && 0u8 & 0x02 == 0) by (bit_vector);
        },
        Some(t) => {
            let d: u8 = t.spec_discriminant();
            let dap: bool = t == (SectorOption::Cdda { dap: true });
            assert(d <= 5 ==> {
                let b = ((if dap { 2u8 } else { 0u8 }) + d * 4) as u8;
                &&& (b >> 2) & 0b111 == d
                &&& (b & 0x02 != 0) == dap
            }) by (bit_vector);
        },
    }
}

/// error from a `READ CD` command
#[derive(Clone, Debug, PartialEq, Eq)]
pub struct MmcReadCdError {
    pub source: MmcError,
}

impl From<MmcError> for MmcReadCdError {
    fn from(source: MmcError) -> (r: MmcReadCdError) {
        MmcReadCdError { source }
    }
}

impl vstd::std_specs::convert::FromSpecImpl<MmcError> for MmcReadCdError {
    open spec fn obeys_from_spec() -> bool {
        true
    }

    open spec fn from_spec(source: MmcError) -> MmcReadCdError {
        MmcReadCdError { source }
    }
}

} // verus!
