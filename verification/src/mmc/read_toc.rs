//! Routines based on MMC `READ TOC/PMA/ATIP`: the command block, the
//! follow-up decision when a reply does not fit, and the decoding of
//! CD-TEXT, disc type and last sector.

use vstd::prelude::*;

use crate::bytes::{be16_at, be32_at, read_u16, read_u32, u16_to_be};
use crate::mmc::read_subchannel::AddressFormat;
use crate::mmc::{
    invalid_message, invalid_text, no_discriminant_message, no_discriminant_text, Cdb, MmcCommand,
    MmcError, LEADOUT_TRACK,
};

verus! {

/// Size of the buffer of a first `READ TOC/PMA/ATIP`.
pub const TOC_DEFAULT_BUFFER_SIZE: usize = 64;

/// Size of the response header.
pub const TOC_HEADER_SIZE: usize = 4;

/// The response format requested from `READ TOC/PMA/ATIP`.
#[derive(Clone, Copy, Debug, PartialEq, Eq)]
pub enum ResponseFormat {
    Toc { address_format: AddressFormat, track_number: u8 },
    SessionInfo { address_format: AddressFormat },
    FullToc { session_number: u8 },
    Pma,
    Atip,
    Cdtext,
}

impl ResponseFormat {
    /// The format code.
    pub open spec fn spec_discriminant(&self) -> u8 {
        match self {
            ResponseFormat::Toc { .. } => 0b0000,
            ResponseFormat::SessionInfo { .. } => 0b0001,
            ResponseFormat::FullToc { .. } => 0b0010,
            ResponseFormat::Pma => 0b0011,
            ResponseFormat::Atip => 0b0100,
            ResponseFormat::Cdtext => 0b0101,
        }
    }

    /// The format code.
    #[verifier::when_used_as_spec(spec_discriminant)]
    pub fn discriminant(&self) -> (r: u8)
        ensures
            r == self.spec_discriminant(),
    {
        match self {
            ResponseFormat::Toc { .. } => 0b0000,
            ResponseFormat::SessionInfo { .. } => 0b0001,
            ResponseFormat::FullToc { .. } => 0b0010,
            ResponseFormat::Pma => 0b0011,
            ResponseFormat::Atip => 0b0100,
            ResponseFormat::Cdtext => 0b0101,
        }
    }

    /// Whether addresses are requested in time units.
    pub open spec fn spec_uses_time(&self) -> bool {
        match self {
            ResponseFormat::Toc { address_format, .. } => *address_format == AddressFormat::Time,
            ResponseFormat::SessionInfo { address_format } => *address_format == AddressFormat::Time,
            _ => false,
        }
    }

    /// The track or session number that byte 6 carries.
    pub open spec fn spec_number(&self) -> u8 {
        match self {
            ResponseFormat::Toc { track_number, .. } => *track_number,
            ResponseFormat::FullToc { session_number } => *session_number,
            _ => 0,
        }
    }
}

/// The command block of `READ TOC/PMA/ATIP` for `format` with a buffer of
/// `alloc_len` bytes: the time bit, the format code, the track or session
/// number and the allocation length, which keeps the low 16 bits of
/// `alloc_len`.
#[verifier::spinoff_prover]
pub fn read_toc_cdb(format: ResponseFormat, alloc_len: usize) -> (r: Cdb)
    ensures
        r@ == seq![
            MmcCommand::ReadToc.spec_opcode(),
            if format.spec_uses_time() { 0x02u8 } else { 0u8 },
            format.spec_discriminant(),
            0u8,
            0u8,
            0u8,
            format.spec_number(),
            ((alloc_len % 0x10000) / 0x100) as u8,
            (alloc_len % 0x100) as u8,
            0u8,
            0u8,
            0u8,
        ],
{
    let time: u8 = match format {
        ResponseFormat::Toc { address_format: AddressFormat::Time, .. } => 0x02,
        ResponseFormat::SessionInfo { address_format: AddressFormat::Time } => 0x02,
        _ => 0,
    };
    let num: u8 = match format {
        ResponseFormat::Toc { track_number, .. } => track_number,
        ResponseFormat::FullToc { session_number } => session_number,
        _ => 0,
    };
    let len16 = (alloc_len % 0x10000) as u16;
    let len = u16_to_be(len16);
    let r = [MmcCommand::ReadToc.opcode(), time, format.discriminant(), 0, 0, 0, num, len[0], len[1], 0, 0, 0];
    assert(r@ =~= seq![
        MmcCommand::ReadToc.spec_opcode(),
        if format.spec_uses_time() { 0x02u8 } else { 0u8 },
        format.spec_discriminant(),
        0u8,
        0u8,
        0u8,
        format.spec_number(),
        ((alloc_len % 0x10000) / 0x100) as u8,
        (alloc_len % 0x100) as u8,
        0u8,
        0u8,
        0u8,
    ]);
    r
}

/// The size that the whole response takes, as its first two bytes
/// announce, plus four.
pub open spec fn toc_response_size(buf: Seq<u8>) -> int {
    be16_at(buf, 0) as int + TOC_HEADER_SIZE as int
}

/// After a first `READ TOC/PMA/ATIP`: the buffer size to repeat the
/// command with when the response does not fit the buffer, or `None`
/// when it does.
pub fn toc_required_size(buf: &[u8]) -> (r: Option<usize>)
    requires
        buf@.len() >= 2,
    ensures
        toc_response_size(buf@) > buf@.len() ==> r == Some(toc_response_size(buf@) as usize),
        toc_response_size(buf@) <= buf@.len() ==> r is None,
{
    let descriptor_length = read_u16(buf);
    let data_size = descriptor_length as usize + TOC_HEADER_SIZE;
    if data_size > buf.len() {
        Some(data_size)
    } else {
        None
    }
}

/// error from a `READ TOC/PMA/ATIP` command
#[non_exhaustive]
#[derive(Clone, Debug, PartialEq, Eq)]
pub enum MmcTocError {
    /// operating system returned an error
    Os(MmcError),
    /// invalid response from mmc command: {0}
    InvalidResponse(String),
}

impl From<MmcError> for MmcTocError {
    fn from(err: MmcError) -> (r: MmcTocError) {
        MmcTocError::Os(err)
    }
}

impl vstd::std_specs::convert::FromSpecImpl<MmcError> for MmcTocError {
    open spec fn obeys_from_spec() -> bool {
        true
    }

    open spec fn from_spec(err: MmcError) -> MmcTocError {
        MmcTocError::Os(err)
    }
}

fn invalid_response(label: &str) -> (r: MmcTocError)
    ensures
        toc_invalid(r, invalid_message(label@)),
{
    MmcTocError::InvalidResponse(invalid_text(label))
}

/// The length of the descriptors that the header announces.
pub open spec fn toc_data_len(data: Seq<u8>) -> int {
    be16_at(data, 0) as int
}

/// The header is present and the announced descriptors fit the buffer.
pub open spec fn toc_framed(data: Seq<u8>) -> bool {
    data.len() >= 4 && 4 + toc_data_len(data) <= data.len()
}

/// The descriptors that follow the header.
pub open spec fn toc_descriptors(data: Seq<u8>) -> Seq<u8> {
    data.subrange(4, 4 + toc_data_len(data))
}

/// `e` is the error of an invalid response, with message `msg`.
pub open spec fn toc_invalid(e: MmcTocError, msg: Seq<char>) -> bool {
    e matches MmcTocError::InvalidResponse(m) && m@ == msg
}

/// The message of a response whose header is missing or announces more
/// than the buffer holds.
pub open spec fn toc_header_message() -> Seq<char> {
    invalid_message("READ TOC/PMA/ATIP header"@)
}

/// `r` is what a table of contents query comes to on `data`: a framing
/// error, or else the decoding of the descriptors into `decoded`, an error
/// with message `message` where they do not decode.
pub open spec fn toc_result<T>(
    r: Result<T, MmcTocError>,
    data: Seq<u8>,
    decoded: Option<T>,
    message: Seq<char>,
) -> bool {
    if !toc_framed(data) {
        r matches Err(e) && toc_invalid(e, toc_header_message())
    } else {
        match decoded {
            Some(v) => r == Ok::<T, MmcTocError>(v),
            None => r matches Err(e) && toc_invalid(e, message),
        }
    }
}

/// Parse the header and return the third and fourth byte fields.
pub fn parse_header(data: &[u8]) -> (r: Result<(u8, u8), MmcTocError>)
    ensures
        toc_result(r, data@, Some((data@[2], data@[3])), toc_header_message()),
{
    if data.len() < 4 {
        return Err(invalid_response("READ TOC/PMA/ATIP header"));
    }
    let descriptors_length = read_u16(data) as usize;
    if descriptors_length > data.len() - 4 {
        return Err(invalid_response("READ TOC/PMA/ATIP header"));
    }
    Ok((data[2], data[3]))
}

fn descriptors_of(data: &[u8]) -> (d: &[u8])
    requires
        toc_framed(data@),
    ensures
        d@ == toc_descriptors(data@),
{
    let len = read_u16(data) as usize;
    &data[4..4 + len]
}

/// Get the CD-TEXT from a CD-TEXT response: the bytes after the header.
pub fn cd_text_from(data: &[u8]) -> (r: Result<Vec<u8>, MmcTocError>)
    ensures
        !toc_framed(data@) ==> (r matches Err(e) && toc_invalid(e, toc_header_message())),
        toc_framed(data@) ==> (match r {
            Ok(v) => v@ == toc_descriptors(data@),
            Err(_) => false,
        }),
{
    if let Err(e) = parse_header(data) {
        return Err(e);
    }
    let d = descriptors_of(data);
    Ok(vstd::slice::slice_to_vec(d))
}

/// The type of a CD disc
#[derive(Clone, Copy, Debug, Default, Eq, Hash, Ord, PartialEq, PartialOrd)]
pub enum CdType {
    /// CD-DA or CD Data with first track in Mode 1
    #[default]
    CddaOrCdData,
    /// CD-I
    Cdi,
    /// CD-ROM XA disc with first track in Mode 2
    CdromXa,
}

/// The value of [`CdType`] with code `v`, if there is one.
pub open spec fn cd_type_of(v: u8) -> Option<CdType> {
    if v == 0x00 { Some(CdType::CddaOrCdData) }
    else if v == 0x10 { Some(CdType::Cdi) }
    else if v == 0x20 { Some(CdType::CdromXa) }
    else { None }
}

impl CdType {
    /// The value with code `v`, if there is one.
    pub fn from_code(v: u8) -> (r: Option<CdType>)
        ensures
            r == cd_type_of(v),
    {
        if v == 0x00 { Some(CdType::CddaOrCdData) }
        else if v == 0x10 { Some(CdType::Cdi) }
        else if v == 0x20 { Some(CdType::CdromXa) }
        else { None }
    }

    /// The code of the value.
    pub open spec fn spec_code(self) -> u8 {
        match self {
            CdType::CddaOrCdData => 0x00,
            CdType::Cdi => 0x10,
            CdType::CdromXa => 0x20,
        }
    }

    /// The code of the value.
    #[verifier::when_used_as_spec(spec_code)]
    pub fn code(self) -> (r: u8)
        ensures
            r == self.spec_code(),
    {
        match self {
            CdType::CddaOrCdData => 0x00,
            CdType::Cdi => 0x10,
            CdType::CdromXa => 0x20,
        }
    }
}


/// The raw table of contents descriptor decoded: the disc type in PSEC of
/// the entry with POINT `A0h`. `None` unless the descriptor has 11 bytes,
/// POINT `A0h`, a zero byte, and a known disc type.
pub open spec fn spec_cd_type(d: Seq<u8>) -> Option<CdType> {
    if d.len() >= 11 && d[3] == 0xA0 && d[7] == 0 {
        cd_type_of(d[9])
    } else {
        None
    }
}

/// Why a raw table of contents descriptor gives no disc type: the
/// descriptor is malformed, or its disc type is unknown.
pub open spec fn cd_type_message(d: Seq<u8>) -> Seq<char> {
    if d.len() >= 11 && d[3] == 0xA0 && d[7] == 0 {
        no_discriminant_message("CdType"@, d[9] as nat)
    } else {
        invalid_message("raw toc descriptor"@)
    }
}

/// Get the CD type of the media from a full TOC response.
pub fn cd_type_from(data: &[u8]) -> (r: Result<CdType, MmcTocError>)
    ensures
        toc_result(r, data@, spec_cd_type(toc_descriptors(data@)), cd_type_message(toc_descriptors(data@))),
{
    if let Err(e) = parse_header(data) {
        return Err(e);
    }
    let d = descriptors_of(data);
    // with POINT A0h, PSEC holds the disc type
    if d.len() < 11 || d[3] != 0xA0 || d[7] != 0 {
        return Err(invalid_response("raw toc descriptor"));
    }
    match CdType::from_code(d[9]) {
        Some(t) => Ok(t),
        None => Err(MmcTocError::InvalidResponse(no_discriminant_text("CdType", d[9] as u64))),
    }
}

/// The formatted table of contents descriptor of the lead-out decoded:
/// the last readable sector, one before the lead-out start address (and 0
/// when that address is 0). `None` unless the descriptor has 8 bytes and
/// is that of the lead-out.
pub open spec fn spec_last_sector(d: Seq<u8>) -> Option<u32> {
    if d.len() >= 8 && d[2] == LEADOUT_TRACK {
        let start = be32_at(d, 4);
        Some(if start == 0 { 0u32 } else { (start - 1) as u32 })
    } else {
        None
    }
}

/// Get the last Logical Sector Number (LSN) of the disc from a lead-out
/// TOC response.
pub fn last_sector_from(data: &[u8]) -> (r: Result<u32, MmcTocError>)
    ensures
        toc_result(
            r,
            data@,
            spec_last_sector(toc_descriptors(data@)),
            invalid_message("formatted toc descriptor"@),
        ),
{
    if let Err(e) = parse_header(data) {
        return Err(e);
    }
    let d = descriptors_of(data);
    if d.len() < 8 || d[2] != LEADOUT_TRACK {
        return Err(invalid_response("formatted toc descriptor"));
    }
    let track_start_address = read_u32(&d[4..8]);
    assert(be32_at(d@.subrange(4, 8), 0) == be32_at(d@, 4));
    // This address represents the lead-out (ending) of the disc, reading
    // from the "track_start_address" returns an MMC out of range error,
    // thus the last (readable) sector is one less than this address.
    Ok(track_start_address.saturating_sub(1))
}

/// Every code that names a value of [`CdType`] is that value's code, and
/// every value's code names it.
pub proof fn lemma_cd_type_code_roundtrip(v: u8, k: CdType)
    ensures
        cd_type_of(v) matches Some(x) ==> x.spec_code() == v,
        cd_type_of(k.spec_code()) == Some(k),
{
}

/// The disc type is read from the response: the entry after the four
/// header bytes has POINT `A0h` in byte 7 and a zero in byte 11, and the
/// type is the one whose code is in byte 13, its PSEC field.
pub proof fn lemma_cd_type_fields(data: Seq<u8>, r: Result<CdType, MmcTocError>)
    requires
        toc_result(r, data, spec_cd_type(toc_descriptors(data)), cd_type_message(toc_descriptors(data))),
    ensures
        r matches Ok(t) ==> data[7] == 0xA0 && data[11] == 0 && t.spec_code() == data[13],
{
    if r is Ok {
        let d = toc_descriptors(data);
        assert(d[3] == data[7] && d[7] == data[11] && d[9] == data[13]);
    }
}

/// The last sector is read from the response: the entry after the four
/// header bytes is that of the lead-out (track `AAh` in byte 6), and the
/// last sector is one before the big-endian start address in bytes 8 to 11
/// (0 where that address is 0).
pub proof fn lemma_last_sector_fields(data: Seq<u8>, r: Result<u32, MmcTocError>)
    requires
        toc_result(
            r,
            data,
            spec_last_sector(toc_descriptors(data)),
            invalid_message("formatted toc descriptor"@),
        ),
    ensures
        r matches Ok(n) ==> data[6] == 0xAA && n == (if be32_at(data, 8) == 0 {
            0
        } else {
            be32_at(data, 8) - 1
        }),
{
    if r is Ok {
        let d = toc_descriptors(data);
        assert(d[2] == data[6]);
        assert(be32_at(d, 4) == be32_at(data, 8));
    }
}

} // verus!
