//! Routines based on MMC `INQUIRY`.
//! This command is described in SPC-3.

use vstd::prelude::*;
use vstd::string::*;

use crate::bytes::u16_to_be;
use crate::mmc::{Cdb, MmcCommand, MmcError};
use crate::report::text::{decimal_chars, decimal_text};
use crate::text::{padded_field_text, trim_chars, utf8_lossy_decoded};

verus! {

/// Allocation length of a standard `INQUIRY`.
pub const INQUIRY_ALLOC_LEN: usize = 255;

/// The kind of inquiry data requested.
#[derive(Clone, Copy, Debug, PartialEq, Eq)]
pub enum InquiryKind {
    Standard,
    VitalProductData { page_code: u8 },
}

/// The command block of `INQUIRY`: the EVPD bit and page code for vital
/// product data, and the allocation length in bytes 3 and 4.
pub fn inquiry_cdb(kind: InquiryKind, alloc_len: u16) -> (r: Cdb)
    ensures
        r@ == seq![
            MmcCommand::Inquiry.spec_opcode(),
            if kind is VitalProductData { 1u8 } else { 0u8 },
            match kind {
                InquiryKind::VitalProductData { page_code } => page_code,
                InquiryKind::Standard => 0u8,
            },
            (alloc_len / 0x100) as u8,
            (alloc_len % 0x100) as u8,
            0u8,
            0u8,
            0u8,
            0u8,
            0u8,
            0u8,
            0u8,
        ],
{
    let (evpd, page): (u8, u8) = match kind {
        InquiryKind::VitalProductData { page_code } => (1, page_code),
        InquiryKind::Standard => (0, 0),
    };
    let len = u16_to_be(alloc_len);
    let r = [MmcCommand::Inquiry.opcode(), evpd, page, len[0], len[1], 0, 0, 0, 0, 0, 0, 0];
    assert(r@ =~= seq![
        MmcCommand::Inquiry.spec_opcode(),
        if kind is VitalProductData { 1u8 } else { 0u8 },
        match kind {
            InquiryKind::VitalProductData { page_code } => page_code,
            InquiryKind::Standard => 0u8,
        },
        (alloc_len / 0x100) as u8,
        (alloc_len % 0x100) as u8,
        0u8,
        0u8,
        0u8,
        0u8,
        0u8,
        0u8,
        0u8,
    ]);
    r
}

/// Basic hardware identifiers
#[derive(Clone, Debug, Default, Eq, Hash, Ord, PartialEq, PartialOrd)]
pub struct HardwareIdentifiers {
    pub product: String,
    pub vendor: String,
    pub revision: String,
}

/// error from an `INQUIRY` command.
#[derive(Clone, Debug, PartialEq, Eq)]
pub enum MmcInquiryError {
    /// operating system returned an error
    Os(MmcError),
    /// invalid response from mmc command: {0}
    InvalidResponse(String),
}

impl From<MmcError> for MmcInquiryError {
    fn from(err: MmcError) -> (r: MmcInquiryError) {
        MmcInquiryError::Os(err)
    }
}

impl vstd::std_specs::convert::FromSpecImpl<MmcError> for MmcInquiryError {
    open spec fn obeys_from_spec() -> bool {
        true
    }

    open spec fn from_spec(err: MmcError) -> MmcInquiryError {
        MmcInquiryError::Os(err)
    }
}

/// could not get hardware identifiers
#[derive(Clone, Debug, PartialEq, Eq)]
pub struct GetHardwareIdentifiersError {
    pub source: MmcInquiryError,
}

impl From<MmcInquiryError> for GetHardwareIdentifiersError {
    fn from(source: MmcInquiryError) -> (r: GetHardwareIdentifiersError) {
        GetHardwareIdentifiersError { source }
    }
}

impl vstd::std_specs::convert::FromSpecImpl<MmcInquiryError> for GetHardwareIdentifiersError {
    open spec fn obeys_from_spec() -> bool {
        true
    }

    open spec fn from_spec(source: MmcInquiryError) -> GetHardwareIdentifiersError {
        GetHardwareIdentifiersError { source }
    }
}

/// Response data format of standard inquiry data that MMC devices use.
pub const RESPONSE_DATA_FMT_MMC: u8 = 2;

/// The identifier text of the bytes `data[start..end]`: decoded
/// leniently, without surrounding white space.
pub open spec fn inquiry_field(data: Seq<u8>, start: int, end: int) -> Seq<char> {
    trim_chars(utf8_lossy_decoded(data.subrange(start, end)))
}

/// The message of inquiry data in response data format `format`, which is
/// not the one MMC devices use.
pub open spec fn unsupported_format_message(format: u8) -> Seq<char> {
    "unsupported non-standard INQUIRY response format, got response data format of "@
        + decimal_chars(format as nat)
}

/// Get the hardware identifiers (Product, Vendor and Revision) from
/// standard inquiry data: vendor in bytes 8 to 15, product in 16 to 31,
/// revision in 32 to 35. Data in another format than the one MMC devices
/// use is an error.
pub fn hardware_identifiers_from(buf: &[u8]) -> (r: Result<HardwareIdentifiers, GetHardwareIdentifiersError>)
    requires
        buf@.len() >= 36,
    ensures
        (buf@[3] & 0x0F != RESPONSE_DATA_FMT_MMC) ==> (r matches Err(
            GetHardwareIdentifiersError { source: MmcInquiryError::InvalidResponse(msg) },
        ) && msg@ == unsupported_format_message(buf@[3] & 0x0F)),
        (buf@[3] & 0x0F == RESPONSE_DATA_FMT_MMC) ==> (match r {
            Ok(ids) => {
                &&& ids.vendor@ == inquiry_field(buf@, 8, 16)
                &&& ids.product@ == inquiry_field(buf@, 16, 32)
                &&& ids.revision@ == inquiry_field(buf@, 32, 36)
            },
            Err(_) => false,
        }),
{
    let b3 = buf[3];
    let response_data_format = b3 & 0b1111;
    if response_data_format != RESPONSE_DATA_FMT_MMC {
        let mut msg = String::from_str(
            "unsupported non-standard INQUIRY response format, got response data format of ",
        );
        msg.append(decimal_text(response_data_format as u64).as_str());
        return Err(GetHardwareIdentifiersError { source: MmcInquiryError::InvalidResponse(msg) });
    }
    let vendor = padded_field_text(&buf[8..16]);
    let product = padded_field_text(&buf[16..32]);
    let revision = padded_field_text(&buf[32..36]);
    Ok(HardwareIdentifiers { product, vendor, revision })
}

/// Peripheral device type of CD/DVD devices.
pub const PERIPHERAL_DEVICE_TYPE_CD_DVD: u8 = 0x05;

/// Does the device support MMC.
///
/// Per SCSI, a device that responds to an SPC `INQUIRY` with a
/// `Peripheral device type` of `CD/DVD device` is expected
/// to implement MMC.
pub fn is_mmc_device_from(buf: &[u8]) -> (r: bool)
    requires
        buf@.len() >= 1,
    ensures
        r == (buf@[0] & 0b11111 == PERIPHERAL_DEVICE_TYPE_CD_DVD),
{
    buf[0] & 0b11111 == PERIPHERAL_DEVICE_TYPE_CD_DVD
}

} // verus!
