//! SCSI MMC (MultiMedia Commands): command descriptor blocks, and the
//! decoding of what a drive answers.
//! Commands follow MMC-6 rev.2g and SPC-3 rev.23.

pub mod get_config;
pub mod get_event_status;
pub mod inquiry;
pub mod read_subchannel;
pub mod read_disc_info;
pub mod prevent_allow_medium_removal;
pub mod read_cd;
pub mod read_toc;
pub mod set_cd_speed;
pub mod start_stop_unit;
pub mod test_unit_ready;

use vstd::prelude::*;

use crate::report::text::{decimal_chars, decimal_text};

verus! {

/// The message of a part of a response that does not decode, named by
/// `label`.
pub open spec fn invalid_message(label: Seq<char>) -> Seq<char> {
    "invalid "@ + label
}

/// The text of [`invalid_message`].
pub fn invalid_text(label: &str) -> (r: String)
    ensures
        r@ == invalid_message(label@),
{
    let mut r = String::from_str("invalid ");
    r.append(label);
    r
}

/// The message of a code `v` that names no value of the enumeration
/// `name`.
pub open spec fn no_discriminant_message(name: Seq<char>, v: nat) -> Seq<char> {
    "No discriminant in enum `"@ + name + "` matches the value `"@ + decimal_chars(v) + "`"@
}

/// The text of [`no_discriminant_message`].
pub fn no_discriminant_text(name: &str, v: u64) -> (r: String)
    ensures
        r@ == no_discriminant_message(name@, v as nat),
{
    let mut r = String::from_str("No discriminant in enum `");
    r.append(name);
    r.append("` matches the value `");
    let digits = decimal_text(v);
    r.append(digits.as_str());
    r.append("`");
    r
}

/// A 12-byte SCSI command descriptor block.
pub type Cdb = [u8; 12];

/// Track number that stands for the lead-out, the end of the disc.
pub const LEADOUT_TRACK: u8 = 0xAA;

/// Implemented MMC commands.
#[derive(Clone, Copy, Debug, PartialEq, Eq)]
pub enum MmcCommand {
    GetConfiguration,
    Inquiry,
    PreventAllowMediumRemoval,
    ReadCd,
    ReadDiscInfo,
    ReadToc,
    SetCdSpeed,
    StartStopUnit,
    TestUnitReady,
}

impl MmcCommand {
    /// Operation code of the command.
    pub open spec fn spec_opcode(self) -> u8 {
        match self {
            MmcCommand::GetConfiguration => 0x46,
            MmcCommand::Inquiry => 0x12,
            MmcCommand::PreventAllowMediumRemoval => 0x1E,
            MmcCommand::ReadCd => 0xBE,
            MmcCommand::ReadDiscInfo => 0x51,
            MmcCommand::ReadToc => 0x43,
            MmcCommand::SetCdSpeed => 0xBB,
            MmcCommand::StartStopUnit => 0x1B,
            MmcCommand::TestUnitReady => 0x00,
        }
    }

    /// Operation code of the command.
    #[verifier::when_used_as_spec(spec_opcode)]
    pub fn opcode(self) -> (r: u8)
        ensures
            r == self.spec_opcode(),
    {
        match self {
            MmcCommand::GetConfiguration => 0x46,
            MmcCommand::Inquiry => 0x12,
            MmcCommand::PreventAllowMediumRemoval => 0x1E,
            MmcCommand::ReadCd => 0xBE,
            MmcCommand::ReadDiscInfo => 0x51,
            MmcCommand::ReadToc => 0x43,
            MmcCommand::SetCdSpeed => 0xBB,
            MmcCommand::StartStopUnit => 0x1B,
            MmcCommand::TestUnitReady => 0x00,
        }
    }
}

/// Direction of MMC data transfer.
#[derive(Clone, Copy, Debug, Default, PartialEq, Eq, Hash)]
pub enum MmcDirection {
    #[default]
    Read,
    Write,
}

/// The transfer direction code handed to the platform layer: read 0,
/// write 1, and 2 for a command that transfers no data.
pub fn direction_code(direction: Option<MmcDirection>) -> (r: u32)
    ensures
        r == match direction {
            Some(MmcDirection::Read) => 0u32,
            Some(MmcDirection::Write) => 1u32,
            None => 2u32,
        },
{
    match direction {
        Some(MmcDirection::Read) => 0,
        Some(MmcDirection::Write) => 1,
        None => 2,
    }
}

/// Represents the MMC Level.
#[non_exhaustive]
#[derive(Clone, Copy, Debug, Default, Eq, Hash, PartialEq)]
pub enum MmcLevel {
    /// Unknown
    #[default]
    Unknown,
    /// MMC-1
    Mmc1,
    /// MMC-2
    Mmc2,
    /// MMC-3
    Mmc3,
}

impl MmcLevel {
    /// The level that the platform reports with `raw`: 0 for an unknown
    /// level, 1 to 3 for MMC-1 to MMC-3, and 4 when the drive has no MMC
    /// at all, which is an error.
    pub fn from_raw(raw: u32) -> (r: Result<MmcLevel, MmcOperationError>)
        requires
            raw <= 4,
        ensures
            raw == 4 <==> r is Err,
            raw == 0 ==> r == Ok::<MmcLevel, MmcOperationError>(MmcLevel::Unknown),
            raw == 1 ==> r == Ok::<MmcLevel, MmcOperationError>(MmcLevel::Mmc1),
            raw == 2 ==> r == Ok::<MmcLevel, MmcOperationError>(MmcLevel::Mmc2),
            raw == 3 ==> r == Ok::<MmcLevel, MmcOperationError>(MmcLevel::Mmc3),
    {
        if raw == 0 {
            Ok(MmcLevel::Unknown)
        } else if raw == 1 {
            Ok(MmcLevel::Mmc1)
        } else if raw == 2 {
            Ok(MmcLevel::Mmc2)
        } else if raw == 3 {
            Ok(MmcLevel::Mmc3)
        } else {
            Err(MmcOperationError)
        }
    }
}

/// could not find any devices that support MMC
#[non_exhaustive]
#[derive(Clone, Copy, Debug, PartialEq, Eq)]
pub struct MmcNotFoundError;

/// could not perform operation on the MMC device
#[non_exhaustive]
#[derive(Clone, Copy, Debug, PartialEq, Eq)]
pub struct MmcOperationError;

/// Sense Key (SK): generic information describing an exception.
#[derive(Clone, Copy, Debug, Eq, Hash, Ord, PartialEq, PartialOrd)]
pub enum SenseKey {
    /// No sense condition.
    NoSense,
    /// The command completed successfully, but some recovery action was taken.
    RecoveredError,
    /// The logical unit is not ready to receive the command.
    NotReady,
    /// The medium (disk/tape) is defective or the data is unreadable.
    MediumError,
    /// A non-recoverable hardware failure occurred.
    HardwareError,
    /// An invalid field in the CDB or an unsupported command was sent.
    IllegalRequest,
    /// The device has a condition that needs the host's attention
    /// (e.g., medium changed).
    UnitAttention,
    /// A command that reads or writes the medium was attempted on a protected
    /// block.
    DataProtect,
    /// A write-once or sequential-access device encountered blank medium or
    /// format-defined end-of-data indication while reading or writing.
    BlankCheck,
    /// Vendor specific conditions.
    VendorSpecific,
    /// An `EXTENDED COPY` command was aborted due to an error condition on
    /// either the source or destination device.
    CopyAborted,
    /// The device server aborted the command.
    AbortedCommand,
    /// A buffered SCSI device has reached end-of-partition.
    VolumeOverflow,
    /// The source data did not match the data read from the medium.
    Miscompare,
    /// Unknown sense key.
    Unknown(u8),
}

/// The sense key that code `v` stands for.
pub open spec fn sense_key_of(v: u8) -> SenseKey {
    if v == 0x0 {
        SenseKey::NoSense
    } else if v == 0x1 {
        SenseKey::RecoveredError
    } else if v == 0x2 {
        SenseKey::NotReady
    } else if v == 0x3 {
        SenseKey::MediumError
    } else if v == 0x4 {
        SenseKey::HardwareError
    } else if v == 0x5 {
        SenseKey::IllegalRequest
    } else if v == 0x6 {
        SenseKey::UnitAttention
    } else if v == 0x7 {
        SenseKey::DataProtect
    } else if v == 0x8 {
        SenseKey::BlankCheck
    } else if v == 0x9 {
        SenseKey::VendorSpecific
    } else if v == 0xA {
        SenseKey::CopyAborted
    } else if v == 0xB {
        SenseKey::AbortedCommand
    } else if v == 0xD {
        SenseKey::VolumeOverflow
    } else if v == 0xE {
        SenseKey::Miscompare
    } else {
        SenseKey::Unknown(v)
    }
}

impl SenseKey {
    /// The code of the sense key.
    pub open spec fn spec_code(self) -> u8 {
        match self {
            SenseKey::NoSense => 0x0,
            SenseKey::RecoveredError => 0x1,
            SenseKey::NotReady => 0x2,
            SenseKey::MediumError => 0x3,
            SenseKey::HardwareError => 0x4,
            SenseKey::IllegalRequest => 0x5,
            SenseKey::UnitAttention => 0x6,
            SenseKey::DataProtect => 0x7,
            SenseKey::BlankCheck => 0x8,
            SenseKey::VendorSpecific => 0x9,
            SenseKey::CopyAborted => 0xA,
            SenseKey::AbortedCommand => 0xB,
            SenseKey::VolumeOverflow => 0xD,
            SenseKey::Miscompare => 0xE,
            SenseKey::Unknown(v) => v,
        }
    }

    /// The code of the sense key.
    #[verifier::when_used_as_spec(spec_code)]
    pub fn code(self) -> (r: u8)
        ensures
            r == self.spec_code(),
    {
        match self {
            SenseKey::NoSense => 0x0,
            SenseKey::RecoveredError => 0x1,
            SenseKey::NotReady => 0x2,
            SenseKey::MediumError => 0x3,
            SenseKey::HardwareError => 0x4,
            SenseKey::IllegalRequest => 0x5,
            SenseKey::UnitAttention => 0x6,
            SenseKey::DataProtect => 0x7,
            SenseKey::BlankCheck => 0x8,
            SenseKey::VendorSpecific => 0x9,
            SenseKey::CopyAborted => 0xA,
            SenseKey::AbortedCommand => 0xB,
            SenseKey::VolumeOverflow => 0xD,
            SenseKey::Miscompare => 0xE,
            SenseKey::Unknown(v) => v,
        }
    }
}

impl From<u8> for SenseKey {
    fn from(v: u8) -> (r: SenseKey) {
        if v == 0x0 {
            SenseKey::NoSense
        } else if v == 0x1 {
            SenseKey::RecoveredError
        } else if v == 0x2 {
            SenseKey::NotReady
        } else if v == 0x3 {
            SenseKey::MediumError
        } else if v == 0x4 {
            SenseKey::HardwareError
        } else if v == 0x5 {
            SenseKey::IllegalRequest
        } else if v == 0x6 {
            SenseKey::UnitAttention
        } else if v == 0x7 {
            SenseKey::DataProtect
        } else if v == 0x8 {
            SenseKey::BlankCheck
        } else if v == 0x9 {
            SenseKey::VendorSpecific
        } else if v == 0xA {
            SenseKey::CopyAborted
        } else if v == 0xB {
            SenseKey::AbortedCommand
        } else if v == 0xD {
            SenseKey::VolumeOverflow
        } else if v == 0xE {
            SenseKey::Miscompare
        } else {
            SenseKey::Unknown(v)
        }
    }
}

impl vstd::std_specs::convert::FromSpecImpl<u8> for SenseKey {
    open spec fn obeys_from_spec() -> bool {
        true
    }

    open spec fn from_spec(v: u8) -> SenseKey {
        sense_key_of(v)
    }
}

impl Default for SenseKey {
    fn default() -> (r: SenseKey)
        ensures
            r == SenseKey::NoSense,
    {
        SenseKey::NoSense
    }
}

/// Decoding a code and reading the key's code back gives the code again:
/// no two codes decode to the same key.
pub proof fn lemma_sense_key_code_roundtrip(v: u8)
    ensures
        sense_key_of(v).spec_code() == v,
{
}

/// Error and status information returned by an MMC device.
///
/// Source:
/// SPC-3 > General Concepts > Sense data > Fixed format sense data.
#[derive(Clone, Debug, Eq, Hash, Ord, PartialEq, PartialOrd)]
pub struct MmcSenseData {
    /// Sense Key (SK) represents generic information describing an exception.
    pub sense_key: SenseKey,
    /// Additional Sense Code (ASC) indicates further information related
    /// to the exception reported by `sense_key`.
    pub asc: u8,
    /// Additional Sense Code Qualifier (ASCQ) indicates detailed information related
    /// to the `additional_sense_code`.
    pub ascq: u8,
    /// Incorrect Length Indicator.
    pub ili: bool,
    /// Command Specific Information indicates info that depends on the command
    /// on which the exception occured.
    pub csi: [u8; 4],
    /// Field Replaceable Unit Code identifies a component that has failed.
    pub fruc: u8,
    /// Sense Key Specific indicates additional information about the exception.
    pub sks: [u8; 3],
    /// Additional Sense Bytes may contain vendor specific data that further
    /// define the exception.
    pub asb: [u8; 46],
}

/// Size of a fixed format sense data buffer.
pub const SENSE_DATA_SIZE: usize = 64;

impl Default for MmcSenseData {
    fn default() -> (r: MmcSenseData)
        ensures
            r.sense_key == SenseKey::NoSense,
            r.asc == 0,
            r.ascq == 0,
            !r.ili,
            r.csi@ == seq![0u8, 0, 0, 0],
            r.fruc == 0,
            r.sks@ == seq![0u8, 0, 0],
            forall|i: int| 0 <= i < 46 ==> r.asb@[i] == 0,
    {
        let r = MmcSenseData {
            sense_key: SenseKey::NoSense,
            asc: 0,
            ascq: 0,
            ili: false,
            csi: [0u8; 4],
            fruc: 0,
            sks: [0u8; 3],
            asb: [0u8; 46],
        };
        assert(r.csi@ =~= seq![0u8, 0, 0, 0]);
        assert(r.sks@ =~= seq![0u8, 0, 0]);
        r
    }
}

impl MmcSenseData {
    /// Decodes fixed format sense data: the sense key in the low nibble of
    /// byte 2, the incorrect length indicator in its bit 5, the command
    /// specific information in bytes 8 to 11, ASC and ASCQ in bytes 12
    /// and 13, the FRU code in byte 14, the sense key specific bytes 15 to
    /// 17 and the additional sense bytes 18 to 63.
    pub fn from_fixed_format(raw: &[u8]) -> (r: MmcSenseData)
        requires
            raw@.len() >= SENSE_DATA_SIZE,
        ensures
            r.sense_key == sense_key_of(raw@[2] & 0x0F),
            r.ili == (raw@[2] & 0x20 != 0),
            r.csi@ == raw@.subrange(8, 12),
            r.asc == raw@[12],
            r.ascq == raw@[13],
            r.fruc == raw@[14],
            r.sks@ == raw@.subrange(15, 18),
            r.asb@ == raw@.subrange(18, 64),
    {
        let mut asb = [0u8; 46];
        let mut i: usize = 0;
        while i < 46
            invariant
                i <= 46,
                raw@.len() >= SENSE_DATA_SIZE,
                asb@.len() == 46,
                forall|k: int| 0 <= k < i ==> asb@[k] == raw@[18 + k],
            decreases 46 - i,
        {
            asb[i] = raw[18 + i];
            i = i + 1;
        }
        let csi = [raw[8], raw[9], raw[10], raw[11]];
        let sks = [raw[15], raw[16], raw[17]];
        let r = MmcSenseData {
            sense_key: SenseKey::from(raw[2] & 0x0F),
            asc: raw[12],
            ascq: raw[13],
            ili: raw[2] & 0x20 != 0,
            csi,
            fruc: raw[14],
            sks,
            asb,
        };
        assert(r.csi@ =~= raw@.subrange(8, 12));
        assert(r.sks@ =~= raw@.subrange(15, 18));
        assert(r.asb@ =~= raw@.subrange(18, 64));
        r
    }
}

/// operating system error
#[non_exhaustive]
#[derive(Clone, Copy, Debug, PartialEq, Eq)]
pub enum OsError {
    /// other error: {0}
    Other(i32),
    /// unsupported operation
    Unsupported,
    /// operation not permitted
    OperationNotPermitted,
    /// bad parameter
    BadParameter,
}

/// The operating system error that driver return code `ret` stands for.
pub open spec fn os_error_of(ret: i32) -> OsError {
    if ret == -2 {
        OsError::Unsupported
    } else if ret == -4 {
        OsError::OperationNotPermitted
    } else if ret == -5 {
        OsError::BadParameter
    } else {
        OsError::Other(ret)
    }
}

impl OsError {
    /// The error for driver return code `ret`.
    pub fn from_code(ret: i32) -> (r: OsError)
        ensures
            r == os_error_of(ret),
    {
        if ret == -2 {
            OsError::Unsupported
        } else if ret == -4 {
            OsError::OperationNotPermitted
        } else if ret == -5 {
            OsError::BadParameter
        } else {
            OsError::Other(ret)
        }
    }
}

/// error performing MMC command
#[non_exhaustive]
#[derive(Clone, Debug, PartialEq, Eq)]
pub enum MmcError {
    /// terminated with `CHECK CONDITION`
    CheckCondition(MmcSenseData),
    /// operating system error
    Os(OsError),
}

/// What a command came to, given the platform's return code and, where
/// the code is -1, the sense data that the device reported.
pub open spec fn spec_command_outcome(ret: i32, sense: Option<MmcSenseData>) -> Result<(), MmcError> {
    if ret >= 0 {
        Ok(())
    } else if ret == -1 && sense is Some {
        Err(MmcError::CheckCondition(sense->0))
    } else {
        Err(MmcError::Os(os_error_of(ret)))
    }
}

/// Decides the result of a command: success for a non-negative return
/// code, `CHECK CONDITION` for -1 when sense data is available, and an
/// operating system error otherwise.
pub fn command_outcome(ret: i32, sense: Option<MmcSenseData>) -> (r: Result<(), MmcError>)
    ensures
        r == spec_command_outcome(ret, sense),
{
    if ret >= 0 {
        Ok(())
    } else if ret == -1 && sense.is_some() {
        match sense {
            Some(s) => Err(MmcError::CheckCondition(s)),
            None => Err(MmcError::Os(OsError::from_code(ret))),
        }
    } else {
        Err(MmcError::Os(OsError::from_code(ret)))
    }
}

} // verus!
