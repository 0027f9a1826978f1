//! SCSI MMC (MultiMedia Commands) GET CONFIGURATION command: the feature
//! descriptors that a drive reports.

use vstd::prelude::*;
use vstd::utf8::{decode_utf8, valid_utf8};

use crate::bytes::{be16_at, be32_at, read_u16, read_u32};
use crate::mmc::MmcOperationError;
use crate::text::decode_utf8_text;

verus! {

/// Size of the buffer that receives the configuration.
pub const CONFIGURATION_BUFFER_SIZE: usize = 4096;

/// Return type code that requests all features.
pub const GET_CONF_RET_TYPE_ZERO: u32 = 0x0;

/// Starting feature number: the profile list, to get all features.
pub const STARTING_FEATURE_NUMBER: u32 = 0;

/// A base set of functions for specific drive/media combination.
#[derive(Clone, Copy, Debug, Default, Eq, Hash, Ord, PartialEq, PartialOrd)]
pub struct MmcProfile {
    /// Profile's current bit is set
    pub active: bool,
    /// Profile type
    pub kind: ProfileKind,
}

/// Represents the complete set of MMC feature profiles for optical disc drives.
/// Each variant corresponds to a specific media type and recording capability.
#[non_exhaustive]
#[derive(Clone, Copy, Debug, Default, Eq, Hash, Ord, PartialEq, PartialOrd)]
pub enum ProfileKind {
    /// Non-removable disk
    NonRemovable,
    /// Removable disk
    Removable,
    /// Magneto-Optical Erasable disk
    MoErasable,
    /// Optical Write-Once
    OpticalWriteOnce,
    /// Advance Storage - Magneto-Optical
    AsMo,
    /// CD-ROM
    CdRom,
    /// CD-R
    CdR,
    /// CD-RW
    CdRw,
    /// DVD-ROM
    DvdRom,
    /// DVD-R Sequential Recording
    DvdRSeqRec,
    /// DVD-RAM
    DvdRam,
    /// DVD-RW Restricted Overwrite
    DvdRwRo,
    /// DVD-RW Sequential Recording
    DvdRwSeqRec,
    /// DVD-R Dual Layer Sequential recording
    DvdRDlSeqRec,
    /// DVD-R Dual Layer Jump Recording
    DvdRDlJmpRec,
    /// DVD-RW Dual Layer
    DvdRwDl,
    /// DVD-Download Disc Recording
    DvdDownDiscRec,
    /// DVD+RW
    DvdPlusRw,
    /// DVD+R
    DvdPlusR,
    /// DDCD-ROM
    DdcdRom,
    /// DDCD-R
    DdcdR,
    /// DDCD-RW
    DdcdRw,
    /// DVD+RW Dual Layer
    DvdPlusRwDl,
    /// DVD+R Double Layer
    DvdPlusRDl,
    /// BD-ROM
    BdRom,
    /// BD-R Sequential Recording Mode
    BdRSeqRec,
    /// BD-R Random Recording Mode
    BdRRandRec,
    /// BD-RE
    BdRw,
    /// HD DVD-ROM
    HdDvdRom,
    /// HD DVD-R
    HdDvdR,
    /// HD DVD-RAM
    HdDvdRam,
    /// HD DVD-RW
    HdDvdRw,
    /// HD DVD-R Dual Layer
    HdDvdRDl,
    /// HD DVD-RW Dual Layer
    HdDvdRwDl,
    /// The Drive does not conform to any Profile
    #[default]
    NonConform,
}

/// The profile kind with profile number `v`, if there is one.
pub open spec fn profile_kind_of(v: u16) -> Option<ProfileKind> {
    if v == 0x0001 { Some(ProfileKind::NonRemovable) }
    else if v == 0x0002 { Some(ProfileKind::Removable) }
    else if v == 0x0003 { Some(ProfileKind::MoErasable) }
    else if v == 0x0004 { Some(ProfileKind::OpticalWriteOnce) }
    else if v == 0x0005 { Some(ProfileKind::AsMo) }
    else if v == 0x0008 { Some(ProfileKind::CdRom) }
    else if v == 0x0009 { Some(ProfileKind::CdR) }
    else if v == 0x000A { Some(ProfileKind::CdRw) }
    else if v == 0x0010 { Some(ProfileKind::DvdRom) }
    else if v == 0x0011 { Some(ProfileKind::DvdRSeqRec) }
    else if v == 0x0012 { Some(ProfileKind::DvdRam) }
    else if v == 0x0013 { Some(ProfileKind::DvdRwRo) }
    else if v == 0x0014 { Some(ProfileKind::DvdRwSeqRec) }
    else if v == 0x0015 { Some(ProfileKind::DvdRDlSeqRec) }
    else if v == 0x0016 { Some(ProfileKind::DvdRDlJmpRec) }
    else if v == 0x0017 { Some(ProfileKind::DvdRwDl) }
    else if v == 0x0018 { Some(ProfileKind::DvdDownDiscRec) }
    else if v == 0x001A { Some(ProfileKind::DvdPlusRw) }
    else if v == 0x001B { Some(ProfileKind::DvdPlusR) }
    else if v == 0x0020 { Some(ProfileKind::DdcdRom) }
    else if v == 0x0021 { Some(ProfileKind::DdcdR) }
    else if v == 0x0022 { Some(ProfileKind::DdcdRw) }
    else if v == 0x002A { Some(ProfileKind::DvdPlusRwDl) }
    else if v == 0x002B { Some(ProfileKind::DvdPlusRDl) }
    else if v == 0x0040 { Some(ProfileKind::BdRom) }
    else if v == 0x0041 { Some(ProfileKind::BdRSeqRec) }
    else if v == 0x0042 { Some(ProfileKind::BdRRandRec) }
    else if v == 0x0043 { Some(ProfileKind::BdRw) }
    else if v == 0x0050 { Some(ProfileKind::HdDvdRom) }
    else if v == 0x0051 { Some(ProfileKind::HdDvdR) }
    else if v == 0x0052 { Some(ProfileKind::HdDvdRam) }
    else if v == 0x0053 { Some(ProfileKind::HdDvdRw) }
    else if v == 0x0058 { Some(ProfileKind::HdDvdRDl) }
    else if v == 0x0059 { Some(ProfileKind::HdDvdRwDl) }
    else if v == 0xFFFF { Some(ProfileKind::NonConform) }
    else { None }
}

impl ProfileKind {
    /// The profile kind with profile number `v`, if there is one.
    pub fn from_code(v: u16) -> (r: Option<ProfileKind>)
        ensures
            r == profile_kind_of(v),
    {
        if v == 0x0001 { Some(ProfileKind::NonRemovable) }
        else if v == 0x0002 { Some(ProfileKind::Removable) }
        else if v == 0x0003 { Some(ProfileKind::MoErasable) }
        else if v == 0x0004 { Some(ProfileKind::OpticalWriteOnce) }
        else if v == 0x0005 { Some(ProfileKind::AsMo) }
        else if v == 0x0008 { Some(ProfileKind::CdRom) }
        else if v == 0x0009 { Some(ProfileKind::CdR) }
        else if v == 0x000A { Some(ProfileKind::CdRw) }
        else if v == 0x0010 { Some(ProfileKind::DvdRom) }
        else if v == 0x0011 { Some(ProfileKind::DvdRSeqRec) }
        else if v == 0x0012 { Some(ProfileKind::DvdRam) }
        else if v == 0x0013 { Some(ProfileKind::DvdRwRo) }
        else if v == 0x0014 { Some(ProfileKind::DvdRwSeqRec) }
        else if v == 0x0015 { Some(ProfileKind::DvdRDlSeqRec) }
        else if v == 0x0016 { Some(ProfileKind::DvdRDlJmpRec) }
        else if v == 0x0017 { Some(ProfileKind::DvdRwDl) }
        else if v == 0x0018 { Some(ProfileKind::DvdDownDiscRec) }
        else if v == 0x001A { Some(ProfileKind::DvdPlusRw) }
        else if v == 0x001B { Some(ProfileKind::DvdPlusR) }
        else if v == 0x0020 { Some(ProfileKind::DdcdRom) }
        else if v == 0x0021 { Some(ProfileKind::DdcdR) }
        else if v == 0x0022 { Some(ProfileKind::DdcdRw) }
        else if v == 0x002A { Some(ProfileKind::DvdPlusRwDl) }
        else if v == 0x002B { Some(ProfileKind::DvdPlusRDl) }
        else if v == 0x0040 { Some(ProfileKind::BdRom) }
        else if v == 0x0041 { Some(ProfileKind::BdRSeqRec) }
        else if v == 0x0042 { Some(ProfileKind::BdRRandRec) }
        else if v == 0x0043 { Some(ProfileKind::BdRw) }
        else if v == 0x0050 { Some(ProfileKind::HdDvdRom) }
        else if v == 0x0051 { Some(ProfileKind::HdDvdR) }
        else if v == 0x0052 { Some(ProfileKind::HdDvdRam) }
        else if v == 0x0053 { Some(ProfileKind::HdDvdRw) }
        else if v == 0x0058 { Some(ProfileKind::HdDvdRDl) }
        else if v == 0x0059 { Some(ProfileKind::HdDvdRwDl) }
        else if v == 0xFFFF { Some(ProfileKind::NonConform) }
        else { None }
    }

    /// The profile number of the kind.
    pub open spec fn spec_code(self) -> u16 {
        match self {
            ProfileKind::NonRemovable => 0x0001,
            ProfileKind::Removable => 0x0002,
            ProfileKind::MoErasable => 0x0003,
            ProfileKind::OpticalWriteOnce => 0x0004,
            ProfileKind::AsMo => 0x0005,
            ProfileKind::CdRom => 0x0008,
            ProfileKind::CdR => 0x0009,
            ProfileKind::CdRw => 0x000A,
            ProfileKind::DvdRom => 0x0010,
            ProfileKind::DvdRSeqRec => 0x0011,
            ProfileKind::DvdRam => 0x0012,
            ProfileKind::DvdRwRo => 0x0013,
            ProfileKind::DvdRwSeqRec => 0x0014,
            ProfileKind::DvdRDlSeqRec => 0x0015,
            ProfileKind::DvdRDlJmpRec => 0x0016,
            ProfileKind::DvdRwDl => 0x0017,
            ProfileKind::DvdDownDiscRec => 0x0018,
            ProfileKind::DvdPlusRw => 0x001A,
            ProfileKind::DvdPlusR => 0x001B,
            ProfileKind::DdcdRom => 0x0020,
            ProfileKind::DdcdR => 0x0021,
            ProfileKind::DdcdRw => 0x0022,
            ProfileKind::DvdPlusRwDl => 0x002A,
            ProfileKind::DvdPlusRDl => 0x002B,
            ProfileKind::BdRom => 0x0040,
            ProfileKind::BdRSeqRec => 0x0041,
            ProfileKind::BdRRandRec => 0x0042,
            ProfileKind::BdRw => 0x0043,
            ProfileKind::HdDvdRom => 0x0050,
            ProfileKind::HdDvdR => 0x0051,
            ProfileKind::HdDvdRam => 0x0052,
            ProfileKind::HdDvdRw => 0x0053,
            ProfileKind::HdDvdRDl => 0x0058,
            ProfileKind::HdDvdRwDl => 0x0059,
            ProfileKind::NonConform => 0xFFFF,
        }
    }

    /// The profile number of the kind.
    #[verifier::when_used_as_spec(spec_code)]
    pub fn code(self) -> (r: u16)
        ensures
            r == self.spec_code(),
    {
        match self {
            ProfileKind::NonRemovable => 0x0001,
            ProfileKind::Removable => 0x0002,
            ProfileKind::MoErasable => 0x0003,
            ProfileKind::OpticalWriteOnce => 0x0004,
            ProfileKind::AsMo => 0x0005,
            ProfileKind::CdRom => 0x0008,
            ProfileKind::CdR => 0x0009,
            ProfileKind::CdRw => 0x000A,
            ProfileKind::DvdRom => 0x0010,
            ProfileKind::DvdRSeqRec => 0x0011,
            ProfileKind::DvdRam => 0x0012,
            ProfileKind::DvdRwRo => 0x0013,
            ProfileKind::DvdRwSeqRec => 0x0014,
            ProfileKind::DvdRDlSeqRec => 0x0015,
            ProfileKind::DvdRDlJmpRec => 0x0016,
            ProfileKind::DvdRwDl => 0x0017,
            ProfileKind::DvdDownDiscRec => 0x0018,
            ProfileKind::DvdPlusRw => 0x001A,
            ProfileKind::DvdPlusR => 0x001B,
            ProfileKind::DdcdRom => 0x0020,
            ProfileKind::DdcdR => 0x0021,
            ProfileKind::DdcdRw => 0x0022,
            ProfileKind::DvdPlusRwDl => 0x002A,
            ProfileKind::DvdPlusRDl => 0x002B,
            ProfileKind::BdRom => 0x0040,
            ProfileKind::BdRSeqRec => 0x0041,
            ProfileKind::BdRRandRec => 0x0042,
            ProfileKind::BdRw => 0x0043,
            ProfileKind::HdDvdRom => 0x0050,
            ProfileKind::HdDvdR => 0x0051,
            ProfileKind::HdDvdRam => 0x0052,
            ProfileKind::HdDvdRw => 0x0053,
            ProfileKind::HdDvdRDl => 0x0058,
            ProfileKind::HdDvdRwDl => 0x0059,
            ProfileKind::NonConform => 0xFFFF,
        }
    }

    /// The display name of the profile kind.
    pub open spec fn spec_name(self) -> &'static str {
        match self {
            ProfileKind::NonRemovable => "Non-removable disk",
            ProfileKind::Removable => "Removable disk",
            ProfileKind::MoErasable => "Magneto-Optical Erasable disk",
            ProfileKind::OpticalWriteOnce => "Optical Write-Once",
            ProfileKind::AsMo => "Advance Storage - Magneto-Optical",
            ProfileKind::CdRom => "CD-ROM",
            ProfileKind::CdR => "CD-R",
            ProfileKind::CdRw => "CD-RW",
            ProfileKind::DvdRom => "DVD-ROM",
            ProfileKind::DvdRSeqRec => "DVD-R Sequential Recording",
            ProfileKind::DvdRam => "DVD-RAM",
            ProfileKind::DvdRwRo => "DVD-RW Restricted Overwrite",
            ProfileKind::DvdRwSeqRec => "DVD-RW Sequential Recording",
            ProfileKind::DvdRDlSeqRec => "DVD-R Dual Layer Sequential recording",
            ProfileKind::DvdRDlJmpRec => "DVD-R Dual Layer Jump Recording",
            ProfileKind::DvdRwDl => "DVD-RW Dual Layer",
            ProfileKind::DvdDownDiscRec => "DVD-Download Disc Recording",
            ProfileKind::DvdPlusRw => "DVD+RW",
            ProfileKind::DvdPlusR => "DVD+R",
            ProfileKind::DdcdRom => "DDCD-ROM",
            ProfileKind::DdcdR => "DDCD-R",
            ProfileKind::DdcdRw => "DDCD-RW",
            ProfileKind::DvdPlusRwDl => "DVD+RW Dual Layer",
            ProfileKind::DvdPlusRDl => "DVD+R Double Layer",
            ProfileKind::BdRom => "BD-ROM",
            ProfileKind::BdRSeqRec => "BD-R Sequential Recording Mode",
            ProfileKind::BdRRandRec => "BD-R Random Recording Mode",
            ProfileKind::BdRw => "BD-RE",
            ProfileKind::HdDvdRom => "HD DVD-ROM",
            ProfileKind::HdDvdR => "HD DVD-R",
            ProfileKind::HdDvdRam => "HD DVD-RAM",
            ProfileKind::HdDvdRw => "HD DVD-RW",
            ProfileKind::HdDvdRDl => "HD DVD-R Dual Layer",
            ProfileKind::HdDvdRwDl => "HD DVD-RW Dual Layer",
            ProfileKind::NonConform => "The Drive does not conform to any Profile",
        }
    }

    /// The display name of the profile kind.
    pub fn name(self) -> (r: &'static str)
        ensures
            r == self.spec_name(),
    {
        match self {
            ProfileKind::NonRemovable => "Non-removable disk",
            ProfileKind::Removable => "Removable disk",
            ProfileKind::MoErasable => "Magneto-Optical Erasable disk",
            ProfileKind::OpticalWriteOnce => "Optical Write-Once",
            ProfileKind::AsMo => "Advance Storage - Magneto-Optical",
            ProfileKind::CdRom => "CD-ROM",
            ProfileKind::CdR => "CD-R",
            ProfileKind::CdRw => "CD-RW",
            ProfileKind::DvdRom => "DVD-ROM",
            ProfileKind::DvdRSeqRec => "DVD-R Sequential Recording",
            ProfileKind::DvdRam => "DVD-RAM",
            ProfileKind::DvdRwRo => "DVD-RW Restricted Overwrite",
            ProfileKind::DvdRwSeqRec => "DVD-RW Sequential Recording",
            ProfileKind::DvdRDlSeqRec => "DVD-R Dual Layer Sequential recording",
            ProfileKind::DvdRDlJmpRec => "DVD-R Dual Layer Jump Recording",
            ProfileKind::DvdRwDl => "DVD-RW Dual Layer",
            ProfileKind::DvdDownDiscRec => "DVD-Download Disc Recording",
            ProfileKind::DvdPlusRw => "DVD+RW",
            ProfileKind::DvdPlusR => "DVD+R",
            ProfileKind::DdcdRom => "DDCD-ROM",
            ProfileKind::DdcdR => "DDCD-R",
            ProfileKind::DdcdRw => "DDCD-RW",
            ProfileKind::DvdPlusRwDl => "DVD+RW Dual Layer",
            ProfileKind::DvdPlusRDl => "DVD+R Double Layer",
            ProfileKind::BdRom => "BD-ROM",
            ProfileKind::BdRSeqRec => "BD-R Sequential Recording Mode",
            ProfileKind::BdRRandRec => "BD-R Random Recording Mode",
            ProfileKind::BdRw => "BD-RE",
            ProfileKind::HdDvdRom => "HD DVD-ROM",
            ProfileKind::HdDvdR => "HD DVD-R",
            ProfileKind::HdDvdRam => "HD DVD-RAM",
            ProfileKind::HdDvdRw => "HD DVD-RW",
            ProfileKind::HdDvdRDl => "HD DVD-R Dual Layer",
            ProfileKind::HdDvdRwDl => "HD DVD-RW Dual Layer",
            ProfileKind::NonConform => "The Drive does not conform to any Profile",
        }
    }
}

/// Every profile number that names a kind is that kind's number, and every
/// kind's number names it.
pub proof fn lemma_profile_kind_code_roundtrip(v: u16, k: ProfileKind)
    ensures
        profile_kind_of(v) matches Some(p) ==> p.spec_code() == v,
        profile_kind_of(k.spec_code()) == Some(k),
{
}

/// Physical interface standard reported by MMC.
#[non_exhaustive]
#[derive(Clone, Copy, Debug, Default, Eq, Hash, Ord, PartialEq, PartialOrd)]
pub enum MmcInterface {
    /// Unspecified
    #[default]
    Unspecified,
    /// SCSI
    Scsi,
    /// ATAPI
    Atapi,
    /// IEEE 1394
    Ieee1394,
    /// IEEE 1394A
    Ieee1394A,
    /// Fibre Channel
    FibreChannel,
    /// IEEE 1394B
    Ieee1394B,
    /// Serial ATAPI
    SerialAtapi,
    /// USB (both 1.1 and 2.0)
    Usb,
    /// Vendor Unique
    VendorUnique,
}

/// The interface with standard number `v`, if there is one.
pub open spec fn interface_of(v: u32) -> Option<MmcInterface> {
    if v == 0x0 { Some(MmcInterface::Unspecified) }
    else if v == 0x1 { Some(MmcInterface::Scsi) }
    else if v == 0x2 { Some(MmcInterface::Atapi) }
    else if v == 0x3 { Some(MmcInterface::Ieee1394) }
    else if v == 0x4 { Some(MmcInterface::Ieee1394A) }
    else if v == 0x5 { Some(MmcInterface::FibreChannel) }
    else if v == 0x6 { Some(MmcInterface::Ieee1394B) }
    else if v == 0x7 { Some(MmcInterface::SerialAtapi) }
    else if v == 0x8 { Some(MmcInterface::Usb) }
    else if v == 0xffff { Some(MmcInterface::VendorUnique) }
    else { None }
}

impl MmcInterface {
    /// The interface with standard number `v`, if there is one.
    pub fn from_code(v: u32) -> (r: Option<MmcInterface>)
        ensures
            r == interface_of(v),
    {
        if v == 0x0 { Some(MmcInterface::Unspecified) }
        else if v == 0x1 { Some(MmcInterface::Scsi) }
        else if v == 0x2 { Some(MmcInterface::Atapi) }
        else if v == 0x3 { Some(MmcInterface::Ieee1394) }
        else if v == 0x4 { Some(MmcInterface::Ieee1394A) }
        else if v == 0x5 { Some(MmcInterface::FibreChannel) }
        else if v == 0x6 { Some(MmcInterface::Ieee1394B) }
        else if v == 0x7 { Some(MmcInterface::SerialAtapi) }
        else if v == 0x8 { Some(MmcInterface::Usb) }
        else if v == 0xffff { Some(MmcInterface::VendorUnique) }
        else { None }
    }

    /// The display name of the interface.
    pub open spec fn spec_name(self) -> &'static str {
        match self {
            MmcInterface::Unspecified => "Unspecified",
            MmcInterface::Scsi => "SCSI",
            MmcInterface::Atapi => "ATAPI",
            MmcInterface::Ieee1394 => "IEEE 1394",
            MmcInterface::Ieee1394A => "IEEE 1394A",
            MmcInterface::FibreChannel => "Fibre Channel",
            MmcInterface::Ieee1394B => "IEEE 1394B",
            MmcInterface::SerialAtapi => "Serial ATAPI",
            MmcInterface::Usb => "USB (both 1.1 and 2.0)",
            MmcInterface::VendorUnique => "Vendor Unique",
        }
    }

    /// The display name of the interface.
    pub fn name(self) -> (r: &'static str)
        ensures
            r == self.spec_name(),
    {
        match self {
            MmcInterface::Unspecified => "Unspecified",
            MmcInterface::Scsi => "SCSI",
            MmcInterface::Atapi => "ATAPI",
            MmcInterface::Ieee1394 => "IEEE 1394",
            MmcInterface::Ieee1394A => "IEEE 1394A",
            MmcInterface::FibreChannel => "Fibre Channel",
            MmcInterface::Ieee1394B => "IEEE 1394B",
            MmcInterface::SerialAtapi => "Serial ATAPI",
            MmcInterface::Usb => "USB (both 1.1 and 2.0)",
            MmcInterface::VendorUnique => "Vendor Unique",
        }
    }
}

impl MmcInterface {
    /// The standard number of the value.
    pub open spec fn spec_code(self) -> u32 {
        match self {
            MmcInterface::Unspecified => 0x0,
            MmcInterface::Scsi => 0x1,
            MmcInterface::Atapi => 0x2,
            MmcInterface::Ieee1394 => 0x3,
            MmcInterface::Ieee1394A => 0x4,
            MmcInterface::FibreChannel => 0x5,
            MmcInterface::Ieee1394B => 0x6,
            MmcInterface::SerialAtapi => 0x7,
            MmcInterface::Usb => 0x8,
            MmcInterface::VendorUnique => 0xffff,
        }
    }

    /// The standard number of the value.
    #[verifier::when_used_as_spec(spec_code)]
    pub fn code(self) -> (r: u32)
        ensures
            r == self.spec_code(),
    {
        match self {
            MmcInterface::Unspecified => 0x0,
            MmcInterface::Scsi => 0x1,
            MmcInterface::Atapi => 0x2,
            MmcInterface::Ieee1394 => 0x3,
            MmcInterface::Ieee1394A => 0x4,
            MmcInterface::FibreChannel => 0x5,
            MmcInterface::Ieee1394B => 0x6,
            MmcInterface::SerialAtapi => 0x7,
            MmcInterface::Usb => 0x8,
            MmcInterface::VendorUnique => 0xffff,
        }
    }
}

/// Every number that names a value is that value's standard number, and
/// every value's number names it.
pub proof fn lemma_interface_code_roundtrip(v: u32, k: MmcInterface)
    ensures
        interface_of(v) matches Some(x) ==> x.spec_code() == v,
        interface_of(k.spec_code()) == Some(k),
{
}

/// Removable medium info about the drive, reported by MMC.
#[derive(Clone, Copy, Debug)]
pub struct MmcMedium {
    /// The drive is capable of ejecting media via START/STOP commands
    pub eject: bool,
    /// The drive is capable of locking media
    pub lock: bool,
    /// The drive has a prevent jumper
    pub prevent_jumper: bool,
    /// The Loading mechanism type used by the drive
    pub load_mech: MmcLoadMech,
}

/// Loading mechanism type used by the drive.
#[non_exhaustive]
#[derive(Clone, Copy, Debug, Default, Eq, Hash, Ord, PartialEq, PartialOrd)]
pub enum MmcLoadMech {
    /// Caddy/Slot type
    CaddySlot,
    /// Tray type
    #[default]
    Tray,
    /// Pop-up type
    PopUp,
    /// Embedded changer with individually changeable discs
    EmbeddedChangerIndividualDiscs,
    /// Embedded changer using a magazine mechanism
    EmbeddedChangerMagazine,
}

/// The loading mechanism with type number `v`, if there is one.
pub open spec fn load_mech_of(v: u8) -> Option<MmcLoadMech> {
    if v == 0b000 { Some(MmcLoadMech::CaddySlot) }
    else if v == 0b001 { Some(MmcLoadMech::Tray) }
    else if v == 0b010 { Some(MmcLoadMech::PopUp) }
    else if v == 0b100 { Some(MmcLoadMech::EmbeddedChangerIndividualDiscs) }
    else if v == 0b101 { Some(MmcLoadMech::EmbeddedChangerMagazine) }
    else { None }
}

impl MmcLoadMech {
    /// The loading mechanism with type number `v`, if there is one.
    pub fn from_code(v: u8) -> (r: Option<MmcLoadMech>)
        ensures
            r == load_mech_of(v),
    {
        if v == 0b000 { Some(MmcLoadMech::CaddySlot) }
        else if v == 0b001 { Some(MmcLoadMech::Tray) }
        else if v == 0b010 { Some(MmcLoadMech::PopUp) }
        else if v == 0b100 { Some(MmcLoadMech::EmbeddedChangerIndividualDiscs) }
        else if v == 0b101 { Some(MmcLoadMech::EmbeddedChangerMagazine) }
        else { None }
    }

    /// The display name of the loading mechanism.
    pub open spec fn spec_name(self) -> &'static str {
        match self {
            MmcLoadMech::CaddySlot => "Caddy/Slot type",
            MmcLoadMech::Tray => "Tray type",
            MmcLoadMech::PopUp => "Pop-up type",
            MmcLoadMech::EmbeddedChangerIndividualDiscs => "Embedded changer with individually changeable discs",
            MmcLoadMech::EmbeddedChangerMagazine => "Embedded changer using a magazine mechanism",
        }
    }

    /// The display name of the loading mechanism.
    pub fn name(self) -> (r: &'static str)
        ensures
            r == self.spec_name(),
    {
        match self {
            MmcLoadMech::CaddySlot => "Caddy/Slot type",
            MmcLoadMech::Tray => "Tray type",
            MmcLoadMech::PopUp => "Pop-up type",
            MmcLoadMech::EmbeddedChangerIndividualDiscs => "Embedded changer with individually changeable discs",
            MmcLoadMech::EmbeddedChangerMagazine => "Embedded changer using a magazine mechanism",
        }
    }
}

impl MmcLoadMech {
    /// The standard number of the value.
    pub open spec fn spec_code(self) -> u8 {
        match self {
            MmcLoadMech::CaddySlot => 0b000,
            MmcLoadMech::Tray => 0b001,
            MmcLoadMech::PopUp => 0b010,
            MmcLoadMech::EmbeddedChangerIndividualDiscs => 0b100,
            MmcLoadMech::EmbeddedChangerMagazine => 0b101,
        }
    }

    /// The standard number of the value.
    #[verifier::when_used_as_spec(spec_code)]
    pub fn code(self) -> (r: u8)
        ensures
            r == self.spec_code(),
    {
        match self {
            MmcLoadMech::CaddySlot => 0b000,
            MmcLoadMech::Tray => 0b001,
            MmcLoadMech::PopUp => 0b010,
            MmcLoadMech::EmbeddedChangerIndividualDiscs => 0b100,
            MmcLoadMech::EmbeddedChangerMagazine => 0b101,
        }
    }
}

/// Every number that names a value is that value's standard number, and
/// every value's number names it.
pub proof fn lemma_load_mech_code_roundtrip(v: u8, k: MmcLoadMech)
    ensures
        load_mech_of(v) matches Some(x) ==> x.spec_code() == v,
        load_mech_of(k.spec_code()) == Some(k),
{
}

/// A set of commands and behaviours that specify the capabilities of a drive
/// and its associated medium.
#[non_exhaustive]
#[derive(Clone, Debug, Default, Eq, Hash, Ord, PartialEq, PartialOrd)]
pub enum MmcFeature {
    /// Profile List
    ///
    /// A list of all profiles supported by the drive
    ProfileList { profiles: Vec<MmcProfile> },

    /// Core
    ///
    /// Mandatory behavior for all devices
    Core {
        /// Physical interface standard reported by MMC.
        interface: MmcInterface,
    },

    /// Morphing
    ///
    /// Ability to report operational changes to the host and accept requests to
    /// prevent operational changes
    Morphing {
        /// Supports async in addition to polling implementations of
        /// `GET EVENT STATUS NOTIFICATION`
        async_events: bool,
        /// Supports Operational Change Request/Notification Class Events
        op_chg_events: bool,
    },

    /// Removable Medium
    ///
    /// Ability to remove the medium from the device
    RemovableMedium {
        /// The drive is capable of ejecting media via `START/STOP` commands
        eject: bool,
        /// The drive is capable of locking media
        lock: bool,
        /// The drive has a prevent jumper
        prevent_jumper: bool,
        /// The Loading mechanism type used by the drive
        load_mech: MmcLoadMech,
    },

    /// Write Protect
    ///
    /// Ability to control write protection status
    WriteProtect,

    /// Random Readable
    ///
    /// Ability to read sectors with random addressing
    RandomReadable,

    /// Multi-Read
    ///
    /// The drive is able to read all CD media types; based on OSTA MultiRead
    MultiRead,

    /// CD Read
    ///
    /// Ability to read CD-specific structures
    CdRead {
        /// The feature is currently active
        active: bool,
        /// Supports C2 error pointers
        c2_error: bool,
        /// Supports CD-Text (Format Code `5h` of `READ TOC/PMA/ATIP`)
        cd_text: bool,
        /// Supports DAP bit for the `CDB` in `READ CD` and `READ CD MSF` commands
        dap: bool,
    },

    /// DVD Read
    ///
    /// Ability to read DVD-specific structures
    DvdRead,

    /// Random Writable
    ///
    /// Write support for randomly addressed writes
    RandomWritable,

    /// Incremental Streaming Writable
    ///
    /// Write support for sequential recording
    IncrementalStreamingWritable,

    /// Sector Erasable
    ///
    /// Write support for erasable media and media that requires an erase pass
    /// before overwrite
    SectorErasable,

    /// Formattable
    ///
    /// Support for formatting of media
    Formattable,

    /// Hardware Defect Management
    ///
    /// Ability of the drive/media system to provide an apparently defect-free
    /// space
    HardwareDefectManagement,

    /// Write Once
    ///
    /// Write support for write-once media that is writable in random order
    WriteOnce,

    /// Restricted Overwrite
    ///
    /// Write support for media that shall be written from blocking boundaries
    /// only
    RestrictedOverwrite,

    /// CD-RW CAV Write
    ///
    /// Ability to write high-speed CD-RW media
    CdRwCavWrite,

    /// MRW
    ///
    /// Ability to recognize and read and optionally write MRW formatted
    /// media
    Mrw,

    /// Enhanced Defect Reporting
    ///
    /// Ability to control `RECOVERED ERROR` reporting
    EnhancedDefectReporting,

    /// Ability to recognize, read and optionally write DVD+RW media
    DvdPlusRw,

    /// DVD+R
    ///
    /// Ability to read DVD+R recorded media formats
    DvdPlusR,

    /// Rigid Restricted Overwrite
    ///
    /// Write support for media that is required to be written from Blocking
    /// boundaries with length of integral multiple of Blocking size only.
    RigidRestrictedOverwrite,

    /// CD Track At Once
    ///
    /// Ability to write CD with Track at Once recording
    CdTrackAtOnce,

    /// CD Mastering
    ///
    /// Ability to write CD with Session at Once or Raw write methods
    CdMastering,

    /// DVD-R/-RW Write
    ///
    /// Ability to write DVD specific structures
    DvdRRwWrite,

    /// DDCD Read
    ///
    /// Ability to read user data from DDCD blocks
    DdcdRead,

    /// DDCD-R Write
    ///
    /// Ability to write and read DDCD-R media
    DdcdRWrite,

    /// DDCD-RW Write
    ///
    /// Ability to write and read DDCD-RW media
    DdcdRwWrite,

    /// Layer Jump Recording
    ///
    /// Ability to record in layer jump mode
    LayerJumpRecording,

    /// Layer Jump Rigid Restricted Overwrite
    ///
    /// Ability to perform Layer Jump recording on Rigid Restricted
    /// Overwritable media
    LayerJumpRigidRestrictedOverwrite,

    /// Stop Long Operation
    ///
    /// Ability to stop the long immediate operation by a command
    StopLongOperation,

    /// CD-RW Media Write Support
    ///
    /// Ability to report CD-RW media sub-types that are supported
    /// for write
    CdRwMediaWriteSupport,

    /// BD-R POW
    ///
    /// Logical Block overwrite service on BD-R discs formatted as SRM+POW
    BdRPow,

    /// DVD+RW Dual Layer
    ///
    /// Ability to read DVD+RW Dual Layer recorded media formats
    DvdPlusRwDualLayer,

    /// DVD+R Dual Layer
    ///
    /// Ability to read DVD+R Dual Layer recorded media formats
    DvdPlusRDualLayer,

    /// BD Read
    ///
    /// Ability to read control structures and user data from a BD disc
    BdRead,

    /// BD Write
    ///
    /// Ability to write control structures and user data to certain BD
    /// discs
    BdWrite,

    /// Timely Safe Recording
    ///
    /// Timely, Safe Recording permits the Host to schedule defect management
    Tsr,

    /// HD DVD Read
    ///
    /// Ability to read control structures and user data from a HD DVD disc
    HdDvdRead,

    /// HD DVD Write
    ///
    /// Ability to write control structures and user data from a HD DVD disc
    HdDvdWrite,

    /// HD DVD-RW Fragment
    ///
    /// HD DVD-RW fragment recording
    HdDvdRwFragment,

    /// Hybrid Disc
    ///
    /// Ability to access some hybrid discs
    HybridDisc,

    /// Power Management
    ///
    /// Host and device directed power management
    PowerManagement,

    /// SMART
    ///
    /// Ability to perform Self Monitoring Analysis and Reporting Technology
    Smart,

    /// Embedded Changer
    ///
    /// Single mechanism multiple disc changer
    EmbeddedChanger,

    /// CD Audio External Play
    ///
    /// Ability to play audio CDs via the Logical Unit’s own analog output
    CdAudioExternalPlay {
        /// Feature is currently active
        active: bool,
        /// Supports the `SCAN` command
        scan: bool,
        /// Supports independent mute of audio channels
        sep_channel_mute: bool,
        /// Supports independent volume levels for audio channels
        sep_volume: bool,
        /// Number of discrete volume levels supported
        volume_levels: u16,
    },

    /// Microcode Upgrade
    ///
    /// Ability for the device to accept new microcode via the interface
    MicrocodeUpgrade,

    /// Timeout
    ///
    /// Ability to respond to all commands within a specific time
    Timeout,

    /// DVD-CSS
    ///
    /// Ability to perform DVD CSS/CPPM authentication and RPC
    DvdCss {
        /// Feature is currently active (DVD CSS/CPPM media is present)
        active: bool,
        /// CSS Version
        version: u8,
    },

    /// Real Time Streaming
    ///
    /// Ability to read and write using host requested performance parameters
    RealTimeStreaming,

    /// Drive Serial Number
    ///
    /// The drive has a unique identifier
    DriveSerialNumber { sno: String },

    /// Media Serial Number
    ///
    /// Ability to return unique Media Serial Number
    MediaSerialNumber,

    /// Disc Control Blocks
    ///
    /// Ability to read and/or write DCBs
    DiscControlBlocks,

    /// DVD CPRM
    ///
    /// Ability to perform DVD CPRM authentication
    DvdCprm,

    /// Firmware Information
    ///
    /// Firmware creation date report
    FirmwareInformation,

    /// AACS
    ///
    /// Ability to decode and optionally encode AACS protected information
    Aacs,

    /// DVD CSS Managed Recording
    ///
    /// Ability to perform DVD CSS managed recording
    DvdCssManagedRecording,

    /// VCPS
    ///
    /// Ability to decode and optionally encode VCPS protected information
    Vcps,

    /// SecurDisc
    ///
    /// Ability to encode and decode SecurDisc protected information
    SecurDisc,

    /// OSSC
    ///
    /// TCG Optical Security Subsystem Class feature
    Ossc,

    /// Vendor Specific
    ///
    /// Vendor-specific feature
    #[default]
    VendorSpecific,
}

impl MmcFeature {
    /// The display name of the feature: the first line of its description.
    pub open spec fn spec_name(self) -> &'static str {
        match self {
            MmcFeature::ProfileList { .. } => "Profile List",
            MmcFeature::Core { .. } => "Core",
            MmcFeature::Morphing { .. } => "Morphing",
            MmcFeature::RemovableMedium { .. } => "Removable Medium",
            MmcFeature::WriteProtect => "Write Protect",
            MmcFeature::RandomReadable => "Random Readable",
            MmcFeature::MultiRead => "Multi-Read",
            MmcFeature::CdRead { .. } => "CD Read",
            MmcFeature::DvdRead => "DVD Read",
            MmcFeature::RandomWritable => "Random Writable",
            MmcFeature::IncrementalStreamingWritable => "Incremental Streaming Writable",
            MmcFeature::SectorErasable => "Sector Erasable",
            MmcFeature::Formattable => "Formattable",
            MmcFeature::HardwareDefectManagement => "Hardware Defect Management",
            MmcFeature::WriteOnce => "Write Once",
            MmcFeature::RestrictedOverwrite => "Restricted Overwrite",
            MmcFeature::CdRwCavWrite => "CD-RW CAV Write",
            MmcFeature::Mrw => "MRW",
            MmcFeature::EnhancedDefectReporting => "Enhanced Defect Reporting",
            MmcFeature::DvdPlusRw => "Ability to recognize, read and optionally write DVD+RW media",
            MmcFeature::DvdPlusR => "DVD+R",
            MmcFeature::RigidRestrictedOverwrite => "Rigid Restricted Overwrite",
            MmcFeature::CdTrackAtOnce => "CD Track At Once",
            MmcFeature::CdMastering => "CD Mastering",
            MmcFeature::DvdRRwWrite => "DVD-R/-RW Write",
            MmcFeature::DdcdRead => "DDCD Read",
            MmcFeature::DdcdRWrite => "DDCD-R Write",
            MmcFeature::DdcdRwWrite => "DDCD-RW Write",
            MmcFeature::LayerJumpRecording => "Layer Jump Recording",
            MmcFeature::LayerJumpRigidRestrictedOverwrite => "Layer Jump Rigid Restricted Overwrite",
            MmcFeature::StopLongOperation => "Stop Long Operation",
            MmcFeature::CdRwMediaWriteSupport => "CD-RW Media Write Support",
            MmcFeature::BdRPow => "BD-R POW",
            MmcFeature::DvdPlusRwDualLayer => "DVD+RW Dual Layer",
            MmcFeature::DvdPlusRDualLayer => "DVD+R Dual Layer",
            MmcFeature::BdRead => "BD Read",
            MmcFeature::BdWrite => "BD Write",
            MmcFeature::Tsr => "Timely Safe Recording",
            MmcFeature::HdDvdRead => "HD DVD Read",
            MmcFeature::HdDvdWrite => "HD DVD Write",
            MmcFeature::HdDvdRwFragment => "HD DVD-RW Fragment",
            MmcFeature::HybridDisc => "Hybrid Disc",
            MmcFeature::PowerManagement => "Power Management",
            MmcFeature::Smart => "SMART",
            MmcFeature::EmbeddedChanger => "Embedded Changer",
            MmcFeature::CdAudioExternalPlay { .. } => "CD Audio External Play",
            MmcFeature::MicrocodeUpgrade => "Microcode Upgrade",
            MmcFeature::Timeout => "Timeout",
            MmcFeature::DvdCss { .. } => "DVD-CSS",
            MmcFeature::RealTimeStreaming => "Real Time Streaming",
            MmcFeature::DriveSerialNumber { .. } => "Drive Serial Number",
            MmcFeature::MediaSerialNumber => "Media Serial Number",
            MmcFeature::DiscControlBlocks => "Disc Control Blocks",
            MmcFeature::DvdCprm => "DVD CPRM",
            MmcFeature::FirmwareInformation => "Firmware Information",
            MmcFeature::Aacs => "AACS",
            MmcFeature::DvdCssManagedRecording => "DVD CSS Managed Recording",
            MmcFeature::Vcps => "VCPS",
            MmcFeature::SecurDisc => "SecurDisc",
            MmcFeature::Ossc => "OSSC",
            MmcFeature::VendorSpecific => "Vendor Specific",
        }
    }

    /// The display name of the feature: the first line of its description.
    pub fn name(&self) -> (r: &'static str)
        ensures
            r == self.spec_name(),
    {
        match self {
            MmcFeature::ProfileList { .. } => "Profile List",
            MmcFeature::Core { .. } => "Core",
            MmcFeature::Morphing { .. } => "Morphing",
            MmcFeature::RemovableMedium { .. } => "Removable Medium",
            MmcFeature::WriteProtect => "Write Protect",
            MmcFeature::RandomReadable => "Random Readable",
            MmcFeature::MultiRead => "Multi-Read",
            MmcFeature::CdRead { .. } => "CD Read",
            MmcFeature::DvdRead => "DVD Read",
            MmcFeature::RandomWritable => "Random Writable",
            MmcFeature::IncrementalStreamingWritable => "Incremental Streaming Writable",
            MmcFeature::SectorErasable => "Sector Erasable",
            MmcFeature::Formattable => "Formattable",
            MmcFeature::HardwareDefectManagement => "Hardware Defect Management",
            MmcFeature::WriteOnce => "Write Once",
            MmcFeature::RestrictedOverwrite => "Restricted Overwrite",
            MmcFeature::CdRwCavWrite => "CD-RW CAV Write",
            MmcFeature::Mrw => "MRW",
            MmcFeature::EnhancedDefectReporting => "Enhanced Defect Reporting",
            MmcFeature::DvdPlusRw => "Ability to recognize, read and optionally write DVD+RW media",
            MmcFeature::DvdPlusR => "DVD+R",
            MmcFeature::RigidRestrictedOverwrite => "Rigid Restricted Overwrite",
            MmcFeature::CdTrackAtOnce => "CD Track At Once",
            MmcFeature::CdMastering => "CD Mastering",
            MmcFeature::DvdRRwWrite => "DVD-R/-RW Write",
            MmcFeature::DdcdRead => "DDCD Read",
            MmcFeature::DdcdRWrite => "DDCD-R Write",
            MmcFeature::DdcdRwWrite => "DDCD-RW Write",
            MmcFeature::LayerJumpRecording => "Layer Jump Recording",
            MmcFeature::LayerJumpRigidRestrictedOverwrite => "Layer Jump Rigid Restricted Overwrite",
            MmcFeature::StopLongOperation => "Stop Long Operation",
            MmcFeature::CdRwMediaWriteSupport => "CD-RW Media Write Support",
            MmcFeature::BdRPow => "BD-R POW",
            MmcFeature::DvdPlusRwDualLayer => "DVD+RW Dual Layer",
            MmcFeature::DvdPlusRDualLayer => "DVD+R Dual Layer",
            MmcFeature::BdRead => "BD Read",
            MmcFeature::BdWrite => "BD Write",
            MmcFeature::Tsr => "Timely Safe Recording",
            MmcFeature::HdDvdRead => "HD DVD Read",
            MmcFeature::HdDvdWrite => "HD DVD Write",
            MmcFeature::HdDvdRwFragment => "HD DVD-RW Fragment",
            MmcFeature::HybridDisc => "Hybrid Disc",
            MmcFeature::PowerManagement => "Power Management",
            MmcFeature::Smart => "SMART",
            MmcFeature::EmbeddedChanger => "Embedded Changer",
            MmcFeature::CdAudioExternalPlay { .. } => "CD Audio External Play",
            MmcFeature::MicrocodeUpgrade => "Microcode Upgrade",
            MmcFeature::Timeout => "Timeout",
            MmcFeature::DvdCss { .. } => "DVD-CSS",
            MmcFeature::RealTimeStreaming => "Real Time Streaming",
            MmcFeature::DriveSerialNumber { .. } => "Drive Serial Number",
            MmcFeature::MediaSerialNumber => "Media Serial Number",
            MmcFeature::DiscControlBlocks => "Disc Control Blocks",
            MmcFeature::DvdCprm => "DVD CPRM",
            MmcFeature::FirmwareInformation => "Firmware Information",
            MmcFeature::Aacs => "AACS",
            MmcFeature::DvdCssManagedRecording => "DVD CSS Managed Recording",
            MmcFeature::Vcps => "VCPS",
            MmcFeature::SecurDisc => "SecurDisc",
            MmcFeature::Ossc => "OSSC",
            MmcFeature::VendorSpecific => "Vendor Specific",
        }
    }
}


/// The profiles listed in `data`, four bytes each: profile number, current
/// bit, and two reserved bytes. Unknown profile numbers are skipped.
pub open spec fn spec_profiles(data: Seq<u8>) -> Seq<MmcProfile>
    decreases data.len(),
{
    if data.len() < 4 {
        Seq::empty()
    } else {
        let rest = spec_profiles(data.skip(4));
        match profile_kind_of(be16_at(data, 0)) {
            Some(kind) => seq![MmcProfile { active: data[2] & 1 != 0, kind }] + rest,
            None => rest,
        }
    }
}

/// The feature code of a descriptor.
pub open spec fn descriptor_code(d: Seq<u8>) -> u16 {
    be16_at(d, 0)
}

/// The shortest descriptor that the decoder of feature `code` reads from.
pub open spec fn min_descriptor_len(code: u16) -> int {
    if code == 0x0001 || code == 0x0103 || code == 0x0106 {
        8
    } else if code == 0x0002 || code == 0x0003 || code == 0x001e {
        5
    } else {
        4
    }
}

/// The descriptor has the length that its header announces.
pub open spec fn descriptor_framed(d: Seq<u8>) -> bool {
    d.len() >= 4 && d.len() == d[3] as int + 4
}

/// A framed descriptor is long enough for the decoder of its feature.
pub open spec fn descriptor_readable(d: Seq<u8>) -> bool {
    descriptor_framed(d) ==> d.len() >= min_descriptor_len(descriptor_code(d))
}

/// The descriptor decodes to a feature.
pub open spec fn feature_parses(d: Seq<u8>) -> bool {
    let c = descriptor_code(d);
    &&& descriptor_framed(d)
    &&& {
        ||| c == 0x0000
        ||| c == 0x0002
        ||| c == 0x001e
        ||| c == 0x0103
        ||| c == 0x0106
        ||| (c == 0x0001 && interface_of(be32_at(d, 4)) is Some)
        ||| (c == 0x0003 && load_mech_of(d[4] >> 5) is Some)
        ||| (c == 0x0108 && d[2] & 1 != 0 && valid_utf8(d.subrange(4, d.len() as int)))
    }
}

/// `f` is the feature that the descriptor `d` describes.
pub open spec fn feature_matches(f: MmcFeature, d: Seq<u8>) -> bool {
    let c = descriptor_code(d);
    if c == 0x0000 {
        f matches MmcFeature::ProfileList { profiles } && profiles@ == spec_profiles(d.skip(4))
    } else if c == 0x0001 {
        f == MmcFeature::Core { interface: interface_of(be32_at(d, 4))->0 }
    } else if c == 0x0002 {
        f == MmcFeature::Morphing { async_events: d[4] & 1 != 0, op_chg_events: d[4] & 2 != 0 }
    } else if c == 0x0003 {
        f == MmcFeature::RemovableMedium {
            eject: d[4] & 8 != 0,
            lock: d[4] & 1 != 0,
            prevent_jumper: d[4] & 4 == 0,
            load_mech: load_mech_of(d[4] >> 5)->0,
        }
    } else if c == 0x001e {
        f == MmcFeature::CdRead {
            active: d[2] & 1 != 0,
            c2_error: d[4] & 1 != 0,
            cd_text: d[4] & 2 != 0,
            dap: d[4] & 0x80 != 0,
        }
    } else if c == 0x0103 {
        f == MmcFeature::CdAudioExternalPlay {
            active: d[2] & 1 != 0,
            scan: d[4] & 4 != 0,
            sep_channel_mute: d[4] & 2 != 0,
            sep_volume: d[4] & 1 != 0,
            volume_levels: be16_at(d, 6),
        }
    } else if c == 0x0106 {
        f == MmcFeature::DvdCss { active: d[2] & 1 != 0, version: d[7] }
    } else if c == 0x0108 {
        f matches MmcFeature::DriveSerialNumber { sno } && sno@ == decode_utf8(
            d.subrange(4, d.len() as int),
        )
    } else {
        false
    }
}

/// The first profile of a profile list is read from its first four bytes:
/// the big-endian profile number in bytes 0 and 1 (where it names a kind)
/// and the current bit, bit 0 of byte 2.
pub proof fn lemma_first_profile_fields(data: Seq<u8>)
    requires
        data.len() >= 4,
        profile_kind_of(be16_at(data, 0)) is Some,
    ensures
        spec_profiles(data).len() >= 1,
        spec_profiles(data)[0].kind.spec_code() == be16_at(data, 0),
        spec_profiles(data)[0].active == (data[2] & 0x01 == 0x01),
{
    let b2 = data[2];
    assert(b2 & 0x01 == 0x01 <==> b2 & 1 != 0) by (bit_vector);
}

/// Each feature is read from its descriptor as MMC lays it out: the
/// interface of Core is the one numbered by the big-endian bytes 4 to 7;
/// Morphing's asynchronous and operational change flags are bits 0 and 1
/// of byte 4; Removable Medium's lock, prevent jumper (set where the bit
/// is clear) and eject are bits 0, 2 and 3 of byte 4, its loading
/// mechanism the one numbered by the top three bits; the current bit of a
/// feature is bit 0 of byte 2; CD Read's C2 error, CD-Text and DAP are
/// bits 0, 1 and 7 of byte 4; CD Audio External Play's separate volume,
/// separate mute and scan are bits 0, 1 and 2 of byte 4, its volume levels
/// the big-endian bytes 6 and 7; the CSS version is byte 7.
pub proof fn lemma_feature_fields(f: MmcFeature, d: Seq<u8>)
    requires
        feature_parses(d),
        feature_matches(f, d),
    ensures
        f matches MmcFeature::Core { interface } ==> interface.spec_code() == be32_at(d, 4),
        f matches MmcFeature::Morphing { async_events, op_chg_events } ==> async_events == (d[4]
            & 0x01 == 0x01) && op_chg_events == (d[4] & 0x02 == 0x02),
        f matches MmcFeature::RemovableMedium { eject, lock, prevent_jumper, load_mech } ==> lock
            == (d[4] & 0x01 == 0x01) && prevent_jumper == (d[4] & 0x04 == 0) && eject == (d[4]
            & 0x08 == 0x08) && load_mech.spec_code() == d[4] / 32,
        f matches MmcFeature::CdRead { active, c2_error, cd_text, dap } ==> active == (d[2] & 0x01
            == 0x01) && c2_error == (d[4] & 0x01 == 0x01) && cd_text == (d[4] & 0x02 == 0x02)
            && dap == (d[4] & 0x80 == 0x80),
        f matches MmcFeature::CdAudioExternalPlay {
            active,
            scan,
            sep_channel_mute,
            sep_volume,
            volume_levels,
        } ==> active == (d[2] & 0x01 == 0x01) && sep_volume == (d[4] & 0x01 == 0x01)
            && sep_channel_mute == (d[4] & 0x02 == 0x02) && scan == (d[4] & 0x04 == 0x04)
            && volume_levels == d[6] as int * 256 + d[7] as int,
        f matches MmcFeature::DvdCss { active, version } ==> active == (d[2] & 0x01 == 0x01)
            && version == d[7],
{
    let b2 = d[2];
    let b4 = d[4];
    assert(
        (b2 & 0x01 == 0x01 <==> b2 & 1 != 0)
        && (b4 & 0x01 == 0x01 <==> b4 & 1 != 0)
        && (b4 & 0x02 == 0x02 <==> b4 & 2 != 0)
        && (b4 & 0x04 == 0x04 <==> b4 & 4 != 0)
        && (b4 & 0x08 == 0x08 <==> b4 & 8 != 0)
        && (b4 & 0x80 == 0x80 <==> b4 & 0x80 != 0)
        && (b4 & 0x04 == 0 <==> b4 & 4 == 0)
        && b4 >> 5 == b4 / 32
    ) by (bit_vector);
}

impl MmcFeature {
    /// Parse a feature from a slice pointing to a feature descriptor.
    pub fn parse(dtor: &[u8]) -> (r: Option<MmcFeature>)
        requires
            descriptor_readable(dtor@),
        ensures
            r is Some <==> feature_parses(dtor@),
            r matches Some(f) ==> feature_matches(f, dtor@),
    {
        if dtor.len() < 4 {
            return None;
        }
        let data_len = dtor[3] as usize;
        let expected = data_len + 4;
        if dtor.len() != expected {
            return None;
        }
        let code = read_u16(dtor);
        if code == 0x0000 {
            Some(Self::profile_list(dtor))
        } else if code == 0x0001 {
            Self::core_interface(dtor)
        } else if code == 0x0002 {
            Some(Self::morphing(dtor))
        } else if code == 0x0003 {
            Self::medium(dtor)
        } else if code == 0x001e {
            Some(Self::cd_read(dtor))
        } else if code == 0x0103 {
            Some(Self::cd_audio_external_play(dtor))
        } else if code == 0x0106 {
            Some(Self::dvd_css(dtor))
        } else if code == 0x0108 {
            Self::drive_serial_num(dtor)
        } else {
            None
        }
    }

    fn profile_list(dtor: &[u8]) -> (r: MmcFeature)
        requires
            dtor@.len() >= 4,
            descriptor_code(dtor@) == 0x0000,
        ensures
            feature_matches(r, dtor@),
    {
        let data = &dtor[4..dtor.len()];
        let mut profiles: Vec<MmcProfile> = Vec::new();
        let mut j: usize = 0;
        proof {
            assert(data@ =~= dtor@.skip(4));
            assert(data@.skip(0) =~= data@);
        }
        while data.len() - j >= 4
            invariant
                j <= data@.len(),
                profiles@ + spec_profiles(data@.skip(j as int)) == spec_profiles(data@),
            decreases data@.len() - j,
        {
            let chunk = &data[j..j + 4];
            let kind = read_u16(chunk);
            let active = chunk[2] & 1 != 0;
            let ghost rest = data@.skip(j as int);
            proof {
                assert(rest.skip(4) =~= data@.skip(j + 4));
                assert(be16_at(rest, 0) == be16_at(chunk@, 0));
                assert(rest[2] == chunk@[2]);
            }
            match ProfileKind::from_code(kind) {
                Some(kind) => {
                    let ghost before = profiles@;
                    profiles.push(MmcProfile { active, kind });
                    proof {
                        assert(profiles@ + spec_profiles(data@.skip(j + 4)) =~= before + (seq![
                            MmcProfile { active, kind },
                        ] + spec_profiles(data@.skip(j + 4))));
                    }
                },
                None => {},
            }
            j = j + 4;
        }
        proof {
            let rest = data@.skip(j as int);
            assert(spec_profiles(rest) =~= Seq::<MmcProfile>::empty());
            assert(profiles@ + spec_profiles(rest) =~= profiles@);
        }
        MmcFeature::ProfileList { profiles }
    }

    fn core_interface(dtor: &[u8]) -> (r: Option<MmcFeature>)
        requires
            dtor@.len() >= 8,
            descriptor_code(dtor@) == 0x0001,
        ensures
            r is Some <==> interface_of(be32_at(dtor@, 4)) is Some,
            r matches Some(f) ==> feature_matches(f, dtor@),
    {
        let tail = &dtor[4..dtor.len()];
        let interface = read_u32(tail);
        assert(be32_at(tail@, 0) == be32_at(dtor@, 4));
        match MmcInterface::from_code(interface) {
            Some(interface) => Some(MmcFeature::Core { interface }),
            None => None,
        }
    }

    fn morphing(dtor: &[u8]) -> (r: MmcFeature)
        requires
            dtor@.len() >= 5,
            descriptor_code(dtor@) == 0x0002,
        ensures
            feature_matches(r, dtor@),
    {
        MmcFeature::Morphing { async_events: dtor[4] & 1 != 0, op_chg_events: dtor[4] & 2 != 0 }
    }

    fn medium(dtor: &[u8]) -> (r: Option<MmcFeature>)
        requires
            dtor@.len() >= 5,
            descriptor_code(dtor@) == 0x0003,
        ensures
            r is Some <==> load_mech_of(dtor@[4] >> 5) is Some,
            r matches Some(f) ==> feature_matches(f, dtor@),
    {
        let load_mech = dtor[4] >> 5;
        match MmcLoadMech::from_code(load_mech) {
            Some(load_mech) => Some(
                MmcFeature::RemovableMedium {
                    eject: dtor[4] & 8 != 0,
                    lock: dtor[4] & 1 != 0,
                    prevent_jumper: dtor[4] & 4 == 0,
                    load_mech,
                },
            ),
            None => None,
        }
    }

    fn cd_read(data: &[u8]) -> (r: MmcFeature)
        requires
            data@.len() >= 5,
            descriptor_code(data@) == 0x001e,
        ensures
            feature_matches(r, data@),
    {
        MmcFeature::CdRead {
            active: data[2] & 1 != 0,
            c2_error: data[4] & 1 != 0,
            cd_text: data[4] & 2 != 0,
            dap: data[4] & 0x80 != 0,
        }
    }

    fn cd_audio_external_play(dtor: &[u8]) -> (r: MmcFeature)
        requires
            dtor@.len() >= 8,
            descriptor_code(dtor@) == 0x0103,
        ensures
            feature_matches(r, dtor@),
    {
        let tail = &dtor[6..dtor.len()];
        let volume_levels = read_u16(tail);
        assert(be16_at(tail@, 0) == be16_at(dtor@, 6));
        MmcFeature::CdAudioExternalPlay {
            active: dtor[2] & 1 != 0,
            scan: dtor[4] & 4 != 0,
            sep_channel_mute: dtor[4] & 2 != 0,
            sep_volume: dtor[4] & 1 != 0,
            volume_levels,
        }
    }

    fn dvd_css(dtor: &[u8]) -> (r: MmcFeature)
        requires
            dtor@.len() >= 8,
            descriptor_code(dtor@) == 0x0106,
        ensures
            feature_matches(r, dtor@),
    {
        MmcFeature::DvdCss { active: dtor[2] & 1 != 0, version: dtor[7] }
    }

    fn drive_serial_num(dtor: &[u8]) -> (r: Option<MmcFeature>)
        requires
            descriptor_framed(dtor@),
            descriptor_code(dtor@) == 0x0108,
        ensures
            r is Some <==> (dtor@[2] & 1 != 0 && valid_utf8(dtor@.subrange(4, dtor@.len() as int))),
            r matches Some(f) ==> feature_matches(f, dtor@),
    {
        let current = dtor[2] & 1 != 0;
        if !current {
            return None;
        }
        let len = dtor[3] as usize;
        match decode_utf8_text(&dtor[4..4 + len]) {
            Some(sno) => Some(MmcFeature::DriveSerialNumber { sno }),
            None => None,
        }
    }
}


/// Length of the descriptor at the front of `d`, as its header announces.
pub open spec fn next_descriptor_len(d: Seq<u8>) -> int {
    d[3] as int + 4
}

/// Every descriptor in the list lies within it and is long enough for its
/// decoder: the walk over the list never reads past its end.
pub open spec fn descriptors_walkable(d: Seq<u8>) -> bool
    decreases d.len(),
{
    d.len() > 3 ==> {
        let n = next_descriptor_len(d);
        &&& n <= d.len()
        &&& descriptor_readable(d.take(n))
        &&& descriptors_walkable(d.skip(n))
    }
}

/// The descriptors of the list, in order, that decode to a feature.
pub open spec fn parsed_descriptors(d: Seq<u8>) -> Seq<Seq<u8>>
    decreases d.len(),
{
    if d.len() > 3 && next_descriptor_len(d) <= d.len() {
        let n = next_descriptor_len(d);
        let rest = parsed_descriptors(d.skip(n));
        if feature_parses(d.take(n)) {
            seq![d.take(n)] + rest
        } else {
            rest
        }
    } else {
        Seq::empty()
    }
}

/// `features` are, in order, the features that the descriptors decode to.
pub open spec fn features_match(features: Seq<MmcFeature>, descriptors: Seq<Seq<u8>>) -> bool {
    &&& features.len() == descriptors.len()
    &&& forall|k: int| 0 <= k < features.len() ==> feature_matches(#[trigger] features[k], descriptors[k])
}

/// Decodes a list of feature descriptors, keeping those that describe a
/// known feature.
pub fn parse_feature_descriptors(dtors: &[u8]) -> (r: Vec<MmcFeature>)
    requires
        descriptors_walkable(dtors@),
    ensures
        features_match(r@, parsed_descriptors(dtors@)),
{
    let mut features: Vec<MmcFeature> = Vec::new();
    let mut i: usize = 0;
    let ghost mut done: Seq<Seq<u8>> = Seq::empty();
    proof {
        assert(dtors@.skip(0) =~= dtors@);
        assert(done + parsed_descriptors(dtors@) =~= parsed_descriptors(dtors@));
    }
    while dtors.len() - i > 3
        invariant
            i <= dtors@.len(),
            descriptors_walkable(dtors@.skip(i as int)),
            done + parsed_descriptors(dtors@.skip(i as int)) == parsed_descriptors(dtors@),
            features_match(features@, done),
        decreases dtors@.len() - i,
    {
        let ghost rest = dtors@.skip(i as int);
        let dtor_len = dtors[i + 3] as usize + 4;
        assert(dtor_len == next_descriptor_len(rest));
        let dtor = &dtors[i..i + dtor_len];
        proof {
            assert(dtor@ =~= rest.take(dtor_len as int));
            assert(rest.skip(dtor_len as int) =~= dtors@.skip(i + dtor_len));
        }
        let parsed = MmcFeature::parse(dtor);
        match parsed {
            Some(feature) => {
                let ghost before = features@;
                features.push(feature);
                proof {
                    assert(done.push(dtor@) + parsed_descriptors(dtors@.skip(i + dtor_len)) =~= done
                        + parsed_descriptors(rest));
                    done = done.push(dtor@);
                    assert(features@ == before.push(feature));
                    assert forall|k: int| 0 <= k < features@.len() implies feature_matches(
                        #[trigger] features@[k],
                        done[k],
                    ) by {
                        if k < before.len() {
                            assert(features@[k] == before[k]);
                        }
                    }
                }
            },
            None => {},
        }
        i = i + dtor_len;
    }
    proof {
        let rest = dtors@.skip(i as int);
        assert(parsed_descriptors(rest) =~= Seq::<Seq<u8>>::empty());
        assert(done + parsed_descriptors(rest) =~= done);
    }
    features
}

/// Checks the walk condition of a descriptor list.
pub fn descriptors_are_walkable(dtors: &[u8]) -> (r: bool)
    ensures
        r == descriptors_walkable(dtors@),
{
    let mut i: usize = 0;
    proof {
        assert(dtors@.skip(0) =~= dtors@);
    }
    while dtors.len() - i > 3
        invariant
            i <= dtors@.len(),
            descriptors_walkable(dtors@) == descriptors_walkable(dtors@.skip(i as int)),
        decreases dtors@.len() - i,
    {
        let ghost rest = dtors@.skip(i as int);
        let dtor_len = dtors[i + 3] as usize + 4;
        if dtor_len > dtors.len() - i {
            return false;
        }
        let dtor = &dtors[i..i + dtor_len];
        proof {
            assert(dtor@ =~= rest.take(dtor_len as int));
            assert(rest.skip(dtor_len as int) =~= dtors@.skip(i + dtor_len));
        }
        if dtor.len() >= 4 {
            let code = read_u16(dtor);
            let min_len: usize = if code == 0x0001 || code == 0x0103 || code == 0x0106 {
                8
            } else if code == 0x0002 || code == 0x0003 || code == 0x001e {
                5
            } else {
                4
            };
            if dtor.len() < min_len {
                return false;
            }
        }
        i = i + dtor_len;
    }
    true
}

/// Length of the feature descriptor list that a configuration header
/// announces, counted from byte 8 and including the header's last four
/// bytes.
pub open spec fn configuration_data_len(buf: Seq<u8>) -> int {
    be32_at(buf, 0) as int
}

/// The feature descriptors of a configuration response: bytes 8 up to the
/// announced end.
pub open spec fn configuration_descriptors(buf: Seq<u8>) -> Seq<u8> {
    buf.subrange(8, configuration_data_len(buf) + 4)
}

/// A configuration response that decodes to a feature list: the command
/// succeeded, the header is present, the announced length covers the rest
/// of the header and fits the buffer, and every feature descriptor lies
/// within the announced data and is long enough for its decoder.
pub open spec fn configuration_accepted(retval: i32, buf: Seq<u8>) -> bool {
    &&& retval == 0
    &&& buf.len() >= 4
    &&& configuration_data_len(buf) >= 4
    &&& configuration_data_len(buf) + 4 <= buf.len()
    &&& descriptors_walkable(configuration_descriptors(buf))
}

/// The features that a `GET CONFIGURATION` response lists. `retval` is
/// what the command returned: anything but 0 is an error. A malformed
/// response is an error too: a missing header, an announced length that
/// is below 4 or does not fit the buffer, or a feature descriptor that
/// runs past the announced data or is too short for its decoder.
pub fn features_from_configuration(retval: i32, buf: &[u8]) -> (r: Result<
    Vec<MmcFeature>,
    MmcOperationError,
>)
    ensures
        r is Ok <==> configuration_accepted(retval, buf@),
        r matches Ok(features) ==> features_match(
            features@,
            parsed_descriptors(configuration_descriptors(buf@)),
        ),
{
    if retval != 0 || buf.len() < 4 {
        return Err(MmcOperationError);
    }
    let dtors_len = read_u32(buf) as u64;
    // data length doesn't include its own length
    let expected = dtors_len + 4;
    if (buf.len() as u64) < expected || dtors_len < 4 {
        return Err(MmcOperationError);
    }
    let end = dtors_len as usize + 4;
    let dtors = &buf[8..end];
    assert(dtors@ =~= configuration_descriptors(buf@));
    if !descriptors_are_walkable(dtors) {
        return Err(MmcOperationError);
    }
    Ok(parse_feature_descriptors(dtors))
}

} // verus!
