//! The arguments of the MMC tool, and the action they select.

use vstd::prelude::*;

verus! {

/// Send MMC commands to a drive.
#[derive(Clone, Debug, PartialEq, Eq)]
pub struct Cli {
    /// Path to an MMC device (as the bytes of its platform encoding).
    pub device: Option<Vec<u8>>,
    /// What to do.
    pub actions: MmcActions,
}

/// The actions of the MMC tool; one is chosen.
#[derive(Clone, Copy, Debug, PartialEq, Eq)]
pub struct MmcActions {
    /// Eject the drive
    pub eject: bool,
    /// Close the tray, if present
    pub close_tray: bool,
    /// Put the device into standby
    pub standby: bool,
    /// Get the MCN (Media Catalog Number) of the media
    pub mcn: bool,
    /// Get hardware identifiers (Product, Vendor and Revision)
    pub inquiry: bool,
    /// Set the drive read and write speed in KB/s.
    pub speed: Option<u16>,
}

/// One action of the MMC tool.
#[derive(Clone, Copy, Debug, PartialEq, Eq)]
pub enum MmcAction {
    /// Allow medium removal, then eject.
    Eject,
    /// Close the tray.
    CloseTray,
    /// Put the device into standby.
    Standby,
    /// Print the media catalog number.
    MediaCatalogNumber,
    /// Print the hardware identifiers.
    Inquiry,
    /// Set the read and write speed, in KB/s.
    SetSpeed(u16),
}

impl MmcActions {
    /// The action to take: the first one asked for, in the order eject,
    /// close tray, standby, MCN, inquiry, speed; none where none is.
    pub fn action(&self) -> (r: Option<MmcAction>)
        ensures
            r == if self.eject {
                Some(MmcAction::Eject)
            } else if self.close_tray {
                Some(MmcAction::CloseTray)
            } else if self.standby {
                Some(MmcAction::Standby)
            } else if self.mcn {
                Some(MmcAction::MediaCatalogNumber)
            } else if self.inquiry {
                Some(MmcAction::Inquiry)
            } else {
                match self.speed {
                    Some(s) => Some(MmcAction::SetSpeed(s)),
                    None => None,
                }
            },
    {
        if self.eject {
            Some(MmcAction::Eject)
        } else if self.close_tray {
            Some(MmcAction::CloseTray)
        } else if self.standby {
            Some(MmcAction::Standby)
        } else if self.mcn {
            Some(MmcAction::MediaCatalogNumber)
        } else if self.inquiry {
            Some(MmcAction::Inquiry)
        } else {
            match self.speed {
                Some(s) => Some(MmcAction::SetSpeed(s)),
                None => None,
            }
        }
    }
}

} // verus!
