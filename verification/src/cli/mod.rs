//! The arguments of the command-line tools, and the choices they make on
//! them.

pub mod cd_drive;
pub mod iso_read;
pub mod mmc_tool;
