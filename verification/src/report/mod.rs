//! The text of the reports that the command-line tools print: drive
//! features and capabilities, and ISO 9660 and UDF listings.

pub mod text;
pub mod features;
pub mod drive;
pub mod iso;
pub mod udf;
pub mod walk;
