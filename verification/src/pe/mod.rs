//! The structural model of a PE image.
pub mod coff;
pub mod dos;
pub mod file;
pub mod optional_header;
pub mod options;
pub mod sections;

pub use file::image::PEImage;
pub use file::PEFile;
