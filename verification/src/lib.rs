//! A codec for the Windows Portable Executable (PE/COFF) format.
//!
//! A byte buffer is parsed into a typed model of the image, and the model is
//! written back to bytes, either as a patch of an existing buffer or as a
//! freshly laid out file. Every record has a mathematical encoding, and the
//! readers and writers are proved against it.
pub mod containers;
pub mod error;
pub mod io;
pub mod pe;

pub use error::PerwError;
pub use pe::options::Options;
pub use pe::PEFile;
