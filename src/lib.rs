//! Decoding of WAD archives: the fixed-layout records that describe levels
//! and textures, the 8-byte lump names, the linedef flag bits and the lump
//! directory of an archive.
pub mod archive;
pub mod bytes;
pub mod decode;
pub mod error;
pub mod name;
pub mod schema;
pub mod types;
