//! Image preprocessing primitives: bounded thumbnails, dimension probing and
//! content fingerprints.
//!
//! Each operation is a function of the bytes of one file. Reading the file is
//! left to the caller, who hands over the outcome of the read: the bytes, or
//! the text of the failure. A failed read is then reported in the same error
//! type as a failed decode, and no operation touches the disk or keeps state.
//!
//! - `thumbnail`: decode, scale into a bounding box, encode as PNG.
//! - `dimensions`: width and height from the container's header.
//! - `fingerprint`: the FNV-1a hash of the bytes in hexadecimal.
//! - `geometry`: the bounding-box arithmetic and its laws.
//! - `png`: the start of a PNG stream.
//! - `codec`: the boundary to the `image` crate.
//! - `error`: the error that every operation reports.

pub mod codec;
pub mod dimensions;
pub mod error;
pub mod fingerprint;
pub mod geometry;
pub mod png;
pub mod thumbnail;

pub use dimensions::get_image_dimensions;
pub use fingerprint::calculate_image_hash;
pub use thumbnail::create_thumbnail_fast;
