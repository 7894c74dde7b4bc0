//! Metadata codec for an image viewer: decodes the TIFF-structured metadata
//! block embedded in JPEG, WebP, PNG and BMP files, indexes its tags, and
//! patches selected fields in place. Small viewer settings types live in
//! `viewer`.

pub mod block;
pub mod bytes;
pub mod decode;
pub mod external;
pub mod fields;
pub mod index;
pub mod laws;
pub mod patch;
pub mod tags;
pub mod text;
pub mod thumbnail;
pub mod value;
pub mod viewer;

