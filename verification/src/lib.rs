//! A deliberately narrow JPEG "glitch" library.
//!
//! The library splits a byte stream into six fixed-width header regions
//! followed by a variable-length entropy-coded body delimited by the
//! end-of-image marker pair `(0xFF, 0xD9)`, rewrites the body with a
//! per-byte substitution, and reserializes the regions into an output
//! buffer. It is not a general JPEG codec: the header widths are those of
//! one specific encoder profile, and inputs with any other layout are
//! rejected.

pub mod error;
pub mod hex;
pub mod image;
pub mod laws;
pub mod parse;
pub mod serialize;
pub mod transform;

pub use error::JPGError;
pub use image::JPG;
pub use parse::parse;
pub use serialize::create_binary;
pub use transform::break_jpg;
pub use transform::f;
