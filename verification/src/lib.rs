//! A small library around the `.lzma` (LZMA_Alone) file format: it frames a
//! compressed stream with the original (uncompressed) size, so that a reader
//! with no external metadata can learn that size and recover the plain bytes.
//!
//! The layout of a framed buffer is:
//! - bytes `[0, 5)`: the low five bytes of the original size, little-endian;
//! - bytes `[5, ..)`: a standard `.lzma` stream, except that its own size
//!   field — bytes `[10, 18)` of the framed buffer — is overwritten with the
//!   full eight-byte little-endian original size, in place of the encoder's
//!   "unknown size" placeholder.

pub mod codec;
pub mod frame;
