//! Conversion pipeline that turns an uploaded still image or short video clip
//! into a size-bounded sticker asset.
//!
//! The crate covers the algorithmic core: routing an attachment by its declared
//! kind and name, enforcing the input-size ceiling, the still-image decode /
//! resize / encode path with its lossless fallback, and the adaptive
//! lossless-to-lossy retry that bounds the size of a transcoded clip.

pub mod clip;
pub mod media;
pub mod router;
pub mod still;
