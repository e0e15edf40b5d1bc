//! The suppliers of a clip: each answers a request for a block of
//! destination frames, starting at a source frame, with the count of source
//! frames the block takes up, whether the material goes on, and which
//! frames of the source the block plays.

pub mod chain;
pub mod fade;
pub mod looper;
pub mod material;
pub mod request;
pub mod section;
pub mod stretcher;
