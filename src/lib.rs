//! Batch conversion of PNG trees into mirrored JPEG trees: the decisions,
//! the pixel handling and the path arithmetic, each with its contract.

pub mod pixels;
pub mod quality;
pub mod job;
pub mod paths;
pub mod summary;
pub mod walk;
