//! Bulk conversion of camera sensor captures and ordinary images: sensor
//! demosaicing, an ordered filter pipeline, and the bookkeeping of a bounded
//! batch of jobs. All pixel arithmetic is exact integer arithmetic.

pub mod batch;
pub mod commands;
pub mod demosaic;
pub mod encode;
pub mod filters;
pub mod frame;
pub mod image_ops;
pub mod job;
pub mod parallel;
pub mod path;
pub mod raster;
pub mod tone;
