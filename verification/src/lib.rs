//! Golden-ratio photo framing: the verified core of decoding metadata,
//! laying out the frame and validating pipeline options.

pub mod batch;
pub mod cache;
pub mod canvas;
pub mod caption;
pub mod category;
pub mod classic;
pub mod decode;
pub mod composition;
pub mod encode;
pub mod exif;
pub mod exposure;
pub mod fixtures;
pub mod format;
pub mod geometry;
pub mod golden;
pub mod heif;
pub mod meta;
pub mod options;
pub mod orientation;
pub mod photograph;
pub mod pixels;
pub mod preset;
pub mod primitives;
pub mod provenance;
pub mod render;
pub mod spec;
pub mod sqrt5;
pub mod text;
