//! Image/tensor conversion core for a neural style-transfer pipeline.
//!
//! The library bridges encoded image bytes (or raw RGBA frames) and the
//! flat planar tensor a style model consumes and produces, and blends the
//! stylized result back over the original image. Decoding and resampling
//! are delegated to an external codec; everything else is verified here.
//!
//! The core works in the 8-bit sample domain end to end: a tensor position
//! holds the 8-bit sample of one colour channel of one pixel, and blending
//! weights are exact rationals. The host that talks to the model converts
//! each sample to the unit-range scale the model expects and back with one
//! matched pair of per-sample maps, so the conversion logic proved here is
//! exactly the logic that runs.

pub mod adapter;
pub mod blend;
mod codec;
pub mod error;
pub mod pixel;
pub mod tensor;

pub use adapter::OriginalSource;
pub use adapter::postprocess_image;
pub use adapter::postprocess_video_frame;
pub use adapter::preprocess_image;
pub use blend::BlendWeight;
pub use blend::blend_pixels;
pub use error::ImageError;
pub use pixel::PixelBuffer;
pub use pixel::Rgba;
