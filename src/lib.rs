//! A viewer's image cache and decoder: a sliding window of decoded images
//! around the picture being shown, and EXIF-aware decoding into RGBA pixels.
pub mod cache;
pub mod decode;
pub mod extension;
pub mod navigation;
pub mod pixels;

pub use cache::{ImageBuffer, ImageStatus};
pub use decode::{load_image_from_bytes, DecodeError, DecodedImage, ExifOrientation};
pub use extension::FileExtension;
pub use pixels::{apply_orientation, Orientation, PixelBuffer, Turn};
