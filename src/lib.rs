//! Driver logic for Waveshare monochrome e-paper panels on the Raspberry Pi.
//!
//! The crate has two halves. [`converter`] turns images and text into the
//! panel's packed one-bit-per-pixel frame format. [`Epd`] sequences the panel's
//! command protocol: each operation (initialise, clear, display, sleep) yields
//! the exact list of bus transactions that a driver performs on the hardware.
pub mod converter;
pub mod epd_configs;
pub mod frame;
pub mod protocol;

pub use converter::{
    image_to_epd, image_to_frame, text_to_epd, ColorMode, ConvertError, CropMode, EpdImageOptions,
    RotationMode, SourceImage,
};
pub use epd_configs::{Action, EpdConfig};
pub use protocol::{BusOp, Epd, ImgSizeMismatchError, PollStep};
