//! Builders for image and image-button widgets of an immediate-mode GUI.
//!
//! A builder collects display parameters and is then built exactly once. The
//! rendering library that lays out, hit-tests and draws lives outside this
//! crate, so a build does not draw anything itself: it yields the exact
//! sequence of calls to forward to that library, and a driver makes them one
//! by one and hands each answer back.

pub mod building;
pub mod call;
pub mod image;
pub mod image_button;
pub mod math;
pub mod texture;
pub mod ui;

pub use building::Build;
pub use call::{Call, StyleVar};
pub use image::Image;
pub use image_button::{ImageButton, ImageButtonDeprecated};
pub use math::{Scalar, Vec2, Vec4};
pub use texture::TextureId;
pub use ui::Ui;
