//! Rendering of QR code module grids into images.
//!
//! The hard combinatorial work of QR encoding is delegated to the `qrcode`
//! crate, which turns text into a square grid of dark and light modules.
//! This crate owns everything around that call and proves it correct:
//! layout arithmetic (mapping a target pixel size and a module margin onto
//! a whole number of pixels per module), rasterization of a grid into an
//! RGB pixel buffer, emission of the rectangle list behind an SVG document,
//! URL normalization, and parsing of the selector strings for the error
//! correction level and the output format.

pub mod encode;
pub mod grid;
pub mod layout;
pub mod options;
pub mod raster;
pub mod render;
pub mod stats;
pub mod validate;
pub mod vector;
