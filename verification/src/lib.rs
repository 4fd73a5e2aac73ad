//! A small library that composes a color palette image from three colors.
//!
//! Three overlapping circles are laid out on a square canvas; each circle is
//! filled with one of the colors, overlap regions are filled with channel-wise
//! averages, and the circle boundaries are drawn in black. A sampler reduces
//! a source image to its dominant color, and a filesystem key scheme maps an
//! emoji codepoint sequence to the path of its glyph image.

pub mod canvas;
pub mod drawing;
pub mod emoji_store;
