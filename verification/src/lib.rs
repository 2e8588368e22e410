//! A uniform in-memory picture of an image and its metadata, filled either by
//! hand or from the answer of an image service.
//!
//! [`image`] holds the record and its builder, [`fetch`] the way from a wish
//! for an image to the image, and [`images`] what is particular to each
//! service. Nothing here touches the network: a request is handed to the
//! caller to be sent, and the answer is taken back as text.

pub mod fetch;
pub mod image;
pub mod images;
pub mod json;
pub mod text;
