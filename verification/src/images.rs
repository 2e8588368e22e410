//! One module for each image service.

pub mod waifu_im;
