//! Render pipeline for LED-matrix display modules driven over a serial
//! binary protocol: command framing, image-to-frame planning, the serial
//! port's connection lifecycle, and the dispatch of render tasks to the
//! configured sides.

pub mod protocol;
pub mod bw_image;
pub mod gray_image;
pub mod device_version;
pub mod config;
pub mod port;
pub mod transmission;
pub mod render;
pub mod api;
pub mod dispatch;
