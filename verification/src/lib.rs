//! Core of a capture-card viewer: a fixed-point YUY2 to RGB pixel
//! converter, a bounded single-producer/single-consumer audio sample
//! channel with volume scaling, a double-buffered latest-frame store,
//! and the controllers that drive an audio passthrough session and a
//! video capture session.

pub mod audio;
pub mod frame;
pub mod pixels;
pub mod ring;
pub mod settings;
pub mod video;
