//! A real-time audio playback core: a streaming decode/playback pipeline
//! (transport, decode scheduler, frame ring, renderer) together with the
//! spatial-mixing stage that positions monophonic emitters in stereo.
//!
//! Sample values and gains are fixed-point integers; conversions to and
//! from hardware sample formats happen at the crate's boundary.

pub mod decoder;
pub mod frame;
pub mod listener;
pub mod renderer;
pub mod rings;
pub mod scheduler;
pub mod sends;
pub mod settings;
pub mod spatial;
pub mod transport;
