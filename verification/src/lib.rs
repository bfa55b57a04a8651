//! Playback, MPRIS and waveform logic of a small music player.
//!
//! The GTK widgets, the GStreamer pipeline and the D-Bus service live around this
//! library; they hand it plain values and act on the plain values it returns.

pub mod playback;
pub mod mpris;
pub mod waveform_generator;
pub mod waveform_view;
