//! Verified core of the volume indicator: parsing of the audio server's
//! volume reports, change detection between reports, the icon chosen for a
//! volume, and the configuration loading protocol.

pub mod text;
pub mod sink;
pub mod paths;
pub mod config;
pub mod display;
