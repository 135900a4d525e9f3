//! Backend logic of a small desktop host: counting the attached monitors,
//! turning a captured monitor frame into a `data:image/webp;base64,` URI, and
//! choosing the key events that a paste or type command sends.
//!
//! The host's own queries — enumerating monitors, grabbing a frame, synthesising
//! key events — are outside work; their outcomes come in as plain values, and
//! every decision and every byte of the result string is specified and verified
//! here.

pub mod b64;
pub mod commands;
pub mod input;
pub mod webp;

pub use commands::{
    capture_target, data_uri_from_webp, image_to_data_uri, monitor_count, screenshot_encode,
};
pub use input::{modifier_for_platform, paste_chord, KeyAction, ModifierKey};
pub use webp::RawImage;
