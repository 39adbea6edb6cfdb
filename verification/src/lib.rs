//! Verified core of a self-hosted security-camera server: motion detection,
//! motion-session bookkeeping, camera settings and the camera registry, the
//! Telegram bot's command handling, and the text and byte formats the
//! server produces.

pub mod bot;
pub mod clock;
pub mod config;
pub mod frame;
pub mod laws;
pub mod naming;
pub mod registry;
pub mod session;
pub mod stream;
pub mod text;
pub mod tracker;
pub mod video;
