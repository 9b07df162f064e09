//! A small dated-file logger: every record goes to a file whose name is a
//! date template rendered at the moment of writing, and old files can be
//! pruned by age and name pattern.
//!
//! The library decides; the host performs. Each operation takes the facts it
//! needs (the platform, the current time, a directory listing) as plain values
//! and returns what must be written or removed.
pub mod platform;

pub use platform::Platform;
pub mod stamp;

pub use stamp::LocalStamp;
pub mod cleanup;
pub mod logger;
pub mod laws;

pub use logger::Logger;
