//! Safe, contract-checked core of a dynamic binding to a vendor lighting SDK.
//!
//! The library models the pieces of the binding that are pure decisions and
//! conversions: locating the vendor module, assembling the all-or-nothing
//! entry-point table, the single-live-session lifecycle, and the marshaling
//! of colors, durations and wide-character strings into the shapes the
//! native calling convention expects.  The operating-system calls themselves
//! (registry reads, module loading, the native entry points) stay outside;
//! they hand plain values in and take plain values back.

pub mod binder;
pub mod color;
pub mod duration;
pub mod errors;
pub mod keys;
pub mod locator;
pub mod session;
pub mod wide;

pub use binder::FunctionTable;
pub use binder::Handle;
pub use color::PercentColor;
pub use duration::DURATION_INFINITE;
pub use errors::Error;
pub use keys::DeviceType;
pub use keys::Key;
pub use session::Session;
pub use session::BITMAP_BYTES_PER_KEY;
pub use session::BITMAP_HEIGHT;
pub use session::BITMAP_SIZE;
pub use session::BITMAP_WIDTH;
