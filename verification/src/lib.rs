//! Verified core of a wand-style GraphicsMagick binding.
//!
//! The native library does all of the image work; this crate holds the
//! binding's own logic with contracts checked by Verus: the translation
//! tables between typed enum variants and native integer constants, the
//! translation of native failures into typed errors, the one-time
//! initialization guard, argument validation, version checks for operations
//! that newer native releases introduced, and the allocation ledger that
//! states the ownership discipline of the native handles. The unsafe glue
//! that actually calls into the native library stands outside this crate and
//! is written against these contracts.

pub mod error;
pub mod handles;
pub mod init;
pub mod types;
pub mod utils;
pub mod version;

pub use error::{Error, Exception, ExceptionType};
pub use init::InitGuard;
pub use utils::{export_buffer_len, max_rgb, validate_colorspace, validate_dimensions, QuantumDepth};
