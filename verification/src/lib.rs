//! A verified model of a binding layer around an external barcode-recognition
//! engine.
//!
//! The engine itself is an opaque native library; what this crate verifies is
//! the contract that surrounds it: the numeric constant tables the engine's
//! ABI fixes, single destruction of handles, ownership transfer of pixel
//! buffers, the per-decode session state machine, and the materialization of
//! the engine's result records into caller-owned values.

pub mod codes;
pub mod image;
pub mod scanner;
pub mod session;
pub mod symbol;
pub mod error;
pub mod format;

pub use codes::VideoControlType;
pub use codes::zbar_version;
pub use codes::ZBarColor;
pub use codes::ZBarConfig;
pub use codes::ZBarError;
pub use codes::ZBarModifier;
pub use codes::ZBarOrientation;
pub use codes::ZBarSymbolType;
pub use error::ScanError;
pub use error::classify_create;
pub use error::classify_decode;
pub use format::FORMAT_GRAY;
pub use format::FORMAT_Y800;
pub use format::pack_format;
pub use image::ZBarImage;
pub use scanner::ConfigEntry;
pub use scanner::ZBarImageScanner;
pub use session::ScanPhase;
pub use session::ScanSession;
pub use symbol::SymbolRecord;
pub use symbol::ZBarImageScanResult;
pub use symbol::extract;
pub use symbol::materialize;
