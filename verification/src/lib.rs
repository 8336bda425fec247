//! Safe, verified core of a binding layer over a native computer-vision
//! library's C API.
//!
//! The unsafe shell that actually crosses the FFI boundary lives outside this
//! crate; everything here is the bookkeeping that shell relies on and that can
//! be stated and proved on plain values:
//!
//! * the numeric flag catalogs mirrored bit-exactly from the native headers
//!   ([`highgui`], [`imgcodecs`], [`xfeatures2d`]);
//! * translation of native status codes into `Result` values ([`error`]);
//! * marshaling rules for arguments that cross the boundary: NUL-terminated
//!   string buffers and interleaved codec parameter pairs ([`marshal`]);
//! * the ledger of live native handles, so a handle is released exactly once
//!   and never used after release ([`handle`]);
//! * the registry of callback slots, so a callback can no longer be dispatched
//!   once it is unregistered ([`callback`]).

pub mod callback;
pub mod error;
pub mod handle;
pub mod highgui;
pub mod imgcodecs;
pub mod marshal;
pub mod xfeatures2d;
