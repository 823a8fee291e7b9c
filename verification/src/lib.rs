//! Safety wrapper around a native font-rendering library's global
//! library handle: lifecycle bookkeeping for the opaque root object,
//! allocator-bridge semantics, and translation of native status codes
//! into a result type. The foreign calls themselves live outside this
//! crate; everything here is verified logic over plain values.

pub mod alloc_bridge;
pub mod error;
pub mod library;

pub use error::Error;
pub use error::FtResult;
pub use library::Face;
pub use library::Library;
