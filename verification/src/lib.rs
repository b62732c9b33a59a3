//! A safety layer for hosting a non-reentrant, single-threaded script
//! interpreter.
//!
//! The interpreter itself is reached through a small set of native entry
//! points that this crate never calls. Instead every operation decides which
//! native call is due, records it as pending while the runtime's lock is held,
//! and leaves it to the embedding shell to perform the call and report back.
//! What is decided here is verified: the lock brackets every call, the native
//! interpreter is released only after its last holder is gone, and values
//! crossing between host and script either convert exactly or fail with a
//! typed error.

pub mod context;
pub mod error;
pub mod model;
pub mod runtime;
pub mod text;
pub mod value;

pub use context::Context;
pub use error::{Error, NulError, Utf8Error};
pub use runtime::{NativeCall, Runtime};
pub use text::NativeString;
pub use value::{from_js, to_js, Host, HostKind, Value};
