//! Bookkeeping for one process-wide connection to an X11 display server.
//!
//! The server reports protocol errors through a single global callback that
//! carries no link to the request that caused them. This crate turns that
//! side channel into a slot attached to the connection, which callers query
//! and clear on demand, and it keeps the record of which optional X11
//! libraries were loaded.
//!
//! Nothing here performs a native call. Loading a library, opening the
//! connection and fetching an error text are handed in by the caller as
//! closures, and every decision around them is verified.

pub mod context;
pub mod display;
pub mod error;
pub mod laws;
pub mod library;
pub mod registry;
pub mod text;

pub use context::{x_error_callback, Context, ContextView, SharedDisplay, Shared, CALLBACK_RESULT};
pub use display::{Display, DisplayView, Teardown};
pub use error::{Error, ErrorView, LoadError, LoadErrorView, XError, XErrorView};
pub use library::Library;
pub use registry::{ExtensionHandle, Registry};
pub use text::{error_text, ERROR_TEXT_CAPACITY};
