//! Resolution of HTTP requests to regular files beneath a root directory.
//!
//! The library decides, for one request, which file (if any) should be
//! looked up on disk, and what to answer once the lookup is known. It never
//! touches the filesystem itself: the caller performs the single metadata
//! lookup and hands its result back.

pub mod decode;
pub mod handler;
pub mod path;

pub use crate::handler::StaticFilesHandler;
pub use crate::path::safe_path;
