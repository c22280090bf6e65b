//! Asynchronous file access over two backends: a local file system, reached
//! through a worker pool, and a remote HTTP origin, reached through ranged
//! requests.
//!
//! This crate holds the decisions of both backends as verified functions:
//! the possession slot that allows one operation per handle, the remote
//! cursor and its seek arithmetic, the range request that a remote read
//! sends, the accumulation of the streamed body into a bounded buffer, the
//! parsing of the length header, and the resolution of the origin. The
//! driver that performs the I/O hands these functions plain values.
pub mod data;
pub mod error;
pub mod http;
pub mod local;
pub mod origin;
pub mod remote;
pub mod slot;

pub use data::{Data, Metadata};
pub use error::Error;
pub use origin::{full_path, set_default_origin, OriginConfig};
pub use remote::{RemoteFile, SeekFrom};
pub use slot::Slot;
