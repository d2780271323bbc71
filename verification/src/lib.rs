//! Transport-independent socket addressing.
//!
//! A stream socket is either a network socket, addressed by IP address and
//! port, or a local socket of this host, addressed by a filesystem path.
//! This library decides, for an address given as text or as a structured
//! value, which of the two it names and which endpoint is to be bound or
//! dialed. It makes no system call itself: the caller performs the call on
//! the [`Target`] that resolution hands out.

pub mod addr;
pub mod error;
pub mod resolve;
pub mod target;
pub mod text;

pub use addr::{AbstractAddr, IpSocketAddr, UnixSocketAddr};
pub use error::ResolveError;
pub use resolve::AbstractToSocketAddrs;
pub use target::{Target, Transport};
pub use text::{resolve_text, LOCAL_PREFIX};
