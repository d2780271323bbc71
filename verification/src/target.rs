//! What is handed to the operating system once an address is resolved.

use vstd::prelude::*;
use crate::addr::IpSocketAddr;

verus! {

/// The transport that an endpoint belongs to.
#[derive(Clone, Copy, Debug, PartialEq, Eq, Structural)]
pub enum Transport {
    /// Stream sockets addressed by IP address and port.
    Network,
    /// Stream sockets of this host, addressed by filesystem path.
    Local,
}

/// The endpoint to bind or to dial, in the form in which the system call
/// takes it. The first three variants belong to the network transport, the
/// last one to the local transport.
#[derive(Clone, Copy, Debug, PartialEq, Eq)]
pub enum Target<'a> {
    /// A structured network address.
    Socket(IpSocketAddr),
    /// A host, as a name or a literal address, and a port.
    HostPort(&'a str, u16),
    /// A text for host name resolution, such as `host:port`.
    Host(&'a str),
    /// The path of a local socket, byte for byte.
    Path(&'a [u8]),
}

/// What a [`Target`] stands for.
pub enum TargetView {
    /// A structured network address.
    Socket(IpSocketAddr),
    /// A host and a port.
    HostPort(Seq<char>, u16),
    /// A text for host name resolution.
    Host(Seq<char>),
    /// The bytes of the path of a local socket.
    Path(Seq<u8>),
}

impl TargetView {
    /// The transport on which this endpoint is bound or dialed.
    pub open spec fn transport(self) -> Transport {
        match self {
            TargetView::Path(_) => Transport::Local,
            _ => Transport::Network,
        }
    }
}

impl<'a> View for Target<'a> {
    type V = TargetView;

    open spec fn view(&self) -> TargetView {
        match *self {
            Target::Socket(addr) => TargetView::Socket(addr),
            Target::HostPort(host, port) => TargetView::HostPort(host@, port),
            Target::Host(text) => TargetView::Host(text@),
            Target::Path(path) => TargetView::Path(path@),
        }
    }
}

impl<'a> Target<'a> {
    /// The transport on which this endpoint is bound or dialed.
    pub fn transport(&self) -> (transport: Transport)
        ensures
            transport == self@.transport(),
    {
        match self {
            Target::Path(_) => Transport::Local,
            _ => Transport::Network,
        }
    }
}

} // verus!
