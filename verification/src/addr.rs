//! Socket addresses of both transports, held as plain values.

use vstd::prelude::*;

verus! {

/// The address of a network endpoint: an IP address and a port.
#[derive(Clone, Copy, Debug, PartialEq, Eq, Hash, Structural)]
pub enum IpSocketAddr {
    /// An IPv4 address and a port. The address is held as one 32-bit number
    /// whose most significant byte is the first octet.
    V4 { ipv4: u32, port: u16 },
    /// An IPv6 address, a port, the flow information and the scope
    /// identifier. The address is held as one 128-bit number whose most
    /// significant 16 bits are the first segment.
    V6 { ipv6: u128, port: u16, flowinfo: u32, scope_id: u32 },
}

impl IpSocketAddr {
    /// The port of this address.
    pub open spec fn spec_port(&self) -> u16 {
        match *self {
            IpSocketAddr::V4 { port, .. } => port,
            IpSocketAddr::V6 { port, .. } => port,
        }
    }

    /// The port of this address.
    #[verifier::when_used_as_spec(spec_port)]
    pub fn port(&self) -> (port: u16)
        ensures
            port == self.spec_port(),
    {
        match self {
            IpSocketAddr::V4 { port, .. } => *port,
            IpSocketAddr::V6 { port, .. } => *port,
        }
    }
}

/// The address of a local endpoint: the filesystem path it is bound to, or
/// nothing where the endpoint is unnamed.
#[derive(Debug)]
pub struct UnixSocketAddr {
    pathname: Option<Vec<u8>>,
}

impl View for UnixSocketAddr {
    type V = Option<Seq<u8>>;

    /// The bytes of the path, or `None` for an unnamed endpoint.
    closed spec fn view(&self) -> Option<Seq<u8>> {
        match self.pathname {
            Some(path) => Some(path@),
            None => None,
        }
    }
}

impl UnixSocketAddr {
    /// The address of an endpoint that is bound to no path.
    pub fn unnamed() -> (addr: Self)
        ensures
            addr@ == None::<Seq<u8>>,
    {
        UnixSocketAddr { pathname: None }
    }

    /// The address of an endpoint bound to `path`, taken byte for byte.
    pub fn from_pathname(path: Vec<u8>) -> (addr: Self)
        ensures
            addr@ == Some(path@),
    {
        UnixSocketAddr { pathname: Some(path) }
    }

    /// The path this address is bound to, if it has one.
    pub fn as_pathname(&self) -> (path: Option<&[u8]>)
        ensures
            match path {
                Some(bytes) => self@ == Some(bytes@),
                None => self@ == None::<Seq<u8>>,
            },
    {
        match &self.pathname {
            Some(path) => Some(path.as_slice()),
            None => None,
        }
    }

    /// Whether this address is bound to no path.
    pub fn is_unnamed(&self) -> (unnamed: bool)
        ensures
            unnamed == (self@ is None),
    {
        self.pathname.is_none()
    }
}

impl Clone for UnixSocketAddr {
    fn clone(&self) -> (copy: Self)
        ensures
            copy@ == self@,
    {
        match &self.pathname {
            Some(path) => UnixSocketAddr { pathname: Some(path.clone()) },
            None => UnixSocketAddr { pathname: None },
        }
    }
}

/// The address of an endpoint of either transport.
#[derive(Debug)]
pub enum AbstractAddr {
    /// A network endpoint.
    Ip(IpSocketAddr),
    /// A local endpoint.
    Unix(UnixSocketAddr),
}

/// What an [`AbstractAddr`] stands for.
pub enum AddrView {
    /// A network endpoint.
    Ip(IpSocketAddr),
    /// A local endpoint, by the bytes of its path if it has one.
    Unix(Option<Seq<u8>>),
}

impl View for AbstractAddr {
    type V = AddrView;

    open spec fn view(&self) -> AddrView {
        match self {
            AbstractAddr::Ip(addr) => AddrView::Ip(*addr),
            AbstractAddr::Unix(addr) => AddrView::Unix(addr@),
        }
    }
}

impl AbstractAddr {
    /// The port of a network address; a local address has none.
    pub open spec fn spec_port(&self) -> Option<u16> {
        match self {
            AbstractAddr::Ip(addr) => Some(addr.spec_port()),
            AbstractAddr::Unix(_) => None,
        }
    }

    /// The port of a network address; `None` for a local address, which has
    /// no port.
    #[verifier::when_used_as_spec(spec_port)]
    pub fn port(&self) -> (port: Option<u16>)
        ensures
            port == self.spec_port(),
            port is Some <==> self is Ip,
    {
        match self {
            AbstractAddr::Ip(addr) => Some(addr.port()),
            AbstractAddr::Unix(_) => None,
        }
    }
}

impl Clone for AbstractAddr {
    fn clone(&self) -> (copy: Self)
        ensures
            copy@ == self@,
    {
        match self {
            AbstractAddr::Ip(addr) => AbstractAddr::Ip(*addr),
            AbstractAddr::Unix(addr) => AbstractAddr::Unix(addr.clone()),
        }
    }
}

impl From<IpSocketAddr> for AbstractAddr {
    fn from(addr: IpSocketAddr) -> (wrapped: Self) {
        AbstractAddr::Ip(addr)
    }
}

impl vstd::std_specs::convert::FromSpecImpl<IpSocketAddr> for AbstractAddr {
    open spec fn obeys_from_spec() -> bool {
        true
    }

    open spec fn from_spec(addr: IpSocketAddr) -> Self {
        AbstractAddr::Ip(addr)
    }
}

impl From<UnixSocketAddr> for AbstractAddr {
    fn from(addr: UnixSocketAddr) -> (wrapped: Self) {
        AbstractAddr::Unix(addr)
    }
}

impl vstd::std_specs::convert::FromSpecImpl<UnixSocketAddr> for AbstractAddr {
    open spec fn obeys_from_spec() -> bool {
        true
    }

    open spec fn from_spec(addr: UnixSocketAddr) -> Self {
        AbstractAddr::Unix(addr)
    }
}

} // verus!
