//! Resolution: from an address, in any of the forms it can take, to the
//! endpoint that is to be bound or dialed.

use vstd::prelude::*;
use vstd::utf8::encode_utf8;
use crate::addr::{AbstractAddr, IpSocketAddr, UnixSocketAddr};
use crate::error::ResolveError;
use crate::target::{Target, TargetView, Transport};
use crate::text::{names_local, resolve_text, text_target, LOCAL_PREFIX};

verus! {

/// The outcome of a resolution, with the endpoint taken by its view.
pub open spec fn plan_view(plan: Result<Target<'_>, ResolveError>) -> Result<
    TargetView,
    ResolveError,
> {
    match plan {
        Ok(target) => Ok(target@),
        Err(error) => Err(error),
    }
}

/// An address that can be resolved to an endpoint to listen at or to connect
/// to. Resolution makes no system call: it says which call is to be made, or
/// why none is.
pub trait AbstractToSocketAddrs {
    /// The endpoint at which a listener for this address is bound, or the
    /// reason why none can be.
    spec fn bind_plan(&self) -> Result<TargetView, ResolveError>;

    /// The endpoint that a connection to this address dials, or the reason
    /// why none can be.
    spec fn connect_plan(&self) -> Result<TargetView, ResolveError>;

    /// Resolves this address for listening.
    fn bind_any(&self) -> (plan: Result<Target<'_>, ResolveError>)
        ensures
            plan_view(plan) == self.bind_plan(),
    ;

    /// Resolves this address for connecting.
    fn connect_any(&self) -> (plan: Result<Target<'_>, ResolveError>)
        ensures
            plan_view(plan) == self.connect_plan(),
    ;
}

/// A structured network address is bound and dialed as it is.
impl AbstractToSocketAddrs for IpSocketAddr {
    open spec fn bind_plan(&self) -> Result<TargetView, ResolveError> {
        Ok(TargetView::Socket(*self))
    }

    open spec fn connect_plan(&self) -> Result<TargetView, ResolveError> {
        Ok(TargetView::Socket(*self))
    }

    fn bind_any(&self) -> (plan: Result<Target<'_>, ResolveError>) {
        Ok(Target::Socket(*self))
    }

    fn connect_any(&self) -> (plan: Result<Target<'_>, ResolveError>) {
        Ok(Target::Socket(*self))
    }
}

/// A host and a port are handed on as they are: the host goes to name
/// resolution, and is not searched for the prefix of a local address.
impl AbstractToSocketAddrs for (&str, u16) {
    open spec fn bind_plan(&self) -> Result<TargetView, ResolveError> {
        Ok(TargetView::HostPort(self.0@, self.1))
    }

    open spec fn connect_plan(&self) -> Result<TargetView, ResolveError> {
        Ok(TargetView::HostPort(self.0@, self.1))
    }

    fn bind_any(&self) -> (plan: Result<Target<'_>, ResolveError>) {
        Ok(Target::HostPort(self.0, self.1))
    }

    fn connect_any(&self) -> (plan: Result<Target<'_>, ResolveError>) {
        Ok(Target::HostPort(self.0, self.1))
    }
}

/// A structured local address is the address of an endpoint that exists:
/// it can be dialed if it has a path, and never bound.
impl AbstractToSocketAddrs for UnixSocketAddr {
    open spec fn bind_plan(&self) -> Result<TargetView, ResolveError> {
        Err(ResolveError::AlreadyExists)
    }

    open spec fn connect_plan(&self) -> Result<TargetView, ResolveError> {
        match self@ {
            Some(path) => Ok(TargetView::Path(path)),
            None => Err(ResolveError::NotFound),
        }
    }

    /// The address of an endpoint that exists already is never bound anew:
    /// no endpoint is handed out for a system call.
    fn bind_any(&self) -> (plan: Result<Target<'_>, ResolveError>)
        ensures
            plan matches Err(ResolveError::AlreadyExists),
    {
        Err(ResolveError::AlreadyExists)
    }

    /// An endpoint with a path is dialed at that path; an unnamed one cannot
    /// be dialed, and no endpoint is handed out for a system call.
    fn connect_any(&self) -> (plan: Result<Target<'_>, ResolveError>)
        ensures
            self@ is None <==> plan matches Err(ResolveError::NotFound),
            self@ is Some <==> plan is Ok,
    {
        match self.as_pathname() {
            Some(path) => Ok(Target::Path(path)),
            None => Err(ResolveError::NotFound),
        }
    }
}

/// A text resolves by its prefix, as [`resolve_text`] does where the local
/// transport is available. Resolving a text never fails.
impl AbstractToSocketAddrs for str {
    open spec fn bind_plan(&self) -> Result<TargetView, ResolveError> {
        Ok(text_target(self@, true))
    }

    open spec fn connect_plan(&self) -> Result<TargetView, ResolveError> {
        Ok(text_target(self@, true))
    }

    fn bind_any(&self) -> (plan: Result<Target<'_>, ResolveError>) {
        Ok(resolve_text(self, true))
    }

    fn connect_any(&self) -> (plan: Result<Target<'_>, ResolveError>) {
        Ok(resolve_text(self, true))
    }
}

/// A borrowed text resolves as the text itself.
impl AbstractToSocketAddrs for &str {
    open spec fn bind_plan(&self) -> Result<TargetView, ResolveError> {
        Ok(text_target(self@, true))
    }

    open spec fn connect_plan(&self) -> Result<TargetView, ResolveError> {
        Ok(text_target(self@, true))
    }

    fn bind_any(&self) -> (plan: Result<Target<'_>, ResolveError>) {
        Ok(resolve_text(self, true))
    }

    fn connect_any(&self) -> (plan: Result<Target<'_>, ResolveError>) {
        Ok(resolve_text(self, true))
    }
}

/// An address of either transport resolves as the address it holds.
impl AbstractToSocketAddrs for AbstractAddr {
    open spec fn bind_plan(&self) -> Result<TargetView, ResolveError> {
        match self {
            AbstractAddr::Ip(addr) => addr.bind_plan(),
            AbstractAddr::Unix(addr) => addr.bind_plan(),
        }
    }

    open spec fn connect_plan(&self) -> Result<TargetView, ResolveError> {
        match self {
            AbstractAddr::Ip(addr) => addr.connect_plan(),
            AbstractAddr::Unix(addr) => addr.connect_plan(),
        }
    }

    fn bind_any(&self) -> (plan: Result<Target<'_>, ResolveError>) {
        match self {
            AbstractAddr::Ip(addr) => addr.bind_any(),
            AbstractAddr::Unix(addr) => addr.bind_any(),
        }
    }

    fn connect_any(&self) -> (plan: Result<Target<'_>, ResolveError>) {
        match self {
            AbstractAddr::Ip(addr) => addr.connect_any(),
            AbstractAddr::Unix(addr) => addr.connect_any(),
        }
    }
}

/// A text that begins with `unix:` is bound, and is dialed, on the local
/// transport, at the path that is left when the five characters of the prefix
/// are taken off: the rest of the text as it stands.
pub proof fn lemma_local_text(text: &str)
    requires
        names_local(text@),
    ensures
        LOCAL_PREFIX@.len() == 5,
        text.bind_plan() == Ok::<TargetView, ResolveError>(
            TargetView::Path(encode_utf8(text@.skip(5))),
        ),
        text.connect_plan() == text.bind_plan(),
        text.bind_plan()->Ok_0.transport() == Transport::Local,
{
    crate::text::lemma_local_prefix();
}

/// A text that does not begin with `unix:` is bound, and is dialed, on the
/// network transport, and the whole text is what goes to host name
/// resolution.
pub proof fn lemma_other_text(text: &str)
    requires
        !names_local(text@),
    ensures
        text.bind_plan() == Ok::<TargetView, ResolveError>(TargetView::Host(text@)),
        text.connect_plan() == text.bind_plan(),
        text.bind_plan()->Ok_0.transport() == Transport::Network,
{
}

/// Binding at the address of a local endpoint, which is the address of
/// something that exists already, fails with `AlreadyExists` whatever the
/// address holds, on its own and inside an [`AbstractAddr`].
pub proof fn lemma_bind_existing(addr: UnixSocketAddr)
    ensures
        addr.bind_plan() == Err::<TargetView, ResolveError>(ResolveError::AlreadyExists),
        AbstractAddr::Unix(addr).bind_plan() == addr.bind_plan(),
{
}

/// Connecting to an unnamed local endpoint fails with `NotFound`, on its own
/// and inside an [`AbstractAddr`]; a named one is dialed at its path.
pub proof fn lemma_connect_local(addr: UnixSocketAddr)
    ensures
        addr@ is None ==> addr.connect_plan() == Err::<TargetView, ResolveError>(
            ResolveError::NotFound,
        ),
        addr@ matches Some(path) ==> addr.connect_plan() == Ok::<TargetView, ResolveError>(
            TargetView::Path(path),
        ),
        AbstractAddr::Unix(addr).connect_plan() == addr.connect_plan(),
{
}

/// A structured address never goes through the prefix rule: a network
/// address is bound and dialed as it is, on the network transport, and a
/// local address that can be dialed is dialed on the local transport.
pub proof fn lemma_structured_transport(addr: AbstractAddr)
    ensures
        addr matches AbstractAddr::Ip(ip) ==> {
            &&& addr.bind_plan() == Ok::<TargetView, ResolveError>(TargetView::Socket(ip))
            &&& addr.connect_plan() == addr.bind_plan()
            &&& TargetView::Socket(ip).transport() == Transport::Network
        },
        addr is Unix ==> addr.bind_plan() is Err,
        addr is Unix ==> (addr.connect_plan() matches Ok(target) ==> target.transport()
            == Transport::Local),
{
}

} // verus!
