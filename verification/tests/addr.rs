use abstract_socket::{
    AbstractAddr, AbstractToSocketAddrs, IpSocketAddr, ResolveError, Target, Transport,
    UnixSocketAddr,
};

fn loopback(port: u16) -> IpSocketAddr {
    IpSocketAddr::V4 { ipv4: 0x7f00_0001, port }
}

fn loopback6(port: u16) -> IpSocketAddr {
    IpSocketAddr::V6 { ipv6: 1, port, flowinfo: 0, scope_id: 0 }
}

#[test]
fn port_of_network_address() {
    assert_eq!(AbstractAddr::Ip(loopback(8080)).port(), Some(8080));
    assert_eq!(AbstractAddr::Ip(loopback(0)).port(), Some(0));
    assert_eq!(AbstractAddr::Ip(loopback6(65535)).port(), Some(65535));
    assert_eq!(loopback(443).port(), 443);
    assert_eq!(loopback6(53).port(), 53);
}

#[test]
fn local_address_has_no_port() {
    assert_eq!(AbstractAddr::Unix(UnixSocketAddr::unnamed()).port(), None);
    let named = UnixSocketAddr::from_pathname(b"/tmp/test.sock".to_vec());
    assert_eq!(AbstractAddr::Unix(named).port(), None);
}

#[test]
fn pathname_is_kept_byte_for_byte() {
    let named = UnixSocketAddr::from_pathname(vec![b'/', 0xff, b' ', b':']);
    assert_eq!(named.as_pathname(), Some(&[b'/', 0xff, b' ', b':'][..]));
    assert!(!named.is_unnamed());
    let unnamed = UnixSocketAddr::unnamed();
    assert_eq!(unnamed.as_pathname(), None);
    assert!(unnamed.is_unnamed());
}

#[test]
fn network_address_resolves_to_itself() {
    let addr = loopback(9000);
    assert_eq!(addr.bind_any(), Ok(Target::Socket(addr)));
    assert_eq!(addr.connect_any(), Ok(Target::Socket(addr)));
    let addr6 = IpSocketAddr::V6 { ipv6: 0xfe80 << 112 | 7, port: 1, flowinfo: 3, scope_id: 2 };
    assert_eq!(addr6.bind_any(), Ok(Target::Socket(addr6)));
    assert_eq!(addr6.connect_any().unwrap().transport(), Transport::Network);
}

#[test]
fn ephemeral_port_is_passed_on() {
    let addr = loopback(0);
    assert_eq!(addr.bind_any(), Ok(Target::Socket(IpSocketAddr::V4 { ipv4: 0x7f00_0001, port: 0 })));
}

#[test]
fn host_and_port_pair_resolves_to_itself() {
    let pair = ("localhost", 8080u16);
    assert_eq!(pair.bind_any(), Ok(Target::HostPort("localhost", 8080)));
    assert_eq!(pair.connect_any(), Ok(Target::HostPort("localhost", 8080)));
    assert_eq!(pair.bind_any().unwrap().transport(), Transport::Network);
}

#[test]
fn host_of_a_pair_is_not_searched_for_the_prefix() {
    let pair = ("unix:abc", 1u16);
    assert_eq!(pair.bind_any(), Ok(Target::HostPort("unix:abc", 1)));
    assert_eq!(pair.connect_any(), Ok(Target::HostPort("unix:abc", 1)));
}

#[test]
fn binding_a_local_address_fails_with_already_exists() {
    let named = UnixSocketAddr::from_pathname(b"/tmp/test.sock".to_vec());
    assert_eq!(named.bind_any(), Err(ResolveError::AlreadyExists));
    assert_eq!(UnixSocketAddr::unnamed().bind_any(), Err(ResolveError::AlreadyExists));
    assert_eq!(AbstractAddr::Unix(named).bind_any(), Err(ResolveError::AlreadyExists));
    assert_eq!(
        AbstractAddr::Unix(UnixSocketAddr::unnamed()).bind_any(),
        Err(ResolveError::AlreadyExists)
    );
}

#[test]
fn connecting_to_an_unnamed_address_fails_with_not_found() {
    assert_eq!(UnixSocketAddr::unnamed().connect_any(), Err(ResolveError::NotFound));
    assert_eq!(
        AbstractAddr::Unix(UnixSocketAddr::unnamed()).connect_any(),
        Err(ResolveError::NotFound)
    );
}

#[test]
fn connecting_to_a_named_address_dials_its_path() {
    let named = UnixSocketAddr::from_pathname(b"/tmp/test.sock".to_vec());
    assert_eq!(named.connect_any(), Ok(Target::Path(b"/tmp/test.sock")));
    assert_eq!(named.connect_any().unwrap().transport(), Transport::Local);
    let wrapped = AbstractAddr::Unix(named);
    assert_eq!(wrapped.connect_any(), Ok(Target::Path(b"/tmp/test.sock")));
}

#[test]
fn path_of_an_address_is_not_searched_for_the_prefix() {
    let named = UnixSocketAddr::from_pathname(b"unix:abc".to_vec());
    assert_eq!(named.connect_any(), Ok(Target::Path(b"unix:abc")));
}

#[test]
fn union_resolves_as_the_variant_it_holds() {
    let ip = loopback(7);
    let wrapped = AbstractAddr::Ip(ip);
    assert_eq!(wrapped.bind_any(), ip.bind_any());
    assert_eq!(wrapped.connect_any(), ip.connect_any());
    assert_eq!(wrapped.bind_any(), Ok(Target::Socket(ip)));
}

#[test]
fn addresses_convert_into_the_union() {
    let ip = loopback6(22);
    let wrapped: AbstractAddr = ip.into();
    assert!(matches!(wrapped, AbstractAddr::Ip(inner) if inner == ip));
    let named = UnixSocketAddr::from_pathname(b"/run/s".to_vec());
    let wrapped = AbstractAddr::from(named);
    assert!(matches!(&wrapped, AbstractAddr::Unix(inner) if inner.as_pathname() == Some(&b"/run/s"[..])));
}

#[test]
fn clone_keeps_the_address() {
    let named = AbstractAddr::Unix(UnixSocketAddr::from_pathname(b"/run/s".to_vec()));
    let copy = named.clone();
    assert_eq!(copy.connect_any(), Ok(Target::Path(b"/run/s")));
    assert_eq!(copy.port(), None);
    let ip = AbstractAddr::Ip(loopback(5));
    assert_eq!(ip.clone().port(), Some(5));
    let unnamed = UnixSocketAddr::unnamed().clone();
    assert!(unnamed.is_unnamed());
}

#[test]
fn failures_carry_their_message() {
    assert_eq!(ResolveError::AlreadyExists.message(), "cannot bind to an existing address");
    assert_eq!(ResolveError::NotFound.message(), "cannot connect to unnamed address");
    assert_ne!(ResolveError::AlreadyExists, ResolveError::NotFound);
}

#[test]
fn transport_of_each_target() {
    assert_eq!(Target::Socket(loopback(1)).transport(), Transport::Network);
    assert_eq!(Target::HostPort("h", 1).transport(), Transport::Network);
    assert_eq!(Target::Host("h:1").transport(), Transport::Network);
    assert_eq!(Target::Path(b"/p").transport(), Transport::Local);
}
