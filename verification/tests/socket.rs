//! Socket operations against the live OS: creation, bind, listen,
//! connect/accept, the pending-error query, options and descriptor flags.

use sockraw::consts;
use sockraw::{Domain, HostAddr, Protocol, SockAddr, SockError, Socket, Type, V4Addr};

/// A fresh Unix-domain socket path for this test run.
fn unique_unix_path(tag: &str) -> Vec<u8> {
    let nanos = std::time::SystemTime::now()
        .duration_since(std::time::UNIX_EPOCH)
        .unwrap()
        .as_nanos();
    format!("/tmp/sockraw_{}_{}", tag, nanos).into_bytes()
}

/// Hosts without a routable loopback interface: binding works
/// there, but connecting fails. Such a failure is not this library's.
fn loopback_unroutable(e: &SockError) -> bool {
    matches!(e, SockError::Os(libc::ENETUNREACH) | SockError::Os(libc::EACCES) | SockError::Os(libc::EPERM))
}

fn loopback(port: u16) -> SockAddr {
    let host = HostAddr::V4(V4Addr { octets: [127, 0, 0, 1], port });
    SockAddr::from_host(&host).unwrap()
}

fn port_of(addr: &SockAddr) -> u16 {
    match addr.to_host().unwrap() {
        HostAddr::V4(v4) => v4.port,
        other => panic!("expected an IPv4 address, got {:?}", other),
    }
}

#[test]
fn socket_new_tcp() {
    let socket = Socket::new(Domain::ipv4(), Type::stream(), None).unwrap();
    drop(socket);
}

#[test]
fn socket_new_udp_with_protocol() {
    let socket = Socket::new(Domain::ipv4(), Type::dgram(), Some(Protocol::udp())).unwrap();
    drop(socket);
}

#[test]
fn socket_bind_tcp() {
    let socket = Socket::new(Domain::ipv4(), Type::stream(), None).unwrap();
    socket.bind(&loopback(0)).unwrap();
    let local = socket.local_addr().unwrap();
    assert_eq!(local.family() as i32, consts::AF_INET);
    assert_ne!(port_of(&local), 0);
}

#[test]
fn socket_listen_tcp() {
    let socket = Socket::new(Domain::ipv4(), Type::stream(), None).unwrap();
    socket.bind(&loopback(0)).unwrap();
    socket.listen(1024).unwrap();
}

#[test]
fn socket_connect_accept_tcp() {
    let listener = Socket::new(Domain::ipv4(), Type::stream(), None).unwrap();
    listener.bind(&loopback(0)).unwrap();
    listener.listen(16).unwrap();
    let bound = listener.local_addr().unwrap();

    let client = Socket::new(Domain::ipv4(), Type::stream(), None).unwrap();
    match client.connect(&bound) {
        Ok(()) => {}
        Err(ref e) if loopback_unroutable(e) => return,
        Err(e) => panic!("connect failed: {:?}", e),
    }

    let (accepted, peer) = listener.accept().unwrap();

    // The accepted connection's peer is the client's local address, and
    // the client's peer is the listener's bound address.
    assert_eq!(
        peer.to_host().unwrap(),
        client.local_addr().unwrap().to_host().unwrap()
    );
    assert_eq!(
        accepted.peer_addr().unwrap().to_host().unwrap(),
        client.local_addr().unwrap().to_host().unwrap()
    );
    assert_eq!(
        client.peer_addr().unwrap().to_host().unwrap(),
        bound.to_host().unwrap()
    );
}

#[test]
fn socket_connect_accept_unix() {
    let path = unique_unix_path("accept");
    let addr = SockAddr::unix(path.clone()).unwrap();

    let listener = Socket::new(Domain::unix(), Type::stream(), None).unwrap();
    listener.bind(&addr).unwrap();
    listener.listen(16).unwrap();
    let bound = listener.local_addr().unwrap();
    assert_eq!(bound.to_host().unwrap(), HostAddr::Unix(path.clone()));

    let client = Socket::new(Domain::unix(), Type::stream(), None).unwrap();
    client.connect(&addr).unwrap();

    let (accepted, peer) = listener.accept().unwrap();

    // The accepted connection's peer is the client's (unnamed) local
    // address, and the client's peer is the listener's bound path.
    assert_eq!(
        peer.to_host().unwrap(),
        client.local_addr().unwrap().to_host().unwrap()
    );
    assert_eq!(
        accepted.peer_addr().unwrap().to_host().unwrap(),
        client.local_addr().unwrap().to_host().unwrap()
    );
    assert_eq!(
        client.peer_addr().unwrap().to_host().unwrap(),
        HostAddr::Unix(path)
    );
}

#[test]
fn listener_survives_fd_round_trip() {
    let path = unique_unix_path("roundtrip");
    let addr = SockAddr::unix(path.clone()).unwrap();

    let listener = Socket::new(Domain::unix(), Type::stream(), None).unwrap();
    listener.bind(&addr).unwrap();
    listener.listen(16).unwrap();

    // Transfer ownership out and back: the same descriptor, still bound
    // and listening, and its close still happens exactly once.
    let fd = listener.into_fd();
    let listener = Socket::from_fd(fd);
    assert_eq!(
        listener.local_addr().unwrap().to_host().unwrap(),
        HostAddr::Unix(path)
    );

    let client = Socket::new(Domain::unix(), Type::stream(), None).unwrap();
    client.connect(&addr).unwrap();
    let (_accepted, _peer) = listener.accept().unwrap();
}

#[test]
fn accept4_cloexec() {
    let path = unique_unix_path("accept4");
    let addr = SockAddr::unix(path.clone()).unwrap();

    let listener = Socket::new(Domain::unix(), Type::stream(), None).unwrap();
    listener.bind(&addr).unwrap();
    listener.listen(16).unwrap();

    let client = Socket::new(Domain::unix(), Type::stream(), None).unwrap();
    client.connect(&addr).unwrap();

    let (accepted, _peer) = listener.accept4(consts::SOCK_CLOEXEC).unwrap();
    let flags = accepted.fcntl(consts::F_GETFD, 0).unwrap();
    assert_ne!(flags & consts::FD_CLOEXEC, 0);
}

#[test]
fn take_error_fresh_and_after_refused_connect() {
    // A freshly created, unconnected socket has no pending error.
    let socket = Socket::new(Domain::ipv4(), Type::stream(), None).unwrap();
    assert_eq!(socket.take_error().unwrap(), None);

    // Find a loopback port with nothing listening: bind a listener to an
    // ephemeral port and close it again.
    let probe = Socket::new(Domain::ipv4(), Type::stream(), None).unwrap();
    probe.bind(&loopback(0)).unwrap();
    let dead_port = port_of(&probe.local_addr().unwrap());
    drop(probe);

    // A blocking connect to it fails outright, and the failure does not
    // linger in the pending-error slot.
    let client = Socket::new(Domain::ipv4(), Type::stream(), None).unwrap();
    match client.connect(&loopback(dead_port)) {
        Err(SockError::Os(code)) => assert_ne!(code, 0),
        other => panic!("expected the connect to fail with an OS error, got {:?}", other),
    }
    assert_eq!(client.take_error().unwrap(), None);

    // The same against a Unix-domain path nothing listens on.
    let client = Socket::new(Domain::unix(), Type::stream(), None).unwrap();
    assert_eq!(client.take_error().unwrap(), None);
    let gone = SockAddr::unix(unique_unix_path("gone")).unwrap();
    match client.connect(&gone) {
        Err(SockError::Os(code)) => assert_ne!(code, 0),
        other => panic!("expected the connect to fail with an OS error, got {:?}", other),
    }
    assert_eq!(client.take_error().unwrap(), None);
}

#[test]
fn setsockopt_round_trip() {
    let socket = Socket::new(Domain::ipv4(), Type::stream(), None).unwrap();
    assert_eq!(
        socket.getsockopt(consts::SOL_SOCKET, consts::SO_REUSEADDR).unwrap(),
        0
    );
    socket.setsockopt(consts::SOL_SOCKET, consts::SO_REUSEADDR, 1).unwrap();
    assert_eq!(
        socket.getsockopt(consts::SOL_SOCKET, consts::SO_REUSEADDR).unwrap(),
        1
    );
    socket.setsockopt(consts::SOL_SOCKET, consts::SO_REUSEADDR, 0).unwrap();
    assert_eq!(
        socket.getsockopt(consts::SOL_SOCKET, consts::SO_REUSEADDR).unwrap(),
        0
    );

    socket.setsockopt(consts::SOL_SOCKET, consts::SO_KEEPALIVE, 1).unwrap();
    assert_eq!(
        socket.getsockopt(consts::SOL_SOCKET, consts::SO_KEEPALIVE).unwrap(),
        1
    );
}

#[test]
fn sockopt_unsupported_pairs_rejected() {
    let socket = Socket::new(Domain::ipv4(), Type::stream(), None).unwrap();
    assert_eq!(
        socket.setsockopt(consts::SOL_SOCKET, 12345, 1),
        Err(SockError::UnsupportedOption)
    );
    assert_eq!(
        socket.getsockopt(999, consts::SO_REUSEADDR),
        Err(SockError::UnsupportedOption)
    );
    // The pending-error option is readable but not settable.
    assert_eq!(
        socket.setsockopt(consts::SOL_SOCKET, consts::SO_ERROR, 1),
        Err(SockError::UnsupportedOption)
    );
}

#[test]
fn getsockopt_so_error_reads_zero() {
    let socket = Socket::new(Domain::ipv4(), Type::stream(), None).unwrap();
    assert_eq!(
        socket.getsockopt(consts::SOL_SOCKET, consts::SO_ERROR).unwrap(),
        0
    );
}

#[test]
fn opt_value_size_check() {
    // The exact expected size exposes the value, little-endian.
    let bytes = vec![1u8, 0, 0, 0];
    assert_eq!(sockraw::socket::opt_value_from_bytes(&bytes, 4), Ok(1));
    let bytes2 = vec![0u8, 1, 0, 0];
    assert_eq!(sockraw::socket::opt_value_from_bytes(&bytes2, 4), Ok(256));

    // Any other reported length withholds the value.
    assert_eq!(
        sockraw::socket::opt_value_from_bytes(&bytes, 8),
        Err(SockError::OptSizeMismatch)
    );
    let short = vec![1u8, 0];
    assert_eq!(
        sockraw::socket::opt_value_from_bytes(&short, 2),
        Err(SockError::OptSizeMismatch)
    );
}

#[test]
fn fcntl_cloexec_flag() {
    let socket = Socket::new(Domain::ipv4(), Type::stream(), None).unwrap();
    let flags = socket.fcntl(consts::F_GETFD, 0).unwrap();
    assert_eq!(flags & consts::FD_CLOEXEC, 0);
    socket.fcntl(consts::F_SETFD, flags | consts::FD_CLOEXEC).unwrap();
    let flags = socket.fcntl(consts::F_GETFD, 0).unwrap();
    assert_ne!(flags & consts::FD_CLOEXEC, 0);
}

#[test]
fn fcntl_nonblock_flag() {
    let socket = Socket::new(Domain::ipv4(), Type::stream(), None).unwrap();
    let flags = socket.fcntl(consts::F_GETFL, 0).unwrap();
    assert_eq!(flags & consts::O_NONBLOCK, 0);
    socket.fcntl(consts::F_SETFL, flags | consts::O_NONBLOCK).unwrap();
    let flags = socket.fcntl(consts::F_GETFL, 0).unwrap();
    assert_ne!(flags & consts::O_NONBLOCK, 0);
}

#[test]
fn domain_out_of_range_rejected() {
    // The native family field is 16 bits wide; larger raw domains are
    // rejected, not truncated.
    assert!(matches!(
        Socket::new(Domain::from_raw(0x10002), Type::stream(), None),
        Err(SockError::UnsupportedFamily)
    ));
    assert!(matches!(
        Socket::pair(Domain::from_raw(-1), Type::stream(), None),
        Err(SockError::UnsupportedFamily)
    ));
}

#[test]
fn unrecognized_family_addresses_rejected() {
    // A netlink socket carries a family the address codec does not
    // cover; querying its addresses is refused instead of decoded.
    let netlink = Domain::from_raw(16);
    let socket = match Socket::new(netlink, Type::raw(), None) {
        Ok(s) => s,
        // The host may refuse netlink sockets altogether.
        Err(_) => return,
    };
    assert_eq!(socket.family(), 16);
    assert_eq!(socket.local_addr(), Err(SockError::UnsupportedFamily));
    assert_eq!(socket.peer_addr(), Err(SockError::UnsupportedFamily));
    assert!(matches!(socket.accept(), Err(SockError::UnsupportedFamily)));
}

#[test]
fn adopted_socket_keeps_family() {
    let socket = Socket::new(Domain::ipv4(), Type::stream(), None).unwrap();
    let raw = socket.as_raw_fd();
    let fd = socket.into_fd();
    let adopted = Socket::from_fd(fd);
    assert_eq!(adopted.family() as i32, consts::AF_INET);
    assert_eq!(adopted.as_raw_fd(), raw);
}

#[test]
fn fcntl_unknown_command_rejected() {
    let socket = Socket::new(Domain::ipv4(), Type::stream(), None).unwrap();
    assert_eq!(socket.fcntl(9999, 0), Err(SockError::UnsupportedCommand));
}

#[test]
fn bind_rejects_undecodable_address() {
    let socket = Socket::new(Domain::ipv4(), Type::stream(), None).unwrap();
    let buf = vec![99u8, 0, 1, 2];
    let addr = SockAddr::from_os_bytes(&buf, 4).unwrap();
    assert_eq!(socket.bind(&addr), Err(SockError::UnsupportedFamily));
    let unspec = SockAddr::from_host(&HostAddr::Unspecified).unwrap();
    assert_eq!(socket.bind(&unspec), Err(SockError::UnsupportedFamily));
}

#[test]
fn domain_for_ip() {
    let v4 = HostAddr::V4(V4Addr { octets: [127, 0, 0, 1], port: 1 });
    assert_eq!(Domain::for_ip(&v4), Domain::ipv4());
    assert_eq!(Domain::for_ip(&HostAddr::Unix(Vec::new())), Domain::unix());
}

#[test]
fn type_flag_composition() {
    assert_eq!(
        Type::stream().non_blocking().as_raw(),
        consts::SOCK_STREAM | consts::SOCK_NONBLOCK
    );
    assert_eq!(
        Type::stream().cloexec().as_raw(),
        consts::SOCK_STREAM | consts::SOCK_CLOEXEC
    );
    assert_eq!(Protocol::tcp().as_raw(), consts::IPPROTO_TCP);
    assert_eq!(Domain::from_raw(42).as_raw(), 42);
}

#[test]
fn raw_value_conversions() {
    assert_eq!(Domain::from(consts::AF_INET6), Domain::ipv6());
    assert_eq!(i32::from(Domain::ipv4()), consts::AF_INET);
    assert_eq!(i32::from(Type::from(77)), 77);
    assert_eq!(i32::from(Protocol::from(consts::IPPROTO_UDP)), consts::IPPROTO_UDP);
    assert_eq!(Domain::unix().0, consts::AF_UNIX);
}
