//! The trusted boundary to the native socket calls.
//!
//! Every function here is a thin wrapper over one call of the `rustix`
//! crate, which issues the corresponding native call; the wrapper only
//! converts between this library's plain values and `rustix`'s argument
//! and result types. Nothing here is verified: these are the library's
//! trusted items, and each doc comment names the outside function relied
//! on.

use vstd::prelude::*;

verus! {

use crate::sockaddr::{raw_family, RawAddr, RawUnixAddr, V4Addr, V6Addr};
use crate::socket::{recognized_family, Shutdown, Socket};
use rustix::fd::{AsRawFd, IntoRawFd};

#[verifier::external_type_specification]
#[verifier::external_body]
pub struct ExOwnedFd(rustix::fd::OwnedFd);

#[verifier::external_type_specification]
#[verifier::external_body]
pub struct ExSocketAddrAny(rustix::net::SocketAddrAny);

#[verifier::external_type_specification]
#[verifier::external_body]
pub struct ExSocketAddrUnix(rustix::net::SocketAddrUnix);

/// Relies on `rustix::net::SocketAddrUnix::path` and `abstract_name`:
/// one arm per form the native address distinguishes, moving the bytes
/// only. How each form stands in the library's flat path — and that the
/// unnamed address also comes back as an empty abstract name — is
/// decided by the verified `unix_path_of_raw`.
#[verifier::external_body]
pub(crate) fn raw_unix_of(u: &rustix::net::SocketAddrUnix) -> (r: RawUnixAddr) {
    match u.path() {
        Some(c) => RawUnixAddr::Pathname(c.to_bytes().to_vec()),
        None => match u.abstract_name() {
            Some(n) => RawUnixAddr::Abstract(n.to_vec()),
            None => RawUnixAddr::Unnamed,
        },
    }
}

/// Relies on `rustix::net::SocketAddrAny`: one arm per address family the
/// native `sockaddr_storage` can carry, moving the fields into this
/// library's plain values. The default arm cannot be reached through this
/// library: every populating call is gated on a recognized family.
#[verifier::external_body]
pub(crate) fn raw_from_any(a: rustix::net::SocketAddrAny) -> (r: RawAddr) {
    match a {
        rustix::net::SocketAddrAny::V4(v) => RawAddr::V4(
            V4Addr { octets: v.ip().octets(), port: v.port() },
        ),
        rustix::net::SocketAddrAny::V6(v) => RawAddr::V6(
            V6Addr {
                octets: v.ip().octets(),
                port: v.port(),
                flowinfo: v.flowinfo(),
                scope_id: v.scope_id(),
            },
        ),
        rustix::net::SocketAddrAny::Unix(u) => RawAddr::Unix(raw_unix_of(&u)),
        _ => RawAddr::Unspecified,
    }
}

/// Relies on `rustix::net::socket_with`: issues `socket(2)` with the raw
/// family, type (flag bits ride in the raw type) and protocol, and returns
/// the new descriptor, or the OS error code. The family is a 16-bit
/// value natively, so larger raw domains are not passed through.
#[verifier::external_body]
pub(crate) fn sys_socket(domain: i32, type_: i32, protocol: i32) -> (r: Result<Socket, i32>)
    requires
        0 <= domain <= 65535,
    ensures
        r matches Ok(s) ==> s.spec_family() == domain,
{
    let fam = rustix::net::AddressFamily::from_raw(domain as u16);
    let ty = rustix::net::SocketType::from_raw(type_ as u32);
    let proto = match core::num::NonZeroU32::new(protocol as u32) {
        Some(p) => Some(rustix::net::Protocol::from_raw(p)),
        None => None,
    };
    match rustix::net::socket_with(fam, ty, rustix::net::SocketFlags::empty(), proto) {
        Ok(fd) => Ok(Socket { fd, family: domain, fd_id: Ghost(0int) }),
        Err(e) => Err(e.raw_os_error()),
    }
}

/// Relies on `rustix::net::socketpair`: issues `socketpair(2)` and returns
/// the two connected descriptors, or the OS error code. Both ends carry
/// the family they were created with.
#[verifier::external_body]
pub(crate) fn sys_socketpair(domain: i32, type_: i32, protocol: i32) -> (r: Result<
    (Socket, Socket),
    i32,
>)
    requires
        0 <= domain <= 65535,
    ensures
        r matches Ok(p) ==> p.0.spec_family() == domain && p.1.spec_family() == domain,
{
    let fam = rustix::net::AddressFamily::from_raw(domain as u16);
    let ty = rustix::net::SocketType::from_raw(type_ as u32);
    let proto = match core::num::NonZeroU32::new(protocol as u32) {
        Some(p) => Some(rustix::net::Protocol::from_raw(p)),
        None => None,
    };
    match rustix::net::socketpair(fam, ty, rustix::net::SocketFlags::empty(), proto) {
        Ok((a, b)) => Ok((
            Socket { fd: a, family: domain, fd_id: Ghost(0int) },
            Socket { fd: b, family: domain, fd_id: Ghost(0int) },
        )),
        Err(e) => Err(e.raw_os_error()),
    }
}

/// Relies on `rustix::net::bind_v4`: issues `bind(2)` with a `sockaddr_in`
/// built from the endpoint's octets and port.
#[verifier::external_body]
pub(crate) fn sys_bind_v4(s: &Socket, a: &V4Addr) -> (r: Result<(), i32>) {
    let addr = rustix::net::SocketAddrV4::new(rustix::net::Ipv4Addr::from(a.octets), a.port);
    match rustix::net::bind_v4(&s.fd, &addr) {
        Ok(()) => Ok(()),
        Err(e) => Err(e.raw_os_error()),
    }
}

/// Relies on `rustix::net::bind_v6`: issues `bind(2)` with a
/// `sockaddr_in6` built from the endpoint's fields.
#[verifier::external_body]
pub(crate) fn sys_bind_v6(s: &Socket, a: &V6Addr) -> (r: Result<(), i32>) {
    let addr = rustix::net::SocketAddrV6::new(
        rustix::net::Ipv6Addr::from(a.octets),
        a.port,
        a.flowinfo,
        a.scope_id,
    );
    match rustix::net::bind_v6(&s.fd, &addr) {
        Ok(()) => Ok(()),
        Err(e) => Err(e.raw_os_error()),
    }
}

/// Relies on `rustix::net::bind_unix` and `SocketAddrUnix::new`: issues
/// `bind(2)` with a `sockaddr_un` built from a filesystem pathname.
#[verifier::external_body]
pub(crate) fn sys_bind_unix_path(s: &Socket, path: &Vec<u8>) -> (r: Result<(), i32>) {
    match rustix::net::SocketAddrUnix::new(path) {
        Ok(a) => match rustix::net::bind_unix(&s.fd, &a) {
            Ok(()) => Ok(()),
            Err(e) => Err(e.raw_os_error()),
        },
        Err(e) => Err(e.raw_os_error()),
    }
}

/// Relies on `rustix::net::bind_unix` and
/// `SocketAddrUnix::new_abstract_name`: issues `bind(2)` with a
/// `sockaddr_un` holding an abstract name.
#[verifier::external_body]
pub(crate) fn sys_bind_unix_abstract(s: &Socket, name: &Vec<u8>) -> (r: Result<(), i32>) {
    match rustix::net::SocketAddrUnix::new_abstract_name(name) {
        Ok(a) => match rustix::net::bind_unix(&s.fd, &a) {
            Ok(()) => Ok(()),
            Err(e) => Err(e.raw_os_error()),
        },
        Err(e) => Err(e.raw_os_error()),
    }
}

/// Relies on `rustix::net::connect_v4`: issues `connect(2)` with a
/// `sockaddr_in` built from the endpoint's octets and port.
#[verifier::external_body]
pub(crate) fn sys_connect_v4(s: &Socket, a: &V4Addr) -> (r: Result<(), i32>) {
    let addr = rustix::net::SocketAddrV4::new(rustix::net::Ipv4Addr::from(a.octets), a.port);
    match rustix::net::connect_v4(&s.fd, &addr) {
        Ok(()) => Ok(()),
        Err(e) => Err(e.raw_os_error()),
    }
}

/// Relies on `rustix::net::connect_v6`: issues `connect(2)` with a
/// `sockaddr_in6` built from the endpoint's fields.
#[verifier::external_body]
pub(crate) fn sys_connect_v6(s: &Socket, a: &V6Addr) -> (r: Result<(), i32>) {
    let addr = rustix::net::SocketAddrV6::new(
        rustix::net::Ipv6Addr::from(a.octets),
        a.port,
        a.flowinfo,
        a.scope_id,
    );
    match rustix::net::connect_v6(&s.fd, &addr) {
        Ok(()) => Ok(()),
        Err(e) => Err(e.raw_os_error()),
    }
}

/// Relies on `rustix::net::connect_unix` and `SocketAddrUnix::new`:
/// issues `connect(2)` with a `sockaddr_un` built from a filesystem
/// pathname.
#[verifier::external_body]
pub(crate) fn sys_connect_unix_path(s: &Socket, path: &Vec<u8>) -> (r: Result<(), i32>) {
    match rustix::net::SocketAddrUnix::new(path) {
        Ok(a) => match rustix::net::connect_unix(&s.fd, &a) {
            Ok(()) => Ok(()),
            Err(e) => Err(e.raw_os_error()),
        },
        Err(e) => Err(e.raw_os_error()),
    }
}

/// Relies on `rustix::net::connect_unix` and
/// `SocketAddrUnix::new_abstract_name`: issues `connect(2)` with a
/// `sockaddr_un` holding an abstract name.
#[verifier::external_body]
pub(crate) fn sys_connect_unix_abstract(s: &Socket, name: &Vec<u8>) -> (r: Result<(), i32>) {
    match rustix::net::SocketAddrUnix::new_abstract_name(name) {
        Ok(a) => match rustix::net::connect_unix(&s.fd, &a) {
            Ok(()) => Ok(()),
            Err(e) => Err(e.raw_os_error()),
        },
        Err(e) => Err(e.raw_os_error()),
    }
}

/// Relies on `rustix::net::connect_unspec`: issues `connect(2)` with the
/// unspecified family, which dissolves a datagram socket's association.
#[verifier::external_body]
pub(crate) fn sys_connect_unspec(s: &Socket) -> (r: Result<(), i32>) {
    match rustix::net::connect_unspec(&s.fd) {
        Ok(()) => Ok(()),
        Err(e) => Err(e.raw_os_error()),
    }
}

/// Relies on `rustix::net::listen`: issues `listen(2)` with the backlog
/// passed through unmodified.
#[verifier::external_body]
pub(crate) fn sys_listen(s: &Socket, backlog: i32) -> (r: Result<(), i32>) {
    match rustix::net::listen(&s.fd, backlog) {
        Ok(()) => Ok(()),
        Err(e) => Err(e.raw_os_error()),
    }
}

/// Relies on `rustix::net::acceptfrom_with`: issues `accept4(2)` with the
/// given flag bits and returns the new descriptor and the peer address the
/// OS populated, when it reported one. The accepted socket and the
/// reported peer address carry the listener's family. rustix decodes the
/// populated address only for the recognized families and stops the
/// process for any other, so the listener's family must be recognized.
/// Of a Unix-domain peer it also relies on the kernel's form for
/// pathname addresses — NUL-terminated, no interior zero byte — which
/// holds for every address this library or the platform's own tools can
/// bind.
#[verifier::external_body]
pub(crate) fn sys_accept(s: &Socket, flags: i32) -> (r: Result<(Socket, Option<RawAddr>), i32>)
    requires
        recognized_family(s.spec_family()),
    ensures
        r matches Ok(p) ==> p.0.spec_family() == s.spec_family() && (p.1 matches Some(a)
            ==> raw_family(a) == s.spec_family()),
{
    let fl = rustix::net::SocketFlags::from_bits_retain(flags as u32);
    match rustix::net::acceptfrom_with(&s.fd, fl) {
        Ok((fd, Some(a))) => Ok((
            Socket { fd, family: s.family, fd_id: Ghost(0int) },
            Some(raw_from_any(a)),
        )),
        Ok((fd, None)) => Ok((Socket { fd, family: s.family, fd_id: Ghost(0int) }, None)),
        Err(e) => Err(e.raw_os_error()),
    }
}

/// Relies on `rustix::net::getsockname`: issues `getsockname(2)` and
/// returns the local address the OS populated, which carries the
/// socket's own family. rustix decodes that address only for the
/// recognized families and stops the process for any other, so the
/// socket's family must be recognized.
/// Of a Unix-domain peer it also relies on the kernel's form for
/// pathname addresses — NUL-terminated, no interior zero byte — which
/// holds for every address this library or the platform's own tools can
/// bind.
#[verifier::external_body]
pub(crate) fn sys_getsockname(s: &Socket) -> (r: Result<RawAddr, i32>)
    requires
        recognized_family(s.spec_family()),
    ensures
        r matches Ok(a) ==> raw_family(a) == s.spec_family(),
{
    match rustix::net::getsockname(&s.fd) {
        Ok(a) => Ok(raw_from_any(a)),
        Err(e) => Err(e.raw_os_error()),
    }
}

/// Relies on `rustix::net::getpeername`: issues `getpeername(2)` and
/// returns the peer address the OS populated, when it reported one; a
/// reported peer carries the socket's own family. rustix decodes that
/// address only for the recognized families and stops the process for
/// any other, so the socket's family must be recognized.
/// Of a Unix-domain peer it also relies on the kernel's form for
/// pathname addresses — NUL-terminated, no interior zero byte — which
/// holds for every address this library or the platform's own tools can
/// bind.
#[verifier::external_body]
pub(crate) fn sys_getpeername(s: &Socket) -> (r: Result<Option<RawAddr>, i32>)
    requires
        recognized_family(s.spec_family()),
    ensures
        r matches Ok(Some(a)) ==> raw_family(a) == s.spec_family(),
{
    match rustix::net::getpeername(&s.fd) {
        Ok(Some(a)) => Ok(Some(raw_from_any(a))),
        Ok(None) => Ok(None),
        Err(e) => Err(e.raw_os_error()),
    }
}

/// Relies on `rustix::net::shutdown`: issues `shutdown(2)` with the
/// corresponding tri-state direction.
#[verifier::external_body]
pub(crate) fn sys_shutdown(s: &Socket, how: Shutdown) -> (r: Result<(), i32>) {
    let h = match how {
        Shutdown::Read => rustix::net::Shutdown::Read,
        Shutdown::Write => rustix::net::Shutdown::Write,
        Shutdown::Both => rustix::net::Shutdown::ReadWrite,
    };
    match rustix::net::shutdown(&s.fd, h) {
        Ok(()) => Ok(()),
        Err(e) => Err(e.raw_os_error()),
    }
}

/// Relies on `rustix::net::sockopt::set_socket_reuseaddr`: issues
/// `setsockopt(2)` for `SOL_SOCKET`/`SO_REUSEADDR`.
#[verifier::external_body]
pub(crate) fn sys_set_reuseaddr(s: &Socket, on: bool) -> (r: Result<(), i32>) {
    match rustix::net::sockopt::set_socket_reuseaddr(&s.fd, on) {
        Ok(()) => Ok(()),
        Err(e) => Err(e.raw_os_error()),
    }
}

/// Relies on `rustix::net::sockopt::get_socket_reuseaddr`: issues
/// `getsockopt(2)` for `SOL_SOCKET`/`SO_REUSEADDR`.
#[verifier::external_body]
pub(crate) fn sys_get_reuseaddr(s: &Socket) -> (r: Result<bool, i32>) {
    match rustix::net::sockopt::get_socket_reuseaddr(&s.fd) {
        Ok(b) => Ok(b),
        Err(e) => Err(e.raw_os_error()),
    }
}

/// Relies on `rustix::net::sockopt::set_socket_keepalive`: issues
/// `setsockopt(2)` for `SOL_SOCKET`/`SO_KEEPALIVE`.
#[verifier::external_body]
pub(crate) fn sys_set_keepalive(s: &Socket, on: bool) -> (r: Result<(), i32>) {
    match rustix::net::sockopt::set_socket_keepalive(&s.fd, on) {
        Ok(()) => Ok(()),
        Err(e) => Err(e.raw_os_error()),
    }
}

/// Relies on `rustix::net::sockopt::get_socket_keepalive`: issues
/// `getsockopt(2)` for `SOL_SOCKET`/`SO_KEEPALIVE`.
#[verifier::external_body]
pub(crate) fn sys_get_keepalive(s: &Socket) -> (r: Result<bool, i32>) {
    match rustix::net::sockopt::get_socket_keepalive(&s.fd) {
        Ok(b) => Ok(b),
        Err(e) => Err(e.raw_os_error()),
    }
}

/// Relies on `rustix::net::sockopt::get_socket_error`: issues
/// `getsockopt(2)` for `SOL_SOCKET`/`SO_ERROR`, which reads and clears the
/// socket's pending-error slot. The inner `Ok` carries the pending code,
/// zero when none is pending; its documentation gives the code as a
/// positive `errno` value.
#[verifier::external_body]
pub(crate) fn sys_socket_error(s: &Socket) -> (r: Result<i32, i32>)
    ensures
        r matches Ok(c) ==> c >= 0,
{
    match rustix::net::sockopt::get_socket_error(&s.fd) {
        Ok(Ok(())) => Ok(0),
        Ok(Err(pending)) => Ok(pending.raw_os_error()),
        Err(e) => Err(e.raw_os_error()),
    }
}

/// Relies on `rustix::io::fcntl_getfd`: issues `fcntl(2)` with `F_GETFD`
/// and returns the descriptor flag bits.
#[verifier::external_body]
pub(crate) fn sys_fcntl_getfd(s: &Socket) -> (r: Result<i32, i32>) {
    match rustix::io::fcntl_getfd(&s.fd) {
        Ok(flags) => Ok(flags.bits() as i32),
        Err(e) => Err(e.raw_os_error()),
    }
}

/// Relies on `rustix::io::fcntl_setfd`: issues `fcntl(2)` with `F_SETFD`
/// and the given flag bits, passed through unmodified.
#[verifier::external_body]
pub(crate) fn sys_fcntl_setfd(s: &Socket, bits: i32) -> (r: Result<(), i32>) {
    let flags = rustix::io::FdFlags::from_bits_retain(bits as u32);
    match rustix::io::fcntl_setfd(&s.fd, flags) {
        Ok(()) => Ok(()),
        Err(e) => Err(e.raw_os_error()),
    }
}

/// Relies on `rustix::fd::AsRawFd::as_raw_fd`: reads the descriptor value
/// without transferring its ownership. The ghost descriptor model
/// `spec_fd_id` names that value; only the trusted constructors in this
/// module create handles, so the model and the descriptor agree.
#[verifier::external_body]
pub(crate) fn sys_as_raw_fd(s: &Socket) -> (r: i32)
    ensures
        r as int == s.spec_fd_id(),
{
    s.fd.as_raw_fd()
}

/// Relies on `rustix::fd::IntoRawFd::into_raw_fd`: consumes the owned
/// descriptor without closing it, so ownership moves to the caller. The
/// returned value is the same descriptor the ghost model `spec_fd_id`
/// names.
#[verifier::external_body]
pub(crate) fn sys_into_raw_fd(s: Socket) -> (r: i32)
    ensures
        r as int == s.spec_fd_id(),
{
    s.fd.into_raw_fd()
}

/// Relies on `rustix::net::sockopt::get_socket_domain`: adopts an owned
/// descriptor as a handle, reading the socket's address family with
/// `getsockopt(2)` for `SO_DOMAIN`. When that query fails the stored
/// family is zero, which no populating operation recognizes.
#[verifier::external_body]
pub(crate) fn sys_adopt(fd: rustix::fd::OwnedFd) -> (r: Socket) {
    let family = match rustix::net::sockopt::get_socket_domain(&fd) {
        Ok(f) => f.as_raw() as i32,
        Err(_) => 0,
    };
    Socket { fd, family, fd_id: Ghost(0int) }
}

/// Relies on `rustix::fs::fcntl_getfl`: issues `fcntl(2)` with `F_GETFL`
/// and returns the file status flag bits.
#[verifier::external_body]
pub(crate) fn sys_fcntl_getfl(s: &Socket) -> (r: Result<i32, i32>) {
    match rustix::fs::fcntl_getfl(&s.fd) {
        Ok(flags) => Ok(flags.bits() as i32),
        Err(e) => Err(e.raw_os_error()),
    }
}

/// Relies on `rustix::fs::fcntl_setfl`: issues `fcntl(2)` with `F_SETFL`
/// and the given flag bits; rustix ORs the large-file flag into them
/// before the call, which is meaningless on a socket.
#[verifier::external_body]
pub(crate) fn sys_fcntl_setfl(s: &Socket, bits: i32) -> (r: Result<(), i32>) {
    let flags = rustix::fs::OFlags::from_bits_retain(bits as u32);
    match rustix::fs::fcntl_setfl(&s.fd, flags) {
        Ok(()) => Ok(()),
        Err(e) => Err(e.raw_os_error()),
    }
}

} // verus!
