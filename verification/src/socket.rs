//! The owned socket handle and its operations.
//!
//! A [`Socket`] owns exactly one open descriptor; the descriptor is closed
//! exactly once, when the handle is dropped, unless ownership leaves first
//! through [`Socket::into_fd`] or [`Socket::into_raw_fd`]. Every operation
//! maps onto one native call; on failure the OS error code is carried
//! verbatim in [`SockError::Os`].

use vstd::prelude::*;

verus! {

use crate::consts::{
    AF_INET, AF_INET6, AF_UNIX, AF_UNSPEC, F_GETFD, F_GETFL, F_SETFD, F_SETFL, SOL_SOCKET,
    SO_ERROR, SO_KEEPALIVE, SO_REUSEADDR,
};
use crate::error::SockError;
use crate::sockaddr::{
    dec_addr, enc_bytes, enc_len, family_of, host_of_raw, lemma_enc_family, raw_family,
    unix_abstract_of, wf_addr, AddrView, HostAddr, RawAddr, SockAddr,
};
use crate::sys;
use crate::{Domain, Protocol, Type};

/// Which direction of a connection to shut down.
#[derive(Clone, Copy, Debug, PartialEq, Eq, Structural)]
pub enum Shutdown {
    /// Disable further read operations.
    Read,
    /// Disable further write operations.
    Write,
    /// Disable further read and write operations.
    Both,
}

/// An owned system socket.
///
/// Wraps one open file descriptor. Ownership is single and moves-only:
/// dropping the handle closes the descriptor, and the conversions that
/// hand the descriptor out consume the handle, so the close happens
/// exactly once. A failure of that implicit close cannot be observed;
/// this loss of error information is the accepted cost of deterministic
/// cleanup.
///
/// Beside the descriptor the handle records the address family it was
/// created with, because the operations that decode an OS-populated
/// address are only sound for the families the codec recognizes; and a
/// ghost model of the descriptor value, which only the trusted
/// constructors set, so that the raw accessors can say which value they
/// return.
pub struct Socket {
    pub(crate) fd: rustix::fd::OwnedFd,
    pub(crate) family: i32,
    pub(crate) fd_id: Ghost<int>,
}

/// The address families whose OS-populated addresses the library can
/// take back: exactly those the address codec covers.
pub open spec fn recognized_family(f: i32) -> bool {
    f == AF_INET || f == AF_INET6 || f == AF_UNIX
}

/// The level/name pairs the typed option surface covers for `set`.
pub open spec fn opt_supported_set(level: i32, optname: i32) -> bool {
    level == SOL_SOCKET && (optname == SO_REUSEADDR || optname == SO_KEEPALIVE)
}

/// The level/name pairs the typed option surface covers for `get`.
pub open spec fn opt_supported_get(level: i32, optname: i32) -> bool {
    opt_supported_set(level, optname) || (level == SOL_SOCKET && optname == SO_ERROR)
}

impl Socket {
    /// The address family the handle was created with, as specifications
    /// see it.
    pub closed spec fn spec_family(&self) -> i32 {
        self.family
    }

    /// The descriptor value, as specifications name it. Only the trusted
    /// constructors set it, in step with the descriptor they wrap.
    pub closed spec fn spec_fd_id(&self) -> int {
        self.fd_id@
    }

    /// The address family this handle was created with.
    pub fn family(&self) -> (r: i32)
        ensures
            r == self.spec_family(),
    {
        self.family
    }

    /// Creates a new socket ready to be configured, with `socket(2)`.
    ///
    /// A missing protocol is passed as zero, the OS default for the
    /// domain/type pair. The native family is a 16-bit value; a raw
    /// domain outside that range is rejected rather than truncated.
    pub fn new(domain: Domain, type_: Type, protocol: Option<Protocol>) -> (r: Result<
        Socket,
        SockError,
    >)
        ensures
            !(0 <= domain.spec_raw() <= 65535) <==> r == Err::<Socket, SockError>(
                SockError::UnsupportedFamily,
            ),
            r matches Ok(s) ==> s.spec_family() == domain.spec_raw(),
            r matches Err(e) ==> (e matches SockError::Os(_) || e
                == SockError::UnsupportedFamily),
    {
        let d = domain.as_raw();
        if d < 0 || d > 65535 {
            return Err(SockError::UnsupportedFamily);
        }
        let proto: i32 = match protocol {
            Some(p) => p.as_raw(),
            None => 0,
        };
        match sys::sys_socket(d, type_.as_raw(), proto) {
            Ok(s) => Ok(s),
            Err(e) => Err(SockError::Os(e)),
        }
    }

    /// Creates a pair of sockets connected to each other, with
    /// `socketpair(2)`. The native family is a 16-bit value; a raw
    /// domain outside that range is rejected rather than truncated.
    pub fn pair(domain: Domain, type_: Type, protocol: Option<Protocol>) -> (r: Result<
        (Socket, Socket),
        SockError,
    >)
        ensures
            !(0 <= domain.spec_raw() <= 65535) <==> r == Err::<(Socket, Socket), SockError>(
                SockError::UnsupportedFamily,
            ),
            r matches Ok(p) ==> p.0.spec_family() == domain.spec_raw() && p.1.spec_family()
                == domain.spec_raw(),
            r matches Err(e) ==> (e matches SockError::Os(_) || e
                == SockError::UnsupportedFamily),
    {
        let d = domain.as_raw();
        if d < 0 || d > 65535 {
            return Err(SockError::UnsupportedFamily);
        }
        let proto: i32 = match protocol {
            Some(p) => p.as_raw(),
            None => 0,
        };
        match sys::sys_socketpair(d, type_.as_raw(), proto) {
            Ok(pair) => Ok(pair),
            Err(e) => Err(SockError::Os(e)),
        }
    }

    /// Adopts an owned descriptor as a socket handle.
    ///
    /// The descriptor is already owned, so this only moves ownership into
    /// the handle; the caller keeps the responsibility of having handed in
    /// a socket. The socket's address family is read from the descriptor,
    /// so the populating operations know whether they can decode its
    /// addresses.
    pub fn from_fd(fd: rustix::fd::OwnedFd) -> Socket {
        sys::sys_adopt(fd)
    }

    /// Transfers ownership of the descriptor out of the handle.
    ///
    /// Consumes the handle, so its own close never runs; the returned
    /// owner closes the descriptor instead, exactly once.
    pub fn into_fd(self) -> rustix::fd::OwnedFd {
        self.fd
    }

    /// The raw descriptor value, for native calls this library does not
    /// expose. Ownership does not move, and every call returns the same
    /// value: the one the ghost descriptor model names.
    pub fn as_raw_fd(&self) -> (r: i32)
        ensures
            r as int == self.spec_fd_id(),
    {
        sys::sys_as_raw_fd(self)
    }

    /// The raw descriptor value, with ownership.
    ///
    /// Consumes the handle and disables its close: the caller must now
    /// close the descriptor exactly once by some other means. The value
    /// is the same one [`Socket::as_raw_fd`] returned.
    pub fn into_raw_fd(self) -> (r: i32)
        ensures
            r as int == self.spec_fd_id(),
    {
        sys::sys_into_raw_fd(self)
    }

    /// Initiates a connection to `addr`, with `connect(2)`.
    ///
    /// An address whose buffer does not decode is rejected with the
    /// decoder's error before any native call; a decodable address is
    /// handed to the OS, and only the OS decides the rest.
    pub fn connect(&self, addr: &SockAddr) -> (r: Result<(), SockError>)
        ensures
            (dec_addr(addr.bytes(), addr.length()) matches Err(e) ==> r == Err::<(), SockError>(
                e,
            )),
            r matches Err(e) ==> (e matches SockError::Os(_) || dec_addr(
                addr.bytes(),
                addr.length(),
            ) == Err::<AddrView, SockError>(e)),
    {
        let host = match addr.to_host() {
            Ok(h) => h,
            Err(e) => {
                return Err(e);
            },
        };
        let res: Result<(), i32> = match &host {
            HostAddr::V4(a) => sys::sys_connect_v4(self, a),
            HostAddr::V6(a) => sys::sys_connect_v6(self, a),
            HostAddr::Unix(p) => match unix_abstract_of(p) {
                Some(name) => sys::sys_connect_unix_abstract(self, &name),
                None => sys::sys_connect_unix_path(self, p),
            },
            HostAddr::Unspecified => sys::sys_connect_unspec(self),
        };
        match res {
            Ok(()) => Ok(()),
            Err(e) => Err(SockError::Os(e)),
        }
    }

    /// Binds the socket to `addr`, with `bind(2)`.
    ///
    /// An address whose buffer does not decode is rejected with the
    /// decoder's error, and the unspecified family with
    /// [`SockError::UnsupportedFamily`], before any native call.
    pub fn bind(&self, addr: &SockAddr) -> (r: Result<(), SockError>)
        ensures
            (dec_addr(addr.bytes(), addr.length()) matches Err(e) ==> r == Err::<(), SockError>(
                e,
            )),
            (dec_addr(addr.bytes(), addr.length()) == Ok::<AddrView, SockError>(
                AddrView::Unspecified,
            ) ==> r == Err::<(), SockError>(SockError::UnsupportedFamily)),
            r == Err::<(), SockError>(SockError::UnsupportedFamily) ==> (dec_addr(
                addr.bytes(),
                addr.length(),
            ) == Ok::<AddrView, SockError>(AddrView::Unspecified) || dec_addr(
                addr.bytes(),
                addr.length(),
            ) == Err::<AddrView, SockError>(SockError::UnsupportedFamily)),
            r matches Err(e) ==> (e matches SockError::Os(_) || e == SockError::UnsupportedFamily
                || dec_addr(addr.bytes(), addr.length()) == Err::<AddrView, SockError>(e)),
    {
        let host = match addr.to_host() {
            Ok(h) => h,
            Err(e) => {
                return Err(e);
            },
        };
        let res: Result<(), i32> = match &host {
            HostAddr::V4(a) => sys::sys_bind_v4(self, a),
            HostAddr::V6(a) => sys::sys_bind_v6(self, a),
            HostAddr::Unix(p) => match unix_abstract_of(p) {
                Some(name) => sys::sys_bind_unix_abstract(self, &name),
                None => sys::sys_bind_unix_path(self, p),
            },
            HostAddr::Unspecified => {
                return Err(SockError::UnsupportedFamily);
            },
        };
        match res {
            Ok(()) => Ok(()),
            Err(e) => Err(SockError::Os(e)),
        }
    }

    /// Marks the socket ready to accept incoming connections, with
    /// `listen(2)`. The backlog is passed through unmodified; the OS may
    /// clamp it.
    pub fn listen(&self, backlog: i32) -> (r: Result<(), SockError>)
        ensures
            r matches Err(e) ==> e matches SockError::Os(_),
    {
        match sys::sys_listen(self, backlog) {
            Ok(()) => Ok(()),
            Err(e) => Err(SockError::Os(e)),
        }
    }

    /// Accepts a new incoming connection, with `accept(2)`, returning the
    /// connection's handle and the peer address the OS populated.
    ///
    /// On success the returned address buffer is exactly the encoding of a
    /// well-formed structured address, so decoding it recovers the peer.
    /// On a socket whose family the address codec does not cover, the
    /// populated address could not be taken back, so the call is refused
    /// as [`SockError::UnsupportedFamily`] before any native call.
    pub fn accept(&self) -> (r: Result<(Socket, SockAddr), SockError>)
        ensures
            !recognized_family(self.spec_family()) <==> r == Err::<(Socket, SockAddr), SockError>(
                SockError::UnsupportedFamily,
            ),
            r matches Ok((s, a)) ==> s.spec_family() == self.spec_family() && (family_of(
                a.bytes(),
            ) == self.spec_family() || family_of(a.bytes()) == AF_UNSPEC) && (exists|v: AddrView|
                wf_addr(v) && a.length() == enc_len(v) && a.bytes().subrange(0, enc_len(v))
                    == enc_bytes(v) && dec_addr(a.bytes(), a.length()) == Ok::<
                    AddrView,
                    SockError,
                >(v)),
            r matches Err(e) ==> (e matches SockError::Os(_) || e == SockError::PathTooLong || e
                == SockError::UnsupportedFamily),
    {
        self.accept_with(0)
    }

    /// Accepts a new incoming connection, with `accept4(2)`, applying the
    /// given creation flag bits to the new descriptor.
    pub fn accept4(&self, flags: i32) -> (r: Result<(Socket, SockAddr), SockError>)
        ensures
            !recognized_family(self.spec_family()) <==> r == Err::<(Socket, SockAddr), SockError>(
                SockError::UnsupportedFamily,
            ),
            r matches Ok((s, a)) ==> s.spec_family() == self.spec_family() && (family_of(
                a.bytes(),
            ) == self.spec_family() || family_of(a.bytes()) == AF_UNSPEC) && (exists|v: AddrView|
                wf_addr(v) && a.length() == enc_len(v) && a.bytes().subrange(0, enc_len(v))
                    == enc_bytes(v) && dec_addr(a.bytes(), a.length()) == Ok::<
                    AddrView,
                    SockError,
                >(v)),
            r matches Err(e) ==> (e matches SockError::Os(_) || e == SockError::PathTooLong || e
                == SockError::UnsupportedFamily),
    {
        self.accept_with(flags)
    }

    /// The shared body of `accept` and `accept4`.
    fn accept_with(&self, flags: i32) -> (r: Result<(Socket, SockAddr), SockError>)
        ensures
            !recognized_family(self.spec_family()) <==> r == Err::<(Socket, SockAddr), SockError>(
                SockError::UnsupportedFamily,
            ),
            r matches Ok((s, a)) ==> s.spec_family() == self.spec_family() && (family_of(
                a.bytes(),
            ) == self.spec_family() || family_of(a.bytes()) == AF_UNSPEC) && (exists|v: AddrView|
                wf_addr(v) && a.length() == enc_len(v) && a.bytes().subrange(0, enc_len(v))
                    == enc_bytes(v) && dec_addr(a.bytes(), a.length()) == Ok::<
                    AddrView,
                    SockError,
                >(v)),
            r matches Err(e) ==> (e matches SockError::Os(_) || e == SockError::PathTooLong || e
                == SockError::UnsupportedFamily),
    {
        if !(self.family == AF_INET || self.family == AF_INET6 || self.family == AF_UNIX) {
            return Err(SockError::UnsupportedFamily);
        }
        match sys::sys_accept(self, flags) {
            Ok((s, Some(raw))) => {
                let ghost graw = raw;
                let host = host_of_raw(raw);
                match SockAddr::from_host(&host) {
                    Ok(a) => {
                        proof {
                            crate::sockaddr::lemma_enc_len_bounds(host@);
                            lemma_enc_family(a.bytes(), host@);
                            assert(family_of(a.bytes()) == raw_family(graw));
                        }
                        Ok((s, a))
                    },
                    Err(e) => Err(e),
                }
            },
            Ok((s, None)) => match SockAddr::from_host(&HostAddr::Unspecified) {
                Ok(a) => {
                    proof {
                        crate::sockaddr::lemma_enc_len_bounds(AddrView::Unspecified);
                        lemma_enc_family(a.bytes(), AddrView::Unspecified);
                    }
                    Ok((s, a))
                },
                Err(e) => Err(e),
            },
            Err(e) => Err(SockError::Os(e)),
        }
    }

    /// The socket address of the local half of this connection, with
    /// `getsockname(2)`.
    ///
    /// On success the returned address buffer is exactly the encoding of a
    /// well-formed structured address, so decoding it recovers the name.
    /// On a socket whose family the address codec does not cover, the
    /// call is refused as [`SockError::UnsupportedFamily`] before any
    /// native call.
    pub fn local_addr(&self) -> (r: Result<SockAddr, SockError>)
        ensures
            !recognized_family(self.spec_family()) <==> r == Err::<SockAddr, SockError>(
                SockError::UnsupportedFamily,
            ),
            r matches Ok(a) ==> family_of(a.bytes()) == self.spec_family(),
            r matches Ok(a) ==> exists|v: AddrView|
                wf_addr(v) && a.length() == enc_len(v) && a.bytes().subrange(0, enc_len(v))
                    == enc_bytes(v) && dec_addr(a.bytes(), a.length()) == Ok::<
                    AddrView,
                    SockError,
                >(v),
            r matches Err(e) ==> (e matches SockError::Os(_) || e == SockError::PathTooLong || e
                == SockError::UnsupportedFamily),
    {
        if !(self.family == AF_INET || self.family == AF_INET6 || self.family == AF_UNIX) {
            return Err(SockError::UnsupportedFamily);
        }
        match sys::sys_getsockname(self) {
            Ok(raw) => {
                let ghost graw = raw;
                let host = host_of_raw(raw);
                match SockAddr::from_host(&host) {
                    Ok(a) => {
                        proof {
                            crate::sockaddr::lemma_enc_len_bounds(host@);
                            lemma_enc_family(a.bytes(), host@);
                            assert(family_of(a.bytes()) == raw_family(graw));
                        }
                        Ok(a)
                    },
                    Err(e) => Err(e),
                }
            },
            Err(e) => Err(SockError::Os(e)),
        }
    }

    /// The socket address of the remote peer of this connection, with
    /// `getpeername(2)`. On a socket whose family the address codec does
    /// not cover, the call is refused as
    /// [`SockError::UnsupportedFamily`] before any native call.
    pub fn peer_addr(&self) -> (r: Result<SockAddr, SockError>)
        ensures
            !recognized_family(self.spec_family()) <==> r == Err::<SockAddr, SockError>(
                SockError::UnsupportedFamily,
            ),
            r matches Ok(a) ==> (family_of(a.bytes()) == self.spec_family() || family_of(
                a.bytes(),
            ) == AF_UNSPEC),
            r matches Ok(a) ==> exists|v: AddrView|
                wf_addr(v) && a.length() == enc_len(v) && a.bytes().subrange(0, enc_len(v))
                    == enc_bytes(v) && dec_addr(a.bytes(), a.length()) == Ok::<
                    AddrView,
                    SockError,
                >(v),
            r matches Err(e) ==> (e matches SockError::Os(_) || e == SockError::PathTooLong || e
                == SockError::UnsupportedFamily),
    {
        if !(self.family == AF_INET || self.family == AF_INET6 || self.family == AF_UNIX) {
            return Err(SockError::UnsupportedFamily);
        }
        match sys::sys_getpeername(self) {
            Ok(Some(raw)) => {
                let ghost graw = raw;
                let host = host_of_raw(raw);
                match SockAddr::from_host(&host) {
                    Ok(a) => {
                        proof {
                            crate::sockaddr::lemma_enc_len_bounds(host@);
                            lemma_enc_family(a.bytes(), host@);
                            assert(family_of(a.bytes()) == raw_family(graw));
                        }
                        Ok(a)
                    },
                    Err(e) => Err(e),
                }
            },
            Ok(None) => match SockAddr::from_host(&HostAddr::Unspecified) {
                Ok(a) => {
                    proof {
                        crate::sockaddr::lemma_enc_len_bounds(AddrView::Unspecified);
                        lemma_enc_family(a.bytes(), AddrView::Unspecified);
                    }
                    Ok(a)
                },
                Err(e) => Err(e),
            },
            Err(e) => Err(SockError::Os(e)),
        }
    }

    /// Shuts down the read, write, or both halves of this connection,
    /// with `shutdown(2)`.
    pub fn shutdown(&self, how: Shutdown) -> (r: Result<(), SockError>)
        ensures
            r matches Err(e) ==> e matches SockError::Os(_),
    {
        match sys::sys_shutdown(self, how) {
            Ok(()) => Ok(()),
            Err(e) => Err(SockError::Os(e)),
        }
    }

    /// Reads and clears the socket's pending-error slot, the `SO_ERROR`
    /// option.
    ///
    /// No pending error yields `Ok(None)`, not a failure; a pending code
    /// comes back as `Ok(Some(SockError::Os(code)))` with a nonzero code.
    pub fn take_error(&self) -> (r: Result<Option<SockError>, SockError>)
        ensures
            r matches Ok(Some(e)) ==> e matches SockError::Os(c) && c > 0,
            r matches Err(e) ==> e matches SockError::Os(_),
    {
        classify_pending_error(sys::sys_socket_error(self))
    }

    /// Sets a socket option, with `setsockopt(2)`.
    ///
    /// The typed surface covers the boolean options under `SOL_SOCKET`
    /// this library enumerates; any nonzero value sets the option, zero
    /// clears it. Every other level/name pair is rejected as
    /// [`SockError::UnsupportedOption`] without a native call.
    pub fn setsockopt(&self, level: i32, optname: i32, value: i32) -> (r: Result<(), SockError>)
        ensures
            !opt_supported_set(level, optname) <==> r == Err::<(), SockError>(
                SockError::UnsupportedOption,
            ),
            r matches Err(e) ==> (e matches SockError::Os(_) || e == SockError::UnsupportedOption),
    {
        let res: Result<(), i32> = if level == SOL_SOCKET && optname == SO_REUSEADDR {
            sys::sys_set_reuseaddr(self, opt_flag_of(value))
        } else if level == SOL_SOCKET && optname == SO_KEEPALIVE {
            sys::sys_set_keepalive(self, opt_flag_of(value))
        } else {
            return Err(SockError::UnsupportedOption);
        };
        match res {
            Ok(()) => Ok(()),
            Err(e) => Err(SockError::Os(e)),
        }
    }

    /// Reads a socket option, with `getsockopt(2)`.
    ///
    /// The typed surface covers the boolean options this library
    /// enumerates, reported as exactly zero or one, and `SO_ERROR`,
    /// reported as the pending code. Every other level/name pair is
    /// rejected as [`SockError::UnsupportedOption`] without a native call.
    pub fn getsockopt(&self, level: i32, optname: i32) -> (r: Result<i32, SockError>)
        ensures
            !opt_supported_get(level, optname) <==> r == Err::<i32, SockError>(
                SockError::UnsupportedOption,
            ),
            opt_supported_set(level, optname) ==> (r matches Ok(v) ==> (v == 0 || v == 1)),
            level == SOL_SOCKET && optname == SO_ERROR ==> (r matches Ok(v) ==> v >= 0),
            r matches Err(e) ==> (e matches SockError::Os(_) || e == SockError::UnsupportedOption),
    {
        if level == SOL_SOCKET && optname == SO_REUSEADDR {
            opt_bool_result(sys::sys_get_reuseaddr(self))
        } else if level == SOL_SOCKET && optname == SO_KEEPALIVE {
            opt_bool_result(sys::sys_get_keepalive(self))
        } else if level == SOL_SOCKET && optname == SO_ERROR {
            opt_code_result(sys::sys_socket_error(self))
        } else {
            Err(SockError::UnsupportedOption)
        }
    }

    /// Manipulates the descriptor flags of the socket, with `fcntl(2)`.
    ///
    /// The covered commands are `F_GETFD` and `F_GETFL`, which return the
    /// descriptor respectively file status flag bits, and `F_SETFD` and
    /// `F_SETFL`, which install `arg` as those bits and return zero.
    /// Every other command is rejected as
    /// [`SockError::UnsupportedCommand`] without a native call.
    pub fn fcntl(&self, cmd: i32, arg: i32) -> (r: Result<i32, SockError>)
        ensures
            !(cmd == F_GETFD || cmd == F_SETFD || cmd == F_GETFL || cmd == F_SETFL) <==> r
                == Err::<i32, SockError>(SockError::UnsupportedCommand),
            cmd == F_SETFD || cmd == F_SETFL ==> (r matches Ok(v) ==> v == 0),
            r matches Err(e) ==> (e matches SockError::Os(_) || e == SockError::UnsupportedCommand),
    {
        if cmd == F_GETFD {
            opt_code_result(sys::sys_fcntl_getfd(self))
        } else if cmd == F_SETFD {
            match sys::sys_fcntl_setfd(self, arg) {
                Ok(()) => Ok(0),
                Err(e) => Err(SockError::Os(e)),
            }
        } else if cmd == F_GETFL {
            opt_code_result(sys::sys_fcntl_getfl(self))
        } else if cmd == F_SETFL {
            match sys::sys_fcntl_setfl(self, arg) {
                Ok(()) => Ok(0),
                Err(e) => Err(SockError::Os(e)),
            }
        } else {
            Err(SockError::UnsupportedCommand)
        }
    }
}

/// The on/off state a caller's option value selects: any nonzero value
/// sets the option, zero clears it.
pub fn opt_flag_of(value: i32) -> (r: bool)
    ensures
        r == (value != 0),
{
    value != 0
}

/// Maps the raw result of a boolean option read to the integer surface:
/// the OS's answer becomes exactly one for set and zero for clear, and a
/// failure of the read becomes its OS error.
pub fn opt_bool_result(raw: Result<bool, i32>) -> (r: Result<i32, SockError>)
    ensures
        r == match raw {
            Ok(b) => Ok::<i32, SockError>(
                if b {
                    1i32
                } else {
                    0i32
                },
            ),
            Err(e) => Err::<i32, SockError>(SockError::Os(e)),
        },
{
    match raw {
        Ok(b) => Ok(
            if b {
                1
            } else {
                0
            },
        ),
        Err(e) => Err(SockError::Os(e)),
    }
}

/// Passes the raw result of an integer read through unchanged: a code
/// comes back exactly as reported, a failure as its OS error.
pub fn opt_code_result(raw: Result<i32, i32>) -> (r: Result<i32, SockError>)
    ensures
        r == match raw {
            Ok(c) => Ok::<i32, SockError>(c),
            Err(e) => Err::<i32, SockError>(SockError::Os(e)),
        },
{
    match raw {
        Ok(c) => Ok(c),
        Err(e) => Err(SockError::Os(e)),
    }
}

/// Interprets the raw bytes that a native `getsockopt(2)` call produced
/// for an option whose expected type is a 32-bit integer.
///
/// The value is exposed only when the call reported exactly the expected
/// type's size and the buffer holds exactly that many bytes; any other
/// reported length means the chosen type does not match what the option
/// stores, and the value is withheld as [`SockError::OptSizeMismatch`].
pub fn opt_value_from_bytes(bytes: &Vec<u8>, reported_len: usize) -> (r: Result<i32, SockError>)
    ensures
        r == if reported_len == 4 && bytes@.len() == 4 {
            Ok::<i32, SockError>(crate::sockaddr::dec_le32(bytes@, 0) as i32)
        } else {
            Err::<i32, SockError>(SockError::OptSizeMismatch)
        },
{
    if reported_len == 4 && bytes.len() == 4 {
        let v: u32 = (bytes[0] as u32) | (bytes[1] as u32) << 8 | (bytes[2] as u32) << 16 | (
        bytes[3] as u32) << 24;
        Ok(v as i32)
    } else {
        Err(SockError::OptSizeMismatch)
    }
}

/// Turns the raw result of the pending-error query into the reported
/// value: a zero pending code means no error is pending, a nonzero code is
/// the pending OS error, and a failure of the query itself is the query's
/// OS error.
pub fn classify_pending_error(raw: Result<i32, i32>) -> (r: Result<Option<SockError>, SockError>)
    ensures
        r == match raw {
            Ok(0i32) => Ok::<Option<SockError>, SockError>(None),
            Ok(c) => Ok::<Option<SockError>, SockError>(Some(SockError::Os(c))),
            Err(e) => Err::<Option<SockError>, SockError>(SockError::Os(e)),
        },
        r matches Ok(Some(e)) ==> e matches SockError::Os(c) && c != 0,
{
    match raw {
        Ok(0i32) => Ok(None),
        Ok(c) => Ok(Some(SockError::Os(c))),
        Err(e) => Err(SockError::Os(e)),
    }
}

} // verus!
