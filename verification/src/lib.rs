//! Owned socket handles over the raw Linux socket interface.
//!
//! The crate wraps one file descriptor per [`Socket`], encodes and decodes
//! the native variable-length socket address representation in [`SockAddr`],
//! and maps each socket operation onto exactly one native call. The address
//! codec and every decision the library takes are verified; the native calls
//! themselves stand behind small trusted wrappers.

use vstd::prelude::*;

pub mod consts;
mod error;
pub mod sockaddr;
pub mod socket;
mod sys;

pub use error::SockError;
pub use sockaddr::{AddrView, HostAddr, RawAddr, RawUnixAddr, SockAddr, V4Addr, V6Addr};
pub use socket::{classify_pending_error, opt_value_from_bytes, Shutdown, Socket};

verus! {

use crate::consts::{
    AF_INET, AF_INET6, AF_PACKET, AF_UNIX, AF_UNSPEC, IPPROTO_ICMP, IPPROTO_ICMPV6, IPPROTO_TCP, IPPROTO_UDP,
    SOCK_CLOEXEC, SOCK_DGRAM, SOCK_NONBLOCK, SOCK_RAW, SOCK_SEQPACKET, SOCK_STREAM,
};

/// Specification of the communication domain for a socket.
///
/// A newtype over the native address-family constant. Named constructors
/// cover the common families; any other value can be carried through
/// [`Domain::from_raw`].
#[derive(Clone, Copy, Debug, PartialEq, Eq, Structural)]
pub struct Domain(pub i32);

impl Domain {
    /// The wrapped native value, as specifications see it.
    pub open spec fn spec_raw(self) -> i32 {
        self.0
    }

    /// Domain for IPv4 communication, corresponding to `AF_INET`.
    pub fn ipv4() -> (d: Domain)
        ensures
            d.spec_raw() == AF_INET,
    {
        Domain(AF_INET)
    }

    /// Domain for IPv6 communication, corresponding to `AF_INET6`.
    pub fn ipv6() -> (d: Domain)
        ensures
            d.spec_raw() == AF_INET6,
    {
        Domain(AF_INET6)
    }

    /// Domain for Unix socket communication, corresponding to `AF_UNIX`.
    pub fn unix() -> (d: Domain)
        ensures
            d.spec_raw() == AF_UNIX,
    {
        Domain(AF_UNIX)
    }

    /// Domain for the low-level packet interface, corresponding to
    /// `AF_PACKET`.
    pub fn packet() -> (d: Domain)
        ensures
            d.spec_raw() == AF_PACKET,
    {
        Domain(AF_PACKET)
    }

    /// Wraps a raw address-family value this library does not enumerate.
    pub fn from_raw(raw: i32) -> (d: Domain)
        ensures
            d.spec_raw() == raw,
    {
        Domain(raw)
    }

    /// The underlying address-family value.
    pub fn as_raw(self) -> (r: i32)
        ensures
            r == self.spec_raw(),
    {
        self.0
    }

    /// Returns the correct domain for the given structured address.
    pub fn for_ip(addr: &crate::sockaddr::HostAddr) -> (d: Domain)
        ensures
            d.spec_raw() == match addr@ {
                crate::sockaddr::AddrView::V4 { .. } => AF_INET,
                crate::sockaddr::AddrView::V6 { .. } => AF_INET6,
                crate::sockaddr::AddrView::Unix { .. } => AF_UNIX,
                crate::sockaddr::AddrView::Unspecified => AF_UNSPEC,
            },
    {
        match addr {
            crate::sockaddr::HostAddr::V4(_) => Domain(AF_INET),
            crate::sockaddr::HostAddr::V6(_) => Domain(AF_INET6),
            crate::sockaddr::HostAddr::Unix(_) => Domain(AF_UNIX),
            crate::sockaddr::HostAddr::Unspecified => Domain(AF_UNSPEC),
        }
    }
}

impl core::convert::From<i32> for Domain {
    fn from(d: i32) -> (r: Domain) {
        Domain(d)
    }
}

impl vstd::std_specs::convert::FromSpecImpl<i32> for Domain {
    open spec fn obeys_from_spec() -> bool {
        true
    }

    open spec fn from_spec(v: i32) -> Domain {
        Domain(v)
    }
}

impl core::convert::From<Domain> for i32 {
    fn from(d: Domain) -> (r: i32) {
        d.0
    }
}

impl vstd::std_specs::convert::FromSpecImpl<Domain> for i32 {
    open spec fn obeys_from_spec() -> bool {
        true
    }

    open spec fn from_spec(v: Domain) -> i32 {
        v.spec_raw()
    }
}

/// Specification of communication semantics on a socket.
///
/// A newtype over the native socket-type constant, with named constructors
/// for the common types and free conversion from any raw value.
#[derive(Clone, Copy, Debug, PartialEq, Eq, Structural)]
pub struct Type(pub i32);

impl Type {
    /// The wrapped native value, as specifications see it.
    pub open spec fn spec_raw(self) -> i32 {
        self.0
    }

    /// Type corresponding to `SOCK_STREAM`, used for protocols such as TCP.
    pub fn stream() -> (t: Type)
        ensures
            t.spec_raw() == SOCK_STREAM,
    {
        Type(SOCK_STREAM)
    }

    /// Type corresponding to `SOCK_DGRAM`, used for protocols such as UDP.
    pub fn dgram() -> (t: Type)
        ensures
            t.spec_raw() == SOCK_DGRAM,
    {
        Type(SOCK_DGRAM)
    }

    /// Type corresponding to `SOCK_SEQPACKET`.
    pub fn seqpacket() -> (t: Type)
        ensures
            t.spec_raw() == SOCK_SEQPACKET,
    {
        Type(SOCK_SEQPACKET)
    }

    /// Type corresponding to `SOCK_RAW`.
    pub fn raw() -> (t: Type)
        ensures
            t.spec_raw() == SOCK_RAW,
    {
        Type(SOCK_RAW)
    }

    /// Sets `SOCK_NONBLOCK` on the type, so the socket is created in
    /// non-blocking mode.
    pub fn non_blocking(self) -> (t: Type)
        ensures
            t.spec_raw() == self.spec_raw() | SOCK_NONBLOCK,
    {
        Type(self.0 | SOCK_NONBLOCK)
    }

    /// Sets `SOCK_CLOEXEC` on the type, so the descriptor is closed on
    /// `exec`.
    pub fn cloexec(self) -> (t: Type)
        ensures
            t.spec_raw() == self.spec_raw() | SOCK_CLOEXEC,
    {
        Type(self.0 | SOCK_CLOEXEC)
    }

    /// Wraps a raw socket-type value this library does not enumerate.
    pub fn from_raw(raw: i32) -> (t: Type)
        ensures
            t.spec_raw() == raw,
    {
        Type(raw)
    }

    /// The underlying socket-type value.
    pub fn as_raw(self) -> (r: i32)
        ensures
            r == self.spec_raw(),
    {
        self.0
    }
}

/// Protocol specification used for creating sockets.
///
/// A newtype over the native protocol number, with named constructors for
/// the common protocols and free conversion from any raw value.
#[derive(Clone, Copy, Debug, PartialEq, Eq, Structural)]
pub struct Protocol(pub i32);

impl Protocol {
    /// The wrapped native value, as specifications see it.
    pub open spec fn spec_raw(self) -> i32 {
        self.0
    }

    /// Protocol corresponding to `ICMPv4`.
    pub fn icmpv4() -> (p: Protocol)
        ensures
            p.spec_raw() == IPPROTO_ICMP,
    {
        Protocol(IPPROTO_ICMP)
    }

    /// Protocol corresponding to `ICMPv6`.
    pub fn icmpv6() -> (p: Protocol)
        ensures
            p.spec_raw() == IPPROTO_ICMPV6,
    {
        Protocol(IPPROTO_ICMPV6)
    }

    /// Protocol corresponding to `TCP`.
    pub fn tcp() -> (p: Protocol)
        ensures
            p.spec_raw() == IPPROTO_TCP,
    {
        Protocol(IPPROTO_TCP)
    }

    /// Protocol corresponding to `UDP`.
    pub fn udp() -> (p: Protocol)
        ensures
            p.spec_raw() == IPPROTO_UDP,
    {
        Protocol(IPPROTO_UDP)
    }

    /// Wraps a raw protocol number this library does not enumerate.
    pub fn from_raw(raw: i32) -> (p: Protocol)
        ensures
            p.spec_raw() == raw,
    {
        Protocol(raw)
    }

    /// The underlying protocol number.
    pub fn as_raw(self) -> (r: i32)
        ensures
            r == self.spec_raw(),
    {
        self.0
    }
}

impl core::convert::From<i32> for Type {
    fn from(v: i32) -> (r: Type) {
        Type(v)
    }
}

impl vstd::std_specs::convert::FromSpecImpl<i32> for Type {
    open spec fn obeys_from_spec() -> bool {
        true
    }

    open spec fn from_spec(v: i32) -> Type {
        Type(v)
    }
}

impl core::convert::From<Type> for i32 {
    fn from(v: Type) -> (r: i32) {
        v.0
    }
}

impl vstd::std_specs::convert::FromSpecImpl<Type> for i32 {
    open spec fn obeys_from_spec() -> bool {
        true
    }

    open spec fn from_spec(v: Type) -> i32 {
        v.spec_raw()
    }
}

impl core::convert::From<i32> for Protocol {
    fn from(v: i32) -> (r: Protocol) {
        Protocol(v)
    }
}

impl vstd::std_specs::convert::FromSpecImpl<i32> for Protocol {
    open spec fn obeys_from_spec() -> bool {
        true
    }

    open spec fn from_spec(v: i32) -> Protocol {
        Protocol(v)
    }
}

impl core::convert::From<Protocol> for i32 {
    fn from(v: Protocol) -> (r: i32) {
        v.0
    }
}

impl vstd::std_specs::convert::FromSpecImpl<Protocol> for i32 {
    open spec fn obeys_from_spec() -> bool {
        true
    }

    open spec fn from_spec(v: Protocol) -> i32 {
        v.spec_raw()
    }
}

} // verus!
