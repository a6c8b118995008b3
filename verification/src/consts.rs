//! Native constants for the Linux socket interface.
//!
//! These are the platform's well-known numeric values for address families,
//! socket types, protocols, socket options and descriptor-flag commands. The
//! test suite checks each one against the values the `libc` crate exports for
//! this target.

use vstd::prelude::*;

verus! {

// Address families.
pub const AF_UNSPEC: i32 = 0;
pub const AF_UNIX: i32 = 1;
pub const AF_INET: i32 = 2;
pub const AF_INET6: i32 = 10;
pub const AF_PACKET: i32 = 17;

// Socket types.
pub const SOCK_STREAM: i32 = 1;
pub const SOCK_DGRAM: i32 = 2;
pub const SOCK_RAW: i32 = 3;
pub const SOCK_SEQPACKET: i32 = 5;

// Socket type flags.
pub const SOCK_NONBLOCK: i32 = 2048;
pub const SOCK_CLOEXEC: i32 = 524288;

// Protocols.
pub const IPPROTO_ICMP: i32 = 1;
pub const IPPROTO_TCP: i32 = 6;
pub const IPPROTO_UDP: i32 = 17;
pub const IPPROTO_ICMPV6: i32 = 58;

// Socket option levels and names.
pub const SOL_SOCKET: i32 = 1;
pub const SO_REUSEADDR: i32 = 2;
pub const SO_ERROR: i32 = 4;
pub const SO_KEEPALIVE: i32 = 9;

// Descriptor-flag commands and flags.
pub const F_GETFD: i32 = 1;
pub const F_SETFD: i32 = 2;
pub const F_GETFL: i32 = 3;
pub const F_SETFL: i32 = 4;
pub const FD_CLOEXEC: i32 = 1;
pub const O_NONBLOCK: i32 = 2048;

// Geometry of the native address encodings.

/// Size of `sockaddr_storage`, the capacity of every address buffer.
pub const SOCKADDR_STORAGE_LEN: usize = 128;

/// Size of a populated `sockaddr_in`.
pub const SOCKADDR_IN_LEN: usize = 16;

/// Size of a populated `sockaddr_in6`.
pub const SOCKADDR_IN6_LEN: usize = 28;

/// Longest Unix-domain path that fits `sockaddr_un` with its terminating
/// zero byte: the `sun_path` field holds 108 bytes.
pub const UNIX_PATH_MAX: usize = 107;

} // verus!
