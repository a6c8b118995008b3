//! The variable-length, family-polymorphic socket address representation.
//!
//! A [`SockAddr`] is a fixed-capacity byte buffer, sized for the largest
//! native address structure, together with the logical length of the bytes
//! that are actually meaningful. The buffer's leading two bytes carry the
//! address family in the platform's native (little-endian) order; the rest
//! is laid out as the native `sockaddr_in`, `sockaddr_in6` or
//! `sockaddr_un` structure of that family. One layout is the library's
//! own: a Unix-domain abstract name is stored as its marker — the leading
//! zero byte of the path — followed by the name and, like every Unix path
//! here, a terminating zero byte inside the logical length, where the
//! kernel's abstract form carries no terminator.
//!
//! [`HostAddr`] is the structured counterpart: a tagged union of the
//! endpoint kinds the library recognizes. Encoding a structured address into
//! the buffer and decoding a buffer back are both verified against the spec
//! functions [`enc_bytes`] and [`dec_addr`], and
//! [`lemma_addr_round_trip`] shows decoding recovers exactly what was
//! encoded.

use vstd::prelude::*;

verus! {

use crate::consts::{
    AF_INET, AF_INET6, AF_UNIX, AF_UNSPEC, SOCKADDR_IN6_LEN, SOCKADDR_IN_LEN,
    SOCKADDR_STORAGE_LEN, UNIX_PATH_MAX,
};
use crate::error::SockError;

/// An IPv4 endpoint: four address octets and a port.
#[derive(Clone, Copy, Debug, PartialEq, Eq)]
pub struct V4Addr {
    pub octets: [u8; 4],
    pub port: u16,
}

/// An IPv6 endpoint: sixteen address octets, a port, the flow information
/// and the scope identifier.
#[derive(Clone, Copy, Debug, PartialEq, Eq)]
pub struct V6Addr {
    pub octets: [u8; 16],
    pub port: u16,
    pub flowinfo: u32,
    pub scope_id: u32,
}

/// A structured socket address: the tagged union over the address families
/// this library recognizes.
#[derive(Clone, Debug, PartialEq, Eq)]
pub enum HostAddr {
    /// An IPv4 endpoint.
    V4(V4Addr),
    /// An IPv6 endpoint.
    V6(V6Addr),
    /// A Unix-domain address; the bytes of its path.
    Unix(Vec<u8>),
    /// The unspecified family.
    Unspecified,
}

/// The mathematical model of a structured socket address.
pub enum AddrView {
    V4 { octets: Seq<u8>, port: u16 },
    V6 { octets: Seq<u8>, port: u16, flowinfo: u32, scope_id: u32 },
    Unix { path: Seq<u8> },
    Unspecified,
}

impl View for HostAddr {
    type V = AddrView;

    open spec fn view(&self) -> AddrView {
        match self {
            HostAddr::V4(a) => AddrView::V4 { octets: a.octets@, port: a.port },
            HostAddr::V6(a) => AddrView::V6 {
                octets: a.octets@,
                port: a.port,
                flowinfo: a.flowinfo,
                scope_id: a.scope_id,
            },
            HostAddr::Unix(p) => AddrView::Unix { path: p@ },
            HostAddr::Unspecified => AddrView::Unspecified,
        }
    }
}

/// A Unix-domain path the native encoding accepts: a filesystem path of
/// at most `UNIX_PATH_MAX` bytes, so its terminating zero byte still fits
/// `sun_path`; or an abstract name — marked by a leading zero byte —
/// whose marker and name together fill `sun_path` exactly at most.
pub open spec fn unix_path_fits(path: Seq<u8>) -> bool {
    path.len() <= UNIX_PATH_MAX || (path.len() == UNIX_PATH_MAX + 1 && path[0] == 0)
}

/// A structured address the native encoding can represent: octet counts are
/// those of the family, and a Unix-domain path fits `sun_path`.
pub open spec fn wf_addr(v: AddrView) -> bool {
    match v {
        AddrView::V4 { octets, .. } => octets.len() == 4,
        AddrView::V6 { octets, .. } => octets.len() == 16,
        AddrView::Unix { path } => unix_path_fits(path),
        AddrView::Unspecified => true,
    }
}

/// A Unix-domain address in the three forms the OS distinguishes: a
/// filesystem pathname, an abstract name, or the unnamed address. The
/// boundary hands addresses over in this form; the library's flat path
/// representation is built from it by [`unix_path_of_raw`], in verified
/// code.
pub enum RawUnixAddr {
    /// A filesystem path: its bytes.
    Pathname(Vec<u8>),
    /// An abstract name: its bytes, without any marker.
    Abstract(Vec<u8>),
    /// The unnamed address.
    Unnamed,
}

/// An OS-reported socket address, with a Unix-domain address still in its
/// discriminated raw form.
pub enum RawAddr {
    V4(V4Addr),
    V6(V6Addr),
    Unix(RawUnixAddr),
    Unspecified,
}

/// The library's flat path for a raw Unix-domain address: a pathname
/// stands as its bytes, an abstract name behind the leading zero marker,
/// and the unnamed address — which the OS also reports as an empty
/// abstract name — as no bytes.
pub open spec fn raw_unix_path(u: RawUnixAddr) -> Seq<u8> {
    match u {
        RawUnixAddr::Pathname(p) => p@,
        RawUnixAddr::Abstract(n) => if n@.len() == 0 {
            Seq::<u8>::empty()
        } else {
            seq![0u8] + n@
        },
        RawUnixAddr::Unnamed => Seq::<u8>::empty(),
    }
}

/// The structured address a raw OS-reported address stands for.
pub open spec fn raw_addr_view(a: RawAddr) -> AddrView {
    match a {
        RawAddr::V4(x) => AddrView::V4 { octets: x.octets@, port: x.port },
        RawAddr::V6(x) => AddrView::V6 {
            octets: x.octets@,
            port: x.port,
            flowinfo: x.flowinfo,
            scope_id: x.scope_id,
        },
        RawAddr::Unix(u) => AddrView::Unix { path: raw_unix_path(u) },
        RawAddr::Unspecified => AddrView::Unspecified,
    }
}

/// The address family a raw OS-reported address carries.
pub open spec fn raw_family(a: RawAddr) -> i32 {
    match a {
        RawAddr::V4(_) => AF_INET,
        RawAddr::V6(_) => AF_INET6,
        RawAddr::Unix(_) => AF_UNIX,
        RawAddr::Unspecified => AF_UNSPEC,
    }
}

/// Flattens a raw Unix-domain address into the library's single path
/// representation.
pub fn unix_path_of_raw(u: RawUnixAddr) -> (r: Vec<u8>)
    ensures
        r@ == raw_unix_path(u),
{
    match u {
        RawUnixAddr::Pathname(p) => p,
        RawUnixAddr::Abstract(n) => {
            if n.len() == 0 {
                Vec::new()
            } else {
                let mut v: Vec<u8> = Vec::new();
                v.push(0u8);
                proof {
                    assert(v@ =~= seq![0u8] + n@.subrange(0, 0));
                }
                let mut i: usize = 0;
                while i < n.len()
                    invariant
                        i <= n@.len(),
                        v@ == seq![0u8] + n@.subrange(0, i as int),
                    decreases n@.len() - i,
                {
                    v.push(n[i]);
                    proof {
                        assert(n@.subrange(0, i + 1) =~= n@.subrange(0, i as int) + seq![
                            n@[i as int],
                        ]);
                        assert(v@ =~= seq![0u8] + n@.subrange(0, i + 1));
                    }
                    i = i + 1;
                }
                proof {
                    assert(n@.subrange(0, n@.len() as int) =~= n@);
                }
                v
            }
        },
        RawUnixAddr::Unnamed => Vec::new(),
    }
}

/// Builds the structured address an OS-reported raw address stands for.
pub fn host_of_raw(raw: RawAddr) -> (r: HostAddr)
    ensures
        r@ == raw_addr_view(raw),
{
    match raw {
        RawAddr::V4(x) => HostAddr::V4(x),
        RawAddr::V6(x) => HostAddr::V6(x),
        RawAddr::Unix(u) => HostAddr::Unix(unix_path_of_raw(u)),
        RawAddr::Unspecified => HostAddr::Unspecified,
    }
}

/// Reads the library's flat Unix path back into its native form: the
/// leading zero marker selects an abstract name, whose bytes follow it;
/// any other path, the empty one included, is a filesystem pathname.
pub fn unix_abstract_of(path: &Vec<u8>) -> (r: Option<Vec<u8>>)
    ensures
        match r {
            Some(n) => path@.len() > 0 && path@[0] == 0 && n@ == path@.subrange(
                1,
                path@.len() as int,
            ),
            None => path@.len() == 0 || path@[0] != 0,
        },
{
    if path.len() > 0 && path[0] == 0u8 {
        let mut n: Vec<u8> = Vec::new();
        proof {
            assert(n@ =~= path@.subrange(1, 1));
        }
        let mut i: usize = 1;
        while i < path.len()
            invariant
                1 <= i <= path@.len(),
                n@ == path@.subrange(1, i as int),
            decreases path@.len() - i,
        {
            n.push(path[i]);
            proof {
                assert(path@.subrange(1, i + 1) =~= path@.subrange(1, i as int) + seq![
                    path@[i as int],
                ]);
                assert(n@ =~= path@.subrange(1, i + 1));
            }
            i = i + 1;
        }
        Some(n)
    } else {
        None
    }
}

/// A 16-bit value in network (big-endian) byte order.
pub open spec fn be16(x: u16) -> Seq<u8> {
    seq![(x >> 8) as u8, x as u8]
}

/// A 32-bit value in the platform's native (little-endian) byte order.
pub open spec fn le32(x: u32) -> Seq<u8> {
    seq![x as u8, (x >> 8) as u8, (x >> 16) as u8, (x >> 24) as u8]
}

/// The family tag in the platform's native (little-endian) byte order.
/// Every family this library encodes fits one byte.
pub open spec fn fam_bytes(fam: i32) -> Seq<u8>
    recommends
        0 <= fam < 256,
{
    seq![fam as u8, 0u8]
}

/// The number of meaningful bytes the native encoding of `v` occupies.
pub open spec fn enc_len(v: AddrView) -> int {
    match v {
        AddrView::V4 { .. } => SOCKADDR_IN_LEN as int,
        AddrView::V6 { .. } => SOCKADDR_IN6_LEN as int,
        AddrView::Unix { path } => 3 + path.len() as int,
        AddrView::Unspecified => 2,
    }
}

/// The native encoding of `v`: the meaningful prefix of the address buffer.
///
/// IPv4 is `sockaddr_in`: family, port in network order, the address
/// octets, then the eight zero bytes of `sin_zero`. IPv6 is `sockaddr_in6`:
/// family, port in network order, flow information, the address octets, the
/// scope identifier. Unix is `sockaddr_un`: family, the path bytes, a
/// terminating zero byte.
pub open spec fn enc_bytes(v: AddrView) -> Seq<u8> {
    match v {
        AddrView::V4 { octets, port } => fam_bytes(AF_INET) + be16(port) + octets + Seq::new(
            8,
            |i: int| 0u8,
        ),
        AddrView::V6 { octets, port, flowinfo, scope_id } => fam_bytes(AF_INET6) + be16(port)
            + le32(flowinfo) + octets + le32(scope_id),
        AddrView::Unix { path } => fam_bytes(AF_UNIX) + path + seq![0u8],
        AddrView::Unspecified => fam_bytes(AF_UNSPEC),
    }
}

/// The family tag carried in a populated buffer.
pub open spec fn family_of(bytes: Seq<u8>) -> int {
    bytes[0] + 0x100 * bytes[1]
}

/// The 16-bit value at offset `i`, read in network (big-endian) order.
pub open spec fn dec_be16(bytes: Seq<u8>, i: int) -> u16 {
    (bytes[i] as u16) << 8 | (bytes[i + 1] as u16)
}

/// The 32-bit value at offset `i`, read in native (little-endian) order.
pub open spec fn dec_le32(bytes: Seq<u8>, i: int) -> u32 {
    (bytes[i] as u32) | (bytes[i + 1] as u32) << 8 | (bytes[i + 2] as u32) << 16 | (bytes[i
        + 3] as u32) << 24
}

/// Decoding a populated buffer of logical length `len` back into a
/// structured address.
///
/// A length too small for even the family tag, or too small for the fixed
/// structure of a recognized internet family, is an error, as is a family
/// this library does not recognize. A Unix-domain address drops the
/// terminating zero byte when one is present.
pub open spec fn dec_addr(bytes: Seq<u8>, len: int) -> Result<AddrView, SockError> {
    if len < 2 {
        Err(SockError::AddrTooShort)
    } else {
        let fam = family_of(bytes);
        if fam == AF_UNSPEC {
            Ok(AddrView::Unspecified)
        } else if fam == AF_INET {
            if len < SOCKADDR_IN_LEN {
                Err(SockError::AddrTooShort)
            } else {
                Ok(
                    AddrView::V4 {
                        octets: bytes.subrange(4, 8),
                        port: dec_be16(bytes, 2),
                    },
                )
            }
        } else if fam == AF_INET6 {
            if len < SOCKADDR_IN6_LEN {
                Err(SockError::AddrTooShort)
            } else {
                Ok(
                    AddrView::V6 {
                        octets: bytes.subrange(8, 24),
                        port: dec_be16(bytes, 2),
                        flowinfo: dec_le32(bytes, 4),
                        scope_id: dec_le32(bytes, 24),
                    },
                )
            }
        } else if fam == AF_UNIX {
            if len >= 3 && bytes[len - 1] == 0 {
                Ok(AddrView::Unix { path: bytes.subrange(2, len - 1) })
            } else {
                Ok(AddrView::Unix { path: bytes.subrange(2, len) })
            }
        } else {
            Err(SockError::UnsupportedFamily)
        }
    }
}

/// The encoding is long enough to carry its family tag, and no longer than
/// the buffer's capacity.
pub proof fn lemma_enc_len_bounds(v: AddrView)
    requires
        wf_addr(v),
    ensures
        2 <= enc_len(v) <= SOCKADDR_STORAGE_LEN,
        enc_bytes(v).len() == enc_len(v),
{
}

/// Decoding recovers exactly the structured address that was encoded: for
/// every well-formed address, any buffer that carries its encoding as the
/// populated prefix decodes to that address.
pub proof fn lemma_addr_round_trip(buf: Seq<u8>, v: AddrView)
    requires
        wf_addr(v),
        enc_len(v) <= buf.len(),
        buf.subrange(0, enc_len(v)) == enc_bytes(v),
    ensures
        dec_addr(buf, enc_len(v)) == Ok::<AddrView, SockError>(v),
{
    let l = enc_len(v);
    let enc = enc_bytes(v);
    assert(enc.len() == l) by {
        lemma_enc_len_bounds(v);
    }
    match v {
        AddrView::V4 { octets, port } => {
            let fb = fam_bytes(AF_INET);
            let pb = be16(port);
            let zs = Seq::new(8, |i: int| 0u8);
            assert(enc == fb + pb + octets + zs);
            assert forall|i: int| 0 <= i < 16 implies buf[i] == enc[i] by {
                assert(buf.subrange(0, l)[i] == buf[i]);
            }
            assert(enc[0] == fb[0] && enc[1] == fb[1]);
            assert(family_of(buf) == AF_INET);
            assert(enc[2] == pb[0] && enc[3] == pb[1]);
            assert forall|i: int| 0 <= i < 4 implies enc[4 + i] == octets[i] by {}
            assert(buf.subrange(4, 8) =~= octets);
            assert(dec_be16(buf, 2) == port) by {
                assert(buf[2] == (port >> 8) as u8 && buf[3] == port as u8);
                assert((((port >> 8) as u8) as u16) << 8 | ((port as u8) as u16) == port)
                    by (bit_vector);
            }
        },
        AddrView::V6 { octets, port, flowinfo, scope_id } => {
            let fb = fam_bytes(AF_INET6);
            let pb = be16(port);
            let fl = le32(flowinfo);
            let sc = le32(scope_id);
            assert(enc == fb + pb + fl + octets + sc);
            assert forall|i: int| 0 <= i < 28 implies buf[i] == enc[i] by {
                assert(buf.subrange(0, l)[i] == buf[i]);
            }
            assert(enc[0] == fb[0] && enc[1] == fb[1]);
            assert(family_of(buf) == AF_INET6);
            assert(enc[2] == pb[0] && enc[3] == pb[1]);
            assert(enc[4] == fl[0] && enc[5] == fl[1] && enc[6] == fl[2] && enc[7] == fl[3]);
            assert forall|i: int| 0 <= i < 16 implies enc[8 + i] == octets[i] by {}
            assert(enc[24] == sc[0] && enc[25] == sc[1] && enc[26] == sc[2] && enc[27] == sc[3]);
            assert(buf.subrange(8, 24) =~= octets);
            assert(dec_be16(buf, 2) == port) by {
                assert(buf[2] == (port >> 8) as u8 && buf[3] == port as u8);
                assert((((port >> 8) as u8) as u16) << 8 | ((port as u8) as u16) == port)
                    by (bit_vector);
            }
            assert(dec_le32(buf, 4) == flowinfo) by {
                assert(buf[4] == flowinfo as u8 && buf[5] == (flowinfo >> 8) as u8 && buf[6] == (
                flowinfo >> 16) as u8 && buf[7] == (flowinfo >> 24) as u8);
                lemma_le32_round_trip(flowinfo);
            }
            assert(dec_le32(buf, 24) == scope_id) by {
                assert(buf[24] == scope_id as u8 && buf[25] == (scope_id >> 8) as u8 && buf[26] == (
                scope_id >> 16) as u8 && buf[27] == (scope_id >> 24) as u8);
                lemma_le32_round_trip(scope_id);
            }
        },
        AddrView::Unix { path } => {
            let fb = fam_bytes(AF_UNIX);
            assert(enc == fb + path + seq![0u8]);
            assert forall|i: int| 0 <= i < l implies buf[i] == enc[i] by {
                assert(buf.subrange(0, l)[i] == buf[i]);
            }
            assert(enc[0] == fb[0] && enc[1] == fb[1]);
            assert(family_of(buf) == AF_UNIX);
            assert(enc[l - 1] == seq![0u8][0]);
            assert(buf[l - 1] == 0);
            assert forall|i: int| 0 <= i < path.len() implies enc[2 + i] == path[i] by {}
            assert(buf.subrange(2, l - 1) =~= path);
        },
        AddrView::Unspecified => {
            let fb = fam_bytes(AF_UNSPEC);
            assert(enc == fb);
            assert(buf[0] == enc[0] && buf[1] == enc[1]) by {
                assert(buf.subrange(0, l)[0] == buf[0]);
                assert(buf.subrange(0, l)[1] == buf[1]);
            }
            assert(family_of(buf) == AF_UNSPEC);
        },
    }
}

/// The family tag of an encoded address is its family's constant: any
/// buffer that carries the encoding of a well-formed structured address
/// as its populated prefix opens with that address's family.
pub proof fn lemma_enc_family(buf: Seq<u8>, v: AddrView)
    requires
        wf_addr(v),
        enc_len(v) <= buf.len(),
        buf.subrange(0, enc_len(v)) == enc_bytes(v),
    ensures
        family_of(buf) == match v {
            AddrView::V4 { .. } => AF_INET as int,
            AddrView::V6 { .. } => AF_INET6 as int,
            AddrView::Unix { .. } => AF_UNIX as int,
            AddrView::Unspecified => AF_UNSPEC as int,
        },
{
    let l = enc_len(v);
    let enc = enc_bytes(v);
    assert(enc.len() == l) by {
        lemma_enc_len_bounds(v);
    }
    assert(buf[0] == enc[0] && buf[1] == enc[1]) by {
        assert(buf.subrange(0, l)[0] == buf[0]);
        assert(buf.subrange(0, l)[1] == buf[1]);
    }
    match v {
        AddrView::V4 { octets, port } => {
            let fb = fam_bytes(AF_INET);
            assert(enc == fb + be16(port) + octets + Seq::new(8, |i: int| 0u8));
            assert(enc[0] == fb[0] && enc[1] == fb[1]);
        },
        AddrView::V6 { octets, port, flowinfo, scope_id } => {
            let fb = fam_bytes(AF_INET6);
            assert(enc == fb + be16(port) + le32(flowinfo) + octets + le32(scope_id));
            assert(enc[0] == fb[0] && enc[1] == fb[1]);
        },
        AddrView::Unix { path } => {
            let fb = fam_bytes(AF_UNIX);
            assert(enc == fb + path + seq![0u8]);
            assert(enc[0] == fb[0] && enc[1] == fb[1]);
        },
        AddrView::Unspecified => {
            assert(enc == fam_bytes(AF_UNSPEC));
        },
    }
}

/// The family-polymorphic socket address buffer.
///
/// `data` always holds the full `sockaddr_storage` capacity; `len` is the
/// logical length: how many leading bytes are meaningful. The buffer is
/// written once, by a constructor, and immutable afterwards.
#[derive(Debug, PartialEq, Eq)]
pub struct SockAddr {
    data: Vec<u8>,
    len: usize,
}

impl SockAddr {
    /// The full buffer contents, as specifications see them.
    pub closed spec fn bytes(&self) -> Seq<u8> {
        self.data@
    }

    /// The logical length: how many leading bytes are meaningful.
    pub closed spec fn length(&self) -> int {
        self.len as int
    }

    #[verifier::type_invariant]
    spec fn inv(&self) -> bool {
        self.data@.len() == SOCKADDR_STORAGE_LEN && 2 <= self.len <= SOCKADDR_STORAGE_LEN
    }

    /// Encodes a structured address into its native representation.
    ///
    /// Succeeds for every representable input; the one caller error is a
    /// Unix-domain path longer than the platform allows, reported as
    /// [`SockError::PathTooLong`] and never truncated.
    pub fn from_host(h: &HostAddr) -> (r: Result<SockAddr, SockError>)
        ensures
            match r {
                Ok(a) => wf_addr(h@) && a.length() == enc_len(h@) && a.bytes().len()
                    == SOCKADDR_STORAGE_LEN && a.bytes().subrange(0, enc_len(h@)) == enc_bytes(
                    h@,
                ) && dec_addr(a.bytes(), a.length()) == Ok::<AddrView, SockError>(h@),
                Err(e) => e == SockError::PathTooLong && !wf_addr(h@),
            },
    {
        let mut data: Vec<u8> = Vec::new();
        match h {
            HostAddr::V4(a) => {
                data.push(AF_INET as u8);
                data.push(0u8);
                data.push((a.port >> 8) as u8);
                data.push(a.port as u8);
                data.push(a.octets[0]);
                data.push(a.octets[1]);
                data.push(a.octets[2]);
                data.push(a.octets[3]);
                let mut i: usize = 0;
                while i < 8
                    invariant
                        0 <= i <= 8,
                        data@.len() == 8 + i,
                        data@.subrange(0, 8) == enc_bytes(h@).subrange(0, 8),
                        forall|j: int| 8 <= j < data@.len() ==> data@[j] == 0u8,
                    decreases 8 - i,
                {
                    data.push(0u8);
                    proof {
                        assert(data@.subrange(0, 8) =~= enc_bytes(h@).subrange(0, 8));
                    }
                    i = i + 1;
                }
                proof {
                    assert forall|j: int| 0 <= j < 16 implies data@[j] == enc_bytes(h@)[j] by {
                        if j < 8 {
                            assert(data@.subrange(0, 8)[j] == enc_bytes(h@).subrange(0, 8)[j]);
                        } else {
                            assert(enc_bytes(h@)[j] == Seq::new(8, |k: int| 0u8)[j - 8]);
                        }
                    }
                    assert(data@ =~= enc_bytes(h@));
                }
            },
            HostAddr::V6(a) => {
                data.push(AF_INET6 as u8);
                data.push(0u8);
                data.push((a.port >> 8) as u8);
                data.push(a.port as u8);
                data.push(a.flowinfo as u8);
                data.push((a.flowinfo >> 8) as u8);
                data.push((a.flowinfo >> 16) as u8);
                data.push((a.flowinfo >> 24) as u8);
                let ghost pre = data@;
                proof {
                    assert(data@ =~= pre + a.octets@.subrange(0, 0));
                }
                let mut i: usize = 0;
                while i < 16
                    invariant
                        0 <= i <= 16,
                        data@ == pre + a.octets@.subrange(0, i as int),
                    decreases 16 - i,
                {
                    data.push(a.octets[i]);
                    proof {
                        assert(a.octets@.subrange(0, i + 1) =~= a.octets@.subrange(0, i as int)
                            + seq![a.octets@[i as int]]);
                        assert(data@ =~= pre + a.octets@.subrange(0, i + 1));
                    }
                    i = i + 1;
                }
                proof {
                    assert(a.octets@.subrange(0, 16) =~= a.octets@);
                }
                data.push(a.scope_id as u8);
                data.push((a.scope_id >> 8) as u8);
                data.push((a.scope_id >> 16) as u8);
                data.push((a.scope_id >> 24) as u8);
                proof {
                    assert(data@ =~= enc_bytes(h@));
                }
            },
            HostAddr::Unix(p) => {
                let abstract_max = UNIX_PATH_MAX + 1;
                if p.len() > UNIX_PATH_MAX && !(p.len() == abstract_max && p[0] == 0u8) {
                    return Err(SockError::PathTooLong);
                }
                data.push(AF_UNIX as u8);
                data.push(0u8);
                let ghost pre = data@;
                proof {
                    assert(data@ =~= pre + p@.subrange(0, 0));
                }
                let mut i: usize = 0;
                while i < p.len()
                    invariant
                        0 <= i <= p@.len(),
                        data@ == pre + p@.subrange(0, i as int),
                    decreases p@.len() - i,
                {
                    data.push(p[i]);
                    proof {
                        assert(p@.subrange(0, i + 1) =~= p@.subrange(0, i as int) + seq![
                            p@[i as int],
                        ]);
                        assert(data@ =~= pre + p@.subrange(0, i + 1));
                    }
                    i = i + 1;
                }
                data.push(0u8);
                proof {
                    assert(p@.subrange(0, p@.len() as int) =~= p@);
                    assert(data@ =~= enc_bytes(h@));
                }
            },
            HostAddr::Unspecified => {
                data.push(AF_UNSPEC as u8);
                data.push(0u8);
                proof {
                    assert(data@ =~= enc_bytes(h@));
                }
            },
        }
        let len = data.len();
        proof {
            lemma_enc_len_bounds(h@);
        }
        while data.len() < SOCKADDR_STORAGE_LEN
            invariant
                data@.subrange(0, len as int) == enc_bytes(h@),
                len as int == enc_len(h@),
                len <= data@.len() <= SOCKADDR_STORAGE_LEN,
            decreases SOCKADDR_STORAGE_LEN - data@.len(),
        {
            data.push(0u8);
            proof {
                assert(data@.subrange(0, len as int) =~= enc_bytes(h@));
            }
        }
        let a = SockAddr { data, len };
        proof {
            lemma_addr_round_trip(a.bytes(), h@);
        }
        Ok(a)
    }

    /// Constructs a Unix-domain address from the bytes of a path.
    ///
    /// A leading zero byte marks an abstract name. A path longer than the
    /// platform allows yields [`SockError::PathTooLong`], never a
    /// truncated address.
    pub fn unix(path: Vec<u8>) -> (r: Result<SockAddr, SockError>)
        ensures
            match r {
                Ok(a) => unix_path_fits(path@) && a.length() == 3 + path@.len() && dec_addr(
                    a.bytes(),
                    a.length(),
                ) == Ok::<AddrView, SockError>(AddrView::Unix { path: path@ }),
                Err(e) => e == SockError::PathTooLong && !unix_path_fits(path@),
            },
    {
        Self::from_host(&HostAddr::Unix(path))
    }

    /// Adopts a buffer that an operating-system call populated, given the
    /// length the call reported.
    ///
    /// The reported length must cover at least a family tag, fit the
    /// buffer that was handed in, and fit the native capacity; anything
    /// else is rejected without reading the buffer.
    pub fn from_os_bytes(buf: &Vec<u8>, reported_len: usize) -> (r: Result<SockAddr, SockError>)
        ensures
            match r {
                Ok(a) => 2 <= reported_len <= buf@.len() && reported_len
                    <= SOCKADDR_STORAGE_LEN && a.length() == reported_len && a.bytes().subrange(
                    0,
                    reported_len as int,
                ) == buf@.subrange(0, reported_len as int),
                Err(e) => e == (if reported_len < 2 {
                    SockError::AddrTooShort
                } else {
                    SockError::LengthOutOfRange
                }) && !(2 <= reported_len <= buf@.len() && reported_len <= SOCKADDR_STORAGE_LEN),
            },
    {
        if reported_len < 2 {
            return Err(SockError::AddrTooShort);
        }
        if reported_len > buf.len() || reported_len > SOCKADDR_STORAGE_LEN {
            return Err(SockError::LengthOutOfRange);
        }
        let mut data: Vec<u8> = Vec::new();
        proof {
            assert(data@ =~= buf@.subrange(0, 0));
        }
        let mut i: usize = 0;
        while i < reported_len
            invariant
                0 <= i <= reported_len,
                reported_len <= buf@.len(),
                data@ == buf@.subrange(0, i as int),
            decreases reported_len - i,
        {
            data.push(buf[i]);
            proof {
                assert(buf@.subrange(0, i + 1) =~= buf@.subrange(0, i as int) + seq![
                    buf@[i as int],
                ]);
                assert(data@ =~= buf@.subrange(0, i + 1));
            }
            i = i + 1;
        }
        while data.len() < SOCKADDR_STORAGE_LEN
            invariant
                data@.subrange(0, reported_len as int) == buf@.subrange(0, reported_len as int),
                reported_len <= data@.len() <= SOCKADDR_STORAGE_LEN,
            decreases SOCKADDR_STORAGE_LEN - data@.len(),
        {
            data.push(0u8);
            proof {
                assert(data@.subrange(0, reported_len as int) =~= buf@.subrange(
                    0,
                    reported_len as int,
                ));
            }
        }
        Ok(SockAddr { data, len: reported_len })
    }

    /// Decodes the populated buffer back into a structured address.
    ///
    /// Reports [`SockError::AddrTooShort`] when the logical length cannot
    /// hold the recognized family's structure, and
    /// [`SockError::UnsupportedFamily`] for a family this library does not
    /// recognize; it never guesses.
    pub fn to_host(&self) -> (r: Result<HostAddr, SockError>)
        ensures
            match r {
                Ok(h) => dec_addr(self.bytes(), self.length()) == Ok::<AddrView, SockError>(h@),
                Err(e) => dec_addr(self.bytes(), self.length()) == Err::<AddrView, SockError>(e),
            },
    {
        proof {
            use_type_invariant(self);
        }
        let fam: u16 = self.data[0] as u16 + 256 * (self.data[1] as u16);
        if fam as i32 == AF_UNSPEC {
            Ok(HostAddr::Unspecified)
        } else if fam as i32 == AF_INET {
            if self.len < SOCKADDR_IN_LEN {
                return Err(SockError::AddrTooShort);
            }
            let octets: [u8; 4] = [self.data[4], self.data[5], self.data[6], self.data[7]];
            let port: u16 = (self.data[2] as u16) << 8 | (self.data[3] as u16);
            proof {
                assert(octets@ =~= self.data@.subrange(4, 8));
            }
            Ok(HostAddr::V4(V4Addr { octets, port }))
        } else if fam as i32 == AF_INET6 {
            if self.len < SOCKADDR_IN6_LEN {
                return Err(SockError::AddrTooShort);
            }
            let octets: [u8; 16] = [
                self.data[8],
                self.data[9],
                self.data[10],
                self.data[11],
                self.data[12],
                self.data[13],
                self.data[14],
                self.data[15],
                self.data[16],
                self.data[17],
                self.data[18],
                self.data[19],
                self.data[20],
                self.data[21],
                self.data[22],
                self.data[23],
            ];
            let port: u16 = (self.data[2] as u16) << 8 | (self.data[3] as u16);
            let flowinfo: u32 = (self.data[4] as u32) | (self.data[5] as u32) << 8 | (
            self.data[6] as u32) << 16 | (self.data[7] as u32) << 24;
            let scope_id: u32 = (self.data[24] as u32) | (self.data[25] as u32) << 8 | (
            self.data[26] as u32) << 16 | (self.data[27] as u32) << 24;
            proof {
                assert(octets@ =~= self.data@.subrange(8, 24));
            }
            Ok(HostAddr::V6(V6Addr { octets, port, flowinfo, scope_id }))
        } else if fam as i32 == AF_UNIX {
            let end: usize = if self.len >= 3 && self.data[self.len - 1] == 0 {
                self.len - 1
            } else {
                self.len
            };
            let mut path: Vec<u8> = Vec::new();
            proof {
                assert(path@ =~= self.data@.subrange(2, 2));
            }
            let mut i: usize = 2;
            while i < end
                invariant
                    2 <= i <= end,
                    end <= self.data@.len(),
                    path@ == self.data@.subrange(2, i as int),
                decreases end - i,
            {
                path.push(self.data[i]);
                proof {
                    assert(self.data@.subrange(2, i + 1) =~= self.data@.subrange(2, i as int)
                        + seq![self.data@[i as int]]);
                    assert(path@ =~= self.data@.subrange(2, i + 1));
                }
                i = i + 1;
            }
            Ok(HostAddr::Unix(path))
        } else {
            Err(SockError::UnsupportedFamily)
        }
    }

    /// The address family carried in the buffer's leading tag.
    pub fn family(&self) -> (r: u16)
        ensures
            r as int == family_of(self.bytes()),
    {
        proof {
            use_type_invariant(self);
        }
        self.data[0] as u16 + 256 * (self.data[1] as u16)
    }

    /// The logical length: how many leading bytes of the buffer are
    /// meaningful.
    pub fn len(&self) -> (r: usize)
        ensures
            r == self.length(),
            2 <= r <= SOCKADDR_STORAGE_LEN,
    {
        proof {
            use_type_invariant(self);
        }
        self.len
    }

    /// The full-capacity buffer, for handing to native calls that take the
    /// populated prefix by pointer and length.
    pub fn raw_bytes(&self) -> (r: &Vec<u8>)
        ensures
            r@ == self.bytes(),
            r@.len() == SOCKADDR_STORAGE_LEN,
    {
        proof {
            use_type_invariant(self);
        }
        &self.data
    }
}

/// A buffer that decodes successfully is long enough for what it claims:
/// at least the family tag, and at least the fixed structure size of a
/// recognized internet family.
pub proof fn lemma_decoded_len_min(bytes: Seq<u8>, len: int)
    requires
        dec_addr(bytes, len) is Ok,
    ensures
        len >= 2,
        dec_addr(bytes, len) matches Ok(v) ==> match v {
            AddrView::V4 { .. } => len >= SOCKADDR_IN_LEN,
            AddrView::V6 { .. } => len >= SOCKADDR_IN6_LEN,
            AddrView::Unix { .. } => len >= 2,
            AddrView::Unspecified => len >= 2,
        },
{
}

/// Reassembling the little-endian bytes of a 32-bit value gives the value
/// back.
proof fn lemma_le32_round_trip(x: u32)
    ensures
        ((x as u8) as u32) | (((x >> 8) as u8) as u32) << 8 | (((x >> 16) as u8) as u32) << 16 | ((
        (x >> 24) as u8) as u32) << 24 == x,
{
    assert(((x as u8) as u32) | (((x >> 8) as u8) as u32) << 8 | (((x >> 16) as u8) as u32) << 16
        | (((x >> 24) as u8) as u32) << 24 == x) by (bit_vector);
}

} // verus!
