//! The address codec: construction, decoding, round trips and the error
//! cases.

use sockraw::consts;
use sockraw::sockaddr::{host_of_raw, unix_abstract_of, unix_path_of_raw};
use sockraw::{HostAddr, RawAddr, RawUnixAddr, SockAddr, SockError, V4Addr, V6Addr};

#[test]
fn v4_round_trip() {
    let host = HostAddr::V4(V4Addr { octets: [127, 0, 0, 1], port: 8080 });
    let addr = SockAddr::from_host(&host).unwrap();
    assert_eq!(addr.len(), consts::SOCKADDR_IN_LEN);
    assert_eq!(addr.family() as i32, consts::AF_INET);
    assert_eq!(addr.to_host().unwrap(), host);
}

#[test]
fn v4_wire_layout() {
    let host = HostAddr::V4(V4Addr { octets: [10, 1, 2, 3], port: 0x1234 });
    let addr = SockAddr::from_host(&host).unwrap();
    let bytes = addr.raw_bytes();
    // family little-endian, port big-endian, then the octets in order.
    assert_eq!(&bytes[..8], &[2, 0, 0x12, 0x34, 10, 1, 2, 3]);
    assert_eq!(&bytes[8..16], &[0; 8]);
}

#[test]
fn v6_round_trip() {
    let host = HostAddr::V6(V6Addr {
        octets: [0, 1, 2, 3, 4, 5, 6, 7, 8, 9, 10, 11, 12, 13, 14, 15],
        port: 443,
        flowinfo: 0x01020304,
        scope_id: 7,
    });
    let addr = SockAddr::from_host(&host).unwrap();
    assert_eq!(addr.len(), consts::SOCKADDR_IN6_LEN);
    assert_eq!(addr.family() as i32, consts::AF_INET6);
    assert_eq!(addr.to_host().unwrap(), host);
}

#[test]
fn unspecified_round_trip() {
    let addr = SockAddr::from_host(&HostAddr::Unspecified).unwrap();
    assert_eq!(addr.len(), 2);
    assert_eq!(addr.family() as i32, consts::AF_UNSPEC);
    assert_eq!(addr.to_host().unwrap(), HostAddr::Unspecified);
}

#[test]
fn unix_round_trip() {
    let path = b"/tmp/example.sock".to_vec();
    let addr = SockAddr::unix(path.clone()).unwrap();
    assert_eq!(addr.len(), 2 + path.len() + 1);
    assert_eq!(addr.family() as i32, consts::AF_UNIX);
    assert_eq!(addr.to_host().unwrap(), HostAddr::Unix(path));
}

#[test]
fn unix_empty_path_round_trip() {
    let addr = SockAddr::unix(Vec::new()).unwrap();
    assert_eq!(addr.len(), 3);
    assert_eq!(addr.to_host().unwrap(), HostAddr::Unix(Vec::new()));
}

#[test]
fn unix_longest_path_accepted() {
    let path = vec![b'a'; consts::UNIX_PATH_MAX];
    let addr = SockAddr::unix(path.clone()).unwrap();
    assert_eq!(addr.len(), 2 + consts::UNIX_PATH_MAX + 1);
    assert_eq!(addr.to_host().unwrap(), HostAddr::Unix(path));
}

#[test]
fn longest_abstract_name_accepted() {
    // A leading zero byte marks an abstract name; marker and name may
    // fill `sun_path` exactly.
    let mut path = vec![0u8];
    path.extend(vec![b'x'; consts::UNIX_PATH_MAX]);
    let addr = SockAddr::unix(path.clone()).unwrap();
    assert_eq!(addr.to_host().unwrap(), HostAddr::Unix(path));
}

#[test]
fn oversized_abstract_name_rejected() {
    let mut path = vec![0u8];
    path.extend(vec![b'x'; consts::UNIX_PATH_MAX + 1]);
    assert_eq!(SockAddr::unix(path), Err(SockError::PathTooLong));
}

#[test]
fn oversized_unix_path_rejected() {
    let path = vec![b'a'; consts::UNIX_PATH_MAX + 1];
    assert_eq!(SockAddr::unix(path.clone()), Err(SockError::PathTooLong));
    assert_eq!(
        SockAddr::from_host(&HostAddr::Unix(path)),
        Err(SockError::PathTooLong)
    );
}

#[test]
fn os_bytes_v4_decode() {
    // A `sockaddr_in` as the OS would populate it: family 2, port 80,
    // address 192.168.0.1.
    let mut buf = vec![2u8, 0, 0, 80, 192, 168, 0, 1];
    buf.resize(16, 0);
    let addr = SockAddr::from_os_bytes(&buf, 16).unwrap();
    assert_eq!(
        addr.to_host().unwrap(),
        HostAddr::V4(V4Addr { octets: [192, 168, 0, 1], port: 80 })
    );
}

#[test]
fn os_bytes_length_errors() {
    let buf = vec![2u8, 0, 0, 80, 192, 168, 0, 1];
    assert_eq!(SockAddr::from_os_bytes(&buf, 1), Err(SockError::AddrTooShort));
    assert_eq!(SockAddr::from_os_bytes(&buf, 0), Err(SockError::AddrTooShort));
    assert_eq!(
        SockAddr::from_os_bytes(&buf, buf.len() + 1),
        Err(SockError::LengthOutOfRange)
    );
    let big = vec![0u8; 300];
    assert_eq!(
        SockAddr::from_os_bytes(&big, 200),
        Err(SockError::LengthOutOfRange)
    );
}

#[test]
fn truncated_internet_address_rejected() {
    // Family says IPv4 but only eight bytes are meaningful.
    let buf = vec![2u8, 0, 0, 80, 192, 168, 0, 1];
    let addr = SockAddr::from_os_bytes(&buf, 8).unwrap();
    assert_eq!(addr.to_host(), Err(SockError::AddrTooShort));

    // Family says IPv6 but the buffer stops short of its structure.
    let mut buf6 = vec![10u8, 0];
    buf6.resize(16, 0);
    let addr6 = SockAddr::from_os_bytes(&buf6, 16).unwrap();
    assert_eq!(addr6.to_host(), Err(SockError::AddrTooShort));
}

#[test]
fn unknown_family_rejected() {
    let buf = vec![99u8, 0, 1, 2, 3, 4];
    let addr = SockAddr::from_os_bytes(&buf, 6).unwrap();
    assert_eq!(addr.family(), 99);
    assert_eq!(addr.to_host(), Err(SockError::UnsupportedFamily));
}

#[test]
fn unix_os_bytes_without_terminator() {
    // As the OS reports a pathname address whose length does not count a
    // trailing zero: family 1, then the path bytes.
    let buf = vec![1u8, 0, b'/', b'x'];
    let addr = SockAddr::from_os_bytes(&buf, 4).unwrap();
    assert_eq!(addr.to_host().unwrap(), HostAddr::Unix(b"/x".to_vec()));
}

#[test]
fn abstract_marker_split() {
    // The leading zero byte selects an abstract name; its bytes follow.
    assert_eq!(unix_abstract_of(&vec![0u8, 7, 8]), Some(vec![7, 8]));
    assert_eq!(unix_abstract_of(&vec![0u8]), Some(Vec::new()));
    assert_eq!(unix_abstract_of(&b"/tmp/x".to_vec()), None);
    assert_eq!(unix_abstract_of(&Vec::new()), None);
}

#[test]
fn raw_unix_flattening() {
    // A pathname stands as its bytes, an abstract name behind the
    // marker, and both the unnamed address and the empty abstract name
    // as no bytes.
    assert_eq!(
        unix_path_of_raw(RawUnixAddr::Pathname(b"/tmp/x".to_vec())),
        b"/tmp/x".to_vec()
    );
    assert_eq!(
        unix_path_of_raw(RawUnixAddr::Abstract(vec![7, 8])),
        vec![0u8, 7, 8]
    );
    assert_eq!(unix_path_of_raw(RawUnixAddr::Abstract(Vec::new())), Vec::<u8>::new());
    assert_eq!(unix_path_of_raw(RawUnixAddr::Unnamed), Vec::<u8>::new());
}

#[test]
fn raw_addr_to_host() {
    let v4 = V4Addr { octets: [127, 0, 0, 1], port: 80 };
    assert_eq!(host_of_raw(RawAddr::V4(v4)), HostAddr::V4(v4));
    assert_eq!(
        host_of_raw(RawAddr::Unix(RawUnixAddr::Abstract(vec![9]))),
        HostAddr::Unix(vec![0, 9])
    );
    assert_eq!(host_of_raw(RawAddr::Unspecified), HostAddr::Unspecified);
}
