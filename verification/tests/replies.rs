use extern_executor::file::{first_nul, read_file_path, read_file_reply, FileReply};
use extern_executor::ip::{
    lookup_request, lookup_target, ns_lookup_reply, IPAddr, IPData, IPKind, IpAddress,
};

#[test]
fn kind_codes() {
    assert_eq!(IPKind::V4.code(), 4);
    assert_eq!(IPKind::V6.code(), 6);
}

#[test]
fn v4_address_keeps_octets() {
    let addr = IPAddr::from(IpAddress::V4([192, 168, 0, 1]));
    assert_eq!(addr.kind.code(), 4);
    assert!(matches!(addr.data, IPData::V4([192, 168, 0, 1])));
}

#[test]
fn v6_address_keeps_memory_layout() {
    let octets: [u8; 16] = [0x20, 0x01, 0x0d, 0xb8, 0, 0, 0, 0, 0, 0, 0, 0, 0, 0, 0x12, 0x34];
    let addr = IPAddr::from(IpAddress::V6(octets));
    assert_eq!(addr.kind.code(), 6);
    match addr.data {
        IPData::V6(words) => {
            for i in 0..8 {
                assert_eq!(words[i], u16::from_ne_bytes([octets[2 * i], octets[2 * i + 1]]));
            }
        },
        IPData::V4(_) => panic!("an IPv6 address is laid out as words"),
    }
}

#[test]
fn lookup_target_adds_port_zero() {
    assert_eq!(lookup_target("example.org"), "example.org:0");
    assert_eq!(lookup_target(""), ":0");
}

#[test]
fn lookup_reply_takes_first_address() {
    let reply = ns_lookup_reply(Ok(vec![IpAddress::V4([1, 2, 3, 4]), IpAddress::V4([5, 6, 7, 8])]));
    assert!(matches!(reply, Ok(IPAddr { kind: IPKind::V4, data: IPData::V4([1, 2, 3, 4]) })));
}

#[test]
fn lookup_reply_without_address() {
    let reply = ns_lookup_reply(Ok(vec![]));
    assert!(matches!(reply, Err(ref m) if m == "No A or AAAA reconds found"));
}

#[test]
fn lookup_reply_passes_error() {
    let reply = ns_lookup_reply(Err("failed to lookup address".to_string()));
    assert!(matches!(reply, Err(ref m) if m == "failed to lookup address"));
}

#[test]
fn first_nul_positions() {
    assert_eq!(first_nul(b"abc"), None);
    assert_eq!(first_nul(b""), None);
    assert_eq!(first_nul(b"a\0b\0"), Some(1));
    assert_eq!(first_nul(b"\0"), Some(0));
}

#[test]
fn file_reply_contents() {
    let reply = read_file_reply(Ok(b"hello".to_vec()));
    assert!(matches!(reply, FileReply::Contents(ref d) if d == b"hello"));
}

#[test]
fn file_reply_nul_byte() {
    let reply = read_file_reply(Ok(b"he\0llo".to_vec()));
    assert!(matches!(reply, FileReply::NulByte { position: 2, ref data } if data == b"he\0llo"));
}

#[test]
fn file_reply_error() {
    let reply = read_file_reply(Err("No such file or directory (os error 2)".to_string()));
    assert!(matches!(reply, FileReply::Failed(ref m) if m == "No such file or directory (os error 2)"));
}

#[test]
fn path_bytes_are_decoded() {
    assert!(matches!(read_file_path(b"/tmp/data.txt"), Ok(ref p) if p == "/tmp/data.txt"));
    assert!(matches!(read_file_path("/tmp/caf\u{e9}".as_bytes()), Ok(ref p) if p == "/tmp/caf\u{e9}"));
    let failure = match read_file_path(b"/tmp/\xff") {
        Err(failure) => failure,
        Ok(_) => panic!("invalid UTF-8 is refused"),
    };
    assert_eq!(failure.valid_up_to, 5);
    assert_eq!(failure.error.to_string(), "invalid utf-8 sequence of 1 bytes from index 5");
}

#[test]
fn lookup_request_from_bytes() {
    assert!(matches!(lookup_request(b"example.org"), Ok(ref t) if t == "example.org:0"));
    match lookup_request(b"ex\xc3") {
        Err(failure) => {
            assert_eq!(failure.valid_up_to, 2);
            assert_eq!(failure.error.to_string(), "incomplete utf-8 byte sequence from index 2");
        },
        Ok(_) => panic!("a truncated sequence is refused"),
    }
}
