//! IP addresses as the name lookup hands them to C, and the reply of a
//! lookup.

use vstd::endian::{endianness, Endian};
use vstd::prelude::*;
use vstd::string::StringExecFns;
use vstd::utf8::{decode_utf8, valid_utf8};

use crate::cstr::{c_str_text, valid_up_to_is, Utf8Failure};

verus! {

/// The version of an IP address; C reads it as the number 4 or 6.
#[derive(Clone, Copy)]
pub enum IPKind {
    V4,
    V6,
}

impl IPKind {
    /// The number that C reads for this kind.
    pub fn code(&self) -> (code: u8)
        ensures
            code == (match self {
                IPKind::V4 => 4u8,
                IPKind::V6 => 6u8,
            }),
    {
        match self {
            IPKind::V4 => 4,
            IPKind::V6 => 6,
        }
    }
}

/// The address itself: four octets, or eight 16-bit words laid out in
/// memory exactly as the sixteen octets of an IPv6 address.
#[derive(Clone, Copy)]
pub enum IPData {
    V4([u8; 4]),
    V6([u16; 8]),
}

/// An IP address for C.
#[derive(Clone, Copy)]
pub struct IPAddr {
    pub data: IPData,
    pub kind: IPKind,
}

/// A resolved IP address, by its octets in network order.
#[derive(Clone, Copy)]
pub enum IpAddress {
    V4([u8; 4]),
    V6([u8; 16]),
}

/// The 16-bit word whose bytes, in memory order, are `b0` then `b1` on the
/// executing machine.
pub open spec fn native_word(b0: u8, b1: u8) -> int {
    match endianness() {
        Endian::Little => b0 + 256 * b1,
        Endian::Big => 256 * b0 + b1,
    }
}

/// Calls `u16::from_ne_bytes`, which reads two bytes as a 16-bit word in
/// the native byte order of the executing machine.
#[verifier::external_body]
fn u16_from_ne_bytes(b0: u8, b1: u8) -> (word: u16)
    ensures
        word == native_word(b0, b1),
{
    u16::from_ne_bytes([b0, b1])
}

/// `addr` is `ip` laid out for C: the same kind, and the same bytes in
/// memory.
pub open spec fn lays_out(addr: IPAddr, ip: IpAddress) -> bool {
    match ip {
        IpAddress::V4(octets) => {
            &&& addr.kind == IPKind::V4
            &&& addr.data matches IPData::V4(o) && o@ == octets@
        },
        IpAddress::V6(octets) => {
            &&& addr.kind == IPKind::V6
            &&& addr.data matches IPData::V6(w) && forall|i: int|
                0 <= i < 8 ==> #[trigger] w@[i] == native_word(octets@[2 * i], octets@[2 * i + 1])
        },
    }
}

impl IPAddr {
    /// Lays out a resolved address for C.
    pub fn from(ip: IpAddress) -> (addr: Self)
        ensures
            lays_out(addr, ip),
    {
        match ip {
            IpAddress::V4(octets) => IPAddr { kind: IPKind::V4, data: IPData::V4(octets) },
            IpAddress::V6(o) => {
                let words: [u16; 8] = [
                    u16_from_ne_bytes(o[0], o[1]),
                    u16_from_ne_bytes(o[2], o[3]),
                    u16_from_ne_bytes(o[4], o[5]),
                    u16_from_ne_bytes(o[6], o[7]),
                    u16_from_ne_bytes(o[8], o[9]),
                    u16_from_ne_bytes(o[10], o[11]),
                    u16_from_ne_bytes(o[12], o[13]),
                    u16_from_ne_bytes(o[14], o[15]),
                ];
                IPAddr { kind: IPKind::V6, data: IPData::V6(words) }
            },
        }
    }
}

/// The message of a lookup that found no address.
pub open spec fn no_records_message() -> Seq<char> {
    "No A or AAAA reconds found"@
}

/// The host to look `domain` up as: the domain with port 0.
pub fn lookup_target(domain: &str) -> (target: String)
    ensures
        target@ == domain@ + ":0"@,
{
    let mut target = String::from_str(domain);
    target.append(":0");
    target
}

/// The host to look up for the domain that C gives as the bytes `domain`:
/// the decoded domain with port 0, or the decoding failure, which says
/// where the valid part ends, when the bytes are not valid UTF-8.
pub fn lookup_request(domain: &[u8]) -> (res: Result<String, Utf8Failure>)
    ensures
        res is Ok <==> valid_utf8(domain@),
        res matches Ok(target) ==> target@ == decode_utf8(domain@) + ":0"@,
        res matches Err(f) ==> valid_up_to_is(domain@, f.valid_up_to as int) && f.valid_up_to
            < domain@.len(),
{
    match c_str_text(domain) {
        Ok(text) => Ok(lookup_target(text.as_str())),
        Err(e) => Err(e),
    }
}

/// The reply of a lookup to C: the first resolved address laid out for C,
/// the message `no_records_message()` when none was resolved, or the
/// lookup's own error.
pub fn ns_lookup_reply(resolved: Result<Vec<IpAddress>, String>) -> (reply: Result<IPAddr, String>)
    ensures
        match resolved {
            Err(e) => reply == Err::<IPAddr, String>(e),
            Ok(ips) => if ips.len() == 0 {
                reply matches Err(m) && m@ == no_records_message()
            } else {
                reply matches Ok(addr) && lays_out(addr, ips@[0])
            },
        },
{
    match resolved {
        Err(e) => Err(e),
        Ok(ips) => if ips.len() == 0 {
            Err(String::from_str("No A or AAAA reconds found"))
        } else {
            Ok(IPAddr::from(ips[0]))
        },
    }
}

/// Laying out is a function of the resolved address: two addresses laid out
/// from the same resolved address are equal.
pub proof fn law_layout_is_unique(a: IPAddr, b: IPAddr, ip: IpAddress)
    requires
        lays_out(a, ip),
        lays_out(b, ip),
    ensures
        a == b,
{
    match ip {
        IpAddress::V4(_) => {
            if let (IPData::V4(x), IPData::V4(y)) = (a.data, b.data) {
                assert(x =~= y);
            }
        },
        IpAddress::V6(_) => {
            if let (IPData::V6(x), IPData::V6(y)) = (a.data, b.data) {
                assert(x =~= y);
            }
        },
    }
}

/// On a little-endian machine each word of an IPv6 address reads its first
/// octet as the low byte.
pub proof fn law_little_endian_words(addr: IPAddr, octets: [u8; 16], i: int)
    requires
        lays_out(addr, IpAddress::V6(octets)),
        endianness() == Endian::Little,
        0 <= i < 8,
    ensures
        addr.data matches IPData::V6(w) && w@[i] == octets@[2 * i] + 256 * octets@[2 * i + 1],
{
}

} // verus!
