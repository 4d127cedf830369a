//! Unified model of the link-layer and network-layer addresses that the
//! capture engine reports: MAC addresses with their canonical textual form,
//! the presence-tagged MAC wrapper used at the engine boundary, and the
//! 16-byte tagged IP address buffer together with its lossless conversion
//! into a tagged sum type.

use vstd::prelude::*;
use vstd::string::StringExecFns;

verus! {

broadcast use vstd::array::group_array_axioms;

/// A link-layer (MAC) address: six raw bytes.
#[derive(Clone, Copy, Debug, PartialEq, Eq, Hash)]
pub struct MacAddress {
    pub bytes: [u8; 6],
}

/// The uppercase hexadecimal digit for a nibble value below sixteen.
pub open spec fn hex_char(n: u8) -> char {
    if n == 0 {
        '0'
    } else if n == 1 {
        '1'
    } else if n == 2 {
        '2'
    } else if n == 3 {
        '3'
    } else if n == 4 {
        '4'
    } else if n == 5 {
        '5'
    } else if n == 6 {
        '6'
    } else if n == 7 {
        '7'
    } else if n == 8 {
        '8'
    } else if n == 9 {
        '9'
    } else if n == 10 {
        'A'
    } else if n == 11 {
        'B'
    } else if n == 12 {
        'C'
    } else if n == 13 {
        'D'
    } else if n == 14 {
        'E'
    } else {
        'F'
    }
}

/// The two uppercase hexadecimal digits of one byte, high nibble first.
pub open spec fn byte_chars(x: u8) -> Seq<char> {
    seq![hex_char(x / 16), hex_char(x % 16)]
}

/// The canonical textual form of a six-byte MAC address: six uppercase
/// hexadecimal pairs separated by colons.
pub open spec fn mac_chars(b: Seq<u8>) -> Seq<char>
    recommends
        b.len() == 6,
{
    byte_chars(b[0]) + seq![':'] + byte_chars(b[1]) + seq![':'] + byte_chars(b[2]) + seq![':']
        + byte_chars(b[3]) + seq![':'] + byte_chars(b[4]) + seq![':'] + byte_chars(b[5])
}

fn hex_char_str(n: u8) -> (r: &'static str)
    requires
        n < 16,
    ensures
        r@ == seq![hex_char(n)],
{
    let r: &'static str = if n == 0 {
        "0"
    } else if n == 1 {
        "1"
    } else if n == 2 {
        "2"
    } else if n == 3 {
        "3"
    } else if n == 4 {
        "4"
    } else if n == 5 {
        "5"
    } else if n == 6 {
        "6"
    } else if n == 7 {
        "7"
    } else if n == 8 {
        "8"
    } else if n == 9 {
        "9"
    } else if n == 10 {
        "A"
    } else if n == 11 {
        "B"
    } else if n == 12 {
        "C"
    } else if n == 13 {
        "D"
    } else if n == 14 {
        "E"
    } else {
        "F"
    };
    proof {
        reveal_strlit("0");
        reveal_strlit("1");
        reveal_strlit("2");
        reveal_strlit("3");
        reveal_strlit("4");
        reveal_strlit("5");
        reveal_strlit("6");
        reveal_strlit("7");
        reveal_strlit("8");
        reveal_strlit("9");
        reveal_strlit("A");
        reveal_strlit("B");
        reveal_strlit("C");
        reveal_strlit("D");
        reveal_strlit("E");
        reveal_strlit("F");
        assert(r@ =~= seq![hex_char(n)]);
    }
    r
}

fn push_byte_hex(s: &mut String, x: u8)
    ensures
        final(s)@ == old(s)@ + byte_chars(x),
{
    let hi: u8 = x / 16;
    let lo: u8 = x % 16;
    s.append(hex_char_str(hi));
    s.append(hex_char_str(lo));
    proof {
        assert(s@ =~= old(s)@ + byte_chars(x));
    }
}

impl MacAddress {
    /// The canonical textual form, e.g. `00:1B:44:11:3A:B7`.
    pub fn display(&self) -> (r: String)
        ensures
            r@ == mac_chars(self.bytes@),
    {
        let mut s = String::new();
        push_byte_hex(&mut s, self.bytes[0]);
        s.append(":");
        push_byte_hex(&mut s, self.bytes[1]);
        s.append(":");
        push_byte_hex(&mut s, self.bytes[2]);
        s.append(":");
        push_byte_hex(&mut s, self.bytes[3]);
        s.append(":");
        push_byte_hex(&mut s, self.bytes[4]);
        s.append(":");
        push_byte_hex(&mut s, self.bytes[5]);
        proof {
            reveal_strlit(":");
            assert(s@ =~= mac_chars(self.bytes@));
        }
        s
    }
}

/// A presence-tagged MAC address as the capture engine hands it across the
/// boundary: the engine cannot express absence natively, so a flag rides
/// beside the value. When `valid` is false the bytes in `value` carry no
/// meaning and must not be read; the pair must be collapsed to an `Option`
/// before any other use.
#[derive(Clone, Copy, Debug)]
pub struct OptionMacAddress {
    pub value: MacAddress,
    pub valid: bool,
}

impl OptionMacAddress {
    /// Collapse the flag-and-value pair: an invalid pair becomes `None`
    /// whatever bytes sit in `value`.
    pub fn as_option(self) -> (r: Option<MacAddress>)
        ensures
            self.valid ==> r == Some(self.value),
            !self.valid ==> r is None,
    {
        if self.valid {
            Some(self.value)
        } else {
            None
        }
    }
}

/// Version tag of an `IpAddress`. The tag originates from a closed
/// enumeration owned by the capture engine; only these two values are ever
/// legitimate, but the wire representation could in principle carry others,
/// so the tag is kept as a raw byte and checked wherever it is branched on.
pub const VERSION_V4: u8 = 4;

/// Version tag of an `IpAddress` holding an IPv6 address.
pub const VERSION_V6: u8 = 6;

/// Whether a version tag is one of the two legitimate values.
pub open spec fn valid_version(v: u8) -> bool {
    v == VERSION_V4 || v == VERSION_V6
}

/// A network-layer address as the capture engine reports it: a fixed 16-byte
/// buffer beside a version tag. When the tag is `VERSION_V4` only the first
/// four bytes are meaningful; when it is `VERSION_V6` all sixteen are.
/// Identity is the full buffer together with the tag: two values that agree
/// on the buffer but differ in the tag are distinct addresses.
#[derive(Clone, Copy, Debug, PartialEq, Eq, Hash)]
pub struct IpAddress {
    pub bytes: [u8; 16],
    pub version: u8,
}

/// Whether two addresses agree on the version tag and on every byte of the
/// 16-byte buffer.
pub open spec fn addr_eq(a: IpAddress, b: IpAddress) -> bool {
    a.version == b.version && a.bytes@ == b.bytes@
}

/// The buffer an IPv4 address occupies: its four octets followed by twelve
/// zero bytes.
pub open spec fn v4_buffer(b: Seq<u8>) -> Seq<u8>
    recommends
        b.len() == 4,
{
    Seq::new(16, |i: int| if i < 4 { b[i] } else { 0u8 })
}

/// Place four IPv4 octets into the unified address representation.
pub fn normalize_v4(b: &[u8; 4]) -> (r: IpAddress)
    ensures
        r.version == VERSION_V4,
        r.bytes@ == v4_buffer(b@),
{
    let mut bytes: [u8; 16] = [0u8; 16];
    bytes[0] = b[0];
    bytes[1] = b[1];
    bytes[2] = b[2];
    bytes[3] = b[3];
    proof {
        assert(bytes@ =~= v4_buffer(b@));
    }
    IpAddress { bytes, version: VERSION_V4 }
}

/// Place sixteen IPv6 bytes into the unified address representation.
pub fn normalize_v6(b: &[u8; 16]) -> (r: IpAddress)
    ensures
        r.version == VERSION_V6,
        r.bytes@ == b@,
{
    IpAddress { bytes: *b, version: VERSION_V6 }
}

/// A network-layer address as the rest of the system consumes it: a sum type
/// over the two families, so the type itself fixes how many bytes are read.
#[derive(Clone, Copy, Debug, PartialEq, Eq, Hash)]
pub enum StandardAddress {
    V4([u8; 4]),
    V6([u8; 16]),
}

impl StandardAddress {
    /// The bytes the address consists of: four octets for the IPv4 variant,
    /// sixteen for the IPv6 variant.
    pub open spec fn spec_bytes(self) -> Seq<u8> {
        match self {
            StandardAddress::V4(b) => b@,
            StandardAddress::V6(b) => b@,
        }
    }

    /// Whether this is the IPv4 variant.
    pub open spec fn spec_is_v4(self) -> bool {
        self is V4
    }
}

/// Failure of an address-model operation.
#[derive(Clone, Copy, Debug, PartialEq, Eq)]
pub enum AddressError {
    /// The version tag was neither `VERSION_V4` nor `VERSION_V6`. The tag
    /// comes from a closed, engine-controlled enumeration, so this marks a
    /// contract breach at the boundary, never a recoverable user error.
    InvalidVersionTag,
}

/// What converting a buffer-and-tag pair to a `StandardAddress` yields:
/// the first four buffer bytes under a `VERSION_V4` tag, the whole buffer
/// under a `VERSION_V6` tag, and nothing under any other tag.
pub open spec fn standard_of(version: u8, bytes: Seq<u8>) -> Option<(bool, Seq<u8>)> {
    if version == VERSION_V4 {
        Some((true, bytes.take(4)))
    } else if version == VERSION_V6 {
        Some((false, bytes))
    } else {
        None
    }
}

impl IpAddress {
    /// Convert to the sum-type representation by branching on the version
    /// tag. A tag outside the two legitimate values is an invariant
    /// violation from the engine boundary and yields the explicit,
    /// unrecoverable `InvalidVersionTag` error — never a default or garbage
    /// address.
    pub fn to_standard_address(&self) -> (r: Result<StandardAddress, AddressError>)
        ensures
            r is Ok <==> valid_version(self.version),
            r matches Ok(s) ==> Some((s.spec_is_v4(), s.spec_bytes())) == standard_of(
                self.version,
                self.bytes@,
            ),
            r matches Err(e) ==> e == AddressError::InvalidVersionTag,
    {
        if self.version == VERSION_V4 {
            let octets: [u8; 4] = [self.bytes[0], self.bytes[1], self.bytes[2], self.bytes[3]];
            proof {
                assert(octets@ =~= self.bytes@.take(4));
            }
            Ok(StandardAddress::V4(octets))
        } else if self.version == VERSION_V6 {
            Ok(StandardAddress::V6(self.bytes))
        } else {
            Err(AddressError::InvalidVersionTag)
        }
    }
}

/// Normalizing four IPv4 octets and converting back yields the IPv4 address
/// with identical octets, in order.
pub proof fn lemma_v4_round_trip(b: Seq<u8>)
    requires
        b.len() == 4,
    ensures
        standard_of(VERSION_V4, v4_buffer(b)) == Some((true, b)),
{
    assert(v4_buffer(b).take(4) =~= b);
}

/// Normalizing sixteen IPv6 bytes and converting back yields the IPv6
/// address with identical bytes, in order.
pub proof fn lemma_v6_round_trip(b: Seq<u8>)
    requires
        b.len() == 16,
    ensures
        standard_of(VERSION_V6, b) == Some((false, b)),
{
}

/// Whether every byte of two 16-byte buffers agrees.
pub fn bytes16_eq(a: &[u8; 16], b: &[u8; 16]) -> (r: bool)
    ensures
        r == (a@ == b@),
{
    let mut i: usize = 0;
    while i < 16
        invariant
            i <= 16,
            forall|j: int| 0 <= j < i ==> a@[j] == b@[j],
        decreases 16 - i,
    {
        if a[i] != b[i] {
            return false;
        }
        i += 1;
    }
    proof {
        assert(a@ =~= b@);
    }
    true
}

/// Whether two addresses agree on the version tag and the full buffer.
pub fn ip_eq(a: &IpAddress, b: &IpAddress) -> (r: bool)
    ensures
        r == addr_eq(*a, *b),
{
    a.version == b.version && bytes16_eq(&a.bytes, &b.bytes)
}

} // verus!
