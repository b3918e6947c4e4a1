//! The link-layer address that identifies a peripheral.

use vstd::prelude::*;
use vstd::string::{StringExecFns, StringSliceAdditionalSpecFns};

verus! {

/// A 6-byte Bluetooth device address, most significant octet first.
#[derive(Clone, Copy, Debug, Eq, Hash)]
pub struct MacAddress(pub [u8; 6]);

impl View for MacAddress {
    type V = Seq<u8>;

    open spec fn view(&self) -> Seq<u8> {
        self.0@
    }
}

/// The number that the six octets spell when read as one big-endian integer.
pub open spec fn spec_key(octets: Seq<u8>) -> int
    recommends
        octets.len() == 6,
{
    ((((octets[0] as int * 256 + octets[1] as int) * 256 + octets[2] as int) * 256
        + octets[3] as int) * 256 + octets[4] as int) * 256 + octets[5] as int
}

impl PartialEq for MacAddress {
    fn eq(&self, other: &Self) -> (equal: bool) {
        self.0[0] == other.0[0] && self.0[1] == other.0[1] && self.0[2] == other.0[2]
            && self.0[3] == other.0[3] && self.0[4] == other.0[4] && self.0[5] == other.0[5]
    }
}

impl vstd::std_specs::cmp::PartialEqSpecImpl for MacAddress {
    open spec fn obeys_eq_spec() -> bool {
        true
    }

    open spec fn eq_spec(&self, other: &Self) -> bool {
        self.0[0] == other.0[0] && self.0[1] == other.0[1] && self.0[2] == other.0[2]
            && self.0[3] == other.0[3] && self.0[4] == other.0[4] && self.0[5] == other.0[5]
    }
}

impl MacAddress {
    /// The address as one integer below 2^48, usable as a map key.
    pub fn key(&self) -> (k: u64)
        ensures
            k as int == spec_key(self@),
            k < 0x1_0000_0000_0000,
    {
        let b = &self.0;
        let k01: u64 = b[0] as u64 * 256 + b[1] as u64;
        let k02: u64 = k01 * 256 + b[2] as u64;
        let k03: u64 = k02 * 256 + b[3] as u64;
        let k04: u64 = k03 * 256 + b[4] as u64;
        k04 * 256 + b[5] as u64
    }
}

/// The key of an address is below 2^48.
pub proof fn lemma_key_bounds(a: MacAddress)
    ensures
        0 <= spec_key(a@) < 0x1_0000_0000_0000,
{
}

/// Two addresses with the same key are the same address.
pub proof fn lemma_key_injective(a: MacAddress, b: MacAddress)
    requires
        spec_key(a@) == spec_key(b@),
    ensures
        a == b,
{
    assert(a.0@ =~= b.0@);
    assert(a.0 =~= b.0);
}

/// Why a text is no address.
#[derive(Clone, Copy, Debug, PartialEq, Eq, Structural)]
pub enum MacAddressError {
    /// The text is not a row of octets with a colon between each two.
    InvalidOctet,
    /// The text is a row of octets, but not of six.
    InvalidLength,
}

/// The value of a hexadecimal digit in ASCII, of either case.
pub open spec fn spec_hex_digit(byte: u8) -> Option<u8> {
    if 0x30 <= byte <= 0x39 {
        Some((byte - 0x30) as u8)
    } else if 0x41 <= byte <= 0x46 {
        Some((byte - 0x41 + 10) as u8)
    } else if 0x61 <= byte <= 0x66 {
        Some((byte - 0x61 + 10) as u8)
    } else {
        None
    }
}

/// The value of an octet written in two characters: two hexadecimal
/// digits, or a plus sign and one hexadecimal digit.
pub open spec fn spec_octet(first: u8, second: u8) -> Option<u8> {
    match spec_hex_digit(second) {
        None => None,
        Some(low) => if first == 0x2B {
            Some(low)
        } else {
            match spec_hex_digit(first) {
                None => None,
                Some(high) => Some((high * 16 + low) as u8),
            }
        },
    }
}

/// Whether a text is a row of octets of two characters each, with a colon
/// between each two of them and nowhere else.
pub open spec fn spec_octets_formed(text: Seq<u8>) -> bool {
    &&& text.len() % 3 == 2
    &&& forall|k: int|
        0 <= k && 3 * k + 1 < text.len() ==> spec_octet(
            #[trigger] text[3 * k],
            text[3 * k + 1],
        ) is Some
    &&& forall|k: int| 0 <= k && 3 * k + 2 < text.len() ==> #[trigger] text[3 * k + 2] == 0x3A
}

/// The address that a text of 17 characters spells.
pub open spec fn spec_address_of(text: Seq<u8>) -> MacAddress
    recommends
        spec_octets_formed(text),
        text.len() == 17,
{
    MacAddress(
        [
            spec_octet(text[0], text[1]).unwrap(),
            spec_octet(text[3], text[4]).unwrap(),
            spec_octet(text[6], text[7]).unwrap(),
            spec_octet(text[9], text[10]).unwrap(),
            spec_octet(text[12], text[13]).unwrap(),
            spec_octet(text[15], text[16]).unwrap(),
        ],
    )
}

/// What a text parses to: the address it spells where it is a row of six
/// octets, else the reason why it is none.
pub open spec fn spec_parse(text: Seq<u8>) -> Result<MacAddress, MacAddressError> {
    if !spec_octets_formed(text) {
        Err(MacAddressError::InvalidOctet)
    } else if text.len() != 17 {
        Err(MacAddressError::InvalidLength)
    } else {
        Ok(spec_address_of(text))
    }
}

/// The value of a hexadecimal digit in ASCII.
fn hex_digit(byte: u8) -> (value: Option<u8>)
    ensures
        value == spec_hex_digit(byte),
        value matches Some(v) ==> v < 16,
{
    if 0x30 <= byte && byte <= 0x39 {
        Some(byte - 0x30)
    } else if 0x41 <= byte && byte <= 0x46 {
        Some(byte - 0x41 + 10)
    } else if 0x61 <= byte && byte <= 0x66 {
        Some(byte - 0x61 + 10)
    } else {
        None
    }
}

/// The value of an octet written in two characters.
fn octet(first: u8, second: u8) -> (value: Option<u8>)
    ensures
        value == spec_octet(first, second),
{
    match hex_digit(second) {
        None => None,
        Some(low) => {
            if first == 0x2B {
                Some(low)
            } else {
                match hex_digit(first) {
                    None => None,
                    Some(high) => Some(high * 16 + low),
                }
            }
        },
    }
}

impl MacAddress {
    /// Reads an address from text such as `12:34:56:78:9A:BC`: six octets
    /// of two hexadecimal digits each, of either case, with a colon
    /// between each two.
    pub fn parse(text: &[u8]) -> (address: Result<MacAddress, MacAddressError>)
        ensures
            address == spec_parse(text@),
    {
        let length = text.len();
        if length % 3 != 2 {
            return Err(MacAddressError::InvalidOctet);
        }
        let mut octets: [u8; 6] = [0, 0, 0, 0, 0, 0];
        let mut at: usize = 0;
        let mut count: usize = 0;
        while at < length
            invariant
                length == text@.len(),
                length % 3 == 2,
                at == 3 * count,
                at <= length + 1,
                forall|k: int|
                    0 <= k < count ==> spec_octet(#[trigger] text@[3 * k], text@[3 * k + 1])
                        is Some,
                forall|k: int|
                    0 <= k && 3 * k + 2 < at && 3 * k + 2 < length ==> #[trigger] text@[3 * k + 2]
                        == 0x3A,
                forall|k: int|
                    0 <= k < count && k < 6 ==> Some(#[trigger] octets@[k]) == spec_octet(
                        text@[3 * k],
                        text@[3 * k + 1],
                    ),
            decreases length + 1 - at,
        {
            let value = match octet(text[at], text[at + 1]) {
                Some(value) => value,
                None => {
                    assert(!spec_octets_formed(text@)) by {
                        let k = count as int;
                        assert(spec_octet(text@[3 * k], text@[3 * k + 1]) is None);
                    }
                    return Err(MacAddressError::InvalidOctet);
                },
            };
            if at + 2 < length && text[at + 2] != 0x3A {
                assert(!spec_octets_formed(text@)) by {
                    let k = count as int;
                    assert(text@[3 * k + 2] != 0x3A);
                }
                return Err(MacAddressError::InvalidOctet);
            }
            if count < 6 {
                octets[count] = value;
            }
            at = at + 3;
            count = count + 1;
        }
        assert(spec_octets_formed(text@)) by {
            assert forall|k: int| 0 <= k && 3 * k + 1 < text@.len() implies spec_octet(
                #[trigger] text@[3 * k],
                text@[3 * k + 1],
            ) is Some by {
                assert(k < count);
            }
        }
        if length != 17 {
            return Err(MacAddressError::InvalidLength);
        }
        let address = MacAddress(octets);
        assert(count == 6);
        assert(octets@ =~= spec_address_of(text@).0@);
        assert(octets =~= spec_address_of(text@).0);
        Ok(address)
    }

    /// Reads an address from a string such as `12:34:56:78:9A:BC`.
    pub fn from_str(text: &str) -> (address: Result<MacAddress, MacAddressError>)
        ensures
            address == spec_parse(text.spec_bytes()),
    {
        MacAddress::parse(text.as_bytes())
    }
}

/// The hexadecimal digit, in upper case, that stands for a number below
/// sixteen.
pub open spec fn spec_hex_char(value: u8) -> char
    recommends
        value < 16,
{
    if value == 0 {
        '0'
    } else if value == 1 {
        '1'
    } else if value == 2 {
        '2'
    } else if value == 3 {
        '3'
    } else if value == 4 {
        '4'
    } else if value == 5 {
        '5'
    } else if value == 6 {
        '6'
    } else if value == 7 {
        '7'
    } else if value == 8 {
        '8'
    } else if value == 9 {
        '9'
    } else if value == 10 {
        'A'
    } else if value == 11 {
        'B'
    } else if value == 12 {
        'C'
    } else if value == 13 {
        'D'
    } else if value == 14 {
        'E'
    } else {
        'F'
    }
}

/// The two hexadecimal digits of an octet.
pub open spec fn spec_octet_text(octet: u8) -> Seq<char> {
    seq![spec_hex_char(octet / 16), spec_hex_char(octet % 16)]
}

/// The text of an address: its six octets in two upper-case hexadecimal
/// digits each, with a colon between each two.
pub open spec fn spec_format(address: MacAddress) -> Seq<char> {
    seq![
        spec_hex_char(address.0[0] / 16),
        spec_hex_char(address.0[0] % 16),
        ':',
        spec_hex_char(address.0[1] / 16),
        spec_hex_char(address.0[1] % 16),
        ':',
        spec_hex_char(address.0[2] / 16),
        spec_hex_char(address.0[2] % 16),
        ':',
        spec_hex_char(address.0[3] / 16),
        spec_hex_char(address.0[3] % 16),
        ':',
        spec_hex_char(address.0[4] / 16),
        spec_hex_char(address.0[4] % 16),
        ':',
        spec_hex_char(address.0[5] / 16),
        spec_hex_char(address.0[5] % 16),
    ]
}

/// The ASCII codes of a text.
pub open spec fn spec_ascii(text: Seq<char>) -> Seq<u8> {
    text.map_values(|c: char| c as u8)
}

/// The hexadecimal digit of a number below sixteen, as a string.
fn hex_str(value: u8) -> (digit: &'static str)
    requires
        value < 16,
    ensures
        digit@ == seq![spec_hex_char(value)],
{
    proof {
        reveal_strlit("0");
        reveal_strlit("1");
        reveal_strlit("2");
        reveal_strlit("3");
        reveal_strlit("4");
        reveal_strlit("5");
        reveal_strlit("6");
        reveal_strlit("7");
        reveal_strlit("8");
        reveal_strlit("9");
        reveal_strlit("A");
        reveal_strlit("B");
        reveal_strlit("C");
        reveal_strlit("D");
        reveal_strlit("E");
        reveal_strlit("F");
    }
    let digit = match value {
        0 => "0",
        1 => "1",
        2 => "2",
        3 => "3",
        4 => "4",
        5 => "5",
        6 => "6",
        7 => "7",
        8 => "8",
        9 => "9",
        10 => "A",
        11 => "B",
        12 => "C",
        13 => "D",
        14 => "E",
        _ => "F",
    };
    assert(digit@ =~= seq![spec_hex_char(value)]);
    digit
}

/// Appends the two hexadecimal digits of an octet to a text.
fn push_octet(text: &mut String, octet: u8)
    ensures
        final(text)@ == old(text)@ + spec_octet_text(octet),
{
    text.append(hex_str(octet / 16));
    text.append(hex_str(octet % 16));
    assert(text@ =~= old(text)@ + spec_octet_text(octet));
}

impl MacAddress {
    /// The address as text, such as `12:34:56:78:9A:BC`.
    pub fn to_string(&self) -> (text: String)
        ensures
            text@ == spec_format(*self),
    {
        proof {
            reveal_strlit(":");
        }
        let mut text = String::new();
        push_octet(&mut text, self.0[0]);
        text.append(":");
        push_octet(&mut text, self.0[1]);
        text.append(":");
        push_octet(&mut text, self.0[2]);
        text.append(":");
        push_octet(&mut text, self.0[3]);
        text.append(":");
        push_octet(&mut text, self.0[4]);
        text.append(":");
        push_octet(&mut text, self.0[5]);
        assert(text@ =~= spec_format(*self));
        text
    }
}

impl From<[u8; 6]> for MacAddress {
    fn from(bytes: [u8; 6]) -> (address: Self) {
        Self(bytes)
    }
}

impl vstd::std_specs::convert::FromSpecImpl<[u8; 6]> for MacAddress {
    open spec fn obeys_from_spec() -> bool {
        true
    }

    open spec fn from_spec(bytes: [u8; 6]) -> Self {
        MacAddress(bytes)
    }
}

impl From<MacAddress> for [u8; 6] {
    fn from(address: MacAddress) -> (bytes: Self) {
        address.0
    }
}

impl vstd::std_specs::convert::FromSpecImpl<MacAddress> for [u8; 6] {
    open spec fn obeys_from_spec() -> bool {
        true
    }

    open spec fn from_spec(address: MacAddress) -> Self {
        address.0
    }
}

/// A hexadecimal digit reads back as the number it stands for.
pub proof fn lemma_hex_char_reads_back(value: u8)
    requires
        value < 16,
    ensures
        spec_hex_digit(spec_hex_char(value) as u8) == Some(value),
        spec_hex_char(value) as u8 != 0x2B,
{
}

/// The two digits of an octet read back as the octet.
pub proof fn lemma_octet_reads_back(octet: u8)
    ensures
        spec_octet(spec_hex_char(octet / 16) as u8, spec_hex_char(octet % 16) as u8) == Some(
            octet,
        ),
{
    lemma_hex_char_reads_back(octet / 16);
    lemma_hex_char_reads_back(octet % 16);
}

/// The text of an address reads back as the address.
pub proof fn lemma_format_parses_back(address: MacAddress)
    ensures
        spec_parse(spec_ascii(spec_format(address))) == Ok::<MacAddress, MacAddressError>(address),
{
    let text = spec_ascii(spec_format(address));
    let a = address.0;
    lemma_octet_reads_back(a[0]);
    lemma_octet_reads_back(a[1]);
    lemma_octet_reads_back(a[2]);
    lemma_octet_reads_back(a[3]);
    lemma_octet_reads_back(a[4]);
    lemma_octet_reads_back(a[5]);
    assert(text.len() == 17);
    assert(spec_octets_formed(text)) by {
        assert forall|k: int| 0 <= k && 3 * k + 1 < text.len() implies spec_octet(
            #[trigger] text[3 * k],
            text[3 * k + 1],
        ) is Some by {
            assert(k == 0 || k == 1 || k == 2 || k == 3 || k == 4 || k == 5);
        }
        assert forall|k: int| 0 <= k && 3 * k + 2 < text.len() implies #[trigger] text[3 * k + 2]
            == 0x3A by {
            assert(k == 0 || k == 1 || k == 2 || k == 3 || k == 4);
        }
    }
    assert(spec_address_of(text).0@ =~= address.0@);
    assert(spec_address_of(text).0 =~= address.0);
}

} // verus!
