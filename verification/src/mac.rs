//! Bluetooth MAC addresses: parsing a configured address and rendering one
//! for messages. Both are done by the `macaddr` crate.

use vstd::prelude::*;

verus! {

/// A 48-bit Bluetooth device address.
#[derive(Clone, Copy, Debug, PartialEq, Eq, Hash)]
pub struct MacAddress {
    pub octets: [u8; 6],
}

/// A character that may stand before a pair of hex digits.
pub open spec fn is_mac_separator(c: char) -> bool {
    c == '-' || c == ':' || c == '.'
}

/// An ASCII hexadecimal digit, in either case.
pub open spec fn is_hex_char(c: char) -> bool {
    ('0' <= c && c <= '9') || ('a' <= c && c <= 'f') || ('A' <= c && c <= 'F')
}

/// The value of a hexadecimal digit.
pub open spec fn hex_value(c: char) -> int {
    if '0' <= c && c <= '9' {
        (c as int) - ('0' as int)
    } else if 'a' <= c && c <= 'f' {
        (c as int) - ('a' as int) + 10
    } else {
        (c as int) - ('A' as int) + 10
    }
}

/// The hexadecimal digits of `t`, in order.
pub open spec fn hex_chars(t: Seq<char>) -> Seq<char> {
    t.filter(|c: char| is_hex_char(c))
}

/// Whether `t` writes a 48-bit address: six pairs of hex digits, each pair
/// optionally preceded by one separator (`-`, `:` or `.`), every separator
/// the same character, and nothing else.
pub open spec fn is_mac6_text(t: Seq<char>) -> bool {
    &&& forall|i: int| 0 <= i < t.len() ==> is_hex_char(t[i]) || is_mac_separator(t[i])
    &&& forall|i: int, j: int|
        0 <= i < t.len() && 0 <= j < t.len() && is_mac_separator(t[i]) && is_mac_separator(t[j])
            ==> t[i] == t[j]
    &&& hex_chars(t).len() == 12
    &&& forall|i: int|
        #![trigger t[i]]
        0 <= i < t.len() && is_mac_separator(t[i]) ==> {
            let before = hex_chars(t.take(i)).len();
            &&& before % 2 == 0
            &&& before < 12
            &&& i > 0 ==> !is_mac_separator(t[i - 1])
        }
}

/// The six octets a text accepted by `is_mac6_text` writes: each is the
/// value of its pair of hex digits.
pub open spec fn mac6_octets(t: Seq<char>) -> Seq<u8> {
    Seq::new(
        6,
        |k: int| (16 * hex_value(hex_chars(t)[2 * k]) + hex_value(hex_chars(t)[2 * k + 1])) as u8,
    )
}

/// Reads `text` with `macaddr::MacAddr6`'s `FromStr` and takes the octets
/// out with `into_array`. Claimed, as that parser reads its input: it
/// accepts exactly the texts of `is_mac6_text` and gives the octets those
/// texts write.
#[verifier::external_body]
fn parse_mac6(text: &str) -> (octets: Option<[u8; 6]>)
    ensures
        match octets {
            Some(o) => is_mac6_text(text@) && o@ == mac6_octets(text@),
            None => !is_mac6_text(text@),
        },
{
    text.parse::<macaddr::MacAddr6>().ok().map(|address| address.into_array())
}

/// An upper-case hexadecimal digit.
pub open spec fn hex_digit(d: int) -> char {
    seq!['0', '1', '2', '3', '4', '5', '6', '7', '8', '9', 'A', 'B', 'C', 'D', 'E', 'F'][d]
}

/// An octet as two upper-case hexadecimal digits.
pub open spec fn hex_octet(b: u8) -> Seq<char> {
    seq![hex_digit((b / 16) as int), hex_digit((b % 16) as int)]
}

/// The usual rendering of an address: six two-digit upper-case hexadecimal
/// octets separated by colons, such as `AB:0D:EF:12:34:56`.
pub open spec fn mac_text(o: Seq<u8>) -> Seq<char> {
    hex_octet(o[0]) + seq![':'] + hex_octet(o[1]) + seq![':'] + hex_octet(o[2]) + seq![':']
        + hex_octet(o[3]) + seq![':'] + hex_octet(o[4]) + seq![':'] + hex_octet(o[5])
}

/// Renders an address with `macaddr::MacAddr6`'s `Display` (`{:02X}` octets
/// joined by `:`). Claimed: the text is `mac_text` of the octets, as that
/// `Display` implementation writes it.
#[verifier::external_body]
fn mac6_display(octets: [u8; 6]) -> (text: String)
    ensures
        text@ == mac_text(octets@),
{
    format!("{}", macaddr::MacAddr6::from(octets))
}

impl MacAddress {
    /// Reads a MAC address written as text.
    pub fn parse(text: &str) -> (address: Option<MacAddress>)
        ensures
            match address {
                Some(a) => is_mac6_text(text@) && a.octets@ == mac6_octets(text@),
                None => !is_mac6_text(text@),
            },
    {
        match parse_mac6(text) {
            Some(octets) => Some(MacAddress { octets }),
            None => None,
        }
    }

    /// Whether two addresses are the same.
    pub fn same_as(&self, other: &MacAddress) -> (same: bool)
        ensures
            same == (self.octets@ == other.octets@),
    {
        let mut i: usize = 0;
        while i < 6
            invariant
                i <= 6,
                forall|j: int| 0 <= j < i ==> self.octets@[j] == other.octets@[j],
            decreases 6 - i,
        {
            if self.octets[i] != other.octets[i] {
                return false;
            }
            i = i + 1;
        }
        assert(self.octets@ =~= other.octets@);
        true
    }

    /// The address as `AA:BB:CC:DD:EE:FF`.
    pub fn to_text(&self) -> (text: String)
        ensures
            text@ == mac_text(self.octets@),
    {
        mac6_display(self.octets)
    }
}

} // verus!
