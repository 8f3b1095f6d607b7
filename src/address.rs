//! Account addresses: reading them from text and writing them back.
use vstd::prelude::*;
use vstd::string::*;
use crate::encoding::{bytes_of_hex, hex_encode, hex_of, is_hex_digit};

verus! {

/// Whitespace that the address reader passes over between digits.
pub open spec fn is_blank(c: char) -> bool {
    c == ' ' || c == '\r' || c == '\n' || c == '\t'
}

/// The text after one leading `0x`, if there is one.
pub open spec fn strip_0x(s: Seq<char>) -> Seq<char> {
    if s.len() >= 2 && s[0] == '0' && s[1] == 'x' {
        s.skip(2)
    } else {
        s
    }
}

/// The hexadecimal digits of a text, in order.
pub open spec fn hex_digits_in(s: Seq<char>) -> Seq<char> {
    s.filter(|c: char| is_hex_digit(c))
}

/// Text that reads as an address: an optional `0x`, then exactly forty
/// hexadecimal digits, with blanks allowed between them.
pub open spec fn is_address_text(s: Seq<char>) -> bool {
    let t = strip_0x(s);
    &&& forall|i: int| 0 <= i < t.len() ==> is_hex_digit(#[trigger] t[i]) || is_blank(t[i])
    &&& hex_digits_in(t).len() == 40
}

/// The twenty bytes that an address text stands for.
pub open spec fn address_of_text(s: Seq<char>) -> Seq<u8> {
    bytes_of_hex(hex_digits_in(strip_0x(s)))
}

/// How an address is written back: `0x` and forty lower-case digits.
pub open spec fn address_display(a: Seq<u8>) -> Seq<char> {
    seq!['0', 'x'] + hex_of(a)
}

/// Relies on `FromStr` of ethers' `Address` (fixed-hash's `H160`): it strips
/// one `0x`, skips blanks, and needs exactly forty hex digits, nothing else.
#[verifier::external_body]
pub(crate) fn parse_address(s: &str) -> (r: Option<Vec<u8>>)
    ensures
        r.is_some() == is_address_text(s@),
        r.is_some() ==> r.unwrap()@ == address_of_text(s@),
{
    <ethers::types::Address as std::str::FromStr>::from_str(s).ok().map(|a| a.as_bytes().to_vec())
}

/// The display form of an address.
pub fn address_to_text(a: &[u8]) -> (r: String)
    ensures
        r@ == address_display(a@),
{
    let mut r = String::from_str("0x");
    proof {
        reveal_strlit("0x");
    }
    let h = hex_encode(a);
    r.append(h.as_str());
    r
}

} // verus!
