//! Balance queries: checking the address, and reporting a reading or a
//! labelled stand-in when the node cannot be reached.
use vstd::prelude::*;
use vstd::string::*;
use crate::address::{address_display, address_of_text, address_to_text, is_address_text, parse_address};
use crate::encoding::{decimal_of, decimal_text};

verus! {

/// Wei in a millionth of an ether.
pub const WEI_PER_MICRO_ETH: u128 = 1_000_000_000_000;

/// What checking the address of a balance query gives.
pub open spec fn balance_address_check(s: Seq<char>) -> Result<Seq<u8>, Seq<char>> {
    if s.len() == 0 {
        Err("Error: Address is required"@)
    } else if !is_address_text(s) {
        Err("Error: Invalid Ethereum address format: "@ + s)
    } else {
        Ok(address_of_text(s))
    }
}

/// Checks the address of a balance query before any network call.
pub fn check_balance_address(address: &str) -> (r: Result<Vec<u8>, String>)
    ensures
        match (r, balance_address_check(address@)) {
            (Ok(a), Ok(b)) => a@ == b,
            (Err(e), Err(m)) => e@ == m,
            _ => false,
        },
{
    if address.unicode_len() == 0 {
        return Err(String::from_str("Error: Address is required"));
    }
    match parse_address(address) {
        Some(a) => Ok(a),
        None => {
            let mut e = String::from_str("Error: Invalid Ethereum address format: ");
            e.append(address);
            Err(e)
        },
    }
}

/// A balance in millionths of an ether, rounded half up.
pub open spec fn micro_eth(wei: u128) -> nat {
    let m = (wei / WEI_PER_MICRO_ETH) as nat;
    if wei % WEI_PER_MICRO_ETH >= WEI_PER_MICRO_ETH / 2 {
        m + 1
    } else {
        m
    }
}

/// Digits padded with leading zeros to six places.
pub open spec fn six_places(d: Seq<char>) -> Seq<char> {
    if d.len() >= 6 {
        d
    } else {
        Seq::new((6 - d.len()) as nat, |i: int| '0') + d
    }
}

/// An amount of wei in ether with six decimal places.
pub open spec fn eth_six_text(wei: u128) -> Seq<char> {
    decimal_of(micro_eth(wei) / 1_000_000) + "."@ + six_places(decimal_of(micro_eth(wei) % 1_000_000))
}

/// Writes a balance in ether with six decimal places.
pub fn eth_six(wei: u128) -> (r: String)
    ensures
        r@ == eth_six_text(wei),
{
    let m = wei / WEI_PER_MICRO_ETH;
    let micro: u128 = if wei % WEI_PER_MICRO_ETH >= WEI_PER_MICRO_ETH / 2 { m + 1 } else { m };
    let mut r = decimal_text(micro / 1_000_000);
    r.append(".");
    let frac = decimal_text(micro % 1_000_000);
    let n = frac.as_str().unicode_len();
    let mut k: usize = n;
    let ghost d = frac@;
    while k < 6
        invariant
            n == d.len(),
            n <= k <= 6 || (n > 6 && k == n),
            r@ == decimal_of(micro as nat / 1_000_000) + "."@ + Seq::new((k - n) as nat, |i: int| '0'),
        decreases 6 - k,
    {
        r.append("0");
        proof {
            reveal_strlit("0");
            assert(Seq::new((k + 1 - n) as nat, |i: int| '0') =~= Seq::new((k - n) as nat, |i: int| '0').push('0'));
        }
        k = k + 1;
    }
    r.append(frac.as_str());
    proof {
        if n >= 6 {
            assert(Seq::new((k - n) as nat, |i: int| '0') =~= Seq::<char>::empty());
        }
        assert(r@ =~= eth_six_text(wei));
    }
    r
}

/// The report of a balance read from the node.
pub open spec fn balance_message(address: Seq<u8>, wei: u128, url: Seq<char>) -> Seq<char> {
    "Balance for address "@ + address_display(address) + ": "@ + eth_six_text(wei) + " ETH (via "@ + url
        + ")"@
}

/// Reports a balance read from the node.
pub fn balance_reply(address: &[u8], wei: u128, rpc_url: &str) -> (r: String)
    ensures
        r@ == balance_message(address@, wei, rpc_url@),
{
    let mut r = String::from_str("Balance for address ");
    let a = address_to_text(address);
    r.append(a.as_str());
    r.append(": ");
    let v = eth_six(wei);
    r.append(v.as_str());
    r.append(" ETH (via ");
    r.append(rpc_url);
    r.append(")");
    r
}

/// The labelled stand-in balance given when the node cannot be reached.
pub open spec fn mock_balance_message(address: Seq<u8>, whole: u32, frac: u32) -> Seq<char> {
    "Balance for address "@ + address_display(address) + ": "@ + decimal_of(whole as nat) + "."@
        + decimal_of(frac as nat) + " ETH (mock)"@
}

/// Reports a stand-in balance, marked as such.
pub fn mock_balance_reply(address: &[u8], whole: u32, frac: u32) -> (r: String)
    ensures
        r@ == mock_balance_message(address@, whole, frac),
{
    let mut r = String::from_str("Balance for address ");
    let a = address_to_text(address);
    r.append(a.as_str());
    r.append(": ");
    let w = decimal_text(whole as u128);
    r.append(w.as_str());
    r.append(".");
    let f = decimal_text(frac as u128);
    r.append(f.as_str());
    r.append(" ETH (mock)");
    r
}

/// Relies on rand's `gen_range` over a half-open range, which must not be
/// empty.
#[verifier::external_body]
fn random_in(lo: u32, hi: u32) -> (r: u32)
    requires
        lo < hi,
    ensures
        lo <= r < hi,
{
    rand::Rng::gen_range(&mut rand::thread_rng(), lo..hi)
}

/// A stand-in balance with a random whole part below ten and six random
/// fraction digits, marked as such.
pub fn mock_balance(address: &[u8]) -> (r: String)
    ensures
        exists|w: u32, f: u32|
            w < 10 && 100000 <= f < 999999 && r@ == mock_balance_message(address@, w, f),
{
    let w = random_in(0, 10);
    let f = random_in(100000, 999999);
    mock_balance_reply(address, w, f)
}

} // verus!
