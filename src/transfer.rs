//! Sending ether: checking a send intent, and the steps of a transfer from
//! gas price to confirmation.
use vstd::prelude::*;
use vstd::string::*;
use crate::address::{address_display, address_of_text, address_to_text, is_address_text, parse_address};
use crate::amount::{is_amount_text, parse_wei, wei_of};
use crate::command::chars_of;
use crate::encoding::{bytes_of_hex, decimal_of, decimal_text, hex_decode, is_hex_text};
use crate::wallet::{derive_address, wallet_address_of, WalletRegistry};

verus! {

/// A checked send intent, ready for the network.
pub struct SendPlan {
    pub from: Vec<u8>,
    pub to: Vec<u8>,
    pub wei: u128,
    pub key: Vec<u8>,
    pub amount: String,
}

pub open spec fn required_message() -> Seq<char> {
    "Error: From address, to address, and amount are required"@
}

pub open spec fn no_key_message(a: Seq<u8>) -> Seq<char> {
    "Error: No private key found for address "@ + address_display(a)
        + ". Please provide a private key."@
}

/// The key text that a send uses: the one given, else the registry's.
pub open spec fn key_text_for(reg: Map<Seq<u8>, Seq<char>>, from: Seq<u8>, key: Option<Seq<char>>) -> Option<Seq<char>> {
    match key {
        Some(k) => Some(k),
        None => if reg.contains_key(from) { Some(reg[from]) } else { None },
    }
}

/// What checking a send intent gives: the plan's source, destination, value
/// and key, or the message that names the first fault.
pub open spec fn send_check(
    reg: Map<Seq<u8>, Seq<char>>,
    from: Seq<char>,
    to: Seq<char>,
    amount: Seq<char>,
    key: Option<Seq<char>>,
) -> Result<(Seq<u8>, Seq<u8>, nat, Seq<u8>), Seq<char>> {
    if from.len() == 0 || to.len() == 0 || amount.len() == 0 {
        Err(required_message())
    } else if !is_address_text(from) {
        Err("Error: Invalid from address format: "@ + from)
    } else if !is_address_text(to) {
        Err("Error: Invalid to address format: "@ + to)
    } else if !is_amount_text(amount) || wei_of(amount) > u128::MAX {
        Err("Error: Invalid amount: "@ + amount)
    } else {
        let fa = address_of_text(from);
        match key_text_for(reg, fa, key) {
            None => Err(no_key_message(fa)),
            Some(k) => if !is_hex_text(k) {
                Err("Error: Invalid private key format"@)
            } else if bytes_of_hex(k).len() != 32 || wallet_address_of(bytes_of_hex(k)) is None {
                Err("Error: Failed to create wallet from private key"@)
            } else {
                Ok((fa, address_of_text(to), wei_of(amount), bytes_of_hex(k)))
            },
        }
    }
}

pub open spec fn opt_str_view(o: Option<&str>) -> Option<Seq<char>> {
    match o {
        Some(s) => Some(s@),
        None => None,
    }
}

/// Checks a send intent before any network call: both addresses, the amount,
/// and a signing key given or filed for the source address.
pub fn plan_send(
    reg: &WalletRegistry,
    from_address: &str,
    to_address: &str,
    amount: &str,
    private_key: Option<&str>,
) -> (r: Result<SendPlan, String>)
    ensures
        match (r, send_check(reg.view(), from_address@, to_address@, amount@, opt_str_view(private_key))) {
            (Ok(p), Ok((f, t, w, k))) => p.from@ == f && p.to@ == t && p.wei == w && p.key@ == k
                && p.amount@ == amount@,
            (Err(e), Err(m)) => e@ == m,
            _ => false,
        },
{
    if from_address.unicode_len() == 0 || to_address.unicode_len() == 0 || amount.unicode_len() == 0 {
        return Err(String::from_str("Error: From address, to address, and amount are required"));
    }
    let from = match parse_address(from_address) {
        Some(a) => a,
        None => {
            let mut e = String::from_str("Error: Invalid from address format: ");
            e.append(from_address);
            return Err(e);
        },
    };
    let to = match parse_address(to_address) {
        Some(a) => a,
        None => {
            let mut e = String::from_str("Error: Invalid to address format: ");
            e.append(to_address);
            return Err(e);
        },
    };
    let amount_chars = chars_of(amount);
    let wei = match parse_wei(amount_chars.as_slice()) {
        Some(w) => w,
        None => {
            let mut e = String::from_str("Error: Invalid amount: ");
            e.append(amount);
            return Err(e);
        },
    };
    let key_text: String = match private_key {
        Some(k) => String::from_str(k),
        None => match reg.lookup(from.as_slice()) {
            Some(k) => k,
            None => {
                let mut e = String::from_str("Error: No private key found for address ");
                let shown = address_to_text(from.as_slice());
                e.append(shown.as_str());
                e.append(". Please provide a private key.");
                return Err(e);
            },
        },
    };
    let key = match hex_decode(key_text.as_str()) {
        Some(k) => k,
        None => return Err(String::from_str("Error: Invalid private key format")),
    };
    if key.len() != 32 {
        return Err(String::from_str("Error: Failed to create wallet from private key"));
    }
    if derive_address(key.as_slice()).is_none() {
        return Err(String::from_str("Error: Failed to create wallet from private key"));
    }
    Ok(SendPlan { from, to, wei, key, amount: String::from_str(amount) })
}

/// Seconds that a transfer waits for its first confirmation.
pub const CONFIRMATION_TIMEOUT_SECS: u64 = 60;

/// Wei in one gwei.
pub const WEI_PER_GWEI: u128 = 1_000_000_000;

/// How a submitted transfer ended: mined, gone without a receipt, not
/// confirmed in time, or refused with a reason.
#[derive(Debug)]
pub enum TxOutcome {
    Confirmed { block: u128, gas_used: u128, gas_price: u128, hash: Vec<u8> },
    NoReceipt { hash: Vec<u8> },
    TimedOut { gas_estimate: u128, gas_price: u128, hash: Vec<u8> },
    Rejected { reason: String },
}

/// Where a transfer stands; each state but the last names the network call
/// to make next.
#[derive(Debug)]
pub enum TxStep {
    FetchGasPrice,
    EstimateGas { gas_price: u128 },
    Submit { gas_price: u128, gas_estimate: u128 },
    AwaitReceipt { gas_price: u128, gas_estimate: u128, hash: Vec<u8> },
    Finished { outcome: TxOutcome },
}

/// What waiting for the first confirmation gave.
#[derive(Debug)]
pub enum ReceiptEvent {
    Mined { gas_used: u128, block: u128 },
    Missing,
    Failed { reason: String },
    TimedOut,
}

/// The answer of the network call that a step asked for.
#[allow(inconsistent_fields)]
#[derive(Debug)]
pub enum TxEvent {
    GasPrice { result: Result<u128, String> },
    GasEstimate { result: Result<u128, String> },
    Sent { result: Result<Vec<u8>, String> },
    Receipt { event: ReceiptEvent },
}

/// The transfer has ended refused, with this message.
pub open spec fn rejected_with(r: TxStep, msg: Seq<char>) -> bool {
    match r {
        TxStep::Finished { outcome: TxOutcome::Rejected { reason } } => reason@ == msg,
        _ => false,
    }
}

pub open spec fn mining_failed_message(reason: Seq<char>, hash: Seq<u8>) -> Seq<char> {
    "Transaction submitted but failed: "@ + reason + "\nTransaction Hash: "@ + address_display(hash)
}

fn rejected(prefix: &str, m: &str) -> (r: TxStep)
    ensures
        rejected_with(r, prefix@ + m@),
{
    let mut reason = String::from_str(prefix);
    reason.append(m);
    TxStep::Finished { outcome: TxOutcome::Rejected { reason } }
}

/// The next state of a transfer after the answer to its current step; an
/// answer to another step leaves the state as it is.
pub fn next_step(s: TxStep, e: TxEvent) -> (r: TxStep)
    ensures
        match (s, e) {
            (TxStep::FetchGasPrice, TxEvent::GasPrice { result: Ok(p) }) => r
                == TxStep::EstimateGas { gas_price: p },
            (TxStep::FetchGasPrice, TxEvent::GasPrice { result: Err(m) }) => rejected_with(
                r,
                "Error getting gas price: "@ + m@,
            ),
            (TxStep::EstimateGas { gas_price }, TxEvent::GasEstimate { result: Ok(g) }) => r
                == TxStep::Submit { gas_price, gas_estimate: g },
            (TxStep::EstimateGas { .. }, TxEvent::GasEstimate { result: Err(m) }) => rejected_with(
                r,
                "Error estimating gas: "@ + m@,
            ),
            (TxStep::Submit { gas_price, gas_estimate }, TxEvent::Sent { result: Ok(h) }) => r
                == TxStep::AwaitReceipt { gas_price, gas_estimate, hash: h },
            (TxStep::Submit { .. }, TxEvent::Sent { result: Err(m) }) => rejected_with(
                r,
                "Error sending transaction: "@ + m@,
            ),
            (TxStep::AwaitReceipt { gas_price, gas_estimate, hash }, TxEvent::Receipt { event }) => match event {
                ReceiptEvent::Mined { gas_used, block } => r == TxStep::Finished {
                    outcome: TxOutcome::Confirmed { block, gas_used, gas_price, hash },
                },
                ReceiptEvent::Missing => r == TxStep::Finished { outcome: TxOutcome::NoReceipt { hash } },
                ReceiptEvent::Failed { reason } => rejected_with(r, mining_failed_message(reason@, hash@)),
                ReceiptEvent::TimedOut => r == TxStep::Finished {
                    outcome: TxOutcome::TimedOut { gas_estimate, gas_price, hash },
                },
            },
            _ => r == s,
        },
{
    match s {
        TxStep::FetchGasPrice => match e {
            TxEvent::GasPrice { result } => match result {
                Ok(p) => TxStep::EstimateGas { gas_price: p },
                Err(m) => rejected("Error getting gas price: ", m.as_str()),
            },
            _ => TxStep::FetchGasPrice,
        },
        TxStep::EstimateGas { gas_price } => match e {
            TxEvent::GasEstimate { result } => match result {
                Ok(g) => TxStep::Submit { gas_price, gas_estimate: g },
                Err(m) => rejected("Error estimating gas: ", m.as_str()),
            },
            _ => TxStep::EstimateGas { gas_price },
        },
        TxStep::Submit { gas_price, gas_estimate } => match e {
            TxEvent::Sent { result } => match result {
                Ok(h) => TxStep::AwaitReceipt { gas_price, gas_estimate, hash: h },
                Err(m) => rejected("Error sending transaction: ", m.as_str()),
            },
            _ => TxStep::Submit { gas_price, gas_estimate },
        },
        TxStep::AwaitReceipt { gas_price, gas_estimate, hash } => match e {
            TxEvent::Receipt { event } => match event {
                ReceiptEvent::Mined { gas_used, block } => TxStep::Finished {
                    outcome: TxOutcome::Confirmed { block, gas_used, gas_price, hash },
                },
                ReceiptEvent::Missing => TxStep::Finished { outcome: TxOutcome::NoReceipt { hash } },
                ReceiptEvent::Failed { reason } => {
                    let mut m = String::from_str("Transaction submitted but failed: ");
                    m.append(reason.as_str());
                    m.append("\nTransaction Hash: ");
                    let shown = address_to_text(hash.as_slice());
                    m.append(shown.as_str());
                    TxStep::Finished { outcome: TxOutcome::Rejected { reason: m } }
                },
                ReceiptEvent::TimedOut => TxStep::Finished {
                    outcome: TxOutcome::TimedOut { gas_estimate, gas_price, hash },
                },
            },
            _ => TxStep::AwaitReceipt { gas_price, gas_estimate, hash },
        },
        TxStep::Finished { outcome } => TxStep::Finished { outcome },
    }
}

/// "<amount> ETH from <source> to <destination>".
pub open spec fn route_text(amount: Seq<char>, from: Seq<u8>, to: Seq<u8>) -> Seq<char> {
    amount + " ETH from "@ + address_display(from) + " to "@ + address_display(to)
}

pub open spec fn network_line(url: Seq<char>) -> Seq<char> {
    "Network: Sepolia (via "@ + url + ")\nTransaction Hash: "@
}

pub open spec fn gwei_text(gas_price: u128) -> Seq<char> {
    decimal_of((gas_price / WEI_PER_GWEI) as nat)
}

/// The report of a finished transfer.
pub open spec fn outcome_message(amount: Seq<char>, from: Seq<u8>, to: Seq<u8>, url: Seq<char>, o: TxOutcome) -> Seq<char> {
    match o {
        TxOutcome::Confirmed { block, gas_used, gas_price, hash } => "Transaction successfully sent "@
            + route_text(amount, from, to) + "\nGas Price: "@ + gwei_text(gas_price) + " gwei\nGas Used: "@
            + decimal_of(gas_used as nat) + "\nBlock Number: "@ + decimal_of(block as nat) + "\n"@
            + network_line(url) + address_display(hash@),
        TxOutcome::NoReceipt { hash } => "Transaction submitted but no receipt was found.\n"@
            + route_text(amount, from, to) + "\n"@ + network_line(url) + address_display(hash@),
        TxOutcome::TimedOut { gas_estimate, gas_price, hash } =>
            "Transaction submitted but confirmation timed out after 60 seconds.\n"@
            + route_text(amount, from, to) + "\nGas Price: "@ + gwei_text(gas_price) + " gwei\nGas Estimate: "@
            + decimal_of(gas_estimate as nat) + "\n"@ + network_line(url) + address_display(hash@),
        TxOutcome::Rejected { reason } => reason@,
    }
}

fn append_route(out: &mut String, plan: &SendPlan)
    ensures
        final(out)@ == old(out)@ + route_text(plan.amount@, plan.from@, plan.to@),
{
    out.append(plan.amount.as_str());
    out.append(" ETH from ");
    let f = address_to_text(plan.from.as_slice());
    out.append(f.as_str());
    out.append(" to ");
    let t = address_to_text(plan.to.as_slice());
    out.append(t.as_str());
}

fn append_network(out: &mut String, url: &str, hash: &Vec<u8>)
    ensures
        final(out)@ == old(out)@ + network_line(url@) + address_display(hash@),
{
    out.append("Network: Sepolia (via ");
    out.append(url);
    out.append(")\nTransaction Hash: ");
    let h = address_to_text(hash.as_slice());
    out.append(h.as_str());
}

fn append_decimal(out: &mut String, n: u128)
    ensures
        final(out)@ == old(out)@ + decimal_of(n as nat),
{
    let d = decimal_text(n);
    out.append(d.as_str());
}

/// The report of a finished transfer, as the user sees it.
pub fn describe_outcome(plan: &SendPlan, rpc_url: &str, outcome: &TxOutcome) -> (r: String)
    ensures
        r@ == outcome_message(plan.amount@, plan.from@, plan.to@, rpc_url@, *outcome),
{
    match outcome {
        TxOutcome::Confirmed { block, gas_used, gas_price, hash } => {
            let mut out = String::from_str("Transaction successfully sent ");
            append_route(&mut out, plan);
            out.append("\nGas Price: ");
            append_decimal(&mut out, *gas_price / WEI_PER_GWEI);
            out.append(" gwei\nGas Used: ");
            append_decimal(&mut out, *gas_used);
            out.append("\nBlock Number: ");
            append_decimal(&mut out, *block);
            out.append("\n");
            append_network(&mut out, rpc_url, hash);
            out
        },
        TxOutcome::NoReceipt { hash } => {
            let mut out = String::from_str("Transaction submitted but no receipt was found.\n");
            append_route(&mut out, plan);
            out.append("\n");
            append_network(&mut out, rpc_url, hash);
            out
        },
        TxOutcome::TimedOut { gas_estimate, gas_price, hash } => {
            let mut out = String::from_str(
                "Transaction submitted but confirmation timed out after 60 seconds.\n",
            );
            append_route(&mut out, plan);
            out.append("\nGas Price: ");
            append_decimal(&mut out, *gas_price / WEI_PER_GWEI);
            out.append(" gwei\nGas Estimate: ");
            append_decimal(&mut out, *gas_estimate);
            out.append("\n");
            append_network(&mut out, rpc_url, hash);
            out
        },
        TxOutcome::Rejected { reason } => reason.clone(),
    }
}

} // verus!
