//! What a client sends: tokens, simulated proof payloads, and the framed
//! command.

use vstd::prelude::*;
use crate::decimal::{decimal, push_decimal};
use crate::draw::{draw_in_range, draw_u64};

verus! {

/// The prefix of the tokens a client forges for a fraud attempt.
pub const INVALID_TOKEN_PREFIX: &'static str = "FRAUD_ATTEMPT_";

/// The smallest amount a generated payload carries.
pub const MIN_AMOUNT: u64 = 100;

/// One past the largest amount a generated payload carries.
pub const AMOUNT_BOUND: u64 = 10_000;

/// The payload naming a sender, a receiver and an amount.
pub open spec fn payload_text(sender: u64, receiver: u64, amount: u64) -> Seq<char> {
    "ZKP_HASH_S:"@ + decimal(sender as nat) + "_R:"@ + decimal(receiver as nat) + "_A:"@
        + decimal(amount as nat)
}

/// `ZKP_HASH_S:<sender>_R:<receiver>_A:<amount>`, numbers in decimal.
pub fn payload_from_draws(sender: u64, receiver: u64, amount: u64) -> (r: String)
    ensures
        r@ == payload_text(sender, receiver, amount),
{
    let mut s = String::from_str("ZKP_HASH_S:");
    push_decimal(&mut s, sender);
    s.append("_R:");
    push_decimal(&mut s, receiver);
    s.append("_A:");
    push_decimal(&mut s, amount);
    s
}

/// A payload with a random sender and receiver and a random amount in
/// `100..10000`.
pub fn generate_zkp_payload() -> (r: String)
    ensures
        exists|sender: u64, receiver: u64, amount: u64|
            MIN_AMOUNT <= amount < AMOUNT_BOUND && r@ == payload_text(sender, receiver, amount),
{
    let sender = draw_u64();
    let receiver = draw_u64();
    let amount = draw_in_range(MIN_AMOUNT, AMOUNT_BOUND);
    payload_from_draws(sender, receiver, amount)
}

/// A token made of `prefix` and `n` in decimal.
pub fn token_with_suffix(prefix: &str, n: u64) -> (r: String)
    ensures
        r@ == prefix@ + decimal(n as nat),
{
    let mut s = String::from_str(prefix);
    push_decimal(&mut s, n);
    s
}

/// The command sent to the gateway: `<token>|<payload>`.
pub fn command_text(token: &str, payload: &str) -> (r: String)
    ensures
        r@ == token@ + seq!['|'] + payload@,
{
    let mut s = String::from_str(token);
    s.append("|");
    proof {
        reveal_strlit("|");
    }
    s.append(payload);
    assert(s@ =~= token@ + seq!['|'] + payload@);
    s
}

} // verus!
