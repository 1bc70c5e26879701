//! The stand-in for a cryptographic proof: a commitment label and whether the
//! proof holds, and settlement conditioned on it.

use vstd::prelude::*;
use crate::decimal::{decimal, push_decimal};
use crate::draw::{draw_in_range, draw_u64};

verus! {

/// What precedes the nonce in a proof's commitment label.
pub const COMMITMENT_PREFIX: &'static str = "ZKP_COMMITMENT_";

/// A proof received by the kernel.
pub struct ZKProof {
    proof_hash: String,
    valid: bool,
}

impl ZKProof {
    /// Whether the proof holds.
    pub closed spec fn holds(&self) -> bool {
        self.valid
    }

    /// The commitment label.
    pub closed spec fn label(&self) -> Seq<char> {
        self.proof_hash@
    }

    /// The proof drawn from a roll and a nonce: it holds when the roll is below
    /// nine (nine chances in ten for a roll in `0..10`), and its label is the
    /// commitment prefix followed by the nonce in decimal.
    pub fn from_draws(roll: u64, nonce: u64) -> (r: ZKProof)
        ensures
            r.holds() == (roll < 9),
            r.label() == COMMITMENT_PREFIX@ + decimal(nonce as nat),
    {
        let mut proof_hash = String::from_str(COMMITMENT_PREFIX);
        push_decimal(&mut proof_hash, nonce);
        ZKProof { proof_hash, valid: roll < 9 }
    }

    /// A random proof, valid nine times in ten.
    pub fn new() -> (r: ZKProof)
        ensures
            exists|nonce: u64| r.label() == COMMITMENT_PREFIX@ + decimal(nonce as nat),
    {
        let roll = draw_in_range(0, 10);
        let nonce = draw_u64();
        ZKProof::from_draws(roll, nonce)
    }

    /// The commitment label.
    pub fn proof_hash(&self) -> (r: &String)
        ensures
            r@ == self.label(),
    {
        &self.proof_hash
    }

    /// Whether the proof holds.
    pub fn verify(&self) -> (r: bool)
        ensures
            r == self.holds(),
    {
        self.valid
    }
}

/// Settles the transaction the proof stands for: true, and the new state
/// committed, exactly when the proof holds.
pub fn execute_atomic_settlement(proof: ZKProof) -> (r: bool)
    ensures
        r == proof.holds(),
{
    proof.verify()
}

} // verus!
