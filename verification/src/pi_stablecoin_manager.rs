//! Manages PI Coin as stablecoin with fixed value and source verification.

use vstd::prelude::*;
use vstd::string::StringExecFns;
use crate::ahi_ai_core::answer_texts;
use crate::digest::{fingerprint, sha256_hex};
use crate::text::{str_equal, texts};

verus! {

/// A PI transaction as the stablecoin manager sees it. The amount is in whole
/// PI; the kind is one of `mining`, `reward` and `p2p`.
#[derive(Clone, Debug)]
pub struct PITransaction {
    pub id: String,
    pub sender: String,
    pub receiver: String,
    pub amount: i64,
    pub tx_type: String,
    pub source_proof: String,
}

/// The stable value ceiling, in whole PI.
pub const PI_STABLE_VALUE: i64 = 314159;

/// The multiplier of the internal dual-value system.
pub const DUAL_MULTIPLIER: i64 = 314;

/// The proof of origin that a transaction of kind `tx_type` from `sender`
/// must carry.
pub open spec fn proof_of_origin(tx_type: Seq<char>, sender: Seq<char>) -> Seq<char> {
    fingerprint(tx_type + sender)
}

/// What `process_transaction` answers for `tx`: the amount is looked at
/// first, then the proof of origin.
pub open spec fn processing_answer(tx: PITransaction) -> Result<Seq<char>, Seq<char>> {
    if tx.amount <= 0 || tx.amount > PI_STABLE_VALUE {
        Err("invalid_amount"@)
    } else if tx.source_proof@ != proof_of_origin(tx.tx_type@, tx.sender@) {
        Err("invalid_source"@)
    } else {
        Ok("processed"@)
    }
}

/// The on-chain module that manages PI Coin as stablecoin with fixed value and
/// source verification.
#[derive(Clone, Copy, Debug)]
pub struct PiStablecoinManager;

impl PiStablecoinManager {
    /// Initialize the Manager.
    pub fn init() -> (module: PiStablecoinManager) {
        PiStablecoinManager
    }

    /// Process PI transaction: `invalid_amount` for an amount that is not
    /// positive or above the stable value, `invalid_source` for a wrong
    /// proof of origin, `processed` otherwise.
    pub fn process_transaction(tx: PITransaction) -> (r: Result<String, String>)
        ensures
            answer_texts(r) == processing_answer(tx),
    {
        if tx.amount <= 0 || tx.amount > PI_STABLE_VALUE {
            return Err(String::from_str("invalid_amount"));
        }
        let expected_proof = Self::generate_proof(tx.tx_type.as_str(), tx.sender.as_str());
        if !str_equal(tx.source_proof.as_str(), expected_proof.as_str()) {
            return Err(String::from_str("invalid_source"));
        }
        let internal_amount: i64 = tx.amount * DUAL_MULTIPLIER;
        assert(internal_amount == tx.amount * 314);
        Ok(String::from_str("processed"))
    }

    /// Generate source proof: the hash of the kind followed by the sender.
    pub fn generate_proof(tx_type: &str, sender: &str) -> (proof_text: String)
        ensures
            proof_text@ == proof_of_origin(tx_type@, sender@),
    {
        let mut input = String::from_str(tx_type);
        input.append(sender);
        sha256_hex(input.as_str())
    }

    /// Get transaction history.
    pub fn get_history() -> (names: Vec<String>)
        ensures
            texts(names@) == seq![
                "tx_001"@,
            ],
    {
        let mut names: Vec<String> = Vec::new();
        names.push(String::from_str("tx_001"));
        assert(texts(names@) == seq![
            "tx_001"@,
        ]);
        names
    }
}

} // verus!
