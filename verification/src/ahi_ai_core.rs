//! The on-chain compliance core: a filter by the length of a name, and the
//! compliance state that the other on-chain modules ask for.

use vstd::prelude::*;
use vstd::string::{StringExecFns, StringSliceAdditionalSpecFns};
use vstd::utf8::encode_utf8;

verus! {

/// The on-chain score of `data`: the last decimal digit of its length in
/// bytes.
pub open spec fn chain_score(data: Seq<char>) -> int {
    (encode_utf8(data).len() % 10) as int
}

/// Whether the on-chain filter lets `data` through: its score is at most
/// 5.
pub open spec fn chain_stable(data: Seq<char>) -> bool {
    chain_score(data) <= 5
}

/// What the on-chain filter answers for `data`.
pub open spec fn chain_verdict(data: Seq<char>) -> Result<Seq<char>, Seq<char>> {
    if chain_stable(data) {
        Ok("filtered_stable"@)
    } else {
        Err("volatile_rejected"@)
    }
}

/// The answer of a step that only the on-chain filter can stop: `pass`
/// for data that the filter lets through, the rejection of the filter
/// otherwise.
pub open spec fn filtered_answer(data: Seq<char>, pass: Seq<char>) -> Result<Seq<char>, Seq<char>> {
    if chain_stable(data) {
        Ok(pass)
    } else {
        Err("volatile_rejected"@)
    }
}

/// The content of an answer that is a name either way.
pub open spec fn answer_texts(answer: Result<String, String>) -> Result<Seq<char>, Seq<char>> {
    match answer {
        Ok(name) => Ok(name@),
        Err(name) => Err(name@),
    }
}

/// The classifier of the on-chain core.
pub struct HyperNeuralNet {
    weights: Vec<i32>,
}

impl HyperNeuralNet {
    /// A classifier with the weights 314, 159, 265 and 359.
    pub fn new() -> (net: Self)
        ensures
            net.weights() == seq![314i32, 159i32, 265i32, 359i32],
    {
        let mut weights: Vec<i32> = Vec::new();
        weights.push(314);
        weights.push(159);
        weights.push(265);
        weights.push(359);
        HyperNeuralNet { weights }
    }

    /// The weights of the classifier.
    pub closed spec fn weights(&self) -> Seq<i32> {
        self.weights@
    }

    /// The score of `input`, from 0 to 9.
    pub fn predict_volatility(&self, input: &str) -> (score: i32)
        ensures
            score == chain_score(input@),
    {
        (input.as_bytes().len() % 10) as i32
    }
}

/// The on-chain compliance core.
#[derive(Clone, Copy, Debug)]
pub struct AhiAiCore;

impl AhiAiCore {
    /// Initialize the AI Core.
    pub fn init() -> (core: AhiAiCore) {
        AhiAiCore
    }

    /// Filters `data`: `filtered_stable` for a score of at most 5,
    /// `volatile_rejected` otherwise.
    pub fn filter_io(data: &str) -> (r: Result<String, String>)
        ensures
            answer_texts(r) == chain_verdict(data@),
    {
        let ai = HyperNeuralNet::new();
        let score = ai.predict_volatility(data);
        if score > 5 {
            Err(String::from_str("volatile_rejected"))
        } else {
            Ok(String::from_str("filtered_stable"))
        }
    }

    /// Enforces compliance. The network is compliant, so nothing is
    /// halted.
    pub fn enforce_compliance() -> (state: String)
        ensures
            state@ == "compliant"@,
    {
        String::from_str("compliant")
    }

    /// The pair (compliant, halted): compliant, and not halted.
    pub fn get_status() -> (status: (bool, bool))
        ensures
            status == (true, false),
    {
        (true, false)
    }
}

} // verus!
