//! The compliance core: the one place where a payload is classified as
//! stable or volatile, and where the compliance state of the whole system
//! is kept.
//!
//! The volatility of a payload is the density of the word `volatile` in
//! it: the share of its characters that belong to an occurrence of the
//! word, in hundredths. A payload of which more than half is that word is
//! rejected; in every other payload the word is replaced by `isolated`.
//!
//! The compliance state is the pair (compliant, halted). It starts as
//! (true, false), and the first negative answer of the compliance source
//! turns it into (false, true) for good.

use vstd::prelude::*;
use vstd::string::StringExecFns;
use crate::text::{chars_of, fixed2, occurrences, push_fixed2, rewrite, rewritten, string_of};
use crate::text::{lemma_occurrences_fit, lemma_rewrite_without_occurrence};

verus! {

/// The highest volatility, in hundredths, that the filter still accepts.
pub const VOLATILITY_LIMIT: u32 = 50;

/// The word whose density in a payload is its volatility.
pub open spec fn marker() -> Seq<char> {
    "volatile"@
}

/// What the filter writes in place of the marker.
pub open spec fn marker_replacement() -> Seq<char> {
    "isolated"@
}

/// The volatility of `input` in hundredths: the share of its characters
/// that belong to an occurrence of the marker, rounded down. The empty
/// input has volatility 0.
pub open spec fn volatility(input: Seq<char>) -> nat {
    if input.len() == 0 {
        0
    } else {
        (800 * occurrences(input, marker())) / input.len()
    }
}

/// Whether the filter accepts `input`.
pub open spec fn accepts(input: Seq<char>) -> bool {
    volatility(input) <= VOLATILITY_LIMIT
}

/// What the filter hands back for an accepted `input`.
pub open spec fn sanitized(input: Seq<char>) -> Seq<char> {
    "Sanitized: "@ + rewritten(input, marker(), marker_replacement())
}

/// The rejection of a payload, with the volatility that caused it.
#[derive(Clone, Copy, Debug, PartialEq, Eq, Structural)]
pub struct FilterRejection {
    /// The volatility of the payload, in hundredths.
    pub volatility: u32,
}

/// The words of a rejection.
pub open spec fn rejection_message(volatility: u32) -> Seq<char> {
    "Volatile input rejected: volatility score "@ + fixed2(volatility as nat)
}

impl FilterRejection {
    /// The rejection in words, the volatility with two decimals.
    pub fn message(&self) -> (text: String)
        ensures
            text@ == rejection_message(self.volatility),
    {
        let mut text = String::from_str("Volatile input rejected: volatility score ");
        push_fixed2(&mut text, self.volatility as u64);
        text
    }
}

/// What the filter decides on `input`.
pub open spec fn classification(input: Seq<char>) -> Result<Seq<char>, FilterRejection> {
    if accepts(input) {
        Ok(sanitized(input))
    } else {
        Err(FilterRejection { volatility: volatility(input) as u32 })
    }
}

/// The content of an answer of the filter.
pub open spec fn filter_answer(answer: Result<String, FilterRejection>) -> Result<
    Seq<char>,
    FilterRejection,
> {
    match answer {
        Ok(text) => Ok(text@),
        Err(rejection) => Err(rejection),
    }
}

/// Idempotence of classification: two answers of the filter to the same
/// payload, from whatever core and in whatever state, hold the same
/// decision, the same score and the same sanitized text.
pub proof fn lemma_classification_idempotent(
    data: Seq<char>,
    first: Result<String, FilterRejection>,
    second: Result<String, FilterRejection>,
)
    requires
        filter_answer(first) == classification(data),
        filter_answer(second) == classification(data),
    ensures
        filter_answer(first) == filter_answer(second),
        first is Ok == second is Ok,
        first is Err ==> first->Err_0.volatility == second->Err_0.volatility,
        first is Ok ==> first->Ok_0@ == second->Ok_0@,
{
}

/// A payload without the marker has volatility 0, is accepted, and comes
/// back unchanged behind the word that marks it as sanitized.
pub proof fn lemma_stable_payload(input: Seq<char>)
    requires
        occurrences(input, marker()) == 0,
    ensures
        volatility(input) == 0,
        classification(input) == Ok::<Seq<char>, FilterRejection>("Sanitized: "@ + input),
{
    lemma_rewrite_without_occurrence(input, marker(), marker_replacement(), 0);
    assert(input.subrange(0, input.len() as int) == input);
}

/// The volatility of every input lies between 0 and 100 hundredths.
pub proof fn lemma_volatility_bounded(input: Seq<char>)
    ensures
        volatility(input) <= 100,
{
    reveal_strlit("volatile");
    if input.len() > 0 {
        let n = occurrences(input, marker());
        lemma_occurrences_fit(input, marker(), 0);
        assert(n * 8 <= input.len());
        assert((800 * n) / input.len() <= 100) by (nonlinear_arith)
            requires
                n * 8 <= input.len(),
                input.len() > 0,
        ;
    }
}

/// The volatility grows with the density of the marker: of two payloads,
/// the one with at least as many markers per character is at least as
/// volatile.
pub proof fn lemma_volatility_monotonic(a: Seq<char>, b: Seq<char>)
    requires
        a.len() > 0,
        b.len() > 0,
        occurrences(a, marker()) * b.len() <= occurrences(b, marker()) * a.len(),
    ensures
        volatility(a) <= volatility(b),
{
    let x = occurrences(a, marker());
    let y = occurrences(b, marker());
    let m = a.len();
    let n = b.len();
    assert((800 * x) / m <= (800 * y) / n) by (nonlinear_arith)
        requires
            x * n <= y * m,
            m > 0,
            n > 0,
    ;
}

/// The classifier behind the filter.
#[derive(Clone, Copy, Debug)]
pub struct HyperNeuralNet {}

impl HyperNeuralNet {
    /// The classifier.
    pub fn new() -> (net: Self) {
        HyperNeuralNet {  }
    }

    /// The volatility of `input` in hundredths, from 0 (stable) to 100.
    pub fn predict_volatility(&self, input: &str) -> (score: u32)
        ensures
            score == volatility(input@),
            score <= 100,
    {
        let chars = chars_of(input);
        let word = chars_of("volatile");
        let (_, count) = rewrite(&chars, &word, &word);
        proof {
            lemma_volatility_bounded(input@);
        }
        if chars.len() == 0 {
            0
        } else {
            ((800 * (count as u128)) / (chars.len() as u128)) as u32
        }
    }
}

/// What the compliance source answered.
#[derive(Debug)]
pub enum ComplianceReply {
    /// The source answered, and said whether the network is compliant.
    Answer(bool),
    /// The source could not be reached.
    Unreachable(String),
    /// The source answered something that could not be read.
    Unreadable(String),
}

/// The error that `enforce_compliance` reports for `reply`, if any.
pub open spec fn reply_error(reply: ComplianceReply) -> Option<Seq<char>> {
    match reply {
        ComplianceReply::Answer(_) => None,
        ComplianceReply::Unreachable(detail) => Some("API error: "@ + detail@),
        ComplianceReply::Unreadable(detail) => Some("Parse error: "@ + detail@),
    }
}

/// The compliance state after `reply` was seen in state `before`, both as
/// the pair (compliant, halted). A halt is final.
pub open spec fn state_after(before: (bool, bool), reply: ComplianceReply) -> (bool, bool) {
    match reply {
        ComplianceReply::Answer(compliant) => if before.1 {
            (false, true)
        } else {
            (compliant, !compliant)
        },
        _ => before,
    }
}

/// The compliance state after a run of replies, the first reply first.
pub open spec fn state_after_all(before: (bool, bool), replies: Seq<ComplianceReply>) -> (
    bool,
    bool,
)
    decreases replies.len(),
{
    if replies.len() == 0 {
        before
    } else {
        state_after(state_after_all(before, replies.drop_last()), replies.last())
    }
}

/// The halt is terminal: once the external integration is halted, no run
/// of replies brings compliance back or lifts the halt. And whatever the
/// replies, exactly one of the two flags holds afterwards if exactly one
/// held before.
pub proof fn lemma_halt_is_terminal(before: (bool, bool), replies: Seq<ComplianceReply>)
    ensures
        before.1 ==> state_after_all(before, replies).1,
        before == (false, true) ==> state_after_all(before, replies) == (false, true),
        before.0 == !before.1 ==> state_after_all(before, replies).0 == !state_after_all(
            before,
            replies,
        ).1,
    decreases replies.len(),
{
    if replies.len() > 0 {
        lemma_halt_is_terminal(before, replies.drop_last());
    }
}

/// The filter and the compliance state.
pub struct AutonomousHyperAI {
    neural_net: HyperNeuralNet,
    compliance_status: bool,
    stellar_halted: bool,
}

impl AutonomousHyperAI {
    #[verifier::type_invariant]
    spec fn consistent(self) -> bool {
        self.compliance_status == !self.stellar_halted
    }

    /// The pair (compliant, halted).
    pub closed spec fn status(&self) -> (bool, bool) {
        (self.compliance_status, self.stellar_halted)
    }

    /// A core whose state is compliant and not halted.
    pub fn new() -> (ai: Self)
        ensures
            ai.status() == (true, false),
    {
        AutonomousHyperAI {
            neural_net: HyperNeuralNet::new(),
            compliance_status: true,
            stellar_halted: false,
        }
    }

    /// Classifies `data`: accepted with its sanitized form when its
    /// volatility is at most 0.50, rejected with the volatility otherwise.
    pub fn filter_io(&self, data: &str) -> (r: Result<String, FilterRejection>)
        ensures
            filter_answer(r) == classification(data@),
            r is Ok == accepts(data@),
            r is Ok ==> r->Ok_0@ == sanitized(data@),
            r is Err ==> r->Err_0.volatility == volatility(data@),
    {
        let score = self.neural_net.predict_volatility(data);
        if score > VOLATILITY_LIMIT {
            Err(FilterRejection { volatility: score })
        } else {
            let chars = chars_of(data);
            let word = chars_of("volatile");
            let with = chars_of("isolated");
            let (clean, _) = rewrite(&chars, &word, &with);
            let mut text = String::from_str("Sanitized: ");
            let tail = string_of(&clean);
            text.append(tail.as_str());
            Ok(text)
        }
    }

    /// Takes in what the compliance source answered. An answer sets the
    /// state, and a negative answer halts the external integration for
    /// good; a failure of the source is reported and changes nothing.
    pub fn enforce_compliance(&mut self, reply: ComplianceReply) -> (r: Result<(), String>)
        ensures
            final(self).status() == state_after(old(self).status(), reply),
            old(self).status().1 ==> final(self).status() == (false, true),
            match r {
                Ok(_) => reply_error(reply) is None,
                Err(reason) => reply_error(reply) == Some(reason@),
            },
    {
        proof {
            use_type_invariant(&*self);
        }
        match reply {
            ComplianceReply::Answer(compliant) => {
                if !self.stellar_halted {
                    *self = AutonomousHyperAI {
                        neural_net: self.neural_net,
                        compliance_status: compliant,
                        stellar_halted: !compliant,
                    };
                }
                Ok(())
            },
            ComplianceReply::Unreachable(detail) => {
                let mut reason = String::from_str("API error: ");
                reason.append(detail.as_str());
                Err(reason)
            },
            ComplianceReply::Unreadable(detail) => {
                let mut reason = String::from_str("Parse error: ");
                reason.append(detail.as_str());
                Err(reason)
            },
        }
    }

    /// The pair (compliant, halted). Exactly one of the two holds.
    pub fn get_status(&self) -> (s: (bool, bool))
        ensures
            s == self.status(),
            s.0 == !s.1,
    {
        proof {
            use_type_invariant(self);
        }
        (self.compliance_status, self.stellar_halted)
    }
}

} // verus!
