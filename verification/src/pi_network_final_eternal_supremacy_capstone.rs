//! Seals and watches the final supremacy of Pi Network.
//!
//! The validation score is a whole number of hundredths: 99 is 0.99.

use vstd::prelude::*;
use vstd::string::StringExecFns;
use crate::final_universal_integration_supremacy_capstone::{fresh_capstone_integration, run_universal_capstone_targets};
use crate::final_universal_integration_supremacy_capstone::{CapstoneIntegration, FinalUniversalIntegrationSupremacyCapstone};
use crate::ledger::Ledger;
use crate::pi_network_super_advanced_evolution_engine::PiNetworkSuperAdvancedEvolutionEngine;
use crate::pi_network_super_intelligence_core::PiNetworkSuperIntelligenceCore;
use crate::text::{fixed2, push_fixed2, str_equal};

verus! {

/// The score of the quantum validation, in hundredths.
pub const VALIDATION_SCORE: u64 = 99;

/// The score above which supremacy is sealed, in hundredths.
pub const SEAL_THRESHOLD: u64 = 99;

/// The score below which supremacy is achieved anew, in hundredths.
pub const DEGRADATION_THRESHOLD: u64 = 95;

/// How an attempt at final supremacy ended.
#[derive(Clone, Copy, Debug, PartialEq, Eq, Structural)]
pub enum SupremacyOutcome {
    /// The validation passed; supremacy is sealed.
    Sealed,
    /// The swarm did not approve.
    Rejected,
    /// The validation failed in every attempt that was allowed.
    RetriesExhausted,
}

/// How an attempt ends under the decision `consensus` of the swarm. The
/// validation score never rises above the threshold of the seal, so an
/// approved attempt uses up its retries.
pub open spec fn attempt_outcome(consensus: Seq<char>) -> SupremacyOutcome {
    if consensus != "approved"@ {
        SupremacyOutcome::Rejected
    } else if VALIDATION_SCORE > SEAL_THRESHOLD {
        SupremacyOutcome::Sealed
    } else {
        SupremacyOutcome::RetriesExhausted
    }
}

/// The entries of the report: each a name, and what stands under it.
pub open spec fn report_entries() -> Seq<(Seq<char>, Seq<char>)> {
    seq![
        ("supremacy_status"@, "final_eternal"@),
        ("intelligence_level"@, "super"@),
        ("evolution_level"@, "advanced"@),
        ("quantum_validation"@, Seq::<char>::empty() + fixed2(VALIDATION_SCORE as nat)),
        ("eternal_seal"@, "final_sealed"@),
    ]
}

/// The content of a list of entries.
pub open spec fn entry_texts(entries: Seq<(String, String)>) -> Seq<(Seq<char>, Seq<char>)> {
    entries.map_values(|e: (String, String)| (e.0@, e.1@))
}

/// The on-chain module that seals and watches the final supremacy of Pi
/// Network.
#[derive(Clone, Copy, Debug)]
pub struct PiNetworkFinalEternalSupremacyCapstone;

impl PiNetworkFinalEternalSupremacyCapstone {
    /// Initialize the capstone.
    pub fn init() -> (module: PiNetworkFinalEternalSupremacyCapstone) {
        PiNetworkFinalEternalSupremacyCapstone
    }

    /// Quantum eternal validate supremacy: the score, in hundredths.
    pub fn quantum_eternal_validate_supremacy() -> (score: u64)
        ensures
            score == VALIDATION_SCORE,
    {
        VALIDATION_SCORE
    }

    /// Seal the final eternal supremacy: every module is integrated into
    /// the universal capstone.
    pub fn seal_final_eternal_supremacy(ledger: Ledger) -> (integrations: Vec<CapstoneIntegration>)
        ensures
            integrations@.len() == run_universal_capstone_targets().len(),
            forall|i: int|
                0 <= i < integrations@.len() ==> fresh_capstone_integration(
                    #[trigger] integrations@[i],
                    ledger,
                    run_universal_capstone_targets()[i],
                ),
    {
        FinalUniversalIntegrationSupremacyCapstone::run_universal_capstone(ledger)
    }

    /// Achieve final eternal supremacy, under the decision `consensus` of
    /// the swarm. An approved attempt whose validation fails is repeated,
    /// at most `retries` times.
    pub fn achieve_final_eternal_supremacy(
        ledger: Ledger,
        consensus: &str,
        retries: u32,
    ) -> (outcome:
        SupremacyOutcome)
        ensures
            outcome == attempt_outcome(consensus@),
        decreases retries,
    {
        PiNetworkSuperIntelligenceCore::run_super_intelligence_core(ledger);
        PiNetworkSuperAdvancedEvolutionEngine::run_super_advanced_evolution_engine(ledger);
        if !str_equal(consensus, "approved") {
            return SupremacyOutcome::Rejected;
        }
        if Self::quantum_eternal_validate_supremacy() > SEAL_THRESHOLD {
            Self::seal_final_eternal_supremacy(ledger);
            SupremacyOutcome::Sealed
        } else if retries == 0 {
            SupremacyOutcome::RetriesExhausted
        } else {
            Self::achieve_final_eternal_supremacy(ledger, consensus, retries - 1)
        }
    }

    /// Monitor final eternal supremacy: where the validation has fallen
    /// below the threshold of degradation, supremacy is achieved anew and
    /// the outcome handed back. The validation never falls that far.
    pub fn monitor_final_eternal_supremacy(ledger: Ledger, consensus: &str, retries: u32) -> (again:
        Option<SupremacyOutcome>)
        ensures
            again is None,
    {
        let validation = Self::quantum_eternal_validate_supremacy();
        if validation < DEGRADATION_THRESHOLD {
            Some(Self::achieve_final_eternal_supremacy(ledger, consensus, retries))
        } else {
            None
        }
    }

    /// Generate final eternal supremacy report: five entries, each a name
    /// and what stands under it. The validation is written with two
    /// decimals.
    pub fn generate_final_eternal_supremacy_report() -> (report: Vec<(String, String)>)
        ensures
            entry_texts(report@) == report_entries(),
    {
        let mut validation = String::new();
        push_fixed2(&mut validation, Self::quantum_eternal_validate_supremacy());
        let mut report: Vec<(String, String)> = Vec::new();
        report.push((String::from_str("supremacy_status"), String::from_str("final_eternal")));
        report.push((String::from_str("intelligence_level"), String::from_str("super")));
        report.push((String::from_str("evolution_level"), String::from_str("advanced")));
        report.push((String::from_str("quantum_validation"), validation));
        report.push((String::from_str("eternal_seal"), String::from_str("final_sealed")));
        assert(entry_texts(report@) == report_entries());
        report
    }

    /// Run the final eternal supremacy capstone: one attempt, one round of
    /// monitoring, and the report. The outcome of the attempt is handed
    /// back.
    pub fn run_final_eternal_supremacy_capstone(
        ledger: Ledger,
        consensus: &str,
        retries: u32,
    ) -> (outcome:
        SupremacyOutcome)
        ensures
            outcome == attempt_outcome(consensus@),
    {
        let outcome = Self::achieve_final_eternal_supremacy(ledger, consensus, retries);
        Self::monitor_final_eternal_supremacy(ledger, consensus, retries);
        Self::generate_final_eternal_supremacy_report();
        outcome
    }
}

} // verus!
