//! Embodies super intelligence core of Pi Network.

use vstd::prelude::*;
use vstd::string::StringExecFns;
use crate::ahi_ai_core::{answer_texts, AhiAiCore};
use crate::ledger::{flag_line, flag_text, number_line, number_text, record_id, record_name};
use crate::ledger::{Ledger, StatusMap};
use crate::pi_network_super_advanced_evolution_engine::lemma_evolution_status_table;
use crate::pi_network_super_advanced_evolution_engine::PiNetworkSuperAdvancedEvolutionEngine;
use crate::text::texts;

verus! {

/// An intelligence decision, as `process_super_intelligent_decision` records
/// it.
#[derive(Clone, Debug)]
pub struct IntelligenceDecision {
    pub id: String,
    pub decision_aspect: String,
    pub super_intelligent: bool,
    pub intelligence_level: i64,
    pub timestamp: u64,
}

/// Whether `decision` is the record that `process_super_intelligent_decision`
/// makes in `ledger`.
pub open spec fn fresh_intelligence_decision(
    decision: IntelligenceDecision,
    ledger: Ledger,
    aspect: Seq<char>,
) -> bool {
    &&& decision.id@ == record_name("intelligence_"@, ledger.sequence)
    &&& decision.decision_aspect@ == aspect
    &&& decision.super_intelligent
    &&& decision.intelligence_level == 100
    &&& decision.timestamp == ledger.timestamp
}

/// What `run_super_intelligence_core` goes through, in this order.
pub open spec fn run_super_intelligence_core_targets() -> Seq<Seq<char>> {
    seq![
        "strategy"@,
        "optimization"@,
        "supremacy"@,
    ]
}

/// The table that `get_intelligence_status` hands back.
pub open spec fn intelligence_status_table() -> Map<Seq<char>, i64> {
    Map::<Seq<char>, i64>::empty()
        .insert("decisions_processed"@, 50)
        .insert("super_intelligence"@, 100)
        .insert("intelligence_eternal"@, 100)
}

/// What stands under each name of the table.
pub proof fn lemma_intelligence_status_table()
    ensures
        intelligence_status_table().contains_key("decisions_processed"@),
        intelligence_status_table()["decisions_processed"@] == 50,
        intelligence_status_table().contains_key("super_intelligence"@),
        intelligence_status_table()["super_intelligence"@] == 100,
        intelligence_status_table().contains_key("intelligence_eternal"@),
        intelligence_status_table()["intelligence_eternal"@] == 100,
{
    reveal_strlit("decisions_processed");
    reveal_strlit("super_intelligence");
    reveal_strlit("intelligence_eternal");
    assert("decisions_processed"@.len() != "super_intelligence"@.len());
    assert("decisions_processed"@.len() != "intelligence_eternal"@.len());
    assert("super_intelligence"@.len() != "intelligence_eternal"@.len());
}

/// The on-chain module that embodies super intelligence core of Pi Network.
#[derive(Clone, Copy, Debug)]
pub struct PiNetworkSuperIntelligenceCore;

impl PiNetworkSuperIntelligenceCore {
    /// Initialize the Super Intelligence Core.
    pub fn init() -> (module: PiNetworkSuperIntelligenceCore) {
        PiNetworkSuperIntelligenceCore
    }

    /// Process super intelligent decision. The record is named `intelligence_`
    /// and the number of the ledger, and carries the time of the ledger.
    pub fn process_super_intelligent_decision(ledger: Ledger, aspect: String) -> (decision:
        IntelligenceDecision)
        ensures
            fresh_intelligence_decision(decision, ledger, aspect@),
    {
        IntelligenceDecision {
            id: record_id("intelligence_", ledger.sequence),
            decision_aspect: aspect,
            super_intelligent: true,
            intelligence_level: 100,
            timestamp: ledger.timestamp,
        }
    }

    /// Enforce intelligence integrity. The answer is
    /// `intelligence_integrity_enforced` where `super_intelligent` does not
    /// hold, and `super_intelligence_active` otherwise.
    pub fn enforce_intelligence_integrity(decision: IntelligenceDecision) -> (state: String)
        ensures
            state@ == (if !decision.super_intelligent {
                "intelligence_integrity_enforced"@
            } else {
                "super_intelligence_active"@
            }),
    {
        if !decision.super_intelligent {
            AhiAiCore::enforce_compliance();
            String::from_str("intelligence_integrity_enforced")
        } else {
            String::from_str("super_intelligence_active")
        }
    }

    /// Run super intelligence core. One record for each of the 3 names of
    /// `run_super_intelligence_core_targets`, in their order.
    pub fn run_super_intelligence_core(ledger: Ledger) -> (decisions: Vec<IntelligenceDecision>)
        ensures
            decisions@.len() == run_super_intelligence_core_targets().len(),
            forall|i: int|
                0 <= i < decisions@.len() ==> fresh_intelligence_decision(
                    #[trigger] decisions@[i],
                    ledger,
                    run_super_intelligence_core_targets()[i],
                ),
    {
        let mut decisions: Vec<IntelligenceDecision> = Vec::new();
        decisions.push(Self::process_super_intelligent_decision(
            ledger,
            String::from_str("strategy"),
        ));
        decisions.push(Self::process_super_intelligent_decision(
            ledger,
            String::from_str("optimization"),
        ));
        decisions.push(Self::process_super_intelligent_decision(
            ledger,
            String::from_str("supremacy"),
        ));
        decisions
    }

    /// Generate super intelligence report.
    pub fn generate_super_intelligence_report() -> (report: String)
        ensures
            report@
                == "Super Intelligence Achieved: Strategy 100%, Optimization 100%, Supremacy 100%"@,
    {
        String::from_str(
            "Super Intelligence Achieved: Strategy 100%, Optimization 100%, Supremacy 100%",
        )
    }

    /// Get intelligence status.
    pub fn get_intelligence_status() -> (status: StatusMap)
        ensures
            status@ == intelligence_status_table(),
    {
        let mut status = StatusMap::new();
        status.set("decisions_processed", 50);
        status.set("super_intelligence", 100);
        status.set("intelligence_eternal", 100);
        status
    }

    /// Update intelligence rules. The rule is accepted while `super_evolution`
    /// stands at 100 in the table of
    /// `PiNetworkSuperAdvancedEvolutionEngine::get_evolution_status`, which it
    /// always does.
    pub fn update_intelligence_rules(new_rule: String) -> (r: Result<String, String>)
        ensures
            answer_texts(r) == Ok::<Seq<char>, Seq<char>>("updated"@),
    {
        let evolution_status = PiNetworkSuperAdvancedEvolutionEngine::get_evolution_status();
        proof {
            lemma_evolution_status_table();
        }
        if evolution_status.get_or_zero("super_evolution") == 100 {
            Ok(String::from_str("updated"))
        } else {
            Err(String::from_str("update_rejected"))
        }
    }

    /// Render intelligence hologram. The lines come in the order in which they
    /// are shown.
    pub fn render_intelligence_hologram(decision: IntelligenceDecision) -> (hologram: Vec<String>)
        ensures
            texts(hologram@) == seq![
                "Super Intelligence Core Hologram"@,
                decision.decision_aspect@,
                flag_text("Super Intelligent: "@, decision.super_intelligent),
                number_text("Intelligence Level: "@, decision.intelligence_level),
            ],
    {
        let mut hologram: Vec<String> = Vec::new();
        hologram.push(String::from_str("Super Intelligence Core Hologram"));
        hologram.push(decision.decision_aspect);
        hologram.push(flag_line("Super Intelligent: ", decision.super_intelligent));
        hologram.push(number_line("Intelligence Level: ", decision.intelligence_level));
        assert(texts(hologram@) == seq![
            "Super Intelligence Core Hologram"@,
            decision.decision_aspect@,
            flag_text("Super Intelligent: "@, decision.super_intelligent),
            number_text("Intelligence Level: "@, decision.intelligence_level),
        ]);
        hologram
    }
}

} // verus!
