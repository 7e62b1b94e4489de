//! Drives super advanced evolution of Pi Network.

use vstd::prelude::*;
use vstd::string::StringExecFns;
use crate::ahi_ai_core::{answer_texts, AhiAiCore};
use crate::ledger::{flag_line, flag_text, number_line, number_text, record_id, record_name};
use crate::ledger::{Ledger, StatusMap};
use crate::pi_network_ultimate_perfection_module::lemma_perfection_status_table;
use crate::pi_network_ultimate_perfection_module::PiNetworkUltimatePerfectionModule;
use crate::text::texts;

verus! {

/// An evolution adaptation, as `adapt_evolution_aspect` records it.
#[derive(Clone, Debug)]
pub struct EvolutionAdaptation {
    pub id: String,
    pub evolution_aspect: String,
    pub super_evolved: bool,
    pub evolution_level: i64,
    pub timestamp: u64,
}

/// Whether `adaptation` is the record that `adapt_evolution_aspect` makes in
/// `ledger`.
pub open spec fn fresh_evolution_adaptation(
    adaptation: EvolutionAdaptation,
    ledger: Ledger,
    aspect: Seq<char>,
) -> bool {
    &&& adaptation.id@ == record_name("evolution_"@, ledger.sequence)
    &&& adaptation.evolution_aspect@ == aspect
    &&& adaptation.super_evolved
    &&& adaptation.evolution_level == 100
    &&& adaptation.timestamp == ledger.timestamp
}

/// What `run_super_advanced_evolution_engine` goes through, in this order.
pub open spec fn run_super_advanced_evolution_engine_targets() -> Seq<Seq<char>> {
    seq![
        "intelligence"@,
        "scalability"@,
        "supremacy"@,
    ]
}

/// The table that `get_evolution_status` hands back.
pub open spec fn evolution_status_table() -> Map<Seq<char>, i64> {
    Map::<Seq<char>, i64>::empty()
        .insert("aspects_evolved"@, 50)
        .insert("super_evolution"@, 100)
        .insert("evolution_eternal"@, 100)
}

/// What stands under each name of the table.
pub proof fn lemma_evolution_status_table()
    ensures
        evolution_status_table().contains_key("aspects_evolved"@),
        evolution_status_table()["aspects_evolved"@] == 50,
        evolution_status_table().contains_key("super_evolution"@),
        evolution_status_table()["super_evolution"@] == 100,
        evolution_status_table().contains_key("evolution_eternal"@),
        evolution_status_table()["evolution_eternal"@] == 100,
{
    reveal_strlit("aspects_evolved");
    reveal_strlit("super_evolution");
    reveal_strlit("evolution_eternal");
    assert("aspects_evolved"@[0] != "super_evolution"@[0]);
    assert("aspects_evolved"@.len() != "evolution_eternal"@.len());
    assert("super_evolution"@.len() != "evolution_eternal"@.len());
}

/// The on-chain module that drives super advanced evolution of Pi Network.
#[derive(Clone, Copy, Debug)]
pub struct PiNetworkSuperAdvancedEvolutionEngine;

impl PiNetworkSuperAdvancedEvolutionEngine {
    /// Initialize the Evolution Engine.
    pub fn init() -> (module: PiNetworkSuperAdvancedEvolutionEngine) {
        PiNetworkSuperAdvancedEvolutionEngine
    }

    /// Adapt evolution aspect. The record is named `evolution_` and the number
    /// of the ledger, and carries the time of the ledger.
    pub fn adapt_evolution_aspect(ledger: Ledger, aspect: String) -> (adaptation:
        EvolutionAdaptation)
        ensures
            fresh_evolution_adaptation(adaptation, ledger, aspect@),
    {
        EvolutionAdaptation {
            id: record_id("evolution_", ledger.sequence),
            evolution_aspect: aspect,
            super_evolved: true,
            evolution_level: 100,
            timestamp: ledger.timestamp,
        }
    }

    /// Enforce evolution integrity. The answer is
    /// `evolution_integrity_enforced` where `super_evolved` does not hold, and
    /// `super_advanced_evolution_active` otherwise.
    pub fn enforce_evolution_integrity(adaptation: EvolutionAdaptation) -> (state: String)
        ensures
            state@ == (if !adaptation.super_evolved {
                "evolution_integrity_enforced"@
            } else {
                "super_advanced_evolution_active"@
            }),
    {
        if !adaptation.super_evolved {
            AhiAiCore::enforce_compliance();
            String::from_str("evolution_integrity_enforced")
        } else {
            String::from_str("super_advanced_evolution_active")
        }
    }

    /// Run super advanced evolution engine. One record for each of the 3 names
    /// of `run_super_advanced_evolution_engine_targets`, in their order.
    pub fn run_super_advanced_evolution_engine(ledger: Ledger) -> (adaptations:
        Vec<EvolutionAdaptation>)
        ensures
            adaptations@.len() == run_super_advanced_evolution_engine_targets().len(),
            forall|i: int|
                0 <= i < adaptations@.len() ==> fresh_evolution_adaptation(
                    #[trigger] adaptations@[i],
                    ledger,
                    run_super_advanced_evolution_engine_targets()[i],
                ),
    {
        let mut adaptations: Vec<EvolutionAdaptation> = Vec::new();
        adaptations.push(Self::adapt_evolution_aspect(ledger, String::from_str("intelligence")));
        adaptations.push(Self::adapt_evolution_aspect(ledger, String::from_str("scalability")));
        adaptations.push(Self::adapt_evolution_aspect(ledger, String::from_str("supremacy")));
        adaptations
    }

    /// Generate super advanced evolution report.
    pub fn generate_super_advanced_evolution_report() -> (report: String)
        ensures
            report@
                == "Super Advanced Evolution Achieved: Intelligence 100%, Scalability 100%, Supremacy 100%"@,
    {
        String::from_str(
            "Super Advanced Evolution Achieved: Intelligence 100%, Scalability 100%, Supremacy 100%",
        )
    }

    /// Get evolution status.
    pub fn get_evolution_status() -> (status: StatusMap)
        ensures
            status@ == evolution_status_table(),
    {
        let mut status = StatusMap::new();
        status.set("aspects_evolved", 50);
        status.set("super_evolution", 100);
        status.set("evolution_eternal", 100);
        status
    }

    /// Update evolution rules. The rule is accepted while `ultimate_perfection`
    /// stands at 100 in the table of
    /// `PiNetworkUltimatePerfectionModule::get_perfection_status`, which it
    /// always does.
    pub fn update_evolution_rules(new_rule: String) -> (r: Result<String, String>)
        ensures
            answer_texts(r) == Ok::<Seq<char>, Seq<char>>("updated"@),
    {
        let perfection_status = PiNetworkUltimatePerfectionModule::get_perfection_status();
        proof {
            lemma_perfection_status_table();
        }
        if perfection_status.get_or_zero("ultimate_perfection") == 100 {
            Ok(String::from_str("updated"))
        } else {
            Err(String::from_str("update_rejected"))
        }
    }

    /// Render evolution hologram. The lines come in the order in which they are
    /// shown.
    pub fn render_evolution_hologram(adaptation: EvolutionAdaptation) -> (hologram: Vec<String>)
        ensures
            texts(hologram@) == seq![
                "Super Advanced Evolution Engine Hologram"@,
                adaptation.evolution_aspect@,
                flag_text("Super Evolved: "@, adaptation.super_evolved),
                number_text("Evolution Level: "@, adaptation.evolution_level),
            ],
    {
        let mut hologram: Vec<String> = Vec::new();
        hologram.push(String::from_str("Super Advanced Evolution Engine Hologram"));
        hologram.push(adaptation.evolution_aspect);
        hologram.push(flag_line("Super Evolved: ", adaptation.super_evolved));
        hologram.push(number_line("Evolution Level: ", adaptation.evolution_level));
        assert(texts(hologram@) == seq![
            "Super Advanced Evolution Engine Hologram"@,
            adaptation.evolution_aspect@,
            flag_text("Super Evolved: "@, adaptation.super_evolved),
            number_text("Evolution Level: "@, adaptation.evolution_level),
        ]);
        hologram
    }
}

} // verus!
