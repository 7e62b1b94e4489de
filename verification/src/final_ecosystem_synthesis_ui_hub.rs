//! Synthesizes holographic UI and enforces PI-exclusive interactions.

use vstd::prelude::*;
use vstd::string::StringExecFns;
use crate::ahi_ai_core::{answer_texts, filtered_answer, AhiAiCore};
use crate::global_pi_oracle_compliance_verifier::GlobalPiOracleComplianceVerifier;
use crate::ledger::{number_line, number_text, record_id, record_name, Ledger, StatusMap};
use crate::text::texts;
use crate::ultimate_ai_governance_ethical_overseer::{lemma_governance_status_table, lemma_untrusted_kinds};
use crate::ultimate_ai_governance_ethical_overseer::UltimateAiGovernanceEthicalOverseer;

verus! {

/// One synthesis of the figures of the ecosystem, ready to be shown.
#[derive(Clone, Debug)]
pub struct UiSynthesis {
    pub id: String,
    pub synthesis_type: String,
    pub data_points: Vec<String>,
    pub ethical_score: i64,
    pub timestamp: u64,
}

/// The data points of every synthesis: the audits of the governance, the
/// sources of the oracle, and the stable value.
pub open spec fn data_point_lines() -> Seq<Seq<char>> {
    seq![
        number_text("Governance Audits: "@, 1000000),
        number_text("Oracle Sources: "@, 2),
        "PI Stable Value: 314159"@,
    ]
}

/// Whether `synthesis` is the record that `synthesize_ui` makes for
/// `synthesis_type` in `ledger`.
pub open spec fn fresh_ui_synthesis(
    synthesis: UiSynthesis,
    ledger: Ledger,
    synthesis_type: Seq<char>,
) -> bool {
    &&& synthesis.id@ == record_name("synth_"@, ledger.sequence)
    &&& synthesis.synthesis_type@ == synthesis_type
    &&& texts(synthesis.data_points@) == data_point_lines()
    &&& synthesis.ethical_score == 99
    &&& synthesis.timestamp == ledger.timestamp
}

/// The table that `get_hub_status` hands back.
pub open spec fn hub_status_table() -> Map<Seq<char>, i64> {
    Map::<Seq<char>, i64>::empty()
        .insert("syntheses_generated"@, 1000000)
        .insert("ui_interactions"@, 50000000)
}

/// What stands under each name of the table.
pub proof fn lemma_hub_status_table()
    ensures
        hub_status_table().contains_key("syntheses_generated"@),
        hub_status_table()["syntheses_generated"@] == 1000000,
        hub_status_table().contains_key("ui_interactions"@),
        hub_status_table()["ui_interactions"@] == 50000000,
{
    reveal_strlit("syntheses_generated");
    reveal_strlit("ui_interactions");
    assert("syntheses_generated"@.len() != "ui_interactions"@.len());
}

/// The on-chain module that synthesizes holographic UI and enforces
/// PI-exclusive interactions.
#[derive(Clone, Copy, Debug)]
pub struct FinalEcosystemSynthesisUiHub;

impl FinalEcosystemSynthesisUiHub {
    /// Initialize the UI Hub.
    pub fn init() -> (module: FinalEcosystemSynthesisUiHub) {
        FinalEcosystemSynthesisUiHub
    }

    /// Synthesize ecosystem data into UI. The record is named `synth_` and
    /// the number of the ledger, and carries the time of the ledger; its
    /// ethical score is the compliance rate of the governance.
    pub fn synthesize_ui(ledger: Ledger, synthesis_type: String) -> (synthesis: UiSynthesis)
        ensures
            fresh_ui_synthesis(synthesis, ledger, synthesis_type@),
    {
        let governance_status = UltimateAiGovernanceEthicalOverseer::get_governance_status();
        let oracle_status = GlobalPiOracleComplianceVerifier::get_oracle_status(ledger);
        proof {
            lemma_governance_status_table();
        }
        let ethical_score = governance_status.get_or_zero("compliance_rate");
        let mut data_points: Vec<String> = Vec::new();
        data_points.push(
            number_line("Governance Audits: ", governance_status.get_or_zero("ethical_audits")),
        );
        data_points.push(number_line("Oracle Sources: ", oracle_status.len() as i64));
        data_points.push(String::from_str("PI Stable Value: 314159"));
        assert(texts(data_points@) == data_point_lines());
        UiSynthesis {
            id: record_id("synth_", ledger.sequence),
            synthesis_type,
            data_points,
            ethical_score,
            timestamp: ledger.timestamp,
        }
    }

    /// Render holographic UI: a title, the kind of the synthesis, its
    /// ethical score, and then its data points.
    pub fn render_holographic_ui(synthesis: UiSynthesis) -> (ui_elements: Vec<String>)
        ensures
            texts(ui_elements@) == seq![
                "Holographic Dashboard"@,
                synthesis.synthesis_type@,
                number_text("Ethical Score: "@, synthesis.ethical_score),
            ] + texts(synthesis.data_points@),
    {
        let mut ui_elements: Vec<String> = Vec::new();
        ui_elements.push(String::from_str("Holographic Dashboard"));
        ui_elements.push(synthesis.synthesis_type);
        ui_elements.push(number_line("Ethical Score: ", synthesis.ethical_score));
        let mut data_points = synthesis.data_points;
        ui_elements.append(&mut data_points);
        assert(texts(ui_elements@) == seq![
            "Holographic Dashboard"@,
            synthesis.synthesis_type@,
            number_text("Ethical Score: "@, synthesis.ethical_score),
        ] + texts(synthesis.data_points@));
        ui_elements
    }

    /// Enforce PI-exclusive UI interactions. The interaction is audited as
    /// an action of the kind `ui_interaction`, which the oracle does not
    /// trust: every interaction is rejected.
    pub fn enforce_ui_interaction(ledger: Ledger, interaction: String) -> (r: Result<
        String,
        String,
    >)
        ensures
            answer_texts(r) == Err::<Seq<char>, Seq<char>>("interaction_rejected"@),
    {
        proof {
            lemma_untrusted_kinds();
        }
        let audit = UltimateAiGovernanceEthicalOverseer::perform_ethical_audit(
            ledger,
            interaction,
            String::from_str("ui_interaction"),
        );
        if !audit.compliant {
            UltimateAiGovernanceEthicalOverseer::enforce_ethical_governance(audit);
            return Err(String::from_str("interaction_rejected"));
        }
        Ok(String::from_str("interaction_approved"))
    }

    /// Get hub status.
    pub fn get_hub_status() -> (status: StatusMap)
        ensures
            status@ == hub_status_table(),
    {
        let mut status = StatusMap::new();
        status.set("syntheses_generated", 1000000);
        status.set("ui_interactions", 50000000);
        status
    }

    /// Update UI synthesis rules. The rule goes through the on-chain
    /// filter.
    pub fn update_synthesis_rules(new_rule: String) -> (r: Result<String, String>)
        ensures
            answer_texts(r) == filtered_answer(new_rule@, "updated"@),
    {
        match AhiAiCore::filter_io(new_rule.as_str()) {
            Err(rejection) => Err(rejection),
            Ok(_) => Ok(String::from_str("updated")),
        }
    }
}

} // verus!
