//! Generates guardian summaries and enforces eternal Pi Ecosystem protection.

use vstd::prelude::*;
use vstd::string::StringExecFns;
use crate::ahi_ai_core::{answer_texts, AhiAiCore};
use crate::final_ecosystem_synthesis_ui_hub::{lemma_hub_status_table, FinalEcosystemSynthesisUiHub};
use crate::ledger::{number_line, number_text, record_id, record_name, Ledger, StatusMap};
use crate::master_control_final_integration_script::lemma_integration_status_table;
use crate::master_control_final_integration_script::MasterControlFinalIntegrationScript;
use crate::text::texts;

verus! {

/// One summary of the state of the ecosystem. The supremacy level runs from 0
/// to 100.
#[derive(Clone, Debug)]
pub struct GuardianSummary {
    pub id: String,
    pub summary_type: String,
    pub key_metrics: StatusMap,
    pub threats_halted: i64,
    pub supremacy_level: i64,
    pub timestamp: u64,
}

/// The key metrics of every summary.
pub open spec fn key_metrics_table() -> Map<Seq<char>, i64> {
    Map::<Seq<char>, i64>::empty().insert("modules_integrated"@, 50).insert(
        "tests_passed"@,
        100,
    ).insert("syntheses_generated"@, 1000000)
}

/// Whether `summary` is the record that `generate_guardian_summary` makes
/// for `summary_type` in `ledger`.
pub open spec fn fresh_guardian_summary(
    summary: GuardianSummary,
    ledger: Ledger,
    summary_type: Seq<char>,
) -> bool {
    &&& summary.id@ == record_name("summary_"@, ledger.sequence)
    &&& summary.summary_type@ == summary_type
    &&& summary.key_metrics@ == key_metrics_table()
    &&& summary.threats_halted == 0
    &&& summary.supremacy_level == 100
    &&& summary.timestamp == ledger.timestamp
}

/// The table that `get_guardian_status` hands back.
pub open spec fn guardian_status_table() -> Map<Seq<char>, i64> {
    Map::<Seq<char>, i64>::empty()
        .insert("summaries_generated"@, 1000000)
        .insert("threats_neutralized"@, 0)
        .insert("eternal_supremacy"@, 100)
}

/// What stands under each name of the table.
pub proof fn lemma_guardian_status_table()
    ensures
        guardian_status_table().contains_key("summaries_generated"@),
        guardian_status_table()["summaries_generated"@] == 1000000,
        guardian_status_table().contains_key("threats_neutralized"@),
        guardian_status_table()["threats_neutralized"@] == 0,
        guardian_status_table().contains_key("eternal_supremacy"@),
        guardian_status_table()["eternal_supremacy"@] == 100,
{
    reveal_strlit("summaries_generated");
    reveal_strlit("threats_neutralized");
    reveal_strlit("eternal_supremacy");
    assert("summaries_generated"@[0] != "threats_neutralized"@[0]);
    assert("summaries_generated"@.len() != "eternal_supremacy"@.len());
    assert("threats_neutralized"@.len() != "eternal_supremacy"@.len());
}

/// The on-chain module that generates guardian summaries and enforces eternal
/// Pi Ecosystem protection.
#[derive(Clone, Copy, Debug)]
pub struct UltimateEcosystemGuardianSummaryScript;

impl UltimateEcosystemGuardianSummaryScript {
    /// Initialize the Guardian Script.
    pub fn init() -> (module: UltimateEcosystemGuardianSummaryScript) {
        UltimateEcosystemGuardianSummaryScript
    }

    /// Generate guardian summary. The record is named `summary_` and the
    /// number of the ledger, and carries the time of the ledger; its key
    /// metrics come from the status of the master control and of the UI
    /// hub.
    pub fn generate_guardian_summary(ledger: Ledger, summary_type: String) -> (summary:
        GuardianSummary)
        ensures
            fresh_guardian_summary(summary, ledger, summary_type@),
    {
        let integration_status = MasterControlFinalIntegrationScript::get_integration_status();
        let hub_status = FinalEcosystemSynthesisUiHub::get_hub_status();
        proof {
            lemma_integration_status_table();
            lemma_hub_status_table();
        }
        let mut key_metrics = StatusMap::new();
        key_metrics.set("modules_integrated", integration_status.get_or_zero("modules_integrated"));
        key_metrics.set("tests_passed", integration_status.get_or_zero("tests_passed"));
        key_metrics.set("syntheses_generated", hub_status.get_or_zero("syntheses_generated"));
        GuardianSummary {
            id: record_id("summary_", ledger.sequence),
            summary_type,
            key_metrics,
            threats_halted: 0,
            supremacy_level: 100,
            timestamp: ledger.timestamp,
        }
    }

    /// Enforce guardian protection. The answer is `protection_enforced` where
    /// `supremacy_level` is below 100, and `protection_stable` otherwise.
    pub fn enforce_guardian_protection(summary: GuardianSummary) -> (state: String)
        ensures
            state@ == (if summary.supremacy_level < 100 {
                "protection_enforced"@
            } else {
                "protection_stable"@
            }),
    {
        if summary.supremacy_level < 100 {
            AhiAiCore::enforce_compliance();
            String::from_str("protection_enforced")
        } else {
            String::from_str("protection_stable")
        }
    }

    /// Get guardian status.
    pub fn get_guardian_status() -> (status: StatusMap)
        ensures
            status@ == guardian_status_table(),
    {
        let mut status = StatusMap::new();
        status.set("summaries_generated", 1000000);
        status.set("threats_neutralized", 0);
        status.set("eternal_supremacy", 100);
        status
    }

    /// Update guardian rules. The rule has to pass the master control,
    /// which none does.
    pub fn update_guardian_rules(ledger: Ledger, new_rule: String) -> (r: Result<String, String>)
        ensures
            answer_texts(r) == Err::<Seq<char>, Seq<char>>("control_enforced_halt"@),
    {
        match MasterControlFinalIntegrationScript::enforce_master_control(ledger, new_rule) {
            Err(halt) => Err(halt),
            Ok(_) => Ok(String::from_str("updated")),
        }
    }

    /// Render summary as holographic report. The lines come in the order in
    /// which they are shown.
    pub fn render_holographic_report(summary: GuardianSummary) -> (report: Vec<String>)
        ensures
            texts(report@) == seq![
                "Holographic Guardian Report"@,
                summary.summary_type@,
                number_text("Supremacy Level: "@, summary.supremacy_level),
                number_text("Threats Halted: "@, summary.threats_halted),
            ],
    {
        let mut report: Vec<String> = Vec::new();
        report.push(String::from_str("Holographic Guardian Report"));
        report.push(summary.summary_type);
        report.push(number_line("Supremacy Level: ", summary.supremacy_level));
        report.push(number_line("Threats Halted: ", summary.threats_halted));
        assert(texts(report@) == seq![
            "Holographic Guardian Report"@,
            summary.summary_type@,
            number_text("Supremacy Level: "@, summary.supremacy_level),
            number_text("Threats Halted: "@, summary.threats_halted),
        ]);
        report
    }
}

} // verus!
