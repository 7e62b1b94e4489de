//! Applies eternal seal and guardianship to the Pi Ecosystem.

use vstd::prelude::*;
use vstd::string::StringExecFns;
use crate::ahi_ai_core::{answer_texts, AhiAiCore};
use crate::ledger::{number_line, number_text, record_id, record_name, Ledger, StatusMap};
use crate::text::texts;
use crate::ultimate_ecosystem_guardian_summary_script::lemma_guardian_status_table;
use crate::ultimate_ecosystem_guardian_summary_script::UltimateEcosystemGuardianSummaryScript;

verus! {

/// An eternal seal, as `apply_eternal_seal` records it.
#[derive(Clone, Debug)]
pub struct EternalSeal {
    pub id: String,
    pub sealed_component: String,
    pub seal_strength: i64,
    pub eternal_guard: bool,
    pub timestamp: u64,
}

/// Whether `seal` is the record that `apply_eternal_seal` makes in `ledger`.
pub open spec fn fresh_eternal_seal(
    seal: EternalSeal,
    ledger: Ledger,
    component: Seq<char>,
) -> bool {
    &&& seal.id@ == record_name("seal_"@, ledger.sequence)
    &&& seal.sealed_component@ == component
    &&& seal.seal_strength == 100
    &&& seal.eternal_guard
    &&& seal.timestamp == ledger.timestamp
}

/// What `seal_entire_ecosystem` goes through, in this order.
pub open spec fn seal_entire_ecosystem_targets() -> Seq<Seq<char>> {
    seq![
        "ai_core"@,
        "stablecoin_manager"@,
        "app_builder"@,
        "mainnet_accelerator"@,
        "ecosystem_monitor"@,
        "security_layer"@,
        "integration_core"@,
        "expansion_module"@,
        "deployment_script"@,
        "readme_config"@,
        "purity_enforcer"@,
        "oracle_verifier"@,
        "governance_overseer"@,
        "ui_hub"@,
        "master_control"@,
        "guardian_summary"@,
    ]
}

/// The table that `get_eternal_guardian_status` hands back.
pub open spec fn eternal_guardian_status_table() -> Map<Seq<char>, i64> {
    Map::<Seq<char>, i64>::empty()
        .insert("seals_applied"@, 50)
        .insert("eternal_strength"@, 100)
        .insert("supremacy_sealed"@, 100)
}

/// What stands under each name of the table.
pub proof fn lemma_eternal_guardian_status_table()
    ensures
        eternal_guardian_status_table().contains_key("seals_applied"@),
        eternal_guardian_status_table()["seals_applied"@] == 50,
        eternal_guardian_status_table().contains_key("eternal_strength"@),
        eternal_guardian_status_table()["eternal_strength"@] == 100,
        eternal_guardian_status_table().contains_key("supremacy_sealed"@),
        eternal_guardian_status_table()["supremacy_sealed"@] == 100,
{
    reveal_strlit("seals_applied");
    reveal_strlit("eternal_strength");
    reveal_strlit("supremacy_sealed");
    assert("seals_applied"@.len() != "eternal_strength"@.len());
    assert("seals_applied"@.len() != "supremacy_sealed"@.len());
    assert("eternal_strength"@[0] != "supremacy_sealed"@[0]);
}

/// The on-chain module that applies eternal seal and guardianship to the Pi
/// Ecosystem.
#[derive(Clone, Copy, Debug)]
pub struct AbsoluteFinalEcosystemSealEternalGuardian;

impl AbsoluteFinalEcosystemSealEternalGuardian {
    /// Initialize the Eternal Guardian.
    pub fn init() -> (module: AbsoluteFinalEcosystemSealEternalGuardian) {
        AbsoluteFinalEcosystemSealEternalGuardian
    }

    /// Apply eternal seal. The record is named `seal_` and the number of the
    /// ledger, and carries the time of the ledger.
    pub fn apply_eternal_seal(ledger: Ledger, component: String) -> (seal: EternalSeal)
        ensures
            fresh_eternal_seal(seal, ledger, component@),
    {
        EternalSeal {
            id: record_id("seal_", ledger.sequence),
            sealed_component: component,
            seal_strength: 100,
            eternal_guard: true,
            timestamp: ledger.timestamp,
        }
    }

    /// Enforce eternal guardianship. The answer is `guardianship_enforced`
    /// where `eternal_guard` does not hold, and `eternal_protection_active`
    /// otherwise.
    pub fn enforce_eternal_guardianship(seal: EternalSeal) -> (state: String)
        ensures
            state@ == (if !seal.eternal_guard {
                "guardianship_enforced"@
            } else {
                "eternal_protection_active"@
            }),
    {
        if !seal.eternal_guard {
            AhiAiCore::enforce_compliance();
            String::from_str("guardianship_enforced")
        } else {
            String::from_str("eternal_protection_active")
        }
    }

    /// Seal the entire ecosystem. One record for each of the 16 names of
    /// `seal_entire_ecosystem_targets`, in their order.
    pub fn seal_entire_ecosystem(ledger: Ledger) -> (seals: Vec<EternalSeal>)
        ensures
            seals@.len() == seal_entire_ecosystem_targets().len(),
            forall|i: int|
                0 <= i < seals@.len() ==> fresh_eternal_seal(
                    #[trigger] seals@[i],
                    ledger,
                    seal_entire_ecosystem_targets()[i],
                ),
    {
        let mut seals: Vec<EternalSeal> = Vec::new();
        seals.push(Self::apply_eternal_seal(ledger, String::from_str("ai_core")));
        seals.push(Self::apply_eternal_seal(ledger, String::from_str("stablecoin_manager")));
        seals.push(Self::apply_eternal_seal(ledger, String::from_str("app_builder")));
        seals.push(Self::apply_eternal_seal(ledger, String::from_str("mainnet_accelerator")));
        seals.push(Self::apply_eternal_seal(ledger, String::from_str("ecosystem_monitor")));
        seals.push(Self::apply_eternal_seal(ledger, String::from_str("security_layer")));
        seals.push(Self::apply_eternal_seal(ledger, String::from_str("integration_core")));
        seals.push(Self::apply_eternal_seal(ledger, String::from_str("expansion_module")));
        seals.push(Self::apply_eternal_seal(ledger, String::from_str("deployment_script")));
        seals.push(Self::apply_eternal_seal(ledger, String::from_str("readme_config")));
        seals.push(Self::apply_eternal_seal(ledger, String::from_str("purity_enforcer")));
        seals.push(Self::apply_eternal_seal(ledger, String::from_str("oracle_verifier")));
        seals.push(Self::apply_eternal_seal(ledger, String::from_str("governance_overseer")));
        seals.push(Self::apply_eternal_seal(ledger, String::from_str("ui_hub")));
        seals.push(Self::apply_eternal_seal(ledger, String::from_str("master_control")));
        seals.push(Self::apply_eternal_seal(ledger, String::from_str("guardian_summary")));
        seals
    }

    /// Get eternal guardian status.
    pub fn get_eternal_guardian_status() -> (status: StatusMap)
        ensures
            status@ == eternal_guardian_status_table(),
    {
        let mut status = StatusMap::new();
        status.set("seals_applied", 50);
        status.set("eternal_strength", 100);
        status.set("supremacy_sealed", 100);
        status
    }

    /// Update eternal seal rules. The rule is accepted while
    /// `eternal_supremacy` stands at 100 in the table of
    /// `UltimateEcosystemGuardianSummaryScript::get_guardian_status`, which it
    /// always does.
    pub fn update_eternal_seal_rules(new_rule: String) -> (r: Result<String, String>)
        ensures
            answer_texts(r) == Ok::<Seq<char>, Seq<char>>("updated"@),
    {
        let status = UltimateEcosystemGuardianSummaryScript::get_guardian_status();
        proof {
            lemma_guardian_status_table();
        }
        if status.get_or_zero("eternal_supremacy") == 100 {
            Ok(String::from_str("updated"))
        } else {
            Err(String::from_str("update_rejected"))
        }
    }

    /// Render eternal seal hologram. The lines come in the order in which they
    /// are shown.
    pub fn render_eternal_seal_hologram(seal: EternalSeal) -> (hologram: Vec<String>)
        ensures
            texts(hologram@) == seq![
                "Eternal Seal Hologram"@,
                seal.sealed_component@,
                number_text("Strength: "@, seal.seal_strength),
                "Guardianship: Eternal"@,
            ],
    {
        let mut hologram: Vec<String> = Vec::new();
        hologram.push(String::from_str("Eternal Seal Hologram"));
        hologram.push(seal.sealed_component);
        hologram.push(number_line("Strength: ", seal.seal_strength));
        hologram.push(String::from_str("Guardianship: Eternal"));
        assert(texts(hologram@) == seq![
            "Eternal Seal Hologram"@,
            seal.sealed_component@,
            number_text("Strength: "@, seal.seal_strength),
            "Guardianship: Eternal"@,
        ]);
        hologram
    }
}

} // verus!
