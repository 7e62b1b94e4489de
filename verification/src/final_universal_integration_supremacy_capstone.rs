//! Achieves final universal integration and supremacy for Pi Ecosystem.

use vstd::prelude::*;
use vstd::string::StringExecFns;
use crate::ahi_ai_core::{answer_texts, AhiAiCore};
use crate::eternal_quantum_security_anti_quantum_threat::lemma_security_status_table;
use crate::eternal_quantum_security_anti_quantum_threat::EternalQuantumSecurityAntiQuantumThreat;
use crate::ledger::{flag_line, flag_text, number_line, number_text, record_id, record_name};
use crate::ledger::{Ledger, StatusMap};
use crate::text::texts;

verus! {

/// A capstone integration, as `integrate_into_capstone` records it.
#[derive(Clone, Debug)]
pub struct CapstoneIntegration {
    pub id: String,
    pub integrated_module: String,
    pub supremacy_achieved: bool,
    pub integration_level: i64,
    pub timestamp: u64,
}

/// Whether `integration` is the record that `integrate_into_capstone` makes in
/// `ledger`.
pub open spec fn fresh_capstone_integration(
    integration: CapstoneIntegration,
    ledger: Ledger,
    module: Seq<char>,
) -> bool {
    &&& integration.id@ == record_name("capstone_"@, ledger.sequence)
    &&& integration.integrated_module@ == module
    &&& integration.supremacy_achieved
    &&& integration.integration_level == 100
    &&& integration.timestamp == ledger.timestamp
}

/// What `run_universal_capstone` goes through, in this order.
pub open spec fn run_universal_capstone_targets() -> Seq<Seq<char>> {
    seq![
        "ahi_ai_core"@,
        "pi_stablecoin_manager"@,
        "autonomous_app_builder"@,
        "hyper_ecosystem_monitor"@,
        "quantum_security_layer"@,
        "ultimate_integration_core"@,
        "final_hyper_expansion_module"@,
        "ultimate_deployment_script"@,
        "ecosystem_readme_config"@,
        "pi_purity_accountability_enforcer"@,
        "global_pi_oracle_compliance_verifier"@,
        "ultimate_ai_governance_ethical_overseer"@,
        "final_ecosystem_synthesis_ui_hub"@,
        "master_control_final_integration_script"@,
        "ultimate_ecosystem_guardian_summary_script"@,
        "absolute_final_ecosystem_seal_eternal_guardian"@,
        "quantum_ai_optimizer_predictive_maintenance"@,
        "pi_mainnet_integration_real_time_synchronization"@,
        "global_decentralized_ai_swarm_intelligence_hub"@,
        "pi_mainnet_launch_governance_protocol"@,
        "ultimate_pi_mainnet_activation_eternal_stability"@,
        "final_pi_mainnet_supremacy_global_domination"@,
        "infinite_pi_ecosystem_expansion_universal_integration"@,
        "comprehensive_test_suite_validation"@,
        "ultimate_ecosystem_documentation_holographic_archive"@,
        "eternal_quantum_security_anti_quantum_threat"@,
    ]
}

/// The table that `get_capstone_status` hands back.
pub open spec fn capstone_status_table() -> Map<Seq<char>, i64> {
    Map::<Seq<char>, i64>::empty()
        .insert("modules_integrated"@, 50)
        .insert("universal_supremacy"@, 100)
        .insert("capstone_eternal"@, 100)
}

/// What stands under each name of the table.
pub proof fn lemma_capstone_status_table()
    ensures
        capstone_status_table().contains_key("modules_integrated"@),
        capstone_status_table()["modules_integrated"@] == 50,
        capstone_status_table().contains_key("universal_supremacy"@),
        capstone_status_table()["universal_supremacy"@] == 100,
        capstone_status_table().contains_key("capstone_eternal"@),
        capstone_status_table()["capstone_eternal"@] == 100,
{
    reveal_strlit("modules_integrated");
    reveal_strlit("universal_supremacy");
    reveal_strlit("capstone_eternal");
    assert("modules_integrated"@.len() != "universal_supremacy"@.len());
    assert("modules_integrated"@.len() != "capstone_eternal"@.len());
    assert("universal_supremacy"@.len() != "capstone_eternal"@.len());
}

/// The on-chain module that achieves final universal integration and supremacy
/// for Pi Ecosystem.
#[derive(Clone, Copy, Debug)]
pub struct FinalUniversalIntegrationSupremacyCapstone;

impl FinalUniversalIntegrationSupremacyCapstone {
    /// Initialize the Capstone.
    pub fn init() -> (module: FinalUniversalIntegrationSupremacyCapstone) {
        FinalUniversalIntegrationSupremacyCapstone
    }

    /// Integrate module into capstone. The record is named `capstone_` and the
    /// number of the ledger, and carries the time of the ledger.
    pub fn integrate_into_capstone(ledger: Ledger, module: String) -> (integration:
        CapstoneIntegration)
        ensures
            fresh_capstone_integration(integration, ledger, module@),
    {
        CapstoneIntegration {
            id: record_id("capstone_", ledger.sequence),
            integrated_module: module,
            supremacy_achieved: true,
            integration_level: 100,
            timestamp: ledger.timestamp,
        }
    }

    /// Enforce capstone supremacy. The answer is `capstone_enforced` where
    /// `supremacy_achieved` does not hold, and `universal_supremacy_active`
    /// otherwise.
    pub fn enforce_capstone_supremacy(integration: CapstoneIntegration) -> (state: String)
        ensures
            state@ == (if !integration.supremacy_achieved {
                "capstone_enforced"@
            } else {
                "universal_supremacy_active"@
            }),
    {
        if !integration.supremacy_achieved {
            AhiAiCore::enforce_compliance();
            String::from_str("capstone_enforced")
        } else {
            String::from_str("universal_supremacy_active")
        }
    }

    /// Run universal capstone. One record for each of the 26 names of
    /// `run_universal_capstone_targets`, in their order.
    pub fn run_universal_capstone(ledger: Ledger) -> (integrations: Vec<CapstoneIntegration>)
        ensures
            integrations@.len() == run_universal_capstone_targets().len(),
            forall|i: int|
                0 <= i < integrations@.len() ==> fresh_capstone_integration(
                    #[trigger] integrations@[i],
                    ledger,
                    run_universal_capstone_targets()[i],
                ),
    {
        let mut integrations: Vec<CapstoneIntegration> = Vec::new();
        integrations.push(Self::integrate_into_capstone(ledger, String::from_str("ahi_ai_core")));
        integrations.push(Self::integrate_into_capstone(
            ledger,
            String::from_str("pi_stablecoin_manager"),
        ));
        integrations.push(Self::integrate_into_capstone(
            ledger,
            String::from_str("autonomous_app_builder"),
        ));
        integrations.push(Self::integrate_into_capstone(
            ledger,
            String::from_str("hyper_ecosystem_monitor"),
        ));
        integrations.push(Self::integrate_into_capstone(
            ledger,
            String::from_str("quantum_security_layer"),
        ));
        integrations.push(Self::integrate_into_capstone(
            ledger,
            String::from_str("ultimate_integration_core"),
        ));
        integrations.push(Self::integrate_into_capstone(
            ledger,
            String::from_str("final_hyper_expansion_module"),
        ));
        integrations.push(Self::integrate_into_capstone(
            ledger,
            String::from_str("ultimate_deployment_script"),
        ));
        integrations.push(Self::integrate_into_capstone(
            ledger,
            String::from_str("ecosystem_readme_config"),
        ));
        integrations.push(Self::integrate_into_capstone(
            ledger,
            String::from_str("pi_purity_accountability_enforcer"),
        ));
        integrations.push(Self::integrate_into_capstone(
            ledger,
            String::from_str("global_pi_oracle_compliance_verifier"),
        ));
        integrations.push(Self::integrate_into_capstone(
            ledger,
            String::from_str("ultimate_ai_governance_ethical_overseer"),
        ));
        integrations.push(Self::integrate_into_capstone(
            ledger,
            String::from_str("final_ecosystem_synthesis_ui_hub"),
        ));
        integrations.push(Self::integrate_into_capstone(
            ledger,
            String::from_str("master_control_final_integration_script"),
        ));
        integrations.push(Self::integrate_into_capstone(
            ledger,
            String::from_str("ultimate_ecosystem_guardian_summary_script"),
        ));
        integrations.push(Self::integrate_into_capstone(
            ledger,
            String::from_str("absolute_final_ecosystem_seal_eternal_guardian"),
        ));
        integrations.push(Self::integrate_into_capstone(
            ledger,
            String::from_str("quantum_ai_optimizer_predictive_maintenance"),
        ));
        integrations.push(Self::integrate_into_capstone(
            ledger,
            String::from_str("pi_mainnet_integration_real_time_synchronization"),
        ));
        integrations.push(Self::integrate_into_capstone(
            ledger,
            String::from_str("global_decentralized_ai_swarm_intelligence_hub"),
        ));
        integrations.push(Self::integrate_into_capstone(
            ledger,
            String::from_str("pi_mainnet_launch_governance_protocol"),
        ));
        integrations.push(Self::integrate_into_capstone(
            ledger,
            String::from_str("ultimate_pi_mainnet_activation_eternal_stability"),
        ));
        integrations.push(Self::integrate_into_capstone(
            ledger,
            String::from_str("final_pi_mainnet_supremacy_global_domination"),
        ));
        integrations.push(Self::integrate_into_capstone(
            ledger,
            String::from_str("infinite_pi_ecosystem_expansion_universal_integration"),
        ));
        integrations.push(Self::integrate_into_capstone(
            ledger,
            String::from_str("comprehensive_test_suite_validation"),
        ));
        integrations.push(Self::integrate_into_capstone(
            ledger,
            String::from_str("ultimate_ecosystem_documentation_holographic_archive"),
        ));
        integrations.push(Self::integrate_into_capstone(
            ledger,
            String::from_str("eternal_quantum_security_anti_quantum_threat"),
        ));
        integrations
    }

    /// Get capstone status.
    pub fn get_capstone_status() -> (status: StatusMap)
        ensures
            status@ == capstone_status_table(),
    {
        let mut status = StatusMap::new();
        status.set("modules_integrated", 50);
        status.set("universal_supremacy", 100);
        status.set("capstone_eternal", 100);
        status
    }

    /// Update capstone rules. The rule is accepted while `quantum_resistance`
    /// stands at 100 in the table of
    /// `EternalQuantumSecurityAntiQuantumThreat::get_security_status`, which it
    /// always does.
    pub fn update_capstone_rules(new_rule: String) -> (r: Result<String, String>)
        ensures
            answer_texts(r) == Ok::<Seq<char>, Seq<char>>("updated"@),
    {
        let sec_status = EternalQuantumSecurityAntiQuantumThreat::get_security_status();
        proof {
            lemma_security_status_table();
        }
        if sec_status.get_or_zero("quantum_resistance") == 100 {
            Ok(String::from_str("updated"))
        } else {
            Err(String::from_str("update_rejected"))
        }
    }

    /// Render capstone hologram. The lines come in the order in which they are
    /// shown.
    pub fn render_capstone_hologram(integration: CapstoneIntegration) -> (hologram: Vec<String>)
        ensures
            texts(hologram@) == seq![
                "Universal Capstone Hologram"@,
                integration.integrated_module@,
                flag_text("Supremacy Achieved: "@, integration.supremacy_achieved),
                number_text("Integration Level: "@, integration.integration_level),
            ],
    {
        let mut hologram: Vec<String> = Vec::new();
        hologram.push(String::from_str("Universal Capstone Hologram"));
        hologram.push(integration.integrated_module);
        hologram.push(flag_line("Supremacy Achieved: ", integration.supremacy_achieved));
        hologram.push(number_line("Integration Level: ", integration.integration_level));
        assert(texts(hologram@) == seq![
            "Universal Capstone Hologram"@,
            integration.integrated_module@,
            flag_text("Supremacy Achieved: "@, integration.supremacy_achieved),
            number_text("Integration Level: "@, integration.integration_level),
        ]);
        hologram
    }
}

} // verus!
