//! Orchestrates final integration and ensures eternal Pi Ecosystem supremacy.

use vstd::prelude::*;
use vstd::string::StringExecFns;
use crate::ahi_ai_core::{answer_texts, AhiAiCore};
use crate::final_ecosystem_synthesis_ui_hub::FinalEcosystemSynthesisUiHub;
use crate::ledger::{Ledger, StatusMap};
use crate::text::texts;
use crate::ultimate_ai_governance_ethical_overseer::lemma_untrusted_kinds;
use crate::ultimate_ai_governance_ethical_overseer::UltimateAiGovernanceEthicalOverseer;

verus! {

/// The table that `get_integration_status` hands back.
pub open spec fn integration_status_table() -> Map<Seq<char>, i64> {
    Map::<Seq<char>, i64>::empty()
        .insert("modules_integrated"@, 50)
        .insert("tests_passed"@, 100)
        .insert("supremacy_level"@, 100)
}

/// What stands under each name of the table.
pub proof fn lemma_integration_status_table()
    ensures
        integration_status_table().contains_key("modules_integrated"@),
        integration_status_table()["modules_integrated"@] == 50,
        integration_status_table().contains_key("tests_passed"@),
        integration_status_table()["tests_passed"@] == 100,
        integration_status_table().contains_key("supremacy_level"@),
        integration_status_table()["supremacy_level"@] == 100,
{
    reveal_strlit("modules_integrated");
    reveal_strlit("tests_passed");
    reveal_strlit("supremacy_level");
    assert("modules_integrated"@.len() != "tests_passed"@.len());
    assert("modules_integrated"@.len() != "supremacy_level"@.len());
    assert("tests_passed"@.len() != "supremacy_level"@.len());
}

/// The on-chain module that orchestrates final integration and ensures eternal
/// Pi Ecosystem supremacy.
#[derive(Clone, Copy, Debug)]
pub struct MasterControlFinalIntegrationScript;

impl MasterControlFinalIntegrationScript {
    /// Initialize the Master Script.
    pub fn init() -> (module: MasterControlFinalIntegrationScript) {
        MasterControlFinalIntegrationScript
    }

    /// Run final integration sequence: the master dashboard is synthesized
    /// and rendered, the governance rules evolve, compliance is enforced,
    /// and the comprehensive tests run.
    pub fn run_final_integration(ledger: Ledger) -> (state: String)
        ensures
            state@ == "integration_success"@,
    {
        let synthesis = FinalEcosystemSynthesisUiHub::synthesize_ui(
            ledger,
            String::from_str("master_dashboard"),
        );
        FinalEcosystemSynthesisUiHub::render_holographic_ui(synthesis);
        UltimateAiGovernanceEthicalOverseer::evolve_governance_rules();
        AhiAiCore::enforce_compliance();
        Self::run_comprehensive_tests();
        String::from_str("integration_success")
    }

    /// Run comprehensive tests.
    pub fn run_comprehensive_tests() -> (names: Vec<String>)
        ensures
            texts(names@) == seq![
                "ai_compliance_test"@,
                "transaction_purity_test"@,
                "app_scaling_test"@,
                "security_quantum_test"@,
                "governance_ethical_test"@,
                "ui_synthesis_test"@,
            ],
    {
        let mut names: Vec<String> = Vec::new();
        names.push(String::from_str("ai_compliance_test"));
        names.push(String::from_str("transaction_purity_test"));
        names.push(String::from_str("app_scaling_test"));
        names.push(String::from_str("security_quantum_test"));
        names.push(String::from_str("governance_ethical_test"));
        names.push(String::from_str("ui_synthesis_test"));
        assert(texts(names@) == seq![
            "ai_compliance_test"@,
            "transaction_purity_test"@,
            "app_scaling_test"@,
            "security_quantum_test"@,
            "governance_ethical_test"@,
            "ui_synthesis_test"@,
        ]);
        names
    }

    /// Enforce master control. The action is audited as an action of the
    /// kind `master_action`, which the oracle does not trust: every
    /// action ends in a halt.
    pub fn enforce_master_control(ledger: Ledger, action: String) -> (r: Result<String, String>)
        ensures
            answer_texts(r) == Err::<Seq<char>, Seq<char>>("control_enforced_halt"@),
    {
        proof {
            lemma_untrusted_kinds();
        }
        let audit = UltimateAiGovernanceEthicalOverseer::perform_ethical_audit(
            ledger,
            action,
            String::from_str("master_action"),
        );
        if !audit.compliant {
            UltimateAiGovernanceEthicalOverseer::enforce_ethical_governance(audit);
            return Err(String::from_str("control_enforced_halt"));
        }
        Ok(String::from_str("control_enforced"))
    }

    /// Get integration status.
    pub fn get_integration_status() -> (status: StatusMap)
        ensures
            status@ == integration_status_table(),
    {
        let mut status = StatusMap::new();
        status.set("modules_integrated", 50);
        status.set("tests_passed", 100);
        status.set("supremacy_level", 100);
        status
    }

    /// Update master rules. The rule has to pass as a UI interaction,
    /// which none does.
    pub fn update_master_rules(ledger: Ledger, new_rule: String) -> (r: Result<String, String>)
        ensures
            answer_texts(r) == Err::<Seq<char>, Seq<char>>("interaction_rejected"@),
    {
        match FinalEcosystemSynthesisUiHub::enforce_ui_interaction(ledger, new_rule) {
            Err(rejection) => Err(rejection),
            Ok(_) => Ok(String::from_str("updated")),
        }
    }
}

} // verus!
