//! Automates ultimate deployment of the Pi Ecosystem Super App.

use vstd::prelude::*;
use vstd::string::StringExecFns;
use crate::ahi_ai_core::{answer_texts, filtered_answer, AhiAiCore};
use crate::autonomous_app_builder::AutonomousAppBuilder;
use crate::final_hyper_expansion_module::FinalHyperExpansionModule;
use crate::hyper_ecosystem_monitor::HyperEcosystemMonitor;
use crate::pi_stablecoin_manager::PiStablecoinManager;
use crate::quantum_security_layer::QuantumSecurityLayer;
use crate::text::texts;

verus! {

/// The on-chain module that automates ultimate deployment of the Pi Ecosystem
/// Super App.
#[derive(Clone, Copy, Debug)]
pub struct UltimateDeploymentScript;

impl UltimateDeploymentScript {
    /// Initialize the Deployment Script.
    pub fn init() -> (module: UltimateDeploymentScript) {
        UltimateDeploymentScript
    }

    /// Run ultimate deployment sequence: every module is initialized, in
    /// the order of their dependence, and the final expansion is
    /// triggered.
    pub fn run_ultimate_deployment() -> (state: String)
        ensures
            state@ == "deployment_success"@,
    {
        AhiAiCore::init();
        PiStablecoinManager::init();
        AutonomousAppBuilder::init();
        HyperEcosystemMonitor::init();
        QuantumSecurityLayer::init();
        FinalHyperExpansionModule::init();
        FinalHyperExpansionModule::trigger_final_expansion();
        String::from_str("deployment_success")
    }

    /// Validate deployment. The component goes through the on-chain
    /// filter.
    pub fn validate_deployment(component: String) -> (r: Result<String, String>)
        ensures
            answer_texts(r) == filtered_answer(component@, "validated"@),
    {
        match AhiAiCore::filter_io(component.as_str()) {
            Err(rejection) => Err(rejection),
            Ok(_) => Ok(String::from_str("validated")),
        }
    }

    /// Get deployment status.
    pub fn get_deployment_status() -> (names: Vec<String>)
        ensures
            texts(names@) == seq![
                "ai_deployed"@,
                "stablecoin_deployed"@,
                "apps_deployed"@,
                "monitor_deployed"@,
                "security_deployed"@,
                "integration_deployed"@,
                "expansion_deployed"@,
            ],
    {
        let mut names: Vec<String> = Vec::new();
        names.push(String::from_str("ai_deployed"));
        names.push(String::from_str("stablecoin_deployed"));
        names.push(String::from_str("apps_deployed"));
        names.push(String::from_str("monitor_deployed"));
        names.push(String::from_str("security_deployed"));
        names.push(String::from_str("integration_deployed"));
        names.push(String::from_str("expansion_deployed"));
        assert(texts(names@) == seq![
            "ai_deployed"@,
            "stablecoin_deployed"@,
            "apps_deployed"@,
            "monitor_deployed"@,
            "security_deployed"@,
            "integration_deployed"@,
            "expansion_deployed"@,
        ]);
        names
    }
}

} // verus!
