use hyper_core::ledger::Ledger;
use hyper_core::absolute_final_ecosystem_seal_eternal_guardian::AbsoluteFinalEcosystemSealEternalGuardian;
use hyper_core::comprehensive_test_suite_validation::ComprehensiveTestSuiteValidation;
use hyper_core::eternal_quantum_security_anti_quantum_threat::EternalQuantumSecurityAntiQuantumThreat;
use hyper_core::final_universal_integration_supremacy_capstone::FinalUniversalIntegrationSupremacyCapstone;
use hyper_core::global_decentralized_ai_swarm_intelligence_hub::GlobalDecentralizedAiSwarmIntelligenceHub;
use hyper_core::infinite_pi_ecosystem_expansion_universal_integration::InfinitePiEcosystemExpansionUniversalIntegration;
use hyper_core::quantum_ai_optimizer_predictive_maintenance::QuantumAiOptimizerPredictiveMaintenance;

#[test]
fn ecosystem_seal_eternal_guardian_records_are_named_after_the_ledger() {
    let ledger = Ledger { sequence: 42, timestamp: 1700000000 };
    let record = AbsoluteFinalEcosystemSealEternalGuardian::apply_eternal_seal(ledger, "subject".to_string());
    assert_eq!(record.id, "seal_42");
    assert_eq!(record.sealed_component, "subject");
    assert_eq!(record.seal_strength, 100);
    assert!(record.eternal_guard);
    assert_eq!(record.timestamp, 1700000000);
}

#[test]
fn ecosystem_seal_eternal_guardian_enforce_eternal_guardianship_answers_by_the_record() {
    let ledger = Ledger { sequence: 1, timestamp: 2 };
    let sound = AbsoluteFinalEcosystemSealEternalGuardian::apply_eternal_seal(ledger, "subject".to_string());
    let mut broken = sound.clone();
    broken.eternal_guard = false;
    assert_eq!(AbsoluteFinalEcosystemSealEternalGuardian::enforce_eternal_guardianship(sound), "eternal_protection_active");
    assert_eq!(AbsoluteFinalEcosystemSealEternalGuardian::enforce_eternal_guardianship(broken), "guardianship_enforced");
}

#[test]
fn ecosystem_seal_eternal_guardian_seal_entire_ecosystem_goes_through_every_target() {
    let ledger = Ledger { sequence: 7, timestamp: 99 };
    let records = AbsoluteFinalEcosystemSealEternalGuardian::seal_entire_ecosystem(ledger);
    let targets: Vec<&str> = records.iter().map(|r| r.sealed_component.as_str()).collect();
    assert_eq!(targets, vec!["ai_core", "stablecoin_manager", "app_builder", "mainnet_accelerator", "ecosystem_monitor", "security_layer", "integration_core", "expansion_module", "deployment_script", "readme_config", "purity_enforcer", "oracle_verifier", "governance_overseer", "ui_hub", "master_control", "guardian_summary"]);
    assert!(records.iter().all(|r| r.id == "seal_7" && r.timestamp == 99));
}

#[test]
fn ecosystem_seal_eternal_guardian_get_eternal_guardian_status_reports_its_figures() {
    let status = AbsoluteFinalEcosystemSealEternalGuardian::get_eternal_guardian_status();
    assert_eq!(status.get("seals_applied"), Some(50));
    assert_eq!(status.get("eternal_strength"), Some(100));
    assert_eq!(status.get("supremacy_sealed"), Some(100));
    assert_eq!(status.get("missing"), None);
}

#[test]
fn ecosystem_seal_eternal_guardian_update_eternal_seal_rules_accepts_every_rule() {
    assert_eq!(AbsoluteFinalEcosystemSealEternalGuardian::update_eternal_seal_rules("new_rule".to_string()), Ok("updated".to_string()));
    assert_eq!(AbsoluteFinalEcosystemSealEternalGuardian::update_eternal_seal_rules(String::new()), Ok("updated".to_string()));
}

#[test]
fn ecosystem_seal_eternal_guardian_render_eternal_seal_hologram_shows_the_record() {
    let ledger = Ledger { sequence: 3, timestamp: 4 };
    let record = AbsoluteFinalEcosystemSealEternalGuardian::apply_eternal_seal(ledger, "subject".to_string());
    assert_eq!(
        AbsoluteFinalEcosystemSealEternalGuardian::render_eternal_seal_hologram(record),
        vec![
            "Eternal Seal Hologram".to_string(),
            "subject".to_string(),
            "Strength: 100".to_string(),
            "Guardianship: Eternal".to_string(),
        ]
    );
}

#[test]
fn test_suite_validation_records_are_named_after_the_ledger() {
    let ledger = Ledger { sequence: 42, timestamp: 1700000000 };
    let record = ComprehensiveTestSuiteValidation::run_validation_test(ledger, "subject".to_string());
    assert_eq!(record.id, "test_42");
    assert_eq!(record.test_target, "subject");
    assert!(record.test_passed);
    assert_eq!(record.validation_score, 100);
    assert_eq!(record.timestamp, 1700000000);
}

#[test]
fn test_suite_validation_enforce_test_integrity_answers_by_the_record() {
    let ledger = Ledger { sequence: 1, timestamp: 2 };
    let sound = ComprehensiveTestSuiteValidation::run_validation_test(ledger, "subject".to_string());
    let mut broken = sound.clone();
    broken.test_passed = false;
    assert_eq!(ComprehensiveTestSuiteValidation::enforce_test_integrity(sound), "validation_active");
    assert_eq!(ComprehensiveTestSuiteValidation::enforce_test_integrity(broken), "test_enforced");
}

#[test]
fn test_suite_validation_run_full_test_suite_goes_through_every_target() {
    let ledger = Ledger { sequence: 7, timestamp: 99 };
    let records = ComprehensiveTestSuiteValidation::run_full_test_suite(ledger);
    let targets: Vec<&str> = records.iter().map(|r| r.test_target.as_str()).collect();
    assert_eq!(targets, vec!["ai_core", "stablecoin_manager", "mainnet", "expansion_module", "domination_hub"]);
    assert!(records.iter().all(|r| r.id == "test_7" && r.timestamp == 99));
}

#[test]
fn test_suite_validation_get_test_status_reports_its_figures() {
    let status = ComprehensiveTestSuiteValidation::get_test_status();
    assert_eq!(status.get("tests_run"), Some(50));
    assert_eq!(status.get("validation_rate"), Some(100));
    assert_eq!(status.get("suite_integrity"), Some(100));
    assert_eq!(status.get("missing"), None);
}

#[test]
fn test_suite_validation_update_test_rules_accepts_every_rule() {
    assert_eq!(ComprehensiveTestSuiteValidation::update_test_rules("new_rule".to_string()), Ok("updated".to_string()));
    assert_eq!(ComprehensiveTestSuiteValidation::update_test_rules(String::new()), Ok("updated".to_string()));
}

#[test]
fn test_suite_validation_render_test_hologram_shows_the_record() {
    let ledger = Ledger { sequence: 3, timestamp: 4 };
    let record = ComprehensiveTestSuiteValidation::run_validation_test(ledger, "subject".to_string());
    assert_eq!(
        ComprehensiveTestSuiteValidation::render_test_hologram(record),
        vec![
            "Comprehensive Test Hologram".to_string(),
            "subject".to_string(),
            "Test Passed: true".to_string(),
            "Validation Score: 100".to_string(),
        ]
    );
}

#[test]
fn quantum_security_anti_quantum_threat_records_are_named_after_the_ledger() {
    let ledger = Ledger { sequence: 42, timestamp: 1700000000 };
    let record = EternalQuantumSecurityAntiQuantumThreat::apply_quantum_defense(ledger, "subject".to_string());
    assert_eq!(record.id, "defense_42");
    assert_eq!(record.threat_type, "subject");
    assert!(record.defense_applied);
    assert_eq!(record.security_level, 100);
    assert_eq!(record.timestamp, 1700000000);
}

#[test]
fn quantum_security_anti_quantum_threat_enforce_quantum_security_answers_by_the_record() {
    let ledger = Ledger { sequence: 1, timestamp: 2 };
    let sound = EternalQuantumSecurityAntiQuantumThreat::apply_quantum_defense(ledger, "subject".to_string());
    let mut broken = sound.clone();
    broken.defense_applied = false;
    assert_eq!(EternalQuantumSecurityAntiQuantumThreat::enforce_quantum_security(sound), "eternal_quantum_security_active");
    assert_eq!(EternalQuantumSecurityAntiQuantumThreat::enforce_quantum_security(broken), "security_enforced");
}

#[test]
fn quantum_security_anti_quantum_threat_secure_ecosystem_eternally_goes_through_every_target() {
    let ledger = Ledger { sequence: 7, timestamp: 99 };
    let records = EternalQuantumSecurityAntiQuantumThreat::secure_ecosystem_eternally(ledger);
    let targets: Vec<&str> = records.iter().map(|r| r.threat_type.as_str()).collect();
    assert_eq!(targets, vec!["quantum_attack", "crypto_breach", "external_threat"]);
    assert!(records.iter().all(|r| r.id == "defense_7" && r.timestamp == 99));
}

#[test]
fn quantum_security_anti_quantum_threat_get_security_status_reports_its_figures() {
    let status = EternalQuantumSecurityAntiQuantumThreat::get_security_status();
    assert_eq!(status.get("threats_neutralized"), Some(50));
    assert_eq!(status.get("quantum_resistance"), Some(100));
    assert_eq!(status.get("eternal_security"), Some(100));
    assert_eq!(status.get("missing"), None);
}

#[test]
fn quantum_security_anti_quantum_threat_update_security_rules_accepts_every_rule() {
    assert_eq!(EternalQuantumSecurityAntiQuantumThreat::update_security_rules("new_rule".to_string()), Ok("updated".to_string()));
    assert_eq!(EternalQuantumSecurityAntiQuantumThreat::update_security_rules(String::new()), Ok("updated".to_string()));
}

#[test]
fn quantum_security_anti_quantum_threat_render_security_hologram_shows_the_record() {
    let ledger = Ledger { sequence: 3, timestamp: 4 };
    let record = EternalQuantumSecurityAntiQuantumThreat::apply_quantum_defense(ledger, "subject".to_string());
    assert_eq!(
        EternalQuantumSecurityAntiQuantumThreat::render_security_hologram(record),
        vec![
            "Quantum Security Hologram".to_string(),
            "subject".to_string(),
            "Defense Applied: true".to_string(),
            "Security Level: 100".to_string(),
        ]
    );
}

#[test]
fn universal_integration_supremacy_capstone_records_are_named_after_the_ledger() {
    let ledger = Ledger { sequence: 42, timestamp: 1700000000 };
    let record = FinalUniversalIntegrationSupremacyCapstone::integrate_into_capstone(ledger, "subject".to_string());
    assert_eq!(record.id, "capstone_42");
    assert_eq!(record.integrated_module, "subject");
    assert!(record.supremacy_achieved);
    assert_eq!(record.integration_level, 100);
    assert_eq!(record.timestamp, 1700000000);
}

#[test]
fn universal_integration_supremacy_capstone_enforce_capstone_supremacy_answers_by_the_record() {
    let ledger = Ledger { sequence: 1, timestamp: 2 };
    let sound = FinalUniversalIntegrationSupremacyCapstone::integrate_into_capstone(ledger, "subject".to_string());
    let mut broken = sound.clone();
    broken.supremacy_achieved = false;
    assert_eq!(FinalUniversalIntegrationSupremacyCapstone::enforce_capstone_supremacy(sound), "universal_supremacy_active");
    assert_eq!(FinalUniversalIntegrationSupremacyCapstone::enforce_capstone_supremacy(broken), "capstone_enforced");
}

#[test]
fn universal_integration_supremacy_capstone_run_universal_capstone_goes_through_every_target() {
    let ledger = Ledger { sequence: 7, timestamp: 99 };
    let records = FinalUniversalIntegrationSupremacyCapstone::run_universal_capstone(ledger);
    let targets: Vec<&str> = records.iter().map(|r| r.integrated_module.as_str()).collect();
    assert_eq!(targets, vec!["ahi_ai_core", "pi_stablecoin_manager", "autonomous_app_builder", "hyper_ecosystem_monitor", "quantum_security_layer", "ultimate_integration_core", "final_hyper_expansion_module", "ultimate_deployment_script", "ecosystem_readme_config", "pi_purity_accountability_enforcer", "global_pi_oracle_compliance_verifier", "ultimate_ai_governance_ethical_overseer", "final_ecosystem_synthesis_ui_hub", "master_control_final_integration_script", "ultimate_ecosystem_guardian_summary_script", "absolute_final_ecosystem_seal_eternal_guardian", "quantum_ai_optimizer_predictive_maintenance", "pi_mainnet_integration_real_time_synchronization", "global_decentralized_ai_swarm_intelligence_hub", "pi_mainnet_launch_governance_protocol", "ultimate_pi_mainnet_activation_eternal_stability", "final_pi_mainnet_supremacy_global_domination", "infinite_pi_ecosystem_expansion_universal_integration", "comprehensive_test_suite_validation", "ultimate_ecosystem_documentation_holographic_archive", "eternal_quantum_security_anti_quantum_threat"]);
    assert!(records.iter().all(|r| r.id == "capstone_7" && r.timestamp == 99));
}

#[test]
fn universal_integration_supremacy_capstone_get_capstone_status_reports_its_figures() {
    let status = FinalUniversalIntegrationSupremacyCapstone::get_capstone_status();
    assert_eq!(status.get("modules_integrated"), Some(50));
    assert_eq!(status.get("universal_supremacy"), Some(100));
    assert_eq!(status.get("capstone_eternal"), Some(100));
    assert_eq!(status.get("missing"), None);
}

#[test]
fn universal_integration_supremacy_capstone_update_capstone_rules_accepts_every_rule() {
    assert_eq!(FinalUniversalIntegrationSupremacyCapstone::update_capstone_rules("new_rule".to_string()), Ok("updated".to_string()));
    assert_eq!(FinalUniversalIntegrationSupremacyCapstone::update_capstone_rules(String::new()), Ok("updated".to_string()));
}

#[test]
fn universal_integration_supremacy_capstone_render_capstone_hologram_shows_the_record() {
    let ledger = Ledger { sequence: 3, timestamp: 4 };
    let record = FinalUniversalIntegrationSupremacyCapstone::integrate_into_capstone(ledger, "subject".to_string());
    assert_eq!(
        FinalUniversalIntegrationSupremacyCapstone::render_capstone_hologram(record),
        vec![
            "Universal Capstone Hologram".to_string(),
            "subject".to_string(),
            "Supremacy Achieved: true".to_string(),
            "Integration Level: 100".to_string(),
        ]
    );
}

#[test]
fn decentralized_ai_swarm_intelligence_hub_records_are_named_after_the_ledger() {
    let ledger = Ledger { sequence: 42, timestamp: 1700000000 };
    let record = GlobalDecentralizedAiSwarmIntelligenceHub::coordinate_swarm_intelligence(ledger, "subject".to_string());
    assert_eq!(record.id, "swarm_42");
    assert_eq!(record.swarm_task, "subject");
    assert!(record.consensus_reached);
    assert_eq!(record.intelligence_score, 100);
    assert_eq!(record.swarm_size, 1000000);
    assert_eq!(record.timestamp, 1700000000);
}

#[test]
fn decentralized_ai_swarm_intelligence_hub_enforce_swarm_integrity_answers_by_the_record() {
    let ledger = Ledger { sequence: 1, timestamp: 2 };
    let sound = GlobalDecentralizedAiSwarmIntelligenceHub::coordinate_swarm_intelligence(ledger, "subject".to_string());
    let mut broken = sound.clone();
    broken.consensus_reached = false;
    assert_eq!(GlobalDecentralizedAiSwarmIntelligenceHub::enforce_swarm_integrity(sound), "swarm_intelligence_active");
    assert_eq!(GlobalDecentralizedAiSwarmIntelligenceHub::enforce_swarm_integrity(broken), "integrity_enforced");
}

#[test]
fn decentralized_ai_swarm_intelligence_hub_optimize_via_swarm_goes_through_every_target() {
    let ledger = Ledger { sequence: 7, timestamp: 99 };
    let records = GlobalDecentralizedAiSwarmIntelligenceHub::optimize_via_swarm(ledger);
    let targets: Vec<&str> = records.iter().map(|r| r.swarm_task.as_str()).collect();
    assert_eq!(targets, vec!["optimize_transactions", "predict_threats", "scale_apps", "secure_mainnet"]);
    assert!(records.iter().all(|r| r.id == "swarm_7" && r.timestamp == 99));
}

#[test]
fn decentralized_ai_swarm_intelligence_hub_get_swarm_status_reports_its_figures() {
    let status = GlobalDecentralizedAiSwarmIntelligenceHub::get_swarm_status();
    assert_eq!(status.get("active_swarms"), Some(50));
    assert_eq!(status.get("consensus_rate"), Some(100));
    assert_eq!(status.get("intelligence_level"), Some(100));
    assert_eq!(status.get("missing"), None);
}

#[test]
fn decentralized_ai_swarm_intelligence_hub_update_swarm_rules_accepts_every_rule() {
    assert_eq!(GlobalDecentralizedAiSwarmIntelligenceHub::update_swarm_rules("new_rule".to_string()), Ok("updated".to_string()));
    assert_eq!(GlobalDecentralizedAiSwarmIntelligenceHub::update_swarm_rules(String::new()), Ok("updated".to_string()));
}

#[test]
fn decentralized_ai_swarm_intelligence_hub_render_swarm_hologram_shows_the_record() {
    let ledger = Ledger { sequence: 3, timestamp: 4 };
    let record = GlobalDecentralizedAiSwarmIntelligenceHub::coordinate_swarm_intelligence(ledger, "subject".to_string());
    assert_eq!(
        GlobalDecentralizedAiSwarmIntelligenceHub::render_swarm_hologram(record),
        vec![
            "Decentralized Swarm Intelligence Hologram".to_string(),
            "subject".to_string(),
            "Consensus: true".to_string(),
            "Intelligence Score: 100".to_string(),
            "Swarm Size: 1000000".to_string(),
        ]
    );
}

#[test]
fn ecosystem_expansion_universal_integration_records_are_named_after_the_ledger() {
    let ledger = Ledger { sequence: 42, timestamp: 1700000000 };
    let record = InfinitePiEcosystemExpansionUniversalIntegration::expand_integrate_universally(ledger, "subject".to_string());
    assert_eq!(record.id, "expansion_42");
    assert_eq!(record.expansion_target, "subject");
    assert!(record.integration_success);
    assert_eq!(record.expansion_scale, 1000000000);
    assert_eq!(record.timestamp, 1700000000);
}

#[test]
fn ecosystem_expansion_universal_integration_enforce_expansion_integrity_answers_by_the_record() {
    let ledger = Ledger { sequence: 1, timestamp: 2 };
    let sound = InfinitePiEcosystemExpansionUniversalIntegration::expand_integrate_universally(ledger, "subject".to_string());
    let mut broken = sound.clone();
    broken.integration_success = false;
    assert_eq!(InfinitePiEcosystemExpansionUniversalIntegration::enforce_expansion_integrity(sound), "infinite_expansion_active");
    assert_eq!(InfinitePiEcosystemExpansionUniversalIntegration::enforce_expansion_integrity(broken), "expansion_enforced");
}

#[test]
fn ecosystem_expansion_universal_integration_achieve_infinite_universal_expansion_goes_through_every_target() {
    let ledger = Ledger { sequence: 7, timestamp: 99 };
    let records = InfinitePiEcosystemExpansionUniversalIntegration::achieve_infinite_universal_expansion(ledger);
    let targets: Vec<&str> = records.iter().map(|r| r.expansion_target.as_str()).collect();
    assert_eq!(targets, vec!["universal_network", "infinite_apps", "global_integration"]);
    assert!(records.iter().all(|r| r.id == "expansion_7" && r.timestamp == 99));
}

#[test]
fn ecosystem_expansion_universal_integration_get_expansion_status_reports_its_figures() {
    let status = InfinitePiEcosystemExpansionUniversalIntegration::get_expansion_status();
    assert_eq!(status.get("targets_expanded"), Some(50));
    assert_eq!(status.get("universal_integration"), Some(100));
    assert_eq!(status.get("infinite_scale"), Some(1000000000));
    assert_eq!(status.get("missing"), None);
}

#[test]
fn ecosystem_expansion_universal_integration_update_expansion_rules_accepts_every_rule() {
    assert_eq!(InfinitePiEcosystemExpansionUniversalIntegration::update_expansion_rules("new_rule".to_string()), Ok("updated".to_string()));
    assert_eq!(InfinitePiEcosystemExpansionUniversalIntegration::update_expansion_rules(String::new()), Ok("updated".to_string()));
}

#[test]
fn ecosystem_expansion_universal_integration_render_expansion_hologram_shows_the_record() {
    let ledger = Ledger { sequence: 3, timestamp: 4 };
    let record = InfinitePiEcosystemExpansionUniversalIntegration::expand_integrate_universally(ledger, "subject".to_string());
    assert_eq!(
        InfinitePiEcosystemExpansionUniversalIntegration::render_expansion_hologram(record),
        vec![
            "Infinite Expansion Hologram".to_string(),
            "subject".to_string(),
            "Integration Success: true".to_string(),
            "Expansion Scale: 1000000000".to_string(),
        ]
    );
}

#[test]
fn ai_optimizer_predictive_maintenance_records_are_named_after_the_ledger() {
    let ledger = Ledger { sequence: 42, timestamp: 1700000000 };
    let record = QuantumAiOptimizerPredictiveMaintenance::predict_optimize_maintenance(ledger, "subject".to_string());
    assert_eq!(record.id, "maintenance_42");
    assert_eq!(record.component, "subject");
    assert!(!record.predicted_failure);
    assert_eq!(record.optimization_score, 100);
    assert!(record.maintenance_applied);
    assert_eq!(record.timestamp, 1700000000);
}

#[test]
fn ai_optimizer_predictive_maintenance_apply_quantum_optimization_answers_by_the_record() {
    let ledger = Ledger { sequence: 1, timestamp: 2 };
    let sound = QuantumAiOptimizerPredictiveMaintenance::predict_optimize_maintenance(ledger, "subject".to_string());
    let mut broken = sound.clone();
    broken.predicted_failure = true;
    assert_eq!(QuantumAiOptimizerPredictiveMaintenance::apply_quantum_optimization(sound), "no_optimization_needed");
    assert_eq!(QuantumAiOptimizerPredictiveMaintenance::apply_quantum_optimization(broken), "optimization_applied");
}

#[test]
fn ai_optimizer_predictive_maintenance_optimize_entire_ecosystem_goes_through_every_target() {
    let ledger = Ledger { sequence: 7, timestamp: 99 };
    let records = QuantumAiOptimizerPredictiveMaintenance::optimize_entire_ecosystem(ledger);
    let targets: Vec<&str> = records.iter().map(|r| r.component.as_str()).collect();
    assert_eq!(targets, vec!["ai_core", "stablecoin_manager", "app_builder", "monitor", "security_layer", "governance_overseer", "ui_hub", "master_control", "guardian_summary", "eternal_guardian"]);
    assert!(records.iter().all(|r| r.id == "maintenance_7" && r.timestamp == 99));
}

#[test]
fn ai_optimizer_predictive_maintenance_get_optimization_status_reports_its_figures() {
    let status = QuantumAiOptimizerPredictiveMaintenance::get_optimization_status();
    assert_eq!(status.get("components_optimized"), Some(50));
    assert_eq!(status.get("predictive_accuracy"), Some(100));
    assert_eq!(status.get("maintenance_efficiency"), Some(100));
    assert_eq!(status.get("missing"), None);
}

#[test]
fn ai_optimizer_predictive_maintenance_update_optimization_rules_accepts_every_rule() {
    assert_eq!(QuantumAiOptimizerPredictiveMaintenance::update_optimization_rules("new_rule".to_string()), Ok("updated".to_string()));
    assert_eq!(QuantumAiOptimizerPredictiveMaintenance::update_optimization_rules(String::new()), Ok("updated".to_string()));
}

#[test]
fn ai_optimizer_predictive_maintenance_render_optimization_hologram_shows_the_record() {
    let ledger = Ledger { sequence: 3, timestamp: 4 };
    let record = QuantumAiOptimizerPredictiveMaintenance::predict_optimize_maintenance(ledger, "subject".to_string());
    assert_eq!(
        QuantumAiOptimizerPredictiveMaintenance::render_optimization_hologram(record),
        vec![
            "Quantum Optimization Hologram".to_string(),
            "subject".to_string(),
            "Optimization Score: 100".to_string(),
            "Maintenance Applied: true".to_string(),
        ]
    );
}
