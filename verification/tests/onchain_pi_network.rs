use hyper_core::ledger::Ledger;
use hyper_core::pi_network_decentralization_engine::PiNetworkDecentralizationEngine;
use hyper_core::pi_network_decentralized_governance_council::PiNetworkDecentralizedGovernanceCouncil;
use hyper_core::pi_network_eternal_decentralization_monitor::PiNetworkEternalDecentralizationMonitor;
use hyper_core::pi_network_full_decentralization_capstone::PiNetworkFullDecentralizationCapstone;
use hyper_core::pi_network_global_announcer::PiNetworkGlobalAnnouncer;
use hyper_core::pi_network_hyper_oracle::PiNetworkHyperOracle;
use hyper_core::pi_network_mainnet_trigger::PiNetworkMainnetTrigger;
use hyper_core::pi_network_quantum_security_network::PiNetworkQuantumSecurityNetwork;
use hyper_core::pi_network_super_advanced_evolution_engine::PiNetworkSuperAdvancedEvolutionEngine;
use hyper_core::pi_network_super_intelligence_core::PiNetworkSuperIntelligenceCore;
use hyper_core::pi_network_ultimate_perfection_module::PiNetworkUltimatePerfectionModule;

#[test]
fn decentralization_engine_records_are_named_after_the_ledger() {
    let ledger = Ledger { sequence: 42, timestamp: 1700000000 };
    let record = PiNetworkDecentralizationEngine::drive_decentralization_phase(ledger, "subject".to_string());
    assert_eq!(record.id, "decentral_42");
    assert_eq!(record.decentralization_phase, "subject");
    assert!(record.fully_decentralized);
    assert_eq!(record.decentralization_level, 100);
    assert_eq!(record.timestamp, 1700000000);
}

#[test]
fn decentralization_engine_enforce_decentralization_integrity_answers_by_the_record() {
    let ledger = Ledger { sequence: 1, timestamp: 2 };
    let sound = PiNetworkDecentralizationEngine::drive_decentralization_phase(ledger, "subject".to_string());
    let mut broken = sound.clone();
    broken.fully_decentralized = false;
    assert_eq!(PiNetworkDecentralizationEngine::enforce_decentralization_integrity(sound), "full_decentralization_active");
    assert_eq!(PiNetworkDecentralizationEngine::enforce_decentralization_integrity(broken), "decentralization_enforced");
}

#[test]
fn decentralization_engine_run_decentralization_engine_goes_through_every_target() {
    let ledger = Ledger { sequence: 7, timestamp: 99 };
    let records = PiNetworkDecentralizationEngine::run_decentralization_engine(ledger);
    let targets: Vec<&str> = records.iter().map(|r| r.decentralization_phase.as_str()).collect();
    assert_eq!(targets, vec!["node_distribution", "consensus", "autonomy"]);
    assert!(records.iter().all(|r| r.id == "decentral_7" && r.timestamp == 99));
}

#[test]
fn decentralization_engine_get_engine_status_reports_its_figures() {
    let status = PiNetworkDecentralizationEngine::get_engine_status();
    assert_eq!(status.get("phases_driven"), Some(50));
    assert_eq!(status.get("decentralization_level"), Some(100));
    assert_eq!(status.get("engine_eternal"), Some(100));
    assert_eq!(status.get("missing"), None);
}

#[test]
fn decentralization_engine_update_engine_rules_accepts_every_rule() {
    assert_eq!(PiNetworkDecentralizationEngine::update_engine_rules("new_rule".to_string()), Ok("updated".to_string()));
    assert_eq!(PiNetworkDecentralizationEngine::update_engine_rules(String::new()), Ok("updated".to_string()));
}

#[test]
fn decentralization_engine_render_engine_hologram_shows_the_record() {
    let ledger = Ledger { sequence: 3, timestamp: 4 };
    let record = PiNetworkDecentralizationEngine::drive_decentralization_phase(ledger, "subject".to_string());
    assert_eq!(
        PiNetworkDecentralizationEngine::render_engine_hologram(record),
        vec![
            "Decentralization Engine Hologram".to_string(),
            "subject".to_string(),
            "Fully Decentralized: true".to_string(),
            "Decentralization Level: 100".to_string(),
        ]
    );
}

#[test]
fn decentralized_governance_council_records_are_named_after_the_ledger() {
    let ledger = Ledger { sequence: 42, timestamp: 1700000000 };
    let record = PiNetworkDecentralizedGovernanceCouncil::make_governance_decision(ledger, "subject".to_string());
    assert_eq!(record.id, "decision_42");
    assert_eq!(record.decision_type, "subject");
    assert!(record.council_decided);
    assert_eq!(record.decision_level, 100);
    assert_eq!(record.timestamp, 1700000000);
}

#[test]
fn decentralized_governance_council_enforce_council_integrity_answers_by_the_record() {
    let ledger = Ledger { sequence: 1, timestamp: 2 };
    let sound = PiNetworkDecentralizedGovernanceCouncil::make_governance_decision(ledger, "subject".to_string());
    let mut broken = sound.clone();
    broken.council_decided = false;
    assert_eq!(PiNetworkDecentralizedGovernanceCouncil::enforce_council_integrity(sound), "decentralized_governance_active");
    assert_eq!(PiNetworkDecentralizedGovernanceCouncil::enforce_council_integrity(broken), "council_integrity_enforced");
}

#[test]
fn decentralized_governance_council_run_governance_council_goes_through_every_target() {
    let ledger = Ledger { sequence: 7, timestamp: 99 };
    let records = PiNetworkDecentralizedGovernanceCouncil::run_governance_council(ledger);
    let targets: Vec<&str> = records.iter().map(|r| r.decision_type.as_str()).collect();
    assert_eq!(targets, vec!["protocol_update", "supremacy_vote", "eternal_rule"]);
    assert!(records.iter().all(|r| r.id == "decision_7" && r.timestamp == 99));
}

#[test]
fn decentralized_governance_council_get_council_status_reports_its_figures() {
    let status = PiNetworkDecentralizedGovernanceCouncil::get_council_status();
    assert_eq!(status.get("decisions_made"), Some(50));
    assert_eq!(status.get("governance_level"), Some(100));
    assert_eq!(status.get("council_eternal"), Some(100));
    assert_eq!(status.get("missing"), None);
}

#[test]
fn decentralized_governance_council_update_council_rules_accepts_every_rule() {
    assert_eq!(PiNetworkDecentralizedGovernanceCouncil::update_council_rules("new_rule".to_string()), Ok("updated".to_string()));
    assert_eq!(PiNetworkDecentralizedGovernanceCouncil::update_council_rules(String::new()), Ok("updated".to_string()));
}

#[test]
fn decentralized_governance_council_render_council_hologram_shows_the_record() {
    let ledger = Ledger { sequence: 3, timestamp: 4 };
    let record = PiNetworkDecentralizedGovernanceCouncil::make_governance_decision(ledger, "subject".to_string());
    assert_eq!(
        PiNetworkDecentralizedGovernanceCouncil::render_council_hologram(record),
        vec![
            "Decentralized Governance Council Hologram".to_string(),
            "subject".to_string(),
            "Council Decided: true".to_string(),
            "Decision Level: 100".to_string(),
        ]
    );
}

#[test]
fn eternal_decentralization_monitor_records_are_named_after_the_ledger() {
    let ledger = Ledger { sequence: 42, timestamp: 1700000000 };
    let record = PiNetworkEternalDecentralizationMonitor::monitor_decentralization_aspect(ledger, "subject".to_string());
    assert_eq!(record.id, "monitor_42");
    assert_eq!(record.monitor_aspect, "subject");
    assert!(record.eternally_monitored);
    assert_eq!(record.monitor_level, 100);
    assert_eq!(record.timestamp, 1700000000);
}

#[test]
fn eternal_decentralization_monitor_enforce_monitor_integrity_answers_by_the_record() {
    let ledger = Ledger { sequence: 1, timestamp: 2 };
    let sound = PiNetworkEternalDecentralizationMonitor::monitor_decentralization_aspect(ledger, "subject".to_string());
    let mut broken = sound.clone();
    broken.eternally_monitored = false;
    assert_eq!(PiNetworkEternalDecentralizationMonitor::enforce_monitor_integrity(sound), "eternal_monitoring_active");
    assert_eq!(PiNetworkEternalDecentralizationMonitor::enforce_monitor_integrity(broken), "monitor_integrity_enforced");
}

#[test]
fn eternal_decentralization_monitor_run_eternal_decentralization_monitor_goes_through_every_target() {
    let ledger = Ledger { sequence: 7, timestamp: 99 };
    let records = PiNetworkEternalDecentralizationMonitor::run_eternal_decentralization_monitor(ledger);
    let targets: Vec<&str> = records.iter().map(|r| r.monitor_aspect.as_str()).collect();
    assert_eq!(targets, vec!["node_health", "autonomy", "supremacy"]);
    assert!(records.iter().all(|r| r.id == "monitor_7" && r.timestamp == 99));
}

#[test]
fn eternal_decentralization_monitor_get_monitor_status_reports_its_figures() {
    let status = PiNetworkEternalDecentralizationMonitor::get_monitor_status();
    assert_eq!(status.get("aspects_monitored"), Some(50));
    assert_eq!(status.get("eternal_monitoring"), Some(100));
    assert_eq!(status.get("monitor_eternal"), Some(100));
    assert_eq!(status.get("missing"), None);
}

#[test]
fn eternal_decentralization_monitor_update_monitor_rules_accepts_every_rule() {
    assert_eq!(PiNetworkEternalDecentralizationMonitor::update_monitor_rules("new_rule".to_string()), Ok("updated".to_string()));
    assert_eq!(PiNetworkEternalDecentralizationMonitor::update_monitor_rules(String::new()), Ok("updated".to_string()));
}

#[test]
fn eternal_decentralization_monitor_render_monitor_hologram_shows_the_record() {
    let ledger = Ledger { sequence: 3, timestamp: 4 };
    let record = PiNetworkEternalDecentralizationMonitor::monitor_decentralization_aspect(ledger, "subject".to_string());
    assert_eq!(
        PiNetworkEternalDecentralizationMonitor::render_monitor_hologram(record),
        vec![
            "Eternal Decentralization Monitor Hologram".to_string(),
            "subject".to_string(),
            "Eternally Monitored: true".to_string(),
            "Monitor Level: 100".to_string(),
        ]
    );
}

#[test]
fn full_decentralization_capstone_records_are_named_after_the_ledger() {
    let ledger = Ledger { sequence: 42, timestamp: 1700000000 };
    let record = PiNetworkFullDecentralizationCapstone::capstone_decentralization_phase(ledger, "subject".to_string());
    assert_eq!(record.id, "capstone_42");
    assert_eq!(record.capstone_phase, "subject");
    assert!(record.fully_capstoned);
    assert_eq!(record.capstone_level, 100);
    assert_eq!(record.timestamp, 1700000000);
}

#[test]
fn full_decentralization_capstone_enforce_capstone_integrity_answers_by_the_record() {
    let ledger = Ledger { sequence: 1, timestamp: 2 };
    let sound = PiNetworkFullDecentralizationCapstone::capstone_decentralization_phase(ledger, "subject".to_string());
    let mut broken = sound.clone();
    broken.fully_capstoned = false;
    assert_eq!(PiNetworkFullDecentralizationCapstone::enforce_capstone_integrity(sound), "full_decentralization_capstoned");
    assert_eq!(PiNetworkFullDecentralizationCapstone::enforce_capstone_integrity(broken), "capstone_integrity_enforced");
}

#[test]
fn full_decentralization_capstone_run_full_decentralization_capstone_goes_through_every_target() {
    let ledger = Ledger { sequence: 7, timestamp: 99 };
    let records = PiNetworkFullDecentralizationCapstone::run_full_decentralization_capstone(ledger);
    let targets: Vec<&str> = records.iter().map(|r| r.capstone_phase.as_str()).collect();
    assert_eq!(targets, vec!["integration", "autonomy", "supremacy"]);
    assert!(records.iter().all(|r| r.id == "capstone_7" && r.timestamp == 99));
}

#[test]
fn full_decentralization_capstone_get_capstone_status_reports_its_figures() {
    let status = PiNetworkFullDecentralizationCapstone::get_capstone_status();
    assert_eq!(status.get("phases_capstoned"), Some(50));
    assert_eq!(status.get("decentralization_capstone"), Some(100));
    assert_eq!(status.get("capstone_eternal"), Some(100));
    assert_eq!(status.get("missing"), None);
}

#[test]
fn full_decentralization_capstone_update_capstone_rules_accepts_every_rule() {
    assert_eq!(PiNetworkFullDecentralizationCapstone::update_capstone_rules("new_rule".to_string()), Ok("updated".to_string()));
    assert_eq!(PiNetworkFullDecentralizationCapstone::update_capstone_rules(String::new()), Ok("updated".to_string()));
}

#[test]
fn full_decentralization_capstone_render_capstone_hologram_shows_the_record() {
    let ledger = Ledger { sequence: 3, timestamp: 4 };
    let record = PiNetworkFullDecentralizationCapstone::capstone_decentralization_phase(ledger, "subject".to_string());
    assert_eq!(
        PiNetworkFullDecentralizationCapstone::render_capstone_hologram(record),
        vec![
            "Full Decentralization Capstone Hologram".to_string(),
            "subject".to_string(),
            "Fully Capstoned: true".to_string(),
            "Capstone Level: 100".to_string(),
        ]
    );
}

#[test]
fn global_announcer_records_are_named_after_the_ledger() {
    let ledger = Ledger { sequence: 42, timestamp: 1700000000 };
    let record = PiNetworkGlobalAnnouncer::make_global_announcement(ledger, "subject".to_string());
    assert_eq!(record.id, "announce_42");
    assert_eq!(record.announcement_type, "subject");
    assert!(record.globally_announced);
    assert_eq!(record.reach_level, 100);
    assert_eq!(record.timestamp, 1700000000);
}

#[test]
fn global_announcer_enforce_announcement_integrity_answers_by_the_record() {
    let ledger = Ledger { sequence: 1, timestamp: 2 };
    let sound = PiNetworkGlobalAnnouncer::make_global_announcement(ledger, "subject".to_string());
    let mut broken = sound.clone();
    broken.globally_announced = false;
    assert_eq!(PiNetworkGlobalAnnouncer::enforce_announcement_integrity(sound), "global_announcer_active");
    assert_eq!(PiNetworkGlobalAnnouncer::enforce_announcement_integrity(broken), "announcement_enforced");
}

#[test]
fn global_announcer_run_global_announcer_goes_through_every_target() {
    let ledger = Ledger { sequence: 7, timestamp: 99 };
    let records = PiNetworkGlobalAnnouncer::run_global_announcer(ledger);
    let targets: Vec<&str> = records.iter().map(|r| r.announcement_type.as_str()).collect();
    assert_eq!(targets, vec!["mainnet_open", "supremacy_update", "eternal_stability"]);
    assert!(records.iter().all(|r| r.id == "announce_7" && r.timestamp == 99));
}

#[test]
fn global_announcer_get_announcer_status_reports_its_figures() {
    let status = PiNetworkGlobalAnnouncer::get_announcer_status();
    assert_eq!(status.get("announcements_made"), Some(50));
    assert_eq!(status.get("global_reach"), Some(100));
    assert_eq!(status.get("announcer_eternal"), Some(100));
    assert_eq!(status.get("missing"), None);
}

#[test]
fn global_announcer_update_announcer_rules_accepts_every_rule() {
    assert_eq!(PiNetworkGlobalAnnouncer::update_announcer_rules("new_rule".to_string()), Ok("updated".to_string()));
    assert_eq!(PiNetworkGlobalAnnouncer::update_announcer_rules(String::new()), Ok("updated".to_string()));
}

#[test]
fn global_announcer_render_announcer_hologram_shows_the_record() {
    let ledger = Ledger { sequence: 3, timestamp: 4 };
    let record = PiNetworkGlobalAnnouncer::make_global_announcement(ledger, "subject".to_string());
    assert_eq!(
        PiNetworkGlobalAnnouncer::render_announcer_hologram(record),
        vec![
            "Global Announcer Hologram".to_string(),
            "subject".to_string(),
            "Globally Announced: true".to_string(),
            "Reach Level: 100".to_string(),
        ]
    );
}

#[test]
fn hyper_oracle_records_are_named_after_the_ledger() {
    let ledger = Ledger { sequence: 42, timestamp: 1700000000 };
    let record = PiNetworkHyperOracle::fetch_oracle_feed(ledger, "subject".to_string());
    assert_eq!(record.id, "feed_42");
    assert_eq!(record.data_type, "subject");
    assert!(record.oracle_verified);
    assert_eq!(record.feed_accuracy, 100);
    assert_eq!(record.timestamp, 1700000000);
}

#[test]
fn hyper_oracle_enforce_oracle_integrity_answers_by_the_record() {
    let ledger = Ledger { sequence: 1, timestamp: 2 };
    let sound = PiNetworkHyperOracle::fetch_oracle_feed(ledger, "subject".to_string());
    let mut broken = sound.clone();
    broken.oracle_verified = false;
    assert_eq!(PiNetworkHyperOracle::enforce_oracle_integrity(sound), "hyper_oracle_active");
    assert_eq!(PiNetworkHyperOracle::enforce_oracle_integrity(broken), "oracle_enforced");
}

#[test]
fn hyper_oracle_run_hyper_oracle_goes_through_every_target() {
    let ledger = Ledger { sequence: 7, timestamp: 99 };
    let records = PiNetworkHyperOracle::run_hyper_oracle(ledger);
    let targets: Vec<&str> = records.iter().map(|r| r.data_type.as_str()).collect();
    assert_eq!(targets, vec!["transaction", "compliance", "stability"]);
    assert!(records.iter().all(|r| r.id == "feed_7" && r.timestamp == 99));
}

#[test]
fn hyper_oracle_get_oracle_status_reports_its_figures() {
    let status = PiNetworkHyperOracle::get_oracle_status();
    assert_eq!(status.get("feeds_provided"), Some(50));
    assert_eq!(status.get("oracle_accuracy"), Some(100));
    assert_eq!(status.get("oracle_eternal"), Some(100));
    assert_eq!(status.get("missing"), None);
}

#[test]
fn hyper_oracle_update_oracle_rules_accepts_every_rule() {
    assert_eq!(PiNetworkHyperOracle::update_oracle_rules("new_rule".to_string()), Ok("updated".to_string()));
    assert_eq!(PiNetworkHyperOracle::update_oracle_rules(String::new()), Ok("updated".to_string()));
}

#[test]
fn hyper_oracle_render_oracle_hologram_shows_the_record() {
    let ledger = Ledger { sequence: 3, timestamp: 4 };
    let record = PiNetworkHyperOracle::fetch_oracle_feed(ledger, "subject".to_string());
    assert_eq!(
        PiNetworkHyperOracle::render_oracle_hologram(record),
        vec![
            "Hyper Oracle Hologram".to_string(),
            "subject".to_string(),
            "Verified: true".to_string(),
            "Accuracy: 100".to_string(),
        ]
    );
}

#[test]
fn mainnet_trigger_records_are_named_after_the_ledger() {
    let ledger = Ledger { sequence: 42, timestamp: 1700000000 };
    let record = PiNetworkMainnetTrigger::trigger_mainnet_phase(ledger, "subject".to_string());
    assert_eq!(record.id, "trigger_42");
    assert_eq!(record.trigger_phase, "subject");
    assert!(record.mainnet_triggered);
    assert_eq!(record.trigger_level, 100);
    assert_eq!(record.timestamp, 1700000000);
}

#[test]
fn mainnet_trigger_enforce_trigger_integrity_answers_by_the_record() {
    let ledger = Ledger { sequence: 1, timestamp: 2 };
    let sound = PiNetworkMainnetTrigger::trigger_mainnet_phase(ledger, "subject".to_string());
    let mut broken = sound.clone();
    broken.mainnet_triggered = false;
    assert_eq!(PiNetworkMainnetTrigger::enforce_trigger_integrity(sound), "mainnet_trigger_active");
    assert_eq!(PiNetworkMainnetTrigger::enforce_trigger_integrity(broken), "trigger_enforced");
}

#[test]
fn mainnet_trigger_run_mainnet_trigger_goes_through_every_target() {
    let ledger = Ledger { sequence: 7, timestamp: 99 };
    let records = PiNetworkMainnetTrigger::run_mainnet_trigger(ledger);
    let targets: Vec<&str> = records.iter().map(|r| r.trigger_phase.as_str()).collect();
    assert_eq!(targets, vec!["initiate", "activate", "finalize"]);
    assert!(records.iter().all(|r| r.id == "trigger_7" && r.timestamp == 99));
}

#[test]
fn mainnet_trigger_get_trigger_status_reports_its_figures() {
    let status = PiNetworkMainnetTrigger::get_trigger_status();
    assert_eq!(status.get("phases_triggered"), Some(50));
    assert_eq!(status.get("mainnet_trigger"), Some(100));
    assert_eq!(status.get("trigger_eternal"), Some(100));
    assert_eq!(status.get("missing"), None);
}

#[test]
fn mainnet_trigger_update_trigger_rules_accepts_every_rule() {
    assert_eq!(PiNetworkMainnetTrigger::update_trigger_rules("new_rule".to_string()), Ok("updated".to_string()));
    assert_eq!(PiNetworkMainnetTrigger::update_trigger_rules(String::new()), Ok("updated".to_string()));
}

#[test]
fn mainnet_trigger_render_trigger_hologram_shows_the_record() {
    let ledger = Ledger { sequence: 3, timestamp: 4 };
    let record = PiNetworkMainnetTrigger::trigger_mainnet_phase(ledger, "subject".to_string());
    assert_eq!(
        PiNetworkMainnetTrigger::render_trigger_hologram(record),
        vec![
            "Mainnet Trigger Hologram".to_string(),
            "subject".to_string(),
            "Mainnet Triggered: true".to_string(),
            "Trigger Level: 100".to_string(),
        ]
    );
}

#[test]
fn quantum_security_network_records_are_named_after_the_ledger() {
    let ledger = Ledger { sequence: 42, timestamp: 1700000000 };
    let record = PiNetworkQuantumSecurityNetwork::secure_network_phase(ledger, "subject".to_string());
    assert_eq!(record.id, "secure_42");
    assert_eq!(record.security_phase, "subject");
    assert!(record.quantum_secured);
    assert_eq!(record.security_level, 100);
    assert_eq!(record.timestamp, 1700000000);
}

#[test]
fn quantum_security_network_enforce_network_security_answers_by_the_record() {
    let ledger = Ledger { sequence: 1, timestamp: 2 };
    let sound = PiNetworkQuantumSecurityNetwork::secure_network_phase(ledger, "subject".to_string());
    let mut broken = sound.clone();
    broken.quantum_secured = false;
    assert_eq!(PiNetworkQuantumSecurityNetwork::enforce_network_security(sound), "quantum_security_active");
    assert_eq!(PiNetworkQuantumSecurityNetwork::enforce_network_security(broken), "network_security_enforced");
}

#[test]
fn quantum_security_network_run_quantum_security_network_goes_through_every_target() {
    let ledger = Ledger { sequence: 7, timestamp: 99 };
    let records = PiNetworkQuantumSecurityNetwork::run_quantum_security_network(ledger);
    let targets: Vec<&str> = records.iter().map(|r| r.security_phase.as_str()).collect();
    assert_eq!(targets, vec!["encryption", "defense", "monitoring"]);
    assert!(records.iter().all(|r| r.id == "secure_7" && r.timestamp == 99));
}

#[test]
fn quantum_security_network_get_network_status_reports_its_figures() {
    let status = PiNetworkQuantumSecurityNetwork::get_network_status();
    assert_eq!(status.get("phases_secured"), Some(50));
    assert_eq!(status.get("quantum_resistance"), Some(100));
    assert_eq!(status.get("network_eternal"), Some(100));
    assert_eq!(status.get("missing"), None);
}

#[test]
fn quantum_security_network_update_network_rules_accepts_every_rule() {
    assert_eq!(PiNetworkQuantumSecurityNetwork::update_network_rules("new_rule".to_string()), Ok("updated".to_string()));
    assert_eq!(PiNetworkQuantumSecurityNetwork::update_network_rules(String::new()), Ok("updated".to_string()));
}

#[test]
fn quantum_security_network_render_network_hologram_shows_the_record() {
    let ledger = Ledger { sequence: 3, timestamp: 4 };
    let record = PiNetworkQuantumSecurityNetwork::secure_network_phase(ledger, "subject".to_string());
    assert_eq!(
        PiNetworkQuantumSecurityNetwork::render_network_hologram(record),
        vec![
            "Quantum Security Network Hologram".to_string(),
            "subject".to_string(),
            "Quantum Secured: true".to_string(),
            "Security Level: 100".to_string(),
        ]
    );
}

#[test]
fn super_advanced_evolution_engine_records_are_named_after_the_ledger() {
    let ledger = Ledger { sequence: 42, timestamp: 1700000000 };
    let record = PiNetworkSuperAdvancedEvolutionEngine::adapt_evolution_aspect(ledger, "subject".to_string());
    assert_eq!(record.id, "evolution_42");
    assert_eq!(record.evolution_aspect, "subject");
    assert!(record.super_evolved);
    assert_eq!(record.evolution_level, 100);
    assert_eq!(record.timestamp, 1700000000);
}

#[test]
fn super_advanced_evolution_engine_enforce_evolution_integrity_answers_by_the_record() {
    let ledger = Ledger { sequence: 1, timestamp: 2 };
    let sound = PiNetworkSuperAdvancedEvolutionEngine::adapt_evolution_aspect(ledger, "subject".to_string());
    let mut broken = sound.clone();
    broken.super_evolved = false;
    assert_eq!(PiNetworkSuperAdvancedEvolutionEngine::enforce_evolution_integrity(sound), "super_advanced_evolution_active");
    assert_eq!(PiNetworkSuperAdvancedEvolutionEngine::enforce_evolution_integrity(broken), "evolution_integrity_enforced");
}

#[test]
fn super_advanced_evolution_engine_run_super_advanced_evolution_engine_goes_through_every_target() {
    let ledger = Ledger { sequence: 7, timestamp: 99 };
    let records = PiNetworkSuperAdvancedEvolutionEngine::run_super_advanced_evolution_engine(ledger);
    let targets: Vec<&str> = records.iter().map(|r| r.evolution_aspect.as_str()).collect();
    assert_eq!(targets, vec!["intelligence", "scalability", "supremacy"]);
    assert!(records.iter().all(|r| r.id == "evolution_7" && r.timestamp == 99));
}

#[test]
fn super_advanced_evolution_engine_generate_super_advanced_evolution_report_is_fixed() {
    assert_eq!(PiNetworkSuperAdvancedEvolutionEngine::generate_super_advanced_evolution_report(), "Super Advanced Evolution Achieved: Intelligence 100%, Scalability 100%, Supremacy 100%");
}

#[test]
fn super_advanced_evolution_engine_get_evolution_status_reports_its_figures() {
    let status = PiNetworkSuperAdvancedEvolutionEngine::get_evolution_status();
    assert_eq!(status.get("aspects_evolved"), Some(50));
    assert_eq!(status.get("super_evolution"), Some(100));
    assert_eq!(status.get("evolution_eternal"), Some(100));
    assert_eq!(status.get("missing"), None);
}

#[test]
fn super_advanced_evolution_engine_update_evolution_rules_accepts_every_rule() {
    assert_eq!(PiNetworkSuperAdvancedEvolutionEngine::update_evolution_rules("new_rule".to_string()), Ok("updated".to_string()));
    assert_eq!(PiNetworkSuperAdvancedEvolutionEngine::update_evolution_rules(String::new()), Ok("updated".to_string()));
}

#[test]
fn super_advanced_evolution_engine_render_evolution_hologram_shows_the_record() {
    let ledger = Ledger { sequence: 3, timestamp: 4 };
    let record = PiNetworkSuperAdvancedEvolutionEngine::adapt_evolution_aspect(ledger, "subject".to_string());
    assert_eq!(
        PiNetworkSuperAdvancedEvolutionEngine::render_evolution_hologram(record),
        vec![
            "Super Advanced Evolution Engine Hologram".to_string(),
            "subject".to_string(),
            "Super Evolved: true".to_string(),
            "Evolution Level: 100".to_string(),
        ]
    );
}

#[test]
fn super_intelligence_core_records_are_named_after_the_ledger() {
    let ledger = Ledger { sequence: 42, timestamp: 1700000000 };
    let record = PiNetworkSuperIntelligenceCore::process_super_intelligent_decision(ledger, "subject".to_string());
    assert_eq!(record.id, "intelligence_42");
    assert_eq!(record.decision_aspect, "subject");
    assert!(record.super_intelligent);
    assert_eq!(record.intelligence_level, 100);
    assert_eq!(record.timestamp, 1700000000);
}

#[test]
fn super_intelligence_core_enforce_intelligence_integrity_answers_by_the_record() {
    let ledger = Ledger { sequence: 1, timestamp: 2 };
    let sound = PiNetworkSuperIntelligenceCore::process_super_intelligent_decision(ledger, "subject".to_string());
    let mut broken = sound.clone();
    broken.super_intelligent = false;
    assert_eq!(PiNetworkSuperIntelligenceCore::enforce_intelligence_integrity(sound), "super_intelligence_active");
    assert_eq!(PiNetworkSuperIntelligenceCore::enforce_intelligence_integrity(broken), "intelligence_integrity_enforced");
}

#[test]
fn super_intelligence_core_run_super_intelligence_core_goes_through_every_target() {
    let ledger = Ledger { sequence: 7, timestamp: 99 };
    let records = PiNetworkSuperIntelligenceCore::run_super_intelligence_core(ledger);
    let targets: Vec<&str> = records.iter().map(|r| r.decision_aspect.as_str()).collect();
    assert_eq!(targets, vec!["strategy", "optimization", "supremacy"]);
    assert!(records.iter().all(|r| r.id == "intelligence_7" && r.timestamp == 99));
}

#[test]
fn super_intelligence_core_generate_super_intelligence_report_is_fixed() {
    assert_eq!(PiNetworkSuperIntelligenceCore::generate_super_intelligence_report(), "Super Intelligence Achieved: Strategy 100%, Optimization 100%, Supremacy 100%");
}

#[test]
fn super_intelligence_core_get_intelligence_status_reports_its_figures() {
    let status = PiNetworkSuperIntelligenceCore::get_intelligence_status();
    assert_eq!(status.get("decisions_processed"), Some(50));
    assert_eq!(status.get("super_intelligence"), Some(100));
    assert_eq!(status.get("intelligence_eternal"), Some(100));
    assert_eq!(status.get("missing"), None);
}

#[test]
fn super_intelligence_core_update_intelligence_rules_accepts_every_rule() {
    assert_eq!(PiNetworkSuperIntelligenceCore::update_intelligence_rules("new_rule".to_string()), Ok("updated".to_string()));
    assert_eq!(PiNetworkSuperIntelligenceCore::update_intelligence_rules(String::new()), Ok("updated".to_string()));
}

#[test]
fn super_intelligence_core_render_intelligence_hologram_shows_the_record() {
    let ledger = Ledger { sequence: 3, timestamp: 4 };
    let record = PiNetworkSuperIntelligenceCore::process_super_intelligent_decision(ledger, "subject".to_string());
    assert_eq!(
        PiNetworkSuperIntelligenceCore::render_intelligence_hologram(record),
        vec![
            "Super Intelligence Core Hologram".to_string(),
            "subject".to_string(),
            "Super Intelligent: true".to_string(),
            "Intelligence Level: 100".to_string(),
        ]
    );
}

#[test]
fn ultimate_perfection_module_records_are_named_after_the_ledger() {
    let ledger = Ledger { sequence: 42, timestamp: 1700000000 };
    let record = PiNetworkUltimatePerfectionModule::optimize_to_perfection(ledger, "subject".to_string());
    assert_eq!(record.id, "perfection_42");
    assert_eq!(record.perfection_aspect, "subject");
    assert!(record.perfectly_optimized);
    assert_eq!(record.perfection_level, 100);
    assert_eq!(record.timestamp, 1700000000);
}

#[test]
fn ultimate_perfection_module_enforce_perfection_integrity_answers_by_the_record() {
    let ledger = Ledger { sequence: 1, timestamp: 2 };
    let sound = PiNetworkUltimatePerfectionModule::optimize_to_perfection(ledger, "subject".to_string());
    let mut broken = sound.clone();
    broken.perfectly_optimized = false;
    assert_eq!(PiNetworkUltimatePerfectionModule::enforce_perfection_integrity(sound), "ultimate_perfection_active");
    assert_eq!(PiNetworkUltimatePerfectionModule::enforce_perfection_integrity(broken), "perfection_integrity_enforced");
}

#[test]
fn ultimate_perfection_module_run_ultimate_perfection_module_goes_through_every_target() {
    let ledger = Ledger { sequence: 7, timestamp: 99 };
    let records = PiNetworkUltimatePerfectionModule::run_ultimate_perfection_module(ledger);
    let targets: Vec<&str> = records.iter().map(|r| r.perfection_aspect.as_str()).collect();
    assert_eq!(targets, vec!["efficiency", "flawlessness", "supremacy"]);
    assert!(records.iter().all(|r| r.id == "perfection_7" && r.timestamp == 99));
}

#[test]
fn ultimate_perfection_module_generate_ultimate_perfection_report_is_fixed() {
    assert_eq!(PiNetworkUltimatePerfectionModule::generate_ultimate_perfection_report(), "Ultimate Perfection Achieved: Efficiency 100%, Flawlessness 100%, Supremacy 100%");
}

#[test]
fn ultimate_perfection_module_get_perfection_status_reports_its_figures() {
    let status = PiNetworkUltimatePerfectionModule::get_perfection_status();
    assert_eq!(status.get("aspects_perfected"), Some(50));
    assert_eq!(status.get("ultimate_perfection"), Some(100));
    assert_eq!(status.get("perfection_eternal"), Some(100));
    assert_eq!(status.get("missing"), None);
}

#[test]
fn ultimate_perfection_module_update_perfection_rules_accepts_every_rule() {
    assert_eq!(PiNetworkUltimatePerfectionModule::update_perfection_rules("new_rule".to_string()), Ok("updated".to_string()));
    assert_eq!(PiNetworkUltimatePerfectionModule::update_perfection_rules(String::new()), Ok("updated".to_string()));
}

#[test]
fn ultimate_perfection_module_render_perfection_hologram_shows_the_record() {
    let ledger = Ledger { sequence: 3, timestamp: 4 };
    let record = PiNetworkUltimatePerfectionModule::optimize_to_perfection(ledger, "subject".to_string());
    assert_eq!(
        PiNetworkUltimatePerfectionModule::render_perfection_hologram(record),
        vec![
            "Ultimate Perfection Module Hologram".to_string(),
            "subject".to_string(),
            "Perfectly Optimized: true".to_string(),
            "Perfection Level: 100".to_string(),
        ]
    );
}
