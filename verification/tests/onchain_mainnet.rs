use hyper_core::ledger::Ledger;
use hyper_core::final_pi_mainnet_supremacy_global_domination::FinalPiMainnetSupremacyGlobalDomination;
use hyper_core::pi_mainnet_integration_real_time_synchronization::PiMainnetIntegrationRealTimeSynchronization;
use hyper_core::pi_mainnet_launch_governance_protocol::PiMainnetLaunchGovernanceProtocol;
use hyper_core::ultimate_pi_mainnet_activation_eternal_stability::UltimatePiMainnetActivationEternalStability;
use hyper_core::ultimate_pi_mainnet_enabler::UltimatePiMainnetEnabler;

#[test]
fn pi_mainnet_supremacy_global_domination_records_are_named_after_the_ledger() {
    let ledger = Ledger { sequence: 42, timestamp: 1700000000 };
    let record = FinalPiMainnetSupremacyGlobalDomination::dominate_globally(ledger, "subject".to_string());
    assert_eq!(record.id, "domination_42");
    assert_eq!(record.domination_target, "subject");
    assert!(record.supremacy_achieved);
    assert_eq!(record.domination_score, 100);
    assert_eq!(record.timestamp, 1700000000);
}

#[test]
fn pi_mainnet_supremacy_global_domination_enforce_supremacy_domination_answers_by_the_record() {
    let ledger = Ledger { sequence: 1, timestamp: 2 };
    let sound = FinalPiMainnetSupremacyGlobalDomination::dominate_globally(ledger, "subject".to_string());
    let mut broken = sound.clone();
    broken.supremacy_achieved = false;
    assert_eq!(FinalPiMainnetSupremacyGlobalDomination::enforce_supremacy_domination(sound), "global_supremacy_active");
    assert_eq!(FinalPiMainnetSupremacyGlobalDomination::enforce_supremacy_domination(broken), "domination_enforced");
}

#[test]
fn pi_mainnet_supremacy_global_domination_achieve_final_global_domination_goes_through_every_target() {
    let ledger = Ledger { sequence: 7, timestamp: 99 };
    let records = FinalPiMainnetSupremacyGlobalDomination::achieve_final_global_domination(ledger);
    let targets: Vec<&str> = records.iter().map(|r| r.domination_target.as_str()).collect();
    assert_eq!(targets, vec!["global_network", "external_blockchains", "volatile_economies"]);
    assert!(records.iter().all(|r| r.id == "domination_7" && r.timestamp == 99));
}

#[test]
fn pi_mainnet_supremacy_global_domination_get_domination_status_reports_its_figures() {
    let status = FinalPiMainnetSupremacyGlobalDomination::get_domination_status();
    assert_eq!(status.get("targets_dominated"), Some(50));
    assert_eq!(status.get("global_supremacy"), Some(100));
    assert_eq!(status.get("domination_eternal"), Some(100));
    assert_eq!(status.get("missing"), None);
}

#[test]
fn pi_mainnet_supremacy_global_domination_update_domination_rules_accepts_every_rule() {
    assert_eq!(FinalPiMainnetSupremacyGlobalDomination::update_domination_rules("new_rule".to_string()), Ok("updated".to_string()));
    assert_eq!(FinalPiMainnetSupremacyGlobalDomination::update_domination_rules(String::new()), Ok("updated".to_string()));
}

#[test]
fn pi_mainnet_supremacy_global_domination_render_domination_hologram_shows_the_record() {
    let ledger = Ledger { sequence: 3, timestamp: 4 };
    let record = FinalPiMainnetSupremacyGlobalDomination::dominate_globally(ledger, "subject".to_string());
    assert_eq!(
        FinalPiMainnetSupremacyGlobalDomination::render_domination_hologram(record),
        vec![
            "Global Domination Hologram".to_string(),
            "subject".to_string(),
            "Supremacy Achieved: true".to_string(),
            "Domination Score: 100".to_string(),
        ]
    );
}

#[test]
fn integration_real_time_synchronization_records_are_named_after_the_ledger() {
    let ledger = Ledger { sequence: 42, timestamp: 1700000000 };
    let record = PiMainnetIntegrationRealTimeSynchronization::synchronize_real_time(ledger, "subject".to_string());
    assert_eq!(record.id, "sync_42");
    assert_eq!(record.synced_component, "subject");
    assert_eq!(record.sync_status, "synced");
    assert_eq!(record.real_time_latency, 1);
    assert_eq!(record.timestamp, 1700000000);
}

#[test]
fn integration_real_time_synchronization_enforce_synchronization_integrity_answers_by_the_record() {
    let ledger = Ledger { sequence: 1, timestamp: 2 };
    let sound = PiMainnetIntegrationRealTimeSynchronization::synchronize_real_time(ledger, "subject".to_string());
    let mut broken = sound.clone();
    broken.sync_status = "desynced".to_string();
    assert_eq!(PiMainnetIntegrationRealTimeSynchronization::enforce_synchronization_integrity(sound), "integrity_maintained");
    assert_eq!(PiMainnetIntegrationRealTimeSynchronization::enforce_synchronization_integrity(broken), "integrity_enforced");
}

#[test]
fn integration_real_time_synchronization_synchronize_entire_ecosystem_goes_through_every_target() {
    let ledger = Ledger { sequence: 7, timestamp: 99 };
    let records = PiMainnetIntegrationRealTimeSynchronization::synchronize_entire_ecosystem(ledger);
    let targets: Vec<&str> = records.iter().map(|r| r.synced_component.as_str()).collect();
    assert_eq!(targets, vec!["transactions", "apps", "nodes", "security_layers", "governance"]);
    assert!(records.iter().all(|r| r.id == "sync_7" && r.timestamp == 99));
}

#[test]
fn integration_real_time_synchronization_get_synchronization_status_reports_its_figures() {
    let status = PiMainnetIntegrationRealTimeSynchronization::get_synchronization_status();
    assert_eq!(status.get("components_synced"), Some(50));
    assert_eq!(status.get("real_time_latency"), Some(1));
    assert_eq!(status.get("mainnet_integration"), Some(100));
    assert_eq!(status.get("missing"), None);
}

#[test]
fn integration_real_time_synchronization_update_synchronization_rules_accepts_every_rule() {
    assert_eq!(PiMainnetIntegrationRealTimeSynchronization::update_synchronization_rules("new_rule".to_string()), Ok("updated".to_string()));
    assert_eq!(PiMainnetIntegrationRealTimeSynchronization::update_synchronization_rules(String::new()), Ok("updated".to_string()));
}

#[test]
fn launch_governance_protocol_records_are_named_after_the_ledger() {
    let ledger = Ledger { sequence: 42, timestamp: 1700000000 };
    let record = PiMainnetLaunchGovernanceProtocol::submit_vote_proposal(ledger, "subject".to_string());
    assert_eq!(record.id, "proposal_42");
    assert_eq!(record.proposal_type, "subject");
    assert_eq!(record.votes_for, 1000000);
    assert_eq!(record.votes_against, 0);
    assert!(record.approved);
    assert_eq!(record.timestamp, 1700000000);
}

#[test]
fn launch_governance_protocol_enforce_governance_protocol_answers_by_the_record() {
    let ledger = Ledger { sequence: 1, timestamp: 2 };
    let sound = PiMainnetLaunchGovernanceProtocol::submit_vote_proposal(ledger, "subject".to_string());
    let mut broken = sound.clone();
    broken.approved = false;
    assert_eq!(PiMainnetLaunchGovernanceProtocol::enforce_governance_protocol(sound), "governance_active");
    assert_eq!(PiMainnetLaunchGovernanceProtocol::enforce_governance_protocol(broken), "protocol_enforced");
}

#[test]
fn launch_governance_protocol_launch_mainnet_via_governance_goes_through_every_target() {
    let ledger = Ledger { sequence: 7, timestamp: 99 };
    let records = PiMainnetLaunchGovernanceProtocol::launch_mainnet_via_governance(ledger);
    let targets: Vec<&str> = records.iter().map(|r| r.proposal_type.as_str()).collect();
    assert_eq!(targets, vec!["activate_mainnet", "sync_nodes", "enforce_pi_exclusivity"]);
    assert!(records.iter().all(|r| r.id == "proposal_7" && r.timestamp == 99));
}

#[test]
fn launch_governance_protocol_get_governance_status_reports_its_figures() {
    let status = PiMainnetLaunchGovernanceProtocol::get_governance_status();
    assert_eq!(status.get("proposals_approved"), Some(50));
    assert_eq!(status.get("mainnet_launch_progress"), Some(100));
    assert_eq!(status.get("governance_integrity"), Some(100));
    assert_eq!(status.get("missing"), None);
}

#[test]
fn launch_governance_protocol_update_governance_rules_accepts_every_rule() {
    assert_eq!(PiMainnetLaunchGovernanceProtocol::update_governance_rules("new_rule".to_string()), Ok("updated".to_string()));
    assert_eq!(PiMainnetLaunchGovernanceProtocol::update_governance_rules(String::new()), Ok("updated".to_string()));
}

#[test]
fn launch_governance_protocol_render_governance_hologram_shows_the_record() {
    let ledger = Ledger { sequence: 3, timestamp: 4 };
    let record = PiMainnetLaunchGovernanceProtocol::submit_vote_proposal(ledger, "subject".to_string());
    assert_eq!(
        PiMainnetLaunchGovernanceProtocol::render_governance_hologram(record),
        vec![
            "Mainnet Governance Hologram".to_string(),
            "subject".to_string(),
            "Approved: true".to_string(),
            "Votes For: 1000000".to_string(),
        ]
    );
}

#[test]
fn pi_mainnet_activation_eternal_stability_records_are_named_after_the_ledger() {
    let ledger = Ledger { sequence: 42, timestamp: 1700000000 };
    let record = UltimatePiMainnetActivationEternalStability::activate_mainnet_phase(ledger, "subject".to_string());
    assert_eq!(record.id, "activation_42");
    assert_eq!(record.activation_phase, "subject");
    assert_eq!(record.stability_score, 100);
    assert!(record.eternal_active);
    assert_eq!(record.timestamp, 1700000000);
}

#[test]
fn pi_mainnet_activation_eternal_stability_enforce_eternal_stability_answers_by_the_record() {
    let ledger = Ledger { sequence: 1, timestamp: 2 };
    let sound = UltimatePiMainnetActivationEternalStability::activate_mainnet_phase(ledger, "subject".to_string());
    let mut broken = sound.clone();
    broken.eternal_active = false;
    assert_eq!(UltimatePiMainnetActivationEternalStability::enforce_eternal_stability(sound), "eternal_stability_active");
    assert_eq!(UltimatePiMainnetActivationEternalStability::enforce_eternal_stability(broken), "stability_enforced");
}

#[test]
fn pi_mainnet_activation_eternal_stability_fully_activate_pi_mainnet_goes_through_every_target() {
    let ledger = Ledger { sequence: 7, timestamp: 99 };
    let records = UltimatePiMainnetActivationEternalStability::fully_activate_pi_mainnet(ledger);
    let targets: Vec<&str> = records.iter().map(|r| r.activation_phase.as_str()).collect();
    assert_eq!(targets, vec!["governance_launch", "swarm_sync", "eternal_stabilization"]);
    assert!(records.iter().all(|r| r.id == "activation_7" && r.timestamp == 99));
}

#[test]
fn pi_mainnet_activation_eternal_stability_get_activation_status_reports_its_figures() {
    let status = UltimatePiMainnetActivationEternalStability::get_activation_status();
    assert_eq!(status.get("phases_activated"), Some(50));
    assert_eq!(status.get("eternal_stability"), Some(100));
    assert_eq!(status.get("mainnet_supremacy"), Some(100));
    assert_eq!(status.get("missing"), None);
}

#[test]
fn pi_mainnet_activation_eternal_stability_update_activation_rules_accepts_every_rule() {
    assert_eq!(UltimatePiMainnetActivationEternalStability::update_activation_rules("new_rule".to_string()), Ok("updated".to_string()));
    assert_eq!(UltimatePiMainnetActivationEternalStability::update_activation_rules(String::new()), Ok("updated".to_string()));
}

#[test]
fn pi_mainnet_activation_eternal_stability_render_activation_hologram_shows_the_record() {
    let ledger = Ledger { sequence: 3, timestamp: 4 };
    let record = UltimatePiMainnetActivationEternalStability::activate_mainnet_phase(ledger, "subject".to_string());
    assert_eq!(
        UltimatePiMainnetActivationEternalStability::render_activation_hologram(record),
        vec![
            "Ultimate Activation Hologram".to_string(),
            "subject".to_string(),
            "Stability Score: 100".to_string(),
            "Eternal Active: true".to_string(),
        ]
    );
}

#[test]
fn pi_mainnet_enabler_records_are_named_after_the_ledger() {
    let ledger = Ledger { sequence: 42, timestamp: 1700000000 };
    let record = UltimatePiMainnetEnabler::enable_mainnet_phase(ledger, "subject".to_string());
    assert_eq!(record.id, "enable_42");
    assert_eq!(record.enablement_phase, "subject");
    assert!(record.mainnet_enabled);
    assert_eq!(record.enablement_level, 100);
    assert_eq!(record.timestamp, 1700000000);
}

#[test]
fn pi_mainnet_enabler_enforce_enablement_integrity_answers_by_the_record() {
    let ledger = Ledger { sequence: 1, timestamp: 2 };
    let sound = UltimatePiMainnetEnabler::enable_mainnet_phase(ledger, "subject".to_string());
    let mut broken = sound.clone();
    broken.mainnet_enabled = false;
    assert_eq!(UltimatePiMainnetEnabler::enforce_enablement_integrity(sound), "ultimate_mainnet_active");
    assert_eq!(UltimatePiMainnetEnabler::enforce_enablement_integrity(broken), "enablement_enforced");
}

#[test]
fn pi_mainnet_enabler_run_ultimate_enabler_goes_through_every_target() {
    let ledger = Ledger { sequence: 7, timestamp: 99 };
    let records = UltimatePiMainnetEnabler::run_ultimate_enabler(ledger);
    let targets: Vec<&str> = records.iter().map(|r| r.enablement_phase.as_str()).collect();
    assert_eq!(targets, vec!["activation", "sync", "stabilization"]);
    assert!(records.iter().all(|r| r.id == "enable_7" && r.timestamp == 99));
}

#[test]
fn pi_mainnet_enabler_get_enabler_status_reports_its_figures() {
    let status = UltimatePiMainnetEnabler::get_enabler_status();
    assert_eq!(status.get("phases_enabled"), Some(50));
    assert_eq!(status.get("mainnet_enablement"), Some(100));
    assert_eq!(status.get("enabler_eternal"), Some(100));
    assert_eq!(status.get("missing"), None);
}

#[test]
fn pi_mainnet_enabler_update_enabler_rules_accepts_every_rule() {
    assert_eq!(UltimatePiMainnetEnabler::update_enabler_rules("new_rule".to_string()), Ok("updated".to_string()));
    assert_eq!(UltimatePiMainnetEnabler::update_enabler_rules(String::new()), Ok("updated".to_string()));
}

#[test]
fn pi_mainnet_enabler_render_enabler_hologram_shows_the_record() {
    let ledger = Ledger { sequence: 3, timestamp: 4 };
    let record = UltimatePiMainnetEnabler::enable_mainnet_phase(ledger, "subject".to_string());
    assert_eq!(
        UltimatePiMainnetEnabler::render_enabler_hologram(record),
        vec![
            "Ultimate Enabler Hologram".to_string(),
            "subject".to_string(),
            "Mainnet Enabled: true".to_string(),
            "Enablement Level: 100".to_string(),
        ]
    );
}
