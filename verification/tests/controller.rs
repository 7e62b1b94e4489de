use hyper_core::developer_app_orchestrator::{DeveloperAppOrchestrator, OrchestratorError};
use hyper_core::ecosystem_isolation_shield::{EcosystemIsolationShield, IsolationError};
use hyper_core::hyper_ai_core::{AutonomousHyperAI, ComplianceReply};
use hyper_core::pi_mainnet_accelerator::{AcceleratorError, PiMainnetAccelerator};
use hyper_core::pi_transaction_engine::{PITransactionEngine, PITransactionType, TransactionError};
use hyper_core::super_app_controller::{
    CommandError, CommandKind, ControllerStatus, SuperAppController, MONITOR_INTERVAL_SECS,
    RECENT_EVENTS,
};

fn controller() -> SuperAppController {
    SuperAppController::new(
        AutonomousHyperAI::new(),
        PITransactionEngine::new(),
        PiMainnetAccelerator::new(),
        EcosystemIsolationShield::new(),
        DeveloperAppOrchestrator::new(),
    )
}

fn started() -> SuperAppController {
    let mut c = controller();
    assert_eq!(c.run_super_app(ComplianceReply::Answer(true)), Ok(()));
    assert_eq!(c.start_apps(ComplianceReply::Answer(true)), Ok(Vec::new()));
    c
}

fn params(list: &[&str]) -> Vec<String> {
    list.iter().map(|p| p.to_string()).collect()
}

#[test]
fn a_new_controller_is_active() {
    let c = controller();
    let dashboard = c.get_dashboard();
    assert_eq!(
        dashboard.status,
        ControllerStatus { active: true, pi_ecosystem_stable: true, stellar_halted: false }
    );
    assert!(dashboard.ai_compliant);
    assert!(!dashboard.stellar_halted);
    assert_eq!(dashboard.transactions_count, 0);
    assert_eq!(dashboard.mainnet_progress, 0);
    assert_eq!(dashboard.apps_managed, 0);
    assert_eq!(dashboard.isolation_events_count, 0);
    assert!(dashboard.recent_events.is_empty());
    assert_eq!(MONITOR_INTERVAL_SECS, 10);
}

#[test]
fn the_start_opens_the_mainnet_and_records_it() {
    let c = started();
    let dashboard = c.get_dashboard();
    assert_eq!(dashboard.mainnet_progress, 100);
    assert_eq!(c.mainnet_accelerator().get_nodes().len(), 1000);
    assert_eq!(dashboard.recent_events.len(), 1);
    assert_eq!(dashboard.recent_events[0].event_type, "super_app_init");
    assert_eq!(dashboard.recent_events[0].details, "Super App fully operational.");
    assert_eq!(dashboard.recent_events[0].id.len(), 36);
    assert!(dashboard.recent_events[0].timestamp > 1_577_836_800);
}

#[test]
fn the_start_fails_where_the_source_fails() {
    let mut c = controller();
    assert_eq!(
        c.run_super_app(ComplianceReply::Unreachable("dns".to_string())),
        Err("API error: dns".to_string())
    );
    assert_eq!(c.mainnet_accelerator().get_nodes().len(), 0);
    assert_eq!(c.get_dashboard().recent_events.len(), 0);
}

#[test]
fn the_start_fails_where_the_network_is_not_compliant() {
    let mut c = controller();
    assert_eq!(
        c.run_super_app(ComplianceReply::Answer(false)),
        Err(AcceleratorError::NotCompliant.message())
    );
    assert_eq!(c.mainnet_accelerator().get_nodes().len(), 0);
    assert_eq!(c.ai_core().get_status(), (false, true));
}

#[test]
fn a_round_of_monitoring_goes_on_while_compliant() {
    let mut c = started();
    assert!(c.monitor());
    assert_eq!(c.evolve(ComplianceReply::Answer(true)), Ok(()));
    let dashboard = c.get_dashboard();
    assert!(dashboard.status.active);
    assert_eq!(dashboard.recent_events.len(), 2);
    assert_eq!(dashboard.recent_events[0].event_type, "evolution_cycle");
    assert_eq!(dashboard.recent_events[0].details, "Pi Network evolved successfully.");
    assert_eq!(dashboard.recent_events[1].event_type, "super_app_init");
}

#[test]
fn a_breach_halts_the_controller_for_good() {
    let mut c = started();
    assert!(c.monitor());
    // the source answers that the network is not compliant
    assert_eq!(c.evolve(ComplianceReply::Answer(false)), Ok(()));
    assert_eq!(c.ai_core().get_status(), (false, true));
    // the next round sees the breach and ends the supervision
    assert!(!c.monitor());
    let dashboard = c.get_dashboard();
    assert_eq!(
        dashboard.status,
        ControllerStatus { active: false, pi_ecosystem_stable: false, stellar_halted: true }
    );
    assert_eq!(dashboard.recent_events[0].event_type, "compliance_breach");
    assert_eq!(
        dashboard.recent_events[0].details,
        "Pi Network non-compliant; halting operations."
    );
    // a positive answer later does not bring the controller back
    assert_eq!(c.evolve(ComplianceReply::Answer(true)), Ok(()));
    assert_eq!(c.ai_core().get_status(), (false, true));
    assert!(!c.monitor());
    assert!(!c.get_dashboard().status.active);
}

#[test]
fn a_failing_source_ends_a_round_without_a_record() {
    let mut c = started();
    assert!(c.monitor());
    assert_eq!(
        c.evolve(ComplianceReply::Unreadable("eof".to_string())),
        Err("Parse error: eof".to_string())
    );
    let dashboard = c.get_dashboard();
    assert!(dashboard.status.active);
    assert_eq!(dashboard.recent_events.len(), 1);
}

#[test]
fn the_dashboard_shows_the_latest_five_events_newest_first() {
    let mut c = started();
    for _ in 0..6 {
        assert!(c.monitor());
        assert_eq!(c.evolve(ComplianceReply::Answer(true)), Ok(()));
    }
    let dashboard = c.get_dashboard();
    assert_eq!(RECENT_EVENTS, 5);
    assert_eq!(dashboard.recent_events.len(), 5);
    assert!(dashboard.recent_events.iter().all(|e| e.event_type == "evolution_cycle"));
    for pair in dashboard.recent_events.windows(2) {
        assert!(pair[0].timestamp >= pair[1].timestamp);
    }
    let ids: std::collections::HashSet<&String> =
        dashboard.recent_events.iter().map(|e| &e.id).collect();
    assert_eq!(ids.len(), 5);
}

#[test]
fn deploy_app_answers_with_the_identifier() {
    let mut c = started();
    let id = c
        .execute_command("deploy_app", params(&["dev_123", "Stable PI code"]))
        .unwrap();
    assert_eq!(id.len(), 36);
    assert_eq!(c.get_dashboard().apps_managed, 1);
    assert_eq!(c.app_orchestrator().get_apps()[0].id, id);
    assert_eq!(c.app_orchestrator().get_apps()[0].developer, "dev_123");
    assert_eq!(c.mainnet_accelerator().get_nodes()[0].apps_managed, vec![id]);
}

#[test]
fn deploy_app_needs_two_parameters() {
    let mut c = started();
    for list in [params(&[]), params(&["dev_123"])] {
        assert_eq!(
            c.execute_command("deploy_app", list),
            Err(CommandError::InvalidParams(CommandKind::DeployApp))
        );
    }
    assert_eq!(c.get_dashboard().apps_managed, 0);
}

#[test]
fn deploy_app_without_nodes_is_refused() {
    let mut c = controller();
    assert_eq!(
        c.execute_command("deploy_app", params(&["dev_123", "Stable PI code"])),
        Err(CommandError::Deploy(OrchestratorError::Assignment(AcceleratorError::NoNodes)))
    );
}

#[test]
fn isolate_data_seals_or_quarantines() {
    let mut c = controller();
    let sealed = c.execute_command("isolate_data", params(&["PI reward"])).unwrap();
    assert_eq!(sealed, c.isolation_shield().seal_data("PI reward"));
    assert_eq!(
        c.execute_command("isolate_data", params(&["Volatile crypto data"])),
        Err(CommandError::Isolation(IsolationError::Quarantined { score: 50 }))
    );
    assert_eq!(c.get_dashboard().isolation_events_count, 1);
    assert_eq!(
        c.execute_command("isolate_data", params(&[])),
        Err(CommandError::InvalidParams(CommandKind::IsolateData))
    );
}

#[test]
fn process_transaction_takes_seven_fields() {
    let mut c = controller();
    let proof = c
        .tx_engine()
        .generate_source_proof(&PITransactionType::MiningReward, "miner_1");
    let answer = c.execute_command(
        "process_transaction",
        params(&["tx_001", "miner_1", "dev_456", "100000000", "MiningReward", &proof, "1640995200"]),
    );
    assert_eq!(answer, Ok("Transaction processed.".to_string()));
    assert_eq!(c.get_dashboard().transactions_count, 0);
    c.run_processor();
    assert_eq!(c.get_dashboard().transactions_count, 1);
    let history = c.tx_engine().get_transactions();
    assert_eq!(history[0].id, "tx_001");
    assert_eq!(history[0].amount, 100_000_000);
    assert_eq!(history[0].tx_type, PITransactionType::MiningReward);
    assert_eq!(history[0].timestamp, 1640995200);
}

#[test]
fn process_transaction_reports_what_the_engine_finds() {
    let mut c = controller();
    let proof = c
        .tx_engine()
        .generate_source_proof(&PITransactionType::P2PTransfer, "alice");
    assert_eq!(
        c.execute_command(
            "process_transaction",
            params(&["tx", "alice", "bob", "-5", "P2PTransfer", &proof, "1"]),
        ),
        Err(CommandError::Transaction(TransactionError::InvalidAmount))
    );
    assert_eq!(
        c.execute_command(
            "process_transaction",
            params(&["tx", "alice", "bob", "5", "P2PTransfer", "forged", "1"]),
        ),
        Err(CommandError::Transaction(TransactionError::InvalidSourceProof))
    );
}

#[test]
fn process_transaction_refuses_what_it_cannot_read() {
    let mut c = controller();
    let bad = [
        params(&[]),
        params(&["tx", "alice", "bob", "5", "P2PTransfer", "proof"]),
        params(&["tx", "alice", "bob", "five", "P2PTransfer", "proof", "1"]),
        params(&["tx", "alice", "bob", "5", "Gift", "proof", "1"]),
        params(&["tx", "alice", "bob", "5", "P2PTransfer", "proof", "-1"]),
        params(&["tx", "alice", "bob", "5", "P2PTransfer", "proof", ""]),
    ];
    for list in bad {
        assert_eq!(
            c.execute_command("process_transaction", list),
            Err(CommandError::InvalidParams(CommandKind::ProcessTransaction))
        );
    }
    c.run_processor();
    assert_eq!(c.get_dashboard().transactions_count, 0);
}

#[test]
fn an_unknown_command_is_reported() {
    let mut c = controller();
    for name in ["", "deploy", "DEPLOY_APP", "halt_app", "deploy_app "] {
        assert_eq!(
            c.execute_command(name, params(&["a", "b"])),
            Err(CommandError::UnknownCommand)
        );
    }
    assert_eq!(CommandError::UnknownCommand.message(), "Unknown command.");
    assert_eq!(
        CommandError::InvalidParams(CommandKind::DeployApp).message(),
        "Invalid params for deploy_app."
    );
    assert_eq!(
        CommandError::InvalidParams(CommandKind::ProcessTransaction).message(),
        "Invalid params for process_transaction."
    );
    assert_eq!(
        CommandError::InvalidParams(CommandKind::IsolateData).message(),
        "Invalid params for isolate_data."
    );
    assert_eq!(
        CommandError::Transaction(TransactionError::InvalidAmount).message(),
        "Invalid PI amount: must be positive and within stable limits"
    );
}

#[test]
fn commands_are_carried_out_after_a_halt() {
    let mut c = started();
    assert!(c.monitor());
    assert_eq!(c.evolve(ComplianceReply::Answer(false)), Ok(()));
    assert!(!c.monitor());
    assert!(c.execute_command("isolate_data", params(&["PI reward"])).is_ok());
    assert!(!c.get_dashboard().status.active);
}
