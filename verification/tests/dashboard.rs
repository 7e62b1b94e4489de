use hyper_core::developer_app_orchestrator::{DeveloperAppOrchestrator, APP_PI_COST};
use hyper_core::ecosystem_isolation_shield::EcosystemIsolationShield;
use hyper_core::hyper_ai_core::{AutonomousHyperAI, ComplianceReply};
use hyper_core::pi_ecosystem_dashboard::{
    AIInsights, AppOverview, IsolationReport, MainnetStatus, PiEcosystemDashboardModule,
    TransactionSummary,
};
use hyper_core::pi_mainnet_accelerator::PiMainnetAccelerator;
use hyper_core::pi_transaction_engine::{PITransactionEngine, PITransactionType};
use hyper_core::super_app_controller::SuperAppController;

fn controller() -> SuperAppController {
    SuperAppController::new(
        AutonomousHyperAI::new(),
        PITransactionEngine::new(),
        PiMainnetAccelerator::new(),
        EcosystemIsolationShield::new(),
        DeveloperAppOrchestrator::new(),
    )
}

fn params(list: &[&str]) -> Vec<String> {
    list.iter().map(|p| p.to_string()).collect()
}

#[test]
fn the_dashboard_of_a_fresh_system() {
    let c = controller();
    let dashboard = PiEcosystemDashboardModule::new().generate_dashboard_at(&c, 1700000000);
    assert_eq!(dashboard.timestamp, 1700000000);
    assert_eq!(dashboard.ai_insights, AIInsights { compliance_rate: 100, volatility_filtered: 0 });
    assert_eq!(
        dashboard.transaction_summary,
        TransactionSummary { total_transactions: 0, pi_volume: 0 }
    );
    assert_eq!(dashboard.mainnet_status, MainnetStatus { nodes_active: 1000, progress: 0 });
    assert_eq!(
        dashboard.isolation_report,
        IsolationReport { events_quarantined: 0, threats_rejected: 0 }
    );
    assert_eq!(dashboard.app_overview, AppOverview { apps_running: 0, pi_consumed: 0 });
    assert_eq!(dashboard.evolutionary_suggestions, vec!["Accelerate mainnet syncing.".to_string()]);
    assert!(dashboard.controller_status.status.active);
}

#[test]
fn the_dashboard_of_a_busy_system() {
    let mut c = controller();
    assert_eq!(c.run_super_app(ComplianceReply::Answer(true)), Ok(()));
    assert!(c.start_apps(ComplianceReply::Answer(true)).is_ok());
    for i in 0..3 {
        assert!(c
            .execute_command("deploy_app", params(&[&format!("dev_{i}"), "Stable PI code"]))
            .is_ok());
    }
    assert!(c.execute_command("isolate_data", params(&["blockchain bridge"])).is_err());
    assert!(c.execute_command("isolate_data", params(&["Ethereum gateway"])).is_err());
    for (i, amount) in ["1500000", "2500000", "314159000000"].iter().enumerate() {
        let sender = format!("miner_{i}");
        let proof = c
            .tx_engine()
            .generate_source_proof(&PITransactionType::MiningReward, &sender);
        assert_eq!(
            c.execute_command(
                "process_transaction",
                params(&[&format!("tx_{i}"), &sender, "dev", amount, "MiningReward", &proof, "7"]),
            ),
            Ok("Transaction processed.".to_string())
        );
    }
    c.run_processor();

    let dashboard = PiEcosystemDashboardModule::new().generate_dashboard_at(&c, 42);
    assert_eq!(dashboard.timestamp, 42);
    assert_eq!(dashboard.ai_insights, AIInsights { compliance_rate: 100, volatility_filtered: 2 });
    assert_eq!(
        dashboard.transaction_summary,
        TransactionSummary { total_transactions: 3, pi_volume: 314_163_000_000 }
    );
    assert_eq!(dashboard.mainnet_status, MainnetStatus { nodes_active: 1000, progress: 100 });
    assert_eq!(
        dashboard.isolation_report,
        IsolationReport { events_quarantined: 2, threats_rejected: 2 }
    );
    assert_eq!(
        dashboard.app_overview,
        AppOverview { apps_running: 3, pi_consumed: 3 * APP_PI_COST as u128 }
    );
    assert_eq!(
        dashboard.evolutionary_suggestions,
        vec!["Strengthen isolation patterns.".to_string()]
    );
    assert_eq!(dashboard.controller_status.transactions_count, 3);
    assert_eq!(dashboard.controller_status.apps_managed, 3);
    assert_eq!(dashboard.controller_status.isolation_events_count, 2);
    assert_eq!(dashboard.controller_status.recent_events.len(), 1);
}

#[test]
fn the_dashboard_after_a_halt() {
    let mut c = controller();
    assert_eq!(c.run_super_app(ComplianceReply::Answer(true)), Ok(()));
    assert!(c.monitor());
    assert_eq!(c.evolve(ComplianceReply::Answer(false)), Ok(()));
    assert!(!c.monitor());
    let dashboard = PiEcosystemDashboardModule::new().generate_dashboard(&c);
    assert!(dashboard.timestamp > 1_577_836_800);
    assert_eq!(dashboard.ai_insights.compliance_rate, 0);
    assert!(!dashboard.controller_status.status.active);
    assert!(dashboard.controller_status.stellar_halted);
    assert!(dashboard.evolutionary_suggestions.is_empty());
}
