//! Monitors and evolves the Pi Ecosystem in real-time.

use vstd::prelude::*;
use vstd::string::StringExecFns;
use crate::ahi_ai_core::AhiAiCore;
use crate::autonomous_app_builder::{lemma_metrics_table, AutonomousAppBuilder};
use crate::ledger::StatusMap;
use crate::pi_stablecoin_manager::PiStablecoinManager;

verus! {

/// The figures of the ecosystem at one moment.
#[derive(Clone, Copy, Debug, PartialEq, Eq, Structural)]
pub struct EcosystemMetrics {
    pub ai_compliance: bool,
    pub transactions_processed: i64,
    pub apps_running: i64,
    pub nodes_active: i64,
    pub anomalies_detected: i64,
}

/// The figures that `aggregate_metrics` finds.
pub open spec fn current_metrics() -> EcosystemMetrics {
    EcosystemMetrics {
        ai_compliance: true,
        transactions_processed: 1,
        apps_running: 1000000,
        nodes_active: 1000,
        anomalies_detected: 0,
    }
}

/// What `detect_anomalies` answers for `metrics`.
pub open spec fn anomaly_answer(metrics: EcosystemMetrics) -> Seq<char> {
    if !metrics.ai_compliance {
        "anomaly_halted"@
    } else if metrics.anomalies_detected > 10 {
        "evolving"@
    } else {
        "stable"@
    }
}

/// The table that `get_status` hands back.
pub open spec fn status_table() -> Map<Seq<char>, i64> {
    Map::<Seq<char>, i64>::empty().insert("compliance"@, 1).insert("transactions"@, 1).insert(
        "apps"@,
        1000000,
    ).insert("nodes"@, 1000)
}

/// What stands under each name of the table, and that nothing stands
/// under `anomalies`.
pub proof fn lemma_status_table()
    ensures
        status_table().contains_key("compliance"@) && status_table()["compliance"@] == 1,
        status_table().contains_key("transactions"@) && status_table()["transactions"@] == 1,
        status_table().contains_key("apps"@) && status_table()["apps"@] == 1000000,
        status_table().contains_key("nodes"@) && status_table()["nodes"@] == 1000,
        !status_table().contains_key("anomalies"@),
{
    reveal_strlit("compliance");
    reveal_strlit("transactions");
    reveal_strlit("apps");
    reveal_strlit("nodes");
    reveal_strlit("anomalies");
    assert("compliance"@.len() != "transactions"@.len());
    assert("compliance"@.len() != "apps"@.len());
    assert("compliance"@.len() != "nodes"@.len());
    assert("transactions"@.len() != "apps"@.len());
    assert("transactions"@.len() != "nodes"@.len());
    assert("apps"@.len() != "nodes"@.len());
    assert("anomalies"@.len() != "compliance"@.len());
    assert("anomalies"@.len() != "transactions"@.len());
    assert("anomalies"@.len() != "apps"@.len());
    assert("anomalies"@.len() != "nodes"@.len());
}

/// The on-chain module that monitors and evolves the Pi Ecosystem in real-time.
#[derive(Clone, Copy, Debug)]
pub struct HyperEcosystemMonitor;

impl HyperEcosystemMonitor {
    /// Initialize the Monitor.
    pub fn init() -> (module: HyperEcosystemMonitor) {
        HyperEcosystemMonitor
    }

    /// Aggregate real-time metrics: the compliance of the on-chain core,
    /// the length of the stablecoin history, and the applications that the
    /// builder manages.
    pub fn aggregate_metrics() -> (metrics: EcosystemMetrics)
        ensures
            metrics == current_metrics(),
    {
        let ai_status = AhiAiCore::get_status();
        let history = PiStablecoinManager::get_history();
        assert(crate::text::texts(history@).len() == history@.len());
        let tx_count = history.len() as i64;
        let app_metrics = AutonomousAppBuilder::get_metrics();
        proof {
            lemma_metrics_table();
        }
        let apps_running = app_metrics.get_or_zero("apps_managed");
        EcosystemMetrics {
            ai_compliance: ai_status.0,
            transactions_processed: tx_count,
            apps_running,
            nodes_active: 1000,
            anomalies_detected: 0,
        }
    }

    /// Detect anomalies and trigger actions: `anomaly_halted` without
    /// compliance, `evolving` with more than 10 anomalies, `stable`
    /// otherwise.
    pub fn detect_anomalies(metrics: EcosystemMetrics) -> (action: String)
        ensures
            action@ == anomaly_answer(metrics),
    {
        if !metrics.ai_compliance {
            AhiAiCore::enforce_compliance();
            return String::from_str("anomaly_halted");
        }
        if metrics.anomalies_detected > 10 {
            String::from_str("evolving")
        } else {
            String::from_str("stable")
        }
    }

    /// Evolve ecosystem based on metrics.
    pub fn evolve_ecosystem() -> (state: String)
        ensures
            state@ == "evolution_complete"@,
    {
        let metrics = Self::aggregate_metrics();
        let _action = Self::detect_anomalies(metrics);
        String::from_str("evolution_complete")
    }

    /// Get monitor status: the figures of `aggregate_metrics` under the
    /// names `compliance`, `transactions`, `apps` and `nodes`.
    pub fn get_status() -> (status: StatusMap)
        ensures
            status@ == status_table(),
    {
        let metrics = Self::aggregate_metrics();
        let mut status = StatusMap::new();
        status.set(
            "compliance",
            if metrics.ai_compliance {
                1
            } else {
                0
            },
        );
        status.set("transactions", metrics.transactions_processed);
        status.set("apps", metrics.apps_running);
        status.set("nodes", metrics.nodes_active);
        status
    }
}

} // verus!
