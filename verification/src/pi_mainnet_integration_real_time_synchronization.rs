//! Enables real-time synchronization with Pi mainnet for eternal integration.

use vstd::prelude::*;
use vstd::string::StringExecFns;
use crate::ahi_ai_core::{answer_texts, AhiAiCore};
use crate::ledger::{record_id, record_name, Ledger, StatusMap};
use crate::quantum_ai_optimizer_predictive_maintenance::lemma_optimization_status_table;
use crate::quantum_ai_optimizer_predictive_maintenance::QuantumAiOptimizerPredictiveMaintenance;
use crate::text::{push_signed_decimal, signed_decimal, str_equal, texts};

verus! {

/// A synchronization event, as `synchronize_real_time` records it.
#[derive(Clone, Debug)]
pub struct SynchronizationEvent {
    pub id: String,
    pub synced_component: String,
    pub sync_status: String,
    pub real_time_latency: i64,
    pub timestamp: u64,
}

/// Whether `event` is the record that `synchronize_real_time` makes in
/// `ledger`.
pub open spec fn fresh_synchronization_event(
    event: SynchronizationEvent,
    ledger: Ledger,
    component: Seq<char>,
) -> bool {
    &&& event.id@ == record_name("sync_"@, ledger.sequence)
    &&& event.synced_component@ == component
    &&& event.sync_status@ == "synced"@
    &&& event.real_time_latency == 1
    &&& event.timestamp == ledger.timestamp
}

/// What `synchronize_entire_ecosystem` goes through, in this order.
pub open spec fn synchronize_entire_ecosystem_targets() -> Seq<Seq<char>> {
    seq![
        "transactions"@,
        "apps"@,
        "nodes"@,
        "security_layers"@,
        "governance"@,
    ]
}

/// The table that `get_synchronization_status` hands back.
pub open spec fn synchronization_status_table() -> Map<Seq<char>, i64> {
    Map::<Seq<char>, i64>::empty()
        .insert("components_synced"@, 50)
        .insert("real_time_latency"@, 1)
        .insert("mainnet_integration"@, 100)
}

/// What stands under each name of the table.
pub proof fn lemma_synchronization_status_table()
    ensures
        synchronization_status_table().contains_key("components_synced"@),
        synchronization_status_table()["components_synced"@] == 50,
        synchronization_status_table().contains_key("real_time_latency"@),
        synchronization_status_table()["real_time_latency"@] == 1,
        synchronization_status_table().contains_key("mainnet_integration"@),
        synchronization_status_table()["mainnet_integration"@] == 100,
{
    reveal_strlit("components_synced");
    reveal_strlit("real_time_latency");
    reveal_strlit("mainnet_integration");
    assert("components_synced"@[0] != "real_time_latency"@[0]);
    assert("components_synced"@.len() != "mainnet_integration"@.len());
    assert("real_time_latency"@.len() != "mainnet_integration"@.len());
}

/// The on-chain module that enables real-time synchronization with Pi mainnet
/// for eternal integration.
#[derive(Clone, Copy, Debug)]
pub struct PiMainnetIntegrationRealTimeSynchronization;

impl PiMainnetIntegrationRealTimeSynchronization {
    /// Initialize the Synchronization Module.
    pub fn init() -> (module: PiMainnetIntegrationRealTimeSynchronization) {
        PiMainnetIntegrationRealTimeSynchronization
    }

    /// Synchronize component in real-time. The record is named `sync_` and the
    /// number of the ledger, and carries the time of the ledger.
    pub fn synchronize_real_time(ledger: Ledger, component: String) -> (event: SynchronizationEvent)
        ensures
            fresh_synchronization_event(event, ledger, component@),
    {
        SynchronizationEvent {
            id: record_id("sync_", ledger.sequence),
            synced_component: component,
            sync_status: String::from_str("synced"),
            real_time_latency: 1,
            timestamp: ledger.timestamp,
        }
    }

    /// Enforce synchronization integrity. The answer is `integrity_enforced`
    /// where `sync_status` is `desynced`, and `integrity_maintained` otherwise.
    pub fn enforce_synchronization_integrity(event: SynchronizationEvent) -> (state: String)
        ensures
            state@ == (if event.sync_status@ == "desynced"@ {
                "integrity_enforced"@
            } else {
                "integrity_maintained"@
            }),
    {
        if str_equal(event.sync_status.as_str(), "desynced") {
            AhiAiCore::enforce_compliance();
            String::from_str("integrity_enforced")
        } else {
            String::from_str("integrity_maintained")
        }
    }

    /// Synchronize entire ecosystem with mainnet. One record for each of the 5
    /// names of `synchronize_entire_ecosystem_targets`, in their order.
    pub fn synchronize_entire_ecosystem(ledger: Ledger) -> (events: Vec<SynchronizationEvent>)
        ensures
            events@.len() == synchronize_entire_ecosystem_targets().len(),
            forall|i: int|
                0 <= i < events@.len() ==> fresh_synchronization_event(
                    #[trigger] events@[i],
                    ledger,
                    synchronize_entire_ecosystem_targets()[i],
                ),
    {
        let mut events: Vec<SynchronizationEvent> = Vec::new();
        events.push(Self::synchronize_real_time(ledger, String::from_str("transactions")));
        events.push(Self::synchronize_real_time(ledger, String::from_str("apps")));
        events.push(Self::synchronize_real_time(ledger, String::from_str("nodes")));
        events.push(Self::synchronize_real_time(ledger, String::from_str("security_layers")));
        events.push(Self::synchronize_real_time(ledger, String::from_str("governance")));
        events
    }

    /// Get synchronization status.
    pub fn get_synchronization_status() -> (status: StatusMap)
        ensures
            status@ == synchronization_status_table(),
    {
        let mut status = StatusMap::new();
        status.set("components_synced", 50);
        status.set("real_time_latency", 1);
        status.set("mainnet_integration", 100);
        status
    }

    /// Update synchronization rules. The rule is accepted while
    /// `predictive_accuracy` stands at 100 in the table of
    /// `QuantumAiOptimizerPredictiveMaintenance::get_optimization_status`,
    /// which it always does.
    pub fn update_synchronization_rules(new_rule: String) -> (r: Result<String, String>)
        ensures
            answer_texts(r) == Ok::<Seq<char>, Seq<char>>("updated"@),
    {
        let opt_status = QuantumAiOptimizerPredictiveMaintenance::get_optimization_status();
        proof {
            lemma_optimization_status_table();
        }
        if opt_status.get_or_zero("predictive_accuracy") == 100 {
            Ok(String::from_str("updated"))
        } else {
            Err(String::from_str("update_rejected"))
        }
    }

    /// Render synchronization hologram: a title, the component, its state,
    /// and the latency in milliseconds.
    pub fn render_synchronization_hologram(event: SynchronizationEvent) -> (hologram: Vec<String>)
        ensures
            texts(hologram@) == seq![
                "Real-Time Synchronization Hologram"@,
                event.synced_component@,
                event.sync_status@,
                "Latency: "@ + signed_decimal(event.real_time_latency as int) + "ms"@,
            ],
    {
        let mut latency = String::from_str("Latency: ");
        push_signed_decimal(&mut latency, event.real_time_latency);
        latency.append("ms");
        let mut hologram: Vec<String> = Vec::new();
        hologram.push(String::from_str("Real-Time Synchronization Hologram"));
        hologram.push(event.synced_component);
        hologram.push(event.sync_status);
        hologram.push(latency);
        assert(texts(hologram@) == seq![
            "Real-Time Synchronization Hologram"@,
            event.synced_component@,
            event.sync_status@,
            "Latency: "@ + signed_decimal(event.real_time_latency as int) + "ms"@,
        ]);
        hologram
    }
}

} // verus!
