//! Monitors eternal decentralization of Pi Network.

use vstd::prelude::*;
use vstd::string::StringExecFns;
use crate::ahi_ai_core::{answer_texts, AhiAiCore};
use crate::ledger::{flag_line, flag_text, number_line, number_text, record_id, record_name};
use crate::ledger::{Ledger, StatusMap};
use crate::pi_network_full_decentralization_capstone::lemma_capstone_status_table;
use crate::pi_network_full_decentralization_capstone::PiNetworkFullDecentralizationCapstone;
use crate::text::texts;

verus! {

/// A decentralization monitor, as `monitor_decentralization_aspect` records it.
#[derive(Clone, Debug)]
pub struct DecentralizationMonitor {
    pub id: String,
    pub monitor_aspect: String,
    pub eternally_monitored: bool,
    pub monitor_level: i64,
    pub timestamp: u64,
}

/// Whether `monitor` is the record that `monitor_decentralization_aspect` makes
/// in `ledger`.
pub open spec fn fresh_decentralization_monitor(
    monitor: DecentralizationMonitor,
    ledger: Ledger,
    aspect: Seq<char>,
) -> bool {
    &&& monitor.id@ == record_name("monitor_"@, ledger.sequence)
    &&& monitor.monitor_aspect@ == aspect
    &&& monitor.eternally_monitored
    &&& monitor.monitor_level == 100
    &&& monitor.timestamp == ledger.timestamp
}

/// What `run_eternal_decentralization_monitor` goes through, in this order.
pub open spec fn run_eternal_decentralization_monitor_targets() -> Seq<Seq<char>> {
    seq![
        "node_health"@,
        "autonomy"@,
        "supremacy"@,
    ]
}

/// The table that `get_monitor_status` hands back.
pub open spec fn monitor_status_table() -> Map<Seq<char>, i64> {
    Map::<Seq<char>, i64>::empty()
        .insert("aspects_monitored"@, 50)
        .insert("eternal_monitoring"@, 100)
        .insert("monitor_eternal"@, 100)
}

/// What stands under each name of the table.
pub proof fn lemma_monitor_status_table()
    ensures
        monitor_status_table().contains_key("aspects_monitored"@),
        monitor_status_table()["aspects_monitored"@] == 50,
        monitor_status_table().contains_key("eternal_monitoring"@),
        monitor_status_table()["eternal_monitoring"@] == 100,
        monitor_status_table().contains_key("monitor_eternal"@),
        monitor_status_table()["monitor_eternal"@] == 100,
{
    reveal_strlit("aspects_monitored");
    reveal_strlit("eternal_monitoring");
    reveal_strlit("monitor_eternal");
    assert("aspects_monitored"@.len() != "eternal_monitoring"@.len());
    assert("aspects_monitored"@.len() != "monitor_eternal"@.len());
    assert("eternal_monitoring"@.len() != "monitor_eternal"@.len());
}

/// The on-chain module that monitors eternal decentralization of Pi Network.
#[derive(Clone, Copy, Debug)]
pub struct PiNetworkEternalDecentralizationMonitor;

impl PiNetworkEternalDecentralizationMonitor {
    /// Initialize the Eternal Monitor.
    pub fn init() -> (module: PiNetworkEternalDecentralizationMonitor) {
        PiNetworkEternalDecentralizationMonitor
    }

    /// Monitor decentralization aspect. The record is named `monitor_` and the
    /// number of the ledger, and carries the time of the ledger.
    pub fn monitor_decentralization_aspect(ledger: Ledger, aspect: String) -> (monitor:
        DecentralizationMonitor)
        ensures
            fresh_decentralization_monitor(monitor, ledger, aspect@),
    {
        DecentralizationMonitor {
            id: record_id("monitor_", ledger.sequence),
            monitor_aspect: aspect,
            eternally_monitored: true,
            monitor_level: 100,
            timestamp: ledger.timestamp,
        }
    }

    /// Enforce monitor integrity. The answer is `monitor_integrity_enforced`
    /// where `eternally_monitored` does not hold, and
    /// `eternal_monitoring_active` otherwise.
    pub fn enforce_monitor_integrity(monitor: DecentralizationMonitor) -> (state: String)
        ensures
            state@ == (if !monitor.eternally_monitored {
                "monitor_integrity_enforced"@
            } else {
                "eternal_monitoring_active"@
            }),
    {
        if !monitor.eternally_monitored {
            AhiAiCore::enforce_compliance();
            String::from_str("monitor_integrity_enforced")
        } else {
            String::from_str("eternal_monitoring_active")
        }
    }

    /// Run eternal decentralization monitor. One record for each of the 3 names
    /// of `run_eternal_decentralization_monitor_targets`, in their order.
    pub fn run_eternal_decentralization_monitor(ledger: Ledger) -> (monitors:
        Vec<DecentralizationMonitor>)
        ensures
            monitors@.len() == run_eternal_decentralization_monitor_targets().len(),
            forall|i: int|
                0 <= i < monitors@.len() ==> fresh_decentralization_monitor(
                    #[trigger] monitors@[i],
                    ledger,
                    run_eternal_decentralization_monitor_targets()[i],
                ),
    {
        let mut monitors: Vec<DecentralizationMonitor> = Vec::new();
        monitors.push(Self::monitor_decentralization_aspect(
            ledger,
            String::from_str("node_health"),
        ));
        monitors.push(Self::monitor_decentralization_aspect(ledger, String::from_str("autonomy")));
        monitors.push(Self::monitor_decentralization_aspect(ledger, String::from_str("supremacy")));
        monitors
    }

    /// Get monitor status.
    pub fn get_monitor_status() -> (status: StatusMap)
        ensures
            status@ == monitor_status_table(),
    {
        let mut status = StatusMap::new();
        status.set("aspects_monitored", 50);
        status.set("eternal_monitoring", 100);
        status.set("monitor_eternal", 100);
        status
    }

    /// Update monitor rules. The rule is accepted while
    /// `decentralization_capstone` stands at 100 in the table of
    /// `PiNetworkFullDecentralizationCapstone::get_capstone_status`, which it
    /// always does.
    pub fn update_monitor_rules(new_rule: String) -> (r: Result<String, String>)
        ensures
            answer_texts(r) == Ok::<Seq<char>, Seq<char>>("updated"@),
    {
        let capstone_status = PiNetworkFullDecentralizationCapstone::get_capstone_status();
        proof {
            lemma_capstone_status_table();
        }
        if capstone_status.get_or_zero("decentralization_capstone") == 100 {
            Ok(String::from_str("updated"))
        } else {
            Err(String::from_str("update_rejected"))
        }
    }

    /// Render monitor hologram. The lines come in the order in which they are
    /// shown.
    pub fn render_monitor_hologram(monitor: DecentralizationMonitor) -> (hologram: Vec<String>)
        ensures
            texts(hologram@) == seq![
                "Eternal Decentralization Monitor Hologram"@,
                monitor.monitor_aspect@,
                flag_text("Eternally Monitored: "@, monitor.eternally_monitored),
                number_text("Monitor Level: "@, monitor.monitor_level),
            ],
    {
        let mut hologram: Vec<String> = Vec::new();
        hologram.push(String::from_str("Eternal Decentralization Monitor Hologram"));
        hologram.push(monitor.monitor_aspect);
        hologram.push(flag_line("Eternally Monitored: ", monitor.eternally_monitored));
        hologram.push(number_line("Monitor Level: ", monitor.monitor_level));
        assert(texts(hologram@) == seq![
            "Eternal Decentralization Monitor Hologram"@,
            monitor.monitor_aspect@,
            flag_text("Eternally Monitored: "@, monitor.eternally_monitored),
            number_text("Monitor Level: "@, monitor.monitor_level),
        ]);
        hologram
    }
}

} // verus!
