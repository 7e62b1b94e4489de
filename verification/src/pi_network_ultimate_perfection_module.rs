//! Achieves ultimate perfection in Pi Network.

use vstd::prelude::*;
use vstd::string::StringExecFns;
use crate::ahi_ai_core::{answer_texts, AhiAiCore};
use crate::ledger::{flag_line, flag_text, number_line, number_text, record_id, record_name};
use crate::ledger::{Ledger, StatusMap};
use crate::pi_network_eternal_decentralization_monitor::lemma_monitor_status_table;
use crate::pi_network_eternal_decentralization_monitor::PiNetworkEternalDecentralizationMonitor;
use crate::text::texts;

verus! {

/// A perfection optimization, as `optimize_to_perfection` records it.
#[derive(Clone, Debug)]
pub struct PerfectionOptimization {
    pub id: String,
    pub perfection_aspect: String,
    pub perfectly_optimized: bool,
    pub perfection_level: i64,
    pub timestamp: u64,
}

/// Whether `optimization` is the record that `optimize_to_perfection` makes in
/// `ledger`.
pub open spec fn fresh_perfection_optimization(
    optimization: PerfectionOptimization,
    ledger: Ledger,
    aspect: Seq<char>,
) -> bool {
    &&& optimization.id@ == record_name("perfection_"@, ledger.sequence)
    &&& optimization.perfection_aspect@ == aspect
    &&& optimization.perfectly_optimized
    &&& optimization.perfection_level == 100
    &&& optimization.timestamp == ledger.timestamp
}

/// What `run_ultimate_perfection_module` goes through, in this order.
pub open spec fn run_ultimate_perfection_module_targets() -> Seq<Seq<char>> {
    seq![
        "efficiency"@,
        "flawlessness"@,
        "supremacy"@,
    ]
}

/// The table that `get_perfection_status` hands back.
pub open spec fn perfection_status_table() -> Map<Seq<char>, i64> {
    Map::<Seq<char>, i64>::empty()
        .insert("aspects_perfected"@, 50)
        .insert("ultimate_perfection"@, 100)
        .insert("perfection_eternal"@, 100)
}

/// What stands under each name of the table.
pub proof fn lemma_perfection_status_table()
    ensures
        perfection_status_table().contains_key("aspects_perfected"@),
        perfection_status_table()["aspects_perfected"@] == 50,
        perfection_status_table().contains_key("ultimate_perfection"@),
        perfection_status_table()["ultimate_perfection"@] == 100,
        perfection_status_table().contains_key("perfection_eternal"@),
        perfection_status_table()["perfection_eternal"@] == 100,
{
    reveal_strlit("aspects_perfected");
    reveal_strlit("ultimate_perfection");
    reveal_strlit("perfection_eternal");
    assert("aspects_perfected"@.len() != "ultimate_perfection"@.len());
    assert("aspects_perfected"@.len() != "perfection_eternal"@.len());
    assert("ultimate_perfection"@.len() != "perfection_eternal"@.len());
}

/// The on-chain module that achieves ultimate perfection in Pi Network.
#[derive(Clone, Copy, Debug)]
pub struct PiNetworkUltimatePerfectionModule;

impl PiNetworkUltimatePerfectionModule {
    /// Initialize the Perfection Module.
    pub fn init() -> (module: PiNetworkUltimatePerfectionModule) {
        PiNetworkUltimatePerfectionModule
    }

    /// Optimize to perfection. The record is named `perfection_` and the number
    /// of the ledger, and carries the time of the ledger.
    pub fn optimize_to_perfection(ledger: Ledger, aspect: String) -> (optimization:
        PerfectionOptimization)
        ensures
            fresh_perfection_optimization(optimization, ledger, aspect@),
    {
        PerfectionOptimization {
            id: record_id("perfection_", ledger.sequence),
            perfection_aspect: aspect,
            perfectly_optimized: true,
            perfection_level: 100,
            timestamp: ledger.timestamp,
        }
    }

    /// Enforce perfection integrity. The answer is
    /// `perfection_integrity_enforced` where `perfectly_optimized` does not
    /// hold, and `ultimate_perfection_active` otherwise.
    pub fn enforce_perfection_integrity(optimization: PerfectionOptimization) -> (state: String)
        ensures
            state@ == (if !optimization.perfectly_optimized {
                "perfection_integrity_enforced"@
            } else {
                "ultimate_perfection_active"@
            }),
    {
        if !optimization.perfectly_optimized {
            AhiAiCore::enforce_compliance();
            String::from_str("perfection_integrity_enforced")
        } else {
            String::from_str("ultimate_perfection_active")
        }
    }

    /// Run ultimate perfection module. One record for each of the 3 names of
    /// `run_ultimate_perfection_module_targets`, in their order.
    pub fn run_ultimate_perfection_module(ledger: Ledger) -> (optimizations:
        Vec<PerfectionOptimization>)
        ensures
            optimizations@.len() == run_ultimate_perfection_module_targets().len(),
            forall|i: int|
                0 <= i < optimizations@.len() ==> fresh_perfection_optimization(
                    #[trigger] optimizations@[i],
                    ledger,
                    run_ultimate_perfection_module_targets()[i],
                ),
    {
        let mut optimizations: Vec<PerfectionOptimization> = Vec::new();
        optimizations.push(Self::optimize_to_perfection(ledger, String::from_str("efficiency")));
        optimizations.push(Self::optimize_to_perfection(ledger, String::from_str("flawlessness")));
        optimizations.push(Self::optimize_to_perfection(ledger, String::from_str("supremacy")));
        optimizations
    }

    /// Generate ultimate perfection report.
    pub fn generate_ultimate_perfection_report() -> (report: String)
        ensures
            report@
                == "Ultimate Perfection Achieved: Efficiency 100%, Flawlessness 100%, Supremacy 100%"@,
    {
        String::from_str(
            "Ultimate Perfection Achieved: Efficiency 100%, Flawlessness 100%, Supremacy 100%",
        )
    }

    /// Get perfection status.
    pub fn get_perfection_status() -> (status: StatusMap)
        ensures
            status@ == perfection_status_table(),
    {
        let mut status = StatusMap::new();
        status.set("aspects_perfected", 50);
        status.set("ultimate_perfection", 100);
        status.set("perfection_eternal", 100);
        status
    }

    /// Update perfection rules. The rule is accepted while `eternal_monitoring`
    /// stands at 100 in the table of
    /// `PiNetworkEternalDecentralizationMonitor::get_monitor_status`, which it
    /// always does.
    pub fn update_perfection_rules(new_rule: String) -> (r: Result<String, String>)
        ensures
            answer_texts(r) == Ok::<Seq<char>, Seq<char>>("updated"@),
    {
        let monitor_status = PiNetworkEternalDecentralizationMonitor::get_monitor_status();
        proof {
            lemma_monitor_status_table();
        }
        if monitor_status.get_or_zero("eternal_monitoring") == 100 {
            Ok(String::from_str("updated"))
        } else {
            Err(String::from_str("update_rejected"))
        }
    }

    /// Render perfection hologram. The lines come in the order in which they
    /// are shown.
    pub fn render_perfection_hologram(optimization: PerfectionOptimization) -> (hologram:
        Vec<String>)
        ensures
            texts(hologram@) == seq![
                "Ultimate Perfection Module Hologram"@,
                optimization.perfection_aspect@,
                flag_text("Perfectly Optimized: "@, optimization.perfectly_optimized),
                number_text("Perfection Level: "@, optimization.perfection_level),
            ],
    {
        let mut hologram: Vec<String> = Vec::new();
        hologram.push(String::from_str("Ultimate Perfection Module Hologram"));
        hologram.push(optimization.perfection_aspect);
        hologram.push(flag_line("Perfectly Optimized: ", optimization.perfectly_optimized));
        hologram.push(number_line("Perfection Level: ", optimization.perfection_level));
        assert(texts(hologram@) == seq![
            "Ultimate Perfection Module Hologram"@,
            optimization.perfection_aspect@,
            flag_text("Perfectly Optimized: "@, optimization.perfectly_optimized),
            number_text("Perfection Level: "@, optimization.perfection_level),
        ]);
        hologram
    }
}

} // verus!
