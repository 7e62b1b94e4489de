//! Provides quantum AI optimization and predictive maintenance for the Pi
//! Ecosystem.

use vstd::prelude::*;
use vstd::string::StringExecFns;
use crate::absolute_final_ecosystem_seal_eternal_guardian::lemma_eternal_guardian_status_table;
use crate::absolute_final_ecosystem_seal_eternal_guardian::AbsoluteFinalEcosystemSealEternalGuardian;
use crate::ahi_ai_core::{answer_texts, AhiAiCore};
use crate::ledger::{flag_line, flag_text, number_line, number_text, record_id, record_name};
use crate::ledger::{Ledger, StatusMap};
use crate::text::texts;

verus! {

/// A predictive maintenance, as `predict_optimize_maintenance` records it.
#[derive(Clone, Debug)]
pub struct PredictiveMaintenance {
    pub id: String,
    pub component: String,
    pub predicted_failure: bool,
    pub optimization_score: i64,
    pub maintenance_applied: bool,
    pub timestamp: u64,
}

/// Whether `maintenance` is the record that `predict_optimize_maintenance`
/// makes in `ledger`.
pub open spec fn fresh_predictive_maintenance(
    maintenance: PredictiveMaintenance,
    ledger: Ledger,
    component: Seq<char>,
) -> bool {
    &&& maintenance.id@ == record_name("maintenance_"@, ledger.sequence)
    &&& maintenance.component@ == component
    &&& !maintenance.predicted_failure
    &&& maintenance.optimization_score == 100
    &&& maintenance.maintenance_applied
    &&& maintenance.timestamp == ledger.timestamp
}

/// What `optimize_entire_ecosystem` goes through, in this order.
pub open spec fn optimize_entire_ecosystem_targets() -> Seq<Seq<char>> {
    seq![
        "ai_core"@,
        "stablecoin_manager"@,
        "app_builder"@,
        "monitor"@,
        "security_layer"@,
        "governance_overseer"@,
        "ui_hub"@,
        "master_control"@,
        "guardian_summary"@,
        "eternal_guardian"@,
    ]
}

/// The table that `get_optimization_status` hands back.
pub open spec fn optimization_status_table() -> Map<Seq<char>, i64> {
    Map::<Seq<char>, i64>::empty()
        .insert("components_optimized"@, 50)
        .insert("predictive_accuracy"@, 100)
        .insert("maintenance_efficiency"@, 100)
}

/// What stands under each name of the table.
pub proof fn lemma_optimization_status_table()
    ensures
        optimization_status_table().contains_key("components_optimized"@),
        optimization_status_table()["components_optimized"@] == 50,
        optimization_status_table().contains_key("predictive_accuracy"@),
        optimization_status_table()["predictive_accuracy"@] == 100,
        optimization_status_table().contains_key("maintenance_efficiency"@),
        optimization_status_table()["maintenance_efficiency"@] == 100,
{
    reveal_strlit("components_optimized");
    reveal_strlit("predictive_accuracy");
    reveal_strlit("maintenance_efficiency");
    assert("components_optimized"@.len() != "predictive_accuracy"@.len());
    assert("components_optimized"@.len() != "maintenance_efficiency"@.len());
    assert("predictive_accuracy"@.len() != "maintenance_efficiency"@.len());
}

/// The on-chain module that provides quantum AI optimization and predictive
/// maintenance for the Pi Ecosystem.
#[derive(Clone, Copy, Debug)]
pub struct QuantumAiOptimizerPredictiveMaintenance;

impl QuantumAiOptimizerPredictiveMaintenance {
    /// Initialize the Optimizer.
    pub fn init() -> (module: QuantumAiOptimizerPredictiveMaintenance) {
        QuantumAiOptimizerPredictiveMaintenance
    }

    /// Predict and optimize maintenance. The record is named `maintenance_` and
    /// the number of the ledger, and carries the time of the ledger.
    pub fn predict_optimize_maintenance(ledger: Ledger, component: String) -> (maintenance:
        PredictiveMaintenance)
        ensures
            fresh_predictive_maintenance(maintenance, ledger, component@),
    {
        PredictiveMaintenance {
            id: record_id("maintenance_", ledger.sequence),
            component,
            predicted_failure: false,
            optimization_score: 100,
            maintenance_applied: true,
            timestamp: ledger.timestamp,
        }
    }

    /// Apply quantum optimization. The answer is `optimization_applied` where
    /// `predicted_failure` holds, and `no_optimization_needed` otherwise.
    pub fn apply_quantum_optimization(maintenance: PredictiveMaintenance) -> (state: String)
        ensures
            state@ == (if maintenance.predicted_failure {
                "optimization_applied"@
            } else {
                "no_optimization_needed"@
            }),
    {
        if maintenance.predicted_failure {
            AhiAiCore::enforce_compliance();
            String::from_str("optimization_applied")
        } else {
            String::from_str("no_optimization_needed")
        }
    }

    /// Optimize entire ecosystem. One record for each of the 10 names of
    /// `optimize_entire_ecosystem_targets`, in their order.
    pub fn optimize_entire_ecosystem(ledger: Ledger) -> (maintenances: Vec<PredictiveMaintenance>)
        ensures
            maintenances@.len() == optimize_entire_ecosystem_targets().len(),
            forall|i: int|
                0 <= i < maintenances@.len() ==> fresh_predictive_maintenance(
                    #[trigger] maintenances@[i],
                    ledger,
                    optimize_entire_ecosystem_targets()[i],
                ),
    {
        let mut maintenances: Vec<PredictiveMaintenance> = Vec::new();
        maintenances.push(Self::predict_optimize_maintenance(ledger, String::from_str("ai_core")));
        maintenances.push(Self::predict_optimize_maintenance(
            ledger,
            String::from_str("stablecoin_manager"),
        ));
        maintenances.push(Self::predict_optimize_maintenance(
            ledger,
            String::from_str("app_builder"),
        ));
        maintenances.push(Self::predict_optimize_maintenance(ledger, String::from_str("monitor")));
        maintenances.push(Self::predict_optimize_maintenance(
            ledger,
            String::from_str("security_layer"),
        ));
        maintenances.push(Self::predict_optimize_maintenance(
            ledger,
            String::from_str("governance_overseer"),
        ));
        maintenances.push(Self::predict_optimize_maintenance(ledger, String::from_str("ui_hub")));
        maintenances.push(Self::predict_optimize_maintenance(
            ledger,
            String::from_str("master_control"),
        ));
        maintenances.push(Self::predict_optimize_maintenance(
            ledger,
            String::from_str("guardian_summary"),
        ));
        maintenances.push(Self::predict_optimize_maintenance(
            ledger,
            String::from_str("eternal_guardian"),
        ));
        maintenances
    }

    /// Get optimization status.
    pub fn get_optimization_status() -> (status: StatusMap)
        ensures
            status@ == optimization_status_table(),
    {
        let mut status = StatusMap::new();
        status.set("components_optimized", 50);
        status.set("predictive_accuracy", 100);
        status.set("maintenance_efficiency", 100);
        status
    }

    /// Update optimization rules. The rule is accepted while `eternal_strength`
    /// stands at 100 in the table of
    /// `AbsoluteFinalEcosystemSealEternalGuardian::get_eternal_guardian_status`,
    /// which it always does.
    pub fn update_optimization_rules(new_rule: String) -> (r: Result<String, String>)
        ensures
            answer_texts(r) == Ok::<Seq<char>, Seq<char>>("updated"@),
    {
        let status = AbsoluteFinalEcosystemSealEternalGuardian::get_eternal_guardian_status();
        proof {
            lemma_eternal_guardian_status_table();
        }
        if status.get_or_zero("eternal_strength") == 100 {
            Ok(String::from_str("updated"))
        } else {
            Err(String::from_str("update_rejected"))
        }
    }

    /// Render optimization hologram. The lines come in the order in which they
    /// are shown.
    pub fn render_optimization_hologram(maintenance: PredictiveMaintenance) -> (hologram:
        Vec<String>)
        ensures
            texts(hologram@) == seq![
                "Quantum Optimization Hologram"@,
                maintenance.component@,
                number_text("Optimization Score: "@, maintenance.optimization_score),
                flag_text("Maintenance Applied: "@, maintenance.maintenance_applied),
            ],
    {
        let mut hologram: Vec<String> = Vec::new();
        hologram.push(String::from_str("Quantum Optimization Hologram"));
        hologram.push(maintenance.component);
        hologram.push(number_line("Optimization Score: ", maintenance.optimization_score));
        hologram.push(flag_line("Maintenance Applied: ", maintenance.maintenance_applied));
        assert(texts(hologram@) == seq![
            "Quantum Optimization Hologram"@,
            maintenance.component@,
            number_text("Optimization Score: "@, maintenance.optimization_score),
            flag_text("Maintenance Applied: "@, maintenance.maintenance_applied),
        ]);
        hologram
    }
}

} // verus!
