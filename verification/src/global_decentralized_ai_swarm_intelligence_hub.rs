//! Coordinates global AI swarms for decentralized intelligence in the Pi
//! Ecosystem.

use vstd::prelude::*;
use vstd::string::StringExecFns;
use crate::ahi_ai_core::{answer_texts, AhiAiCore};
use crate::ledger::{flag_line, flag_text, number_line, number_text, record_id, record_name};
use crate::ledger::{Ledger, StatusMap};
use crate::pi_mainnet_integration_real_time_synchronization::lemma_synchronization_status_table;
use crate::pi_mainnet_integration_real_time_synchronization::PiMainnetIntegrationRealTimeSynchronization;
use crate::text::texts;

verus! {

/// A swarm intelligence, as `coordinate_swarm_intelligence` records it.
#[derive(Clone, Debug)]
pub struct SwarmIntelligence {
    pub id: String,
    pub swarm_task: String,
    pub consensus_reached: bool,
    pub intelligence_score: i64,
    pub swarm_size: i64,
    pub timestamp: u64,
}

/// Whether `intelligence` is the record that `coordinate_swarm_intelligence`
/// makes in `ledger`.
pub open spec fn fresh_swarm_intelligence(
    intelligence: SwarmIntelligence,
    ledger: Ledger,
    task: Seq<char>,
) -> bool {
    &&& intelligence.id@ == record_name("swarm_"@, ledger.sequence)
    &&& intelligence.swarm_task@ == task
    &&& intelligence.consensus_reached
    &&& intelligence.intelligence_score == 100
    &&& intelligence.swarm_size == 1000000
    &&& intelligence.timestamp == ledger.timestamp
}

/// What `optimize_via_swarm` goes through, in this order.
pub open spec fn optimize_via_swarm_targets() -> Seq<Seq<char>> {
    seq![
        "optimize_transactions"@,
        "predict_threats"@,
        "scale_apps"@,
        "secure_mainnet"@,
    ]
}

/// The table that `get_swarm_status` hands back.
pub open spec fn swarm_status_table() -> Map<Seq<char>, i64> {
    Map::<Seq<char>, i64>::empty()
        .insert("active_swarms"@, 50)
        .insert("consensus_rate"@, 100)
        .insert("intelligence_level"@, 100)
}

/// What stands under each name of the table.
pub proof fn lemma_swarm_status_table()
    ensures
        swarm_status_table().contains_key("active_swarms"@),
        swarm_status_table()["active_swarms"@] == 50,
        swarm_status_table().contains_key("consensus_rate"@),
        swarm_status_table()["consensus_rate"@] == 100,
        swarm_status_table().contains_key("intelligence_level"@),
        swarm_status_table()["intelligence_level"@] == 100,
{
    reveal_strlit("active_swarms");
    reveal_strlit("consensus_rate");
    reveal_strlit("intelligence_level");
    assert("active_swarms"@.len() != "consensus_rate"@.len());
    assert("active_swarms"@.len() != "intelligence_level"@.len());
    assert("consensus_rate"@.len() != "intelligence_level"@.len());
}

/// The on-chain module that coordinates global AI swarms for decentralized
/// intelligence in the Pi Ecosystem.
#[derive(Clone, Copy, Debug)]
pub struct GlobalDecentralizedAiSwarmIntelligenceHub;

impl GlobalDecentralizedAiSwarmIntelligenceHub {
    /// Initialize the Swarm Hub.
    pub fn init() -> (module: GlobalDecentralizedAiSwarmIntelligenceHub) {
        GlobalDecentralizedAiSwarmIntelligenceHub
    }

    /// Coordinate swarm intelligence. The record is named `swarm_` and the
    /// number of the ledger, and carries the time of the ledger.
    pub fn coordinate_swarm_intelligence(ledger: Ledger, task: String) -> (intelligence:
        SwarmIntelligence)
        ensures
            fresh_swarm_intelligence(intelligence, ledger, task@),
    {
        SwarmIntelligence {
            id: record_id("swarm_", ledger.sequence),
            swarm_task: task,
            consensus_reached: true,
            intelligence_score: 100,
            swarm_size: 1000000,
            timestamp: ledger.timestamp,
        }
    }

    /// Enforce swarm integrity. The answer is `integrity_enforced` where
    /// `consensus_reached` does not hold, and `swarm_intelligence_active`
    /// otherwise.
    pub fn enforce_swarm_integrity(intelligence: SwarmIntelligence) -> (state: String)
        ensures
            state@ == (if !intelligence.consensus_reached {
                "integrity_enforced"@
            } else {
                "swarm_intelligence_active"@
            }),
    {
        if !intelligence.consensus_reached {
            AhiAiCore::enforce_compliance();
            String::from_str("integrity_enforced")
        } else {
            String::from_str("swarm_intelligence_active")
        }
    }

    /// Optimize ecosystem via swarm. One record for each of the 4 names of
    /// `optimize_via_swarm_targets`, in their order.
    pub fn optimize_via_swarm(ledger: Ledger) -> (intelligences: Vec<SwarmIntelligence>)
        ensures
            intelligences@.len() == optimize_via_swarm_targets().len(),
            forall|i: int|
                0 <= i < intelligences@.len() ==> fresh_swarm_intelligence(
                    #[trigger] intelligences@[i],
                    ledger,
                    optimize_via_swarm_targets()[i],
                ),
    {
        let mut intelligences: Vec<SwarmIntelligence> = Vec::new();
        intelligences.push(Self::coordinate_swarm_intelligence(
            ledger,
            String::from_str("optimize_transactions"),
        ));
        intelligences.push(Self::coordinate_swarm_intelligence(
            ledger,
            String::from_str("predict_threats"),
        ));
        intelligences.push(Self::coordinate_swarm_intelligence(
            ledger,
            String::from_str("scale_apps"),
        ));
        intelligences.push(Self::coordinate_swarm_intelligence(
            ledger,
            String::from_str("secure_mainnet"),
        ));
        intelligences
    }

    /// Get swarm status.
    pub fn get_swarm_status() -> (status: StatusMap)
        ensures
            status@ == swarm_status_table(),
    {
        let mut status = StatusMap::new();
        status.set("active_swarms", 50);
        status.set("consensus_rate", 100);
        status.set("intelligence_level", 100);
        status
    }

    /// Update swarm rules. The rule is accepted while `mainnet_integration`
    /// stands at 100 in the table of
    /// `PiMainnetIntegrationRealTimeSynchronization::get_synchronization_status`,
    /// which it always does.
    pub fn update_swarm_rules(new_rule: String) -> (r: Result<String, String>)
        ensures
            answer_texts(r) == Ok::<Seq<char>, Seq<char>>("updated"@),
    {
        let sync_status = PiMainnetIntegrationRealTimeSynchronization::get_synchronization_status();
        proof {
            lemma_synchronization_status_table();
        }
        if sync_status.get_or_zero("mainnet_integration") == 100 {
            Ok(String::from_str("updated"))
        } else {
            Err(String::from_str("update_rejected"))
        }
    }

    /// Render swarm intelligence hologram. The lines come in the order in which
    /// they are shown.
    pub fn render_swarm_hologram(intelligence: SwarmIntelligence) -> (hologram: Vec<String>)
        ensures
            texts(hologram@) == seq![
                "Decentralized Swarm Intelligence Hologram"@,
                intelligence.swarm_task@,
                flag_text("Consensus: "@, intelligence.consensus_reached),
                number_text("Intelligence Score: "@, intelligence.intelligence_score),
                number_text("Swarm Size: "@, intelligence.swarm_size),
            ],
    {
        let mut hologram: Vec<String> = Vec::new();
        hologram.push(String::from_str("Decentralized Swarm Intelligence Hologram"));
        hologram.push(intelligence.swarm_task);
        hologram.push(flag_line("Consensus: ", intelligence.consensus_reached));
        hologram.push(number_line("Intelligence Score: ", intelligence.intelligence_score));
        hologram.push(number_line("Swarm Size: ", intelligence.swarm_size));
        assert(texts(hologram@) == seq![
            "Decentralized Swarm Intelligence Hologram"@,
            intelligence.swarm_task@,
            flag_text("Consensus: "@, intelligence.consensus_reached),
            number_text("Intelligence Score: "@, intelligence.intelligence_score),
            number_text("Swarm Size: "@, intelligence.swarm_size),
        ]);
        hologram
    }
}

} // verus!
