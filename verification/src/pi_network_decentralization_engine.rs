//! Drives full decentralization of Pi Network.

use vstd::prelude::*;
use vstd::string::StringExecFns;
use crate::ahi_ai_core::{answer_texts, AhiAiCore};
use crate::ledger::{flag_line, flag_text, number_line, number_text, record_id, record_name};
use crate::ledger::{Ledger, StatusMap};
use crate::pi_network_global_announcer::{lemma_announcer_status_table, PiNetworkGlobalAnnouncer};
use crate::text::texts;

verus! {

/// A decentralization event, as `drive_decentralization_phase` records it.
#[derive(Clone, Debug)]
pub struct DecentralizationEvent {
    pub id: String,
    pub decentralization_phase: String,
    pub fully_decentralized: bool,
    pub decentralization_level: i64,
    pub timestamp: u64,
}

/// Whether `event` is the record that `drive_decentralization_phase` makes in
/// `ledger`.
pub open spec fn fresh_decentralization_event(
    event: DecentralizationEvent,
    ledger: Ledger,
    phase: Seq<char>,
) -> bool {
    &&& event.id@ == record_name("decentral_"@, ledger.sequence)
    &&& event.decentralization_phase@ == phase
    &&& event.fully_decentralized
    &&& event.decentralization_level == 100
    &&& event.timestamp == ledger.timestamp
}

/// What `run_decentralization_engine` goes through, in this order.
pub open spec fn run_decentralization_engine_targets() -> Seq<Seq<char>> {
    seq![
        "node_distribution"@,
        "consensus"@,
        "autonomy"@,
    ]
}

/// The table that `get_engine_status` hands back.
pub open spec fn engine_status_table() -> Map<Seq<char>, i64> {
    Map::<Seq<char>, i64>::empty()
        .insert("phases_driven"@, 50)
        .insert("decentralization_level"@, 100)
        .insert("engine_eternal"@, 100)
}

/// What stands under each name of the table.
pub proof fn lemma_engine_status_table()
    ensures
        engine_status_table().contains_key("phases_driven"@),
        engine_status_table()["phases_driven"@] == 50,
        engine_status_table().contains_key("decentralization_level"@),
        engine_status_table()["decentralization_level"@] == 100,
        engine_status_table().contains_key("engine_eternal"@),
        engine_status_table()["engine_eternal"@] == 100,
{
    reveal_strlit("phases_driven");
    reveal_strlit("decentralization_level");
    reveal_strlit("engine_eternal");
    assert("phases_driven"@.len() != "decentralization_level"@.len());
    assert("phases_driven"@.len() != "engine_eternal"@.len());
    assert("decentralization_level"@.len() != "engine_eternal"@.len());
}

/// The on-chain module that drives full decentralization of Pi Network.
#[derive(Clone, Copy, Debug)]
pub struct PiNetworkDecentralizationEngine;

impl PiNetworkDecentralizationEngine {
    /// Initialize the Decentralization Engine.
    pub fn init() -> (module: PiNetworkDecentralizationEngine) {
        PiNetworkDecentralizationEngine
    }

    /// Drive decentralization phase. The record is named `decentral_` and the
    /// number of the ledger, and carries the time of the ledger.
    pub fn drive_decentralization_phase(ledger: Ledger, phase: String) -> (event:
        DecentralizationEvent)
        ensures
            fresh_decentralization_event(event, ledger, phase@),
    {
        DecentralizationEvent {
            id: record_id("decentral_", ledger.sequence),
            decentralization_phase: phase,
            fully_decentralized: true,
            decentralization_level: 100,
            timestamp: ledger.timestamp,
        }
    }

    /// Enforce decentralization integrity. The answer is
    /// `decentralization_enforced` where `fully_decentralized` does not hold,
    /// and `full_decentralization_active` otherwise.
    pub fn enforce_decentralization_integrity(event: DecentralizationEvent) -> (state: String)
        ensures
            state@ == (if !event.fully_decentralized {
                "decentralization_enforced"@
            } else {
                "full_decentralization_active"@
            }),
    {
        if !event.fully_decentralized {
            AhiAiCore::enforce_compliance();
            String::from_str("decentralization_enforced")
        } else {
            String::from_str("full_decentralization_active")
        }
    }

    /// Run decentralization engine. One record for each of the 3 names of
    /// `run_decentralization_engine_targets`, in their order.
    pub fn run_decentralization_engine(ledger: Ledger) -> (events: Vec<DecentralizationEvent>)
        ensures
            events@.len() == run_decentralization_engine_targets().len(),
            forall|i: int|
                0 <= i < events@.len() ==> fresh_decentralization_event(
                    #[trigger] events@[i],
                    ledger,
                    run_decentralization_engine_targets()[i],
                ),
    {
        let mut events: Vec<DecentralizationEvent> = Vec::new();
        events.push(Self::drive_decentralization_phase(
            ledger,
            String::from_str("node_distribution"),
        ));
        events.push(Self::drive_decentralization_phase(ledger, String::from_str("consensus")));
        events.push(Self::drive_decentralization_phase(ledger, String::from_str("autonomy")));
        events
    }

    /// Get engine status.
    pub fn get_engine_status() -> (status: StatusMap)
        ensures
            status@ == engine_status_table(),
    {
        let mut status = StatusMap::new();
        status.set("phases_driven", 50);
        status.set("decentralization_level", 100);
        status.set("engine_eternal", 100);
        status
    }

    /// Update engine rules. The rule is accepted while `global_reach` stands at
    /// 100 in the table of `PiNetworkGlobalAnnouncer::get_announcer_status`,
    /// which it always does.
    pub fn update_engine_rules(new_rule: String) -> (r: Result<String, String>)
        ensures
            answer_texts(r) == Ok::<Seq<char>, Seq<char>>("updated"@),
    {
        let announcer_status = PiNetworkGlobalAnnouncer::get_announcer_status();
        proof {
            lemma_announcer_status_table();
        }
        if announcer_status.get_or_zero("global_reach") == 100 {
            Ok(String::from_str("updated"))
        } else {
            Err(String::from_str("update_rejected"))
        }
    }

    /// Render engine hologram. The lines come in the order in which they are
    /// shown.
    pub fn render_engine_hologram(event: DecentralizationEvent) -> (hologram: Vec<String>)
        ensures
            texts(hologram@) == seq![
                "Decentralization Engine Hologram"@,
                event.decentralization_phase@,
                flag_text("Fully Decentralized: "@, event.fully_decentralized),
                number_text("Decentralization Level: "@, event.decentralization_level),
            ],
    {
        let mut hologram: Vec<String> = Vec::new();
        hologram.push(String::from_str("Decentralization Engine Hologram"));
        hologram.push(event.decentralization_phase);
        hologram.push(flag_line("Fully Decentralized: ", event.fully_decentralized));
        hologram.push(number_line("Decentralization Level: ", event.decentralization_level));
        assert(texts(hologram@) == seq![
            "Decentralization Engine Hologram"@,
            event.decentralization_phase@,
            flag_text("Fully Decentralized: "@, event.fully_decentralized),
            number_text("Decentralization Level: "@, event.decentralization_level),
        ]);
        hologram
    }
}

} // verus!
