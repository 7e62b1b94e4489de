//! Establishes quantum-resistant security network for Pi Network.

use vstd::prelude::*;
use vstd::string::StringExecFns;
use crate::ahi_ai_core::{answer_texts, AhiAiCore};
use crate::ledger::{flag_line, flag_text, number_line, number_text, record_id, record_name};
use crate::ledger::{Ledger, StatusMap};
use crate::pi_network_decentralization_engine::lemma_engine_status_table;
use crate::pi_network_decentralization_engine::PiNetworkDecentralizationEngine;
use crate::text::texts;

verus! {

/// A security network event, as `secure_network_phase` records it.
#[derive(Clone, Debug)]
pub struct SecurityNetworkEvent {
    pub id: String,
    pub security_phase: String,
    pub quantum_secured: bool,
    pub security_level: i64,
    pub timestamp: u64,
}

/// Whether `event` is the record that `secure_network_phase` makes in `ledger`.
pub open spec fn fresh_security_network_event(
    event: SecurityNetworkEvent,
    ledger: Ledger,
    phase: Seq<char>,
) -> bool {
    &&& event.id@ == record_name("secure_"@, ledger.sequence)
    &&& event.security_phase@ == phase
    &&& event.quantum_secured
    &&& event.security_level == 100
    &&& event.timestamp == ledger.timestamp
}

/// What `run_quantum_security_network` goes through, in this order.
pub open spec fn run_quantum_security_network_targets() -> Seq<Seq<char>> {
    seq![
        "encryption"@,
        "defense"@,
        "monitoring"@,
    ]
}

/// The table that `get_network_status` hands back.
pub open spec fn network_status_table() -> Map<Seq<char>, i64> {
    Map::<Seq<char>, i64>::empty()
        .insert("phases_secured"@, 50)
        .insert("quantum_resistance"@, 100)
        .insert("network_eternal"@, 100)
}

/// What stands under each name of the table.
pub proof fn lemma_network_status_table()
    ensures
        network_status_table().contains_key("phases_secured"@),
        network_status_table()["phases_secured"@] == 50,
        network_status_table().contains_key("quantum_resistance"@),
        network_status_table()["quantum_resistance"@] == 100,
        network_status_table().contains_key("network_eternal"@),
        network_status_table()["network_eternal"@] == 100,
{
    reveal_strlit("phases_secured");
    reveal_strlit("quantum_resistance");
    reveal_strlit("network_eternal");
    assert("phases_secured"@.len() != "quantum_resistance"@.len());
    assert("phases_secured"@.len() != "network_eternal"@.len());
    assert("quantum_resistance"@.len() != "network_eternal"@.len());
}

/// The on-chain module that establishes quantum-resistant security network for
/// Pi Network.
#[derive(Clone, Copy, Debug)]
pub struct PiNetworkQuantumSecurityNetwork;

impl PiNetworkQuantumSecurityNetwork {
    /// Initialize the Quantum Security Network.
    pub fn init() -> (module: PiNetworkQuantumSecurityNetwork) {
        PiNetworkQuantumSecurityNetwork
    }

    /// Secure network phase. The record is named `secure_` and the number of
    /// the ledger, and carries the time of the ledger.
    pub fn secure_network_phase(ledger: Ledger, phase: String) -> (event: SecurityNetworkEvent)
        ensures
            fresh_security_network_event(event, ledger, phase@),
    {
        SecurityNetworkEvent {
            id: record_id("secure_", ledger.sequence),
            security_phase: phase,
            quantum_secured: true,
            security_level: 100,
            timestamp: ledger.timestamp,
        }
    }

    /// Enforce network security. The answer is `network_security_enforced`
    /// where `quantum_secured` does not hold, and `quantum_security_active`
    /// otherwise.
    pub fn enforce_network_security(event: SecurityNetworkEvent) -> (state: String)
        ensures
            state@ == (if !event.quantum_secured {
                "network_security_enforced"@
            } else {
                "quantum_security_active"@
            }),
    {
        if !event.quantum_secured {
            AhiAiCore::enforce_compliance();
            String::from_str("network_security_enforced")
        } else {
            String::from_str("quantum_security_active")
        }
    }

    /// Run quantum security network. One record for each of the 3 names of
    /// `run_quantum_security_network_targets`, in their order.
    pub fn run_quantum_security_network(ledger: Ledger) -> (events: Vec<SecurityNetworkEvent>)
        ensures
            events@.len() == run_quantum_security_network_targets().len(),
            forall|i: int|
                0 <= i < events@.len() ==> fresh_security_network_event(
                    #[trigger] events@[i],
                    ledger,
                    run_quantum_security_network_targets()[i],
                ),
    {
        let mut events: Vec<SecurityNetworkEvent> = Vec::new();
        events.push(Self::secure_network_phase(ledger, String::from_str("encryption")));
        events.push(Self::secure_network_phase(ledger, String::from_str("defense")));
        events.push(Self::secure_network_phase(ledger, String::from_str("monitoring")));
        events
    }

    /// Get network status.
    pub fn get_network_status() -> (status: StatusMap)
        ensures
            status@ == network_status_table(),
    {
        let mut status = StatusMap::new();
        status.set("phases_secured", 50);
        status.set("quantum_resistance", 100);
        status.set("network_eternal", 100);
        status
    }

    /// Update network rules. The rule is accepted while
    /// `decentralization_level` stands at 100 in the table of
    /// `PiNetworkDecentralizationEngine::get_engine_status`, which it always
    /// does.
    pub fn update_network_rules(new_rule: String) -> (r: Result<String, String>)
        ensures
            answer_texts(r) == Ok::<Seq<char>, Seq<char>>("updated"@),
    {
        let engine_status = PiNetworkDecentralizationEngine::get_engine_status();
        proof {
            lemma_engine_status_table();
        }
        if engine_status.get_or_zero("decentralization_level") == 100 {
            Ok(String::from_str("updated"))
        } else {
            Err(String::from_str("update_rejected"))
        }
    }

    /// Render network hologram. The lines come in the order in which they are
    /// shown.
    pub fn render_network_hologram(event: SecurityNetworkEvent) -> (hologram: Vec<String>)
        ensures
            texts(hologram@) == seq![
                "Quantum Security Network Hologram"@,
                event.security_phase@,
                flag_text("Quantum Secured: "@, event.quantum_secured),
                number_text("Security Level: "@, event.security_level),
            ],
    {
        let mut hologram: Vec<String> = Vec::new();
        hologram.push(String::from_str("Quantum Security Network Hologram"));
        hologram.push(event.security_phase);
        hologram.push(flag_line("Quantum Secured: ", event.quantum_secured));
        hologram.push(number_line("Security Level: ", event.security_level));
        assert(texts(hologram@) == seq![
            "Quantum Security Network Hologram"@,
            event.security_phase@,
            flag_text("Quantum Secured: "@, event.quantum_secured),
            number_text("Security Level: "@, event.security_level),
        ]);
        hologram
    }
}

} // verus!
