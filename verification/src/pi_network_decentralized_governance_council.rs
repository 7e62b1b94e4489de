//! Establishes decentralized governance council for Pi Network.

use vstd::prelude::*;
use vstd::string::StringExecFns;
use crate::ahi_ai_core::{answer_texts, AhiAiCore};
use crate::ledger::{flag_line, flag_text, number_line, number_text, record_id, record_name};
use crate::ledger::{Ledger, StatusMap};
use crate::pi_network_quantum_security_network::lemma_network_status_table;
use crate::pi_network_quantum_security_network::PiNetworkQuantumSecurityNetwork;
use crate::text::texts;

verus! {

/// A governance decision, as `make_governance_decision` records it.
#[derive(Clone, Debug)]
pub struct GovernanceDecision {
    pub id: String,
    pub decision_type: String,
    pub council_decided: bool,
    pub decision_level: i64,
    pub timestamp: u64,
}

/// Whether `decision` is the record that `make_governance_decision` makes in
/// `ledger`.
pub open spec fn fresh_governance_decision(
    decision: GovernanceDecision,
    ledger: Ledger,
    decision_type: Seq<char>,
) -> bool {
    &&& decision.id@ == record_name("decision_"@, ledger.sequence)
    &&& decision.decision_type@ == decision_type
    &&& decision.council_decided
    &&& decision.decision_level == 100
    &&& decision.timestamp == ledger.timestamp
}

/// What `run_governance_council` goes through, in this order.
pub open spec fn run_governance_council_targets() -> Seq<Seq<char>> {
    seq![
        "protocol_update"@,
        "supremacy_vote"@,
        "eternal_rule"@,
    ]
}

/// The table that `get_council_status` hands back.
pub open spec fn council_status_table() -> Map<Seq<char>, i64> {
    Map::<Seq<char>, i64>::empty()
        .insert("decisions_made"@, 50)
        .insert("governance_level"@, 100)
        .insert("council_eternal"@, 100)
}

/// What stands under each name of the table.
pub proof fn lemma_council_status_table()
    ensures
        council_status_table().contains_key("decisions_made"@),
        council_status_table()["decisions_made"@] == 50,
        council_status_table().contains_key("governance_level"@),
        council_status_table()["governance_level"@] == 100,
        council_status_table().contains_key("council_eternal"@),
        council_status_table()["council_eternal"@] == 100,
{
    reveal_strlit("decisions_made");
    reveal_strlit("governance_level");
    reveal_strlit("council_eternal");
    assert("decisions_made"@.len() != "governance_level"@.len());
    assert("decisions_made"@.len() != "council_eternal"@.len());
    assert("governance_level"@.len() != "council_eternal"@.len());
}

/// The on-chain module that establishes decentralized governance council for Pi
/// Network.
#[derive(Clone, Copy, Debug)]
pub struct PiNetworkDecentralizedGovernanceCouncil;

impl PiNetworkDecentralizedGovernanceCouncil {
    /// Initialize the Governance Council.
    pub fn init() -> (module: PiNetworkDecentralizedGovernanceCouncil) {
        PiNetworkDecentralizedGovernanceCouncil
    }

    /// Make governance decision. The record is named `decision_` and the number
    /// of the ledger, and carries the time of the ledger.
    pub fn make_governance_decision(ledger: Ledger, decision_type: String) -> (decision:
        GovernanceDecision)
        ensures
            fresh_governance_decision(decision, ledger, decision_type@),
    {
        GovernanceDecision {
            id: record_id("decision_", ledger.sequence),
            decision_type,
            council_decided: true,
            decision_level: 100,
            timestamp: ledger.timestamp,
        }
    }

    /// Enforce council integrity. The answer is `council_integrity_enforced`
    /// where `council_decided` does not hold, and
    /// `decentralized_governance_active` otherwise.
    pub fn enforce_council_integrity(decision: GovernanceDecision) -> (state: String)
        ensures
            state@ == (if !decision.council_decided {
                "council_integrity_enforced"@
            } else {
                "decentralized_governance_active"@
            }),
    {
        if !decision.council_decided {
            AhiAiCore::enforce_compliance();
            String::from_str("council_integrity_enforced")
        } else {
            String::from_str("decentralized_governance_active")
        }
    }

    /// Run governance council. One record for each of the 3 names of
    /// `run_governance_council_targets`, in their order.
    pub fn run_governance_council(ledger: Ledger) -> (decisions: Vec<GovernanceDecision>)
        ensures
            decisions@.len() == run_governance_council_targets().len(),
            forall|i: int|
                0 <= i < decisions@.len() ==> fresh_governance_decision(
                    #[trigger] decisions@[i],
                    ledger,
                    run_governance_council_targets()[i],
                ),
    {
        let mut decisions: Vec<GovernanceDecision> = Vec::new();
        decisions.push(Self::make_governance_decision(ledger, String::from_str("protocol_update")));
        decisions.push(Self::make_governance_decision(ledger, String::from_str("supremacy_vote")));
        decisions.push(Self::make_governance_decision(ledger, String::from_str("eternal_rule")));
        decisions
    }

    /// Get council status.
    pub fn get_council_status() -> (status: StatusMap)
        ensures
            status@ == council_status_table(),
    {
        let mut status = StatusMap::new();
        status.set("decisions_made", 50);
        status.set("governance_level", 100);
        status.set("council_eternal", 100);
        status
    }

    /// Update council rules. The rule is accepted while `quantum_resistance`
    /// stands at 100 in the table of
    /// `PiNetworkQuantumSecurityNetwork::get_network_status`, which it always
    /// does.
    pub fn update_council_rules(new_rule: String) -> (r: Result<String, String>)
        ensures
            answer_texts(r) == Ok::<Seq<char>, Seq<char>>("updated"@),
    {
        let network_status = PiNetworkQuantumSecurityNetwork::get_network_status();
        proof {
            lemma_network_status_table();
        }
        if network_status.get_or_zero("quantum_resistance") == 100 {
            Ok(String::from_str("updated"))
        } else {
            Err(String::from_str("update_rejected"))
        }
    }

    /// Render council hologram. The lines come in the order in which they are
    /// shown.
    pub fn render_council_hologram(decision: GovernanceDecision) -> (hologram: Vec<String>)
        ensures
            texts(hologram@) == seq![
                "Decentralized Governance Council Hologram"@,
                decision.decision_type@,
                flag_text("Council Decided: "@, decision.council_decided),
                number_text("Decision Level: "@, decision.decision_level),
            ],
    {
        let mut hologram: Vec<String> = Vec::new();
        hologram.push(String::from_str("Decentralized Governance Council Hologram"));
        hologram.push(decision.decision_type);
        hologram.push(flag_line("Council Decided: ", decision.council_decided));
        hologram.push(number_line("Decision Level: ", decision.decision_level));
        assert(texts(hologram@) == seq![
            "Decentralized Governance Council Hologram"@,
            decision.decision_type@,
            flag_text("Council Decided: "@, decision.council_decided),
            number_text("Decision Level: "@, decision.decision_level),
        ]);
        hologram
    }
}

} // verus!
