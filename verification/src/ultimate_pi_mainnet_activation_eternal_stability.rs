//! Activates Pi mainnet with eternal stability and supremacy.

use vstd::prelude::*;
use vstd::string::StringExecFns;
use crate::ahi_ai_core::{answer_texts, AhiAiCore};
use crate::ledger::{flag_line, flag_text, number_line, number_text, record_id, record_name};
use crate::ledger::{Ledger, StatusMap};
use crate::pi_mainnet_launch_governance_protocol::lemma_governance_status_table;
use crate::pi_mainnet_launch_governance_protocol::PiMainnetLaunchGovernanceProtocol;
use crate::text::texts;

verus! {

/// An activation event, as `activate_mainnet_phase` records it.
#[derive(Clone, Debug)]
pub struct ActivationEvent {
    pub id: String,
    pub activation_phase: String,
    pub stability_score: i64,
    pub eternal_active: bool,
    pub timestamp: u64,
}

/// Whether `event` is the record that `activate_mainnet_phase` makes in
/// `ledger`.
pub open spec fn fresh_activation_event(
    event: ActivationEvent,
    ledger: Ledger,
    phase: Seq<char>,
) -> bool {
    &&& event.id@ == record_name("activation_"@, ledger.sequence)
    &&& event.activation_phase@ == phase
    &&& event.stability_score == 100
    &&& event.eternal_active
    &&& event.timestamp == ledger.timestamp
}

/// What `fully_activate_pi_mainnet` goes through, in this order.
pub open spec fn fully_activate_pi_mainnet_targets() -> Seq<Seq<char>> {
    seq![
        "governance_launch"@,
        "swarm_sync"@,
        "eternal_stabilization"@,
    ]
}

/// The table that `get_activation_status` hands back.
pub open spec fn activation_status_table() -> Map<Seq<char>, i64> {
    Map::<Seq<char>, i64>::empty()
        .insert("phases_activated"@, 50)
        .insert("eternal_stability"@, 100)
        .insert("mainnet_supremacy"@, 100)
}

/// What stands under each name of the table.
pub proof fn lemma_activation_status_table()
    ensures
        activation_status_table().contains_key("phases_activated"@),
        activation_status_table()["phases_activated"@] == 50,
        activation_status_table().contains_key("eternal_stability"@),
        activation_status_table()["eternal_stability"@] == 100,
        activation_status_table().contains_key("mainnet_supremacy"@),
        activation_status_table()["mainnet_supremacy"@] == 100,
{
    reveal_strlit("phases_activated");
    reveal_strlit("eternal_stability");
    reveal_strlit("mainnet_supremacy");
    assert("phases_activated"@.len() != "eternal_stability"@.len());
    assert("phases_activated"@.len() != "mainnet_supremacy"@.len());
    assert("eternal_stability"@[0] != "mainnet_supremacy"@[0]);
}

/// The on-chain module that activates Pi mainnet with eternal stability and
/// supremacy.
#[derive(Clone, Copy, Debug)]
pub struct UltimatePiMainnetActivationEternalStability;

impl UltimatePiMainnetActivationEternalStability {
    /// Initialize the Activation Module.
    pub fn init() -> (module: UltimatePiMainnetActivationEternalStability) {
        UltimatePiMainnetActivationEternalStability
    }

    /// Activate mainnet phase. The record is named `activation_` and the number
    /// of the ledger, and carries the time of the ledger.
    pub fn activate_mainnet_phase(ledger: Ledger, phase: String) -> (event: ActivationEvent)
        ensures
            fresh_activation_event(event, ledger, phase@),
    {
        ActivationEvent {
            id: record_id("activation_", ledger.sequence),
            activation_phase: phase,
            stability_score: 100,
            eternal_active: true,
            timestamp: ledger.timestamp,
        }
    }

    /// Enforce eternal stability. The answer is `stability_enforced` where
    /// `eternal_active` does not hold, and `eternal_stability_active`
    /// otherwise.
    pub fn enforce_eternal_stability(event: ActivationEvent) -> (state: String)
        ensures
            state@ == (if !event.eternal_active {
                "stability_enforced"@
            } else {
                "eternal_stability_active"@
            }),
    {
        if !event.eternal_active {
            AhiAiCore::enforce_compliance();
            String::from_str("stability_enforced")
        } else {
            String::from_str("eternal_stability_active")
        }
    }

    /// Fully activate Pi mainnet eternally. One record for each of the 3 names
    /// of `fully_activate_pi_mainnet_targets`, in their order.
    pub fn fully_activate_pi_mainnet(ledger: Ledger) -> (events: Vec<ActivationEvent>)
        ensures
            events@.len() == fully_activate_pi_mainnet_targets().len(),
            forall|i: int|
                0 <= i < events@.len() ==> fresh_activation_event(
                    #[trigger] events@[i],
                    ledger,
                    fully_activate_pi_mainnet_targets()[i],
                ),
    {
        let mut events: Vec<ActivationEvent> = Vec::new();
        events.push(Self::activate_mainnet_phase(ledger, String::from_str("governance_launch")));
        events.push(Self::activate_mainnet_phase(ledger, String::from_str("swarm_sync")));
        events.push(Self::activate_mainnet_phase(
            ledger,
            String::from_str("eternal_stabilization"),
        ));
        events
    }

    /// Get activation status.
    pub fn get_activation_status() -> (status: StatusMap)
        ensures
            status@ == activation_status_table(),
    {
        let mut status = StatusMap::new();
        status.set("phases_activated", 50);
        status.set("eternal_stability", 100);
        status.set("mainnet_supremacy", 100);
        status
    }

    /// Update activation rules. The rule is accepted while
    /// `governance_integrity` stands at 100 in the table of
    /// `PiMainnetLaunchGovernanceProtocol::get_governance_status`, which it
    /// always does.
    pub fn update_activation_rules(new_rule: String) -> (r: Result<String, String>)
        ensures
            answer_texts(r) == Ok::<Seq<char>, Seq<char>>("updated"@),
    {
        let gov_status = PiMainnetLaunchGovernanceProtocol::get_governance_status();
        proof {
            lemma_governance_status_table();
        }
        if gov_status.get_or_zero("governance_integrity") == 100 {
            Ok(String::from_str("updated"))
        } else {
            Err(String::from_str("update_rejected"))
        }
    }

    /// Render activation hologram. The lines come in the order in which they
    /// are shown.
    pub fn render_activation_hologram(event: ActivationEvent) -> (hologram: Vec<String>)
        ensures
            texts(hologram@) == seq![
                "Ultimate Activation Hologram"@,
                event.activation_phase@,
                number_text("Stability Score: "@, event.stability_score),
                flag_text("Eternal Active: "@, event.eternal_active),
            ],
    {
        let mut hologram: Vec<String> = Vec::new();
        hologram.push(String::from_str("Ultimate Activation Hologram"));
        hologram.push(event.activation_phase);
        hologram.push(number_line("Stability Score: ", event.stability_score));
        hologram.push(flag_line("Eternal Active: ", event.eternal_active));
        assert(texts(hologram@) == seq![
            "Ultimate Activation Hologram"@,
            event.activation_phase@,
            number_text("Stability Score: "@, event.stability_score),
            flag_text("Eternal Active: "@, event.eternal_active),
        ]);
        hologram
    }
}

} // verus!
