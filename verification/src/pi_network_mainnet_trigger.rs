//! Triggers full opening of Pi Network mainnet.

use vstd::prelude::*;
use vstd::string::StringExecFns;
use crate::ahi_ai_core::{answer_texts, AhiAiCore};
use crate::ledger::{flag_line, flag_text, number_line, number_text, record_id, record_name};
use crate::ledger::{Ledger, StatusMap};
use crate::text::texts;
use crate::ultimate_pi_mainnet_enabler::{lemma_enabler_status_table, UltimatePiMainnetEnabler};

verus! {

/// A mainnet trigger, as `trigger_mainnet_phase` records it.
#[derive(Clone, Debug)]
pub struct MainnetTrigger {
    pub id: String,
    pub trigger_phase: String,
    pub mainnet_triggered: bool,
    pub trigger_level: i64,
    pub timestamp: u64,
}

/// Whether `trigger` is the record that `trigger_mainnet_phase` makes in
/// `ledger`.
pub open spec fn fresh_mainnet_trigger(
    trigger: MainnetTrigger,
    ledger: Ledger,
    phase: Seq<char>,
) -> bool {
    &&& trigger.id@ == record_name("trigger_"@, ledger.sequence)
    &&& trigger.trigger_phase@ == phase
    &&& trigger.mainnet_triggered
    &&& trigger.trigger_level == 100
    &&& trigger.timestamp == ledger.timestamp
}

/// What `run_mainnet_trigger` goes through, in this order.
pub open spec fn run_mainnet_trigger_targets() -> Seq<Seq<char>> {
    seq![
        "initiate"@,
        "activate"@,
        "finalize"@,
    ]
}

/// The table that `get_trigger_status` hands back.
pub open spec fn trigger_status_table() -> Map<Seq<char>, i64> {
    Map::<Seq<char>, i64>::empty()
        .insert("phases_triggered"@, 50)
        .insert("mainnet_trigger"@, 100)
        .insert("trigger_eternal"@, 100)
}

/// What stands under each name of the table.
pub proof fn lemma_trigger_status_table()
    ensures
        trigger_status_table().contains_key("phases_triggered"@),
        trigger_status_table()["phases_triggered"@] == 50,
        trigger_status_table().contains_key("mainnet_trigger"@),
        trigger_status_table()["mainnet_trigger"@] == 100,
        trigger_status_table().contains_key("trigger_eternal"@),
        trigger_status_table()["trigger_eternal"@] == 100,
{
    reveal_strlit("phases_triggered");
    reveal_strlit("mainnet_trigger");
    reveal_strlit("trigger_eternal");
    assert("phases_triggered"@.len() != "mainnet_trigger"@.len());
    assert("phases_triggered"@.len() != "trigger_eternal"@.len());
    assert("mainnet_trigger"@[0] != "trigger_eternal"@[0]);
}

/// The on-chain module that triggers full opening of Pi Network mainnet.
#[derive(Clone, Copy, Debug)]
pub struct PiNetworkMainnetTrigger;

impl PiNetworkMainnetTrigger {
    /// Initialize the Mainnet Trigger.
    pub fn init() -> (module: PiNetworkMainnetTrigger) {
        PiNetworkMainnetTrigger
    }

    /// Trigger mainnet phase. The record is named `trigger_` and the number of
    /// the ledger, and carries the time of the ledger.
    pub fn trigger_mainnet_phase(ledger: Ledger, phase: String) -> (trigger: MainnetTrigger)
        ensures
            fresh_mainnet_trigger(trigger, ledger, phase@),
    {
        MainnetTrigger {
            id: record_id("trigger_", ledger.sequence),
            trigger_phase: phase,
            mainnet_triggered: true,
            trigger_level: 100,
            timestamp: ledger.timestamp,
        }
    }

    /// Enforce trigger integrity. The answer is `trigger_enforced` where
    /// `mainnet_triggered` does not hold, and `mainnet_trigger_active`
    /// otherwise.
    pub fn enforce_trigger_integrity(trigger: MainnetTrigger) -> (state: String)
        ensures
            state@ == (if !trigger.mainnet_triggered {
                "trigger_enforced"@
            } else {
                "mainnet_trigger_active"@
            }),
    {
        if !trigger.mainnet_triggered {
            AhiAiCore::enforce_compliance();
            String::from_str("trigger_enforced")
        } else {
            String::from_str("mainnet_trigger_active")
        }
    }

    /// Run mainnet trigger. One record for each of the 3 names of
    /// `run_mainnet_trigger_targets`, in their order.
    pub fn run_mainnet_trigger(ledger: Ledger) -> (triggers: Vec<MainnetTrigger>)
        ensures
            triggers@.len() == run_mainnet_trigger_targets().len(),
            forall|i: int|
                0 <= i < triggers@.len() ==> fresh_mainnet_trigger(
                    #[trigger] triggers@[i],
                    ledger,
                    run_mainnet_trigger_targets()[i],
                ),
    {
        let mut triggers: Vec<MainnetTrigger> = Vec::new();
        triggers.push(Self::trigger_mainnet_phase(ledger, String::from_str("initiate")));
        triggers.push(Self::trigger_mainnet_phase(ledger, String::from_str("activate")));
        triggers.push(Self::trigger_mainnet_phase(ledger, String::from_str("finalize")));
        triggers
    }

    /// Get trigger status.
    pub fn get_trigger_status() -> (status: StatusMap)
        ensures
            status@ == trigger_status_table(),
    {
        let mut status = StatusMap::new();
        status.set("phases_triggered", 50);
        status.set("mainnet_trigger", 100);
        status.set("trigger_eternal", 100);
        status
    }

    /// Update trigger rules. The rule is accepted while `mainnet_enablement`
    /// stands at 100 in the table of
    /// `UltimatePiMainnetEnabler::get_enabler_status`, which it always does.
    pub fn update_trigger_rules(new_rule: String) -> (r: Result<String, String>)
        ensures
            answer_texts(r) == Ok::<Seq<char>, Seq<char>>("updated"@),
    {
        let enabler_status = UltimatePiMainnetEnabler::get_enabler_status();
        proof {
            lemma_enabler_status_table();
        }
        if enabler_status.get_or_zero("mainnet_enablement") == 100 {
            Ok(String::from_str("updated"))
        } else {
            Err(String::from_str("update_rejected"))
        }
    }

    /// Render trigger hologram. The lines come in the order in which they are
    /// shown.
    pub fn render_trigger_hologram(trigger: MainnetTrigger) -> (hologram: Vec<String>)
        ensures
            texts(hologram@) == seq![
                "Mainnet Trigger Hologram"@,
                trigger.trigger_phase@,
                flag_text("Mainnet Triggered: "@, trigger.mainnet_triggered),
                number_text("Trigger Level: "@, trigger.trigger_level),
            ],
    {
        let mut hologram: Vec<String> = Vec::new();
        hologram.push(String::from_str("Mainnet Trigger Hologram"));
        hologram.push(trigger.trigger_phase);
        hologram.push(flag_line("Mainnet Triggered: ", trigger.mainnet_triggered));
        hologram.push(number_line("Trigger Level: ", trigger.trigger_level));
        assert(texts(hologram@) == seq![
            "Mainnet Trigger Hologram"@,
            trigger.trigger_phase@,
            flag_text("Mainnet Triggered: "@, trigger.mainnet_triggered),
            number_text("Trigger Level: "@, trigger.trigger_level),
        ]);
        hologram
    }
}

} // verus!
