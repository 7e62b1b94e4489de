//! Achieves final supremacy and global domination for Pi mainnet.

use vstd::prelude::*;
use vstd::string::StringExecFns;
use crate::ahi_ai_core::{answer_texts, AhiAiCore};
use crate::ledger::{flag_line, flag_text, number_line, number_text, record_id, record_name};
use crate::ledger::{Ledger, StatusMap};
use crate::text::texts;
use crate::ultimate_pi_mainnet_activation_eternal_stability::lemma_activation_status_table;
use crate::ultimate_pi_mainnet_activation_eternal_stability::UltimatePiMainnetActivationEternalStability;

verus! {

/// A domination event, as `dominate_globally` records it.
#[derive(Clone, Debug)]
pub struct DominationEvent {
    pub id: String,
    pub domination_target: String,
    pub supremacy_achieved: bool,
    pub domination_score: i64,
    pub timestamp: u64,
}

/// Whether `event` is the record that `dominate_globally` makes in `ledger`.
pub open spec fn fresh_domination_event(
    event: DominationEvent,
    ledger: Ledger,
    target: Seq<char>,
) -> bool {
    &&& event.id@ == record_name("domination_"@, ledger.sequence)
    &&& event.domination_target@ == target
    &&& event.supremacy_achieved
    &&& event.domination_score == 100
    &&& event.timestamp == ledger.timestamp
}

/// What `achieve_final_global_domination` goes through, in this order.
pub open spec fn achieve_final_global_domination_targets() -> Seq<Seq<char>> {
    seq![
        "global_network"@,
        "external_blockchains"@,
        "volatile_economies"@,
    ]
}

/// The table that `get_domination_status` hands back.
pub open spec fn domination_status_table() -> Map<Seq<char>, i64> {
    Map::<Seq<char>, i64>::empty()
        .insert("targets_dominated"@, 50)
        .insert("global_supremacy"@, 100)
        .insert("domination_eternal"@, 100)
}

/// What stands under each name of the table.
pub proof fn lemma_domination_status_table()
    ensures
        domination_status_table().contains_key("targets_dominated"@),
        domination_status_table()["targets_dominated"@] == 50,
        domination_status_table().contains_key("global_supremacy"@),
        domination_status_table()["global_supremacy"@] == 100,
        domination_status_table().contains_key("domination_eternal"@),
        domination_status_table()["domination_eternal"@] == 100,
{
    reveal_strlit("targets_dominated");
    reveal_strlit("global_supremacy");
    reveal_strlit("domination_eternal");
    assert("targets_dominated"@.len() != "global_supremacy"@.len());
    assert("targets_dominated"@.len() != "domination_eternal"@.len());
    assert("global_supremacy"@.len() != "domination_eternal"@.len());
}

/// The on-chain module that achieves final supremacy and global domination for
/// Pi mainnet.
#[derive(Clone, Copy, Debug)]
pub struct FinalPiMainnetSupremacyGlobalDomination;

impl FinalPiMainnetSupremacyGlobalDomination {
    /// Initialize the Supremacy Module.
    pub fn init() -> (module: FinalPiMainnetSupremacyGlobalDomination) {
        FinalPiMainnetSupremacyGlobalDomination
    }

    /// Dominate target globally. The record is named `domination_` and the
    /// number of the ledger, and carries the time of the ledger.
    pub fn dominate_globally(ledger: Ledger, target: String) -> (event: DominationEvent)
        ensures
            fresh_domination_event(event, ledger, target@),
    {
        DominationEvent {
            id: record_id("domination_", ledger.sequence),
            domination_target: target,
            supremacy_achieved: true,
            domination_score: 100,
            timestamp: ledger.timestamp,
        }
    }

    /// Enforce supremacy domination. The answer is `domination_enforced` where
    /// `supremacy_achieved` does not hold, and `global_supremacy_active`
    /// otherwise.
    pub fn enforce_supremacy_domination(event: DominationEvent) -> (state: String)
        ensures
            state@ == (if !event.supremacy_achieved {
                "domination_enforced"@
            } else {
                "global_supremacy_active"@
            }),
    {
        if !event.supremacy_achieved {
            AhiAiCore::enforce_compliance();
            String::from_str("domination_enforced")
        } else {
            String::from_str("global_supremacy_active")
        }
    }

    /// Achieve final global domination. One record for each of the 3 names of
    /// `achieve_final_global_domination_targets`, in their order.
    pub fn achieve_final_global_domination(ledger: Ledger) -> (events: Vec<DominationEvent>)
        ensures
            events@.len() == achieve_final_global_domination_targets().len(),
            forall|i: int|
                0 <= i < events@.len() ==> fresh_domination_event(
                    #[trigger] events@[i],
                    ledger,
                    achieve_final_global_domination_targets()[i],
                ),
    {
        let mut events: Vec<DominationEvent> = Vec::new();
        events.push(Self::dominate_globally(ledger, String::from_str("global_network")));
        events.push(Self::dominate_globally(ledger, String::from_str("external_blockchains")));
        events.push(Self::dominate_globally(ledger, String::from_str("volatile_economies")));
        events
    }

    /// Get domination status.
    pub fn get_domination_status() -> (status: StatusMap)
        ensures
            status@ == domination_status_table(),
    {
        let mut status = StatusMap::new();
        status.set("targets_dominated", 50);
        status.set("global_supremacy", 100);
        status.set("domination_eternal", 100);
        status
    }

    /// Update domination rules. The rule is accepted while `eternal_stability`
    /// stands at 100 in the table of
    /// `UltimatePiMainnetActivationEternalStability::get_activation_status`,
    /// which it always does.
    pub fn update_domination_rules(new_rule: String) -> (r: Result<String, String>)
        ensures
            answer_texts(r) == Ok::<Seq<char>, Seq<char>>("updated"@),
    {
        let act_status = UltimatePiMainnetActivationEternalStability::get_activation_status();
        proof {
            lemma_activation_status_table();
        }
        if act_status.get_or_zero("eternal_stability") == 100 {
            Ok(String::from_str("updated"))
        } else {
            Err(String::from_str("update_rejected"))
        }
    }

    /// Render domination hologram. The lines come in the order in which they
    /// are shown.
    pub fn render_domination_hologram(event: DominationEvent) -> (hologram: Vec<String>)
        ensures
            texts(hologram@) == seq![
                "Global Domination Hologram"@,
                event.domination_target@,
                flag_text("Supremacy Achieved: "@, event.supremacy_achieved),
                number_text("Domination Score: "@, event.domination_score),
            ],
    {
        let mut hologram: Vec<String> = Vec::new();
        hologram.push(String::from_str("Global Domination Hologram"));
        hologram.push(event.domination_target);
        hologram.push(flag_line("Supremacy Achieved: ", event.supremacy_achieved));
        hologram.push(number_line("Domination Score: ", event.domination_score));
        assert(texts(hologram@) == seq![
            "Global Domination Hologram"@,
            event.domination_target@,
            flag_text("Supremacy Achieved: "@, event.supremacy_achieved),
            number_text("Domination Score: "@, event.domination_score),
        ]);
        hologram
    }
}

} // verus!
