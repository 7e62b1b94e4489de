//! Enables infinite expansion and universal integration for Pi Ecosystem.

use vstd::prelude::*;
use vstd::string::StringExecFns;
use crate::ahi_ai_core::{answer_texts, AhiAiCore};
use crate::final_pi_mainnet_supremacy_global_domination::lemma_domination_status_table;
use crate::final_pi_mainnet_supremacy_global_domination::FinalPiMainnetSupremacyGlobalDomination;
use crate::ledger::{flag_line, flag_text, number_line, number_text, record_id, record_name};
use crate::ledger::{Ledger, StatusMap};
use crate::text::texts;

verus! {

/// An expansion event, as `expand_integrate_universally` records it.
#[derive(Clone, Debug)]
pub struct ExpansionEvent {
    pub id: String,
    pub expansion_target: String,
    pub integration_success: bool,
    pub expansion_scale: i64,
    pub timestamp: u64,
}

/// Whether `event` is the record that `expand_integrate_universally` makes in
/// `ledger`.
pub open spec fn fresh_expansion_event(
    event: ExpansionEvent,
    ledger: Ledger,
    target: Seq<char>,
) -> bool {
    &&& event.id@ == record_name("expansion_"@, ledger.sequence)
    &&& event.expansion_target@ == target
    &&& event.integration_success
    &&& event.expansion_scale == 1000000000
    &&& event.timestamp == ledger.timestamp
}

/// What `achieve_infinite_universal_expansion` goes through, in this order.
pub open spec fn achieve_infinite_universal_expansion_targets() -> Seq<Seq<char>> {
    seq![
        "universal_network"@,
        "infinite_apps"@,
        "global_integration"@,
    ]
}

/// The table that `get_expansion_status` hands back.
pub open spec fn expansion_status_table() -> Map<Seq<char>, i64> {
    Map::<Seq<char>, i64>::empty()
        .insert("targets_expanded"@, 50)
        .insert("universal_integration"@, 100)
        .insert("infinite_scale"@, 1000000000)
}

/// What stands under each name of the table.
pub proof fn lemma_expansion_status_table()
    ensures
        expansion_status_table().contains_key("targets_expanded"@),
        expansion_status_table()["targets_expanded"@] == 50,
        expansion_status_table().contains_key("universal_integration"@),
        expansion_status_table()["universal_integration"@] == 100,
        expansion_status_table().contains_key("infinite_scale"@),
        expansion_status_table()["infinite_scale"@] == 1000000000,
{
    reveal_strlit("targets_expanded");
    reveal_strlit("universal_integration");
    reveal_strlit("infinite_scale");
    assert("targets_expanded"@.len() != "universal_integration"@.len());
    assert("targets_expanded"@.len() != "infinite_scale"@.len());
    assert("universal_integration"@.len() != "infinite_scale"@.len());
}

/// The on-chain module that enables infinite expansion and universal
/// integration for Pi Ecosystem.
#[derive(Clone, Copy, Debug)]
pub struct InfinitePiEcosystemExpansionUniversalIntegration;

impl InfinitePiEcosystemExpansionUniversalIntegration {
    /// Initialize the Expansion Module.
    pub fn init() -> (module: InfinitePiEcosystemExpansionUniversalIntegration) {
        InfinitePiEcosystemExpansionUniversalIntegration
    }

    /// Expand infinitely and integrate universally. The record is named
    /// `expansion_` and the number of the ledger, and carries the time of the
    /// ledger.
    pub fn expand_integrate_universally(ledger: Ledger, target: String) -> (event: ExpansionEvent)
        ensures
            fresh_expansion_event(event, ledger, target@),
    {
        ExpansionEvent {
            id: record_id("expansion_", ledger.sequence),
            expansion_target: target,
            integration_success: true,
            expansion_scale: 1000000000,
            timestamp: ledger.timestamp,
        }
    }

    /// Enforce infinite expansion integrity. The answer is `expansion_enforced`
    /// where `integration_success` does not hold, and
    /// `infinite_expansion_active` otherwise.
    pub fn enforce_expansion_integrity(event: ExpansionEvent) -> (state: String)
        ensures
            state@ == (if !event.integration_success {
                "expansion_enforced"@
            } else {
                "infinite_expansion_active"@
            }),
    {
        if !event.integration_success {
            AhiAiCore::enforce_compliance();
            String::from_str("expansion_enforced")
        } else {
            String::from_str("infinite_expansion_active")
        }
    }

    /// Achieve infinite universal expansion. One record for each of the 3 names
    /// of `achieve_infinite_universal_expansion_targets`, in their order.
    pub fn achieve_infinite_universal_expansion(ledger: Ledger) -> (events: Vec<ExpansionEvent>)
        ensures
            events@.len() == achieve_infinite_universal_expansion_targets().len(),
            forall|i: int|
                0 <= i < events@.len() ==> fresh_expansion_event(
                    #[trigger] events@[i],
                    ledger,
                    achieve_infinite_universal_expansion_targets()[i],
                ),
    {
        let mut events: Vec<ExpansionEvent> = Vec::new();
        events.push(Self::expand_integrate_universally(
            ledger,
            String::from_str("universal_network"),
        ));
        events.push(Self::expand_integrate_universally(ledger, String::from_str("infinite_apps")));
        events.push(Self::expand_integrate_universally(
            ledger,
            String::from_str("global_integration"),
        ));
        events
    }

    /// Get expansion status.
    pub fn get_expansion_status() -> (status: StatusMap)
        ensures
            status@ == expansion_status_table(),
    {
        let mut status = StatusMap::new();
        status.set("targets_expanded", 50);
        status.set("universal_integration", 100);
        status.set("infinite_scale", 1000000000);
        status
    }

    /// Update expansion rules. The rule is accepted while `global_supremacy`
    /// stands at 100 in the table of
    /// `FinalPiMainnetSupremacyGlobalDomination::get_domination_status`, which
    /// it always does.
    pub fn update_expansion_rules(new_rule: String) -> (r: Result<String, String>)
        ensures
            answer_texts(r) == Ok::<Seq<char>, Seq<char>>("updated"@),
    {
        let dom_status = FinalPiMainnetSupremacyGlobalDomination::get_domination_status();
        proof {
            lemma_domination_status_table();
        }
        if dom_status.get_or_zero("global_supremacy") == 100 {
            Ok(String::from_str("updated"))
        } else {
            Err(String::from_str("update_rejected"))
        }
    }

    /// Render expansion hologram. The lines come in the order in which they are
    /// shown.
    pub fn render_expansion_hologram(event: ExpansionEvent) -> (hologram: Vec<String>)
        ensures
            texts(hologram@) == seq![
                "Infinite Expansion Hologram"@,
                event.expansion_target@,
                flag_text("Integration Success: "@, event.integration_success),
                number_text("Expansion Scale: "@, event.expansion_scale),
            ],
    {
        let mut hologram: Vec<String> = Vec::new();
        hologram.push(String::from_str("Infinite Expansion Hologram"));
        hologram.push(event.expansion_target);
        hologram.push(flag_line("Integration Success: ", event.integration_success));
        hologram.push(number_line("Expansion Scale: ", event.expansion_scale));
        assert(texts(hologram@) == seq![
            "Infinite Expansion Hologram"@,
            event.expansion_target@,
            flag_text("Integration Success: "@, event.integration_success),
            number_text("Expansion Scale: "@, event.expansion_scale),
        ]);
        hologram
    }
}

} // verus!
