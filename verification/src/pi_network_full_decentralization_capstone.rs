//! Caps off full decentralization of Pi Network.

use vstd::prelude::*;
use vstd::string::StringExecFns;
use crate::ahi_ai_core::{answer_texts, AhiAiCore};
use crate::ledger::{flag_line, flag_text, number_line, number_text, record_id, record_name};
use crate::ledger::{Ledger, StatusMap};
use crate::pi_network_decentralized_governance_council::lemma_council_status_table;
use crate::pi_network_decentralized_governance_council::PiNetworkDecentralizedGovernanceCouncil;
use crate::text::texts;

verus! {

/// A decentralization capstone, as `capstone_decentralization_phase` records
/// it.
#[derive(Clone, Debug)]
pub struct DecentralizationCapstone {
    pub id: String,
    pub capstone_phase: String,
    pub fully_capstoned: bool,
    pub capstone_level: i64,
    pub timestamp: u64,
}

/// Whether `capstone` is the record that `capstone_decentralization_phase`
/// makes in `ledger`.
pub open spec fn fresh_decentralization_capstone(
    capstone: DecentralizationCapstone,
    ledger: Ledger,
    phase: Seq<char>,
) -> bool {
    &&& capstone.id@ == record_name("capstone_"@, ledger.sequence)
    &&& capstone.capstone_phase@ == phase
    &&& capstone.fully_capstoned
    &&& capstone.capstone_level == 100
    &&& capstone.timestamp == ledger.timestamp
}

/// What `run_full_decentralization_capstone` goes through, in this order.
pub open spec fn run_full_decentralization_capstone_targets() -> Seq<Seq<char>> {
    seq![
        "integration"@,
        "autonomy"@,
        "supremacy"@,
    ]
}

/// The table that `get_capstone_status` hands back.
pub open spec fn capstone_status_table() -> Map<Seq<char>, i64> {
    Map::<Seq<char>, i64>::empty()
        .insert("phases_capstoned"@, 50)
        .insert("decentralization_capstone"@, 100)
        .insert("capstone_eternal"@, 100)
}

/// What stands under each name of the table.
pub proof fn lemma_capstone_status_table()
    ensures
        capstone_status_table().contains_key("phases_capstoned"@),
        capstone_status_table()["phases_capstoned"@] == 50,
        capstone_status_table().contains_key("decentralization_capstone"@),
        capstone_status_table()["decentralization_capstone"@] == 100,
        capstone_status_table().contains_key("capstone_eternal"@),
        capstone_status_table()["capstone_eternal"@] == 100,
{
    reveal_strlit("phases_capstoned");
    reveal_strlit("decentralization_capstone");
    reveal_strlit("capstone_eternal");
    assert("phases_capstoned"@.len() != "decentralization_capstone"@.len());
    assert("phases_capstoned"@[0] != "capstone_eternal"@[0]);
    assert("decentralization_capstone"@.len() != "capstone_eternal"@.len());
}

/// The on-chain module that caps off full decentralization of Pi Network.
#[derive(Clone, Copy, Debug)]
pub struct PiNetworkFullDecentralizationCapstone;

impl PiNetworkFullDecentralizationCapstone {
    /// Initialize the Decentralization Capstone.
    pub fn init() -> (module: PiNetworkFullDecentralizationCapstone) {
        PiNetworkFullDecentralizationCapstone
    }

    /// Capstone decentralization phase. The record is named `capstone_` and the
    /// number of the ledger, and carries the time of the ledger.
    pub fn capstone_decentralization_phase(ledger: Ledger, phase: String) -> (capstone:
        DecentralizationCapstone)
        ensures
            fresh_decentralization_capstone(capstone, ledger, phase@),
    {
        DecentralizationCapstone {
            id: record_id("capstone_", ledger.sequence),
            capstone_phase: phase,
            fully_capstoned: true,
            capstone_level: 100,
            timestamp: ledger.timestamp,
        }
    }

    /// Enforce capstone integrity. The answer is `capstone_integrity_enforced`
    /// where `fully_capstoned` does not hold, and
    /// `full_decentralization_capstoned` otherwise.
    pub fn enforce_capstone_integrity(capstone: DecentralizationCapstone) -> (state: String)
        ensures
            state@ == (if !capstone.fully_capstoned {
                "capstone_integrity_enforced"@
            } else {
                "full_decentralization_capstoned"@
            }),
    {
        if !capstone.fully_capstoned {
            AhiAiCore::enforce_compliance();
            String::from_str("capstone_integrity_enforced")
        } else {
            String::from_str("full_decentralization_capstoned")
        }
    }

    /// Run full decentralization capstone. One record for each of the 3 names
    /// of `run_full_decentralization_capstone_targets`, in their order.
    pub fn run_full_decentralization_capstone(ledger: Ledger) -> (capstones:
        Vec<DecentralizationCapstone>)
        ensures
            capstones@.len() == run_full_decentralization_capstone_targets().len(),
            forall|i: int|
                0 <= i < capstones@.len() ==> fresh_decentralization_capstone(
                    #[trigger] capstones@[i],
                    ledger,
                    run_full_decentralization_capstone_targets()[i],
                ),
    {
        let mut capstones: Vec<DecentralizationCapstone> = Vec::new();
        capstones.push(Self::capstone_decentralization_phase(
            ledger,
            String::from_str("integration"),
        ));
        capstones.push(Self::capstone_decentralization_phase(ledger, String::from_str("autonomy")));
        capstones.push(Self::capstone_decentralization_phase(
            ledger,
            String::from_str("supremacy"),
        ));
        capstones
    }

    /// Get capstone status.
    pub fn get_capstone_status() -> (status: StatusMap)
        ensures
            status@ == capstone_status_table(),
    {
        let mut status = StatusMap::new();
        status.set("phases_capstoned", 50);
        status.set("decentralization_capstone", 100);
        status.set("capstone_eternal", 100);
        status
    }

    /// Update capstone rules. The rule is accepted while `governance_level`
    /// stands at 100 in the table of
    /// `PiNetworkDecentralizedGovernanceCouncil::get_council_status`, which it
    /// always does.
    pub fn update_capstone_rules(new_rule: String) -> (r: Result<String, String>)
        ensures
            answer_texts(r) == Ok::<Seq<char>, Seq<char>>("updated"@),
    {
        let council_status = PiNetworkDecentralizedGovernanceCouncil::get_council_status();
        proof {
            lemma_council_status_table();
        }
        if council_status.get_or_zero("governance_level") == 100 {
            Ok(String::from_str("updated"))
        } else {
            Err(String::from_str("update_rejected"))
        }
    }

    /// Render capstone hologram. The lines come in the order in which they are
    /// shown.
    pub fn render_capstone_hologram(capstone: DecentralizationCapstone) -> (hologram: Vec<String>)
        ensures
            texts(hologram@) == seq![
                "Full Decentralization Capstone Hologram"@,
                capstone.capstone_phase@,
                flag_text("Fully Capstoned: "@, capstone.fully_capstoned),
                number_text("Capstone Level: "@, capstone.capstone_level),
            ],
    {
        let mut hologram: Vec<String> = Vec::new();
        hologram.push(String::from_str("Full Decentralization Capstone Hologram"));
        hologram.push(capstone.capstone_phase);
        hologram.push(flag_line("Fully Capstoned: ", capstone.fully_capstoned));
        hologram.push(number_line("Capstone Level: ", capstone.capstone_level));
        assert(texts(hologram@) == seq![
            "Full Decentralization Capstone Hologram"@,
            capstone.capstone_phase@,
            flag_text("Fully Capstoned: "@, capstone.fully_capstoned),
            number_text("Capstone Level: "@, capstone.capstone_level),
        ]);
        hologram
    }
}

} // verus!
