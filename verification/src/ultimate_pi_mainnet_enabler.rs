//! Enables ultimate activation of Pi Network mainnet.

use vstd::prelude::*;
use vstd::string::StringExecFns;
use crate::ahi_ai_core::{answer_texts, AhiAiCore};
use crate::final_universal_integration_supremacy_capstone::lemma_capstone_status_table;
use crate::final_universal_integration_supremacy_capstone::FinalUniversalIntegrationSupremacyCapstone;
use crate::ledger::{flag_line, flag_text, number_line, number_text, record_id, record_name};
use crate::ledger::{Ledger, StatusMap};
use crate::text::texts;

verus! {

/// A mainnet enablement, as `enable_mainnet_phase` records it.
#[derive(Clone, Debug)]
pub struct MainnetEnablement {
    pub id: String,
    pub enablement_phase: String,
    pub mainnet_enabled: bool,
    pub enablement_level: i64,
    pub timestamp: u64,
}

/// Whether `enablement` is the record that `enable_mainnet_phase` makes in
/// `ledger`.
pub open spec fn fresh_mainnet_enablement(
    enablement: MainnetEnablement,
    ledger: Ledger,
    phase: Seq<char>,
) -> bool {
    &&& enablement.id@ == record_name("enable_"@, ledger.sequence)
    &&& enablement.enablement_phase@ == phase
    &&& enablement.mainnet_enabled
    &&& enablement.enablement_level == 100
    &&& enablement.timestamp == ledger.timestamp
}

/// What `run_ultimate_enabler` goes through, in this order.
pub open spec fn run_ultimate_enabler_targets() -> Seq<Seq<char>> {
    seq![
        "activation"@,
        "sync"@,
        "stabilization"@,
    ]
}

/// The table that `get_enabler_status` hands back.
pub open spec fn enabler_status_table() -> Map<Seq<char>, i64> {
    Map::<Seq<char>, i64>::empty()
        .insert("phases_enabled"@, 50)
        .insert("mainnet_enablement"@, 100)
        .insert("enabler_eternal"@, 100)
}

/// What stands under each name of the table.
pub proof fn lemma_enabler_status_table()
    ensures
        enabler_status_table().contains_key("phases_enabled"@),
        enabler_status_table()["phases_enabled"@] == 50,
        enabler_status_table().contains_key("mainnet_enablement"@),
        enabler_status_table()["mainnet_enablement"@] == 100,
        enabler_status_table().contains_key("enabler_eternal"@),
        enabler_status_table()["enabler_eternal"@] == 100,
{
    reveal_strlit("phases_enabled");
    reveal_strlit("mainnet_enablement");
    reveal_strlit("enabler_eternal");
    assert("phases_enabled"@.len() != "mainnet_enablement"@.len());
    assert("phases_enabled"@.len() != "enabler_eternal"@.len());
    assert("mainnet_enablement"@.len() != "enabler_eternal"@.len());
}

/// The on-chain module that enables ultimate activation of Pi Network mainnet.
#[derive(Clone, Copy, Debug)]
pub struct UltimatePiMainnetEnabler;

impl UltimatePiMainnetEnabler {
    /// Initialize the Mainnet Enabler.
    pub fn init() -> (module: UltimatePiMainnetEnabler) {
        UltimatePiMainnetEnabler
    }

    /// Enable mainnet phase. The record is named `enable_` and the number of
    /// the ledger, and carries the time of the ledger.
    pub fn enable_mainnet_phase(ledger: Ledger, phase: String) -> (enablement: MainnetEnablement)
        ensures
            fresh_mainnet_enablement(enablement, ledger, phase@),
    {
        MainnetEnablement {
            id: record_id("enable_", ledger.sequence),
            enablement_phase: phase,
            mainnet_enabled: true,
            enablement_level: 100,
            timestamp: ledger.timestamp,
        }
    }

    /// Enforce enablement integrity. The answer is `enablement_enforced` where
    /// `mainnet_enabled` does not hold, and `ultimate_mainnet_active`
    /// otherwise.
    pub fn enforce_enablement_integrity(enablement: MainnetEnablement) -> (state: String)
        ensures
            state@ == (if !enablement.mainnet_enabled {
                "enablement_enforced"@
            } else {
                "ultimate_mainnet_active"@
            }),
    {
        if !enablement.mainnet_enabled {
            AhiAiCore::enforce_compliance();
            String::from_str("enablement_enforced")
        } else {
            String::from_str("ultimate_mainnet_active")
        }
    }

    /// Run ultimate enabler. One record for each of the 3 names of
    /// `run_ultimate_enabler_targets`, in their order.
    pub fn run_ultimate_enabler(ledger: Ledger) -> (enablements: Vec<MainnetEnablement>)
        ensures
            enablements@.len() == run_ultimate_enabler_targets().len(),
            forall|i: int|
                0 <= i < enablements@.len() ==> fresh_mainnet_enablement(
                    #[trigger] enablements@[i],
                    ledger,
                    run_ultimate_enabler_targets()[i],
                ),
    {
        let mut enablements: Vec<MainnetEnablement> = Vec::new();
        enablements.push(Self::enable_mainnet_phase(ledger, String::from_str("activation")));
        enablements.push(Self::enable_mainnet_phase(ledger, String::from_str("sync")));
        enablements.push(Self::enable_mainnet_phase(ledger, String::from_str("stabilization")));
        enablements
    }

    /// Get enabler status.
    pub fn get_enabler_status() -> (status: StatusMap)
        ensures
            status@ == enabler_status_table(),
    {
        let mut status = StatusMap::new();
        status.set("phases_enabled", 50);
        status.set("mainnet_enablement", 100);
        status.set("enabler_eternal", 100);
        status
    }

    /// Update enabler rules. The rule is accepted while `universal_supremacy`
    /// stands at 100 in the table of
    /// `FinalUniversalIntegrationSupremacyCapstone::get_capstone_status`, which
    /// it always does.
    pub fn update_enabler_rules(new_rule: String) -> (r: Result<String, String>)
        ensures
            answer_texts(r) == Ok::<Seq<char>, Seq<char>>("updated"@),
    {
        let cap_status = FinalUniversalIntegrationSupremacyCapstone::get_capstone_status();
        proof {
            lemma_capstone_status_table();
        }
        if cap_status.get_or_zero("universal_supremacy") == 100 {
            Ok(String::from_str("updated"))
        } else {
            Err(String::from_str("update_rejected"))
        }
    }

    /// Render enabler hologram. The lines come in the order in which they are
    /// shown.
    pub fn render_enabler_hologram(enablement: MainnetEnablement) -> (hologram: Vec<String>)
        ensures
            texts(hologram@) == seq![
                "Ultimate Enabler Hologram"@,
                enablement.enablement_phase@,
                flag_text("Mainnet Enabled: "@, enablement.mainnet_enabled),
                number_text("Enablement Level: "@, enablement.enablement_level),
            ],
    {
        let mut hologram: Vec<String> = Vec::new();
        hologram.push(String::from_str("Ultimate Enabler Hologram"));
        hologram.push(enablement.enablement_phase);
        hologram.push(flag_line("Mainnet Enabled: ", enablement.mainnet_enabled));
        hologram.push(number_line("Enablement Level: ", enablement.enablement_level));
        assert(texts(hologram@) == seq![
            "Ultimate Enabler Hologram"@,
            enablement.enablement_phase@,
            flag_text("Mainnet Enabled: "@, enablement.mainnet_enabled),
            number_text("Enablement Level: "@, enablement.enablement_level),
        ]);
        hologram
    }
}

} // verus!
