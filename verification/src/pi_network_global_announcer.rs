//! Announces Pi Network globally with hyper broadcasting.

use vstd::prelude::*;
use vstd::string::StringExecFns;
use crate::ahi_ai_core::{answer_texts, AhiAiCore};
use crate::ledger::{flag_line, flag_text, number_line, number_text, record_id, record_name};
use crate::ledger::{Ledger, StatusMap};
use crate::pi_network_hyper_oracle::{lemma_oracle_status_table, PiNetworkHyperOracle};
use crate::text::texts;

verus! {

/// A global announcement, as `make_global_announcement` records it.
#[derive(Clone, Debug)]
pub struct GlobalAnnouncement {
    pub id: String,
    pub announcement_type: String,
    pub globally_announced: bool,
    pub reach_level: i64,
    pub timestamp: u64,
}

/// Whether `announcement` is the record that `make_global_announcement` makes
/// in `ledger`.
pub open spec fn fresh_global_announcement(
    announcement: GlobalAnnouncement,
    ledger: Ledger,
    announcement_type: Seq<char>,
) -> bool {
    &&& announcement.id@ == record_name("announce_"@, ledger.sequence)
    &&& announcement.announcement_type@ == announcement_type
    &&& announcement.globally_announced
    &&& announcement.reach_level == 100
    &&& announcement.timestamp == ledger.timestamp
}

/// What `run_global_announcer` goes through, in this order.
pub open spec fn run_global_announcer_targets() -> Seq<Seq<char>> {
    seq![
        "mainnet_open"@,
        "supremacy_update"@,
        "eternal_stability"@,
    ]
}

/// The table that `get_announcer_status` hands back.
pub open spec fn announcer_status_table() -> Map<Seq<char>, i64> {
    Map::<Seq<char>, i64>::empty()
        .insert("announcements_made"@, 50)
        .insert("global_reach"@, 100)
        .insert("announcer_eternal"@, 100)
}

/// What stands under each name of the table.
pub proof fn lemma_announcer_status_table()
    ensures
        announcer_status_table().contains_key("announcements_made"@),
        announcer_status_table()["announcements_made"@] == 50,
        announcer_status_table().contains_key("global_reach"@),
        announcer_status_table()["global_reach"@] == 100,
        announcer_status_table().contains_key("announcer_eternal"@),
        announcer_status_table()["announcer_eternal"@] == 100,
{
    reveal_strlit("announcements_made");
    reveal_strlit("global_reach");
    reveal_strlit("announcer_eternal");
    assert("announcements_made"@.len() != "global_reach"@.len());
    assert("announcements_made"@.len() != "announcer_eternal"@.len());
    assert("global_reach"@.len() != "announcer_eternal"@.len());
}

/// The on-chain module that announces Pi Network globally with hyper
/// broadcasting.
#[derive(Clone, Copy, Debug)]
pub struct PiNetworkGlobalAnnouncer;

impl PiNetworkGlobalAnnouncer {
    /// Initialize the Global Announcer.
    pub fn init() -> (module: PiNetworkGlobalAnnouncer) {
        PiNetworkGlobalAnnouncer
    }

    /// Make global announcement. The record is named `announce_` and the number
    /// of the ledger, and carries the time of the ledger.
    pub fn make_global_announcement(ledger: Ledger, announcement_type: String) -> (announcement:
        GlobalAnnouncement)
        ensures
            fresh_global_announcement(announcement, ledger, announcement_type@),
    {
        GlobalAnnouncement {
            id: record_id("announce_", ledger.sequence),
            announcement_type,
            globally_announced: true,
            reach_level: 100,
            timestamp: ledger.timestamp,
        }
    }

    /// Enforce announcement integrity. The answer is `announcement_enforced`
    /// where `globally_announced` does not hold, and `global_announcer_active`
    /// otherwise.
    pub fn enforce_announcement_integrity(announcement: GlobalAnnouncement) -> (state: String)
        ensures
            state@ == (if !announcement.globally_announced {
                "announcement_enforced"@
            } else {
                "global_announcer_active"@
            }),
    {
        if !announcement.globally_announced {
            AhiAiCore::enforce_compliance();
            String::from_str("announcement_enforced")
        } else {
            String::from_str("global_announcer_active")
        }
    }

    /// Run global announcer. One record for each of the 3 names of
    /// `run_global_announcer_targets`, in their order.
    pub fn run_global_announcer(ledger: Ledger) -> (announcements: Vec<GlobalAnnouncement>)
        ensures
            announcements@.len() == run_global_announcer_targets().len(),
            forall|i: int|
                0 <= i < announcements@.len() ==> fresh_global_announcement(
                    #[trigger] announcements@[i],
                    ledger,
                    run_global_announcer_targets()[i],
                ),
    {
        let mut announcements: Vec<GlobalAnnouncement> = Vec::new();
        announcements.push(Self::make_global_announcement(
            ledger,
            String::from_str("mainnet_open"),
        ));
        announcements.push(Self::make_global_announcement(
            ledger,
            String::from_str("supremacy_update"),
        ));
        announcements.push(Self::make_global_announcement(
            ledger,
            String::from_str("eternal_stability"),
        ));
        announcements
    }

    /// Get announcer status.
    pub fn get_announcer_status() -> (status: StatusMap)
        ensures
            status@ == announcer_status_table(),
    {
        let mut status = StatusMap::new();
        status.set("announcements_made", 50);
        status.set("global_reach", 100);
        status.set("announcer_eternal", 100);
        status
    }

    /// Update announcer rules. The rule is accepted while `oracle_accuracy`
    /// stands at 100 in the table of `PiNetworkHyperOracle::get_oracle_status`,
    /// which it always does.
    pub fn update_announcer_rules(new_rule: String) -> (r: Result<String, String>)
        ensures
            answer_texts(r) == Ok::<Seq<char>, Seq<char>>("updated"@),
    {
        let oracle_status = PiNetworkHyperOracle::get_oracle_status();
        proof {
            lemma_oracle_status_table();
        }
        if oracle_status.get_or_zero("oracle_accuracy") == 100 {
            Ok(String::from_str("updated"))
        } else {
            Err(String::from_str("update_rejected"))
        }
    }

    /// Render announcer hologram. The lines come in the order in which they are
    /// shown.
    pub fn render_announcer_hologram(announcement: GlobalAnnouncement) -> (hologram: Vec<String>)
        ensures
            texts(hologram@) == seq![
                "Global Announcer Hologram"@,
                announcement.announcement_type@,
                flag_text("Globally Announced: "@, announcement.globally_announced),
                number_text("Reach Level: "@, announcement.reach_level),
            ],
    {
        let mut hologram: Vec<String> = Vec::new();
        hologram.push(String::from_str("Global Announcer Hologram"));
        hologram.push(announcement.announcement_type);
        hologram.push(flag_line("Globally Announced: ", announcement.globally_announced));
        hologram.push(number_line("Reach Level: ", announcement.reach_level));
        assert(texts(hologram@) == seq![
            "Global Announcer Hologram"@,
            announcement.announcement_type@,
            flag_text("Globally Announced: "@, announcement.globally_announced),
            number_text("Reach Level: "@, announcement.reach_level),
        ]);
        hologram
    }
}

} // verus!
