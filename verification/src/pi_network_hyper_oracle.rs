//! Provides hyper-advanced oracle for Pi Network data.

use vstd::prelude::*;
use vstd::string::StringExecFns;
use crate::ahi_ai_core::{answer_texts, AhiAiCore};
use crate::ledger::{flag_line, flag_text, number_line, number_text, record_id, record_name};
use crate::ledger::{Ledger, StatusMap};
use crate::pi_network_mainnet_trigger::{lemma_trigger_status_table, PiNetworkMainnetTrigger};
use crate::text::texts;

verus! {

/// An oracle feed, as `fetch_oracle_feed` records it.
#[derive(Clone, Debug)]
pub struct OracleFeed {
    pub id: String,
    pub data_type: String,
    pub oracle_verified: bool,
    pub feed_accuracy: i64,
    pub timestamp: u64,
}

/// Whether `feed` is the record that `fetch_oracle_feed` makes in `ledger`.
pub open spec fn fresh_oracle_feed(feed: OracleFeed, ledger: Ledger, data_type: Seq<char>) -> bool {
    &&& feed.id@ == record_name("feed_"@, ledger.sequence)
    &&& feed.data_type@ == data_type
    &&& feed.oracle_verified
    &&& feed.feed_accuracy == 100
    &&& feed.timestamp == ledger.timestamp
}

/// What `run_hyper_oracle` goes through, in this order.
pub open spec fn run_hyper_oracle_targets() -> Seq<Seq<char>> {
    seq![
        "transaction"@,
        "compliance"@,
        "stability"@,
    ]
}

/// The table that `get_oracle_status` hands back.
pub open spec fn oracle_status_table() -> Map<Seq<char>, i64> {
    Map::<Seq<char>, i64>::empty()
        .insert("feeds_provided"@, 50)
        .insert("oracle_accuracy"@, 100)
        .insert("oracle_eternal"@, 100)
}

/// What stands under each name of the table.
pub proof fn lemma_oracle_status_table()
    ensures
        oracle_status_table().contains_key("feeds_provided"@),
        oracle_status_table()["feeds_provided"@] == 50,
        oracle_status_table().contains_key("oracle_accuracy"@),
        oracle_status_table()["oracle_accuracy"@] == 100,
        oracle_status_table().contains_key("oracle_eternal"@),
        oracle_status_table()["oracle_eternal"@] == 100,
{
    reveal_strlit("feeds_provided");
    reveal_strlit("oracle_accuracy");
    reveal_strlit("oracle_eternal");
    assert("feeds_provided"@.len() != "oracle_accuracy"@.len());
    assert("feeds_provided"@[0] != "oracle_eternal"@[0]);
    assert("oracle_accuracy"@.len() != "oracle_eternal"@.len());
}

/// The on-chain module that provides hyper-advanced oracle for Pi Network data.
#[derive(Clone, Copy, Debug)]
pub struct PiNetworkHyperOracle;

impl PiNetworkHyperOracle {
    /// Initialize the Hyper Oracle.
    pub fn init() -> (module: PiNetworkHyperOracle) {
        PiNetworkHyperOracle
    }

    /// Fetch oracle feed. The record is named `feed_` and the number of the
    /// ledger, and carries the time of the ledger.
    pub fn fetch_oracle_feed(ledger: Ledger, data_type: String) -> (feed: OracleFeed)
        ensures
            fresh_oracle_feed(feed, ledger, data_type@),
    {
        OracleFeed {
            id: record_id("feed_", ledger.sequence),
            data_type,
            oracle_verified: true,
            feed_accuracy: 100,
            timestamp: ledger.timestamp,
        }
    }

    /// Enforce oracle integrity. The answer is `oracle_enforced` where
    /// `oracle_verified` does not hold, and `hyper_oracle_active` otherwise.
    pub fn enforce_oracle_integrity(feed: OracleFeed) -> (state: String)
        ensures
            state@ == (if !feed.oracle_verified {
                "oracle_enforced"@
            } else {
                "hyper_oracle_active"@
            }),
    {
        if !feed.oracle_verified {
            AhiAiCore::enforce_compliance();
            String::from_str("oracle_enforced")
        } else {
            String::from_str("hyper_oracle_active")
        }
    }

    /// Run hyper oracle. One record for each of the 3 names of
    /// `run_hyper_oracle_targets`, in their order.
    pub fn run_hyper_oracle(ledger: Ledger) -> (feeds: Vec<OracleFeed>)
        ensures
            feeds@.len() == run_hyper_oracle_targets().len(),
            forall|i: int|
                0 <= i < feeds@.len() ==> fresh_oracle_feed(
                    #[trigger] feeds@[i],
                    ledger,
                    run_hyper_oracle_targets()[i],
                ),
    {
        let mut feeds: Vec<OracleFeed> = Vec::new();
        feeds.push(Self::fetch_oracle_feed(ledger, String::from_str("transaction")));
        feeds.push(Self::fetch_oracle_feed(ledger, String::from_str("compliance")));
        feeds.push(Self::fetch_oracle_feed(ledger, String::from_str("stability")));
        feeds
    }

    /// Get oracle status.
    pub fn get_oracle_status() -> (status: StatusMap)
        ensures
            status@ == oracle_status_table(),
    {
        let mut status = StatusMap::new();
        status.set("feeds_provided", 50);
        status.set("oracle_accuracy", 100);
        status.set("oracle_eternal", 100);
        status
    }

    /// Update oracle rules. The rule is accepted while `mainnet_trigger` stands
    /// at 100 in the table of `PiNetworkMainnetTrigger::get_trigger_status`,
    /// which it always does.
    pub fn update_oracle_rules(new_rule: String) -> (r: Result<String, String>)
        ensures
            answer_texts(r) == Ok::<Seq<char>, Seq<char>>("updated"@),
    {
        let trigger_status = PiNetworkMainnetTrigger::get_trigger_status();
        proof {
            lemma_trigger_status_table();
        }
        if trigger_status.get_or_zero("mainnet_trigger") == 100 {
            Ok(String::from_str("updated"))
        } else {
            Err(String::from_str("update_rejected"))
        }
    }

    /// Render oracle hologram. The lines come in the order in which they are
    /// shown.
    pub fn render_oracle_hologram(feed: OracleFeed) -> (hologram: Vec<String>)
        ensures
            texts(hologram@) == seq![
                "Hyper Oracle Hologram"@,
                feed.data_type@,
                flag_text("Verified: "@, feed.oracle_verified),
                number_text("Accuracy: "@, feed.feed_accuracy),
            ],
    {
        let mut hologram: Vec<String> = Vec::new();
        hologram.push(String::from_str("Hyper Oracle Hologram"));
        hologram.push(feed.data_type);
        hologram.push(flag_line("Verified: ", feed.oracle_verified));
        hologram.push(number_line("Accuracy: ", feed.feed_accuracy));
        assert(texts(hologram@) == seq![
            "Hyper Oracle Hologram"@,
            feed.data_type@,
            flag_text("Verified: "@, feed.oracle_verified),
            number_text("Accuracy: "@, feed.feed_accuracy),
        ]);
        hologram
    }
}

} // verus!
