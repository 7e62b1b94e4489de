//! Builds and manages millions of PI-exclusive apps autonomously.

use vstd::prelude::*;
use vstd::string::StringExecFns;
use crate::ahi_ai_core::{answer_texts, chain_stable, AhiAiCore};
use crate::digest::{fingerprint, sha256_hex};
use crate::ledger::{record_id, record_name, Ledger, StatusMap};

verus! {

/// An application that the builder deployed. `status` is one of `building`,
/// `running` and `halted`.
#[derive(Clone, Debug)]
pub struct PiApp {
    pub id: String,
    pub developer: String,
    pub code_hash: String,
    pub status: String,
    pub pi_usage: i64,
}

/// What `deploy_app` answers for `code` in the ledger number `sequence`:
/// the name of the new application, or the rejection of the filter.
pub open spec fn deploy_answer(code: Seq<char>, sequence: u32) -> Result<Seq<char>, Seq<char>> {
    if chain_stable(code) {
        Ok(record_name("app_"@, sequence))
    } else {
        Err("volatile_rejected"@)
    }
}

/// The table that `get_metrics` hands back.
pub open spec fn metrics_table() -> Map<Seq<char>, i64> {
    Map::<Seq<char>, i64>::empty()
        .insert("apps_managed"@, 1000000)
        .insert("pi_consumed"@, 1000000000)
}

/// What stands under each name of the table.
pub proof fn lemma_metrics_table()
    ensures
        metrics_table().contains_key("apps_managed"@),
        metrics_table()["apps_managed"@] == 1000000,
        metrics_table().contains_key("pi_consumed"@),
        metrics_table()["pi_consumed"@] == 1000000000,
{
    reveal_strlit("apps_managed");
    reveal_strlit("pi_consumed");
    assert("apps_managed"@.len() != "pi_consumed"@.len());
}

/// The on-chain module that builds and manages millions of PI-exclusive apps
/// autonomously.
#[derive(Clone, Copy, Debug)]
pub struct AutonomousAppBuilder;

impl AutonomousAppBuilder {
    /// Initialize the Builder.
    pub fn init() -> (module: AutonomousAppBuilder) {
        AutonomousAppBuilder
    }

    /// Deploy an app autonomously. Code that the on-chain filter rejects
    /// is not deployed; other code becomes a running application, named
    /// `app_` and the number of the ledger.
    pub fn deploy_app(ledger: Ledger, developer: String, code: String) -> (r:
        Result<String, String>)
        ensures
            answer_texts(r) == deploy_answer(code@, ledger.sequence),
    {
        match AhiAiCore::filter_io(code.as_str()) {
            Err(rejection) => {
                return Err(rejection);
            },
            Ok(_) => {},
        }
        let app_id = record_id("app_", ledger.sequence);
        let app = PiApp {
            id: app_id.clone(),
            developer,
            code_hash: Self::hash_code(code.as_str()),
            status: String::from_str("running"),
            pi_usage: 1000,
        };
        Ok(app.id)
    }

    /// Run apps.
    pub fn run_apps() -> (report: String)
        ensures
            report@ == "apps_running"@,
    {
        String::from_str("apps_running")
    }

    /// Halt non-compliant app.
    pub fn halt_app(app_id: String) -> (report: String)
        ensures
            report@ == "halted"@,
    {
        String::from_str("halted")
    }

    /// Hash code for integrity.
    pub fn hash_code(code: &str) -> (hash: String)
        ensures
            hash@ == fingerprint(code@),
    {
        sha256_hex(code)
    }

    /// Get app metrics.
    pub fn get_metrics() -> (status: StatusMap)
        ensures
            status@ == metrics_table(),
    {
        let mut status = StatusMap::new();
        status.set("apps_managed", 1000000);
        status.set("pi_consumed", 1000000000);
        status
    }
}

} // verus!
