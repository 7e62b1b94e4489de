//! Verifies global PI compliance and enforces ecosystem purity.

use vstd::prelude::*;
use vstd::string::StringExecFns;
use crate::ahi_ai_core::{answer_texts, filtered_answer, AhiAiCore};
use crate::ledger::{Ledger, StatusMap};
use crate::pi_purity_accountability_enforcer::PiPurityAccountabilityEnforcer;
use crate::text::str_equal;

verus! {

/// What the oracle knows of one source of PI. The compliance score runs from 0
/// to 100.
#[derive(Clone, Debug)]
pub struct OracleData {
    pub source: String,
    pub compliance_score: i64,
    pub verified: bool,
    pub timestamp: u64,
}

/// Whether `source` is one of the sources that the oracle trusts:
/// `mining` and `p2p`.
pub open spec fn trusted_source(source: Seq<char>) -> bool {
    source == "mining"@ || source == "p2p"@
}

/// Whether `data` is what the oracle says of `source` in `ledger`: a
/// trusted source scores 100 and is verified, any other scores 0.
pub open spec fn oracle_record(data: OracleData, ledger: Ledger, source: Seq<char>) -> bool {
    &&& data.source@ == source
    &&& data.compliance_score == (if trusted_source(source) {
        100i64
    } else {
        0i64
    })
    &&& data.verified == trusted_source(source)
    &&& data.timestamp == ledger.timestamp
}

/// What `verify_entity` answers for an entity of the kind `entity_type`.
pub open spec fn entity_answer(entity_type: Seq<char>) -> Result<Seq<char>, Seq<char>> {
    if trusted_source(entity_type) {
        Ok("verified"@)
    } else {
        Err("verification_failed"@)
    }
}

/// The table that `global_compliance_check` hands back.
pub open spec fn compliance_table() -> Map<Seq<char>, i64> {
    Map::<Seq<char>, i64>::empty().insert("mining"@, 100).insert("contribution_rewards"@, 0).insert(
        "p2p"@,
        100,
    )
}

/// What stands under each name of the table.
pub proof fn lemma_compliance_table()
    ensures
        compliance_table().contains_key("mining"@) && compliance_table()["mining"@] == 100,
        compliance_table().contains_key("contribution_rewards"@)
            && compliance_table()["contribution_rewards"@] == 0,
        compliance_table().contains_key("p2p"@) && compliance_table()["p2p"@] == 100,
{
    lemma_source_names();
}

/// The three source names differ from each other.
pub proof fn lemma_source_names()
    ensures
        "mining"@ != "p2p"@,
        "mining"@ != "contribution_rewards"@,
        "contribution_rewards"@ != "p2p"@,
        !trusted_source("contribution_rewards"@),
{
    reveal_strlit("mining");
    reveal_strlit("contribution_rewards");
    reveal_strlit("p2p");
    assert("mining"@.len() != "contribution_rewards"@.len());
    assert("mining"@.len() != "p2p"@.len());
    assert("contribution_rewards"@.len() != "p2p"@.len());
}

/// The on-chain module that verifies global PI compliance and enforces
/// ecosystem purity.
#[derive(Clone, Copy, Debug)]
pub struct GlobalPiOracleComplianceVerifier;

impl GlobalPiOracleComplianceVerifier {
    /// Initialize the Verifier.
    pub fn init() -> (module: GlobalPiOracleComplianceVerifier) {
        GlobalPiOracleComplianceVerifier
    }

    /// Fetch and verify oracle data. `mining` and `p2p` score 100 and are
    /// verified; every other source scores 0.
    pub fn fetch_verify_oracle(ledger: Ledger, source: String) -> (data: OracleData)
        ensures
            oracle_record(data, ledger, source@),
    {
        let compliance_score: i64 = if str_equal(source.as_str(), "mining") || str_equal(
            source.as_str(),
            "p2p",
        ) {
            100
        } else {
            0
        };
        let verified = compliance_score > 50;
        OracleData { source, compliance_score, verified, timestamp: ledger.timestamp }
    }

    /// Verify entity against oracle. An entity of a kind that the oracle
    /// does not trust is audited and fails.
    pub fn verify_entity(ledger: Ledger, entity: String, entity_type: String) -> (r: Result<
        String,
        String,
    >)
        ensures
            answer_texts(r) == entity_answer(entity_type@),
    {
        let oracle_data = Self::fetch_verify_oracle(ledger, entity_type.clone());
        if !oracle_data.verified {
            let audit = PiPurityAccountabilityEnforcer::audit_purity(ledger, entity, entity_type);
            PiPurityAccountabilityEnforcer::enforce_accountability(audit);
            return Err(String::from_str("verification_failed"));
        }
        Ok(String::from_str("verified"))
    }

    /// Global compliance check: the score of each of the sources `mining`,
    /// `contribution_rewards` and `p2p`, under its name.
    pub fn global_compliance_check(ledger: Ledger) -> (results: StatusMap)
        ensures
            results@ == compliance_table(),
    {
        proof {
            lemma_source_names();
        }
        let mut results = StatusMap::new();
        let mining = Self::fetch_verify_oracle(ledger, String::from_str("mining"));
        results.set("mining", mining.compliance_score);
        let rewards = Self::fetch_verify_oracle(ledger, String::from_str("contribution_rewards"));
        results.set("contribution_rewards", rewards.compliance_score);
        let p2p = Self::fetch_verify_oracle(ledger, String::from_str("p2p"));
        results.set("p2p", p2p.compliance_score);
        results
    }

    /// Update oracle standards. The standard goes through the on-chain
    /// filter.
    pub fn update_oracle_standards(new_standard: String) -> (r: Result<String, String>)
        ensures
            answer_texts(r) == filtered_answer(new_standard@, "updated"@),
    {
        match AhiAiCore::filter_io(new_standard.as_str()) {
            Err(rejection) => Err(rejection),
            Ok(_) => Ok(String::from_str("updated")),
        }
    }

    /// Get oracle status: what the oracle says of `mining` and of `p2p`.
    pub fn get_oracle_status(ledger: Ledger) -> (sources: Vec<OracleData>)
        ensures
            sources@.len() == 2,
            oracle_record(sources@[0], ledger, "mining"@),
            oracle_record(sources@[1], ledger, "p2p"@),
    {
        let mut sources: Vec<OracleData> = Vec::new();
        sources.push(Self::fetch_verify_oracle(ledger, String::from_str("mining")));
        sources.push(Self::fetch_verify_oracle(ledger, String::from_str("p2p")));
        sources
    }
}

} // verus!
