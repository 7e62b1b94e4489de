//! Provides AI-driven ethical governance and oversight for the Pi Ecosystem.

use vstd::prelude::*;
use vstd::string::StringExecFns;
use crate::ahi_ai_core::{answer_texts, AhiAiCore};
use crate::global_pi_oracle_compliance_verifier::{trusted_source, GlobalPiOracleComplianceVerifier};
use crate::hyper_ecosystem_monitor::HyperEcosystemMonitor;
use crate::ledger::{record_id, record_name, Ledger, StatusMap};
use crate::text::str_equal;

verus! {

/// The record of one ethical audit. The score runs from 0 to 100; the
/// recommendation is `approve` or `halt`.
#[derive(Clone, Debug)]
pub struct EthicalAudit {
    pub id: String,
    pub action: String,
    pub ethical_score: i64,
    pub compliant: bool,
    pub recommendation: String,
    pub timestamp: u64,
}

/// Whether `audit` is the record that `perform_ethical_audit` makes of
/// `action` of the kind `action_type` in `ledger`: an action of a kind
/// that the oracle trusts scores 100 and is approved, any other scores 0
/// and is halted.
pub open spec fn ethical_record(
    audit: EthicalAudit,
    ledger: Ledger,
    action: Seq<char>,
    action_type: Seq<char>,
) -> bool {
    &&& audit.id@ == record_name("audit_"@, ledger.sequence)
    &&& audit.action@ == action
    &&& audit.ethical_score == (if trusted_source(action_type) {
        100i64
    } else {
        0i64
    })
    &&& audit.compliant == trusted_source(action_type)
    &&& audit.recommendation@ == (if trusted_source(action_type) {
        "approve"@
    } else {
        "halt"@
    })
    &&& audit.timestamp == ledger.timestamp
}

/// The kinds `governance`, `ui_interaction` and `master_action` are none
/// that the oracle trusts.
pub proof fn lemma_untrusted_kinds()
    ensures
        !trusted_source("governance"@),
        !trusted_source("ui_interaction"@),
        !trusted_source("master_action"@),
{
    reveal_strlit("mining");
    reveal_strlit("p2p");
    reveal_strlit("governance");
    reveal_strlit("ui_interaction");
    reveal_strlit("master_action");
    assert("governance"@.len() != "mining"@.len());
    assert("governance"@.len() != "p2p"@.len());
    assert("ui_interaction"@.len() != "mining"@.len());
    assert("ui_interaction"@.len() != "p2p"@.len());
    assert("master_action"@.len() != "mining"@.len());
    assert("master_action"@.len() != "p2p"@.len());
}

/// The table that `get_governance_status` hands back.
pub open spec fn governance_status_table() -> Map<Seq<char>, i64> {
    Map::<Seq<char>, i64>::empty()
        .insert("ethical_audits"@, 1000000)
        .insert("compliance_rate"@, 99)
}

/// What stands under each name of the table.
pub proof fn lemma_governance_status_table()
    ensures
        governance_status_table().contains_key("ethical_audits"@),
        governance_status_table()["ethical_audits"@] == 1000000,
        governance_status_table().contains_key("compliance_rate"@),
        governance_status_table()["compliance_rate"@] == 99,
{
    reveal_strlit("ethical_audits");
    reveal_strlit("compliance_rate");
    assert("ethical_audits"@.len() != "compliance_rate"@.len());
}

/// The on-chain module that provides AI-driven ethical governance and oversight
/// for the Pi Ecosystem.
#[derive(Clone, Copy, Debug)]
pub struct UltimateAiGovernanceEthicalOverseer;

impl UltimateAiGovernanceEthicalOverseer {
    /// Initialize the Overseer.
    pub fn init() -> (module: UltimateAiGovernanceEthicalOverseer) {
        UltimateAiGovernanceEthicalOverseer
    }

    /// Perform ethical audit on action. The record is named `audit_` and
    /// the number of the ledger, and carries the time of the ledger.
    pub fn perform_ethical_audit(ledger: Ledger, action: String, action_type: String) -> (audit:
        EthicalAudit)
        ensures
            ethical_record(audit, ledger, action@, action_type@),
    {
        let oracle_verified = GlobalPiOracleComplianceVerifier::verify_entity(
            ledger,
            action.clone(),
            action_type,
        ).is_ok();
        let ethical_score: i64 = if oracle_verified {
            100
        } else {
            0
        };
        let compliant = ethical_score > 50;
        let recommendation = if compliant {
            String::from_str("approve")
        } else {
            String::from_str("halt")
        };
        EthicalAudit {
            id: record_id("audit_", ledger.sequence),
            action,
            ethical_score,
            compliant,
            recommendation,
            timestamp: ledger.timestamp,
        }
    }

    /// Enforce ethical governance. The answer is `halted` where `compliant`
    /// does not hold, and `enforced` otherwise.
    pub fn enforce_ethical_governance(audit: EthicalAudit) -> (state: String)
        ensures
            state@ == (if !audit.compliant {
                "halted"@
            } else {
                "enforced"@
            }),
    {
        if !audit.compliant {
            AhiAiCore::enforce_compliance();
            String::from_str("halted")
        } else {
            String::from_str("enforced")
        }
    }

    /// Evolve governance rules: `evolved` once the ecosystem has evolved,
    /// which it always has.
    pub fn evolve_governance_rules() -> (state: String)
        ensures
            state@ == "evolved"@,
    {
        let status = HyperEcosystemMonitor::evolve_ecosystem();
        if str_equal(status.as_str(), "evolution_complete") {
            String::from_str("evolved")
        } else {
            String::from_str("stable")
        }
    }

    /// Get governance status.
    pub fn get_governance_status() -> (status: StatusMap)
        ensures
            status@ == governance_status_table(),
    {
        let mut status = StatusMap::new();
        status.set("ethical_audits", 1000000);
        status.set("compliance_rate", 99);
        status
    }

    /// Recommend governance update. The proposal is verified as an entity
    /// of the kind `governance`, which the oracle does not trust: no
    /// proposal is recommended.
    pub fn recommend_governance_update(ledger: Ledger, proposal: String) -> (r: Result<
        String,
        String,
    >)
        ensures
            answer_texts(r) == Err::<Seq<char>, Seq<char>>("verification_failed"@),
    {
        proof {
            lemma_untrusted_kinds();
        }
        match GlobalPiOracleComplianceVerifier::verify_entity(
            ledger,
            proposal,
            String::from_str("governance"),
        ) {
            Err(failure) => Err(failure),
            Ok(_) => Ok(String::from_str("recommended")),
        }
    }
}

} // verus!
