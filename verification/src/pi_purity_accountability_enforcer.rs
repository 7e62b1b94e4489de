//! Enforces PI purity and accountability across the ecosystem.

use vstd::prelude::*;
use vstd::string::StringExecFns;
use crate::ahi_ai_core::{answer_texts, AhiAiCore};
use crate::ecosystem_readme_config::EcosystemReadmeConfig;
use crate::ledger::{record_id, record_name, Ledger, StatusMap};
use crate::text::str_equal;

verus! {

/// The record of one audit. The purity score runs from 0 to 100.
#[derive(Clone, Debug)]
pub struct AuditLog {
    pub id: String,
    pub audited_entity: String,
    pub purity_score: i64,
    pub compliant: bool,
    pub timestamp: u64,
}

/// Whether `log` is the record that `audit_purity` makes of `entity` in
/// `ledger`. Every entity is found pure: the filter never hands back the
/// name by which the enforcer would tell otherwise.
pub open spec fn audit_record(log: AuditLog, ledger: Ledger, entity: Seq<char>) -> bool {
    &&& log.id@ == record_name("audit_"@, ledger.sequence)
    &&& log.audited_entity@ == entity
    &&& log.purity_score == 100
    &&& log.compliant
    &&& log.timestamp == ledger.timestamp
}

/// The table that `get_accountability_status` hands back.
pub open spec fn accountability_status_table() -> Map<Seq<char>, i64> {
    Map::<Seq<char>, i64>::empty().insert("purity_level"@, 314).insert("audits_conducted"@, 1000000)
}

/// What stands under each name of the table.
pub proof fn lemma_accountability_status_table()
    ensures
        accountability_status_table().contains_key("purity_level"@)
            && accountability_status_table()["purity_level"@] == 314,
        accountability_status_table().contains_key("audits_conducted"@)
            && accountability_status_table()["audits_conducted"@] == 1000000,
{
    reveal_strlit("purity_level");
    reveal_strlit("audits_conducted");
    assert("purity_level"@.len() != "audits_conducted"@.len());
}

/// The on-chain module that enforces PI purity and accountability across the
/// ecosystem.
#[derive(Clone, Copy, Debug)]
pub struct PiPurityAccountabilityEnforcer;

impl PiPurityAccountabilityEnforcer {
    /// Initialize the Enforcer.
    pub fn init() -> (module: PiPurityAccountabilityEnforcer) {
        PiPurityAccountabilityEnforcer
    }

    /// Audit entity for PI purity. The record is named `audit_` and the
    /// number of the ledger, and carries the time of the ledger.
    pub fn audit_purity(ledger: Ledger, entity: String, entity_type: String) -> (log: AuditLog)
        ensures
            audit_record(log, ledger, entity@),
    {
        let filtered = match AhiAiCore::filter_io(entity.as_str()) {
            Ok(name) => name,
            Err(_) => String::from_str("filtered"),
        };
        proof {
            reveal_strlit("filtered_stable");
            reveal_strlit("filtered");
            reveal_strlit("volatile_rejected");
            assert("filtered_stable"@.len() != "volatile_rejected"@.len());
            assert("filtered"@.len() != "volatile_rejected"@.len());
        }
        let compliant = !str_equal(filtered.as_str(), "volatile_rejected");
        let purity_score: i64 = if compliant {
            100
        } else {
            0
        };
        AuditLog {
            id: record_id("audit_", ledger.sequence),
            audited_entity: entity,
            purity_score,
            compliant,
            timestamp: ledger.timestamp,
        }
    }

    /// Enforce accountability. The answer is `halted` where `compliant` does
    /// not hold, and `enforced` otherwise.
    pub fn enforce_accountability(audit: AuditLog) -> (state: String)
        ensures
            state@ == (if !audit.compliant {
                "halted"@
            } else {
                "enforced"@
            }),
    {
        if !audit.compliant {
            AhiAiCore::enforce_compliance();
            String::from_str("halted")
        } else {
            String::from_str("enforced")
        }
    }

    /// Bulk audit ecosystem: one record for each entity, in their order.
    pub fn bulk_audit(ledger: Ledger, entities: Vec<String>) -> (logs: Vec<AuditLog>)
        ensures
            logs@.len() == entities@.len(),
            forall|i: int|
                0 <= i < logs@.len() ==> audit_record(#[trigger] logs@[i], ledger, entities@[i]@),
    {
        let mut logs: Vec<AuditLog> = Vec::new();
        let mut i: usize = 0;
        while i < entities.len()
            invariant
                i <= entities.len(),
                logs@.len() == i,
                forall|j: int|
                    0 <= j < i ==> audit_record(#[trigger] logs@[j], ledger, entities@[j]@),
            decreases entities.len() - i,
        {
            logs.push(Self::audit_purity(ledger, entities[i].clone(), String::from_str("entity")));
            i += 1;
        }
        logs
    }

    /// Get accountability status: the purity level, a thousandth of the
    /// stable value of the configuration, and the number of audits.
    pub fn get_accountability_status() -> (status: StatusMap)
        ensures
            status@ == accountability_status_table(),
    {
        let config = EcosystemReadmeConfig::get_current_config();
        let mut status = StatusMap::new();
        status.set("purity_level", config.pi_stable_value / 1000);
        status.set("audits_conducted", 1000000);
        status
    }

    /// Update purity standards. The standard is accepted while the
    /// configuration is valid, which it always is.
    pub fn update_purity_standards(new_standard: String) -> (r: Result<String, String>)
        ensures
            answer_texts(r) == Ok::<Seq<char>, Seq<char>>("updated"@),
    {
        let validated = EcosystemReadmeConfig::validate_config();
        if str_equal(validated.as_str(), "config_valid") {
            Ok(String::from_str("updated"))
        } else {
            Err(String::from_str("update_rejected"))
        }
    }
}

} // verus!
