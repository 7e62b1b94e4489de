//! Provides quantum-resistant security for the Pi Ecosystem.

use vstd::prelude::*;
use vstd::string::StringExecFns;
use crate::ahi_ai_core::{answer_texts, AhiAiCore};
use crate::digest::{fingerprint, sha256_hex};
use crate::hyper_ecosystem_monitor::{lemma_status_table, HyperEcosystemMonitor};
use crate::ledger::{record_id, record_name, Ledger};
use crate::text::str_equal;

verus! {

/// The record of a threat that the layer looked at.
#[derive(Clone, Debug)]
pub struct SecurityEvent {
    pub id: String,
    pub threat_type: String,
    pub isolated: bool,
    pub timestamp: u64,
}

/// Whether `event` is the record that `isolate_threat` makes of `threat`
/// in `ledger`. No threat is isolated: the filter never hands back the
/// name by which the layer would tell.
pub open spec fn threat_record(event: SecurityEvent, ledger: Ledger, threat: Seq<char>) -> bool {
    &&& event.id@ == record_name("event_"@, ledger.sequence)
    &&& event.threat_type@ == threat
    &&& !event.isolated
    &&& event.timestamp == ledger.timestamp
}

/// What `decrypt_verify` answers.
pub open spec fn verification_answer(encrypted: Seq<char>, original_hash: Seq<char>) -> Result<
    Seq<char>,
    Seq<char>,
> {
    if fingerprint(encrypted) == original_hash {
        Ok("verified"@)
    } else {
        Err("verification_failed"@)
    }
}

/// The on-chain module that provides quantum-resistant security for the Pi
/// Ecosystem.
#[derive(Clone, Copy, Debug)]
pub struct QuantumSecurityLayer;

impl QuantumSecurityLayer {
    /// Initialize the Security Layer.
    pub fn init() -> (module: QuantumSecurityLayer) {
        QuantumSecurityLayer
    }

    /// Encrypt PI data with quantum resistance: the hash of the data.
    pub fn encrypt_data(data: String) -> (encrypted: String)
        ensures
            encrypted@ == fingerprint(data@),
    {
        sha256_hex(data.as_str())
    }

    /// Decrypt and verify PI data: `verified` where the hash of
    /// `encrypted` is `original_hash`, `verification_failed` otherwise.
    pub fn decrypt_verify(encrypted: String, original_hash: String) -> (r: Result<String, String>)
        ensures
            answer_texts(r) == verification_answer(encrypted@, original_hash@),
    {
        let computed = Self::encrypt_data(encrypted);
        if str_equal(computed.as_str(), original_hash.as_str()) {
            Ok(String::from_str("verified"))
        } else {
            Err(String::from_str("verification_failed"))
        }
    }

    /// Isolate threat in real-time. The record is named `event_` and the
    /// number of the ledger, and carries the time of the ledger.
    pub fn isolate_threat(ledger: Ledger, threat: String) -> (event: SecurityEvent)
        ensures
            threat_record(event, ledger, threat@),
    {
        let filtered = match AhiAiCore::filter_io(threat.as_str()) {
            Ok(name) => name,
            Err(_) => String::from_str("filtered"),
        };
        proof {
            reveal_strlit("filtered_stable");
            reveal_strlit("filtered");
            reveal_strlit("volatile_rejected");
            assert("filtered_stable"@.len() != "volatile_rejected"@.len());
            assert("filtered"@.len() != "volatile_rejected"@.len());
        }
        let isolated = str_equal(filtered.as_str(), "volatile_rejected");
        if isolated && str_equal(threat.as_str(), "quantum_attack") {
            AhiAiCore::enforce_compliance();
        }
        SecurityEvent {
            id: record_id("event_", ledger.sequence),
            threat_type: threat,
            isolated,
            timestamp: ledger.timestamp,
        }
    }

    /// Monitor security status: the record of one probe, `test_threat`.
    pub fn get_security_status(ledger: Ledger) -> (events: Vec<SecurityEvent>)
        ensures
            events@.len() == 1,
            threat_record(events@[0], ledger, "test_threat"@),
    {
        let mut events: Vec<SecurityEvent> = Vec::new();
        events.push(Self::isolate_threat(ledger, String::from_str("test_threat")));
        events
    }

    /// Evolve security based on monitor: `evolved` with more than 5
    /// anomalies in the status of the monitor, `stable` otherwise. The
    /// monitor reports no anomalies.
    pub fn evolve_security() -> (state: String)
        ensures
            state@ == "stable"@,
    {
        let status = HyperEcosystemMonitor::get_status();
        proof {
            lemma_status_table();
        }
        let anomalies = status.get_or_zero("anomalies");
        if anomalies > 5 {
            String::from_str("evolved")
        } else {
            String::from_str("stable")
        }
    }
}

} // verus!
