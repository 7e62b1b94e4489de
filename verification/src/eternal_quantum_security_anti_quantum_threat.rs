//! Provides eternal quantum security against all threats.

use vstd::prelude::*;
use vstd::string::StringExecFns;
use crate::ahi_ai_core::{answer_texts, AhiAiCore};
use crate::ledger::{flag_line, flag_text, number_line, number_text, record_id, record_name};
use crate::ledger::{Ledger, StatusMap};
use crate::text::texts;
use crate::ultimate_ecosystem_documentation_holographic_archive::lemma_archive_status_table;
use crate::ultimate_ecosystem_documentation_holographic_archive::UltimateEcosystemDocumentationHolographicArchive;

verus! {

/// A quantum defense, as `apply_quantum_defense` records it.
#[derive(Clone, Debug)]
pub struct QuantumDefense {
    pub id: String,
    pub threat_type: String,
    pub defense_applied: bool,
    pub security_level: i64,
    pub timestamp: u64,
}

/// Whether `defense` is the record that `apply_quantum_defense` makes in
/// `ledger`.
pub open spec fn fresh_quantum_defense(
    defense: QuantumDefense,
    ledger: Ledger,
    threat: Seq<char>,
) -> bool {
    &&& defense.id@ == record_name("defense_"@, ledger.sequence)
    &&& defense.threat_type@ == threat
    &&& defense.defense_applied
    &&& defense.security_level == 100
    &&& defense.timestamp == ledger.timestamp
}

/// What `secure_ecosystem_eternally` goes through, in this order.
pub open spec fn secure_ecosystem_eternally_targets() -> Seq<Seq<char>> {
    seq![
        "quantum_attack"@,
        "crypto_breach"@,
        "external_threat"@,
    ]
}

/// The table that `get_security_status` hands back.
pub open spec fn security_status_table() -> Map<Seq<char>, i64> {
    Map::<Seq<char>, i64>::empty()
        .insert("threats_neutralized"@, 50)
        .insert("quantum_resistance"@, 100)
        .insert("eternal_security"@, 100)
}

/// What stands under each name of the table.
pub proof fn lemma_security_status_table()
    ensures
        security_status_table().contains_key("threats_neutralized"@),
        security_status_table()["threats_neutralized"@] == 50,
        security_status_table().contains_key("quantum_resistance"@),
        security_status_table()["quantum_resistance"@] == 100,
        security_status_table().contains_key("eternal_security"@),
        security_status_table()["eternal_security"@] == 100,
{
    reveal_strlit("threats_neutralized");
    reveal_strlit("quantum_resistance");
    reveal_strlit("eternal_security");
    assert("threats_neutralized"@.len() != "quantum_resistance"@.len());
    assert("threats_neutralized"@.len() != "eternal_security"@.len());
    assert("quantum_resistance"@.len() != "eternal_security"@.len());
}

/// The on-chain module that provides eternal quantum security against all
/// threats.
#[derive(Clone, Copy, Debug)]
pub struct EternalQuantumSecurityAntiQuantumThreat;

impl EternalQuantumSecurityAntiQuantumThreat {
    /// Initialize the Quantum Security.
    pub fn init() -> (module: EternalQuantumSecurityAntiQuantumThreat) {
        EternalQuantumSecurityAntiQuantumThreat
    }

    /// Apply quantum defense. The record is named `defense_` and the number of
    /// the ledger, and carries the time of the ledger.
    pub fn apply_quantum_defense(ledger: Ledger, threat: String) -> (defense: QuantumDefense)
        ensures
            fresh_quantum_defense(defense, ledger, threat@),
    {
        QuantumDefense {
            id: record_id("defense_", ledger.sequence),
            threat_type: threat,
            defense_applied: true,
            security_level: 100,
            timestamp: ledger.timestamp,
        }
    }

    /// Enforce quantum security. The answer is `security_enforced` where
    /// `defense_applied` does not hold, and `eternal_quantum_security_active`
    /// otherwise.
    pub fn enforce_quantum_security(defense: QuantumDefense) -> (state: String)
        ensures
            state@ == (if !defense.defense_applied {
                "security_enforced"@
            } else {
                "eternal_quantum_security_active"@
            }),
    {
        if !defense.defense_applied {
            AhiAiCore::enforce_compliance();
            String::from_str("security_enforced")
        } else {
            String::from_str("eternal_quantum_security_active")
        }
    }

    /// Secure ecosystem eternally. One record for each of the 3 names of
    /// `secure_ecosystem_eternally_targets`, in their order.
    pub fn secure_ecosystem_eternally(ledger: Ledger) -> (defenses: Vec<QuantumDefense>)
        ensures
            defenses@.len() == secure_ecosystem_eternally_targets().len(),
            forall|i: int|
                0 <= i < defenses@.len() ==> fresh_quantum_defense(
                    #[trigger] defenses@[i],
                    ledger,
                    secure_ecosystem_eternally_targets()[i],
                ),
    {
        let mut defenses: Vec<QuantumDefense> = Vec::new();
        defenses.push(Self::apply_quantum_defense(ledger, String::from_str("quantum_attack")));
        defenses.push(Self::apply_quantum_defense(ledger, String::from_str("crypto_breach")));
        defenses.push(Self::apply_quantum_defense(ledger, String::from_str("external_threat")));
        defenses
    }

    /// Get security status.
    pub fn get_security_status() -> (status: StatusMap)
        ensures
            status@ == security_status_table(),
    {
        let mut status = StatusMap::new();
        status.set("threats_neutralized", 50);
        status.set("quantum_resistance", 100);
        status.set("eternal_security", 100);
        status
    }

    /// Update security rules. The rule is accepted while
    /// `holographic_integrity` stands at 100 in the table of
    /// `UltimateEcosystemDocumentationHolographicArchive::get_archive_status`,
    /// which it always does.
    pub fn update_security_rules(new_rule: String) -> (r: Result<String, String>)
        ensures
            answer_texts(r) == Ok::<Seq<char>, Seq<char>>("updated"@),
    {
        let archive_status = UltimateEcosystemDocumentationHolographicArchive::get_archive_status();
        proof {
            lemma_archive_status_table();
        }
        if archive_status.get_or_zero("holographic_integrity") == 100 {
            Ok(String::from_str("updated"))
        } else {
            Err(String::from_str("update_rejected"))
        }
    }

    /// Render security hologram. The lines come in the order in which they are
    /// shown.
    pub fn render_security_hologram(defense: QuantumDefense) -> (hologram: Vec<String>)
        ensures
            texts(hologram@) == seq![
                "Quantum Security Hologram"@,
                defense.threat_type@,
                flag_text("Defense Applied: "@, defense.defense_applied),
                number_text("Security Level: "@, defense.security_level),
            ],
    {
        let mut hologram: Vec<String> = Vec::new();
        hologram.push(String::from_str("Quantum Security Hologram"));
        hologram.push(defense.threat_type);
        hologram.push(flag_line("Defense Applied: ", defense.defense_applied));
        hologram.push(number_line("Security Level: ", defense.security_level));
        assert(texts(hologram@) == seq![
            "Quantum Security Hologram"@,
            defense.threat_type@,
            flag_text("Defense Applied: "@, defense.defense_applied),
            number_text("Security Level: "@, defense.security_level),
        ]);
        hologram
    }
}

} // verus!
