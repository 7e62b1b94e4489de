//! Archives Pi Ecosystem documentation in holographic eternal format.

use vstd::prelude::*;
use vstd::string::StringExecFns;
use crate::ahi_ai_core::{answer_texts, AhiAiCore};
use crate::comprehensive_test_suite_validation::lemma_test_status_table;
use crate::comprehensive_test_suite_validation::ComprehensiveTestSuiteValidation;
use crate::ledger::{flag_line, flag_text, record_id, record_name, Ledger, StatusMap};
use crate::text::texts;

verus! {

/// An archive entry, as `archive_holographically` records it.
#[derive(Clone, Debug)]
pub struct ArchiveEntry {
    pub id: String,
    pub document_type: String,
    pub holographic_data: Vec<String>,
    pub archive_integrity: bool,
    pub timestamp: u64,
}

/// Whether `entry` is the record that `archive_holographically` makes in
/// `ledger`.
pub open spec fn fresh_archive_entry(
    entry: ArchiveEntry,
    ledger: Ledger,
    doc_type: Seq<char>,
    data: Seq<Seq<char>>,
) -> bool {
    &&& entry.id@ == record_name("archive_"@, ledger.sequence)
    &&& entry.document_type@ == doc_type
    &&& texts(entry.holographic_data@) == data
    &&& entry.archive_integrity
    &&& entry.timestamp == ledger.timestamp
}

/// The table that `get_archive_status` hands back.
pub open spec fn archive_status_table() -> Map<Seq<char>, i64> {
    Map::<Seq<char>, i64>::empty()
        .insert("documents_archived"@, 50)
        .insert("holographic_integrity"@, 100)
        .insert("archive_eternal"@, 100)
}

/// What stands under each name of the table.
pub proof fn lemma_archive_status_table()
    ensures
        archive_status_table().contains_key("documents_archived"@),
        archive_status_table()["documents_archived"@] == 50,
        archive_status_table().contains_key("holographic_integrity"@),
        archive_status_table()["holographic_integrity"@] == 100,
        archive_status_table().contains_key("archive_eternal"@),
        archive_status_table()["archive_eternal"@] == 100,
{
    reveal_strlit("documents_archived");
    reveal_strlit("holographic_integrity");
    reveal_strlit("archive_eternal");
    assert("documents_archived"@.len() != "holographic_integrity"@.len());
    assert("documents_archived"@.len() != "archive_eternal"@.len());
    assert("holographic_integrity"@.len() != "archive_eternal"@.len());
}

/// The on-chain module that archives Pi Ecosystem documentation in holographic
/// eternal format.
#[derive(Clone, Copy, Debug)]
pub struct UltimateEcosystemDocumentationHolographicArchive;

impl UltimateEcosystemDocumentationHolographicArchive {
    /// Initialize the Holographic Archive.
    pub fn init() -> (module: UltimateEcosystemDocumentationHolographicArchive) {
        UltimateEcosystemDocumentationHolographicArchive
    }

    /// Archive document holographically. The record is named `archive_` and the
    /// number of the ledger, and carries the time of the ledger.
    pub fn archive_holographically(ledger: Ledger, doc_type: String, data: Vec<String>) -> (entry:
        ArchiveEntry)
        ensures
            fresh_archive_entry(entry, ledger, doc_type@, texts(data@)),
    {
        ArchiveEntry {
            id: record_id("archive_", ledger.sequence),
            document_type: doc_type,
            holographic_data: data,
            archive_integrity: true,
            timestamp: ledger.timestamp,
        }
    }

    /// Enforce archive integrity. The answer is `archive_enforced` where
    /// `archive_integrity` does not hold, and `holographic_archive_active`
    /// otherwise.
    pub fn enforce_archive_integrity(entry: ArchiveEntry) -> (state: String)
        ensures
            state@ == (if !entry.archive_integrity {
                "archive_enforced"@
            } else {
                "holographic_archive_active"@
            }),
    {
        if !entry.archive_integrity {
            AhiAiCore::enforce_compliance();
            String::from_str("archive_enforced")
        } else {
            String::from_str("holographic_archive_active")
        }
    }

    /// Retrieve holographic docs: the README with the guide of the
    /// ecosystem, and the protocol of the mainnet.
    pub fn retrieve_holographic_docs(ledger: Ledger) -> (docs: Vec<ArchiveEntry>)
        ensures
            docs@.len() == 2,
            fresh_archive_entry(docs@[0], ledger, "readme"@, seq!["Pi Ecosystem Guide"@]),
            fresh_archive_entry(docs@[1], ledger, "protocol"@, seq!["Mainnet Protocol"@]),
    {
        let mut guide: Vec<String> = Vec::new();
        guide.push(String::from_str("Pi Ecosystem Guide"));
        assert(texts(guide@) == seq!["Pi Ecosystem Guide"@]);
        let mut protocol: Vec<String> = Vec::new();
        protocol.push(String::from_str("Mainnet Protocol"));
        assert(texts(protocol@) == seq!["Mainnet Protocol"@]);
        let mut docs: Vec<ArchiveEntry> = Vec::new();
        docs.push(Self::archive_holographically(ledger, String::from_str("readme"), guide));
        docs.push(Self::archive_holographically(ledger, String::from_str("protocol"), protocol));
        docs
    }

    /// Get archive status.
    pub fn get_archive_status() -> (status: StatusMap)
        ensures
            status@ == archive_status_table(),
    {
        let mut status = StatusMap::new();
        status.set("documents_archived", 50);
        status.set("holographic_integrity", 100);
        status.set("archive_eternal", 100);
        status
    }

    /// Update archive rules. The rule is accepted while `validation_rate`
    /// stands at 100 in the table of
    /// `ComprehensiveTestSuiteValidation::get_test_status`, which it always
    /// does.
    pub fn update_archive_rules(new_rule: String) -> (r: Result<String, String>)
        ensures
            answer_texts(r) == Ok::<Seq<char>, Seq<char>>("updated"@),
    {
        let test_status = ComprehensiveTestSuiteValidation::get_test_status();
        proof {
            lemma_test_status_table();
        }
        if test_status.get_or_zero("validation_rate") == 100 {
            Ok(String::from_str("updated"))
        } else {
            Err(String::from_str("update_rejected"))
        }
    }

    /// Render archive hologram: a title, the kind of the document, its
    /// integrity, and then its data.
    pub fn render_archive_hologram(entry: ArchiveEntry) -> (hologram: Vec<String>)
        ensures
            texts(hologram@) == seq![
                "Holographic Archive Hologram"@,
                entry.document_type@,
                flag_text("Integrity: "@, entry.archive_integrity),
            ] + texts(entry.holographic_data@),
    {
        let mut hologram: Vec<String> = Vec::new();
        hologram.push(String::from_str("Holographic Archive Hologram"));
        hologram.push(entry.document_type);
        hologram.push(flag_line("Integrity: ", entry.archive_integrity));
        let mut data = entry.holographic_data;
        hologram.append(&mut data);
        assert(texts(hologram@) == seq![
            "Holographic Archive Hologram"@,
            entry.document_type@,
            flag_text("Integrity: "@, entry.archive_integrity),
        ] + texts(entry.holographic_data@));
        hologram
    }
}

} // verus!
