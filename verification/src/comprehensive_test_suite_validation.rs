//! Runs comprehensive tests and validations for Pi Ecosystem.

use vstd::prelude::*;
use vstd::string::StringExecFns;
use crate::ahi_ai_core::{answer_texts, AhiAiCore};
use crate::infinite_pi_ecosystem_expansion_universal_integration::lemma_expansion_status_table;
use crate::infinite_pi_ecosystem_expansion_universal_integration::InfinitePiEcosystemExpansionUniversalIntegration;
use crate::ledger::{flag_line, flag_text, number_line, number_text, record_id, record_name};
use crate::ledger::{Ledger, StatusMap};
use crate::text::texts;

verus! {

/// A validation test, as `run_validation_test` records it.
#[derive(Clone, Debug)]
pub struct ValidationTest {
    pub id: String,
    pub test_target: String,
    pub test_passed: bool,
    pub validation_score: i64,
    pub timestamp: u64,
}

/// Whether `test` is the record that `run_validation_test` makes in `ledger`.
pub open spec fn fresh_validation_test(
    test: ValidationTest,
    ledger: Ledger,
    target: Seq<char>,
) -> bool {
    &&& test.id@ == record_name("test_"@, ledger.sequence)
    &&& test.test_target@ == target
    &&& test.test_passed
    &&& test.validation_score == 100
    &&& test.timestamp == ledger.timestamp
}

/// What `run_full_test_suite` goes through, in this order.
pub open spec fn run_full_test_suite_targets() -> Seq<Seq<char>> {
    seq![
        "ai_core"@,
        "stablecoin_manager"@,
        "mainnet"@,
        "expansion_module"@,
        "domination_hub"@,
    ]
}

/// The table that `get_test_status` hands back.
pub open spec fn test_status_table() -> Map<Seq<char>, i64> {
    Map::<Seq<char>, i64>::empty()
        .insert("tests_run"@, 50)
        .insert("validation_rate"@, 100)
        .insert("suite_integrity"@, 100)
}

/// What stands under each name of the table.
pub proof fn lemma_test_status_table()
    ensures
        test_status_table().contains_key("tests_run"@),
        test_status_table()["tests_run"@] == 50,
        test_status_table().contains_key("validation_rate"@),
        test_status_table()["validation_rate"@] == 100,
        test_status_table().contains_key("suite_integrity"@),
        test_status_table()["suite_integrity"@] == 100,
{
    reveal_strlit("tests_run");
    reveal_strlit("validation_rate");
    reveal_strlit("suite_integrity");
    assert("tests_run"@.len() != "validation_rate"@.len());
    assert("tests_run"@.len() != "suite_integrity"@.len());
    assert("validation_rate"@[0] != "suite_integrity"@[0]);
}

/// The on-chain module that runs comprehensive tests and validations for Pi
/// Ecosystem.
#[derive(Clone, Copy, Debug)]
pub struct ComprehensiveTestSuiteValidation;

impl ComprehensiveTestSuiteValidation {
    /// Initialize the Test Suite.
    pub fn init() -> (module: ComprehensiveTestSuiteValidation) {
        ComprehensiveTestSuiteValidation
    }

    /// Run validation test. The record is named `test_` and the number of the
    /// ledger, and carries the time of the ledger.
    pub fn run_validation_test(ledger: Ledger, target: String) -> (test: ValidationTest)
        ensures
            fresh_validation_test(test, ledger, target@),
    {
        ValidationTest {
            id: record_id("test_", ledger.sequence),
            test_target: target,
            test_passed: true,
            validation_score: 100,
            timestamp: ledger.timestamp,
        }
    }

    /// Enforce test suite integrity. The answer is `test_enforced` where
    /// `test_passed` does not hold, and `validation_active` otherwise.
    pub fn enforce_test_integrity(test: ValidationTest) -> (state: String)
        ensures
            state@ == (if !test.test_passed {
                "test_enforced"@
            } else {
                "validation_active"@
            }),
    {
        if !test.test_passed {
            AhiAiCore::enforce_compliance();
            String::from_str("test_enforced")
        } else {
            String::from_str("validation_active")
        }
    }

    /// Run full test suite. One record for each of the 5 names of
    /// `run_full_test_suite_targets`, in their order.
    pub fn run_full_test_suite(ledger: Ledger) -> (tests: Vec<ValidationTest>)
        ensures
            tests@.len() == run_full_test_suite_targets().len(),
            forall|i: int|
                0 <= i < tests@.len() ==> fresh_validation_test(
                    #[trigger] tests@[i],
                    ledger,
                    run_full_test_suite_targets()[i],
                ),
    {
        let mut tests: Vec<ValidationTest> = Vec::new();
        tests.push(Self::run_validation_test(ledger, String::from_str("ai_core")));
        tests.push(Self::run_validation_test(ledger, String::from_str("stablecoin_manager")));
        tests.push(Self::run_validation_test(ledger, String::from_str("mainnet")));
        tests.push(Self::run_validation_test(ledger, String::from_str("expansion_module")));
        tests.push(Self::run_validation_test(ledger, String::from_str("domination_hub")));
        tests
    }

    /// Get test status.
    pub fn get_test_status() -> (status: StatusMap)
        ensures
            status@ == test_status_table(),
    {
        let mut status = StatusMap::new();
        status.set("tests_run", 50);
        status.set("validation_rate", 100);
        status.set("suite_integrity", 100);
        status
    }

    /// Update test rules. The rule is accepted while `universal_integration`
    /// stands at 100 in the table of
    /// `InfinitePiEcosystemExpansionUniversalIntegration::get_expansion_status`,
    /// which it always does.
    pub fn update_test_rules(new_rule: String) -> (r: Result<String, String>)
        ensures
            answer_texts(r) == Ok::<Seq<char>, Seq<char>>("updated"@),
    {
        let exp_status = InfinitePiEcosystemExpansionUniversalIntegration::get_expansion_status();
        proof {
            lemma_expansion_status_table();
        }
        if exp_status.get_or_zero("universal_integration") == 100 {
            Ok(String::from_str("updated"))
        } else {
            Err(String::from_str("update_rejected"))
        }
    }

    /// Render test hologram. The lines come in the order in which they are
    /// shown.
    pub fn render_test_hologram(test: ValidationTest) -> (hologram: Vec<String>)
        ensures
            texts(hologram@) == seq![
                "Comprehensive Test Hologram"@,
                test.test_target@,
                flag_text("Test Passed: "@, test.test_passed),
                number_text("Validation Score: "@, test.validation_score),
            ],
    {
        let mut hologram: Vec<String> = Vec::new();
        hologram.push(String::from_str("Comprehensive Test Hologram"));
        hologram.push(test.test_target);
        hologram.push(flag_line("Test Passed: ", test.test_passed));
        hologram.push(number_line("Validation Score: ", test.validation_score));
        assert(texts(hologram@) == seq![
            "Comprehensive Test Hologram"@,
            test.test_target@,
            flag_text("Test Passed: "@, test.test_passed),
            number_text("Validation Score: "@, test.validation_score),
        ]);
        hologram
    }
}

} // verus!
