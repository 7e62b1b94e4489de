//! Enables infinite expansion and universal integration for Pi Ecosystem.

use vstd::prelude::*;
use vstd::string::StringExecFns;
use crate::ahi_ai_core::{answer_texts, filtered_answer, AhiAiCore};
use crate::autonomous_app_builder::{lemma_metrics_table, AutonomousAppBuilder};
use crate::text::texts;

verus! {

/// The on-chain module that enables infinite expansion and universal
/// integration for Pi Ecosystem.
#[derive(Clone, Copy, Debug)]
pub struct FinalHyperExpansionModule;

impl FinalHyperExpansionModule {
    /// Initialize the Expansion Module.
    pub fn init() -> (module: FinalHyperExpansionModule) {
        FinalHyperExpansionModule
    }

    /// Expand ecosystem infinitely: a thousand times the applications that
    /// the builder manages.
    pub fn expand_infinitely() -> (state: String)
        ensures
            state@ == "infinite_expansion"@,
    {
        let metrics = AutonomousAppBuilder::get_metrics();
        proof {
            lemma_metrics_table();
        }
        let current_apps = metrics.get_or_zero("apps_managed");
        let expanded_apps: i64 = current_apps * 1000;
        assert(expanded_apps == 1000000000);
        String::from_str("infinite_expansion")
    }

    /// Integrate universally. The external system goes through the
    /// on-chain filter.
    pub fn integrate_universally(external_system: String) -> (r: Result<String, String>)
        ensures
            answer_texts(r) == filtered_answer(external_system@, "integrated"@),
    {
        match AhiAiCore::filter_io(external_system.as_str()) {
            Err(rejection) => Err(rejection),
            Ok(_) => Ok(String::from_str("integrated")),
        }
    }

    /// Trigger final expansion.
    pub fn trigger_final_expansion() -> (state: String)
        ensures
            state@ == "supremacy_eternal"@,
    {
        Self::expand_infinitely();
        String::from_str("supremacy_eternal")
    }

    /// Get expansion metrics.
    pub fn get_expansion_metrics() -> (names: Vec<String>)
        ensures
            texts(names@) == seq![
                "infinite_apps"@,
                "universal_connections"@,
                "eternal_stability"@,
            ],
    {
        let mut names: Vec<String> = Vec::new();
        names.push(String::from_str("infinite_apps"));
        names.push(String::from_str("universal_connections"));
        names.push(String::from_str("eternal_stability"));
        assert(texts(names@) == seq![
            "infinite_apps"@,
            "universal_connections"@,
            "eternal_stability"@,
        ]);
        names
    }
}

} // verus!
