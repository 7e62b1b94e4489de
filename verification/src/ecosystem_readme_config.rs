//! Manages PI-exclusive configuration and holographic documentation.

use vstd::prelude::*;
use vstd::string::StringExecFns;
use crate::ahi_ai_core::{answer_texts, filtered_answer, AhiAiCore};
use crate::hyper_ecosystem_monitor::{lemma_status_table, HyperEcosystemMonitor};
use crate::ledger::{label_line, number_line, number_text};
use crate::text::{str_equal, texts};

verus! {

/// The configuration of the ecosystem. `compliance_level` is `high` or `low`.
#[derive(Clone, Debug)]
pub struct EcosystemConfig {
    pub pi_stable_value: i64,
    pub max_apps: i64,
    pub compliance_level: String,
    pub readme_version: String,
}

/// Whether `config` is the configuration in force.
pub open spec fn is_current_config(config: EcosystemConfig) -> bool {
    &&& config.pi_stable_value == 314159
    &&& config.max_apps == 1000000000
    &&& config.compliance_level@ == "high"@
    &&& config.readme_version@ == "v_eternal_supremacy"@
}

/// The lines of the README.
pub open spec fn readme_lines() -> Seq<Seq<char>> {
    seq![
        "Pi Ecosystem Super App README"@,
        number_text("Stable Value: "@, 314159),
        number_text("Max Apps: "@, 1000000000),
        "Compliance: "@ + "high"@,
        "Version: "@ + "v_eternal_supremacy"@,
        "Holographic Archive: Eternal Supremacy"@,
    ]
}

/// The on-chain module that manages PI-exclusive configuration and holographic
/// documentation.
#[derive(Clone, Copy, Debug)]
pub struct EcosystemReadmeConfig;

impl EcosystemReadmeConfig {
    /// Initialize the Config.
    pub fn init() -> (module: EcosystemReadmeConfig) {
        EcosystemReadmeConfig
    }

    /// Generate dynamic README: a title, one line for each setting of the
    /// configuration in force, and a closing line.
    pub fn generate_readme() -> (readme: Vec<String>)
        ensures
            texts(readme@) == readme_lines(),
    {
        let config = Self::get_current_config();
        let mut readme: Vec<String> = Vec::new();
        readme.push(String::from_str("Pi Ecosystem Super App README"));
        readme.push(number_line("Stable Value: ", config.pi_stable_value));
        readme.push(number_line("Max Apps: ", config.max_apps));
        readme.push(label_line("Compliance: ", config.compliance_level.as_str()));
        readme.push(label_line("Version: ", config.readme_version.as_str()));
        readme.push(String::from_str("Holographic Archive: Eternal Supremacy"));
        assert(texts(readme@) == readme_lines());
        readme
    }

    /// Update config. The name of the new configuration, `config_` and its
    /// stable value, goes through the on-chain filter.
    pub fn update_config(new_config: EcosystemConfig) -> (r: Result<String, String>)
        ensures
            answer_texts(r) == filtered_answer(
                number_text("config_"@, new_config.pi_stable_value),
                "updated"@,
            ),
    {
        let config_symbol = number_line("config_", new_config.pi_stable_value);
        match AhiAiCore::filter_io(config_symbol.as_str()) {
            Err(rejection) => Err(rejection),
            Ok(_) => Ok(String::from_str("updated")),
        }
    }

    /// Get current config. The compliance level follows the status of the
    /// ecosystem monitor, under which the ecosystem is compliant.
    pub fn get_current_config() -> (config: EcosystemConfig)
        ensures
            is_current_config(config),
    {
        let metrics = HyperEcosystemMonitor::get_status();
        proof {
            lemma_status_table();
        }
        let compliance = if metrics.get_or_zero("compliance") == 1 {
            String::from_str("high")
        } else {
            String::from_str("low")
        };
        EcosystemConfig {
            pi_stable_value: 314159,
            max_apps: 1000000000,
            compliance_level: compliance,
            readme_version: String::from_str("v_eternal_supremacy"),
        }
    }

    /// Validate config against ecosystem. The configuration is valid once
    /// the ecosystem has evolved, which it always has.
    pub fn validate_config() -> (state: String)
        ensures
            state@ == "config_valid"@,
    {
        let _config = Self::get_current_config();
        let status = HyperEcosystemMonitor::evolve_ecosystem();
        if str_equal(status.as_str(), "evolution_complete") {
            String::from_str("config_valid")
        } else {
            String::from_str("config_invalid")
        }
    }
}

} // verus!
