//! Pi ecosystem service pipeline: a compliance filter, a quarantine shield, a
//! transaction ledger, a node pool, an application registry and the
//! controller that supervises them, each with a machine-checked contract.
//!
//! The subsystems own their state and never wait: whatever needs the
//! network or a timer is handed in by the caller, as a value. Quantities
//! that are fractions by nature are whole numbers here: PI amounts are
//! counted in millionths of a PI, scores and rates in hundredths.
//!
//! Beside the off-chain subsystems stand the on-chain modules. Each is a
//! set of functions on plain values; what a contract call would read from
//! its host, it takes as a [`ledger::Ledger`].

// The off-chain subsystems, in the order of their dependence.
pub mod hyper_ai_core;
pub mod ecosystem_isolation_shield;
pub mod pi_transaction_engine;
pub mod pi_mainnet_accelerator;
pub mod developer_app_orchestrator;
pub mod super_app_controller;
pub mod pi_ecosystem_dashboard;

// What the subsystems share.
pub mod digest;
pub mod host;
pub mod pattern;
pub mod text;
pub mod ledger;

// The on-chain modules.
pub mod absolute_final_ecosystem_seal_eternal_guardian;
pub mod ahi_ai_core;
pub mod autonomous_app_builder;
pub mod comprehensive_test_suite_validation;
pub mod ecosystem_readme_config;
pub mod eternal_quantum_security_anti_quantum_threat;
pub mod final_ecosystem_synthesis_ui_hub;
pub mod final_hyper_expansion_module;
pub mod final_pi_mainnet_supremacy_global_domination;
pub mod final_universal_integration_supremacy_capstone;
pub mod global_decentralized_ai_swarm_intelligence_hub;
pub mod global_pi_oracle_compliance_verifier;
pub mod hyper_ecosystem_monitor;
pub mod infinite_pi_ecosystem_expansion_universal_integration;
pub mod master_control_final_integration_script;
pub mod pi_mainnet_integration_real_time_synchronization;
pub mod pi_mainnet_launch_governance_protocol;
pub mod pi_network_decentralization_engine;
pub mod pi_network_decentralized_governance_council;
pub mod pi_network_eternal_decentralization_monitor;
pub mod pi_network_final_eternal_supremacy_capstone;
pub mod pi_network_full_decentralization_capstone;
pub mod pi_network_global_announcer;
pub mod pi_network_hyper_oracle;
pub mod pi_network_mainnet_trigger;
pub mod pi_network_quantum_security_network;
pub mod pi_network_super_advanced_evolution_engine;
pub mod pi_network_super_intelligence_core;
pub mod pi_network_ultimate_perfection_module;
pub mod pi_purity_accountability_enforcer;
pub mod pi_stablecoin_manager;
pub mod quantum_ai_optimizer_predictive_maintenance;
pub mod quantum_security_layer;
pub mod ultimate_ai_governance_ethical_overseer;
pub mod ultimate_deployment_script;
pub mod ultimate_ecosystem_documentation_holographic_archive;
pub mod ultimate_ecosystem_guardian_summary_script;
pub mod ultimate_pi_mainnet_activation_eternal_stability;
pub mod ultimate_pi_mainnet_enabler;
