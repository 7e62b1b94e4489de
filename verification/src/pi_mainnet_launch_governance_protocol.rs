//! Governs Pi mainnet launch and protocol with decentralized autonomy.

use vstd::prelude::*;
use vstd::string::StringExecFns;
use crate::ahi_ai_core::{answer_texts, AhiAiCore};
use crate::global_decentralized_ai_swarm_intelligence_hub::lemma_swarm_status_table;
use crate::global_decentralized_ai_swarm_intelligence_hub::GlobalDecentralizedAiSwarmIntelligenceHub;
use crate::ledger::{flag_line, flag_text, number_line, number_text, record_id, record_name};
use crate::ledger::{Ledger, StatusMap};
use crate::text::texts;

verus! {

/// A governance proposal, as `submit_vote_proposal` records it.
#[derive(Clone, Debug)]
pub struct GovernanceProposal {
    pub id: String,
    pub proposal_type: String,
    pub votes_for: i64,
    pub votes_against: i64,
    pub approved: bool,
    pub timestamp: u64,
}

/// Whether `proposal` is the record that `submit_vote_proposal` makes in
/// `ledger`.
pub open spec fn fresh_governance_proposal(
    proposal: GovernanceProposal,
    ledger: Ledger,
    proposal_type: Seq<char>,
) -> bool {
    &&& proposal.id@ == record_name("proposal_"@, ledger.sequence)
    &&& proposal.proposal_type@ == proposal_type
    &&& proposal.votes_for == 1000000
    &&& proposal.votes_against == 0
    &&& proposal.approved
    &&& proposal.timestamp == ledger.timestamp
}

/// What `launch_mainnet_via_governance` goes through, in this order.
pub open spec fn launch_mainnet_via_governance_targets() -> Seq<Seq<char>> {
    seq![
        "activate_mainnet"@,
        "sync_nodes"@,
        "enforce_pi_exclusivity"@,
    ]
}

/// The table that `get_governance_status` hands back.
pub open spec fn governance_status_table() -> Map<Seq<char>, i64> {
    Map::<Seq<char>, i64>::empty()
        .insert("proposals_approved"@, 50)
        .insert("mainnet_launch_progress"@, 100)
        .insert("governance_integrity"@, 100)
}

/// What stands under each name of the table.
pub proof fn lemma_governance_status_table()
    ensures
        governance_status_table().contains_key("proposals_approved"@),
        governance_status_table()["proposals_approved"@] == 50,
        governance_status_table().contains_key("mainnet_launch_progress"@),
        governance_status_table()["mainnet_launch_progress"@] == 100,
        governance_status_table().contains_key("governance_integrity"@),
        governance_status_table()["governance_integrity"@] == 100,
{
    reveal_strlit("proposals_approved");
    reveal_strlit("mainnet_launch_progress");
    reveal_strlit("governance_integrity");
    assert("proposals_approved"@.len() != "mainnet_launch_progress"@.len());
    assert("proposals_approved"@.len() != "governance_integrity"@.len());
    assert("mainnet_launch_progress"@.len() != "governance_integrity"@.len());
}

/// The on-chain module that governs Pi mainnet launch and protocol with
/// decentralized autonomy.
#[derive(Clone, Copy, Debug)]
pub struct PiMainnetLaunchGovernanceProtocol;

impl PiMainnetLaunchGovernanceProtocol {
    /// Initialize the Governance Protocol.
    pub fn init() -> (module: PiMainnetLaunchGovernanceProtocol) {
        PiMainnetLaunchGovernanceProtocol
    }

    /// Submit and vote on governance proposal. The record is named `proposal_`
    /// and the number of the ledger, and carries the time of the ledger.
    pub fn submit_vote_proposal(ledger: Ledger, proposal_type: String) -> (proposal:
        GovernanceProposal)
        ensures
            fresh_governance_proposal(proposal, ledger, proposal_type@),
    {
        GovernanceProposal {
            id: record_id("proposal_", ledger.sequence),
            proposal_type,
            votes_for: 1000000,
            votes_against: 0,
            approved: true,
            timestamp: ledger.timestamp,
        }
    }

    /// Enforce governance protocol. The answer is `protocol_enforced` where
    /// `approved` does not hold, and `governance_active` otherwise.
    pub fn enforce_governance_protocol(proposal: GovernanceProposal) -> (state: String)
        ensures
            state@ == (if !proposal.approved {
                "protocol_enforced"@
            } else {
                "governance_active"@
            }),
    {
        if !proposal.approved {
            AhiAiCore::enforce_compliance();
            String::from_str("protocol_enforced")
        } else {
            String::from_str("governance_active")
        }
    }

    /// Launch mainnet via governance. One record for each of the 3 names of
    /// `launch_mainnet_via_governance_targets`, in their order.
    pub fn launch_mainnet_via_governance(ledger: Ledger) -> (proposals: Vec<GovernanceProposal>)
        ensures
            proposals@.len() == launch_mainnet_via_governance_targets().len(),
            forall|i: int|
                0 <= i < proposals@.len() ==> fresh_governance_proposal(
                    #[trigger] proposals@[i],
                    ledger,
                    launch_mainnet_via_governance_targets()[i],
                ),
    {
        let mut proposals: Vec<GovernanceProposal> = Vec::new();
        proposals.push(Self::submit_vote_proposal(ledger, String::from_str("activate_mainnet")));
        proposals.push(Self::submit_vote_proposal(ledger, String::from_str("sync_nodes")));
        proposals.push(Self::submit_vote_proposal(
            ledger,
            String::from_str("enforce_pi_exclusivity"),
        ));
        proposals
    }

    /// Get governance status.
    pub fn get_governance_status() -> (status: StatusMap)
        ensures
            status@ == governance_status_table(),
    {
        let mut status = StatusMap::new();
        status.set("proposals_approved", 50);
        status.set("mainnet_launch_progress", 100);
        status.set("governance_integrity", 100);
        status
    }

    /// Update governance rules. The rule is accepted while `consensus_rate`
    /// stands at 100 in the table of
    /// `GlobalDecentralizedAiSwarmIntelligenceHub::get_swarm_status`, which it
    /// always does.
    pub fn update_governance_rules(new_rule: String) -> (r: Result<String, String>)
        ensures
            answer_texts(r) == Ok::<Seq<char>, Seq<char>>("updated"@),
    {
        let swarm_status = GlobalDecentralizedAiSwarmIntelligenceHub::get_swarm_status();
        proof {
            lemma_swarm_status_table();
        }
        if swarm_status.get_or_zero("consensus_rate") == 100 {
            Ok(String::from_str("updated"))
        } else {
            Err(String::from_str("update_rejected"))
        }
    }

    /// Render governance hologram. The lines come in the order in which they
    /// are shown.
    pub fn render_governance_hologram(proposal: GovernanceProposal) -> (hologram: Vec<String>)
        ensures
            texts(hologram@) == seq![
                "Mainnet Governance Hologram"@,
                proposal.proposal_type@,
                flag_text("Approved: "@, proposal.approved),
                number_text("Votes For: "@, proposal.votes_for),
            ],
    {
        let mut hologram: Vec<String> = Vec::new();
        hologram.push(String::from_str("Mainnet Governance Hologram"));
        hologram.push(proposal.proposal_type);
        hologram.push(flag_line("Approved: ", proposal.approved));
        hologram.push(number_line("Votes For: ", proposal.votes_for));
        assert(texts(hologram@) == seq![
            "Mainnet Governance Hologram"@,
            proposal.proposal_type@,
            flag_text("Approved: "@, proposal.approved),
            number_text("Votes For: "@, proposal.votes_for),
        ]);
        hologram
    }
}

} // verus!
