//! The mainnet accelerator: keeps the pool of nodes, assigns applications
//! to them in turn, and tracks how the network evolves.
//!
//! Progress and rates are whole numbers of hundredths: 100 is 1.00.

use rayon::iter::{IntoParallelRefIterator, ParallelIterator};
use vstd::prelude::*;
use vstd::string::StringExecFns;
use crate::hyper_ai_core::{classification, reply_error, state_after};
use crate::hyper_ai_core::{AutonomousHyperAI, ComplianceReply, FilterRejection};
use crate::text::{clone_strings, decimal, push_decimal, texts};

verus! {

/// How many nodes one acceleration adds to the pool.
pub const NODE_POOL_SIZE: usize = 1000;

/// The state of a node.
#[derive(Clone, Copy, Debug, PartialEq, Eq, Structural)]
pub enum NodeStatus {
    Syncing,
    Active,
    Halted,
}

/// A node of the mainnet, with the applications assigned to it.
#[derive(Debug)]
pub struct PiNode {
    pub id: String,
    pub status: NodeStatus,
    pub apps_managed: Vec<String>,
}

/// The mathematical content of a node.
pub ghost struct NodeModel {
    pub id: Seq<char>,
    pub status: NodeStatus,
    pub apps_managed: Seq<Seq<char>>,
}

impl View for PiNode {
    type V = NodeModel;

    open spec fn view(&self) -> NodeModel {
        NodeModel {
            id: self.id@,
            status: self.status,
            apps_managed: texts(self.apps_managed@),
        }
    }
}

impl Clone for PiNode {
    fn clone(&self) -> (copy: Self)
        ensures
            copy@ == self@,
    {
        PiNode {
            id: self.id.clone(),
            status: self.status,
            apps_managed: clone_strings(&self.apps_managed),
        }
    }
}

/// The node that comes out of a successful sync: active, with no
/// application yet.
pub open spec fn synced_node(id: Seq<char>) -> NodeModel {
    NodeModel { id, status: NodeStatus::Active, apps_managed: Seq::empty() }
}

impl PiNode {
    /// The node `id` after a successful sync.
    pub fn synced(id: &String) -> (node: PiNode)
        ensures
            node@ == synced_node(id@),
    {
        let node = PiNode { id: id.clone(), status: NodeStatus::Active, apps_managed: Vec::new() };
        assert(node@.apps_managed == Seq::<Seq<char>>::empty());
        node
    }
}

/// The models of a list of nodes.
pub open spec fn node_models(nodes: Seq<PiNode>) -> Seq<NodeModel> {
    nodes.map_values(|n: PiNode| n@)
}

/// The identifier of the `i`-th node of a pool.
pub open spec fn node_id(i: nat) -> Seq<char> {
    "node_"@ + decimal(i)
}

/// The pool that one acceleration adds: `NODE_POOL_SIZE` synced nodes,
/// `node_0` first.
pub open spec fn fresh_pool() -> Seq<NodeModel> {
    Seq::new(NODE_POOL_SIZE as nat, |i: int| synced_node(node_id(i as nat)))
}

/// `par_iter`, `map` and `collect` of the `rayon` crate, over the node
/// identifiers, with `PiNode::synced` as the function that is mapped. The
/// contract claims that the list that comes back has one node for each
/// identifier, in the order of the identifiers, and that each is what
/// `PiNode::synced` makes of its identifier.
#[verifier::external_body]
fn sync_in_parallel(ids: &Vec<String>) -> (nodes: Vec<PiNode>)
    ensures
        nodes@.len() == ids@.len(),
        forall|i: int| 0 <= i < ids@.len() ==> (#[trigger] nodes@[i])@ == synced_node(ids@[i]@),
{
    ids.par_iter().map(|id| PiNode::synced(id)).collect()
}

/// The figures by which the evolution of the network is followed.
#[derive(Clone, Copy, Debug, PartialEq, Eq, Structural)]
pub struct EvolutionMetrics {
    /// How far the mainnet is open, in hundredths.
    pub mainnet_open_progress: u32,
    pub apps_processed: u64,
    /// The compliance rate, in hundredths.
    pub compliance_rate: u32,
}

/// The metrics after one step of evolution: the compliance rate is 0.01
/// higher, up to 1.00.
pub open spec fn evolved(metrics: EvolutionMetrics) -> EvolutionMetrics {
    EvolutionMetrics {
        compliance_rate: if metrics.compliance_rate < 100 {
            (metrics.compliance_rate + 1) as u32
        } else {
            100
        },
        ..metrics
    }
}

/// Why the accelerator refused.
#[derive(Clone, Copy, Debug, PartialEq, Eq, Structural)]
pub enum AcceleratorError {
    /// The network is not compliant, or the external integration is
    /// halted.
    NotCompliant,
    /// The compliance filter rejected an application identifier.
    Rejected(FilterRejection),
    /// There is no node to assign an application to.
    NoNodes,
    /// The application counter cannot count that far.
    CapacityExhausted,
}

impl AcceleratorError {
    /// The error in words.
    pub open spec fn words(self) -> Seq<char> {
        match self {
            AcceleratorError::NotCompliant =>
                "Acceleration halted: Pi Network non-compliant or Stellar support active."@,
            AcceleratorError::Rejected(rejection) => crate::hyper_ai_core::rejection_message(
                rejection.volatility,
            ),
            AcceleratorError::NoNodes => "No nodes available for app assignment."@,
            AcceleratorError::CapacityExhausted => "App capacity exhausted."@,
        }
    }

    /// The error in words.
    pub fn message(&self) -> (text: String)
        ensures
            text@ == self.words(),
    {
        match self {
            AcceleratorError::NotCompliant => String::from_str(
                "Acceleration halted: Pi Network non-compliant or Stellar support active.",
            ),
            AcceleratorError::Rejected(rejection) => rejection.message(),
            AcceleratorError::NoNodes => String::from_str("No nodes available for app assignment."),
            AcceleratorError::CapacityExhausted => String::from_str("App capacity exhausted."),
        }
    }
}

/// The rejection of the first identifier that the compliance filter does
/// not accept, if there is one.
pub open spec fn first_rejection(ids: Seq<Seq<char>>) -> Option<FilterRejection>
    decreases ids.len(),
{
    if ids.len() == 0 {
        None
    } else {
        match classification(ids[0]) {
            Err(rejection) => Some(rejection),
            Ok(_) => first_rejection(ids.drop_first()),
        }
    }
}

/// The identifiers that fall to node `slot` when `ids` are dealt out in
/// turn to `slots` nodes: those whose position leaves the remainder
/// `slot`, in their order.
pub open spec fn share(ids: Seq<Seq<char>>, slot: int, slots: int) -> Seq<Seq<char>>
    decreases ids.len(),
{
    if ids.len() == 0 {
        Seq::empty()
    } else if (ids.len() - 1) % slots == slot {
        share(ids.drop_last(), slot, slots).push(ids.last())
    } else {
        share(ids.drop_last(), slot, slots)
    }
}

/// The nodes after `ids` were dealt out to them in turn.
pub open spec fn dealt(nodes: Seq<NodeModel>, ids: Seq<Seq<char>>) -> Seq<NodeModel> {
    Seq::new(
        nodes.len(),
        |k: int|
            NodeModel {
                id: nodes[k].id,
                status: nodes[k].status,
                apps_managed: nodes[k].apps_managed + share(ids, k, nodes.len() as int),
            },
    )
}

/// How many assignments the nodes hold in all.
pub open spec fn total_assigned(nodes: Seq<NodeModel>) -> nat
    decreases nodes.len(),
{
    if nodes.len() == 0 {
        0
    } else {
        total_assigned(nodes.drop_last()) + nodes.last().apps_managed.len()
    }
}

/// What `manage_apps` answers for `ids` with `node_count` nodes, after
/// `assigned` earlier assignments. The first failure decides.
pub open spec fn assignment_verdict(ids: Seq<Seq<char>>, node_count: nat, assigned: nat) -> Result<
    (),
    AcceleratorError,
> {
    match first_rejection(ids) {
        Some(rejection) => Err(AcceleratorError::Rejected(rejection)),
        None => if ids.len() > 0 && node_count == 0 {
            Err(AcceleratorError::NoNodes)
        } else if assigned + ids.len() > u64::MAX {
            Err(AcceleratorError::CapacityExhausted)
        } else {
            Ok(())
        },
    }
}

/// One more assignment on one node is one more assignment in all.
proof fn lemma_total_after_push(nodes: Seq<NodeModel>, after: Seq<NodeModel>, slot: int)
    requires
        0 <= slot < nodes.len(),
        after.len() == nodes.len(),
        after[slot].apps_managed.len() == nodes[slot].apps_managed.len() + 1,
        forall|k: int| 0 <= k < nodes.len() && k != slot ==> after[k] == nodes[k],
    ensures
        total_assigned(after) == total_assigned(nodes) + 1,
    decreases nodes.len(),
{
    let front = nodes.drop_last();
    let front_after = after.drop_last();
    if slot == nodes.len() - 1 {
        assert(front_after == front);
    } else {
        lemma_total_after_push(front, front_after, slot);
    }
}

/// Nodes without assignments add nothing to the total.
proof fn lemma_total_with_fresh(nodes: Seq<NodeModel>, more: Seq<NodeModel>)
    requires
        forall|k: int| 0 <= k < more.len() ==> (#[trigger] more[k]).apps_managed.len() == 0,
    ensures
        total_assigned(nodes + more) == total_assigned(nodes),
    decreases more.len(),
{
    if more.len() == 0 {
        assert(nodes + more == nodes);
    } else {
        assert((nodes + more).drop_last() == nodes + more.drop_last());
        lemma_total_with_fresh(nodes, more.drop_last());
    }
}

/// Dealing out identifiers adds as many assignments as there are
/// identifiers: the counter and the lists of the nodes agree.
pub proof fn lemma_dealt_total(nodes: Seq<NodeModel>, ids: Seq<Seq<char>>)
    requires
        nodes.len() > 0,
    ensures
        total_assigned(dealt(nodes, ids)) == total_assigned(nodes) + ids.len(),
    decreases ids.len(),
{
    if ids.len() == 0 {
        assert forall|k: int| 0 <= k < nodes.len() implies dealt(nodes, ids)[k] == nodes[k] by {
            assert(nodes[k].apps_managed + Seq::<Seq<char>>::empty() == nodes[k].apps_managed);
        }
        assert(dealt(nodes, ids) == nodes);
    } else {
        let earlier = dealt(nodes, ids.drop_last());
        lemma_dealt_total(nodes, ids.drop_last());
        let slot = (ids.len() - 1) % (nodes.len() as int);
        let now = dealt(nodes, ids);
        assert(now[slot].apps_managed == earlier[slot].apps_managed.push(ids.last()));
        lemma_total_after_push(earlier, now, slot);
    }
}

/// An identifier that is dealt out alone goes to the first node and to no
/// other.
pub proof fn lemma_single_assignment(nodes: Seq<NodeModel>, id: Seq<char>)
    requires
        nodes.len() > 0,
    ensures
        dealt(nodes, seq![id])[0].apps_managed == nodes[0].apps_managed.push(id),
        forall|k: int| 0 < k < nodes.len() ==> (#[trigger] dealt(nodes, seq![id])[k]) == nodes[k],
{
    let ids = seq![id];
    assert(ids.drop_last() == Seq::<Seq<char>>::empty());
    assert(share(ids.drop_last(), 0, nodes.len() as int) == Seq::<Seq<char>>::empty());
    assert(share(ids, 0, nodes.len() as int) == seq![id]);
    assert(nodes[0].apps_managed + seq![id] == nodes[0].apps_managed.push(id));
    assert forall|k: int| 0 < k < nodes.len() implies (#[trigger] dealt(nodes, ids)[k])
        == nodes[k] by {
        assert(share(ids.drop_last(), k, nodes.len() as int) == Seq::<Seq<char>>::empty());
        assert(share(ids, k, nodes.len() as int) == Seq::<Seq<char>>::empty());
        assert(nodes[k].apps_managed + Seq::<Seq<char>>::empty() == nodes[k].apps_managed);
    }
}

/// The accelerator.
pub struct PiMainnetAccelerator {
    nodes: Vec<PiNode>,
    app_count: u64,
    evolution_metrics: EvolutionMetrics,
}

impl PiMainnetAccelerator {
    /// The nodes of the pool, in the order in which they were added.
    pub closed spec fn pool(&self) -> Seq<NodeModel> {
        node_models(self.nodes@)
    }

    /// How many applications were assigned.
    pub closed spec fn assigned(&self) -> nat {
        self.app_count as nat
    }

    /// The evolution metrics.
    pub closed spec fn metrics(&self) -> EvolutionMetrics {
        self.evolution_metrics
    }

    /// The invariant of the accelerator: the application counter, the
    /// metrics and the lists of the nodes agree, and the rates are at most
    /// 1.00.
    pub closed spec fn wf(&self) -> bool {
        &&& self.app_count == total_assigned(node_models(self.nodes@))
        &&& self.evolution_metrics.apps_processed == self.app_count
        &&& self.evolution_metrics.compliance_rate <= 100
        &&& self.evolution_metrics.mainnet_open_progress <= 100
    }

    /// In a well-formed accelerator the counter is the number of
    /// assignments that the nodes hold.
    pub proof fn lemma_counts_agree(&self)
        requires
            self.wf(),
        ensures
            self.assigned() == total_assigned(self.pool()),
            self.metrics().apps_processed == self.assigned(),
            self.metrics().compliance_rate <= 100,
            self.metrics().mainnet_open_progress <= 100,
    {
    }

    /// An accelerator without nodes: nothing is open, nothing is assigned,
    /// the compliance rate is 1.00.
    pub fn new() -> (accelerator: Self)
        ensures
            accelerator.wf(),
            accelerator.pool() == Seq::<NodeModel>::empty(),
            accelerator.assigned() == 0,
            accelerator.metrics() == (EvolutionMetrics {
                mainnet_open_progress: 0,
                apps_processed: 0,
                compliance_rate: 100,
            }),
    {
        let accelerator = PiMainnetAccelerator {
            nodes: Vec::new(),
            app_count: 0,
            evolution_metrics: EvolutionMetrics {
                mainnet_open_progress: 0,
                apps_processed: 0,
                compliance_rate: 100,
            },
        };
        assert(accelerator.pool() == Seq::<NodeModel>::empty());
        accelerator
    }

    /// The identifiers `node_0` to `node_999`.
    fn pool_ids() -> (ids: Vec<String>)
        ensures
            ids@.len() == NODE_POOL_SIZE,
            forall|i: int| 0 <= i < NODE_POOL_SIZE ==> (#[trigger] ids@[i])@ == node_id(i as nat),
    {
        let mut ids: Vec<String> = Vec::new();
        let mut i: usize = 0;
        while i < NODE_POOL_SIZE
            invariant
                i <= NODE_POOL_SIZE,
                ids@.len() == i,
                forall|j: int| 0 <= j < i ==> (#[trigger] ids@[j])@ == node_id(j as nat),
            decreases NODE_POOL_SIZE - i,
        {
            let mut id = String::from_str("node_");
            push_decimal(&mut id, i as u64);
            ids.push(id);
            i += 1;
        }
        ids
    }

    /// Opens the mainnet: adds a pool of synced nodes, provided that the
    /// network is compliant and the external integration is not halted.
    /// Otherwise nothing changes.
    pub fn accelerate_mainnet(&mut self, ai_core: &AutonomousHyperAI) -> (r: Result<
        (),
        AcceleratorError,
    >)
        requires
            old(self).wf(),
        ensures
            final(self).wf(),
            final(self).assigned() == old(self).assigned(),
            match r {
                Ok(_) => {
                    &&& ai_core.status() == (true, false)
                    &&& final(self).pool() == old(self).pool() + fresh_pool()
                    &&& final(self).metrics() == (EvolutionMetrics {
                        mainnet_open_progress: 100,
                        ..old(self).metrics()
                    })
                },
                Err(e) => {
                    &&& ai_core.status() != (true, false)
                    &&& e == AcceleratorError::NotCompliant
                    &&& final(self).pool() == old(self).pool()
                    &&& final(self).metrics() == old(self).metrics()
                },
            },
    {
        let (compliant, stellar_halted) = ai_core.get_status();
        if !compliant || stellar_halted {
            return Err(AcceleratorError::NotCompliant);
        }
        let ids = Self::pool_ids();
        let mut synced = sync_in_parallel(&ids);
        proof {
            assert(node_models(synced@) == fresh_pool());
            assert(node_models(self.nodes@ + synced@) == node_models(self.nodes@) + node_models(
                synced@,
            ));
            lemma_total_with_fresh(node_models(self.nodes@), fresh_pool());
        }
        self.nodes.append(&mut synced);
        self.evolution_metrics.mainnet_open_progress = 100;
        Ok(())
    }

    /// Shows each identifier to the compliance filter, in order, and
    /// hands back the first rejection.
    fn screen(ai_core: &AutonomousHyperAI, app_ids: &Vec<String>) -> (rejection: Option<
        FilterRejection,
    >)
        ensures
            rejection == first_rejection(texts(app_ids@)),
    {
        let ghost all = texts(app_ids@);
        assert(all.skip(0) == all);
        let mut i: usize = 0;
        while i < app_ids.len()
            invariant
                i <= app_ids.len(),
                all == texts(app_ids@),
                first_rejection(all) == first_rejection(all.skip(i as int)),
            decreases app_ids.len() - i,
        {
            let ghost rest = all.skip(i as int);
            assert(rest[0] == app_ids@[i as int]@);
            assert(rest.drop_first() == all.skip(i as int + 1));
            match ai_core.filter_io(app_ids[i].as_str()) {
                Err(rejection) => {
                    return Some(rejection);
                },
                Ok(_) => {},
            }
            i += 1;
        }
        None
    }

    /// Assigns applications to the nodes. Every identifier is first shown
    /// to the compliance filter; the first rejection ends the call with
    /// nothing assigned. Then the identifiers are dealt out to the nodes in
    /// turn, the first to the first node; without a node this fails, and so
    /// it does where the counter of applications would overflow.
    pub fn manage_apps(&mut self, ai_core: &AutonomousHyperAI, app_ids: Vec<String>) -> (r: Result<
        (),
        AcceleratorError,
    >)
        requires
            old(self).wf(),
        ensures
            final(self).wf(),
            r == assignment_verdict(
                texts(app_ids@),
                old(self).pool().len(),
                old(self).assigned(),
            ),
            match r {
                Ok(_) => {
                    &&& final(self).pool() == dealt(old(self).pool(), texts(app_ids@))
                    &&& final(self).assigned() == old(self).assigned() + app_ids@.len()
                    &&& final(self).metrics() == (EvolutionMetrics {
                        apps_processed: final(self).assigned() as u64,
                        compliance_rate: 99,
                        ..old(self).metrics()
                    })
                },
                Err(_) => {
                    &&& final(self).pool() == old(self).pool()
                    &&& final(self).assigned() == old(self).assigned()
                    &&& final(self).metrics() == old(self).metrics()
                },
            },
    {
        let ghost ids = texts(app_ids@);
        let ghost before = self.pool();
        match Self::screen(ai_core, &app_ids) {
            Some(rejection) => {
                return Err(AcceleratorError::Rejected(rejection));
            },
            None => {},
        }
        let slots = self.nodes.len();
        if app_ids.len() > 0 && slots == 0 {
            return Err(AcceleratorError::NoNodes);
        }
        if app_ids.len() as u64 > u64::MAX - self.app_count {
            return Err(AcceleratorError::CapacityExhausted);
        }
        let mut i: usize = 0;
        while i < app_ids.len()
            invariant
                i <= app_ids.len(),
                ids == texts(app_ids@),
                slots == self.nodes.len(),
                slots == before.len(),
                app_ids.len() > 0 ==> slots > 0,
                self.app_count == old(self).app_count,
                self.evolution_metrics == old(self).evolution_metrics,
                node_models(self.nodes@) == dealt(before, ids.take(i as int)),
            decreases app_ids.len() - i,
        {
            let slot = i % slots;
            let ghost earlier = node_models(self.nodes@);
            self.nodes[slot].apps_managed.push(app_ids[i].clone());
            proof {
                let done = ids.take(i as int + 1);
                assert(done.drop_last() == ids.take(i as int));
                assert(done.last() == app_ids@[i as int]@);
                let now = node_models(self.nodes@);
                assert(now[slot as int].apps_managed == earlier[slot as int].apps_managed.push(
                    done.last(),
                ));
                assert forall|k: int| 0 <= k < slots implies now[k] == dealt(before, done)[k] by {
                    if k == slot {
                        assert(before[k].apps_managed + share(ids.take(i as int), k, slots as int).push(
                            done.last(),
                        ) == (before[k].apps_managed + share(
                            ids.take(i as int),
                            k,
                            slots as int,
                        )).push(done.last()));
                    } else {
                        assert(now[k] == earlier[k]);
                    }
                }
                assert(now == dealt(before, done));
            }
            i += 1;
        }
        proof {
            assert(ids.take(app_ids.len() as int) == ids);
            if slots > 0 {
                lemma_dealt_total(before, ids);
            } else {
                assert(dealt(before, ids) == before);
            }
        }
        self.app_count = self.app_count + app_ids.len() as u64;
        self.evolution_metrics.apps_processed = self.app_count;
        self.evolution_metrics.compliance_rate = 99;
        Ok(())
    }

    /// One step of evolution: the compliance rate rises by 0.01, up to
    /// 1.00, and then the answer of the compliance source is taken in, as
    /// `AutonomousHyperAI::enforce_compliance` does. The rate rises even
    /// when the source failed.
    pub fn evolve_system(&mut self, ai_core: &mut AutonomousHyperAI, reply: ComplianceReply) -> (r:
        Result<(), String>)
        requires
            old(self).wf(),
        ensures
            final(self).wf(),
            final(self).pool() == old(self).pool(),
            final(self).assigned() == old(self).assigned(),
            final(self).metrics() == evolved(old(self).metrics()),
            final(ai_core).status() == state_after(old(ai_core).status(), reply),
            match r {
                Ok(_) => reply_error(reply) is None,
                Err(reason) => reply_error(reply) == Some(reason@),
            },
    {
        if self.evolution_metrics.compliance_rate < 100 {
            self.evolution_metrics.compliance_rate = self.evolution_metrics.compliance_rate + 1;
        }
        ai_core.enforce_compliance(reply)
    }

    /// The evolution metrics.
    pub fn get_metrics(&self) -> (metrics: EvolutionMetrics)
        ensures
            metrics == self.metrics(),
    {
        self.evolution_metrics
    }

    /// How many applications were assigned.
    pub fn get_app_count(&self) -> (count: u64)
        ensures
            count == self.assigned(),
    {
        self.app_count
    }

    /// A copy of the nodes, in the order in which they were added.
    pub fn get_nodes(&self) -> (nodes: Vec<PiNode>)
        ensures
            node_models(nodes@) == self.pool(),
    {
        let mut nodes: Vec<PiNode> = Vec::new();
        let mut i: usize = 0;
        while i < self.nodes.len()
            invariant
                i <= self.nodes.len(),
                nodes@.len() == i,
                forall|j: int| 0 <= j < i ==> (#[trigger] nodes@[j])@ == self.nodes@[j]@,
            decreases self.nodes.len() - i,
        {
            nodes.push(self.nodes[i].clone());
            i += 1;
        }
        assert(node_models(nodes@) == self.pool());
        nodes
    }
}

} // verus!
