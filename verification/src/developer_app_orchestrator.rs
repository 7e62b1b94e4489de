//! The application orchestrator: deploys, runs and halts the applications
//! of developers.
//!
//! PI amounts are whole numbers of millionths of a PI; rates are whole
//! numbers of hundredths.

use rayon::iter::{IntoParallelRefIterator, ParallelIterator};
use vstd::prelude::*;
use vstd::string::StringExecFns;
use crate::digest::{fingerprint, is_hex_char, sha256_hex};
use crate::ecosystem_isolation_shield::{outcome, records_of};
use crate::ecosystem_isolation_shield::{EcosystemIsolationShield, IsolationError};
use crate::host::{is_uuid_text, random_uuid, unix_now};
use crate::hyper_ai_core::{accepts, marker, reply_error, state_after, volatility};
use crate::hyper_ai_core::{AutonomousHyperAI, ComplianceReply};
use crate::pi_mainnet_accelerator::{assignment_verdict, dealt, evolved, first_rejection};
use crate::pi_mainnet_accelerator::{AcceleratorError, EvolutionMetrics, PiMainnetAccelerator};
use crate::text::{fixed2, occurrences_from, occurs_at, push_fixed2};

verus! {

/// What the deployment of one application costs: 100 PI.
pub const APP_PI_COST: u64 = 100_000_000;

/// The state of an application.
#[derive(Clone, Copy, Debug, PartialEq, Eq, Structural)]
pub enum AppStatus {
    Building,
    Running,
    Halted,
}

/// An application of a developer.
#[derive(Debug)]
pub struct PiApp {
    pub id: String,
    pub developer: String,
    /// The hash of the code, for its integrity.
    pub code_hash: String,
    pub status: AppStatus,
    /// The PI that the application has consumed, in millionths.
    pub pi_usage: u64,
}

/// The mathematical content of an application.
pub ghost struct AppModel {
    pub id: Seq<char>,
    pub developer: Seq<char>,
    pub code_hash: Seq<char>,
    pub status: AppStatus,
    pub pi_usage: u64,
}

impl View for PiApp {
    type V = AppModel;

    open spec fn view(&self) -> AppModel {
        AppModel {
            id: self.id@,
            developer: self.developer@,
            code_hash: self.code_hash@,
            status: self.status,
            pi_usage: self.pi_usage,
        }
    }
}

impl Clone for PiApp {
    fn clone(&self) -> (copy: Self)
        ensures
            copy == *self,
    {
        PiApp {
            id: self.id.clone(),
            developer: self.developer.clone(),
            code_hash: self.code_hash.clone(),
            status: self.status,
            pi_usage: self.pi_usage,
        }
    }
}

/// The models of a list of applications.
pub open spec fn app_models(apps: Seq<PiApp>) -> Seq<AppModel> {
    apps.map_values(|a: PiApp| a@)
}

/// Millionths rounded to hundredths, halves upwards.
pub open spec fn rounded_hundredths(micros: u64) -> nat {
    (micros / 10_000 + if micros % 10_000 >= 5_000 {
        1int
    } else {
        0int
    }) as nat
}

/// The line that reports a running application.
pub open spec fn run_report(app: AppModel) -> Seq<char> {
    "App "@ + app.id + " running with PI usage: "@ + fixed2(rounded_hundredths(app.pi_usage))
}

impl PiApp {
    /// The line that reports this application as running, its usage in PI
    /// with two decimals.
    pub fn run_line(&self) -> (line: String)
        ensures
            line@ == run_report(self@),
    {
        let mut line = String::from_str("App ");
        line.append(self.id.as_str());
        line.append(" running with PI usage: ");
        let carry: u64 = if self.pi_usage % 10_000 >= 5_000 {
            1
        } else {
            0
        };
        push_fixed2(&mut line, self.pi_usage / 10_000 + carry);
        line
    }
}

/// `par_iter`, `map` and `collect` of the `rayon` crate, over the
/// applications, with `PiApp::run_line` as the function that is mapped.
/// The contract claims that the list that comes back has one line for each
/// application, in the order of the applications, and that each is what
/// `PiApp::run_line` makes of its application.
#[verifier::external_body]
fn run_in_parallel(apps: &Vec<PiApp>) -> (lines: Vec<String>)
    ensures
        lines@.len() == apps@.len(),
        forall|i: int| 0 <= i < apps@.len() ==> (#[trigger] lines@[i])@ == run_report(apps@[i]@),
{
    apps.par_iter().map(|app| app.run_line()).collect()
}

/// The figures of the orchestrator.
#[derive(Clone, Copy, Debug, PartialEq, Eq, Structural)]
pub struct OrchestratorMetrics {
    pub apps_managed: u64,
    /// The PI consumed by all deployments, in millionths.
    pub pi_consumed_total: u128,
    /// The uptime rate, in hundredths.
    pub uptime_rate: u32,
}

/// Why the orchestrator refused.
#[derive(Clone, Copy, Debug, PartialEq, Eq, Structural)]
pub enum OrchestratorError {
    /// The isolation shield turned the code away.
    Isolation(IsolationError),
    /// The accelerator could not assign the application to a node.
    Assignment(AcceleratorError),
    /// There is no application with the identifier.
    NotFound,
}

impl OrchestratorError {
    /// The error in words.
    pub open spec fn words(self) -> Seq<char> {
        match self {
            OrchestratorError::Isolation(e) => e.words(),
            OrchestratorError::Assignment(e) => e.words(),
            OrchestratorError::NotFound => "App not found."@,
        }
    }

    /// The error in words.
    pub fn message(&self) -> (text: String)
        ensures
            text@ == self.words(),
    {
        match self {
            OrchestratorError::Isolation(e) => e.message(),
            OrchestratorError::Assignment(e) => e.message(),
            OrchestratorError::NotFound => String::from_str("App not found."),
        }
    }
}

/// The application that a deployment records.
pub open spec fn deployed_app(
    app_id: Seq<char>,
    developer: Seq<char>,
    code: Seq<char>,
) -> AppModel {
    AppModel {
        id: app_id,
        developer,
        code_hash: fingerprint(code),
        status: AppStatus::Running,
        pi_usage: APP_PI_COST,
    }
}

/// What a deployment answers: the shield decides on the code first, then
/// the accelerator on the assignment of the identifier.
pub open spec fn deployment_verdict(
    patterns: Seq<Seq<char>>,
    code: Seq<char>,
    app_id: Seq<char>,
    node_count: nat,
    assigned: nat,
) -> Result<Seq<char>, OrchestratorError> {
    match outcome(patterns, code) {
        Err(e) => Err(OrchestratorError::Isolation(e)),
        Ok(_) => match assignment_verdict(seq![app_id], node_count, assigned) {
            Err(e) => Err(OrchestratorError::Assignment(e)),
            Ok(_) => Ok(app_id),
        },
    }
}

/// The position of the first application with the identifier `id`.
pub open spec fn position_of(apps: Seq<AppModel>, id: Seq<char>) -> Option<int>
    decreases apps.len(),
{
    if apps.len() == 0 {
        None
    } else {
        match position_of(apps.drop_last(), id) {
            Some(k) => Some(k),
            None => if apps.last().id == id {
                Some(apps.len() - 1)
            } else {
                None
            },
        }
    }
}

/// `position_of` finds the first application with the identifier, and
/// none only if there is none.
pub proof fn lemma_position_of(apps: Seq<AppModel>, id: Seq<char>)
    ensures
        match position_of(apps, id) {
            Some(k) => 0 <= k < apps.len() && apps[k].id == id && forall|j: int|
                0 <= j < k ==> (#[trigger] apps[j]).id != id,
            None => forall|j: int| 0 <= j < apps.len() ==> (#[trigger] apps[j]).id != id,
        },
    decreases apps.len(),
{
    if apps.len() > 0 {
        let front = apps.drop_last();
        lemma_position_of(front, id);
        match position_of(front, id) {
            Some(k) => {
                assert forall|j: int| 0 <= j < k implies (#[trigger] apps[j]).id != id by {
                    assert(front[j] == apps[j]);
                }
                assert(front[k] == apps[k]);
            },
            None => {
                assert forall|j: int| 0 <= j < front.len() implies
                    (#[trigger] apps[j]).id != id by {
                    assert(front[j] == apps[j]);
                }
            },
        }
    }
}

/// A text without the first letter of the marker holds no marker.
proof fn lemma_no_marker(text: Seq<char>, from: int)
    requires
        0 <= from,
        forall|i: int| 0 <= i < text.len() ==> #[trigger] text[i] != 'v',
    ensures
        occurrences_from(text, marker(), from) == 0,
    decreases text.len() - from,
{
    reveal_strlit("volatile");
    if from + marker().len() <= text.len() {
        assert(!occurs_at(text, marker(), from)) by {
            if occurs_at(text, marker(), from) {
                assert(text.subrange(from, from + 8)[0] == marker()[0]);
                assert(text[from] == 'v');
            }
        }
        lemma_no_marker(text, from + 1);
    }
}

/// The compliance filter accepts every identifier that has the form of a
/// UUID.
pub proof fn lemma_uuid_accepted(id: Seq<char>)
    requires
        is_uuid_text(id),
    ensures
        accepts(id),
        first_rejection(seq![id]) is None,
{
    assert forall|i: int| 0 <= i < id.len() implies #[trigger] id[i] != 'v' by {
        if i == 8 || i == 13 || i == 18 || i == 23 {
            assert(id[i] == '-');
        } else {
            assert(is_hex_char(id[i]));
        }
    }
    lemma_no_marker(id, 0);
    assert(volatility(id) == 0);
    let ids = seq![id];
    assert(ids[0] == id);
    assert(ids.drop_first() == Seq::<Seq<char>>::empty());
    assert(first_rejection(ids.drop_first()) is None);
}

/// The orchestrator.
pub struct DeveloperAppOrchestrator {
    apps: Vec<PiApp>,
    metrics: OrchestratorMetrics,
}

impl DeveloperAppOrchestrator {
    /// The applications, in the order of their deployment.
    pub closed spec fn registry(&self) -> Seq<AppModel> {
        app_models(self.apps@)
    }

    /// The metrics.
    pub closed spec fn figures(&self) -> OrchestratorMetrics {
        self.metrics
    }

    /// The invariant of the orchestrator: the metrics count the
    /// applications, and each has cost the same.
    pub closed spec fn wf(&self) -> bool {
        &&& self.metrics.apps_managed == self.apps@.len()
        &&& self.metrics.pi_consumed_total == self.apps@.len() * APP_PI_COST
        &&& self.metrics.uptime_rate == 100
    }

    /// In a well-formed orchestrator the metrics follow from the number of
    /// applications.
    pub proof fn lemma_figures(&self)
        requires
            self.wf(),
        ensures
            self.figures() == (OrchestratorMetrics {
                apps_managed: self.registry().len() as u64,
                pi_consumed_total: (self.registry().len() * APP_PI_COST) as u128,
                uptime_rate: 100,
            }),
    {
    }

    /// An orchestrator without applications.
    pub fn new() -> (orchestrator: Self)
        ensures
            orchestrator.wf(),
            orchestrator.registry() == Seq::<AppModel>::empty(),
            orchestrator.figures() == (OrchestratorMetrics {
                apps_managed: 0,
                pi_consumed_total: 0,
                uptime_rate: 100,
            }),
    {
        let orchestrator = DeveloperAppOrchestrator {
            apps: Vec::new(),
            metrics: OrchestratorMetrics {
                apps_managed: 0,
                pi_consumed_total: 0,
                uptime_rate: 100,
            },
        };
        assert(orchestrator.registry() == Seq::<AppModel>::empty());
        orchestrator
    }

    /// The hash of `code`, for its integrity.
    pub fn hash_code(&self, code: &str) -> (hash: String)
        ensures
            hash@ == fingerprint(code@),
    {
        sha256_hex(code)
    }

    /// Deploys the application `app_id` of `developer` at the time `now`.
    /// The code goes through the isolation shield and the compliance
    /// filter; then the accelerator assigns the application to a node; only
    /// then is the application recorded as running, and counted. Where a
    /// step fails, no later step takes place: a quarantine leaves its
    /// record in the shield and nothing else.
    pub fn deploy_app_with(
        &mut self,
        ai_core: &AutonomousHyperAI,
        isolation_shield: &mut EcosystemIsolationShield,
        mainnet_accelerator: &mut PiMainnetAccelerator,
        developer: String,
        code: String,
        app_id: String,
        now: i64,
    ) -> (r: Result<String, OrchestratorError>)
        requires
            old(self).wf(),
            old(isolation_shield).wf(),
            old(mainnet_accelerator).wf(),
        ensures
            final(self).wf(),
            final(isolation_shield).wf(),
            final(mainnet_accelerator).wf(),
            deployment(
                *old(self),
                *final(self),
                *old(isolation_shield),
                *final(isolation_shield),
                *old(mainnet_accelerator),
                *final(mainnet_accelerator),
                developer@,
                code@,
                app_id@,
                now,
                r,
            ),
    {
        match isolation_shield.process_stream_at(ai_core, code.clone(), now) {
            Err(e) => {
                return Err(OrchestratorError::Isolation(e));
            },
            Ok(_) => {},
        }
        match ai_core.filter_io(code.as_str()) {
            Err(rejection) => {
                return Err(OrchestratorError::Isolation(IsolationError::Rejected(rejection)));
            },
            Ok(_) => {},
        }
        let app = PiApp {
            id: app_id.clone(),
            developer,
            code_hash: self.hash_code(code.as_str()),
            status: AppStatus::Running,
            pi_usage: APP_PI_COST,
        };
        let mut ids: Vec<String> = Vec::new();
        ids.push(app_id.clone());
        assert(crate::text::texts(ids@) == seq![app_id@]);
        match mainnet_accelerator.manage_apps(ai_core, ids) {
            Err(e) => {
                return Err(OrchestratorError::Assignment(e));
            },
            Ok(_) => {},
        }
        self.apps.push(app);
        let count = self.apps.len();
        assert(self.metrics.apps_managed + 1 == count);
        self.metrics.apps_managed = self.metrics.apps_managed + 1;
        self.metrics.pi_consumed_total = self.metrics.pi_consumed_total + APP_PI_COST as u128;
        assert(final(self).registry() == old(self).registry().push(
            deployed_app(app_id@, developer@, code@),
        ));
        Ok(app_id)
    }

    /// Deploys an application of `developer`: `deploy_app_with` under a
    /// fresh random identifier and the time of this machine's clock. The
    /// compliance filter accepts every such identifier, so the deployment
    /// succeeds exactly if the shield passes the code, there is a node, and
    /// the counter of applications can count one more.
    pub fn deploy_app(
        &mut self,
        ai_core: &AutonomousHyperAI,
        isolation_shield: &mut EcosystemIsolationShield,
        mainnet_accelerator: &mut PiMainnetAccelerator,
        developer: String,
        code: String,
    ) -> (r: Result<String, OrchestratorError>)
        requires
            old(self).wf(),
            old(isolation_shield).wf(),
            old(mainnet_accelerator).wf(),
        ensures
            final(self).wf(),
            final(isolation_shield).wf(),
            final(mainnet_accelerator).wf(),
            r is Ok <==> outcome(old(isolation_shield).patterns(), code@) is Ok
                && old(mainnet_accelerator).pool().len() > 0
                && old(mainnet_accelerator).assigned() < u64::MAX,
            r is Ok ==> is_uuid_text(r->Ok_0@),
            exists|app_id: Seq<char>, now: i64|
                is_uuid_text(app_id) && #[trigger] deployment(
                    *old(self),
                    *final(self),
                    *old(isolation_shield),
                    *final(isolation_shield),
                    *old(mainnet_accelerator),
                    *final(mainnet_accelerator),
                    developer@,
                    code@,
                    app_id,
                    now,
                    r,
                ),
    {
        let app_id = random_uuid();
        let now = unix_now();
        proof {
            lemma_uuid_accepted(app_id@);
        }
        self.deploy_app_with(
            ai_core,
            isolation_shield,
            mainnet_accelerator,
            developer,
            code,
            app_id,
            now,
        )
    }

    /// Runs every application and hands back one report line for each, in
    /// the order of the applications; then the accelerator evolves, with
    /// the answer of the compliance source. Where the source failed, its
    /// failure is handed back in place of the lines.
    pub fn run_apps(
        &self,
        ai_core: &mut AutonomousHyperAI,
        mainnet_accelerator: &mut PiMainnetAccelerator,
        reply: ComplianceReply,
    ) -> (r: Result<Vec<String>, String>)
        requires
            old(mainnet_accelerator).wf(),
        ensures
            final(mainnet_accelerator).wf(),
            final(mainnet_accelerator).pool() == old(mainnet_accelerator).pool(),
            final(mainnet_accelerator).assigned() == old(mainnet_accelerator).assigned(),
            final(mainnet_accelerator).metrics() == evolved(old(mainnet_accelerator).metrics()),
            final(ai_core).status() == state_after(old(ai_core).status(), reply),
            match r {
                Ok(lines) => {
                    &&& reply_error(reply) is None
                    &&& lines@.len() == self.registry().len()
                    &&& forall|i: int|
                        0 <= i < lines@.len() ==> (#[trigger] lines@[i])@ == run_report(
                            self.registry()[i],
                        )
                },
                Err(reason) => reply_error(reply) == Some(reason@),
            },
    {
        let lines = run_in_parallel(&self.apps);
        match mainnet_accelerator.evolve_system(ai_core, reply) {
            Err(reason) => Err(reason),
            Ok(_) => Ok(lines),
        }
    }

    /// Halts the first application with the identifier `app_id`. Without
    /// such an application nothing changes.
    pub fn halt_app(&mut self, app_id: &str) -> (r: Result<(), OrchestratorError>)
        requires
            old(self).wf(),
        ensures
            final(self).wf(),
            final(self).figures() == old(self).figures(),
            match position_of(old(self).registry(), app_id@) {
                Some(k) => r is Ok && final(self).registry() == old(self).registry().update(
                    k,
                    AppModel { status: AppStatus::Halted, ..old(self).registry()[k] },
                ),
                None => r == Err::<(), OrchestratorError>(OrchestratorError::NotFound)
                    && final(self).registry() == old(self).registry(),
            },
    {
        let ghost all = self.registry();
        let mut i: usize = 0;
        while i < self.apps.len()
            invariant
                i <= self.apps.len(),
                old(self).wf(),
                self.apps@ == old(self).apps@,
                self.metrics == old(self).metrics,
                all == self.registry(),
                forall|j: int| 0 <= j < i ==> (#[trigger] all[j]).id != app_id@,
            decreases self.apps.len() - i,
        {
            if crate::text::str_equal(self.apps[i].id.as_str(), app_id) {
                proof {
                    lemma_position_of(all, app_id@);
                    assert(all[i as int].id == app_id@);
                    assert(position_of(all, app_id@) == Some(i as int));
                }
                self.apps[i].status = AppStatus::Halted;
                assert(final(self).registry() == all.update(
                    i as int,
                    AppModel { status: AppStatus::Halted, ..all[i as int] },
                ));
                return Ok(());
            }
            i += 1;
        }
        proof {
            lemma_position_of(all, app_id@);
            if position_of(all, app_id@) is Some {
                assert(all[position_of(all, app_id@)->Some_0].id == app_id@);
            }
        }
        Err(OrchestratorError::NotFound)
    }

    /// The metrics.
    pub fn get_metrics(&self) -> (metrics: OrchestratorMetrics)
        ensures
            metrics == self.figures(),
    {
        self.metrics
    }

    /// A copy of the applications, in the order of their deployment.
    pub fn get_apps(&self) -> (apps: Vec<PiApp>)
        ensures
            app_models(apps@) == self.registry(),
    {
        let mut apps: Vec<PiApp> = Vec::new();
        let mut i: usize = 0;
        while i < self.apps.len()
            invariant
                i <= self.apps.len(),
                apps@ == self.apps@.take(i as int),
            decreases self.apps.len() - i,
        {
            apps.push(self.apps[i].clone());
            assert(self.apps@.take(i as int + 1) == self.apps@.take(i as int).push(
                self.apps@[i as int],
            ));
            i += 1;
        }
        assert(self.apps@.take(self.apps.len() as int) == self.apps@);
        apps
    }
}

/// What a deployment does to the orchestrator, the shield and the
/// accelerator, and what it answers.
pub open spec fn deployment(
    before: DeveloperAppOrchestrator,
    after: DeveloperAppOrchestrator,
    shield_before: EcosystemIsolationShield,
    shield_after: EcosystemIsolationShield,
    accelerator_before: PiMainnetAccelerator,
    accelerator_after: PiMainnetAccelerator,
    developer: Seq<char>,
    code: Seq<char>,
    app_id: Seq<char>,
    now: i64,
    r: Result<String, OrchestratorError>,
) -> bool {
    let verdict = deployment_verdict(
        shield_before.patterns(),
        code,
        app_id,
        accelerator_before.pool().len(),
        accelerator_before.assigned(),
    );
    &&& match r {
        Ok(id) => verdict == Ok::<Seq<char>, OrchestratorError>(id@),
        Err(e) => verdict == Err::<Seq<char>, OrchestratorError>(e),
    }
    &&& shield_after.records() == shield_before.records() + records_of(
        shield_before.patterns(),
        code,
        now,
    )
    &&& shield_after.patterns() == shield_before.patterns()
    &&& shield_after.queued() == shield_before.queued()
    &&& if r is Ok {
        &&& after.registry() == before.registry().push(deployed_app(app_id, developer, code))
        &&& after.figures() == (OrchestratorMetrics {
            apps_managed: (before.figures().apps_managed + 1) as u64,
            pi_consumed_total: (before.figures().pi_consumed_total + APP_PI_COST) as u128,
            uptime_rate: before.figures().uptime_rate,
        })
        &&& accelerator_after.pool() == dealt(accelerator_before.pool(), seq![app_id])
        &&& accelerator_after.assigned() == accelerator_before.assigned() + 1
        &&& accelerator_after.metrics() == (EvolutionMetrics {
            apps_processed: accelerator_after.assigned() as u64,
            compliance_rate: 99,
            ..accelerator_before.metrics()
        })
    } else {
        &&& after.registry() == before.registry()
        &&& after.figures() == before.figures()
        &&& accelerator_after.pool() == accelerator_before.pool()
        &&& accelerator_after.assigned() == accelerator_before.assigned()
        &&& accelerator_after.metrics() == accelerator_before.metrics()
    }
}

} // verus!
