//! The ecosystem dashboard: one picture of the whole system, composed
//! from what the controller and its subsystems report.
//!
//! PI amounts are whole numbers of millionths of a PI; rates are whole
//! numbers of hundredths.

use vstd::prelude::*;
use vstd::string::StringExecFns;
use crate::ecosystem_isolation_shield::{event_models, IsolationEvent, IsolationEventModel};
use crate::host::unix_now;
use crate::pi_mainnet_accelerator::NODE_POOL_SIZE;
use crate::pi_transaction_engine::{admissible, PITransaction, TransactionModel, PI_STABLE_VALUE};
use crate::super_app_controller::{controller_event_models, recent};
use crate::super_app_controller::{ControllerDashboard, SuperAppController, RECENT_EVENTS};
use crate::text::texts;

verus! {

/// What the compliance core contributes.
#[derive(Clone, Copy, Debug, PartialEq, Eq, Structural)]
pub struct AIInsights {
    /// 1.00 while the network is compliant, 0 otherwise; in hundredths.
    pub compliance_rate: u32,
    pub volatility_filtered: u64,
}

/// What the transaction engine contributes.
#[derive(Clone, Copy, Debug, PartialEq, Eq, Structural)]
pub struct TransactionSummary {
    pub total_transactions: usize,
    /// The sum of the committed amounts, in millionths.
    pub pi_volume: u128,
}

/// What the accelerator contributes.
#[derive(Clone, Copy, Debug, PartialEq, Eq, Structural)]
pub struct MainnetStatus {
    pub nodes_active: usize,
    /// How far the mainnet is open, in hundredths.
    pub progress: u32,
}

/// What the isolation shield contributes.
#[derive(Clone, Copy, Debug, PartialEq, Eq, Structural)]
pub struct IsolationReport {
    pub events_quarantined: usize,
    pub threats_rejected: u64,
}

/// What the orchestrator contributes.
#[derive(Clone, Copy, Debug, PartialEq, Eq, Structural)]
pub struct AppOverview {
    pub apps_running: u64,
    /// The PI consumed by all deployments, in millionths.
    pub pi_consumed: u128,
}

/// The picture of the whole system at one moment.
#[derive(Debug)]
pub struct PiEcosystemDashboard {
    /// Seconds since the epoch.
    pub timestamp: i64,
    pub controller_status: ControllerDashboard,
    pub ai_insights: AIInsights,
    pub transaction_summary: TransactionSummary,
    pub mainnet_status: MainnetStatus,
    pub isolation_report: IsolationReport,
    pub app_overview: AppOverview,
    pub evolutionary_suggestions: Vec<String>,
}

/// The sum of the amounts of a list of transactions.
pub open spec fn volume(transactions: Seq<TransactionModel>) -> int
    decreases transactions.len(),
{
    if transactions.len() == 0 {
        0
    } else {
        volume(transactions.drop_last()) + transactions.last().amount
    }
}

/// How many of the records stand for a quarantine.
pub open spec fn quarantined_count(records: Seq<IsolationEventModel>) -> nat
    decreases records.len(),
{
    if records.len() == 0 {
        0
    } else {
        quarantined_count(records.drop_last()) + if records.last().quarantined {
            1nat
        } else {
            0nat
        }
    }
}

/// The advice that follows from the figures, in this order: to
/// accelerate while the mainnet is not fully open, to strengthen the
/// isolation once something was quarantined, and to optimize while the
/// uptime is below 1.00.
pub open spec fn suggestions(progress: u32, quarantined: nat, uptime_rate: u32) -> Seq<Seq<char>> {
    let first = if progress < 100 {
        seq!["Accelerate mainnet syncing."@]
    } else {
        Seq::empty()
    };
    let second = if quarantined > 0 {
        seq!["Strengthen isolation patterns."@]
    } else {
        Seq::empty()
    };
    let third = if uptime_rate < 100 {
        seq!["Optimize app orchestration."@]
    } else {
        Seq::empty()
    };
    first + second + third
}

/// The volume of admissible transactions lies between 0 and the stable
/// value ceiling for each of them.
pub proof fn lemma_volume_bounds(transactions: Seq<TransactionModel>)
    requires
        forall|i: int| 0 <= i < transactions.len() ==> admissible(#[trigger] transactions[i]),
    ensures
        0 <= volume(transactions) <= transactions.len() * PI_STABLE_VALUE,
    decreases transactions.len(),
{
    if transactions.len() > 0 {
        let front = transactions.drop_last();
        assert forall|i: int| 0 <= i < front.len() implies admissible(#[trigger] front[i]) by {
            assert(front[i] == transactions[i]);
        }
        lemma_volume_bounds(front);
        assert(admissible(transactions[transactions.len() - 1]));
        assert(transactions.len() * PI_STABLE_VALUE == front.len() * PI_STABLE_VALUE
            + PI_STABLE_VALUE) by (nonlinear_arith)
            requires
                transactions.len() == front.len() + 1,
        ;
    }
}

/// Whether `dashboard` shows the system that `controller` steers: every
/// figure is the figure of its subsystem, and the advice follows from the
/// figures.
pub open spec fn portrays(dashboard: PiEcosystemDashboard, controller: SuperAppController) -> bool {
    let shown = dashboard.controller_status;
    let progress = controller.accelerator().metrics().mainnet_open_progress;
    let figures = controller.orchestrator().figures();
    let records = controller.shield().records();
    let history = controller.engine().history();
    &&& shown.status == controller.state()
    &&& (shown.ai_compliant, shown.stellar_halted) == controller.ai().status()
    &&& shown.transactions_count == history.len()
    &&& shown.mainnet_progress == progress
    &&& shown.apps_managed == figures.apps_managed
    &&& shown.isolation_events_count == records.len()
    &&& controller_event_models(shown.recent_events@) == recent(
        controller.event_log(),
        RECENT_EVENTS as nat,
    )
    &&& dashboard.ai_insights == (AIInsights {
        compliance_rate: if controller.ai().status().0 {
            100
        } else {
            0
        },
        volatility_filtered: records.len() as u64,
    })
    &&& dashboard.transaction_summary == (TransactionSummary {
        total_transactions: history.len() as usize,
        pi_volume: volume(history) as u128,
    })
    &&& dashboard.mainnet_status == (MainnetStatus { nodes_active: NODE_POOL_SIZE, progress })
    &&& dashboard.isolation_report == (IsolationReport {
        events_quarantined: records.len() as usize,
        threats_rejected: quarantined_count(records) as u64,
    })
    &&& dashboard.app_overview == (AppOverview {
        apps_running: figures.apps_managed,
        pi_consumed: figures.pi_consumed_total,
    })
    &&& texts(dashboard.evolutionary_suggestions@) == suggestions(
        progress,
        records.len(),
        figures.uptime_rate,
    )
}

/// The dashboard module.
#[derive(Clone, Copy, Debug)]
pub struct PiEcosystemDashboardModule {}

impl PiEcosystemDashboardModule {
    /// The dashboard module.
    pub fn new() -> (module: Self) {
        PiEcosystemDashboardModule {  }
    }

    /// The sum of the amounts of `transactions`, in millionths.
    fn total_volume(transactions: &Vec<PITransaction>) -> (sum: u128)
        requires
            forall|i: int|
                0 <= i < transactions@.len() ==> admissible(#[trigger] transactions@[i]@),
        ensures
            sum == volume(transactions@.map_values(|tx: PITransaction| tx@)),
    {
        let ghost models = transactions@.map_values(|tx: PITransaction| tx@);
        let mut sum: u128 = 0;
        let mut i: usize = 0;
        assert(models.take(0) == Seq::<TransactionModel>::empty());
        while i < transactions.len()
            invariant
                i <= transactions.len(),
                models == transactions@.map_values(|tx: PITransaction| tx@),
                forall|j: int| 0 <= j < models.len() ==> admissible(#[trigger] models[j]),
                sum == volume(models.take(i as int)),
                sum <= i * PI_STABLE_VALUE,
            decreases transactions.len() - i,
        {
            let ghost done = models.take(i as int + 1);
            assert(done.drop_last() == models.take(i as int));
            assert(done.last() == models[i as int]);
            assert(admissible(models[i as int]));
            assert((i + 1) * PI_STABLE_VALUE == i * PI_STABLE_VALUE + PI_STABLE_VALUE)
                by (nonlinear_arith);
            assert(i * PI_STABLE_VALUE <= usize::MAX * PI_STABLE_VALUE) by (nonlinear_arith)
                requires
                    i <= usize::MAX,
            ;
            sum = sum + transactions[i].amount as u128;
            i += 1;
        }
        assert(models.take(i as int) == models);
        sum
    }

    /// How many of `events` stand for a quarantine.
    fn count_quarantined(events: &Vec<IsolationEvent>) -> (count: u64)
        ensures
            count == quarantined_count(event_models(events@)),
    {
        let ghost models = event_models(events@);
        let mut count: u64 = 0;
        let mut i: usize = 0;
        assert(models.take(0) == Seq::<IsolationEventModel>::empty());
        while i < events.len()
            invariant
                i <= events.len(),
                models == event_models(events@),
                count == quarantined_count(models.take(i as int)),
                count <= i,
            decreases events.len() - i,
        {
            let ghost done = models.take(i as int + 1);
            assert(done.drop_last() == models.take(i as int));
            assert(done.last() == events@[i as int]@);
            if events[i].quarantined {
                count = count + 1;
            }
            i += 1;
        }
        assert(models.take(i as int) == models);
        count
    }

    /// The picture of the system that `controller` steers, at the time
    /// `now`. Nothing changes.
    pub fn generate_dashboard_at(&self, controller: &SuperAppController, now: i64) -> (dashboard:
        PiEcosystemDashboard)
        requires
            controller.wf(),
        ensures
            dashboard.timestamp == now,
            portrays(dashboard, *controller),
    {
        proof {
            controller.lemma_subsystems_wf();
        }
        let controller_dashboard = controller.get_dashboard();
        let tx_history = controller.tx_engine().get_transactions();
        let mainnet_metrics = controller.mainnet_accelerator().get_metrics();
        let isolation_events = controller.isolation_shield().get_events();
        let orchestrator_metrics = controller.app_orchestrator().get_metrics();
        assert(tx_history@.map_values(|tx: PITransaction| tx@).len() == tx_history@.len());
        assert(event_models(isolation_events@).len() == isolation_events@.len());

        let ai_insights = AIInsights {
            compliance_rate: if controller_dashboard.ai_compliant {
                100
            } else {
                0
            },
            volatility_filtered: isolation_events.len() as u64,
        };
        let transaction_summary = TransactionSummary {
            total_transactions: tx_history.len(),
            pi_volume: Self::total_volume(&tx_history),
        };
        let mainnet_status = MainnetStatus {
            nodes_active: NODE_POOL_SIZE,
            progress: mainnet_metrics.mainnet_open_progress,
        };
        let isolation_report = IsolationReport {
            events_quarantined: isolation_events.len(),
            threats_rejected: Self::count_quarantined(&isolation_events),
        };
        let app_overview = AppOverview {
            apps_running: orchestrator_metrics.apps_managed,
            pi_consumed: orchestrator_metrics.pi_consumed_total,
        };

        let mut suggestions: Vec<String> = Vec::new();
        if mainnet_metrics.mainnet_open_progress < 100 {
            suggestions.push(String::from_str("Accelerate mainnet syncing."));
        }
        let ghost first = texts(suggestions@);
        if isolation_events.len() > 0 {
            suggestions.push(String::from_str("Strengthen isolation patterns."));
        }
        let ghost second = texts(suggestions@);
        if orchestrator_metrics.uptime_rate < 100 {
            suggestions.push(String::from_str("Optimize app orchestration."));
        }
        proof {
            let third = texts(suggestions@);
            let advice = crate::pi_ecosystem_dashboard::suggestions(
                mainnet_metrics.mainnet_open_progress,
                isolation_events@.len() as nat,
                orchestrator_metrics.uptime_rate,
            );
            assert(first == if mainnet_metrics.mainnet_open_progress < 100 {
                seq!["Accelerate mainnet syncing."@]
            } else {
                Seq::<Seq<char>>::empty()
            });
            assert(second == first + if isolation_events@.len() > 0 {
                seq!["Strengthen isolation patterns."@]
            } else {
                Seq::<Seq<char>>::empty()
            });
            assert(third == second + if orchestrator_metrics.uptime_rate < 100 {
                seq!["Optimize app orchestration."@]
            } else {
                Seq::<Seq<char>>::empty()
            });
            assert(third == advice);
            lemma_volume_bounds(controller.engine().history());
        }

        PiEcosystemDashboard {
            timestamp: now,
            controller_status: controller_dashboard,
            ai_insights,
            transaction_summary,
            mainnet_status,
            isolation_report,
            app_overview,
            evolutionary_suggestions: suggestions,
        }
    }

    /// The picture of the system that `controller` steers, at the time of
    /// this machine's clock: `generate_dashboard_at` for every figure, and
    /// the clock for the timestamp.
    pub fn generate_dashboard(&self, controller: &SuperAppController) -> (dashboard:
        PiEcosystemDashboard)
        requires
            controller.wf(),
        ensures
            portrays(dashboard, *controller),
    {
        let now = unix_now();
        self.generate_dashboard_at(controller, now)
    }
}

} // verus!
