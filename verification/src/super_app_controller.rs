//! The controller: owns every subsystem, takes commands for them, and
//! steers the supervision of the whole.
//!
//! The controller never waits and never calls out. Whoever drives it
//! asks the compliance source and sleeps between the steps, in this order:
//! `run_super_app`, `start_apps`, and then, after each interval, `monitor`
//! and, if that says to go on, `evolve`.

use vstd::prelude::*;
use vstd::string::StringExecFns;
use crate::developer_app_orchestrator::{deployment, DeveloperAppOrchestrator, OrchestratorError};
use crate::ecosystem_isolation_shield::{outcome, records_of};
use crate::ecosystem_isolation_shield::{EcosystemIsolationShield, IsolationError};
use crate::host::{is_uuid_text, random_uuid, unix_now};
use crate::hyper_ai_core::{reply_error, state_after, AutonomousHyperAI, ComplianceReply};
use crate::pi_mainnet_accelerator::{evolved, fresh_pool, AcceleratorError, EvolutionMetrics};
use crate::pi_mainnet_accelerator::PiMainnetAccelerator;
use crate::pi_transaction_engine::{verdict, LedgerEvent, PITransaction, PITransactionEngine};
use crate::pi_transaction_engine::{PITransactionType, TransactionError, TransactionModel};
use crate::text::{parse_i64, parse_u64, parsed_i64, parsed_u64, str_equal, texts};

verus! {

/// The seconds between two rounds of monitoring.
pub const MONITOR_INTERVAL_SECS: u64 = 10;

/// How many events a dashboard shows.
pub const RECENT_EVENTS: usize = 5;

/// An entry of the controller's event log.
#[derive(Debug)]
pub struct ControllerEvent {
    pub id: String,
    pub event_type: String,
    pub details: String,
    /// Seconds since the epoch.
    pub timestamp: i64,
}

/// The mathematical content of an event.
pub ghost struct ControllerEventModel {
    pub id: Seq<char>,
    pub event_type: Seq<char>,
    pub details: Seq<char>,
    pub timestamp: i64,
}

impl View for ControllerEvent {
    type V = ControllerEventModel;

    open spec fn view(&self) -> ControllerEventModel {
        ControllerEventModel {
            id: self.id@,
            event_type: self.event_type@,
            details: self.details@,
            timestamp: self.timestamp,
        }
    }
}

impl Clone for ControllerEvent {
    fn clone(&self) -> (copy: Self)
        ensures
            copy == *self,
    {
        ControllerEvent {
            id: self.id.clone(),
            event_type: self.event_type.clone(),
            details: self.details.clone(),
            timestamp: self.timestamp,
        }
    }
}

/// The models of a list of events.
pub open spec fn controller_event_models(events: Seq<ControllerEvent>) -> Seq<
    ControllerEventModel,
> {
    events.map_values(|e: ControllerEvent| e@)
}

/// The state of the controller. `active` is true until the supervision
/// halts on a compliance breach, and false from then on.
#[derive(Clone, Copy, Debug, PartialEq, Eq, Structural)]
pub struct ControllerStatus {
    pub active: bool,
    pub pi_ecosystem_stable: bool,
    pub stellar_halted: bool,
}

/// One view over all subsystems.
#[derive(Debug)]
pub struct ControllerDashboard {
    pub status: ControllerStatus,
    pub ai_compliant: bool,
    pub stellar_halted: bool,
    pub transactions_count: usize,
    /// How far the mainnet is open, in hundredths.
    pub mainnet_progress: u32,
    pub apps_managed: u64,
    pub isolation_events_count: usize,
    /// The latest events, the newest first.
    pub recent_events: Vec<ControllerEvent>,
}

/// The commands that the controller knows.
#[derive(Clone, Copy, Debug, PartialEq, Eq, Structural)]
pub enum CommandKind {
    DeployApp,
    ProcessTransaction,
    IsolateData,
}

/// Why a command failed.
#[derive(Clone, Copy, Debug, PartialEq, Eq, Structural)]
pub enum CommandError {
    /// The command is none of the known ones.
    UnknownCommand,
    /// The command has too few parameters, or one that cannot be read.
    InvalidParams(CommandKind),
    /// The orchestrator refused the deployment.
    Deploy(OrchestratorError),
    /// The engine turned the transaction away.
    Transaction(TransactionError),
    /// The shield turned the data away.
    Isolation(IsolationError),
}

impl CommandError {
    /// The error in words.
    pub open spec fn words(self) -> Seq<char> {
        match self {
            CommandError::UnknownCommand => "Unknown command."@,
            CommandError::InvalidParams(CommandKind::DeployApp) =>
                "Invalid params for deploy_app."@,
            CommandError::InvalidParams(
                CommandKind::ProcessTransaction,
            ) => "Invalid params for process_transaction."@,
            CommandError::InvalidParams(
                CommandKind::IsolateData,
            ) => "Invalid params for isolate_data."@,
            CommandError::Deploy(e) => e.words(),
            CommandError::Transaction(e) => e.words(),
            CommandError::Isolation(e) => e.words(),
        }
    }

    /// The error in words.
    pub fn message(&self) -> (text: String)
        ensures
            text@ == self.words(),
    {
        match self {
            CommandError::UnknownCommand => String::from_str("Unknown command."),
            CommandError::InvalidParams(CommandKind::DeployApp) => String::from_str(
                "Invalid params for deploy_app.",
            ),
            CommandError::InvalidParams(CommandKind::ProcessTransaction) => String::from_str(
                "Invalid params for process_transaction.",
            ),
            CommandError::InvalidParams(CommandKind::IsolateData) => String::from_str(
                "Invalid params for isolate_data.",
            ),
            CommandError::Deploy(e) => e.message(),
            CommandError::Transaction(e) => e.message(),
            CommandError::Isolation(e) => e.message(),
        }
    }
}

/// The command that a name stands for.
pub open spec fn command_named(name: Seq<char>) -> Option<CommandKind> {
    if name == "deploy_app"@ {
        Some(CommandKind::DeployApp)
    } else if name == "process_transaction"@ {
        Some(CommandKind::ProcessTransaction)
    } else if name == "isolate_data"@ {
        Some(CommandKind::IsolateData)
    } else {
        None
    }
}

/// The kind of transaction that a name stands for.
pub open spec fn kind_named(name: Seq<char>) -> Option<PITransactionType> {
    if name == PITransactionType::MiningReward.name() {
        Some(PITransactionType::MiningReward)
    } else if name == PITransactionType::ContributionReward.name() {
        Some(PITransactionType::ContributionReward)
    } else if name == PITransactionType::P2PTransfer.name() {
        Some(PITransactionType::P2PTransfer)
    } else {
        None
    }
}

/// The transaction that the parameters of `process_transaction` state:
/// identifier, sender, receiver, amount in millionths, kind, proof of
/// origin and timestamp, in this order. Further parameters are ignored.
pub open spec fn transaction_stated(params: Seq<Seq<char>>) -> Option<TransactionModel> {
    if params.len() < 7 {
        None
    } else {
        match (parsed_i64(params[3]), kind_named(params[4]), parsed_u64(params[6])) {
            (Some(amount), Some(tx_type), Some(timestamp)) => Some(
                TransactionModel {
                    id: params[0],
                    sender: params[1],
                    receiver: params[2],
                    amount: amount as int,
                    tx_type,
                    source_proof: params[5],
                    timestamp: timestamp as nat,
                },
            ),
            _ => None,
        }
    }
}

/// The content of an answer to a command.
pub open spec fn reply_model(answer: Result<String, CommandError>) -> Result<
    Seq<char>,
    CommandError,
> {
    match answer {
        Ok(text) => Ok(text@),
        Err(e) => Err(e),
    }
}

/// The state of the controller after a round of monitoring that finds
/// the compliance state `ai`, as the pair (compliant, halted).
pub open spec fn status_after_round(
    status: ControllerStatus,
    ai: (bool,
    bool),
) -> ControllerStatus {
    ControllerStatus {
        active: status.active && ai.0,
        pi_ecosystem_stable: ai.0,
        stellar_halted: ai.1,
    }
}

/// The state of the controller after a run of rounds.
pub open spec fn status_after_rounds(
    status: ControllerStatus,
    found: Seq<(bool,
    bool)>,
) -> ControllerStatus
    decreases found.len(),
{
    if found.len() == 0 {
        status
    } else {
        status_after_round(status_after_rounds(status, found.drop_last()), found.last())
    }
}

/// Halted is terminal: a controller that is not active stays so through
/// every round of monitoring, whatever the rounds find.
pub proof fn lemma_halted_is_terminal(status: ControllerStatus, found: Seq<(bool, bool)>)
    ensures
        !status.active ==> !status_after_rounds(status, found).active,
    decreases found.len(),
{
    if found.len() > 0 {
        lemma_halted_is_terminal(status, found.drop_last());
    }
}

/// Whether `after` is `before` with one more event of the given type and
/// details, under a fresh identifier.
pub open spec fn logged(
    before: Seq<ControllerEventModel>,
    after: Seq<ControllerEventModel>,
    event_type: Seq<char>,
    details: Seq<char>,
) -> bool {
    exists|id: Seq<char>, now: i64|
        is_uuid_text(id) && after == before.push(#[trigger] entry(id, event_type, details, now))
}

/// The event with the given content.
pub open spec fn entry(
    id: Seq<char>,
    event_type: Seq<char>,
    details: Seq<char>,
    now: i64,
) -> ControllerEventModel {
    ControllerEventModel { id, event_type, details, timestamp: now }
}

/// The latest `count` events of a log, the newest first.
pub open spec fn recent(log: Seq<ControllerEventModel>, count: nat) -> Seq<ControllerEventModel> {
    Seq::new(
        if log.len() < count {
            log.len()
        } else {
            count
        },
        |i: int| log[log.len() - 1 - i],
    )
}

/// The controller.
pub struct SuperAppController {
    ai_core: AutonomousHyperAI,
    tx_engine: PITransactionEngine,
    mainnet_accelerator: PiMainnetAccelerator,
    isolation_shield: EcosystemIsolationShield,
    app_orchestrator: DeveloperAppOrchestrator,
    events: Vec<ControllerEvent>,
    status: ControllerStatus,
}

impl SuperAppController {
    /// The compliance core.
    pub closed spec fn ai(&self) -> AutonomousHyperAI {
        self.ai_core
    }

    /// The transaction engine.
    pub closed spec fn engine(&self) -> PITransactionEngine {
        self.tx_engine
    }

    /// The accelerator.
    pub closed spec fn accelerator(&self) -> PiMainnetAccelerator {
        self.mainnet_accelerator
    }

    /// The isolation shield.
    pub closed spec fn shield(&self) -> EcosystemIsolationShield {
        self.isolation_shield
    }

    /// The orchestrator.
    pub closed spec fn orchestrator(&self) -> DeveloperAppOrchestrator {
        self.app_orchestrator
    }

    /// The event log, oldest first.
    pub closed spec fn event_log(&self) -> Seq<ControllerEventModel> {
        controller_event_models(self.events@)
    }

    /// The state of the controller.
    pub closed spec fn state(&self) -> ControllerStatus {
        self.status
    }

    /// The invariant of the controller: every subsystem is well-formed.
    pub closed spec fn wf(&self) -> bool {
        &&& self.tx_engine.wf()
        &&& self.mainnet_accelerator.wf()
        &&& self.isolation_shield.wf()
        &&& self.app_orchestrator.wf()
    }

    /// Whether nothing but the event log and the state differs.
    pub open spec fn same_subsystems(&self, other: &Self) -> bool {
        &&& self.ai() == other.ai()
        &&& self.engine() == other.engine()
        &&& self.accelerator() == other.accelerator()
        &&& self.shield() == other.shield()
        &&& self.orchestrator() == other.orchestrator()
    }

    /// The subsystems of a well-formed controller are well-formed.
    pub proof fn lemma_subsystems_wf(&self)
        requires
            self.wf(),
        ensures
            self.engine().wf(),
            self.accelerator().wf(),
            self.shield().wf(),
            self.orchestrator().wf(),
    {
    }

    /// A controller over the given subsystems: active, with an empty event
    /// log.
    pub fn new(
        ai_core: AutonomousHyperAI,
        tx_engine: PITransactionEngine,
        mainnet_accelerator: PiMainnetAccelerator,
        isolation_shield: EcosystemIsolationShield,
        app_orchestrator: DeveloperAppOrchestrator,
    ) -> (controller: Self)
        requires
            tx_engine.wf(),
            mainnet_accelerator.wf(),
            isolation_shield.wf(),
            app_orchestrator.wf(),
        ensures
            controller.wf(),
            controller.ai() == ai_core,
            controller.engine() == tx_engine,
            controller.accelerator() == mainnet_accelerator,
            controller.shield() == isolation_shield,
            controller.orchestrator() == app_orchestrator,
            controller.event_log() == Seq::<ControllerEventModel>::empty(),
            controller.state() == (ControllerStatus {
                active: true,
                pi_ecosystem_stable: true,
                stellar_halted: false,
            }),
    {
        let controller = SuperAppController {
            ai_core,
            tx_engine,
            mainnet_accelerator,
            isolation_shield,
            app_orchestrator,
            events: Vec::new(),
            status: ControllerStatus {
                active: true,
                pi_ecosystem_stable: true,
                stellar_halted: false,
            },
        };
        assert(controller.event_log() == Seq::<ControllerEventModel>::empty());
        controller
    }

    /// Writes one event into the log, under a fresh identifier and the
    /// time of this machine's clock.
    fn log_event(&mut self, event_type: &str, details: &str)
        ensures
            logged(old(self).event_log(), final(self).event_log(), event_type@, details@),
            final(self).same_subsystems(old(self)),
            final(self).state() == old(self).state(),
            final(self).wf() == old(self).wf(),
    {
        let event = ControllerEvent {
            id: random_uuid(),
            event_type: String::from_str(event_type),
            details: String::from_str(details),
            timestamp: unix_now(),
        };
        let ghost model = event@;
        self.events.push(event);
        assert(final(self).event_log() == old(self).event_log().push(
            entry(model.id, event_type@, details@, model.timestamp),
        ));
    }

    /// Starts the subsystems: takes in the first answer of the compliance
    /// source, and opens the mainnet if the network is compliant. A
    /// failure of the source, or a network that is not compliant, ends the
    /// start with the reason.
    pub fn run_super_app(&mut self, reply: ComplianceReply) -> (r: Result<(), String>)
        requires
            old(self).wf(),
        ensures
            final(self).wf(),
            final(self).ai().status() == state_after(old(self).ai().status(), reply),
            final(self).engine() == old(self).engine(),
            final(self).shield() == old(self).shield(),
            final(self).orchestrator() == old(self).orchestrator(),
            final(self).event_log() == old(self).event_log(),
            final(self).state() == old(self).state(),
            final(self).accelerator().assigned() == old(self).accelerator().assigned(),
            match r {
                Ok(_) => {
                    &&& reply_error(reply) is None
                    &&& final(self).ai().status() == (true, false)
                    &&& final(self).accelerator().pool() == old(self).accelerator().pool()
                        + fresh_pool()
                    &&& final(self).accelerator().metrics() == (EvolutionMetrics {
                        mainnet_open_progress: 100,
                        ..old(self).accelerator().metrics()
                    })
                },
                Err(reason) => {
                    &&& final(self).accelerator().pool() == old(self).accelerator().pool()
                    &&& final(self).accelerator().metrics() == old(self).accelerator().metrics()
                    &&& match reply_error(reply) {
                        Some(failure) => reason@ == failure,
                        None => final(self).ai().status() != (true, false) && reason@
                            == AcceleratorError::NotCompliant.words(),
                    }
                },
            },
    {
        match self.ai_core.enforce_compliance(reply) {
            Err(reason) => {
                return Err(reason);
            },
            Ok(_) => {},
        }
        match self.mainnet_accelerator.accelerate_mainnet(&self.ai_core) {
            Err(e) => Err(e.message()),
            Ok(_) => Ok(()),
        }
    }

    /// Runs the applications for the first time, with the next answer of
    /// the compliance source, and records that the controller is
    /// operational. The report lines are handed back.
    pub fn start_apps(&mut self, reply: ComplianceReply) -> (r: Result<Vec<String>, String>)
        requires
            old(self).wf(),
        ensures
            final(self).wf(),
            final(self).ai().status() == state_after(old(self).ai().status(), reply),
            final(self).engine() == old(self).engine(),
            final(self).shield() == old(self).shield(),
            final(self).orchestrator() == old(self).orchestrator(),
            final(self).state() == old(self).state(),
            final(self).accelerator().pool() == old(self).accelerator().pool(),
            final(self).accelerator().assigned() == old(self).accelerator().assigned(),
            final(self).accelerator().metrics() == evolved(old(self).accelerator().metrics()),
            match r {
                Ok(lines) => {
                    &&& reply_error(reply) is None
                    &&& lines@.len() == old(self).orchestrator().registry().len()
                    &&& forall|i: int|
                        0 <= i < lines@.len() ==> (#[trigger] lines@[i])@
                            == crate::developer_app_orchestrator::run_report(
                            old(self).orchestrator().registry()[i],
                        )
                    &&& logged(
                        old(self).event_log(),
                        final(self).event_log(),
                        "super_app_init"@,
                        "Super App fully operational."@,
                    )
                },
                Err(reason) => reply_error(reply) == Some(reason@) && final(self).event_log()
                    == old(self).event_log(),
            },
    {
        let lines = match self.app_orchestrator.run_apps(
            &mut self.ai_core,
            &mut self.mainnet_accelerator,
            reply,
        ) {
            Err(reason) => {
                return Err(reason);
            },
            Ok(lines) => lines,
        };
        self.log_event("super_app_init", "Super App fully operational.");
        Ok(lines)
    }

    /// One round of monitoring, after each interval: reads the compliance
    /// state into the state of the controller. On a breach the controller
    /// records it, halts for good, and says `false`: the supervision ends.
    /// Otherwise it says `true`, and `evolve` is due.
    pub fn monitor(&mut self) -> (go_on: bool)
        requires
            old(self).wf(),
        ensures
            final(self).wf(),
            final(self).same_subsystems(old(self)),
            go_on == old(self).ai().status().0,
            final(self).state() == status_after_round(old(self).state(), old(self).ai().status()),
            go_on ==> final(self).event_log() == old(self).event_log(),
            !go_on ==> logged(
                old(self).event_log(),
                final(self).event_log(),
                "compliance_breach"@,
                "Pi Network non-compliant; halting operations."@,
            ),
    {
        let (compliant, stellar_halted) = self.ai_core.get_status();
        self.status.pi_ecosystem_stable = compliant;
        self.status.stellar_halted = stellar_halted;
        if !compliant {
            self.log_event("compliance_breach", "Pi Network non-compliant; halting operations.");
            self.status.active = false;
            return false;
        }
        true
    }

    /// The second half of a round: the accelerator evolves, with the
    /// answer of the compliance source, and the round is recorded. A
    /// failure of the source ends the supervision with the reason.
    pub fn evolve(&mut self, reply: ComplianceReply) -> (r: Result<(), String>)
        requires
            old(self).wf(),
        ensures
            final(self).wf(),
            final(self).ai().status() == state_after(old(self).ai().status(), reply),
            final(self).engine() == old(self).engine(),
            final(self).shield() == old(self).shield(),
            final(self).orchestrator() == old(self).orchestrator(),
            final(self).state() == old(self).state(),
            final(self).accelerator().pool() == old(self).accelerator().pool(),
            final(self).accelerator().assigned() == old(self).accelerator().assigned(),
            final(self).accelerator().metrics() == evolved(old(self).accelerator().metrics()),
            match r {
                Ok(_) => reply_error(reply) is None && logged(
                    old(self).event_log(),
                    final(self).event_log(),
                    "evolution_cycle"@,
                    "Pi Network evolved successfully."@,
                ),
                Err(reason) => reply_error(reply) == Some(reason@) && final(self).event_log()
                    == old(self).event_log(),
            },
    {
        match self.mainnet_accelerator.evolve_system(&mut self.ai_core, reply) {
            Err(reason) => {
                return Err(reason);
            },
            Ok(_) => {},
        }
        self.log_event("evolution_cycle", "Pi Network evolved successfully.");
        Ok(())
    }

    /// The kind of transaction that `name` stands for.
    fn kind_of(name: &str) -> (kind: Option<PITransactionType>)
        ensures
            kind == kind_named(name@),
    {
        if str_equal(name, PITransactionType::MiningReward.label()) {
            Some(PITransactionType::MiningReward)
        } else if str_equal(name, PITransactionType::ContributionReward.label()) {
            Some(PITransactionType::ContributionReward)
        } else if str_equal(name, PITransactionType::P2PTransfer.label()) {
            Some(PITransactionType::P2PTransfer)
        } else {
            None
        }
    }

    /// Reads the transaction that the parameters state.
    fn read_transaction(params: &Vec<String>) -> (tx: Option<PITransaction>)
        ensures
            match tx {
                Some(stated) => transaction_stated(texts(params@)) == Some(stated@),
                None => transaction_stated(texts(params@)) is None,
            },
    {
        if params.len() < 7 {
            return None;
        }
        let amount = match parse_i64(params[3].as_str()) {
            None => {
                return None;
            },
            Some(amount) => amount,
        };
        let tx_type = match Self::kind_of(params[4].as_str()) {
            None => {
                return None;
            },
            Some(tx_type) => tx_type,
        };
        let timestamp = match parse_u64(params[6].as_str()) {
            None => {
                return None;
            },
            Some(timestamp) => timestamp,
        };
        Some(
            PITransaction {
                id: params[0].clone(),
                sender: params[1].clone(),
                receiver: params[2].clone(),
                amount,
                tx_type,
                source_proof: params[5].clone(),
                timestamp,
            },
        )
    }

    /// Carries out a command. `deploy_app` takes a developer and code and
    /// answers with the identifier of the application; `process_transaction`
    /// takes the seven fields of a transaction; `isolate_data` takes data
    /// and answers with its sealed form. A command with too few parameters,
    /// or with a parameter that cannot be read, changes nothing; nor does
    /// an unknown command.
    pub fn execute_command(&mut self, command: &str, params: Vec<String>) -> (r: Result<
        String,
        CommandError,
    >)
        requires
            old(self).wf(),
        ensures
            final(self).wf(),
            final(self).ai() == old(self).ai(),
            final(self).event_log() == old(self).event_log(),
            final(self).state() == old(self).state(),
            execution(*old(self), *final(self), command@, texts(params@), r),
    {
        if str_equal(command, "deploy_app") {
            if params.len() >= 2 {
                let answer = self.app_orchestrator.deploy_app(
                    &self.ai_core,
                    &mut self.isolation_shield,
                    &mut self.mainnet_accelerator,
                    params[0].clone(),
                    params[1].clone(),
                );
                let ghost answered = answer;
                let r = match answer {
                    Ok(app_id) => Ok(app_id),
                    Err(e) => Err(CommandError::Deploy(e)),
                };
                proof {
                    assert(deploy_answer(r) == answered);
                    assert(texts(params@)[0] == params@[0]@);
                    assert(texts(params@)[1] == params@[1]@);
                    let (app_id, now) = choose|app_id: Seq<char>, now: i64|
                        is_uuid_text(app_id) && #[trigger] deployment(
                            old(self).app_orchestrator,
                            self.app_orchestrator,
                            old(self).isolation_shield,
                            self.isolation_shield,
                            old(self).mainnet_accelerator,
                            self.mainnet_accelerator,
                            params@[0]@,
                            params@[1]@,
                            app_id,
                            now,
                            answered,
                        );
                    assert(deployment(
                        old(self).orchestrator(),
                        self.orchestrator(),
                        old(self).shield(),
                        self.shield(),
                        old(self).accelerator(),
                        self.accelerator(),
                        texts(params@)[0],
                        texts(params@)[1],
                        app_id,
                        now,
                        deploy_answer(r),
                    ));
                }
                r
            } else {
                Err(CommandError::InvalidParams(CommandKind::DeployApp))
            }
        } else if str_equal(command, "process_transaction") {
            match Self::read_transaction(&params) {
                None => Err(CommandError::InvalidParams(CommandKind::ProcessTransaction)),
                Some(tx) => match self.tx_engine.process_transaction(&self.ai_core, tx) {
                    Ok(_) => Ok(String::from_str("Transaction processed.")),
                    Err(e) => Err(CommandError::Transaction(e)),
                },
            }
        } else if str_equal(command, "isolate_data") {
            if params.len() >= 1 {
                match self.isolation_shield.process_stream(&self.ai_core, params[0].clone()) {
                    Ok(sealed) => Ok(sealed),
                    Err(e) => Err(CommandError::Isolation(e)),
                }
            } else {
                Err(CommandError::InvalidParams(CommandKind::IsolateData))
            }
        } else {
            Err(CommandError::UnknownCommand)
        }
    }

    /// One view over all subsystems: their figures, the state of the
    /// controller, and the latest five events, the newest first. Nothing
    /// changes.
    pub fn get_dashboard(&self) -> (dashboard: ControllerDashboard)
        requires
            self.wf(),
        ensures
            dashboard.status == self.state(),
            (dashboard.ai_compliant, dashboard.stellar_halted) == self.ai().status(),
            dashboard.transactions_count == self.engine().history().len(),
            dashboard.mainnet_progress == self.accelerator().metrics().mainnet_open_progress,
            dashboard.apps_managed == self.orchestrator().figures().apps_managed,
            dashboard.isolation_events_count == self.shield().records().len(),
            controller_event_models(dashboard.recent_events@) == recent(
                self.event_log(),
                RECENT_EVENTS as nat,
            ),
    {
        let ai_status = self.ai_core.get_status();
        let tx_history = self.tx_engine.get_transactions();
        let mainnet_metrics = self.mainnet_accelerator.get_metrics();
        let isolation_events = self.isolation_shield.get_events();
        let orchestrator_metrics = self.app_orchestrator.get_metrics();
        let mut recent_events: Vec<ControllerEvent> = Vec::new();
        let total = self.events.len();
        let shown: usize = if total < RECENT_EVENTS {
            total
        } else {
            RECENT_EVENTS
        };
        let mut i: usize = 0;
        while i < shown
            invariant
                i <= shown <= total,
                total == self.events.len(),
                recent_events@.len() == i,
                forall|j: int|
                    0 <= j < i ==> (#[trigger] recent_events@[j]) == self.events@[total - 1 - j],
            decreases shown - i,
        {
            recent_events.push(self.events[total - 1 - i].clone());
            i += 1;
        }
        assert(controller_event_models(recent_events@) == recent(
            self.event_log(),
            RECENT_EVENTS as nat,
        ));
        assert(tx_history@.map_values(|tx: PITransaction| tx@).len() == tx_history@.len());
        assert(crate::ecosystem_isolation_shield::event_models(isolation_events@).len()
            == isolation_events@.len());
        ControllerDashboard {
            status: self.status,
            ai_compliant: ai_status.0,
            stellar_halted: ai_status.1,
            transactions_count: tx_history.len(),
            mainnet_progress: mainnet_metrics.mainnet_open_progress,
            apps_managed: orchestrator_metrics.apps_managed,
            isolation_events_count: isolation_events.len(),
            recent_events,
        }
    }

    /// The compliance core.
    pub fn ai_core(&self) -> (ai_core: &AutonomousHyperAI)
        ensures
            *ai_core == self.ai(),
    {
        &self.ai_core
    }

    /// The transaction engine.
    pub fn tx_engine(&self) -> (tx_engine: &PITransactionEngine)
        ensures
            *tx_engine == self.engine(),
    {
        &self.tx_engine
    }

    /// The accelerator.
    pub fn mainnet_accelerator(&self) -> (mainnet_accelerator: &PiMainnetAccelerator)
        ensures
            *mainnet_accelerator == self.accelerator(),
    {
        &self.mainnet_accelerator
    }

    /// The isolation shield.
    pub fn isolation_shield(&self) -> (isolation_shield: &EcosystemIsolationShield)
        ensures
            *isolation_shield == self.shield(),
    {
        &self.isolation_shield
    }

    /// The orchestrator.
    pub fn app_orchestrator(&self) -> (app_orchestrator: &DeveloperAppOrchestrator)
        ensures
            *app_orchestrator == self.orchestrator(),
    {
        &self.app_orchestrator
    }

    /// Commits every queued transaction to the log of the engine.
    pub fn run_processor(&mut self)
        requires
            old(self).wf(),
        ensures
            final(self).wf(),
            final(self).ai() == old(self).ai(),
            final(self).accelerator() == old(self).accelerator(),
            final(self).shield() == old(self).shield(),
            final(self).orchestrator() == old(self).orchestrator(),
            final(self).event_log() == old(self).event_log(),
            final(self).state() == old(self).state(),
            final(self).engine().state() == old(self).engine().state().step(LedgerEvent::Drain),
    {
        self.tx_engine.run_processor();
    }
}

/// The answer of the orchestrator inside the answer to `deploy_app`.
pub open spec fn deploy_answer(r: Result<String, CommandError>) -> Result<
    String,
    OrchestratorError,
> {
    match r {
        Ok(id) => Ok(id),
        Err(CommandError::Deploy(e)) => Err(e),
        Err(_) => Err(OrchestratorError::NotFound),
    }
}

/// What a command does to the controller, and what it answers.
pub open spec fn execution(
    before: SuperAppController,
    after: SuperAppController,
    command: Seq<char>,
    params: Seq<Seq<char>>,
    r: Result<String, CommandError>,
) -> bool {
    match command_named(command) {
        None => r == Err::<String, CommandError>(CommandError::UnknownCommand)
            && after.same_subsystems(&before),
        Some(CommandKind::DeployApp) => if params.len() < 2 {
            r == Err::<String, CommandError>(CommandError::InvalidParams(CommandKind::DeployApp))
                && after.same_subsystems(&before)
        } else {
            &&& after.engine() == before.engine()
            &&& (exists|app_id: Seq<char>, now: i64|
                is_uuid_text(app_id) && #[trigger] deployment(
                    before.orchestrator(),
                    after.orchestrator(),
                    before.shield(),
                    after.shield(),
                    before.accelerator(),
                    after.accelerator(),
                    params[0],
                    params[1],
                    app_id,
                    now,
                    deploy_answer(r),
                ))
            &&& r is Err ==> r->Err_0 is Deploy
        },
        Some(CommandKind::ProcessTransaction) => {
            &&& after.accelerator() == before.accelerator()
            &&& after.shield() == before.shield()
            &&& after.orchestrator() == before.orchestrator()
            &&& (match transaction_stated(params) {
                None => r == Err::<String, CommandError>(
                    CommandError::InvalidParams(CommandKind::ProcessTransaction),
                ) && after.engine() == before.engine(),
                Some(tx) => {
                    &&& after.engine().state() == before.engine().state().step(
                        LedgerEvent::Submit(tx),
                    )
                    &&& reply_model(r) == (match verdict(tx) {
                        Ok(_) => Ok::<Seq<char>, CommandError>("Transaction processed."@),
                        Err(e) => Err::<Seq<char>, CommandError>(CommandError::Transaction(e)),
                    })
                },
            })
        },
        Some(CommandKind::IsolateData) => {
            &&& after.engine() == before.engine()
            &&& after.accelerator() == before.accelerator()
            &&& after.orchestrator() == before.orchestrator()
            &&& (if params.len() < 1 {
                r == Err::<String, CommandError>(
                    CommandError::InvalidParams(CommandKind::IsolateData),
                ) && after.shield() == before.shield()
            } else {
                &&& reply_model(r) == (match outcome(before.shield().patterns(), params[0]) {
                    Ok(sealed) => Ok::<Seq<char>, CommandError>(sealed),
                    Err(e) => Err::<Seq<char>, CommandError>(CommandError::Isolation(e)),
                })
                &&& (exists|now: i64|
                    after.shield().records() == before.shield().records() + #[trigger] records_of(
                        before.shield().patterns(),
                        params[0],
                        now,
                    ))
                &&& after.shield().patterns() == before.shield().patterns()
                &&& after.shield().queued() == before.shield().queued()
            })
        },
    }
}

} // verus!
