//! The transaction engine: validates PI transactions, queues the valid
//! ones, and commits them to its log in the order in which they came.
//!
//! Amounts are whole numbers of millionths of a PI.

use vstd::prelude::*;
use vstd::string::StringExecFns;
use crate::digest::{fingerprint, sha256_hex};
use crate::hyper_ai_core::{classification, AutonomousHyperAI, FilterRejection};
use crate::text::{decimal, push_decimal, push_signed_decimal, signed_decimal};

verus! {

/// Millionths in one PI.
pub const MICROS_PER_PI: i64 = 1_000_000;

/// The stable value ceiling: no transaction moves more than 314,159 PI.
pub const PI_STABLE_VALUE: i64 = 314_159_000_000;

/// Where a transaction comes from.
#[derive(Clone, Copy, Debug, PartialEq, Eq, Structural)]
pub enum PITransactionType {
    MiningReward,
    ContributionReward,
    P2PTransfer,
}

impl PITransactionType {
    /// The name of the kind, as it is written into proofs and descriptors.
    pub open spec fn name(self) -> Seq<char> {
        match self {
            PITransactionType::MiningReward => "MiningReward"@,
            PITransactionType::ContributionReward => "ContributionReward"@,
            PITransactionType::P2PTransfer => "P2PTransfer"@,
        }
    }

    /// The name of the kind.
    pub fn label(&self) -> (text: &'static str)
        ensures
            text@ == self.name(),
    {
        match self {
            PITransactionType::MiningReward => "MiningReward",
            PITransactionType::ContributionReward => "ContributionReward",
            PITransactionType::P2PTransfer => "P2PTransfer",
        }
    }
}

/// A PI transaction as its submitter states it.
#[derive(Debug)]
pub struct PITransaction {
    pub id: String,
    pub sender: String,
    pub receiver: String,
    /// Millionths of a PI.
    pub amount: i64,
    pub tx_type: PITransactionType,
    /// The hash that proves the origin: see `expected_proof`.
    pub source_proof: String,
    pub timestamp: u64,
}

/// The mathematical content of a transaction.
pub ghost struct TransactionModel {
    pub id: Seq<char>,
    pub sender: Seq<char>,
    pub receiver: Seq<char>,
    pub amount: int,
    pub tx_type: PITransactionType,
    pub source_proof: Seq<char>,
    pub timestamp: nat,
}

impl View for PITransaction {
    type V = TransactionModel;

    open spec fn view(&self) -> TransactionModel {
        TransactionModel {
            id: self.id@,
            sender: self.sender@,
            receiver: self.receiver@,
            amount: self.amount as int,
            tx_type: self.tx_type,
            source_proof: self.source_proof@,
            timestamp: self.timestamp as nat,
        }
    }
}

impl Clone for PITransaction {
    fn clone(&self) -> (copy: Self)
        ensures
            copy == *self,
    {
        PITransaction {
            id: self.id.clone(),
            sender: self.sender.clone(),
            receiver: self.receiver.clone(),
            amount: self.amount,
            tx_type: self.tx_type,
            source_proof: self.source_proof.clone(),
            timestamp: self.timestamp,
        }
    }
}

/// The proof of origin that a transaction of kind `tx_type` from `sender`
/// must carry: the hash of the kind's name followed by the sender.
pub open spec fn expected_proof(tx_type: PITransactionType, sender: Seq<char>) -> Seq<char> {
    fingerprint(tx_type.name() + sender)
}

/// The text under which a transaction is shown to the compliance filter.
pub open spec fn descriptor(tx: TransactionModel) -> Seq<char> {
    "PITransaction { id: "@ + tx.id + ", sender: "@ + tx.sender + ", receiver: "@ + tx.receiver
        + ", amount: "@ + signed_decimal(tx.amount) + ", tx_type: "@ + tx.tx_type.name()
        + ", source_proof: "@ + tx.source_proof + ", timestamp: "@ + decimal(tx.timestamp)
        + " }"@
}

/// Whether `amount` is positive and at most the stable value ceiling.
pub open spec fn amount_in_bounds(amount: int) -> bool {
    0 < amount <= PI_STABLE_VALUE
}

/// Whether a transaction has a valid amount and a valid proof of origin.
pub open spec fn admissible(tx: TransactionModel) -> bool {
    amount_in_bounds(tx.amount) && tx.source_proof == expected_proof(tx.tx_type, tx.sender)
}

/// Why a transaction was turned away.
#[derive(Clone, Copy, Debug, PartialEq, Eq, Structural)]
pub enum TransactionError {
    /// The compliance filter rejected the descriptor of the transaction.
    Rejected(FilterRejection),
    /// The amount is not positive, or above the stable value ceiling.
    InvalidAmount,
    /// The proof of origin is not the expected one.
    InvalidSourceProof,
}

impl TransactionError {
    /// The error in words.
    pub open spec fn words(self) -> Seq<char> {
        match self {
            TransactionError::Rejected(rejection) => crate::hyper_ai_core::rejection_message(
                rejection.volatility,
            ),
            TransactionError::InvalidAmount =>
                "Invalid PI amount: must be positive and within stable limits"@,
            TransactionError::InvalidSourceProof =>
                "Invalid source proof: only mining, rewards, or P2P allowed"@,
        }
    }

    /// The error in words.
    pub fn message(&self) -> (text: String)
        ensures
            text@ == self.words(),
    {
        match self {
            TransactionError::Rejected(rejection) => rejection.message(),
            TransactionError::InvalidAmount => String::from_str(
                "Invalid PI amount: must be positive and within stable limits",
            ),
            TransactionError::InvalidSourceProof => String::from_str(
                "Invalid source proof: only mining, rewards, or P2P allowed",
            ),
        }
    }
}

/// What the engine answers to the submission of `tx`. The compliance
/// filter is asked first, then the amount, then the proof of origin; the
/// first failure decides.
pub open spec fn verdict(tx: TransactionModel) -> Result<(), TransactionError> {
    match classification(descriptor(tx)) {
        Err(rejection) => Err(TransactionError::Rejected(rejection)),
        Ok(_) => if !amount_in_bounds(tx.amount) {
            Err(TransactionError::InvalidAmount)
        } else if tx.source_proof != expected_proof(tx.tx_type, tx.sender) {
            Err(TransactionError::InvalidSourceProof)
        } else {
            Ok(())
        },
    }
}

/// A transaction is let in exactly if the compliance filter accepts its
/// descriptor, its amount lies within bounds, and its proof of origin is
/// the expected one. Whatever violates one of the last two is turned
/// away.
pub proof fn lemma_verdict(tx: TransactionModel)
    ensures
        verdict(tx) is Ok <==> classification(descriptor(tx)) is Ok && admissible(tx),
        !amount_in_bounds(tx.amount) ==> verdict(tx) is Err,
        tx.source_proof != expected_proof(tx.tx_type, tx.sender) ==> verdict(tx) is Err,
{
}

/// The amount under the internal dual-value system, in millionths.
pub open spec fn internal_amount(amount: int) -> int {
    amount * 314_159 / 100_000
}

/// The amount under the internal dual-value system: 3.14159 times the
/// stated amount, rounded down to a millionth.
pub fn dual_value(amount: i64) -> (adjusted: i64)
    requires
        amount_in_bounds(amount as int),
    ensures
        adjusted == internal_amount(amount as int),
{
    amount * 314_159 / 100_000
}

/// A transaction on its way through the engine, with its internal amount.
struct LedgerEntry {
    tx: PITransaction,
    internal_amount: i64,
}

impl LedgerEntry {
    spec fn wf(self) -> bool {
        admissible(self.tx@) && self.internal_amount == internal_amount(self.tx.amount as int)
    }
}

/// An event in the life of the engine.
pub ghost enum LedgerEvent {
    /// A transaction is submitted.
    Submit(TransactionModel),
    /// The processor commits everything that is queued.
    Drain,
}

/// The state of the engine: the log and, behind it, the queue.
pub ghost struct LedgerState {
    pub log: Seq<TransactionModel>,
    pub queue: Seq<TransactionModel>,
}

impl LedgerState {
    /// The state after one event.
    pub open spec fn step(self, event: LedgerEvent) -> LedgerState {
        match event {
            LedgerEvent::Submit(tx) => if verdict(tx) is Ok {
                LedgerState { log: self.log, queue: self.queue.push(tx) }
            } else {
                self
            },
            LedgerEvent::Drain => LedgerState { log: self.log + self.queue, queue: Seq::empty() },
        }
    }

    /// The state after a run of events.
    pub open spec fn run(self, events: Seq<LedgerEvent>) -> LedgerState
        decreases events.len(),
    {
        if events.len() == 0 {
            self
        } else {
            self.run(events.drop_last()).step(events.last())
        }
    }

    /// The log followed by the queue: every transaction that was let in,
    /// committed or not.
    pub open spec fn timeline(self) -> Seq<TransactionModel> {
        self.log + self.queue
    }
}

/// The transactions that a run of events lets in, in the order of their
/// submission.
pub open spec fn admitted(events: Seq<LedgerEvent>) -> Seq<TransactionModel>
    decreases events.len(),
{
    if events.len() == 0 {
        Seq::empty()
    } else {
        match events.last() {
            LedgerEvent::Submit(tx) => if verdict(tx) is Ok {
                admitted(events.drop_last()).push(tx)
            } else {
                admitted(events.drop_last())
            },
            LedgerEvent::Drain => admitted(events.drop_last()),
        }
    }
}

/// First in, first out: whatever the submitters do and whenever the
/// processor runs, the log followed by the queue grows by exactly the
/// transactions that were let in, in the order of their submission. The
/// log is never reordered and never loses an entry.
pub proof fn lemma_fifo(start: LedgerState, events: Seq<LedgerEvent>)
    ensures
        start.run(events).timeline() == start.timeline() + admitted(events),
        start.log.is_prefix_of(start.run(events).log),
    decreases events.len(),
{
    if events.len() == 0 {
        assert(start.timeline() + Seq::<TransactionModel>::empty() == start.timeline());
    } else {
        let before = start.run(events.drop_last());
        lemma_fifo(start, events.drop_last());
        let earlier = admitted(events.drop_last());
        match events.last() {
            LedgerEvent::Submit(tx) => {
                if verdict(tx) is Ok {
                    assert(before.log + before.queue.push(tx) == (before.log + before.queue).push(
                        tx,
                    ));
                    assert((start.timeline() + earlier).push(tx) == start.timeline()
                        + earlier.push(tx));
                }
            },
            LedgerEvent::Drain => {
                assert(before.log + before.queue + Seq::<TransactionModel>::empty() == before.log
                    + before.queue);
                assert(start.log.is_prefix_of(before.log + before.queue)) by {
                    assert(before.log.is_prefix_of(before.log + before.queue));
                }
            },
        }
    }
}

/// Once the processor has run, the log holds every transaction that was
/// let in, in the order of submission.
pub proof fn lemma_log_after_drain(start: LedgerState, events: Seq<LedgerEvent>)
    ensures
        start.run(events.push(LedgerEvent::Drain)).log == start.timeline() + admitted(events),
        start.run(events.push(LedgerEvent::Drain)).queue.len() == 0,
{
    let all = events.push(LedgerEvent::Drain);
    assert(all.drop_last() == events);
    lemma_fifo(start, events);
}

/// Every transaction that a run of events lets in is admissible.
pub proof fn lemma_admitted_admissible(events: Seq<LedgerEvent>)
    ensures
        forall|i: int|
            0 <= i < admitted(events).len() ==> admissible(#[trigger] admitted(events)[i]),
    decreases events.len(),
{
    if events.len() > 0 {
        lemma_admitted_admissible(events.drop_last());
        let earlier = admitted(events.drop_last());
        assert forall|i: int| 0 <= i < admitted(events).len() implies admissible(
            #[trigger] admitted(events)[i],
        ) by {
            if i < earlier.len() {
                assert(admitted(events)[i] == earlier[i]);
            }
        }
    }
}

/// The transaction engine.
pub struct PITransactionEngine {
    transactions: Vec<LedgerEntry>,
    queue: Vec<LedgerEntry>,
}

impl PITransactionEngine {
    /// The committed transactions, oldest first.
    pub closed spec fn history(&self) -> Seq<TransactionModel> {
        self.transactions@.map_values(|e: LedgerEntry| e.tx@)
    }

    /// The transactions that were let in and are not committed yet.
    pub closed spec fn pending(&self) -> Seq<TransactionModel> {
        self.queue@.map_values(|e: LedgerEntry| e.tx@)
    }

    /// The log and the queue together.
    pub open spec fn state(&self) -> LedgerState {
        LedgerState { log: self.history(), queue: self.pending() }
    }

    /// The invariant of the engine: whatever it holds was validated.
    pub closed spec fn wf(&self) -> bool {
        &&& forall|i: int|
            0 <= i < self.transactions@.len() ==> (#[trigger] self.transactions@[i]).wf()
        &&& forall|i: int| 0 <= i < self.queue@.len() ==> (#[trigger] self.queue@[i]).wf()
    }

    /// Whatever a well-formed engine holds, in its log or in its queue,
    /// has an amount within bounds and the expected proof of origin.
    pub proof fn lemma_holds_admissible_only(&self)
        requires
            self.wf(),
        ensures
            forall|i: int|
                0 <= i < self.history().len() ==> admissible(#[trigger] self.history()[i]),
            forall|i: int|
                0 <= i < self.pending().len() ==> admissible(#[trigger] self.pending()[i]),
    {
        assert forall|i: int| 0 <= i < self.history().len() implies admissible(
            #[trigger] self.history()[i],
        ) by {
            assert(self.transactions@[i].wf());
        }
        assert forall|i: int| 0 <= i < self.pending().len() implies admissible(
            #[trigger] self.pending()[i],
        ) by {
            assert(self.queue@[i].wf());
        }
    }

    /// An engine with an empty log and an empty queue.
    pub fn new() -> (engine: Self)
        ensures
            engine.wf(),
            engine.history() == Seq::<TransactionModel>::empty(),
            engine.pending() == Seq::<TransactionModel>::empty(),
    {
        let engine = PITransactionEngine { transactions: Vec::new(), queue: Vec::new() };
        assert(engine.history() == Seq::<TransactionModel>::empty());
        assert(engine.pending() == Seq::<TransactionModel>::empty());
        engine
    }

    /// The proof of origin for a transaction of kind `tx_type` from
    /// `sender`.
    pub fn generate_source_proof(&self, tx_type: &PITransactionType, sender: &str) -> (proof_text:
        String)
        ensures
            proof_text@ == expected_proof(*tx_type, sender@),
    {
        let mut input = String::from_str(tx_type.label());
        input.append(sender);
        sha256_hex(input.as_str())
    }

    /// The text under which `tx` is shown to the compliance filter.
    pub fn describe(tx: &PITransaction) -> (text: String)
        ensures
            text@ == descriptor(tx@),
    {
        let mut text = String::from_str("PITransaction { id: ");
        text.append(tx.id.as_str());
        text.append(", sender: ");
        text.append(tx.sender.as_str());
        text.append(", receiver: ");
        text.append(tx.receiver.as_str());
        text.append(", amount: ");
        push_signed_decimal(&mut text, tx.amount);
        text.append(", tx_type: ");
        text.append(tx.tx_type.label());
        text.append(", source_proof: ");
        text.append(tx.source_proof.as_str());
        text.append(", timestamp: ");
        push_decimal(&mut text, tx.timestamp);
        text.append(" }");
        text
    }

    /// Validates `tx` and, if it is valid, queues it for the processor.
    /// The log does not change; a transaction that is turned away leaves
    /// no trace.
    pub fn process_transaction(&mut self, ai_core: &AutonomousHyperAI, tx: PITransaction) -> (r:
        Result<(), TransactionError>)
        requires
            old(self).wf(),
        ensures
            final(self).wf(),
            r == verdict(tx@),
            final(self).state() == old(self).state().step(LedgerEvent::Submit(tx@)),
            final(self).history() == old(self).history(),
            r is Ok ==> admissible(tx@) && final(self).pending() == old(self).pending().push(tx@),
            r is Err ==> final(self).pending() == old(self).pending(),
    {
        let text = Self::describe(&tx);
        match ai_core.filter_io(text.as_str()) {
            Err(rejection) => {
                return Err(TransactionError::Rejected(rejection));
            },
            Ok(_) => {},
        }
        if tx.amount <= 0 || tx.amount > PI_STABLE_VALUE {
            return Err(TransactionError::InvalidAmount);
        }
        let expected = self.generate_source_proof(&tx.tx_type, tx.sender.as_str());
        if tx.source_proof != expected {
            return Err(TransactionError::InvalidSourceProof);
        }
        let adjusted = dual_value(tx.amount);
        let entry = LedgerEntry { tx, internal_amount: adjusted };
        self.queue.push(entry);
        assert(final(self).pending() == old(self).pending().push(tx@));
        Ok(())
    }

    /// Commits the oldest queued transaction to the log, if there is one,
    /// and says whether there was.
    pub fn commit_next(&mut self) -> (committed: bool)
        requires
            old(self).wf(),
        ensures
            final(self).wf(),
            committed == (old(self).pending().len() > 0),
            committed ==> final(self).history() == old(self).history().push(old(self).pending()[0])
                && final(self).pending() == old(self).pending().drop_first(),
            !committed ==> final(self).history() == old(self).history() && final(self).pending()
                == old(self).pending(),
            final(self).state().timeline() == old(self).state().timeline(),
    {
        if self.queue.len() == 0 {
            return false;
        }
        let entry = self.queue.remove(0);
        self.transactions.push(entry);
        assert(final(self).history() == old(self).history().push(old(self).pending()[0]));
        assert(final(self).pending() == old(self).pending().drop_first());
        assert(final(self).state().timeline() == old(self).state().timeline());
        true
    }

    /// Commits every queued transaction to the log, oldest first.
    pub fn run_processor(&mut self)
        requires
            old(self).wf(),
        ensures
            final(self).wf(),
            final(self).state() == old(self).state().step(LedgerEvent::Drain),
            final(self).history() == old(self).history() + old(self).pending(),
            final(self).pending() == Seq::<TransactionModel>::empty(),
    {
        while self.queue.len() > 0
            invariant
                self.wf(),
                self.history() + self.pending() == old(self).history() + old(self).pending(),
            decreases self.queue.len(),
        {
            let ghost before = self.state();
            self.commit_next();
            assert(self.state().timeline() == before.timeline());
        }
        assert(self.pending() == Seq::<TransactionModel>::empty());
        assert(self.history() + Seq::<TransactionModel>::empty() == self.history());
    }

    /// A copy of the log: the committed transactions, oldest first. All of
    /// them have an amount within bounds and the expected proof of origin.
    pub fn get_transactions(&self) -> (log: Vec<PITransaction>)
        requires
            self.wf(),
        ensures
            log@.map_values(|tx: PITransaction| tx@) == self.history(),
            forall|i: int| 0 <= i < log@.len() ==> admissible(#[trigger] log@[i]@),
    {
        let mut log: Vec<PITransaction> = Vec::new();
        let mut i: usize = 0;
        while i < self.transactions.len()
            invariant
                self.wf(),
                i <= self.transactions.len(),
                log@.len() == i,
                forall|j: int| 0 <= j < i ==> (#[trigger] log@[j]) == self.transactions@[j].tx,
            decreases self.transactions.len() - i,
        {
            log.push(self.transactions[i].tx.clone());
            i += 1;
        }
        assert(log@.map_values(|tx: PITransaction| tx@) == self.history());
        assert forall|i: int| 0 <= i < log@.len() implies admissible(#[trigger] log@[i]@) by {
            assert(self.transactions@[i].wf());
        }
        log
    }
}

} // verus!
