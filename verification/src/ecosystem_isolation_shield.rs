//! The isolation shield: filters free-form data, quarantines what matches a
//! volatility pattern, and seals the rest with a hash of its content.
//!
//! Scores are whole numbers of hundredths: 50 is 0.50.

use vstd::prelude::*;
use vstd::string::{StrSliceExecFns, StringExecFns};
use crate::digest::{fingerprint, is_hex_char, lemma_hex_lower_chars, sha256, sha256_hex};
use crate::host::unix_now;
use crate::hyper_ai_core::{classification, AutonomousHyperAI, FilterRejection};
use crate::pattern::{is_match, search};
use crate::text::{chars_of, fixed2, push_fixed2, push_signed_decimal, signed_decimal, texts};

verus! {

/// What one matching pattern adds to the score: 0.50.
pub const MATCH_INCREMENT: u32 = 50;

/// Data with a score above 0.30 is quarantined.
pub const QUARANTINE_THRESHOLD: u32 = 30;

/// The pattern that the shield is made with: the names of volatile
/// technologies, in any letter case.
pub open spec fn volatile_keywords() -> Seq<char> {
    "(?i)bitcoin|ethereum|crypto|token|blockchain|finance"@
}

/// The record of one quarantine.
#[derive(Debug)]
pub struct IsolationEvent {
    pub id: String,
    pub data_type: String,
    /// The score of the data, in hundredths.
    pub volatility_score: u32,
    pub quarantined: bool,
    pub timestamp: u64,
}

/// The mathematical content of a quarantine record.
pub ghost struct IsolationEventModel {
    pub id: Seq<char>,
    pub data_type: Seq<char>,
    pub volatility_score: u32,
    pub quarantined: bool,
    pub timestamp: u64,
}

impl View for IsolationEvent {
    type V = IsolationEventModel;

    open spec fn view(&self) -> IsolationEventModel {
        IsolationEventModel {
            id: self.id@,
            data_type: self.data_type@,
            volatility_score: self.volatility_score,
            quarantined: self.quarantined,
            timestamp: self.timestamp,
        }
    }
}

impl Clone for IsolationEvent {
    fn clone(&self) -> (copy: Self)
        ensures
            copy == *self,
    {
        IsolationEvent {
            id: self.id.clone(),
            data_type: self.data_type.clone(),
            volatility_score: self.volatility_score,
            quarantined: self.quarantined,
            timestamp: self.timestamp,
        }
    }
}

/// The models of a list of records.
pub open spec fn event_models(events: Seq<IsolationEvent>) -> Seq<IsolationEventModel> {
    events.map_values(|e: IsolationEvent| e@)
}

/// Why data did not pass the shield.
#[derive(Clone, Copy, Debug, PartialEq, Eq, Structural)]
pub enum IsolationError {
    /// The compliance filter rejected the data.
    Rejected(FilterRejection),
    /// The data matched volatility patterns and was quarantined.
    Quarantined { score: u32 },
    /// One of the patterns of the shield is no regular expression.
    InvalidPattern,
}

impl IsolationError {
    /// The error in words.
    pub open spec fn words(self) -> Seq<char> {
        match self {
            IsolationError::Rejected(rejection) => crate::hyper_ai_core::rejection_message(
                rejection.volatility,
            ),
            IsolationError::Quarantined { score } => "Data isolated: volatility score "@ + fixed2(
                score as nat,
            ),
            IsolationError::InvalidPattern => "Invalid volatility pattern."@,
        }
    }

    /// The error in words, a score with two decimals.
    pub fn message(&self) -> (text: String)
        ensures
            text@ == self.words(),
    {
        match self {
            IsolationError::Rejected(rejection) => rejection.message(),
            IsolationError::Quarantined { score } => {
                let mut text = String::from_str("Data isolated: volatility score ");
                push_fixed2(&mut text, *score as u64);
                text
            },
            IsolationError::InvalidPattern => String::from_str("Invalid volatility pattern."),
        }
    }
}

/// The score of `data` under `patterns`: 0.50 for each pattern that
/// matches. `None` when one of the patterns does not compile.
pub open spec fn pattern_score(patterns: Seq<Seq<char>>, data: Seq<char>) -> Option<nat>
    decreases patterns.len(),
{
    if patterns.len() == 0 {
        Some(0)
    } else {
        match (pattern_score(patterns.drop_last(), data), search(patterns.last(), data)) {
            (Some(score), Some(hit)) => Some(
                if hit {
                    score + MATCH_INCREMENT as nat
                } else {
                    score
                },
            ),
            _ => None,
        }
    }
}

/// A score is at most 0.50 for each pattern.
pub proof fn lemma_score_bound(patterns: Seq<Seq<char>>, data: Seq<char>)
    ensures
        pattern_score(patterns, data) is Some ==> pattern_score(patterns, data)->Some_0
            <= MATCH_INCREMENT * patterns.len(),
    decreases patterns.len(),
{
    if patterns.len() > 0 {
        lemma_score_bound(patterns.drop_last(), data);
    }
}

/// Sealed data: the data itself, and the hash of the data.
pub open spec fn sealed_text(data: Seq<char>) -> Seq<char> {
    "Sealed PI Data: "@ + data + " | Hash: "@ + fingerprint(data)
}

/// What the shield answers for `data`. The compliance filter is asked
/// first; then the patterns decide between quarantine and seal.
pub open spec fn outcome(patterns: Seq<Seq<char>>, data: Seq<char>) -> Result<
    Seq<char>,
    IsolationError,
> {
    match classification(data) {
        Err(rejection) => Err(IsolationError::Rejected(rejection)),
        Ok(_) => match pattern_score(patterns, data) {
            None => Err(IsolationError::InvalidPattern),
            Some(score) => if score > QUARANTINE_THRESHOLD {
                Err(IsolationError::Quarantined { score: score as u32 })
            } else {
                Ok(sealed_text(data))
            },
        },
    }
}

/// Data is quarantined exactly for a score above the threshold, and the
/// score that the quarantine carries is at most 0.50 for each pattern.
pub proof fn lemma_quarantine_score(patterns: Seq<Seq<char>>, data: Seq<char>, score: u32)
    requires
        patterns.len() <= 2,
        outcome(patterns, data) == Err::<Seq<char>, IsolationError>(
            IsolationError::Quarantined { score },
        ),
    ensures
        QUARANTINE_THRESHOLD < score <= 100,
        pattern_score(patterns, data) == Some(score as nat),
{
    lemma_score_bound(patterns, data);
}

/// The record that is written when data with `score` is quarantined at the
/// time `now`, in seconds since the epoch.
pub open spec fn quarantine_record(score: u32, now: i64) -> IsolationEventModel {
    IsolationEventModel {
        id: "event_"@ + signed_decimal(now as int),
        data_type: "volatile_external"@,
        volatility_score: score,
        quarantined: true,
        timestamp: now as u64,
    }
}

/// The records that `data` adds when it comes in at the time `now`: one
/// if it is quarantined, none otherwise.
pub open spec fn records_of(patterns: Seq<Seq<char>>, data: Seq<char>, now: i64) -> Seq<
    IsolationEventModel,
> {
    match outcome(patterns, data) {
        Err(IsolationError::Quarantined { score }) => seq![quarantine_record(score, now)],
        _ => Seq::empty(),
    }
}

/// The records that a batch adds, the `i`-th item coming in at the `i`-th
/// time.
pub open spec fn records_of_batch(
    patterns: Seq<Seq<char>>,
    batch: Seq<Seq<char>>,
    times: Seq<i64>,
) -> Seq<IsolationEventModel>
    decreases batch.len(),
{
    if batch.len() == 0 || times.len() != batch.len() {
        Seq::empty()
    } else {
        records_of_batch(patterns, batch.drop_last(), times.drop_last()) + records_of(
            patterns,
            batch.last(),
            times.last(),
        )
    }
}

/// The content of an answer of the shield.
pub open spec fn answer_model(answer: Result<String, IsolationError>) -> Result<
    Seq<char>,
    IsolationError,
> {
    match answer {
        Ok(sealed) => Ok(sealed@),
        Err(e) => Err(e),
    }
}

/// The position of the last `c` in `s`, or -1.
pub open spec fn last_index_of(s: Seq<char>, c: char) -> int
    decreases s.len(),
{
    if s.len() == 0 {
        -1
    } else if s.last() == c {
        s.len() - 1
    } else {
        last_index_of(s.drop_last(), c)
    }
}

/// The data inside sealed text, if the text has the form of a seal and
/// its hash is the hash of the data. The data ends before the last
/// separator.
pub open spec fn opened(sealed: Seq<char>) -> Option<Seq<char>> {
    let head = "Sealed PI Data: "@;
    let bar = last_index_of(sealed, '|');
    if bar >= head.len() + 1 && bar + 8 <= sealed.len() && sealed.take(head.len() as int) == head
        && sealed.subrange(bar - 1, bar + 8) == " | Hash: "@ && sealed.skip(bar + 8)
        == fingerprint(sealed.subrange(head.len() as int, bar - 1)) {
        Some(sealed.subrange(head.len() as int, bar - 1))
    } else {
        None
    }
}

proof fn lemma_last_index_in_range(s: Seq<char>, c: char)
    ensures
        -1 <= last_index_of(s, c) < s.len(),
        last_index_of(s, c) >= 0 ==> s[last_index_of(s, c)] == c,
        forall|j: int| last_index_of(s, c) < j < s.len() ==> s[j] != c,
    decreases s.len(),
{
    if s.len() > 0 && s.last() != c {
        let front = s.drop_last();
        lemma_last_index_in_range(front, c);
        assert forall|j: int| last_index_of(s, c) < j < s.len() implies s[j] != c by {
            if j < front.len() {
                assert(front[j] == s[j]);
            }
        }
    }
}

proof fn lemma_last_index_found(s: Seq<char>, c: char, at: int)
    requires
        0 <= at < s.len(),
        s[at] == c,
        forall|j: int| at < j < s.len() ==> s[j] != c,
    ensures
        last_index_of(s, c) == at,
    decreases s.len(),
{
    if s.len() - 1 != at {
        lemma_last_index_found(s.drop_last(), c, at);
    }
}

/// Round trip of the seal: sealed data opens to the data that was sealed,
/// whatever the data is. The hash that the seal embeds is the hash of the
/// data.
pub proof fn lemma_seal_opens(data: Seq<char>)
    ensures
        opened(sealed_text(data)) == Some(data),
{
    reveal_strlit("Sealed PI Data: ");
    reveal_strlit(" | Hash: ");
    let head = "Sealed PI Data: "@;
    let sep = " | Hash: "@;
    let hash = fingerprint(data);
    let sealed = sealed_text(data);
    let bar: int = (head.len() + data.len() + 1) as int;
    lemma_hex_lower_chars(sha256(vstd::utf8::encode_utf8(data)));
    assert(sealed[bar] == sep[1]);
    assert forall|j: int| bar < j < sealed.len() implies sealed[j] != '|' by {
        if j < bar + 8 {
            assert(sealed[j] == sep[j - bar + 1]);
        } else {
            assert(sealed[j] == hash[j - bar - 8]);
            assert(is_hex_char(hash[j - bar - 8]));
        }
    }
    lemma_last_index_found(sealed, '|', bar);
    assert(sealed.take(head.len() as int) == head);
    assert(sealed.subrange(bar - 1, bar + 8) == sep);
    assert(sealed.subrange(head.len() as int, bar - 1) == data);
    assert(sealed.skip(bar + 8) == hash);
}

/// Round trip through the shield: whatever the shield lets through comes
/// out as a seal that opens to the very data that went in.
pub proof fn lemma_passed_data_opens(patterns: Seq<Seq<char>>, data: Seq<char>)
    requires
        outcome(patterns, data) is Ok,
    ensures
        outcome(patterns, data) == Ok::<Seq<char>, IsolationError>(sealed_text(data)),
        opened(outcome(patterns, data)->Ok_0) == Some(data),
{
    lemma_seal_opens(data);
}

/// The shield.
pub struct EcosystemIsolationShield {
    events: Vec<IsolationEvent>,
    stream: Vec<String>,
    volatility_patterns: Vec<String>,
}

impl EcosystemIsolationShield {
    /// The quarantine records, oldest first.
    pub closed spec fn records(&self) -> Seq<IsolationEventModel> {
        event_models(self.events@)
    }

    /// The data that was sent to the stream and is not taken up yet.
    pub closed spec fn queued(&self) -> Seq<Seq<char>> {
        texts(self.stream@)
    }

    /// The patterns of the shield.
    pub closed spec fn patterns(&self) -> Seq<Seq<char>> {
        texts(self.volatility_patterns@)
    }

    /// The invariant of the shield: at most two patterns, so that a score
    /// is at most 1.00.
    pub closed spec fn wf(&self) -> bool {
        self.volatility_patterns@.len() <= 2
    }

    /// A shield with the pattern of volatile keywords, no record and an
    /// empty stream.
    pub fn new() -> (shield: Self)
        ensures
            shield.wf(),
            shield.records() == Seq::<IsolationEventModel>::empty(),
            shield.queued() == Seq::<Seq<char>>::empty(),
            shield.patterns() == seq![volatile_keywords()],
    {
        let mut patterns: Vec<String> = Vec::new();
        patterns.push(String::from_str("(?i)bitcoin|ethereum|crypto|token|blockchain|finance"));
        let shield = EcosystemIsolationShield {
            events: Vec::new(),
            stream: Vec::new(),
            volatility_patterns: patterns,
        };
        assert(shield.records() == Seq::<IsolationEventModel>::empty());
        assert(shield.queued() == Seq::<Seq<char>>::empty());
        assert(shield.patterns() == seq![volatile_keywords()]);
        shield
    }

    /// A shield with patterns of the caller's choice, no record and an
    /// empty stream. A shield has at most two patterns, so that no score
    /// rises above 1.00: for more, there is no shield.
    pub fn with_patterns(patterns: Vec<String>) -> (shield: Option<Self>)
        ensures
            shield is Some == (patterns@.len() <= 2),
            shield is Some ==> {
                &&& shield->Some_0.wf()
                &&& shield->Some_0.records() == Seq::<IsolationEventModel>::empty()
                &&& shield->Some_0.queued() == Seq::<Seq<char>>::empty()
                &&& shield->Some_0.patterns() == texts(patterns@)
            },
    {
        if patterns.len() > 2 {
            return None;
        }
        let shield = EcosystemIsolationShield {
            events: Vec::new(),
            stream: Vec::new(),
            volatility_patterns: patterns,
        };
        assert(shield.records() == Seq::<IsolationEventModel>::empty());
        assert(shield.queued() == Seq::<Seq<char>>::empty());
        Some(shield)
    }

    /// The score of `data` under the patterns of the shield.
    fn score(&self, data: &str) -> (score: Option<u32>)
        requires
            self.wf(),
        ensures
            match score {
                Some(s) => pattern_score(self.patterns(), data@) == Some(s as nat) && s <= 100,
                None => pattern_score(self.patterns(), data@) is None,
            },
    {
        let ghost all = self.patterns();
        let mut score: u32 = 0;
        let mut i: usize = 0;
        while i < self.volatility_patterns.len()
            invariant
                self.wf(),
                all == self.patterns(),
                i <= self.volatility_patterns.len(),
                pattern_score(all.take(i as int), data@) == Some(score as nat),
                score <= MATCH_INCREMENT * i,
            decreases self.volatility_patterns.len() - i,
        {
            let ghost next = all.take(i as int + 1);
            assert(next.drop_last() == all.take(i as int));
            assert(next.last() == self.volatility_patterns@[i as int]@);
            match is_match(self.volatility_patterns[i].as_str(), data) {
                None => {
                    proof {
                        lemma_pattern_score_none(all, data@, i as int + 1);
                    }
                    return None;
                },
                Some(hit) => {
                    if hit {
                        score = score + MATCH_INCREMENT;
                    }
                },
            }
            i += 1;
        }
        assert(all.take(i as int) == all);
        Some(score)
    }

    /// Cryptographically seals `data`: the data, and its hash.
    pub fn seal_data(&self, data: &str) -> (sealed: String)
        ensures
            sealed@ == sealed_text(data@),
            opened(sealed@) == Some(data@),
    {
        let hash = sha256_hex(data);
        let mut sealed = String::from_str("Sealed PI Data: ");
        sealed.append(data);
        sealed.append(" | Hash: ");
        sealed.append(hash.as_str());
        proof {
            lemma_seal_opens(data@);
        }
        sealed
    }

    /// Passes `data` through the shield at the time `now`, in seconds
    /// since the epoch. Data that the compliance filter rejects is turned
    /// away; data whose score is above 0.30 is quarantined, with a record;
    /// all other data is sealed.
    pub fn process_stream_at(&mut self, ai_core: &AutonomousHyperAI, data: String, now: i64) -> (r:
        Result<String, IsolationError>)
        requires
            old(self).wf(),
        ensures
            final(self).wf(),
            answer_model(r) == outcome(old(self).patterns(), data@),
            final(self).records() == old(self).records() + records_of(
                old(self).patterns(),
                data@,
                now,
            ),
            final(self).patterns() == old(self).patterns(),
            final(self).queued() == old(self).queued(),
    {
        assert(self.records() + Seq::<IsolationEventModel>::empty() == self.records());
        match ai_core.filter_io(data.as_str()) {
            Err(rejection) => {
                return Err(IsolationError::Rejected(rejection));
            },
            Ok(_) => {},
        }
        match self.score(data.as_str()) {
            None => Err(IsolationError::InvalidPattern),
            Some(score) => {
                if score > QUARANTINE_THRESHOLD {
                    let mut id = String::from_str("event_");
                    push_signed_decimal(&mut id, now);
                    let event = IsolationEvent {
                        id,
                        data_type: String::from_str("volatile_external"),
                        volatility_score: score,
                        quarantined: true,
                        timestamp: #[verifier::truncate]
                        (now as u64),
                    };
                    assert(event@ == quarantine_record(score, now));
                    self.events.push(event);
                    assert(final(self).records() == old(self).records() + seq![
                        quarantine_record(score, now),
                    ]);
                    Err(IsolationError::Quarantined { score })
                } else {
                    Ok(self.seal_data(data.as_str()))
                }
            },
        }
    }

    /// Passes `data` through the shield now: `process_stream_at` with the
    /// time of this machine's clock.
    pub fn process_stream(&mut self, ai_core: &AutonomousHyperAI, data: String) -> (r: Result<
        String,
        IsolationError,
    >)
        requires
            old(self).wf(),
        ensures
            final(self).wf(),
            answer_model(r) == outcome(old(self).patterns(), data@),
            exists|now: i64|
                final(self).records() == old(self).records() + #[trigger] records_of(
                    old(self).patterns(),
                    data@,
                    now,
                ),
            final(self).patterns() == old(self).patterns(),
            final(self).queued() == old(self).queued(),
    {
        let now = unix_now();
        self.process_stream_at(ai_core, data, now)
    }

    /// Sends `data` to the stream. The stream takes any amount of data.
    pub fn send(&mut self, data: String)
        requires
            old(self).wf(),
        ensures
            final(self).wf(),
            final(self).queued() == old(self).queued().push(data@),
            final(self).records() == old(self).records(),
            final(self).patterns() == old(self).patterns(),
    {
        self.stream.push(data);
        assert(final(self).queued() == old(self).queued().push(data@));
    }

    /// Passes a batch through the shield, item by item, each at the time
    /// at which it is taken up. The answers stand in the order of the
    /// batch; an item that is turned away does not stop the others.
    pub fn bulk_isolate(
        &mut self,
        ai_core: &AutonomousHyperAI,
        data_batch: Vec<String>,
    ) -> (results:
        Vec<Result<String, IsolationError>>)
        requires
            old(self).wf(),
        ensures
            final(self).wf(),
            results@.len() == data_batch@.len(),
            forall|i: int|
                0 <= i < results@.len() ==> answer_model(#[trigger] results@[i]) == outcome(
                    old(self).patterns(),
                    data_batch@[i]@,
                ),
            exists|times: Seq<i64>|
                times.len() == data_batch@.len() && final(self).records() == old(self).records()
                    + #[trigger] records_of_batch(old(self).patterns(), texts(data_batch@), times),
            final(self).patterns() == old(self).patterns(),
            final(self).queued() == old(self).queued(),
    {
        let ghost batch = texts(data_batch@);
        let ghost patterns = self.patterns();
        let ghost mut times: Seq<i64> = Seq::empty();
        let mut results: Vec<Result<String, IsolationError>> = Vec::new();
        let mut i: usize = 0;
        assert(batch.take(0) == Seq::<Seq<char>>::empty());
        assert(self.records() + Seq::<IsolationEventModel>::empty() == self.records());
        while i < data_batch.len()
            invariant
                self.wf(),
                i <= data_batch.len(),
                batch == texts(data_batch@),
                patterns == self.patterns(),
                patterns == old(self).patterns(),
                self.queued() == old(self).queued(),
                results@.len() == i,
                times.len() == i,
                forall|j: int|
                    0 <= j < i ==> answer_model(#[trigger] results@[j]) == outcome(
                        patterns,
                        data_batch@[j]@,
                    ),
                self.records() == old(self).records() + records_of_batch(
                    patterns,
                    batch.take(i as int),
                    times,
                ),
            decreases data_batch.len() - i,
        {
            let now = unix_now();
            let ghost before = self.records();
            let answer = self.process_stream_at(ai_core, data_batch[i].clone(), now);
            proof {
                let done = batch.take(i as int + 1);
                let stamped = times.push(now);
                assert(done.drop_last() == batch.take(i as int));
                assert(stamped.drop_last() == times);
                assert(done.last() == data_batch@[i as int]@);
                assert(old(self).records() + records_of_batch(patterns, batch.take(i as int), times)
                    + records_of(patterns, done.last(), now) == old(self).records() + (
                records_of_batch(patterns, batch.take(i as int), times) + records_of(
                    patterns,
                    done.last(),
                    now,
                )));
                times = stamped;
            }
            results.push(answer);
            i += 1;
        }
        assert(batch.take(i as int) == batch);
        results
    }

    /// Takes up everything that was sent to the stream, in the order of
    /// arrival, and passes it through the shield as `bulk_isolate` does.
    pub fn run_stream_processor(&mut self, ai_core: &AutonomousHyperAI) -> (results: Vec<
        Result<String, IsolationError>,
    >)
        requires
            old(self).wf(),
        ensures
            final(self).wf(),
            results@.len() == old(self).queued().len(),
            forall|i: int|
                0 <= i < results@.len() ==> answer_model(#[trigger] results@[i]) == outcome(
                    old(self).patterns(),
                    old(self).queued()[i],
                ),
            exists|times: Seq<i64>|
                times.len() == old(self).queued().len()
                    && final(self).records() == old(self).records() + #[trigger] records_of_batch(
                    old(self).patterns(),
                    old(self).queued(),
                    times,
                ),
            final(self).patterns() == old(self).patterns(),
            final(self).queued() == Seq::<Seq<char>>::empty(),
    {
        let mut taken: Vec<String> = Vec::new();
        taken.append(&mut self.stream);
        assert(taken@ == old(self).stream@);
        assert(self.queued() == Seq::<Seq<char>>::empty());
        self.bulk_isolate(ai_core, taken)
    }

    /// A copy of the quarantine records, oldest first.
    pub fn get_events(&self) -> (events: Vec<IsolationEvent>)
        ensures
            event_models(events@) == self.records(),
    {
        let mut events: Vec<IsolationEvent> = Vec::new();
        let mut i: usize = 0;
        while i < self.events.len()
            invariant
                i <= self.events.len(),
                events@ == self.events@.take(i as int),
            decreases self.events.len() - i,
        {
            events.push(self.events[i].clone());
            assert(self.events@.take(i as int + 1) == self.events@.take(i as int).push(
                self.events@[i as int],
            ));
            i += 1;
        }
        assert(self.events@.take(self.events.len() as int) == self.events@);
        events
    }

    /// Opens sealed text: hands back the data if the text has the form of
    /// a seal and the hash in it is the hash of the data.
    pub fn unseal(sealed: &str) -> (data: Option<String>)
        ensures
            match data {
                Some(text) => opened(sealed@) == Some(text@),
                None => opened(sealed@) is None,
            },
    {
        proof {
            reveal_strlit("Sealed PI Data: ");
            reveal_strlit(" | Hash: ");
            lemma_last_index_in_range(sealed@, '|');
        }
        let chars = chars_of(sealed);
        let mut bar: usize = chars.len();
        while bar > 0 && chars[bar - 1] != '|'
            invariant
                bar <= chars.len(),
                chars@ == sealed@,
                forall|j: int| bar <= j < chars.len() ==> chars@[j] != '|',
            decreases bar,
        {
            bar -= 1;
        }
        if bar == 0 {
            assert(last_index_of(sealed@, '|') < 0);
            return None;
        }
        let at: usize = bar - 1;
        proof {
            lemma_last_index_found(sealed@, '|', at as int);
        }
        if at < 17 || chars.len() - at < 8 {
            return None;
        }
        let head = sealed.substring_char(0, 16);
        let sep = sealed.substring_char(at - 1, at + 8);
        if !crate::text::str_equal(head, "Sealed PI Data: ") || !crate::text::str_equal(
            sep,
            " | Hash: ",
        ) {
            return None;
        }
        let payload = sealed.substring_char(16, at - 1);
        let hash = sealed.substring_char(at + 8, chars.len());
        let expected = sha256_hex(payload);
        if !crate::text::str_equal(hash, expected.as_str()) {
            return None;
        }
        Some(String::from_str(payload))
    }
}

/// Without all patterns compiling there is no score.
proof fn lemma_pattern_score_none(patterns: Seq<Seq<char>>, data: Seq<char>, k: int)
    requires
        0 <= k <= patterns.len(),
        pattern_score(patterns.take(k), data) is None,
    ensures
        pattern_score(patterns, data) is None,
    decreases patterns.len(),
{
    if k == patterns.len() {
        assert(patterns.take(k) == patterns);
    } else {
        assert(patterns.drop_last().take(k) == patterns.take(k));
        lemma_pattern_score_none(patterns.drop_last(), data, k);
    }
}

} // verus!
