//! What the on-chain modules share: the part of the ledger that a call
//! sees, the status table that the modules report with, and the way in
//! which records are named and shown.

use vstd::prelude::*;
use vstd::string::StringExecFns;
use crate::text::{bool_text, decimal, push_bool, push_decimal, push_signed_decimal};
use crate::text::{signed_decimal, str_equal};

verus! {

/// What a call sees of the ledger: the number of the ledger that is being
/// closed, and its time in seconds since the epoch.
#[derive(Clone, Copy, Debug, PartialEq, Eq, Structural)]
pub struct Ledger {
    pub sequence: u32,
    pub timestamp: u64,
}

/// The name of a record: a prefix, and the number of the ledger in which
/// the record was made.
pub open spec fn record_name(prefix: Seq<char>, sequence: u32) -> Seq<char> {
    prefix + decimal(sequence as nat)
}

/// The name of a record that is made in the ledger number `sequence`.
pub fn record_id(prefix: &str, sequence: u32) -> (id: String)
    ensures
        id@ == record_name(prefix@, sequence),
{
    let mut id = String::from_str(prefix);
    push_decimal(&mut id, sequence as u64);
    id
}

/// A line that shows a flag: the label, and `true` or `false`.
pub open spec fn flag_text(label: Seq<char>, flag: bool) -> Seq<char> {
    label + bool_text(flag)
}

/// A line that shows a flag.
pub fn flag_line(label: &str, flag: bool) -> (line: String)
    ensures
        line@ == flag_text(label@, flag),
{
    let mut line = String::from_str(label);
    push_bool(&mut line, flag);
    line
}

/// A line that shows a number: the label, and the number in decimal.
pub open spec fn number_text(label: Seq<char>, number: i64) -> Seq<char> {
    label + signed_decimal(number as int)
}

/// A line that shows a number.
pub fn number_line(label: &str, number: i64) -> (line: String)
    ensures
        line@ == number_text(label@, number),
{
    let mut line = String::from_str(label);
    push_signed_decimal(&mut line, number);
    line
}

/// A line that shows a name: the label, and the name.
pub fn label_line(label: &str, name: &str) -> (line: String)
    ensures
        line@ == label@ + name@,
{
    let mut line = String::from_str(label);
    line.append(name);
    line
}

/// One entry of a status table.
#[derive(Clone, Debug)]
struct StatusEntry {
    key: String,
    value: i64,
}

/// The table that a list of entries stands for. An entry replaces every
/// earlier entry of the same key.
spec fn table_of(entries: Seq<StatusEntry>) -> Map<Seq<char>, i64>
    decreases entries.len(),
{
    if entries.len() == 0 {
        Map::empty()
    } else {
        table_of(entries.drop_last()).insert(entries.last().key@, entries.last().value)
    }
}

/// Whether no entry behind position `at` has the key of the entry at `at`.
spec fn last_of_its_key(entries: Seq<StatusEntry>, at: int) -> bool {
    forall|j: int| at < j < entries.len() ==> (#[trigger] entries[j]).key@ != entries[at].key@
}

proof fn lemma_table_keys(entries: Seq<StatusEntry>, key: Seq<char>)
    ensures
        table_of(entries).contains_key(key) <==> exists|i: int|
            0 <= i < entries.len() && (#[trigger] entries[i]).key@ == key,
    decreases entries.len(),
{
    if entries.len() > 0 {
        let front = entries.drop_last();
        lemma_table_keys(front, key);
        if table_of(entries).contains_key(key) {
            if entries.last().key@ == key {
                assert(entries[entries.len() - 1].key@ == key);
            } else {
                let i = choose|i: int| 0 <= i < front.len() && (#[trigger] front[i]).key@ == key;
                assert(entries[i].key@ == key);
            }
        }
        if exists|i: int| 0 <= i < entries.len() && (#[trigger] entries[i]).key@ == key {
            let i = choose|i: int| 0 <= i < entries.len() && (#[trigger] entries[i]).key@ == key;
            if i < front.len() {
                assert(front[i].key@ == key);
            }
        }
    }
}

proof fn lemma_table_value(entries: Seq<StatusEntry>, at: int)
    requires
        0 <= at < entries.len(),
        last_of_its_key(entries, at),
    ensures
        table_of(entries).contains_key(entries[at].key@),
        table_of(entries)[entries[at].key@] == entries[at].value,
    decreases entries.len(),
{
    let front = entries.drop_last();
    if at < entries.len() - 1 {
        assert(front[at] == entries[at]);
        assert(last_of_its_key(front, at)) by {
            assert forall|j: int| at < j < front.len() implies (#[trigger] front[j]).key@
                != front[at].key@ by {
                assert(front[j] == entries[j]);
            }
        }
        lemma_table_value(front, at);
        assert(entries[entries.len() - 1].key@ != entries[at].key@);
    }
}

proof fn lemma_table_after_update(entries: Seq<StatusEntry>, at: int, entry: StatusEntry)
    requires
        0 <= at < entries.len(),
        last_of_its_key(entries, at),
        entry.key@ == entries[at].key@,
    ensures
        table_of(entries.update(at, entry)) == table_of(entries).insert(entry.key@, entry.value),
    decreases entries.len(),
{
    let after = entries.update(at, entry);
    let front = entries.drop_last();
    if at == entries.len() - 1 {
        assert(after.drop_last() == front);
        assert(table_of(after) == table_of(entries).insert(entry.key@, entry.value));
    } else {
        assert(front[at] == entries[at]);
        assert(last_of_its_key(front, at)) by {
            assert forall|j: int| at < j < front.len() implies (#[trigger] front[j]).key@
                != front[at].key@ by {
                assert(front[j] == entries[j]);
            }
        }
        lemma_table_after_update(front, at, entry);
        assert(after.drop_last() == front.update(at, entry));
        assert(after.last() == entries.last());
        assert(entries[entries.len() - 1].key@ != entries[at].key@);
        assert(table_of(after) == table_of(entries).insert(entry.key@, entry.value));
    }
}

/// A status table: numbers under names. Setting a name that is there
/// replaces its number.
#[derive(Clone, Debug)]
pub struct StatusMap {
    entries: Vec<StatusEntry>,
}

impl View for StatusMap {
    type V = Map<Seq<char>, i64>;

    closed spec fn view(&self) -> Map<Seq<char>, i64> {
        table_of(self.entries@)
    }
}

impl StatusMap {
    /// The empty table.
    pub fn new() -> (table: Self)
        ensures
            table@ == Map::<Seq<char>, i64>::empty(),
    {
        StatusMap { entries: Vec::new() }
    }

    /// The position of the last entry of `key`.
    fn position(&self, key: &str) -> (at: Option<usize>)
        ensures
            match at {
                Some(i) => i < self.entries@.len() && self.entries@[i as int].key@ == key@
                    && last_of_its_key(self.entries@, i as int),
                None => !self@.contains_key(key@),
            },
    {
        let mut i: usize = self.entries.len();
        while i > 0
            invariant
                i <= self.entries.len(),
                forall|j: int|
                    i <= j < self.entries@.len() ==> (#[trigger] self.entries@[j]).key@ != key@,
            decreases i,
        {
            i -= 1;
            if str_equal(self.entries[i].key.as_str(), key) {
                return Some(i);
            }
        }
        proof {
            lemma_table_keys(self.entries@, key@);
        }
        None
    }

    /// Puts `value` under `key`.
    pub fn set(&mut self, key: &str, value: i64)
        ensures
            final(self)@ == old(self)@.insert(key@, value),
    {
        match self.position(key) {
            Some(i) => {
                proof {
                    lemma_table_after_update(
                        self.entries@,
                        i as int,
                        StatusEntry { key: self.entries@[i as int].key, value },
                    );
                }
                self.entries[i].value = value;
                assert(self.entries@ == old(self).entries@.update(
                    i as int,
                    StatusEntry { key: old(self).entries@[i as int].key, value },
                ));
            },
            None => {
                self.entries.push(StatusEntry { key: String::from_str(key), value });
                assert(self.entries@.drop_last() == old(self).entries@);
            },
        }
    }

    /// The number under `key`, if there is one.
    pub fn get(&self, key: &str) -> (value: Option<i64>)
        ensures
            value == (if self@.contains_key(key@) {
                Some(self@[key@])
            } else {
                None
            }),
    {
        match self.position(key) {
            Some(i) => {
                proof {
                    lemma_table_value(self.entries@, i as int);
                }
                Some(self.entries[i].value)
            },
            None => None,
        }
    }

    /// The number under `key`, or 0 where there is none.
    pub fn get_or_zero(&self, key: &str) -> (value: i64)
        ensures
            value == (if self@.contains_key(key@) {
                self@[key@]
            } else {
                0
            }),
    {
        match self.get(key) {
            Some(value) => value,
            None => 0,
        }
    }
}

} // verus!
