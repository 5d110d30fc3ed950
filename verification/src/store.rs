//! An entity store held in memory.
//!
//! The store maps a kind and an identifier to a value and the time of its
//! last write. It answers the same statements a durable engine would be
//! sent, one at a time and each atomically, and builds the service's
//! operations from them with the decisions of [`crate::engine`].

use crate::clock::system_now;
use crate::engine::{
    aggregated, created, fetched, inserted, next_step, spec_created, spec_fetched, NextStep,
    Record, Reply, Written, FIRST_VALUE,
};
use crate::entity::{Delta, Entity, Kind, Timestamp};
use crate::error::{viewed, Error};
use crate::ident::{generate, is_token, valid_identifier, GENERATED_LENGTH};
use crate::text::same_text;
use vstd::prelude::*;
use vstd::set_lib::*;
use vstd::string::*;

verus! {

/// What names a stored record: the kind gives the namespace, the text the
/// name within it.
pub type Key = (Kind, Seq<char>);

/// The mathematical content of a store.
pub type Table = Map<Key, Record>;

/// Whether `key` names a record of `table`.
pub open spec fn holds(table: Table, key: Key) -> bool {
    table.dom().contains(key)
}

/// The answer of the update statement: the stepped value of the record
/// under `key`, no row when there is none, and a failure when the stepped
/// value would leave the 64-bit range.
pub open spec fn update_reply(table: Table, key: Key, delta: Delta) -> Reply<i64> {
    if !holds(table, key) {
        Reply::NoRow
    } else if i64::MIN <= table[key].value + delta.spec_amount() <= i64::MAX {
        Reply::Row((table[key].value + delta.spec_amount()) as i64)
    } else {
        Reply::Failed
    }
}

/// The table after the update statement: value and time of the record
/// change together, and only when the statement returned a row.
pub open spec fn updated(table: Table, key: Key, delta: Delta, now: Timestamp) -> Table {
    match update_reply(table, key, delta) {
        Reply::Row(value) => table.insert(key, Record { value, updated_at: now }),
        _ => table,
    }
}

/// The answer of the insert statement: it is refused when the key is taken.
pub open spec fn insert_reply(table: Table, key: Key) -> Written {
    if holds(table, key) {
        Written::Failed
    } else {
        Written::Done
    }
}

/// The table after the insert statement.
pub open spec fn inserted_into(table: Table, key: Key, value: i64, now: Timestamp) -> Table {
    if holds(table, key) {
        table
    } else {
        table.insert(key, Record { value, updated_at: now })
    }
}

/// The answer of the select statement.
pub open spec fn select_reply(table: Table, key: Key) -> Reply<Record> {
    if holds(table, key) {
        Reply::Row(table[key])
    } else {
        Reply::NoRow
    }
}

/// What stepping the entity under `key` returns: the stepped value of an
/// existing entity, [`FIRST_VALUE`] for one that did not exist, and a store
/// error when the stepped value would leave the 64-bit range.
pub open spec fn step_result(table: Table, key: Key, delta: Delta) -> Result<i64, Error> {
    match update_reply(table, key, delta) {
        Reply::Row(value) => Ok(value),
        Reply::NoRow => Ok(FIRST_VALUE),
        Reply::Failed => Err(Error::StoreError),
    }
}

/// The table after stepping the entity under `key`.
pub open spec fn step_table(table: Table, key: Key, delta: Delta, now: Timestamp) -> Table {
    match step_result(table, key, delta) {
        Ok(value) => table.insert(key, Record { value, updated_at: now }),
        Err(_) => table,
    }
}

/// The keys of a table that belong to one kind.
pub open spec fn keys_of(table: Table, kind: Kind) -> Set<Key> {
    table.dom().filter(|key: Key| key.0 == kind)
}

/// The number of records of one kind.
pub open spec fn count_of(table: Table, kind: Kind) -> nat {
    keys_of(table, kind).len()
}

/// Whether `value` is the greatest value any record of `table` holds.
pub open spec fn is_highest(table: Table, value: i64) -> bool {
    &&& exists|key: Key| holds(table, key) && (#[trigger] table[key]).value == value
    &&& forall|key: Key| holds(table, key) ==> (#[trigger] table[key]).value <= value
}

/// The greatest value of a table as the outcome of a query: a store error
/// for a table without records.
pub open spec fn highest_of(table: Table) -> Result<i64, Error> {
    if exists|value: i64| is_highest(table, value) {
        Ok(choose|value: i64| is_highest(table, value))
    } else {
        Err(Error::StoreError)
    }
}

struct Row {
    kind: Kind,
    id: String,
    value: i64,
    updated_at: Timestamp,
}

impl Row {
    spec fn key(self) -> Key {
        (self.kind, self.id@)
    }

    spec fn record(self) -> Record {
        Record { value: self.value, updated_at: self.updated_at }
    }
}

/// No two rows share a key.
spec fn distinct(rows: Seq<Row>) -> bool {
    forall|i: int, j: int|
        0 <= i < j < rows.len() ==> (#[trigger] rows[i]).key() != (#[trigger] rows[j]).key()
}

/// Whether some row is stored under `key`.
spec fn listed(rows: Seq<Row>, key: Key) -> bool {
    exists|i: int| 0 <= i < rows.len() && (#[trigger] rows[i]).key() == key
}

/// The table a list of rows stands for.
spec fn table_of(rows: Seq<Row>) -> Table
    decreases rows.len(),
{
    if rows.len() == 0 {
        Map::empty()
    } else {
        table_of(rows.drop_last()).insert(rows.last().key(), rows.last().record())
    }
}

proof fn lemma_table_domain(rows: Seq<Row>)
    ensures
        table_of(rows).dom().finite(),
        forall|key: Key| holds(table_of(rows), key) <==> listed(rows, key),
    decreases rows.len(),
{
    if rows.len() > 0 {
        let front = rows.drop_last();
        lemma_table_domain(front);
        assert forall|key: Key| holds(table_of(rows), key) <==> listed(rows, key) by {
            if listed(rows, key) {
                let i = choose|i: int| 0 <= i < rows.len() && (#[trigger] rows[i]).key() == key;
                if i < front.len() {
                    assert(front[i].key() == key);
                }
            }
            if listed(front, key) {
                let i = choose|i: int| 0 <= i < front.len() && (#[trigger] front[i]).key() == key;
                assert(rows[i].key() == key);
            }
            if key == rows.last().key() {
                assert(rows[rows.len() - 1].key() == key);
            }
        }
    }
}

proof fn lemma_table_entry(rows: Seq<Row>, i: int)
    requires
        distinct(rows),
        0 <= i < rows.len(),
    ensures
        holds(table_of(rows), rows[i].key()),
        table_of(rows)[rows[i].key()] == rows[i].record(),
    decreases rows.len(),
{
    let front = rows.drop_last();
    if i < rows.len() - 1 {
        assert(distinct(front)) by {
            assert forall|a: int, b: int| 0 <= a < b < front.len() implies (#[trigger] front[a]).key()
                != (#[trigger] front[b]).key() by {
                assert(rows[a].key() != rows[b].key());
            }
        }
        lemma_table_entry(front, i);
        assert(front[i] == rows[i]);
        assert(rows[i].key() != rows[rows.len() - 1].key());
    }
}

proof fn lemma_table_size(rows: Seq<Row>)
    requires
        distinct(rows),
    ensures
        table_of(rows).dom().finite(),
        table_of(rows).dom().len() == rows.len(),
    decreases rows.len(),
{
    lemma_table_domain(rows);
    if rows.len() > 0 {
        let front = rows.drop_last();
        assert(distinct(front)) by {
            assert forall|a: int, b: int| 0 <= a < b < front.len() implies (#[trigger] front[a]).key()
                != (#[trigger] front[b]).key() by {
                assert(rows[a].key() != rows[b].key());
            }
        }
        lemma_table_size(front);
        lemma_table_domain(front);
        let last = rows.last().key();
        if listed(front, last) {
            let i = choose|i: int| 0 <= i < front.len() && (#[trigger] front[i]).key() == last;
            assert(rows[i].key() != rows[rows.len() - 1].key());
        }
        assert(!table_of(front).dom().contains(last));
    }
}

proof fn lemma_table_push(rows: Seq<Row>, row: Row)
    requires
        distinct(rows),
        !holds(table_of(rows), row.key()),
    ensures
        distinct(rows.push(row)),
        table_of(rows.push(row)) == table_of(rows).insert(row.key(), row.record()),
{
    let longer = rows.push(row);
    assert(longer.drop_last() =~= rows);
    lemma_table_domain(rows);
    assert forall|a: int, b: int| 0 <= a < b < longer.len() implies (#[trigger] longer[a]).key()
        != (#[trigger] longer[b]).key() by {
        if b < rows.len() {
            assert(rows[a].key() != rows[b].key());
        } else {
            assert(rows[a].key() == longer[a].key());
            assert(listed(rows, longer[a].key()));
        }
    }
}

proof fn lemma_table_update(rows: Seq<Row>, i: int, row: Row)
    requires
        distinct(rows),
        0 <= i < rows.len(),
        row.key() == rows[i].key(),
    ensures
        distinct(rows.update(i, row)),
        table_of(rows.update(i, row)) == table_of(rows).insert(row.key(), row.record()),
{
    let changed = rows.update(i, row);
    assert forall|a: int, b: int| 0 <= a < b < changed.len() implies (#[trigger] changed[a]).key()
        != (#[trigger] changed[b]).key() by {
        assert(rows[a].key() != rows[b].key());
    }
    lemma_table_domain(rows);
    lemma_table_domain(changed);
    let left = table_of(changed);
    let right = table_of(rows).insert(row.key(), row.record());
    assert forall|key: Key| left.dom().contains(key) <==> right.dom().contains(key) by {
        assert(holds(left, key) <==> listed(changed, key));
        assert(holds(table_of(rows), key) <==> listed(rows, key));
        if listed(rows, key) {
            let j = choose|j: int| 0 <= j < rows.len() && (#[trigger] rows[j]).key() == key;
            assert(changed[j].key() == key);
        }
        if listed(changed, key) {
            let j = choose|j: int| 0 <= j < changed.len() && (#[trigger] changed[j]).key() == key;
            assert(rows[j].key() == key);
        }
        assert(changed[i].key() == row.key());
    }
    assert forall|key: Key| left.dom().contains(key) implies #[trigger] left[key] == right[key] by {
        assert(holds(left, key) <==> listed(changed, key));
        let j = choose|j: int| 0 <= j < changed.len() && (#[trigger] changed[j]).key() == key;
        lemma_table_entry(changed, j);
        if j != i {
            lemma_table_entry(rows, j);
        }
    }
    assert(left =~= right);
}

/// Every record is of one of the two kinds, so the records of a table are
/// its counters and its gauges together.
pub proof fn lemma_count_by_kind(table: Table)
    requires
        table.dom().finite(),
    ensures
        table.dom().len() == count_of(table, Kind::Counter) + count_of(table, Kind::Gauge),
{
    let counters = keys_of(table, Kind::Counter);
    let gauges = keys_of(table, Kind::Gauge);
    let whole = table.dom();
    assert(counters.finite() && gauges.finite()) by {
        assert(counters.subset_of(whole));
        assert(gauges.subset_of(whole));
        lemma_len_subset(counters, whole);
        lemma_len_subset(gauges, whole);
    }
    assert(counters.disjoint(gauges));
    assert(counters + gauges =~= whole) by {
        assert forall|key: Key| whole.contains(key) implies (counters + gauges).contains(key) by {
            if key.0 == Kind::Counter {
                assert(counters.contains(key));
            } else {
                assert(key.0 == Kind::Gauge);
                assert(gauges.contains(key));
            }
        }
    }
    lemma_set_disjoint_lens(counters, gauges);
}

/// The in-memory store.
pub struct Store {
    rows: Vec<Row>,
}

impl View for Store {
    type V = Table;

    closed spec fn view(&self) -> Table {
        table_of(self.rows@)
    }
}

impl Store {
    #[verifier::type_invariant]
    spec fn well_formed(self) -> bool {
        distinct(self.rows@)
    }

    /// A store without records.
    pub fn new() -> (store: Store)
        ensures
            store@ == Map::<Key, Record>::empty(),
    {
        Store { rows: Vec::new() }
    }

    /// The position of the row stored under the key, if there is one.
    fn position(&self, kind: Kind, id: &str) -> (found: Option<usize>)
        ensures
            match found {
                Some(i) => i < self.rows.len() && self.rows[i as int].key() == (kind, id@),
                None => !listed(self.rows@, (kind, id@)),
            },
    {
        let mut i: usize = 0;
        while i < self.rows.len()
            invariant
                i <= self.rows.len(),
                forall|j: int| 0 <= j < i ==> (#[trigger] self.rows[j]).key() != (kind, id@),
            decreases self.rows.len() - i,
        {
            let row = &self.rows[i];
            if row.kind == kind && same_text(row.id.as_str(), id) {
                return Some(i);
            }
            i += 1;
        }
        None
    }

    /// The update statement: steps the value stored under the key and
    /// returns the stepped value, all in one atomic statement.
    pub fn update_returning(&mut self, kind: Kind, id: &str, delta: Delta, now: Timestamp) -> (reply:
        Reply<i64>)
        ensures
            reply == update_reply(old(self)@, (kind, id@), delta),
            final(self)@ == updated(old(self)@, (kind, id@), delta, now),
    {
        proof {
            use_type_invariant(&*self);
            lemma_table_domain(self.rows@);
        }
        match self.position(kind, id) {
            None => Reply::NoRow,
            Some(i) => {
                proof {
                    lemma_table_entry(self.rows@, i as int);
                }
                match self.rows[i].value.checked_add(delta.amount()) {
                    None => Reply::Failed,
                    Some(value) => {
                        let row = Row { kind, id: id.to_owned(), value, updated_at: now };
                        proof {
                            lemma_table_update(self.rows@, i as int, row);
                        }
                        let mut rows: Vec<Row> = Vec::new();
                        std::mem::swap(&mut self.rows, &mut rows);
                        rows.set(i, row);
                        self.rows = rows;
                        Reply::Row(value)
                    },
                }
            },
        }
    }

    /// The insert statement: writes a new record, and is refused when the
    /// key is taken.
    pub fn insert(&mut self, kind: Kind, id: &str, value: i64, now: Timestamp) -> (written: Written)
        ensures
            written == insert_reply(old(self)@, (kind, id@)),
            final(self)@ == inserted_into(old(self)@, (kind, id@), value, now),
    {
        proof {
            use_type_invariant(&*self);
            lemma_table_domain(self.rows@);
        }
        match self.position(kind, id) {
            Some(i) => {
                assert(listed(self.rows@, (kind, id@)));
                Written::Failed
            },
            None => {
                let row = Row { kind, id: id.to_owned(), value, updated_at: now };
                proof {
                    lemma_table_push(self.rows@, row);
                }
                let mut rows: Vec<Row> = Vec::new();
                std::mem::swap(&mut self.rows, &mut rows);
                rows.push(row);
                self.rows = rows;
                Written::Done
            },
        }
    }

    /// The select statement: reads the record stored under the key.
    pub fn select(&self, kind: Kind, id: &str) -> (reply: Reply<Record>)
        ensures
            reply == select_reply(self@, (kind, id@)),
    {
        proof {
            use_type_invariant(self);
            lemma_table_domain(self.rows@);
        }
        match self.position(kind, id) {
            None => Reply::NoRow,
            Some(i) => {
                proof {
                    lemma_table_entry(self.rows@, i as int);
                }
                let row = &self.rows[i];
                Reply::Row(Record { value: row.value, updated_at: row.updated_at })
            },
        }
    }

    /// The count statement: the number of records.
    pub fn count(&self) -> (reply: Reply<u64>)
        ensures
            self@.dom().finite(),
            reply == Reply::Row(self@.dom().len() as u64),
            self@.dom().len() <= u64::MAX,
    {
        proof {
            use_type_invariant(self);
            lemma_table_size(self.rows@);
        }
        Reply::Row(self.rows.len() as u64)
    }

    /// The maximum statement: the greatest stored value, and no row when
    /// nothing is stored.
    pub fn max(&self) -> (reply: Reply<i64>)
        ensures
            match reply {
                Reply::Row(value) => is_highest(self@, value),
                Reply::NoRow => self@ == Map::<Key, Record>::empty(),
                Reply::Failed => false,
            },
    {
        proof {
            use_type_invariant(self);
            lemma_table_domain(self.rows@);
        }
        if self.rows.len() == 0 {
            assert(self@ =~= Map::<Key, Record>::empty()) by {
                assert forall|key: Key| !self@.dom().contains(key) by {
                    assert(holds(self@, key) <==> listed(self.rows@, key));
                }
            }
            return Reply::NoRow;
        }
        let mut best: i64 = self.rows[0].value;
        let mut i: usize = 1;
        while i < self.rows.len()
            invariant
                1 <= i <= self.rows.len(),
                exists|j: int| 0 <= j < i && (#[trigger] self.rows[j]).value == best,
                forall|j: int| 0 <= j < i ==> (#[trigger] self.rows[j]).value <= best,
            decreases self.rows.len() - i,
        {
            if self.rows[i].value > best {
                best = self.rows[i].value;
            }
            i += 1;
        }
        proof {
            let j = choose|j: int| 0 <= j < self.rows.len() && (#[trigger] self.rows[j]).value == best;
            lemma_table_entry(self.rows@, j);
            assert(holds(self@, self.rows[j].key()) && self@[self.rows[j].key()].value == best);
            assert forall|key: Key| holds(self@, key) implies (#[trigger] self@[key]).value
                <= best by {
                assert(listed(self.rows@, key));
                let k = choose|k: int| 0 <= k < self.rows.len() && (#[trigger] self.rows[k]).key() == key;
                lemma_table_entry(self.rows@, k);
            }
        }
        Reply::Row(best)
    }

    /// Creates an entity under a caller-chosen identifier, stamped `now`.
    /// The identifier is taken to be fresh; when it is not, nothing is
    /// written and the refusal is reported as a store error.
    pub fn create_at(&mut self, kind: Kind, id: &str, value: i64, now: Timestamp) -> (result: Result<
        Entity,
        Error,
    >)
        ensures
            viewed(result) == spec_created(
                kind,
                id@,
                value,
                now,
                insert_reply(old(self)@, (kind, id@)),
            ),
            final(self)@ == inserted_into(old(self)@, (kind, id@), value, now),
    {
        let written = self.insert(kind, id, value, now);
        created(kind, id, value, now, written)
    }

    /// Creates an entity under a caller-chosen identifier, stamped with the
    /// current time.
    pub fn create(&mut self, kind: Kind, id: &str, value: i64) -> (result: Result<Entity, Error>)
        ensures
            (exists|now: Timestamp|
                viewed(result) == #[trigger] spec_created(
                    kind,
                    id@,
                    value,
                    now,
                    insert_reply(old(self)@, (kind, id@)),
                )
                    && final(self)@ == inserted_into(old(self)@, (kind, id@), value, now)),
    {
        let now = system_now();
        self.create_at(kind, id, value, now)
    }

    /// Creates an entity with value zero under a freshly generated
    /// identifier. The identifier is not looked up first: in the unlikely
    /// case that it is taken, the outcome is a store error.
    pub fn create_fresh(&mut self, kind: Kind) -> (result: Result<Entity, Error>)
        ensures
            (exists|id: Seq<char>, now: Timestamp|
                is_token(id, GENERATED_LENGTH as nat)
                    && valid_identifier(id)
                    && viewed(result) == #[trigger] spec_created(
                        kind,
                        id,
                        0,
                        now,
                        insert_reply(old(self)@, (kind, id)),
                    )
                    && final(self)@ == inserted_into(old(self)@, (kind, id), 0, now)),
    {
        let id = generate();
        let now = system_now();
        self.create_at(kind, id.as_str(), 0, now)
    }

    /// Looks an entity up. The outcome is `NotFound` exactly when nothing
    /// is stored under the identifier within the kind's namespace.
    pub fn fetch(&self, kind: Kind, id: &str) -> (result: Result<Entity, Error>)
        ensures
            viewed(result) == spec_fetched(kind, id@, select_reply(self@, (kind, id@))),
    {
        fetched(kind, id, self.select(kind, id))
    }

    /// Steps the entity under the identifier, creating it when it does not
    /// exist, and returns the value it holds afterwards. Every write is
    /// stamped `now`.
    ///
    /// The update statement is tried first and settles the step when it
    /// finds the entity. Only when it finds none is a row inserted; the
    /// update is not tried again after that.
    pub fn apply_delta_or_create_at(
        &mut self,
        kind: Kind,
        id: &str,
        delta: Delta,
        now: Timestamp,
    ) -> (result: Result<i64, Error>)
        ensures
            result == step_result(old(self)@, (kind, id@), delta),
            final(self)@ == step_table(old(self)@, (kind, id@), delta, now),
    {
        let reply = self.update_returning(kind, id, delta, now);
        match next_step(reply) {
            NextStep::Finish(result) => result,
            NextStep::Insert(value) => {
                let written = self.insert(kind, id, value, now);
                inserted(value, written)
            },
        }
    }

    /// Steps the entity under the identifier, creating it when it does not
    /// exist, and returns the value it holds afterwards. Every write is
    /// stamped with the current time.
    pub fn apply_delta_or_create(&mut self, kind: Kind, id: &str, delta: Delta) -> (result: Result<
        i64,
        Error,
    >)
        ensures
            result == step_result(old(self)@, (kind, id@), delta),
            exists|now: Timestamp|
                final(self)@ == #[trigger] step_table(old(self)@, (kind, id@), delta, now),
    {
        let now = system_now();
        self.apply_delta_or_create_at(kind, id, delta, now)
    }

    /// The number of stored entities: counters and gauges together. This
    /// counts records; it does not add up their values.
    pub fn total_count(&self) -> (result: Result<u64, Error>)
        ensures
            self@.dom().finite(),
            result == Ok::<u64, Error>(self@.dom().len() as u64),
            self@.dom().len() == count_of(self@, Kind::Counter) + count_of(self@, Kind::Gauge),
            self@.dom().len() <= u64::MAX,
    {
        let reply = self.count();
        proof {
            lemma_count_by_kind(self@);
        }
        aggregated(reply)
    }

    /// The greatest value any stored entity holds. An empty store has no
    /// such value: the outcome is then a store error, never zero.
    pub fn highest_value(&self) -> (result: Result<i64, Error>)
        ensures
            result == highest_of(self@),
            match result {
                Ok(value) => is_highest(self@, value),
                Err(error) => error == Error::StoreError && self@ == Map::<Key, Record>::empty(),
            },
    {
        let reply = self.max();
        proof {
            match reply {
                Reply::Row(value) => {
                    let other = choose|value: i64| is_highest(self@, value);
                    let k = choose|key: Key| holds(self@, key) && (#[trigger] self@[key]).value == value;
                    let l = choose|key: Key| holds(self@, key) && (#[trigger] self@[key]).value == other;
                    assert(self@[k].value <= other);
                    assert(self@[l].value <= value);
                },
                _ => {},
            }
        }
        aggregated(reply)
    }
}

} // verus!
