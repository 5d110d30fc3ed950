//! What holds of every store, whatever was done to it.
//!
//! The statements here are about tables, the mathematical content of a
//! store, and about schedules: the writes a store receives, in the order in
//! which it carries them out. Since every write is atomic, any concurrent
//! execution is some schedule, and what holds of all schedules holds of all
//! interleavings.

use crate::engine::{
    spec_inserted, spec_next_step, NextStep, Record, Reply, Written, FIRST_VALUE,
};
use crate::entity::{Delta, Kind, Timestamp};
use crate::error::Error;
use crate::store::{
    count_of, holds, insert_reply, inserted_into, is_highest, lemma_count_by_kind, select_reply,
    step_result, step_table, update_reply, updated, Key, Table,
};
use vstd::prelude::*;

verus! {

/// A write a store can be asked for.
pub enum Op {
    /// Create an entity with the given value.
    Create { key: Key, value: i64 },
    /// Step an entity, creating it when it does not exist.
    Step { key: Key, delta: Delta },
}

/// A write together with the time at which the store carries it out.
pub struct Event {
    pub op: Op,
    pub at: Timestamp,
}

/// The key a write is directed at.
pub open spec fn target(op: Op) -> Key {
    match op {
        Op::Create { key, .. } => key,
        Op::Step { key, .. } => key,
    }
}

/// The table after one write.
pub open spec fn apply(table: Table, event: Event) -> Table {
    match event.op {
        Op::Create { key, value } => inserted_into(table, key, value, event.at),
        Op::Step { key, delta } => step_table(table, key, delta, event.at),
    }
}

/// The table after a schedule of writes, carried out first to last.
pub open spec fn run(table: Table, schedule: Seq<Event>) -> Table
    decreases schedule.len(),
{
    if schedule.len() == 0 {
        table
    } else {
        apply(run(table, schedule.drop_last()), schedule.last())
    }
}

/// How many writes of a schedule are increments of the entity under `key`.
pub open spec fn increments_of(schedule: Seq<Event>, key: Key) -> nat
    decreases schedule.len(),
{
    if schedule.len() == 0 {
        0
    } else if schedule.last().op == (Op::Step { key, delta: Delta::Increment }) {
        increments_of(schedule.drop_last(), key) + 1
    } else {
        increments_of(schedule.drop_last(), key)
    }
}

/// The value from which steps of an entity count: the stored value, or
/// zero when nothing is stored.
pub open spec fn base_value(table: Table, key: Key) -> int {
    if holds(table, key) {
        table[key].value as int
    } else {
        0
    }
}

/// What the two statements of a step return when nothing comes between
/// them: the update statement is sent, and the insert statement only when
/// the update found no row.
pub open spec fn two_statement_result(table: Table, key: Key, delta: Delta, now: Timestamp) -> Result<
    i64,
    Error,
> {
    match spec_next_step(update_reply(table, key, delta)) {
        NextStep::Finish(result) => result,
        NextStep::Insert(value) => spec_inserted(
            value,
            insert_reply(updated(table, key, delta, now), key),
        ),
    }
}

/// The table the two statements of a step leave behind.
pub open spec fn two_statement_table(table: Table, key: Key, delta: Delta, now: Timestamp) -> Table {
    match spec_next_step(update_reply(table, key, delta)) {
        NextStep::Finish(_) => updated(table, key, delta, now),
        NextStep::Insert(value) => inserted_into(updated(table, key, delta, now), key, value, now),
    }
}

/// Sent one after the other, the two statements step the entity: they
/// return what a step returns and leave the table a step leaves.
pub proof fn lemma_two_statements_step(table: Table, key: Key, delta: Delta, now: Timestamp)
    ensures
        two_statement_result(table, key, delta, now) == step_result(table, key, delta),
        two_statement_table(table, key, delta, now) == step_table(table, key, delta, now),
{
}

/// When two callers step the same missing entity and both send their
/// update before either inserts, the first insert creates the entity and
/// the second is refused: the second caller gets a store error, nothing is
/// stepped on its behalf, and the entity holds [`FIRST_VALUE`].
pub proof fn lemma_race_on_first_step(
    table: Table,
    key: Key,
    first: Delta,
    second: Delta,
    now: Timestamp,
    later: Timestamp,
)
    requires
        !holds(table, key),
    ensures
        spec_next_step(update_reply(table, key, first)) == NextStep::Insert(FIRST_VALUE),
        spec_next_step(update_reply(table, key, second)) == NextStep::Insert(FIRST_VALUE),
        spec_inserted(FIRST_VALUE, insert_reply(table, key)) == Ok::<i64, Error>(FIRST_VALUE),
        spec_inserted(
            FIRST_VALUE,
            insert_reply(inserted_into(table, key, FIRST_VALUE, now), key),
        ) == Err::<i64, Error>(Error::StoreError),
        inserted_into(inserted_into(table, key, FIRST_VALUE, now), key, FIRST_VALUE, later)
            == table.insert(key, (Record { value: FIRST_VALUE, updated_at: now })),
{
}

/// The first step of an entity that does not exist yet returns one and
/// stores one, whether the step goes up or down.
pub proof fn lemma_first_step_yields_one(table: Table, key: Key, delta: Delta, now: Timestamp)
    requires
        !holds(table, key),
    ensures
        step_result(table, key, delta) == Ok::<i64, Error>(1),
        step_table(table, key, delta, now) == table.insert(
            key,
            (Record { value: 1, updated_at: now }),
        ),
{
}

/// A step of an existing entity returns and stores the stepped value, and
/// touches no other entity.
pub proof fn lemma_step_of_existing(table: Table, key: Key, delta: Delta, now: Timestamp)
    requires
        holds(table, key),
        i64::MIN <= table[key].value + delta.spec_amount() <= i64::MAX,
    ensures
        step_result(table, key, delta) == Ok::<i64, Error>(
            (table[key].value + delta.spec_amount()) as i64,
        ),
        step_table(table, key, delta, now)[key].value == table[key].value + delta.spec_amount(),
        step_table(table, key, delta, now)[key].updated_at == now,
        forall|other: Key|
            other != key ==> (holds(step_table(table, key, delta, now), other) <==> holds(
                table,
                other,
            )),
        forall|other: Key|
            other != key && holds(table, other) ==> step_table(table, key, delta, now)[other]
                == table[other],
{
}

/// The value and the time of an entity change together or not at all, and
/// no write removes an entity.
pub proof fn lemma_write_keeps_entities(table: Table, event: Event, key: Key)
    requires
        holds(table, key),
    ensures
        holds(apply(table, event), key),
        apply(table, event)[key] == table[key] || (apply(table, event)[key].updated_at == event.at
            && target(event.op) == key),
{
}

/// Successive increments of one entity return successive values: the
/// `n`-th returns the value the entity started from plus `n`. Started from
/// zero, or from nothing, they return 1, 2, 3 and so on.
pub proof fn lemma_increments_count_up(table: Table, key: Key, stamps: Seq<Timestamp>, n: int)
    requires
        0 <= n < stamps.len(),
        base_value(table, key) + stamps.len() <= i64::MAX,
    ensures
        step_result(
            run(table, increments(key, stamps.take(n))),
            key,
            Delta::Increment,
        ) == Ok::<i64, Error>((base_value(table, key) + n + 1) as i64),
{
    lemma_increments_reach(table, key, stamps.take(n));
}

/// The schedule that increments one entity once for each given time.
pub open spec fn increments(key: Key, stamps: Seq<Timestamp>) -> Seq<Event> {
    Seq::new(
        stamps.len(),
        |i: int| Event { op: Op::Step { key, delta: Delta::Increment }, at: stamps[i] },
    )
}

/// After `k` increments an entity holds the value it started from plus `k`.
pub proof fn lemma_increments_reach(table: Table, key: Key, stamps: Seq<Timestamp>)
    requires
        base_value(table, key) + stamps.len() <= i64::MAX,
    ensures
        base_value(run(table, increments(key, stamps)), key) == base_value(table, key)
            + stamps.len(),
        stamps.len() > 0 ==> holds(run(table, increments(key, stamps)), key),
    decreases stamps.len(),
{
    let schedule = increments(key, stamps);
    if stamps.len() > 0 {
        let earlier = stamps.drop_last();
        lemma_increments_reach(table, key, earlier);
        assert(schedule.drop_last() =~= increments(key, earlier));
        assert(schedule.last() == Event {
            op: Op::Step { key, delta: Delta::Increment },
            at: stamps.last(),
        });
    }
}

/// No update is lost: when a schedule holds `k` increments of an existing
/// entity and no other step of it, the entity ends `k` above where it
/// started, wherever in the schedule the increments stand and whatever the
/// other writes do.
pub proof fn lemma_no_lost_update(table: Table, key: Key, schedule: Seq<Event>)
    requires
        holds(table, key),
        forall|i: int|
            0 <= i < schedule.len() ==> (#[trigger] schedule[i]).op != (Op::Step {
                key,
                delta: Delta::Decrement,
            }),
        table[key].value + increments_of(schedule, key) <= i64::MAX,
    ensures
        holds(run(table, schedule), key),
        run(table, schedule)[key].value == table[key].value + increments_of(schedule, key),
    decreases schedule.len(),
{
    if schedule.len() > 0 {
        let earlier = schedule.drop_last();
        assert forall|i: int| 0 <= i < earlier.len() implies (#[trigger] earlier[i]).op != (Op::Step {
            key,
            delta: Delta::Decrement,
        }) by {
            assert(earlier[i] == schedule[i]);
        }
        lemma_no_lost_update(table, key, earlier);
        let last = schedule.last();
        assert(last == schedule[schedule.len() - 1]);
        match last.op {
            Op::Create { key: k, value } => {},
            Op::Step { key: k, delta } => {
                if k == key {
                    assert(delta == Delta::Increment);
                }
            },
        }
    }
}

/// In such a schedule every increment observes its own value: the one at
/// position `p` returns the starting value plus the number of increments up
/// to and including itself.
pub proof fn lemma_increment_observes(table: Table, key: Key, schedule: Seq<Event>, p: int)
    requires
        holds(table, key),
        0 <= p < schedule.len(),
        schedule[p].op == (Op::Step { key, delta: Delta::Increment }),
        forall|i: int|
            0 <= i < schedule.len() ==> (#[trigger] schedule[i]).op != (Op::Step {
                key,
                delta: Delta::Decrement,
            }),
        table[key].value + increments_of(schedule, key) <= i64::MAX,
    ensures
        step_result(run(table, schedule.take(p)), key, Delta::Increment) == Ok::<i64, Error>(
            (table[key].value + increments_of(schedule.take(p + 1), key)) as i64,
        ),
{
    let before = schedule.take(p);
    let upto = schedule.take(p + 1);
    assert(upto.drop_last() =~= before);
    assert(upto.last() == schedule[p]);
    lemma_increments_monotone(schedule, key, p + 1);
    assert forall|i: int| 0 <= i < before.len() implies (#[trigger] before[i]).op != (Op::Step {
        key,
        delta: Delta::Decrement,
    }) by {
        assert(before[i] == schedule[i]);
    }
    lemma_no_lost_update(table, key, before);
}

/// A prefix of a schedule holds no more increments than the whole.
pub proof fn lemma_increments_monotone(schedule: Seq<Event>, key: Key, n: int)
    requires
        0 <= n <= schedule.len(),
    ensures
        increments_of(schedule.take(n), key) <= increments_of(schedule, key),
    decreases schedule.len() - n,
{
    if n == schedule.len() {
        assert(schedule.take(n) =~= schedule);
    } else {
        lemma_increments_monotone(schedule, key, n + 1);
        assert(schedule.take(n + 1).drop_last() =~= schedule.take(n));
    }
}

/// An entity that no write of a schedule is directed at is as absent, or
/// as present and unchanged, after the schedule as before it. In
/// particular, looking up an identifier that was never created finds no
/// row.
pub proof fn lemma_untouched(table: Table, key: Key, schedule: Seq<Event>)
    requires
        forall|i: int| 0 <= i < schedule.len() ==> target((#[trigger] schedule[i]).op) != key,
    ensures
        holds(run(table, schedule), key) <==> holds(table, key),
        holds(table, key) ==> run(table, schedule)[key] == table[key],
        !holds(table, key) ==> select_reply(run(table, schedule), key) == Reply::<Record>::NoRow,
    decreases schedule.len(),
{
    if schedule.len() > 0 {
        let earlier = schedule.drop_last();
        assert forall|i: int| 0 <= i < earlier.len() implies target((#[trigger] earlier[i]).op)
            != key by {
            assert(earlier[i] == schedule[i]);
        }
        lemma_untouched(table, key, earlier);
        assert(target(schedule[schedule.len() - 1].op) != key);
    }
}

/// After any schedule of writes the records of a table are its counters
/// and its gauges together, and a write adds at most one record: exactly
/// one when it creates an entity, none when it steps an existing one,
/// however large the value.
pub proof fn lemma_count_after_schedule(table: Table, schedule: Seq<Event>)
    requires
        table.dom().finite(),
    ensures
        run(table, schedule).dom().finite(),
        run(table, schedule).dom().len() == count_of(run(table, schedule), Kind::Counter)
            + count_of(run(table, schedule), Kind::Gauge),
    decreases schedule.len(),
{
    lemma_run_finite(table, schedule);
    lemma_count_by_kind(run(table, schedule));
}

/// Writes keep a finite table finite.
pub proof fn lemma_run_finite(table: Table, schedule: Seq<Event>)
    requires
        table.dom().finite(),
    ensures
        run(table, schedule).dom().finite(),
    decreases schedule.len(),
{
    if schedule.len() > 0 {
        lemma_run_finite(table, schedule.drop_last());
    }
}

/// How one write changes the number of records.
pub proof fn lemma_count_after_write(table: Table, event: Event)
    requires
        table.dom().finite(),
    ensures
        apply(table, event).dom().finite(),
        holds(table, target(event.op)) ==> apply(table, event).dom().len() == table.dom().len(),
        !holds(table, target(event.op)) ==> apply(table, event).dom().len() == table.dom().len()
            + 1,
{
    let key = target(event.op);
    if holds(table, key) {
        assert(apply(table, event).dom() =~= table.dom());
    } else {
        assert(apply(table, event).dom() =~= table.dom().insert(key));
    }
}

/// A table has at most one highest value, and a table without records
/// has none.
pub proof fn lemma_highest_is_unique(table: Table, a: i64, b: i64)
    requires
        is_highest(table, a),
        is_highest(table, b),
    ensures
        a == b,
        table.dom().len() > 0 || !table.dom().finite(),
{
    let ka = choose|key: Key| holds(table, key) && (#[trigger] table[key]).value == a;
    let kb = choose|key: Key| holds(table, key) && (#[trigger] table[key]).value == b;
    assert(table[ka].value <= b);
    assert(table[kb].value <= a);
    if table.dom().finite() && table.dom().len() == 0 {
        assert(table.dom().contains(ka));
        assert(table.dom() =~= Set::<Key>::empty()) by {
            vstd::set_lib::lemma_set_empty_equivalency_len(table.dom());
        }
    }
}

} // verus!
