use counters::engine::{inserted, next_step, NextStep, Record, Reply, Written};
use counters::entity::{Delta, Entity, Kind, Timestamp};
use counters::error::Error;
use counters::store::Store;

fn t(secs: i64) -> Timestamp {
    Timestamp { secs, nanos: 0 }
}

#[test]
fn first_increment_of_a_fresh_counter_returns_one() {
    let mut store = Store::new();
    assert_eq!(store.apply_delta_or_create(Kind::Counter, "fresh", Delta::Increment), Ok(1));
    assert_eq!(store.fetch(Kind::Counter, "fresh").unwrap().value(), 1);
}

#[test]
fn first_decrement_of_a_fresh_gauge_returns_one() {
    let mut store = Store::new();
    assert_eq!(store.apply_delta_or_create(Kind::Gauge, "fresh", Delta::Decrement), Ok(1));
    assert_eq!(store.fetch(Kind::Gauge, "fresh").unwrap().value(), 1);
}

#[test]
fn first_increment_of_a_fresh_gauge_returns_one() {
    let mut store = Store::new();
    assert_eq!(store.apply_delta_or_create(Kind::Gauge, "fresh", Delta::Increment), Ok(1));
}

#[test]
fn increments_count_one_two_three() {
    let mut store = Store::new();
    for expected in 1..=50i64 {
        assert_eq!(
            store.apply_delta_or_create(Kind::Counter, "n", Delta::Increment),
            Ok(expected)
        );
    }
    assert_eq!(store.fetch(Kind::Counter, "n").unwrap().value(), 50);
}

#[test]
fn increments_of_an_entity_created_at_zero_count_from_one() {
    let mut store = Store::new();
    store.create(Kind::Counter, "z", 0).unwrap();
    for expected in 1..=5i64 {
        assert_eq!(
            store.apply_delta_or_create(Kind::Counter, "z", Delta::Increment),
            Ok(expected)
        );
    }
}

#[test]
fn increments_continue_from_the_stored_value() {
    let mut store = Store::new();
    store.create(Kind::Gauge, "g", 40).unwrap();
    assert_eq!(store.apply_delta_or_create(Kind::Gauge, "g", Delta::Increment), Ok(41));
    assert_eq!(store.apply_delta_or_create(Kind::Gauge, "g", Delta::Increment), Ok(42));
}

#[test]
fn decrements_of_an_existing_gauge_go_down() {
    let mut store = Store::new();
    store.create(Kind::Gauge, "g", 1).unwrap();
    assert_eq!(store.apply_delta_or_create(Kind::Gauge, "g", Delta::Decrement), Ok(0));
    assert_eq!(store.apply_delta_or_create(Kind::Gauge, "g", Delta::Decrement), Ok(-1));
    assert_eq!(store.apply_delta_or_create(Kind::Gauge, "g", Delta::Decrement), Ok(-2));
}

#[test]
fn the_store_lets_a_counter_go_down() {
    let mut store = Store::new();
    store.create(Kind::Counter, "c", 10).unwrap();
    assert_eq!(store.apply_delta_or_create(Kind::Counter, "c", Delta::Decrement), Ok(9));
}

#[test]
fn fetch_of_a_missing_identifier_is_not_found() {
    let mut store = Store::new();
    assert_eq!(store.fetch(Kind::Counter, "nobody"), Err(Error::NotFound));
    store.create(Kind::Counter, "somebody", 3).unwrap();
    assert_eq!(store.fetch(Kind::Counter, "nobody"), Err(Error::NotFound));
    assert_eq!(store.fetch(Kind::Counter, "somebod"), Err(Error::NotFound));
    assert_eq!(store.fetch(Kind::Counter, "somebody1"), Err(Error::NotFound));
}

#[test]
fn kinds_have_separate_namespaces() {
    let mut store = Store::new();
    store.create_at(Kind::Counter, "abc", 5, t(1)).unwrap();
    assert_eq!(store.fetch(Kind::Gauge, "abc"), Err(Error::NotFound));
    store.create_at(Kind::Gauge, "abc", -5, t(2)).unwrap();
    assert_eq!(
        store.fetch(Kind::Counter, "abc"),
        Ok(Entity::with_timestamp(Kind::Counter, "abc", 5, t(1)))
    );
    assert_eq!(
        store.fetch(Kind::Gauge, "abc"),
        Ok(Entity::with_timestamp(Kind::Gauge, "abc", -5, t(2)))
    );
    assert_eq!(store.apply_delta_or_create(Kind::Gauge, "abc", Delta::Increment), Ok(-4));
    assert_eq!(store.fetch(Kind::Counter, "abc").unwrap().value(), 5);
}

#[test]
fn create_returns_the_entity_as_written() {
    let mut store = Store::new();
    let entity = store.create_at(Kind::Gauge, "g", 7, t(99)).unwrap();
    assert_eq!(entity, Entity::with_timestamp(Kind::Gauge, "g", 7, t(99)));
    assert_eq!(store.fetch(Kind::Gauge, "g"), Ok(entity));
}

#[test]
fn duplicate_create_is_a_store_error_and_writes_nothing() {
    let mut store = Store::new();
    store.create_at(Kind::Counter, "dup", 1, t(1)).unwrap();
    assert_eq!(store.create_at(Kind::Counter, "dup", 2, t(2)), Err(Error::StoreError));
    assert_eq!(store.create(Kind::Counter, "dup", 3), Err(Error::StoreError));
    assert_eq!(
        store.fetch(Kind::Counter, "dup"),
        Ok(Entity::with_timestamp(Kind::Counter, "dup", 1, t(1)))
    );
    assert_eq!(store.total_count(), Ok(1));
}

#[test]
fn create_fresh_starts_at_zero_under_a_valid_identifier() {
    let mut store = Store::new();
    let entity = store.create_fresh(Kind::Counter).unwrap();
    assert_eq!(entity.value(), 0);
    assert_eq!(entity.kind(), Kind::Counter);
    assert_eq!(entity.id().len(), 12);
    assert!(counters::ident::validate(entity.id()));
    assert_eq!(store.fetch(Kind::Counter, entity.id()).unwrap().value(), 0);
    assert_eq!(store.total_count(), Ok(1));
}

#[test]
fn a_step_writes_value_and_time_together() {
    let mut store = Store::new();
    store.create_at(Kind::Gauge, "g", 0, t(10)).unwrap();
    assert_eq!(store.apply_delta_or_create_at(Kind::Gauge, "g", Delta::Increment, t(20)), Ok(1));
    assert_eq!(
        store.fetch(Kind::Gauge, "g"),
        Ok(Entity::with_timestamp(Kind::Gauge, "g", 1, t(20)))
    );
    assert_eq!(store.apply_delta_or_create_at(Kind::Gauge, "g", Delta::Decrement, t(30)), Ok(0));
    assert_eq!(
        store.fetch(Kind::Gauge, "g"),
        Ok(Entity::with_timestamp(Kind::Gauge, "g", 0, t(30)))
    );
}

#[test]
fn a_step_leaves_other_entities_alone() {
    let mut store = Store::new();
    store.create_at(Kind::Counter, "a", 1, t(1)).unwrap();
    store.create_at(Kind::Counter, "b", 2, t(2)).unwrap();
    store.apply_delta_or_create_at(Kind::Counter, "a", Delta::Increment, t(3)).unwrap();
    assert_eq!(
        store.fetch(Kind::Counter, "b"),
        Ok(Entity::with_timestamp(Kind::Counter, "b", 2, t(2)))
    );
}

#[test]
fn a_step_past_the_range_is_a_store_error_and_writes_nothing() {
    let mut store = Store::new();
    store.create_at(Kind::Counter, "top", i64::MAX, t(1)).unwrap();
    assert_eq!(
        store.apply_delta_or_create_at(Kind::Counter, "top", Delta::Increment, t(2)),
        Err(Error::StoreError)
    );
    assert_eq!(
        store.fetch(Kind::Counter, "top"),
        Ok(Entity::with_timestamp(Kind::Counter, "top", i64::MAX, t(1)))
    );
    store.create_at(Kind::Gauge, "bottom", i64::MIN, t(1)).unwrap();
    assert_eq!(
        store.apply_delta_or_create_at(Kind::Gauge, "bottom", Delta::Decrement, t(2)),
        Err(Error::StoreError)
    );
    assert_eq!(store.apply_delta_or_create(Kind::Gauge, "bottom", Delta::Increment), Ok(i64::MIN + 1));
}

#[test]
fn total_count_counts_rows_of_both_kinds() {
    let mut store = Store::new();
    assert_eq!(store.total_count(), Ok(0));
    store.create(Kind::Counter, "a", 100).unwrap();
    store.create(Kind::Counter, "b", 200).unwrap();
    store.create(Kind::Gauge, "a", 300).unwrap();
    assert_eq!(store.total_count(), Ok(3));
    // Stepping an existing entity changes its value, not the count.
    store.apply_delta_or_create(Kind::Counter, "a", Delta::Increment).unwrap();
    store.apply_delta_or_create(Kind::Gauge, "a", Delta::Decrement).unwrap();
    assert_eq!(store.total_count(), Ok(3));
    // Stepping a missing entity creates it.
    store.apply_delta_or_create(Kind::Gauge, "new", Delta::Decrement).unwrap();
    assert_eq!(store.total_count(), Ok(4));
    // A refused create adds nothing.
    assert!(store.create(Kind::Gauge, "new", 0).is_err());
    assert_eq!(store.total_count(), Ok(4));
}

#[test]
fn highest_value_is_the_maximum_over_both_kinds() {
    let mut store = Store::new();
    store.create(Kind::Counter, "A", 5).unwrap();
    store.create(Kind::Gauge, "B", 10).unwrap();
    store.create(Kind::Gauge, "C", 3).unwrap();
    assert_eq!(store.highest_value(), Ok(10));
}

#[test]
fn highest_value_follows_the_steps() {
    let mut store = Store::new();
    store.create(Kind::Counter, "A", 9).unwrap();
    store.create(Kind::Gauge, "B", 10).unwrap();
    assert_eq!(store.highest_value(), Ok(10));
    store.apply_delta_or_create(Kind::Counter, "A", Delta::Increment).unwrap();
    store.apply_delta_or_create(Kind::Counter, "A", Delta::Increment).unwrap();
    assert_eq!(store.highest_value(), Ok(11));
    store.apply_delta_or_create(Kind::Gauge, "B", Delta::Decrement).unwrap();
    assert_eq!(store.highest_value(), Ok(11));
}

#[test]
fn highest_value_of_negative_values() {
    let mut store = Store::new();
    store.create(Kind::Gauge, "a", -7).unwrap();
    store.create(Kind::Gauge, "b", -3).unwrap();
    store.create(Kind::Counter, "c", -30).unwrap();
    assert_eq!(store.highest_value(), Ok(-3));
}

#[test]
fn highest_value_of_an_empty_store_is_an_error() {
    let store = Store::new();
    assert_eq!(store.highest_value(), Err(Error::StoreError));
}

#[test]
fn highest_value_of_a_single_entity() {
    let mut store = Store::new();
    store.create(Kind::Counter, "only", 0).unwrap();
    assert_eq!(store.highest_value(), Ok(0));
}

#[test]
fn interleaved_increments_are_not_lost() {
    let mut store = Store::new();
    store.create(Kind::Counter, "shared", 17).unwrap();
    store.create(Kind::Gauge, "shared", 1000).unwrap();
    let k: i64 = 64;
    let mut seen = Vec::new();
    for round in 0..k {
        // Writes of other callers, interleaved with the increments.
        store.apply_delta_or_create(Kind::Gauge, "shared", Delta::Decrement).unwrap();
        store.apply_delta_or_create(Kind::Counter, &format!("other{}", round % 3), Delta::Increment).unwrap();
        assert!(store.create(Kind::Counter, "shared", 0).is_err());
        seen.push(store.apply_delta_or_create(Kind::Counter, "shared", Delta::Increment).unwrap());
    }
    assert_eq!(store.fetch(Kind::Counter, "shared").unwrap().value(), 17 + k);
    let expected: Vec<i64> = (18..=17 + k).collect();
    assert_eq!(seen, expected);
    assert_eq!(store.fetch(Kind::Gauge, "shared").unwrap().value(), 1000 - k);
}

#[test]
fn the_update_statement_answers_row_or_no_row() {
    let mut store = Store::new();
    assert_eq!(store.update_returning(Kind::Counter, "x", Delta::Increment, t(1)), Reply::NoRow);
    assert_eq!(store.total_count(), Ok(0));
    assert_eq!(store.insert(Kind::Counter, "x", 4, t(2)), Written::Done);
    assert_eq!(store.update_returning(Kind::Counter, "x", Delta::Increment, t(3)), Reply::Row(5));
    assert_eq!(store.update_returning(Kind::Counter, "x", Delta::Decrement, t(4)), Reply::Row(4));
    assert_eq!(
        store.select(Kind::Counter, "x"),
        Reply::Row(Record { value: 4, updated_at: t(4) })
    );
}

#[test]
fn the_update_statement_fails_past_the_range() {
    let mut store = Store::new();
    store.insert(Kind::Gauge, "x", i64::MAX, t(1));
    assert_eq!(store.update_returning(Kind::Gauge, "x", Delta::Increment, t(2)), Reply::Failed);
    assert_eq!(
        store.select(Kind::Gauge, "x"),
        Reply::Row(Record { value: i64::MAX, updated_at: t(1) })
    );
}

#[test]
fn the_insert_statement_refuses_a_taken_key() {
    let mut store = Store::new();
    assert_eq!(store.insert(Kind::Gauge, "x", 1, t(1)), Written::Done);
    assert_eq!(store.insert(Kind::Gauge, "x", 2, t(2)), Written::Failed);
    assert_eq!(store.insert(Kind::Counter, "x", 2, t(2)), Written::Done);
    assert_eq!(store.select(Kind::Gauge, "x"), Reply::Row(Record { value: 1, updated_at: t(1) }));
    assert_eq!(store.select(Kind::Gauge, "y"), Reply::NoRow);
}

#[test]
fn the_aggregate_statements() {
    let mut store = Store::new();
    assert_eq!(store.count(), Reply::Row(0));
    assert_eq!(store.max(), Reply::NoRow);
    store.insert(Kind::Gauge, "x", -1, t(1));
    store.insert(Kind::Counter, "y", -2, t(1));
    assert_eq!(store.count(), Reply::Row(2));
    assert_eq!(store.max(), Reply::Row(-1));
}

#[test]
fn racing_first_steps_leave_one_entity_and_one_store_error() {
    let mut store = Store::new();
    // Both callers send their update before either inserts.
    let first = next_step(store.update_returning(Kind::Gauge, "new", Delta::Increment, t(1)));
    let second = next_step(store.update_returning(Kind::Gauge, "new", Delta::Decrement, t(2)));
    assert_eq!(first, NextStep::Insert(1));
    assert_eq!(second, NextStep::Insert(1));
    let written = store.insert(Kind::Gauge, "new", 1, t(3));
    assert_eq!(inserted(1, written), Ok(1));
    let written = store.insert(Kind::Gauge, "new", 1, t(4));
    assert_eq!(inserted(1, written), Err(Error::StoreError));
    assert_eq!(
        store.fetch(Kind::Gauge, "new"),
        Ok(Entity::with_timestamp(Kind::Gauge, "new", 1, t(3)))
    );
    assert_eq!(store.total_count(), Ok(1));
}
