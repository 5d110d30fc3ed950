//! What a storage engine answers, and what the service makes of each answer.
//!
//! A store operation is one statement sent to an engine, or, for stepping
//! an entity that may not exist yet, at most two. The functions here decide
//! what each answer means. They take the answers as plain values, so the
//! same decisions serve the in-memory store of this crate and any engine a
//! caller drives itself.

use crate::entity::{Entity, EntityView, Kind, Timestamp};
use crate::error::{viewed, Error};
use vstd::prelude::*;

verus! {

/// What is stored under a key.
#[derive(Clone, Copy, Debug, PartialEq, Eq, Structural)]
pub struct Record {
    pub value: i64,
    pub updated_at: Timestamp,
}

/// The answer to a statement that reads at most one row.
#[derive(Debug, PartialEq, Eq)]
pub enum Reply<T> {
    /// The statement produced this row.
    Row(T),
    /// The statement ran and matched nothing.
    NoRow,
    /// The statement could not be carried out.
    Failed,
}

/// The answer to a statement that writes a new row.
#[derive(Clone, Copy, Debug, PartialEq, Eq, Structural)]
pub enum Written {
    Done,
    Failed,
}

/// The value an entity starts with when a step brings it into existence.
/// It is the same for a step up and a step down: a gauge first seen by a
/// decrement starts at one, not at minus one.
pub const FIRST_VALUE: i64 = 1;

/// How stepping goes on after the update statement has been answered.
#[derive(Debug, PartialEq, Eq)]
pub enum NextStep {
    /// Stepping is over.
    Finish(Result<i64, Error>),
    /// No row was there to update: a row with this value is to be inserted.
    Insert(i64),
}

/// The decision after the update statement: a returned row settles the
/// step with its value, a miss calls for an insert of [`FIRST_VALUE`], and
/// a failure is final. The update is never tried a second time.
pub open spec fn spec_next_step(reply: Reply<i64>) -> NextStep {
    match reply {
        Reply::Row(value) => NextStep::Finish(Ok(value)),
        Reply::NoRow => NextStep::Insert(FIRST_VALUE),
        Reply::Failed => NextStep::Finish(Err(Error::StoreError)),
    }
}

/// Decides how stepping goes on after the update statement.
pub fn next_step(reply: Reply<i64>) -> (next: NextStep)
    ensures
        next == spec_next_step(reply),
{
    match reply {
        Reply::Row(value) => NextStep::Finish(Ok(value)),
        Reply::NoRow => NextStep::Insert(FIRST_VALUE),
        Reply::Failed => NextStep::Finish(Err(Error::StoreError)),
    }
}

/// The result of a step that had to insert: the inserted value, or a store
/// error when the insert was refused, as it is when another caller created
/// the same entity in between.
pub open spec fn spec_inserted(value: i64, written: Written) -> Result<i64, Error> {
    match written {
        Written::Done => Ok(value),
        Written::Failed => Err(Error::StoreError),
    }
}

/// Concludes a step that had to insert.
pub fn inserted(value: i64, written: Written) -> (result: Result<i64, Error>)
    ensures
        result == spec_inserted(value, written),
{
    match written {
        Written::Done => Ok(value),
        Written::Failed => Err(Error::StoreError),
    }
}

/// The result of creating an entity: the entity as it was written, or a
/// store error when the insert was refused.
pub open spec fn spec_created(
    kind: Kind,
    id: Seq<char>,
    value: i64,
    now: Timestamp,
    written: Written,
) -> Result<EntityView, Error> {
    match written {
        Written::Done => Ok(EntityView { kind, id, value, updated_at: now }),
        Written::Failed => Err(Error::StoreError),
    }
}

/// Concludes the creation of an entity.
pub fn created(kind: Kind, id: &str, value: i64, now: Timestamp, written: Written) -> (result:
    Result<Entity, Error>)
    ensures
        viewed(result) == spec_created(kind, id@, value, now, written),
{
    match written {
        Written::Done => Ok(Entity::with_timestamp(kind, id, value, now)),
        Written::Failed => Err(Error::StoreError),
    }
}

/// The result of a lookup: the entity when a row came back, and `NotFound`
/// otherwise. A lookup that failed is reported like one that found nothing.
pub open spec fn spec_fetched(kind: Kind, id: Seq<char>, reply: Reply<Record>) -> Result<
    EntityView,
    Error,
> {
    match reply {
        Reply::Row(record) => Ok(
            EntityView { kind, id, value: record.value, updated_at: record.updated_at },
        ),
        Reply::NoRow => Err(Error::NotFound),
        Reply::Failed => Err(Error::NotFound),
    }
}

/// Concludes a lookup.
pub fn fetched(kind: Kind, id: &str, reply: Reply<Record>) -> (result: Result<Entity, Error>)
    ensures
        viewed(result) == spec_fetched(kind, id@, reply),
{
    match reply {
        Reply::Row(record) => Ok(Entity::with_timestamp(kind, id, record.value, record.updated_at)),
        Reply::NoRow => Err(Error::NotFound),
        Reply::Failed => Err(Error::NotFound),
    }
}

/// The result of an aggregate query: the single value it produced. An
/// aggregate without a row, as the maximum over no entities is, counts as
/// a failure and is never replaced by a default.
pub open spec fn spec_aggregated<T>(reply: Reply<T>) -> Result<T, Error> {
    match reply {
        Reply::Row(value) => Ok(value),
        Reply::NoRow => Err(Error::StoreError),
        Reply::Failed => Err(Error::StoreError),
    }
}

/// Concludes an aggregate query.
pub fn aggregated<T>(reply: Reply<T>) -> (result: Result<T, Error>)
    ensures
        result == spec_aggregated(reply),
{
    match reply {
        Reply::Row(value) => Ok(value),
        Reply::NoRow => Err(Error::StoreError),
        Reply::Failed => Err(Error::StoreError),
    }
}

} // verus!
