//! Counters: the entities of kind [`Kind::Counter`], under their own name.

use crate::clock::system_now;
use crate::decimal::{decimal, signed_text};
use crate::engine::{spec_created, spec_fetched};
use crate::entity::{Delta, Entity, EntityView, Kind, Timestamp};
use crate::error::{viewed, Error};
use crate::ident::{is_token, valid_identifier, validate, GENERATED_LENGTH};
use crate::render::{open_metrics, render_open_metrics};
use crate::response::Response;
use crate::service::{show, shown};
use crate::store::{insert_reply, inserted_into, select_reply, step_result, step_table, Store};
use vstd::prelude::*;
use vstd::string::*;

verus! {

/// A counter: an entity that callers only step upwards.
#[derive(Clone, Debug, PartialEq, Eq)]
pub struct Counter {
    pub id: String,
    value: i64,
    updated_at: Timestamp,
}

impl View for Counter {
    type V = EntityView;

    closed spec fn view(&self) -> EntityView {
        EntityView {
            kind: Kind::Counter,
            id: self.id@,
            value: self.value,
            updated_at: self.updated_at,
        }
    }
}

/// What a lookup of a counter comes to: the counter, or nothing when the
/// lookup found none.
pub open spec fn looked_up(found: Option<Counter>) -> Result<EntityView, Error> {
    match found {
        Some(counter) => Ok(counter@),
        None => Err(Error::NotFound),
    }
}

impl Counter {
    /// Whether `id` may name a counter.
    pub fn valid_id(id: &str) -> (ok: bool)
        ensures
            ok == valid_identifier(id@),
    {
        validate(id)
    }

    /// A counter whose value counts as written now.
    pub fn new(id: &str, value: i64) -> (counter: Counter)
        ensures
            counter@.kind == Kind::Counter,
            counter@.id == id@,
            counter@.value == value,
    {
        Counter { id: id.to_owned(), value, updated_at: system_now() }
    }

    /// The counter an entity of this kind stands for.
    pub fn from_entity(entity: Entity) -> (counter: Option<Counter>)
        ensures
            match counter {
                Some(c) => c@ == entity@,
                None => entity@.kind != Kind::Counter,
            },
    {
        let (kind, id, value, updated_at) = entity.into_parts();
        match kind {
            Kind::Counter => Some(Counter { id, value, updated_at }),
            _ => None,
        }
    }

    /// The counter as an entity.
    pub fn to_entity(&self) -> (entity: Entity)
        ensures
            entity@ == self@,
    {
        Entity::with_timestamp(Kind::Counter, self.id.as_str(), self.value, self.updated_at)
    }

    /// The identifier.
    pub fn id(&self) -> (id: &str)
        ensures
            id@ == self@.id,
    {
        self.id.as_str()
    }

    /// The value.
    pub fn value(&self) -> (value: i64)
        ensures
            value == self@.value,
    {
        self.value
    }

    /// When the value was last written.
    pub fn updated_at(&self) -> (at: Timestamp)
        ensures
            at == self@.updated_at,
    {
        self.updated_at
    }

    /// The value in decimal notation.
    pub fn to_string(&self) -> (text: String)
        ensures
            text@ == decimal(self@.value as int),
    {
        signed_text(self.value)
    }

    /// The response that shows the counter in the format `ext` names;
    /// a name that selects no format is answered as not found.
    pub fn as_format(&self, ext: &str) -> (response: Response)
        ensures
            response@ == shown(self@, ext@),
    {
        let entity = self.to_entity();
        show(&entity, ext)
    }

    /// The response that shows the counter as a metric exposition.
    pub fn as_openmetrics(&self) -> (response: Response)
        ensures
            response@ == open_metrics(self@),
    {
        let entity = self.to_entity();
        render_open_metrics(&entity)
    }

    /// Creates a counter with value zero under a freshly generated identifier.
    pub fn create(store: &mut Store) -> (result: Result<Counter, Error>)
        ensures
            (exists|id: Seq<char>, now: Timestamp|
                is_token(id, GENERATED_LENGTH as nat)
                    && valid_identifier(id)
                    && viewed(result) == #[trigger] spec_created(
                        Kind::Counter,
                        id,
                        0,
                        now,
                        insert_reply(old(store)@, (Kind::Counter, id)),
                    )
                    && final(store)@ == inserted_into(old(store)@, (Kind::Counter, id), 0, now)),
    {
        match store.create_fresh(Kind::Counter) {
            Ok(entity) => match Counter::from_entity(entity) {
                Some(counter) => Ok(counter),
                None => Err(Error::StoreError),
            },
            Err(error) => Err(error),
        }
    }

    /// Creates a counter under a caller-chosen identifier, which is taken to be
    /// fresh; when it is not, nothing is written and the outcome is a store
    /// error.
    pub fn create_with_id_and_value(id: &str, store: &mut Store, value: i64) -> (result: Result<
        Counter,
        Error,
    >)
        ensures
            (exists|now: Timestamp|
                viewed(result) == #[trigger] spec_created(
                    Kind::Counter,
                    id@,
                    value,
                    now,
                    insert_reply(old(store)@, (Kind::Counter, id@)),
                )
                    && final(store)@ == inserted_into(
                        old(store)@,
                        (Kind::Counter, id@),
                        value,
                        now,
                    )),
    {
        match store.create(Kind::Counter, id, value) {
            Ok(entity) => match Counter::from_entity(entity) {
                Some(counter) => Ok(counter),
                None => Err(Error::StoreError),
            },
            Err(error) => Err(error),
        }
    }

    /// Looks a counter up; nothing comes back exactly when none is stored under
    /// the identifier.
    pub fn get(id: &str, store: &Store) -> (found: Option<Counter>)
        ensures
            looked_up(found) == spec_fetched(
                Kind::Counter,
                id@,
                select_reply(store@, (Kind::Counter, id@)),
            ),
    {
        match store.fetch(Kind::Counter, id) {
            Ok(entity) => Counter::from_entity(entity),
            Err(_) => None,
        }
    }

    /// Steps the counter up by one, creating it when it does not exist, and
    /// returns the value it holds afterwards.
    pub fn increment_or_create(id: &str, store: &mut Store) -> (result: Result<i64, Error>)
        ensures
            result == step_result(old(store)@, (Kind::Counter, id@), Delta::Increment),
            exists|now: Timestamp|
                final(store)@ == #[trigger] step_table(
                    old(store)@,
                    (Kind::Counter, id@),
                    Delta::Increment,
                    now,
                ),
    {
        store.apply_delta_or_create(Kind::Counter, id, Delta::Increment)
    }
}

} // verus!
