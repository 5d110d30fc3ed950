//! Gauges: the entities of kind [`Kind::Gauge`], under their own name.

use crate::clock::system_now;
use crate::decimal::{decimal, signed_text};
use crate::engine::{spec_created, spec_fetched};
use crate::entity::{Delta, Entity, EntityView, Kind, Timestamp};
use crate::error::{viewed, Error};
use crate::ident::{is_token, valid_identifier, validate, GENERATED_LENGTH};
use crate::render::{open_metrics, render_open_metrics};
use crate::response::Response;
use crate::service::{show, shown};
use crate::store::{insert_reply, inserted_into, select_reply, step_result, step_table, Store};
use vstd::prelude::*;
use vstd::string::*;

verus! {

/// A gauge: an entity that callers step in both directions.
#[derive(Clone, Debug, PartialEq, Eq)]
pub struct Gauge {
    pub id: String,
    value: i64,
    updated_at: Timestamp,
}

impl View for Gauge {
    type V = EntityView;

    closed spec fn view(&self) -> EntityView {
        EntityView {
            kind: Kind::Gauge,
            id: self.id@,
            value: self.value,
            updated_at: self.updated_at,
        }
    }
}

/// What a lookup of a gauge comes to: the gauge, or nothing when the
/// lookup found none.
pub open spec fn looked_up(found: Option<Gauge>) -> Result<EntityView, Error> {
    match found {
        Some(gauge) => Ok(gauge@),
        None => Err(Error::NotFound),
    }
}

impl Gauge {
    /// Whether `id` may name a gauge.
    pub fn valid_id(id: &str) -> (ok: bool)
        ensures
            ok == valid_identifier(id@),
    {
        validate(id)
    }

    /// A gauge whose value counts as written now.
    pub fn new(id: &str, value: i64) -> (gauge: Gauge)
        ensures
            gauge@.kind == Kind::Gauge,
            gauge@.id == id@,
            gauge@.value == value,
    {
        Gauge { id: id.to_owned(), value, updated_at: system_now() }
    }

    /// The gauge an entity of this kind stands for.
    pub fn from_entity(entity: Entity) -> (gauge: Option<Gauge>)
        ensures
            match gauge {
                Some(c) => c@ == entity@,
                None => entity@.kind != Kind::Gauge,
            },
    {
        let (kind, id, value, updated_at) = entity.into_parts();
        match kind {
            Kind::Gauge => Some(Gauge { id, value, updated_at }),
            _ => None,
        }
    }

    /// The gauge as an entity.
    pub fn to_entity(&self) -> (entity: Entity)
        ensures
            entity@ == self@,
    {
        Entity::with_timestamp(Kind::Gauge, self.id.as_str(), self.value, self.updated_at)
    }

    /// The identifier.
    pub fn id(&self) -> (id: &str)
        ensures
            id@ == self@.id,
    {
        self.id.as_str()
    }

    /// The value.
    pub fn value(&self) -> (value: i64)
        ensures
            value == self@.value,
    {
        self.value
    }

    /// When the value was last written.
    pub fn updated_at(&self) -> (at: Timestamp)
        ensures
            at == self@.updated_at,
    {
        self.updated_at
    }

    /// The value in decimal notation.
    pub fn to_string(&self) -> (text: String)
        ensures
            text@ == decimal(self@.value as int),
    {
        signed_text(self.value)
    }

    /// The response that shows the gauge in the format `ext` names;
    /// a name that selects no format is answered as not found.
    pub fn as_format(&self, ext: &str) -> (response: Response)
        ensures
            response@ == shown(self@, ext@),
    {
        let entity = self.to_entity();
        show(&entity, ext)
    }

    /// The response that shows the gauge as a metric exposition.
    pub fn as_openmetrics(&self) -> (response: Response)
        ensures
            response@ == open_metrics(self@),
    {
        let entity = self.to_entity();
        render_open_metrics(&entity)
    }

    /// Creates a gauge with value zero under a freshly generated identifier.
    pub fn create(store: &mut Store) -> (result: Result<Gauge, Error>)
        ensures
            (exists|id: Seq<char>, now: Timestamp|
                is_token(id, GENERATED_LENGTH as nat)
                    && valid_identifier(id)
                    && viewed(result) == #[trigger] spec_created(
                        Kind::Gauge,
                        id,
                        0,
                        now,
                        insert_reply(old(store)@, (Kind::Gauge, id)),
                    )
                    && final(store)@ == inserted_into(old(store)@, (Kind::Gauge, id), 0, now)),
    {
        match store.create_fresh(Kind::Gauge) {
            Ok(entity) => match Gauge::from_entity(entity) {
                Some(gauge) => Ok(gauge),
                None => Err(Error::StoreError),
            },
            Err(error) => Err(error),
        }
    }

    /// Creates a gauge under a caller-chosen identifier, which is taken to be
    /// fresh; when it is not, nothing is written and the outcome is a store
    /// error.
    pub fn create_with_id_and_value(id: &str, store: &mut Store, value: i64) -> (result: Result<
        Gauge,
        Error,
    >)
        ensures
            (exists|now: Timestamp|
                viewed(result) == #[trigger] spec_created(
                    Kind::Gauge,
                    id@,
                    value,
                    now,
                    insert_reply(old(store)@, (Kind::Gauge, id@)),
                )
                    && final(store)@ == inserted_into(
                        old(store)@,
                        (Kind::Gauge, id@),
                        value,
                        now,
                    )),
    {
        match store.create(Kind::Gauge, id, value) {
            Ok(entity) => match Gauge::from_entity(entity) {
                Some(gauge) => Ok(gauge),
                None => Err(Error::StoreError),
            },
            Err(error) => Err(error),
        }
    }

    /// Looks a gauge up; nothing comes back exactly when none is stored under
    /// the identifier.
    pub fn get(id: &str, store: &Store) -> (found: Option<Gauge>)
        ensures
            looked_up(found) == spec_fetched(
                Kind::Gauge,
                id@,
                select_reply(store@, (Kind::Gauge, id@)),
            ),
    {
        match store.fetch(Kind::Gauge, id) {
            Ok(entity) => Gauge::from_entity(entity),
            Err(_) => None,
        }
    }

    /// Steps the gauge down by one, creating it when it does not exist, and
    /// returns the value it holds afterwards.
    pub fn decrement_or_create(id: &str, store: &mut Store) -> (result: Result<i64, Error>)
        ensures
            result == step_result(old(store)@, (Kind::Gauge, id@), Delta::Decrement),
            exists|now: Timestamp|
                final(store)@ == #[trigger] step_table(
                    old(store)@,
                    (Kind::Gauge, id@),
                    Delta::Decrement,
                    now,
                ),
    {
        store.apply_delta_or_create(Kind::Gauge, id, Delta::Decrement)
    }

    /// Steps the gauge up by one, creating it when it does not exist, and
    /// returns the value it holds afterwards.
    pub fn increment_or_create(id: &str, store: &mut Store) -> (result: Result<i64, Error>)
        ensures
            result == step_result(old(store)@, (Kind::Gauge, id@), Delta::Increment),
            exists|now: Timestamp|
                final(store)@ == #[trigger] step_table(
                    old(store)@,
                    (Kind::Gauge, id@),
                    Delta::Increment,
                    now,
                ),
    {
        store.apply_delta_or_create(Kind::Gauge, id, Delta::Increment)
    }
}

} // verus!
