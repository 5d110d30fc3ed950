//! The stored record and the small vocabularies that describe it.

use crate::clock::system_now;
use vstd::prelude::*;
use vstd::string::*;

verus! {

/// The two families of entities. Each has its own identifier namespace: the
/// same identifier under two kinds names two unrelated entities.
#[derive(Clone, Copy, Debug, PartialEq, Eq, Structural)]
pub enum Kind {
    /// Conventionally only stepped upwards.
    Counter,
    /// Stepped in both directions.
    Gauge,
}

/// A single step applied to a stored value.
#[derive(Clone, Copy, Debug, PartialEq, Eq, Structural)]
pub enum Delta {
    /// One up.
    Increment,
    /// One down.
    Decrement,
}

impl Delta {
    /// The signed amount the step adds to a value.
    pub open spec fn spec_amount(self) -> i64 {
        match self {
            Delta::Increment => 1i64,
            Delta::Decrement => -1i64,
        }
    }

    /// The signed amount the step adds to a value.
    #[verifier::when_used_as_spec(spec_amount)]
    pub fn amount(self) -> (amount: i64)
        ensures
            amount == self.spec_amount(),
    {
        match self {
            Delta::Increment => 1,
            Delta::Decrement => -1,
        }
    }
}

impl Kind {
    /// The lower-case name of the kind, as metric expositions spell it.
    pub open spec fn spec_label(self) -> Seq<char> {
        match self {
            Kind::Counter => "counter"@,
            Kind::Gauge => "gauge"@,
        }
    }

    /// The lower-case name of the kind, as metric expositions spell it.
    pub fn label(self) -> (label: &'static str)
        ensures
            label@ == self.spec_label(),
    {
        match self {
            Kind::Counter => "counter",
            Kind::Gauge => "gauge",
        }
    }

    /// The path segment under which entities of this kind are served.
    pub open spec fn spec_prefix(self) -> Seq<char> {
        match self {
            Kind::Counter => "/c/"@,
            Kind::Gauge => "/g/"@,
        }
    }

    /// The path segment under which entities of this kind are served.
    pub fn prefix(self) -> (prefix: &'static str)
        ensures
            prefix@ == self.spec_prefix(),
    {
        match self {
            Kind::Counter => "/c/",
            Kind::Gauge => "/g/",
        }
    }

    /// The steps the public surface offers for this kind: counters only go
    /// up, gauges go both ways.
    pub open spec fn spec_permits(self, delta: Delta) -> bool {
        self == Kind::Gauge || delta == Delta::Increment
    }

    /// Whether the public surface offers `delta` for this kind.
    #[verifier::when_used_as_spec(spec_permits)]
    pub fn permits(self, delta: Delta) -> (allowed: bool)
        ensures
            allowed == self.spec_permits(delta),
    {
        match (self, delta) {
            (Kind::Counter, Delta::Decrement) => false,
            _ => true,
        }
    }
}

/// A point in time: whole seconds since the Unix epoch, and the nanoseconds
/// past that second.
#[derive(Clone, Copy, Debug, PartialEq, Eq, Structural)]
pub struct Timestamp {
    pub secs: i64,
    pub nanos: u32,
}

/// The mathematical content of an [`Entity`].
pub struct EntityView {
    pub kind: Kind,
    pub id: Seq<char>,
    pub value: i64,
    pub updated_at: Timestamp,
}

/// A stored record as handed out by a store: what it is called, what it
/// currently holds, and when that value was last written.
#[derive(Clone, Debug, PartialEq, Eq)]
pub struct Entity {
    kind: Kind,
    id: String,
    value: i64,
    updated_at: Timestamp,
}

impl View for Entity {
    type V = EntityView;

    closed spec fn view(&self) -> EntityView {
        EntityView { kind: self.kind, id: self.id@, value: self.value, updated_at: self.updated_at }
    }
}

impl Entity {
    /// An entity with every part given.
    pub fn with_timestamp(kind: Kind, id: &str, value: i64, updated_at: Timestamp) -> (entity:
        Entity)
        ensures
            entity@ == (EntityView { kind, id: id@, value, updated_at }),
    {
        Entity { kind, id: id.to_owned(), value, updated_at }
    }

    /// An entity whose value counts as written now: it is stamped with the
    /// current time, whatever that is.
    pub fn new(kind: Kind, id: &str, value: i64) -> (entity: Entity)
        ensures
            entity@.kind == kind,
            entity@.id == id@,
            entity@.value == value,
    {
        Entity::with_timestamp(kind, id, value, system_now())
    }

    /// Takes the entity apart: kind, identifier, value and time of the
    /// last write.
    pub fn into_parts(self) -> (parts: (Kind, String, i64, Timestamp))
        ensures
            parts.0 == self@.kind,
            parts.1@ == self@.id,
            parts.2 == self@.value,
            parts.3 == self@.updated_at,
    {
        (self.kind, self.id, self.value, self.updated_at)
    }

    /// The family the entity belongs to.
    pub fn kind(&self) -> (kind: Kind)
        ensures
            kind == self@.kind,
    {
        self.kind
    }

    /// The identifier the entity is stored under.
    pub fn id(&self) -> (id: &str)
        ensures
            id@ == self@.id,
    {
        self.id.as_str()
    }

    /// The value the entity holds.
    pub fn value(&self) -> (value: i64)
        ensures
            value == self@.value,
    {
        self.value
    }

    /// When the value was last written.
    pub fn updated_at(&self) -> (at: Timestamp)
        ensures
            at == self@.updated_at,
    {
        self.updated_at
    }
}

} // verus!
