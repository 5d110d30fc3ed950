//! Requests and their answers.
//!
//! Serving a request takes three steps. A request is planned: it is either
//! rejected on sight or turned into one query for the store. The store
//! answers the query. The answer is concluded into a response. Planning and
//! concluding touch no store, so a caller that keeps its entities in an
//! engine of its own can run the query there and still get the responses of
//! this service; [`serve`] does all three steps against the in-memory store.

use crate::clock::system_now;
use crate::decimal::{decimal, signed_text, unsigned_text};
use crate::engine::{spec_created, spec_fetched};
use crate::entity::{Delta, Entity, EntityView, Kind, Timestamp};
use crate::error::{viewed, Error};
use crate::ident::{generate, is_token, valid_identifier, validate, GENERATED_LENGTH};
use crate::render::{open_metrics, render, render_open_metrics, rendering_by_tag};
use crate::response::{bare, failure, plain, redirect, Response, ResponseView, Status};
use crate::store::{
    highest_of, insert_reply, inserted_into, select_reply, step_result, step_table, Store, Table,
};
use vstd::prelude::*;
use vstd::string::*;

verus! {

/// How a stepping request was sent.
#[derive(Clone, Copy, Debug, PartialEq, Eq, Structural)]
pub enum Method {
    Get,
    Post,
}

/// What a client can ask of the service.
#[derive(Debug, PartialEq, Eq)]
pub enum Request {
    /// Create an entity with value zero under a fresh identifier.
    Create { kind: Kind },
    /// Show an entity, as plain text unless a format is named.
    Show { kind: Kind, id: String, format: Option<String> },
    /// Show an entity as a metric exposition.
    Metrics { kind: Kind, id: String },
    /// Step an entity and point the client at it.
    Step { method: Method, kind: Kind, delta: Delta, id: String },
    /// Step an entity and show its new value in the named format.
    StepShow { kind: Kind, delta: Delta, id: String, tag: String },
    /// Count all entities.
    Total,
    /// Find the greatest value of all entities.
    Highest,
}

/// The mathematical content of a [`Request`].
pub enum RequestView {
    Create { kind: Kind },
    Show { kind: Kind, id: Seq<char>, format: Option<Seq<char>> },
    Metrics { kind: Kind, id: Seq<char> },
    Step { method: Method, kind: Kind, delta: Delta, id: Seq<char> },
    StepShow { kind: Kind, delta: Delta, id: Seq<char>, tag: Seq<char> },
    Total,
    Highest,
}

impl View for Request {
    type V = RequestView;

    open spec fn view(&self) -> RequestView {
        match self {
            Request::Create { kind } => RequestView::Create { kind: *kind },
            Request::Show { kind, id, format } => RequestView::Show {
                kind: *kind,
                id: id@,
                format: match format {
                    Some(tag) => Some(tag@),
                    None => None,
                },
            },
            Request::Metrics { kind, id } => RequestView::Metrics { kind: *kind, id: id@ },
            Request::Step { method, kind, delta, id } => RequestView::Step {
                method: *method,
                kind: *kind,
                delta: *delta,
                id: id@,
            },
            Request::StepShow { kind, delta, id, tag } => RequestView::StepShow {
                kind: *kind,
                delta: *delta,
                id: id@,
                tag: tag@,
            },
            Request::Total => RequestView::Total,
            Request::Highest => RequestView::Highest,
        }
    }
}

/// One operation of a store.
#[derive(Debug, PartialEq, Eq)]
pub enum Query {
    Insert { kind: Kind, id: String, value: i64 },
    Select { kind: Kind, id: String },
    Upsert { kind: Kind, id: String, delta: Delta },
    Count,
    Max,
}

/// The mathematical content of a [`Query`].
pub enum QueryView {
    Insert { kind: Kind, id: Seq<char>, value: i64 },
    Select { kind: Kind, id: Seq<char> },
    Upsert { kind: Kind, id: Seq<char>, delta: Delta },
    Count,
    Max,
}

impl View for Query {
    type V = QueryView;

    open spec fn view(&self) -> QueryView {
        match self {
            Query::Insert { kind, id, value } => QueryView::Insert {
                kind: *kind,
                id: id@,
                value: *value,
            },
            Query::Select { kind, id } => QueryView::Select { kind: *kind, id: id@ },
            Query::Upsert { kind, id, delta } => QueryView::Upsert {
                kind: *kind,
                id: id@,
                delta: *delta,
            },
            Query::Count => QueryView::Count,
            Query::Max => QueryView::Max,
        }
    }
}

/// What planning a request comes to.
#[derive(Debug, PartialEq, Eq)]
pub enum Plan {
    /// The request is answered without consulting the store.
    Reject(Response),
    /// The store is to answer this query.
    Ask(Query),
}

/// The mathematical content of a [`Plan`].
pub enum PlanView {
    Reject(ResponseView),
    Ask(QueryView),
}

impl View for Plan {
    type V = PlanView;

    open spec fn view(&self) -> PlanView {
        match self {
            Plan::Reject(response) => PlanView::Reject(response@),
            Plan::Ask(query) => PlanView::Ask(query@),
        }
    }
}

/// What a store answered.
#[derive(Debug, PartialEq, Eq)]
pub enum Outcome {
    Created(Result<Entity, Error>),
    Fetched(Result<Entity, Error>),
    Stepped(Result<i64, Error>),
    Counted(Result<u64, Error>),
    Highest(Result<i64, Error>),
}

/// The mathematical content of an [`Outcome`].
pub enum OutcomeView {
    Created(Result<EntityView, Error>),
    Fetched(Result<EntityView, Error>),
    Stepped(Result<i64, Error>),
    Counted(Result<u64, Error>),
    Highest(Result<i64, Error>),
}

impl View for Outcome {
    type V = OutcomeView;

    open spec fn view(&self) -> OutcomeView {
        match self {
            Outcome::Created(result) => OutcomeView::Created(viewed(*result)),
            Outcome::Fetched(result) => OutcomeView::Fetched(viewed(*result)),
            Outcome::Stepped(result) => OutcomeView::Stepped(*result),
            Outcome::Counted(result) => OutcomeView::Counted(*result),
            Outcome::Highest(result) => OutcomeView::Highest(*result),
        }
    }
}

/// The check every request that names an entity passes before any store is
/// consulted: the step must be one the kind offers, and the identifier
/// must be acceptable. A step no kind offers has no address, so it is not
/// found; an unacceptable identifier is an invalid one.
pub open spec fn screened(kind: Kind, delta: Option<Delta>, id: Seq<char>) -> Result<(), Error> {
    if delta matches Some(d) && !kind.spec_permits(d) {
        Err(Error::NotFound)
    } else if !valid_identifier(id) {
        Err(Error::InvalidIdentifier)
    } else {
        Ok(())
    }
}

/// The plan for a request. `fresh` is the identifier a creation uses; no
/// other request looks at it.
pub open spec fn planned(request: RequestView, fresh: Seq<char>) -> PlanView {
    match request {
        RequestView::Create { kind } => PlanView::Ask(
            QueryView::Insert { kind, id: fresh, value: 0 },
        ),
        RequestView::Show { kind, id, format } => match screened(kind, None, id) {
            Ok(_) => PlanView::Ask(QueryView::Select { kind, id }),
            Err(error) => PlanView::Reject(failure(error)),
        },
        RequestView::Metrics { kind, id } => match screened(kind, None, id) {
            Ok(_) => PlanView::Ask(QueryView::Select { kind, id }),
            Err(error) => PlanView::Reject(failure(error)),
        },
        RequestView::Step { method, kind, delta, id } => match screened(kind, Some(delta), id) {
            Ok(_) => PlanView::Ask(QueryView::Upsert { kind, id, delta }),
            Err(error) => PlanView::Reject(failure(error)),
        },
        RequestView::StepShow { kind, delta, id, tag } => match screened(
            kind,
            Some(delta),
            id,
        ) {
            Ok(_) => PlanView::Ask(QueryView::Upsert { kind, id, delta }),
            Err(error) => PlanView::Reject(failure(error)),
        },
        RequestView::Total => PlanView::Ask(QueryView::Count),
        RequestView::Highest => PlanView::Ask(QueryView::Max),
    }
}

/// Where an entity is served.
pub open spec fn location_of(kind: Kind, id: Seq<char>) -> Seq<char> {
    kind.spec_prefix() + id
}

/// The status of a step the store could not carry out. Only an increment
/// that was posted reports the failure as the store's; every other way of
/// stepping reports the entity as not found.
pub open spec fn step_failure(method: Method, delta: Delta) -> Status {
    if method == Method::Post && delta == Delta::Increment {
        Status::InternalServerError
    } else {
        Status::NotFound
    }
}

/// The rendering of an entity under a tag as a response: a tag that
/// selects no format is answered like a missing entity.
pub open spec fn shown(entity: EntityView, tag: Seq<char>) -> ResponseView {
    match rendering_by_tag(entity, tag) {
        Ok(response) => response,
        Err(error) => failure(error),
    }
}

/// The response to a request, given what the store answered. `now` dates
/// the rendering of a value that was just stepped. An answer that does not
/// belong to the request counts as a failure of the store.
pub open spec fn concluded(request: RequestView, outcome: OutcomeView, now: Timestamp) -> ResponseView {
    match request {
        RequestView::Create { kind } => match outcome {
            OutcomeView::Created(Ok(entity)) => redirect(location_of(kind, entity.id), entity.id),
            _ => bare(Status::InternalServerError),
        },
        RequestView::Show { kind, id, format } => match outcome {
            OutcomeView::Fetched(Ok(entity)) => shown(
                entity,
                match format {
                    Some(tag) => tag,
                    None => "txt"@,
                },
            ),
            OutcomeView::Fetched(Err(_)) => bare(Status::NotFound),
            _ => bare(Status::InternalServerError),
        },
        RequestView::Metrics { kind, id } => match outcome {
            OutcomeView::Fetched(Ok(entity)) => open_metrics(entity),
            OutcomeView::Fetched(Err(_)) => bare(Status::NotFound),
            _ => bare(Status::InternalServerError),
        },
        RequestView::Step { method, kind, delta, id } => match outcome {
            OutcomeView::Stepped(Ok(value)) => redirect(location_of(kind, id), decimal(value as int)),
            OutcomeView::Stepped(Err(_)) => bare(step_failure(method, delta)),
            _ => bare(Status::InternalServerError),
        },
        RequestView::StepShow { kind, delta, id, tag } => match outcome {
            OutcomeView::Stepped(Ok(value)) => shown(
                EntityView { kind, id, value, updated_at: now },
                tag,
            ),
            OutcomeView::Stepped(Err(_)) => bare(Status::NotFound),
            _ => bare(Status::InternalServerError),
        },
        RequestView::Total => match outcome {
            OutcomeView::Counted(Ok(total)) => plain(decimal(total as int)),
            _ => bare(Status::InternalServerError),
        },
        RequestView::Highest => match outcome {
            OutcomeView::Highest(Ok(value)) => plain(decimal(value as int)),
            _ => bare(Status::InternalServerError),
        },
    }
}

/// What the in-memory store answers to a query, and the table it is left
/// with. `now` stamps what the query writes.
pub open spec fn answered(table: Table, query: QueryView, now: Timestamp) -> (Table, OutcomeView) {
    match query {
        QueryView::Insert { kind, id, value } => (
            inserted_into(table, (kind, id), value, now),
            OutcomeView::Created(spec_created(kind, id, value, now, insert_reply(table, (kind, id)))),
        ),
        QueryView::Select { kind, id } => (
            table,
            OutcomeView::Fetched(spec_fetched(kind, id, select_reply(table, (kind, id)))),
        ),
        QueryView::Upsert { kind, id, delta } => (
            step_table(table, (kind, id), delta, now),
            OutcomeView::Stepped(step_result(table, (kind, id), delta)),
        ),
        QueryView::Count => (
            table,
            OutcomeView::Counted(Ok(table.dom().len() as u64)),
        ),
        QueryView::Max => (table, OutcomeView::Highest(highest_of(table))),
    }
}

/// Serving a request against a table: the table afterwards and the
/// response. A rejected request leaves the table as it was.
pub open spec fn served(table: Table, request: RequestView, fresh: Seq<char>, now: Timestamp) -> (
    Table,
    ResponseView,
) {
    match planned(request, fresh) {
        PlanView::Reject(response) => (table, response),
        PlanView::Ask(query) => (
            answered(table, query, now).0,
            concluded(request, answered(table, query, now).1, now),
        ),
    }
}

/// Checks a request that names an entity, before any store is consulted.
pub fn screen(kind: Kind, delta: Option<Delta>, id: &str) -> (result: Result<(), Error>)
    ensures
        result == screened(kind, delta, id@),
{
    match delta {
        Some(d) => {
            if !kind.permits(d) {
                return Err(Error::NotFound);
            }
        },
        None => {},
    }
    if !validate(id) {
        return Err(Error::InvalidIdentifier);
    }
    Ok(())
}

/// Plans a request, with `fresh` as the identifier a creation uses.
pub fn plan_with(request: &Request, fresh: String) -> (plan: Plan)
    ensures
        plan@ == planned(request@, fresh@),
{
    match request {
        Request::Create { kind } => Plan::Ask(Query::Insert { kind: *kind, id: fresh, value: 0 }),
        Request::Show { kind, id, format } => match screen(*kind, None, id.as_str()) {
            Ok(_) => Plan::Ask(Query::Select { kind: *kind, id: id.clone() }),
            Err(error) => Plan::Reject(Response::failure(error)),
        },
        Request::Metrics { kind, id } => match screen(*kind, None, id.as_str()) {
            Ok(_) => Plan::Ask(Query::Select { kind: *kind, id: id.clone() }),
            Err(error) => Plan::Reject(Response::failure(error)),
        },
        Request::Step { method, kind, delta, id } => match screen(*kind, Some(*delta), id.as_str()) {
            Ok(_) => Plan::Ask(Query::Upsert { kind: *kind, id: id.clone(), delta: *delta }),
            Err(error) => Plan::Reject(Response::failure(error)),
        },
        Request::StepShow { kind, delta, id, tag } => match screen(
            *kind,
            Some(*delta),
            id.as_str(),
        ) {
            Ok(_) => Plan::Ask(Query::Upsert { kind: *kind, id: id.clone(), delta: *delta }),
            Err(error) => Plan::Reject(Response::failure(error)),
        },
        Request::Total => Plan::Ask(Query::Count),
        Request::Highest => Plan::Ask(Query::Max),
    }
}

/// Plans a request. A creation is given a freshly generated identifier,
/// which is always an acceptable one.
pub fn plan(request: &Request) -> (plan: Plan)
    ensures
        request@ is Create ==> exists|fresh: Seq<char>|
            is_token(fresh, GENERATED_LENGTH as nat) && valid_identifier(fresh) && plan@
                == #[trigger] planned(request@, fresh),
        !(request@ is Create) ==> plan@ == planned(request@, Seq::empty()),
{
    match request {
        Request::Create { .. } => plan_with(request, generate()),
        _ => plan_with(request, String::new()),
    }
}

/// The rendering of an entity under a tag as a response.
pub fn show(entity: &Entity, tag: &str) -> (response: Response)
    ensures
        response@ == shown(entity@, tag@),
{
    match render(entity, tag) {
        Ok(response) => response,
        Err(error) => Response::failure(error),
    }
}

/// A redirect to where the entity is served, carrying `text`.
fn redirect_to(kind: Kind, id: &str, text: String) -> (response: Response)
    ensures
        response@ == redirect(location_of(kind, id@), text@),
{
    let mut target = kind.prefix().to_owned();
    target.append(id);
    Response::redirect(target, text)
}

/// Concludes a request from what the store answered, dating the rendering
/// of a freshly stepped value with `now`.
pub fn conclude_at(request: &Request, outcome: Outcome, now: Timestamp) -> (response: Response)
    ensures
        response@ == concluded(request@, outcome@, now),
{
    match request {
        Request::Create { kind } => match outcome {
            Outcome::Created(Ok(entity)) => redirect_to(
                *kind,
                entity.id(),
                entity.id().to_owned(),
            ),
            _ => Response::bare(Status::InternalServerError),
        },
        Request::Show { kind, id, format } => match outcome {
            Outcome::Fetched(Ok(entity)) => match format {
                Some(tag) => show(&entity, tag.as_str()),
                None => show(&entity, "txt"),
            },
            Outcome::Fetched(Err(_)) => Response::bare(Status::NotFound),
            _ => Response::bare(Status::InternalServerError),
        },
        Request::Metrics { kind, id } => match outcome {
            Outcome::Fetched(Ok(entity)) => render_open_metrics(&entity),
            Outcome::Fetched(Err(_)) => Response::bare(Status::NotFound),
            _ => Response::bare(Status::InternalServerError),
        },
        Request::Step { method, kind, delta, id } => match outcome {
            Outcome::Stepped(Ok(value)) => redirect_to(*kind, id.as_str(), signed_text(value)),
            Outcome::Stepped(Err(_)) => {
                let status = match (*method, *delta) {
                    (Method::Post, Delta::Increment) => Status::InternalServerError,
                    _ => Status::NotFound,
                };
                Response::bare(status)
            },
            _ => Response::bare(Status::InternalServerError),
        },
        Request::StepShow { kind, delta, id, tag } => match outcome {
            Outcome::Stepped(Ok(value)) => {
                let entity = Entity::with_timestamp(*kind, id.as_str(), value, now);
                show(&entity, tag.as_str())
            },
            Outcome::Stepped(Err(_)) => Response::bare(Status::NotFound),
            _ => Response::bare(Status::InternalServerError),
        },
        Request::Total => match outcome {
            Outcome::Counted(Ok(total)) => Response::plain(unsigned_text(total)),
            _ => Response::bare(Status::InternalServerError),
        },
        Request::Highest => match outcome {
            Outcome::Highest(Ok(value)) => Response::plain(signed_text(value)),
            _ => Response::bare(Status::InternalServerError),
        },
    }
}

/// Concludes a request from what the store answered. The rendering of a
/// freshly stepped value is dated with the current time; no other response
/// depends on it.
pub fn conclude(request: &Request, outcome: Outcome) -> (response: Response)
    ensures
        exists|now: Timestamp| response@ == #[trigger] concluded(request@, outcome@, now),
{
    let now = system_now();
    conclude_at(request, outcome, now)
}

/// Lets the in-memory store answer a query, stamping what it writes with
/// `now`.
pub fn answer_at(store: &mut Store, query: &Query, now: Timestamp) -> (outcome: Outcome)
    ensures
        (final(store)@, outcome@) == answered(old(store)@, query@, now),
{
    match query {
        Query::Insert { kind, id, value } => Outcome::Created(
            store.create_at(*kind, id.as_str(), *value, now),
        ),
        Query::Select { kind, id } => Outcome::Fetched(store.fetch(*kind, id.as_str())),
        Query::Upsert { kind, id, delta } => Outcome::Stepped(
            store.apply_delta_or_create_at(*kind, id.as_str(), *delta, now),
        ),
        Query::Count => Outcome::Counted(store.total_count()),
        Query::Max => Outcome::Highest(store.highest_value()),
    }
}

/// Serves a request against the in-memory store, with `fresh` as the
/// identifier a creation uses and `now` as the time of every write.
pub fn serve_at(store: &mut Store, request: &Request, fresh: String, now: Timestamp) -> (response:
    Response)
    ensures
        (final(store)@, response@) == served(old(store)@, request@, fresh@, now),
{
    match plan_with(request, fresh) {
        Plan::Reject(response) => response,
        Plan::Ask(query) => {
            let outcome = answer_at(store, &query, now);
            conclude_at(request, outcome, now)
        },
    }
}

/// Serves a request against the in-memory store. A creation draws a fresh
/// identifier, and writes are stamped with the current time.
pub fn serve(store: &mut Store, request: &Request) -> (response: Response)
    ensures
        exists|fresh: Seq<char>, now: Timestamp|
            (final(store)@, response@) == #[trigger] served(old(store)@, request@, fresh, now),
{
    let fresh = match request {
        Request::Create { .. } => generate(),
        _ => String::new(),
    };
    let now = system_now();
    serve_at(store, request, fresh, now)
}

/// The identifier a request names, if it names one.
pub open spec fn named(request: RequestView) -> Option<Seq<char>> {
    match request {
        RequestView::Show { id, .. } => Some(id),
        RequestView::Metrics { id, .. } => Some(id),
        RequestView::Step { id, .. } => Some(id),
        RequestView::StepShow { id, .. } => Some(id),
        _ => None,
    }
}

/// A request that names an unacceptable identifier is turned away before
/// the store is consulted: the table stays as it was, and the response
/// carries nothing but the status.
pub proof fn lemma_rejected_before_store(
    table: Table,
    request: RequestView,
    fresh: Seq<char>,
    now: Timestamp,
)
    requires
        named(request) matches Some(id) && !valid_identifier(id),
    ensures
        planned(request, fresh) is Reject,
        served(table, request, fresh, now).0 == table,
        served(table, request, fresh, now).1 == bare(Status::BadRequest) || served(
            table,
            request,
            fresh,
            now,
        ).1 == bare(Status::NotFound),
{
}

/// Whether a status announces a failure.
pub open spec fn is_failure(status: Status) -> bool {
    status != Status::Success && status != Status::SeeOther
}

/// A response that announces a failure has no content and no headers:
/// the status alone tells what went wrong.
pub proof fn lemma_failures_are_bare(
    table: Table,
    request: RequestView,
    fresh: Seq<char>,
    now: Timestamp,
)
    ensures
        is_failure(served(table, request, fresh, now).1.status) ==> served(
            table,
            request,
            fresh,
            now,
        ).1 == bare(served(table, request, fresh, now).1.status),
{
}

/// Showing an entity does not change the table, whatever the format.
pub proof fn lemma_reading_leaves_the_table(
    table: Table,
    request: RequestView,
    fresh: Seq<char>,
    now: Timestamp,
)
    requires
        request is Show || request is Metrics || request is Total || request is Highest,
    ensures
        served(table, request, fresh, now).0 == table,
{
}

} // verus!
