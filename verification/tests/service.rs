use counters::entity::{Delta, Entity, Kind, Timestamp};
use counters::error::Error;
use counters::response::{Asset, Body, MediaType, Response, Status};
use counters::service::{
    answer_at, conclude, conclude_at, plan, plan_with, screen, serve, serve_at, show, Method,
    Outcome, Plan, Query, Request,
};
use counters::store::Store;

fn t(secs: i64) -> Timestamp {
    Timestamp { secs, nanos: 0 }
}

fn text(s: &str) -> Body {
    Body::Text(s.to_string())
}

fn show_request(kind: Kind, id: &str, format: Option<&str>) -> Request {
    Request::Show { kind, id: id.to_string(), format: format.map(|f| f.to_string()) }
}

fn step_request(method: Method, kind: Kind, delta: Delta, id: &str) -> Request {
    Request::Step { method, kind, delta, id: id.to_string() }
}

fn redirect(target: &str, body: &str) -> Response {
    Response {
        status: Status::SeeOther,
        content_type: Some(MediaType::PlainText),
        location: Some(target.to_string()),
        last_modified: None,
        body: text(body),
    }
}

#[test]
fn an_invalid_identifier_is_rejected_before_the_store() {
    for id in ["", "caf\u{e9}", &"x".repeat(255)] {
        let requests = vec![
            show_request(Kind::Counter, id, None),
            show_request(Kind::Gauge, id, Some("png")),
            Request::Metrics { kind: Kind::Counter, id: id.to_string() },
            step_request(Method::Get, Kind::Counter, Delta::Increment, id),
            step_request(Method::Post, Kind::Gauge, Delta::Decrement, id),
            Request::StepShow {
                kind: Kind::Gauge,
                delta: Delta::Increment,
                id: id.to_string(),
                tag: "txt".to_string(),
            },
        ];
        for request in requests {
            assert_eq!(plan(&request), Plan::Reject(Response::bare(Status::BadRequest)));
        }
    }
}

#[test]
fn a_rejected_request_leaves_the_store_alone() {
    let mut store = Store::new();
    let request = step_request(Method::Post, Kind::Counter, Delta::Increment, "");
    let response = serve(&mut store, &request);
    assert_eq!(response, Response::bare(Status::BadRequest));
    assert_eq!(response.status.code(), 400);
    assert_eq!(store.total_count(), Ok(0));
}

#[test]
fn counters_offer_no_decrement() {
    let request = step_request(Method::Get, Kind::Counter, Delta::Decrement, "abc");
    assert_eq!(plan(&request), Plan::Reject(Response::bare(Status::NotFound)));
    assert_eq!(screen(Kind::Counter, Some(Delta::Decrement), "abc"), Err(Error::NotFound));
    assert_eq!(screen(Kind::Counter, Some(Delta::Decrement), ""), Err(Error::NotFound));
    assert_eq!(screen(Kind::Gauge, Some(Delta::Decrement), ""), Err(Error::InvalidIdentifier));
    assert_eq!(screen(Kind::Gauge, None, "\u{e9}"), Err(Error::InvalidIdentifier));
    assert_eq!(Response::failure(Error::InvalidIdentifier), Response::bare(Status::BadRequest));
    assert_eq!(screen(Kind::Gauge, Some(Delta::Decrement), "abc"), Ok(()));
    assert_eq!(screen(Kind::Counter, None, "abc"), Ok(()));
}

#[test]
fn requests_become_queries() {
    assert_eq!(
        plan(&show_request(Kind::Counter, "abc", None)),
        Plan::Ask(Query::Select { kind: Kind::Counter, id: "abc".to_string() })
    );
    assert_eq!(
        plan(&Request::Metrics { kind: Kind::Gauge, id: "abc".to_string() }),
        Plan::Ask(Query::Select { kind: Kind::Gauge, id: "abc".to_string() })
    );
    assert_eq!(
        plan(&step_request(Method::Post, Kind::Gauge, Delta::Decrement, "abc")),
        Plan::Ask(Query::Upsert {
            kind: Kind::Gauge,
            id: "abc".to_string(),
            delta: Delta::Decrement
        })
    );
    assert_eq!(plan(&Request::Total), Plan::Ask(Query::Count));
    assert_eq!(plan(&Request::Highest), Plan::Ask(Query::Max));
    assert_eq!(
        plan_with(&Request::Create { kind: Kind::Gauge }, "fresh0000000".to_string()),
        Plan::Ask(Query::Insert { kind: Kind::Gauge, id: "fresh0000000".to_string(), value: 0 })
    );
}

#[test]
fn a_creation_is_planned_with_a_generated_identifier() {
    match plan(&Request::Create { kind: Kind::Counter }) {
        Plan::Ask(Query::Insert { kind, id, value }) => {
            assert_eq!(kind, Kind::Counter);
            assert_eq!(value, 0);
            assert_eq!(id.len(), 12);
            assert!(counters::ident::validate(&id));
        }
        other => panic!("unexpected plan {:?}", other),
    }
}

#[test]
fn a_creation_redirects_to_the_new_entity() {
    let entity = Entity::with_timestamp(Kind::Counter, "AbC_-0123456", 0, t(1));
    let response = conclude(&Request::Create { kind: Kind::Counter }, Outcome::Created(Ok(entity)));
    assert_eq!(response, redirect("/c/AbC_-0123456", "AbC_-0123456"));
    assert_eq!(response.status.code(), 303);
    let entity = Entity::with_timestamp(Kind::Gauge, "xyz", 0, t(1));
    let response = conclude(&Request::Create { kind: Kind::Gauge }, Outcome::Created(Ok(entity)));
    assert_eq!(response, redirect("/g/xyz", "xyz"));
}

#[test]
fn a_failed_creation_is_an_internal_error() {
    let response = conclude(
        &Request::Create { kind: Kind::Counter },
        Outcome::Created(Err(Error::StoreError)),
    );
    assert_eq!(response, Response::bare(Status::InternalServerError));
    assert_eq!(response.status.code(), 500);
}

#[test]
fn show_without_a_format_is_plain_text() {
    let entity = Entity::with_timestamp(Kind::Counter, "abc", 12, t(50));
    let response = conclude(&show_request(Kind::Counter, "abc", None), Outcome::Fetched(Ok(entity)));
    assert_eq!(
        response,
        Response {
            status: Status::Success,
            content_type: Some(MediaType::PlainText),
            location: None,
            last_modified: Some(t(50)),
            body: text("12"),
        }
    );
}

#[test]
fn show_with_a_format_uses_it() {
    let entity = Entity::with_timestamp(Kind::Gauge, "abc", 12, t(50));
    let response = conclude(
        &show_request(Kind::Gauge, "abc", Some("gif")),
        Outcome::Fetched(Ok(entity)),
    );
    assert_eq!(response.body, Body::Asset(Asset::Gif));
    assert_eq!(response.content_type, Some(MediaType::Gif));
    assert_eq!(response.last_modified, Some(t(50)));
}

#[test]
fn show_with_an_unknown_format_is_not_found() {
    let entity = Entity::with_timestamp(Kind::Gauge, "abc", 12, t(50));
    let response = conclude(
        &show_request(Kind::Gauge, "abc", Some("unknown-ext")),
        Outcome::Fetched(Ok(entity.clone())),
    );
    assert_eq!(response, Response::bare(Status::NotFound));
    assert_eq!(show(&entity, "bmp"), Response::bare(Status::NotFound));
}

#[test]
fn show_of_a_missing_entity_is_not_found() {
    for error in [Error::NotFound, Error::StoreError] {
        let response =
            conclude(&show_request(Kind::Counter, "abc", Some("txt")), Outcome::Fetched(Err(error)));
        assert_eq!(response, Response::bare(Status::NotFound));
        let response = conclude(
            &Request::Metrics { kind: Kind::Counter, id: "abc".to_string() },
            Outcome::Fetched(Err(error)),
        );
        assert_eq!(response, Response::bare(Status::NotFound));
    }
}

#[test]
fn metrics_show_the_exposition() {
    let entity = Entity::with_timestamp(Kind::Gauge, "load", 3, t(50));
    let response = conclude(
        &Request::Metrics { kind: Kind::Gauge, id: "load".to_string() },
        Outcome::Fetched(Ok(entity)),
    );
    assert_eq!(response.body, text("# TYPE load gauge\nload_count 3"));
    assert_eq!(response.content_type, Some(MediaType::OpenMetrics));
    assert_eq!(response.status, Status::Success);
}

#[test]
fn a_step_redirects_to_the_entity_with_the_new_value() {
    let request = step_request(Method::Get, Kind::Counter, Delta::Increment, "abc");
    assert_eq!(conclude(&request, Outcome::Stepped(Ok(8))), redirect("/c/abc", "8"));
    let request = step_request(Method::Post, Kind::Gauge, Delta::Decrement, "abc");
    assert_eq!(conclude(&request, Outcome::Stepped(Ok(-8))), redirect("/g/abc", "-8"));
}

#[test]
fn only_a_posted_increment_reports_a_store_failure_as_such() {
    let failed = || Outcome::Stepped(Err(Error::StoreError));
    let status = |request: Request| conclude(&request, failed()).status;
    assert_eq!(
        status(step_request(Method::Post, Kind::Counter, Delta::Increment, "a")),
        Status::InternalServerError
    );
    assert_eq!(
        status(step_request(Method::Post, Kind::Gauge, Delta::Increment, "a")),
        Status::InternalServerError
    );
    assert_eq!(
        status(step_request(Method::Post, Kind::Gauge, Delta::Decrement, "a")),
        Status::NotFound
    );
    assert_eq!(
        status(step_request(Method::Get, Kind::Counter, Delta::Increment, "a")),
        Status::NotFound
    );
    assert_eq!(
        status(step_request(Method::Get, Kind::Gauge, Delta::Increment, "a")),
        Status::NotFound
    );
    assert_eq!(
        status(step_request(Method::Get, Kind::Gauge, Delta::Decrement, "a")),
        Status::NotFound
    );
    let response =
        conclude(&step_request(Method::Post, Kind::Gauge, Delta::Increment, "a"), failed());
    assert_eq!(response, Response::bare(Status::InternalServerError));
}

#[test]
fn a_step_can_be_shown_in_a_format() {
    let request = Request::StepShow {
        kind: Kind::Counter,
        delta: Delta::Increment,
        id: "abc".to_string(),
        tag: "json".to_string(),
    };
    let response = conclude_at(&request, Outcome::Stepped(Ok(5)), t(77));
    assert_eq!(
        response,
        Response {
            status: Status::Success,
            content_type: Some(MediaType::Json),
            location: None,
            last_modified: Some(t(77)),
            body: text("5"),
        }
    );
    let response = conclude(&request, Outcome::Stepped(Ok(5)));
    assert_eq!(response.body, text("5"));
    assert!(response.last_modified.unwrap().secs > 1_577_836_800);
    let response = conclude(&request, Outcome::Stepped(Err(Error::StoreError)));
    assert_eq!(response, Response::bare(Status::NotFound));
}

#[test]
fn a_step_shown_in_an_unknown_format_is_not_found() {
    let request = Request::StepShow {
        kind: Kind::Counter,
        delta: Delta::Increment,
        id: "abc".to_string(),
        tag: "exe".to_string(),
    };
    assert_eq!(conclude(&request, Outcome::Stepped(Ok(5))), Response::bare(Status::NotFound));
}

#[test]
fn aggregates_are_plain_numbers() {
    let response = conclude(&Request::Total, Outcome::Counted(Ok(12)));
    assert_eq!(
        response,
        Response {
            status: Status::Success,
            content_type: None,
            location: None,
            last_modified: None,
            body: text("12"),
        }
    );
    assert_eq!(conclude(&Request::Highest, Outcome::Highest(Ok(-4))).body, text("-4"));
    assert_eq!(
        conclude(&Request::Total, Outcome::Counted(Err(Error::StoreError))),
        Response::bare(Status::InternalServerError)
    );
    assert_eq!(
        conclude(&Request::Highest, Outcome::Highest(Err(Error::StoreError))),
        Response::bare(Status::InternalServerError)
    );
}

#[test]
fn an_answer_to_another_request_is_an_internal_error() {
    assert_eq!(
        conclude(&Request::Total, Outcome::Stepped(Ok(1))),
        Response::bare(Status::InternalServerError)
    );
    assert_eq!(
        conclude(&show_request(Kind::Counter, "a", None), Outcome::Counted(Ok(1))),
        Response::bare(Status::InternalServerError)
    );
}

#[test]
fn queries_are_answered_by_the_store() {
    let mut store = Store::new();
    let insert = Query::Insert { kind: Kind::Counter, id: "a".to_string(), value: 0 };
    assert_eq!(
        answer_at(&mut store, &insert, t(1)),
        Outcome::Created(Ok(Entity::with_timestamp(Kind::Counter, "a", 0, t(1))))
    );
    assert_eq!(answer_at(&mut store, &insert, t(2)), Outcome::Created(Err(Error::StoreError)));
    let upsert = Query::Upsert { kind: Kind::Counter, id: "a".to_string(), delta: Delta::Increment };
    assert_eq!(answer_at(&mut store, &upsert, t(3)), Outcome::Stepped(Ok(1)));
    let select = Query::Select { kind: Kind::Counter, id: "a".to_string() };
    assert_eq!(
        answer_at(&mut store, &select, t(4)),
        Outcome::Fetched(Ok(Entity::with_timestamp(Kind::Counter, "a", 1, t(3))))
    );
    assert_eq!(answer_at(&mut store, &Query::Count, t(5)), Outcome::Counted(Ok(1)));
    assert_eq!(answer_at(&mut store, &Query::Max, t(5)), Outcome::Highest(Ok(1)));
}

#[test]
fn serving_end_to_end() {
    let mut store = Store::new();
    // Nothing is stored yet.
    assert_eq!(serve(&mut store, &Request::Total).body, text("0"));
    assert_eq!(serve(&mut store, &Request::Highest), Response::bare(Status::InternalServerError));
    assert_eq!(
        serve(&mut store, &show_request(Kind::Counter, "hits", None)),
        Response::bare(Status::NotFound)
    );
    // The first step creates the entity at one.
    let step = step_request(Method::Post, Kind::Counter, Delta::Increment, "hits");
    assert_eq!(serve(&mut store, &step), redirect("/c/hits", "1"));
    assert_eq!(serve(&mut store, &step), redirect("/c/hits", "2"));
    let down = step_request(Method::Get, Kind::Gauge, Delta::Decrement, "temp");
    assert_eq!(serve(&mut store, &down), redirect("/g/temp", "1"));
    assert_eq!(serve(&mut store, &down), redirect("/g/temp", "0"));
    assert_eq!(serve(&mut store, &down), redirect("/g/temp", "-1"));
    // Shown as text and as an exposition.
    assert_eq!(serve(&mut store, &show_request(Kind::Counter, "hits", None)).body, text("2"));
    assert_eq!(
        serve(&mut store, &show_request(Kind::Gauge, "temp", Some("json"))).body,
        text("-1")
    );
    assert_eq!(
        serve(&mut store, &Request::Metrics { kind: Kind::Counter, id: "hits".to_string() }).body,
        text("# TYPE hits counter\nhits_count 2")
    );
    // A created entity starts at zero and is counted.
    let created = serve(&mut store, &Request::Create { kind: Kind::Gauge });
    assert_eq!(created.status, Status::SeeOther);
    let id = match &created.body {
        Body::Text(id) => id.clone(),
        Body::Asset(_) => panic!("text expected"),
    };
    assert_eq!(created.location, Some(format!("/g/{}", id)));
    assert_eq!(serve(&mut store, &show_request(Kind::Gauge, &id, None)).body, text("0"));
    assert_eq!(serve(&mut store, &Request::Total).body, text("3"));
    assert_eq!(serve(&mut store, &Request::Highest).body, text("2"));
}

#[test]
fn serving_with_given_identifier_and_time() {
    let mut store = Store::new();
    let response =
        serve_at(&mut store, &Request::Create { kind: Kind::Counter }, "abcdefghijkl".to_string(), t(5));
    assert_eq!(response, redirect("/c/abcdefghijkl", "abcdefghijkl"));
    let again =
        serve_at(&mut store, &Request::Create { kind: Kind::Counter }, "abcdefghijkl".to_string(), t(6));
    assert_eq!(again, Response::bare(Status::InternalServerError));
    let request = Request::StepShow {
        kind: Kind::Counter,
        delta: Delta::Increment,
        id: "abcdefghijkl".to_string(),
        tag: "txt".to_string(),
    };
    let response = serve_at(&mut store, &request, String::new(), t(7));
    assert_eq!(response.body, text("1"));
    assert_eq!(response.last_modified, Some(t(7)));
    assert_eq!(
        store.fetch(Kind::Counter, "abcdefghijkl"),
        Ok(Entity::with_timestamp(Kind::Counter, "abcdefghijkl", 1, t(7)))
    );
}
