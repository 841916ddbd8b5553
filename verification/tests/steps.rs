use pessoas::date::Date;
use pessoas::handlers::{
    count_people, create_person, create_person_as, get_person, reject, search_people, Action,
    CountEvent, CreateEvent, GetEvent, SearchEvent, State,
};
use pessoas::ident::PersonId;
use pessoas::models::{PersonInput, PersonOutput, PersonRow, Q};
use pessoas::response::{Body, Response};
use pessoas::store::{Command, StoreFailure};

fn zeca() -> PersonInput {
    PersonInput {
        apelido: "zeca".to_string(),
        nome: "Jose".to_string(),
        nascimento: Date::new(1990, 1, 1).unwrap(),
        stack: Some(vec!["go".to_string(), "sql".to_string()]),
    }
}

fn zeca_row(id: PersonId) -> PersonRow {
    PersonRow {
        id,
        apelido: "zeca".to_string(),
        nome: "Jose".to_string(),
        nascimento: Date::new(1990, 1, 1).unwrap(),
        stack: Some(vec!["go".to_string(), "sql".to_string()]),
    }
}

fn unprocessable() -> Response {
    Response {
        status: 422,
        location: None,
        body: Body::Text("Unprocessable Entity".to_string()),
    }
}

fn internal_fault() -> Response {
    Response {
        status: 500,
        location: None,
        body: Body::Text("Internal Server Error".to_string()),
    }
}

fn failed(code: &str) -> StoreFailure {
    StoreFailure::Failed(Some(code.to_string()))
}

#[test]
fn creation_refuses_a_body_without_a_person() {
    let (state, action) = create_person(State::Receiving, CreateEvent::Body(None));
    assert_eq!(state, State::Closed);
    assert_eq!(action, Action::Respond(unprocessable()));
}

#[test]
fn creation_inserts_the_person_under_the_given_identifier() {
    let id = PersonId { value: 7 };
    let (state, action) = create_person_as(id, State::Receiving, CreateEvent::Body(Some(zeca())));
    assert_eq!(state, State::Inserting(id));
    assert_eq!(action, Action::Run(Command::Insert(zeca_row(id))));
}

#[test]
fn creation_draws_a_random_identifier() {
    let (state, action) = create_person(State::Receiving, CreateEvent::Body(Some(zeca())));
    let State::Inserting(id) = state else {
        panic!("the insert is not under way");
    };
    assert_eq!((id.value >> 76) & 0xf, 4);
    assert_eq!((id.value >> 62) & 0x3, 2);
    assert_eq!(action, Action::Run(Command::Insert(zeca_row(id))));
    let (other, _) = create_person(State::Receiving, CreateEvent::Body(Some(zeca())));
    assert_ne!(other, state);
}

#[test]
fn creation_answers_with_the_location_of_the_person() {
    let id = PersonId { value: 0x550e8400e29b41d4a716446655440000 };
    let (state, action) = create_person(State::Inserting(id), CreateEvent::Stored(Ok(())));
    assert_eq!(state, State::Closed);
    assert_eq!(
        action,
        Action::Respond(Response {
            status: 201,
            location: Some("/pessoas/550e8400-e29b-41d4-a716-446655440000".to_string()),
            body: Body::Empty,
        })
    );
}

#[test]
fn creation_refuses_what_breaks_a_constraint() {
    let id = PersonId { value: 7 };
    for code in ["23505", "23000", "23502", "23514"] {
        let (state, action) =
            create_person(State::Inserting(id), CreateEvent::Stored(Err(failed(code))));
        assert_eq!(state, State::Closed);
        assert_eq!(action, Action::Respond(unprocessable()), "{code}");
    }
}

#[test]
fn creation_reports_other_failures_as_faults() {
    let id = PersonId { value: 7 };
    let failures = [
        failed("42601"),
        failed("08006"),
        failed("22001"),
        StoreFailure::Failed(None),
        StoreFailure::Unavailable,
    ];
    for failure in failures {
        let (state, action) =
            create_person(State::Inserting(id), CreateEvent::Stored(Err(failure)));
        assert_eq!(state, State::Closed);
        assert_eq!(action, Action::Respond(internal_fault()));
    }
}

#[test]
fn reject_follows_the_class_of_the_failure() {
    assert_eq!(reject(&failed("23505")), unprocessable());
    assert_eq!(reject(&failed("23503")), unprocessable());
    assert_eq!(reject(&failed("57014")), internal_fault());
    assert_eq!(reject(&StoreFailure::Unavailable), internal_fault());
}

#[test]
fn creation_out_of_step_is_a_fault() {
    let id = PersonId { value: 7 };
    let cases = [
        (State::Receiving, CreateEvent::Stored(Ok(()))),
        (State::Inserting(id), CreateEvent::Body(Some(zeca()))),
        (State::Inserting(id), CreateEvent::Body(None)),
        (State::Querying, CreateEvent::Stored(Ok(()))),
        (State::Closed, CreateEvent::Body(Some(zeca()))),
        (State::Closed, CreateEvent::Stored(Ok(()))),
    ];
    for (state, event) in cases {
        let (next, action) = create_person(state, event);
        assert_eq!(next, State::Closed);
        assert_eq!(action, Action::Respond(internal_fault()));
    }
}

#[test]
fn lookup_asks_the_store_for_the_identifier() {
    let path = "550e8400-e29b-41d4-a716-446655440000".to_string();
    let (state, action) = get_person(State::Receiving, GetEvent::Path(path));
    assert_eq!(state, State::Querying);
    assert_eq!(
        action,
        Action::Run(Command::SelectById(PersonId { value: 0x550e8400e29b41d4a716446655440000 }))
    );
}

#[test]
fn lookup_of_what_is_no_identifier_is_a_fault() {
    for path in ["", "zeca", "123", "550e8400-e29b-41d4-a716-44665544000z"] {
        let (state, action) = get_person(State::Receiving, GetEvent::Path(path.to_string()));
        assert_eq!(state, State::Closed);
        assert_eq!(action, Action::Respond(internal_fault()), "{path}");
    }
}

#[test]
fn lookup_answers_with_the_person() {
    let id = PersonId { value: 0x550e8400e29b41d4a716446655440000 };
    let (state, action) = get_person(State::Querying, GetEvent::Found(Ok(Some(zeca_row(id)))));
    assert_eq!(state, State::Closed);
    assert_eq!(
        action,
        Action::Respond(Response {
            status: 200,
            location: None,
            body: Body::Person(PersonOutput {
                id: "550e8400-e29b-41d4-a716-446655440000".to_string(),
                apelido: "zeca".to_string(),
                nome: "Jose".to_string(),
                nascimento: Date::new(1990, 1, 1).unwrap(),
                stack: Some(vec!["go".to_string(), "sql".to_string()]),
            }),
        })
    );
}

#[test]
fn lookup_of_an_unknown_identifier_is_not_found() {
    let (state, action) = get_person(State::Querying, GetEvent::Found(Ok(None)));
    assert_eq!(state, State::Closed);
    assert_eq!(
        action,
        Action::Respond(Response { status: 404, location: None, body: Body::Empty })
    );
}

#[test]
fn lookup_reports_a_failure_of_the_store_as_a_fault() {
    for failure in [failed("23505"), failed("42601"), StoreFailure::Unavailable] {
        let (state, action) = get_person(State::Querying, GetEvent::Found(Err(failure)));
        assert_eq!(state, State::Closed);
        assert_eq!(action, Action::Respond(internal_fault()));
    }
}

#[test]
fn search_hands_the_term_to_the_store() {
    for term in ["zec", "", "%", "a b"] {
        let q = Q { t: term.to_string() };
        let (state, action) = search_people(State::Receiving, SearchEvent::Query(q));
        assert_eq!(state, State::Querying);
        assert_eq!(action, Action::Run(Command::SelectLike(term.to_string())));
    }
}

#[test]
fn search_answers_with_the_persons_in_the_order_of_the_store() {
    let first = PersonId { value: 1 };
    let second = PersonId { value: 2 };
    let mut other = zeca_row(second);
    other.apelido = "ana".to_string();
    other.stack = None;
    let rows = vec![zeca_row(first), other.clone()];
    let (state, action) = search_people(State::Querying, SearchEvent::Matched(Ok(rows)));
    assert_eq!(state, State::Closed);
    let Action::Respond(response) = action else {
        panic!("no answer");
    };
    assert_eq!(response.status, 200);
    assert_eq!(response.location, None);
    assert_eq!(
        response.body,
        Body::People(vec![
            PersonOutput::from_row(zeca_row(first)),
            PersonOutput::from_row(other),
        ])
    );
    let Body::People(people) = response.body else {
        panic!("no list");
    };
    assert_eq!(people[0].id, "00000000-0000-0000-0000-000000000001");
    assert_eq!(people[1].id, "00000000-0000-0000-0000-000000000002");
    assert_eq!(people[1].apelido, "ana");
    assert_eq!(people[1].stack, None);
}

#[test]
fn search_without_a_match_answers_with_an_empty_list() {
    let (state, action) = search_people(State::Querying, SearchEvent::Matched(Ok(Vec::new())));
    assert_eq!(state, State::Closed);
    assert_eq!(
        action,
        Action::Respond(Response { status: 200, location: None, body: Body::People(Vec::new()) })
    );
}

#[test]
fn search_reports_a_failure_of_the_store_as_a_fault() {
    let (state, action) =
        search_people(State::Querying, SearchEvent::Matched(Err(StoreFailure::Unavailable)));
    assert_eq!(state, State::Closed);
    assert_eq!(action, Action::Respond(internal_fault()));
}

#[test]
fn count_asks_the_store_and_answers_with_its_text() {
    let (state, action) = count_people(State::Receiving, CountEvent::Asked);
    assert_eq!(state, State::Querying);
    assert_eq!(action, Action::Run(Command::CountAll));
    let (state, action) = count_people(state, CountEvent::Counted(Ok("42".to_string())));
    assert_eq!(state, State::Closed);
    assert_eq!(
        action,
        Action::Respond(Response {
            status: 200,
            location: None,
            body: Body::Text("42".to_string()),
        })
    );
}

#[test]
fn count_reports_a_failure_of_the_store_as_a_fault() {
    let (state, action) =
        count_people(State::Querying, CountEvent::Counted(Err(StoreFailure::Failed(None))));
    assert_eq!(state, State::Closed);
    assert_eq!(action, Action::Respond(internal_fault()));
}

#[test]
fn reads_out_of_step_are_faults() {
    let (state, action) = get_person(State::Receiving, GetEvent::Found(Ok(None)));
    assert_eq!((state, action), (State::Closed, Action::Respond(internal_fault())));
    let (state, action) = get_person(State::Closed, GetEvent::Path("x".to_string()));
    assert_eq!((state, action), (State::Closed, Action::Respond(internal_fault())));
    let (state, action) = search_people(State::Receiving, SearchEvent::Matched(Ok(Vec::new())));
    assert_eq!((state, action), (State::Closed, Action::Respond(internal_fault())));
    let (state, action) =
        search_people(State::Querying, SearchEvent::Query(Q { t: "a".to_string() }));
    assert_eq!((state, action), (State::Closed, Action::Respond(internal_fault())));
    let (state, action) = count_people(State::Receiving, CountEvent::Counted(Ok("1".to_string())));
    assert_eq!((state, action), (State::Closed, Action::Respond(internal_fault())));
    let (state, action) = count_people(State::Querying, CountEvent::Asked);
    assert_eq!((state, action), (State::Closed, Action::Respond(internal_fault())));
}

#[test]
fn insert_statement_has_its_text() {
    let command = Command::Insert(zeca_row(PersonId { value: 1 }));
    assert_eq!(
        command.sql(),
        "insert into people (id, apelido, nome, nascimento, stack) values ($1, $2, $3, $4, $5)"
    );
}
