//! The four operations of the service, each as a machine that is driven from
//! outside: it is handed what came in (the request, then what the store
//! replied) and says what to do next (run a statement, or answer).

use crate::ident::{is_random_form, PersonId};
use crate::models::{
    persons, shown, shown_all, Person, PersonFields, PersonInput, PersonOutput, PersonRow, Q,
};
use crate::response::{
    created, internal_fault, not_found, ok_people, ok_person, ok_text, unprocessable, Answer,
    Response,
};
use crate::store::{class_of, classify, Command, Failure, FailureClass, Statement, StoreFailure};
use vstd::prelude::*;

verus! {

/// Where an operation stands.
#[derive(Clone, Copy, Debug, PartialEq, Eq, Structural)]
pub enum State {
    /// The request has not come in yet.
    Receiving,
    /// The insert of the person with this identifier is with the store.
    Inserting(PersonId),
    /// A select is with the store.
    Querying,
    /// The answer is given.
    Closed,
}

/// What an operation asks of its driver.
#[derive(Clone, Debug, PartialEq, Eq)]
pub enum Action {
    /// Run the statement and come back with the store's reply.
    Run(Command),
    /// Send the answer; the operation is over.
    Respond(Response),
}

/// An action as a mathematical value.
pub enum Move {
    Run(Statement),
    Respond(Answer),
}

impl View for Action {
    type V = Move;

    open spec fn view(&self) -> Move {
        match self {
            Action::Run(command) => Move::Run(command@),
            Action::Respond(response) => Move::Respond(response@),
        }
    }
}

/// The view of what a statement without rows brought.
pub open spec fn done_view(result: Result<(), StoreFailure>) -> Result<(), Failure> {
    match result {
        Ok(_) => Ok(()),
        Err(failure) => Err(failure@),
    }
}

/// What comes in to a creation.
#[derive(Debug, PartialEq, Eq)]
pub enum CreateEvent {
    /// The body of the request: the person that it holds, or none where the
    /// body does not hold one.
    Body(Option<PersonInput>),
    /// What the store made of the insert.
    Stored(Result<(), StoreFailure>),
}

pub enum CreateInput {
    Body(Option<PersonFields>),
    Stored(Result<(), Failure>),
}

impl View for CreateEvent {
    type V = CreateInput;

    open spec fn view(&self) -> CreateInput {
        match self {
            CreateEvent::Body(Some(input)) => CreateInput::Body(Some(input@)),
            CreateEvent::Body(None) => CreateInput::Body(None),
            CreateEvent::Stored(result) => CreateInput::Stored(done_view(*result)),
        }
    }
}

/// What comes in to a lookup.
#[derive(Debug, PartialEq, Eq)]
pub enum GetEvent {
    /// The identifier as the path of the request gives it.
    Path(String),
    /// What the store found: the person, or none.
    Found(Result<Option<PersonRow>, StoreFailure>),
}

pub enum GetInput {
    Path(Seq<char>),
    Found(Result<Option<Person>, Failure>),
}

impl View for GetEvent {
    type V = GetInput;

    open spec fn view(&self) -> GetInput {
        match self {
            GetEvent::Path(text) => GetInput::Path(text@),
            GetEvent::Found(Ok(Some(row))) => GetInput::Found(Ok(Some(row@))),
            GetEvent::Found(Ok(None)) => GetInput::Found(Ok(None)),
            GetEvent::Found(Err(failure)) => GetInput::Found(Err(failure@)),
        }
    }
}

/// What comes in to a search.
#[derive(Debug, PartialEq, Eq)]
pub enum SearchEvent {
    /// The query of the request.
    Query(Q),
    /// The persons that the store found, in its order.
    Matched(Result<Vec<PersonRow>, StoreFailure>),
}

pub enum SearchInput {
    Query(Seq<char>),
    Matched(Result<Seq<Person>, Failure>),
}

impl View for SearchEvent {
    type V = SearchInput;

    open spec fn view(&self) -> SearchInput {
        match self {
            SearchEvent::Query(q) => SearchInput::Query(q@),
            SearchEvent::Matched(Ok(rows)) => SearchInput::Matched(Ok(persons(rows@))),
            SearchEvent::Matched(Err(failure)) => SearchInput::Matched(Err(failure@)),
        }
    }
}

/// What comes in to a count.
#[derive(Debug, PartialEq, Eq)]
pub enum CountEvent {
    /// The request, which carries nothing.
    Asked,
    /// The number of persons as the store wrote it.
    Counted(Result<String, StoreFailure>),
}

pub enum CountInput {
    Asked,
    Counted(Result<Seq<char>, Failure>),
}

impl View for CountEvent {
    type V = CountInput;

    open spec fn view(&self) -> CountInput {
        match self {
            CountEvent::Asked => CountInput::Asked,
            CountEvent::Counted(Ok(text)) => CountInput::Counted(Ok(text@)),
            CountEvent::Counted(Err(failure)) => CountInput::Counted(Err(failure@)),
        }
    }
}

/// The end of an operation that was handed what it does not expect where it
/// stands.
pub open spec fn fault() -> (State, Move) {
    (State::Closed, Move::Respond(internal_fault()))
}

/// The answer to a creation whose insert failed: a broken constraint is the
/// request's fault, anything else the service's.
pub open spec fn rejection(failure: Failure) -> Answer {
    match class_of(failure) {
        FailureClass::UniqueViolation => unprocessable(),
        FailureClass::IntegrityViolation => unprocessable(),
        FailureClass::Other => internal_fault(),
    }
}

/// One step of a creation. `fresh` is the identifier that a new person gets.
///
/// A body without a person is refused before the store is touched. A person
/// is inserted under the fresh identifier. When the store has it, the answer
/// gives its location.
pub open spec fn create_step(state: State, input: CreateInput, fresh: u128) -> (State, Move) {
    match (state, input) {
        (State::Receiving, CreateInput::Body(None)) => (
            State::Closed,
            Move::Respond(unprocessable()),
        ),
        (State::Receiving, CreateInput::Body(Some(fields))) => (
            State::Inserting(PersonId { value: fresh }),
            Move::Run(Statement::Insert(Person { id: fresh, fields })),
        ),
        (State::Inserting(id), CreateInput::Stored(Ok(_))) => (
            State::Closed,
            Move::Respond(created(id.value)),
        ),
        (State::Inserting(_), CreateInput::Stored(Err(failure))) => (
            State::Closed,
            Move::Respond(rejection(failure)),
        ),
        _ => fault(),
    }
}

/// One step of a lookup. A path that is no identifier is answered as a
/// fault of the service; an identifier that the store does not have, as not
/// found.
pub open spec fn get_step(state: State, input: GetInput) -> (State, Move) {
    match (state, input) {
        (State::Receiving, GetInput::Path(text)) => match PersonId::parsed(text) {
            Some(id) => (State::Querying, Move::Run(Statement::SelectById(id.value))),
            None => fault(),
        },
        (State::Querying, GetInput::Found(Ok(Some(person)))) => (
            State::Closed,
            Move::Respond(ok_person(shown(person))),
        ),
        (State::Querying, GetInput::Found(Ok(None))) => (State::Closed, Move::Respond(not_found())),
        _ => fault(),
    }
}

/// One step of a search. The term goes to the store as it is, the empty one
/// too.
pub open spec fn search_step(state: State, input: SearchInput) -> (State, Move) {
    match (state, input) {
        (State::Receiving, SearchInput::Query(term)) => (
            State::Querying,
            Move::Run(Statement::SelectLike(term)),
        ),
        (State::Querying, SearchInput::Matched(Ok(people))) => (
            State::Closed,
            Move::Respond(ok_people(shown_all(people))),
        ),
        _ => fault(),
    }
}

/// One step of a count. The answer is the number as the store wrote it.
pub open spec fn count_step(state: State, input: CountInput) -> (State, Move) {
    match (state, input) {
        (State::Receiving, CountInput::Asked) => (State::Querying, Move::Run(Statement::CountAll)),
        (State::Querying, CountInput::Counted(Ok(text))) => (
            State::Closed,
            Move::Respond(ok_text(text)),
        ),
        _ => fault(),
    }
}

/// Whether a step of a creation draws a fresh identifier.
pub open spec fn draws_identifier(state: State, input: CreateInput) -> bool {
    state is Receiving && input matches CreateInput::Body(Some(_))
}

fn faulted() -> (step: (State, Action))
    ensures
        (step.0, step.1@) == fault(),
{
    (State::Closed, Action::Respond(Response::internal_fault()))
}

/// The answer to a creation whose insert failed.
pub fn reject(failure: &StoreFailure) -> (response: Response)
    ensures
        response@ == rejection(failure@),
{
    match classify(failure) {
        FailureClass::UniqueViolation => Response::unprocessable(),
        FailureClass::IntegrityViolation => Response::unprocessable(),
        FailureClass::Other => Response::internal_fault(),
    }
}

/// One step of a creation, with the identifier to give to a new person.
pub fn create_person_as(fresh: PersonId, state: State, event: CreateEvent) -> (step: (
    State,
    Action,
))
    ensures
        (step.0, step.1@) == create_step(state, event@, fresh.value),
{
    match (state, event) {
        (State::Receiving, CreateEvent::Body(None)) => (
            State::Closed,
            Action::Respond(Response::unprocessable()),
        ),
        (State::Receiving, CreateEvent::Body(Some(input))) => (
            State::Inserting(fresh),
            Action::Run(Command::Insert(PersonRow::from_input(fresh, input))),
        ),
        (State::Inserting(id), CreateEvent::Stored(Ok(_))) => (
            State::Closed,
            Action::Respond(Response::created(id)),
        ),
        (State::Inserting(_), CreateEvent::Stored(Err(failure))) => (
            State::Closed,
            Action::Respond(reject(&failure)),
        ),
        _ => faulted(),
    }
}

/// One step of a creation. Where the step records a new person, it does so
/// under a random identifier, drawn here, which the next state keeps.
pub fn create_person(state: State, event: CreateEvent) -> (step: (State, Action))
    ensures
        draws_identifier(state, event@) ==> (step.0 matches State::Inserting(id) && is_random_form(
            id.value,
        ) && (step.0, step.1@) == create_step(state, event@, id.value)),
        !draws_identifier(state, event@) ==> (step.0, step.1@) == create_step(state, event@, 0),
{
    let needs_identifier = match (&state, &event) {
        (State::Receiving, CreateEvent::Body(Some(_))) => true,
        _ => false,
    };
    let fresh = if needs_identifier {
        PersonId::fresh()
    } else {
        PersonId { value: 0 }
    };
    create_person_as(fresh, state, event)
}

/// One step of a lookup.
pub fn get_person(state: State, event: GetEvent) -> (step: (State, Action))
    ensures
        (step.0, step.1@) == get_step(state, event@),
{
    match (state, event) {
        (State::Receiving, GetEvent::Path(text)) => match PersonId::parse(text.as_str()) {
            Some(id) => (State::Querying, Action::Run(Command::SelectById(id))),
            None => faulted(),
        },
        (State::Querying, GetEvent::Found(Ok(Some(row)))) => (
            State::Closed,
            Action::Respond(Response::ok_person(PersonOutput::from_row(row))),
        ),
        (State::Querying, GetEvent::Found(Ok(None))) => (
            State::Closed,
            Action::Respond(Response::not_found()),
        ),
        _ => faulted(),
    }
}

/// One step of a search.
pub fn search_people(state: State, event: SearchEvent) -> (step: (State, Action))
    ensures
        (step.0, step.1@) == search_step(state, event@),
{
    match (state, event) {
        (State::Receiving, SearchEvent::Query(q)) => (
            State::Querying,
            Action::Run(Command::SelectLike(q.t)),
        ),
        (State::Querying, SearchEvent::Matched(Ok(rows))) => (
            State::Closed,
            Action::Respond(Response::ok_people(PersonOutput::from_rows(rows))),
        ),
        _ => faulted(),
    }
}

/// One step of a count.
pub fn count_people(state: State, event: CountEvent) -> (step: (State, Action))
    ensures
        (step.0, step.1@) == count_step(state, event@),
{
    match (state, event) {
        (State::Receiving, CountEvent::Asked) => (State::Querying, Action::Run(Command::CountAll)),
        (State::Querying, CountEvent::Counted(Ok(text))) => (
            State::Closed,
            Action::Respond(Response::ok_text(text)),
        ),
        _ => faulted(),
    }
}

} // verus!
