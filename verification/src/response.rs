//! What the service answers: a status, a location where one is given, and a
//! body.

use crate::ident::{canonical, PersonId};
use crate::models::{outputs, PersonOutput, Shown};
use vstd::prelude::*;
use vstd::string::StringExecFns;

verus! {

pub const STATUS_OK: u16 = 200;

pub const STATUS_CREATED: u16 = 201;

pub const STATUS_NOT_FOUND: u16 = 404;

pub const STATUS_UNPROCESSABLE: u16 = 422;

pub const STATUS_INTERNAL_FAULT: u16 = 500;

/// The body of an answer.
#[derive(Clone, Debug, PartialEq, Eq)]
pub enum Body {
    Empty,
    /// Plain text.
    Text(String),
    /// One person, to be written as a JSON object.
    Person(PersonOutput),
    /// Persons, to be written as a JSON array.
    People(Vec<PersonOutput>),
}

/// A body as a mathematical value.
pub enum Content {
    Empty,
    Text(Seq<char>),
    Person(Shown),
    People(Seq<Shown>),
}

impl View for Body {
    type V = Content;

    open spec fn view(&self) -> Content {
        match self {
            Body::Empty => Content::Empty,
            Body::Text(text) => Content::Text(text@),
            Body::Person(person) => Content::Person(person@),
            Body::People(people) => Content::People(outputs(people@)),
        }
    }
}

/// An answer of the service.
#[derive(Clone, Debug, PartialEq, Eq)]
pub struct Response {
    pub status: u16,
    pub location: Option<String>,
    pub body: Body,
}

/// An answer as a mathematical value.
pub struct Answer {
    pub status: int,
    pub location: Option<Seq<char>>,
    pub body: Content,
}

impl View for Response {
    type V = Answer;

    open spec fn view(&self) -> Answer {
        Answer {
            status: self.status as int,
            location: match self.location {
                Some(text) => Some(text@),
                None => None,
            },
            body: self.body@,
        }
    }
}

/// Where a person is found: the path of the collection and the canonical
/// text of the identifier.
pub open spec fn location_of(id: u128) -> Seq<char> {
    "/pessoas/"@ + canonical(id)
}

/// The answer to a creation: the location of the new person, no body.
pub open spec fn created(id: u128) -> Answer {
    Answer { status: 201, location: Some(location_of(id)), body: Content::Empty }
}

/// The answer where no person has the identifier.
pub open spec fn not_found() -> Answer {
    Answer { status: 404, location: None, body: Content::Empty }
}

/// The answer to a request that cannot be accepted.
pub open spec fn unprocessable() -> Answer {
    Answer { status: 422, location: None, body: Content::Text("Unprocessable Entity"@) }
}

/// The answer where the service or its store failed.
pub open spec fn internal_fault() -> Answer {
    Answer { status: 500, location: None, body: Content::Text("Internal Server Error"@) }
}

/// The answer that carries one person.
pub open spec fn ok_person(person: Shown) -> Answer {
    Answer { status: 200, location: None, body: Content::Person(person) }
}

/// The answer that carries a list of persons.
pub open spec fn ok_people(people: Seq<Shown>) -> Answer {
    Answer { status: 200, location: None, body: Content::People(people) }
}

/// The answer that carries a plain text.
pub open spec fn ok_text(text: Seq<char>) -> Answer {
    Answer { status: 200, location: None, body: Content::Text(text) }
}

impl Response {
    /// The answer to a creation. The text after the last `/` of the location
    /// reads back as the identifier.
    pub fn created(id: PersonId) -> (response: Response)
        ensures
            response@ == created(id.value),
            PersonId::parsed(canonical(id.value)) == Some(id),
    {
        let text = id.to_text();
        let location = String::from_str("/pessoas/").concat(text.as_str());
        Response { status: STATUS_CREATED, location: Some(location), body: Body::Empty }
    }

    pub fn not_found() -> (response: Response)
        ensures
            response@ == not_found(),
    {
        Response { status: STATUS_NOT_FOUND, location: None, body: Body::Empty }
    }

    pub fn unprocessable() -> (response: Response)
        ensures
            response@ == unprocessable(),
    {
        Response {
            status: STATUS_UNPROCESSABLE,
            location: None,
            body: Body::Text(String::from_str("Unprocessable Entity")),
        }
    }

    pub fn internal_fault() -> (response: Response)
        ensures
            response@ == internal_fault(),
    {
        Response {
            status: STATUS_INTERNAL_FAULT,
            location: None,
            body: Body::Text(String::from_str("Internal Server Error")),
        }
    }

    pub fn ok_person(person: PersonOutput) -> (response: Response)
        ensures
            response@ == ok_person(person@),
    {
        Response { status: STATUS_OK, location: None, body: Body::Person(person) }
    }

    pub fn ok_people(people: Vec<PersonOutput>) -> (response: Response)
        ensures
            response@ == ok_people(outputs(people@)),
    {
        Response { status: STATUS_OK, location: None, body: Body::People(people) }
    }

    pub fn ok_text(text: String) -> (response: Response)
        ensures
            response@ == ok_text(text@),
    {
        Response { status: STATUS_OK, location: None, body: Body::Text(text) }
    }
}

} // verus!
