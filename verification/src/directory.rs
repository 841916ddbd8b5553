//! The directory as the relational store holds it, as a mathematical model:
//! what each statement finds and leaves behind, what a whole operation
//! answers against it, and the laws that follow.

use crate::handlers::{
    count_step, create_step, get_step, search_step, CountInput, CreateInput, GetInput, Move,
    SearchInput, State,
};
use crate::models::{Person, PersonFields};
use crate::response::{internal_fault, Answer};
use crate::store::{unique_violation_code, Failure, Statement};
use vstd::prelude::*;

verus! {

/// The texts of a list, one after the other.
pub open spec fn joined(items: Seq<Seq<char>>) -> Seq<char>
    decreases items.len(),
{
    if items.len() == 0 {
        Seq::empty()
    } else {
        joined(items.drop_last()) + items.last()
    }
}

/// The search field of a person: the handle, the name and the entries of
/// the stack, one after the other.
pub open spec fn search_field(fields: PersonFields) -> Seq<char> {
    fields.apelido + fields.nome + match fields.stack {
        Some(items) => joined(items),
        None => Seq::empty(),
    }
}

/// Whether `term` stands at position `at` of `text`.
pub open spec fn occurs_at(text: Seq<char>, term: Seq<char>, at: int) -> bool {
    0 <= at && at + term.len() <= text.len() && text.subrange(at, at + term.len()) == term
}

/// Whether `term` stands somewhere in `text`, letter for letter.
pub open spec fn contains_text(text: Seq<char>, term: Seq<char>) -> bool {
    exists|at: int| occurs_at(text, term, at)
}

/// Whether a person is found by a search for `term`.
pub open spec fn matches_term(person: Person, term: Seq<char>) -> bool {
    contains_text(search_field(person.fields), term)
}

/// The decimal digit that shows `n`, for `n` from 0 to 9.
pub open spec fn decimal_digit(n: nat) -> char {
    if n == 0 {
        '0'
    } else if n == 1 {
        '1'
    } else if n == 2 {
        '2'
    } else if n == 3 {
        '3'
    } else if n == 4 {
        '4'
    } else if n == 5 {
        '5'
    } else if n == 6 {
        '6'
    } else if n == 7 {
        '7'
    } else if n == 8 {
        '8'
    } else {
        '9'
    }
}

/// A number in decimal digits, without leading zeros.
pub open spec fn decimal(n: nat) -> Seq<char>
    decreases n,
{
    if n < 10 {
        seq![decimal_digit(n)]
    } else {
        decimal(n / 10).push(decimal_digit(n % 10))
    }
}

/// The persons on record, in the order in which they were recorded.
pub struct Directory {
    pub people: Seq<Person>,
}

impl Directory {
    /// The directory without a person.
    pub open spec fn empty() -> Directory {
        Directory { people: Seq::empty() }
    }

    /// No identifier and no handle is on record twice.
    pub open spec fn well_formed(self) -> bool {
        forall|i: int, j: int|
            0 <= i < j < self.people.len() ==> (#[trigger] self.people[i]).id != (
            #[trigger] self.people[j]).id && self.people[i].fields.apelido
                != self.people[j].fields.apelido
    }

    pub open spec fn has_id(self, id: u128) -> bool {
        exists|i: int| 0 <= i < self.people.len() && (#[trigger] self.people[i]).id == id
    }

    pub open spec fn has_handle(self, apelido: Seq<char>) -> bool {
        exists|i: int|
            0 <= i < self.people.len() && (#[trigger] self.people[i]).fields.apelido == apelido
    }

    /// Whether the directory takes a new person: neither its identifier nor
    /// its handle is on record.
    pub open spec fn admits(self, person: Person) -> bool {
        !self.has_id(person.id) && !self.has_handle(person.fields.apelido)
    }

    /// The directory after an insert: with the person at the end where it is
    /// admitted, unchanged where not.
    pub open spec fn insert(self, person: Person) -> Directory {
        if self.admits(person) {
            Directory { people: self.people.push(person) }
        } else {
            self
        }
    }

    /// What the store replies to an insert: a unique violation where the
    /// person is not admitted.
    pub open spec fn insert_reply(self, person: Person) -> Result<(), Failure> {
        if self.admits(person) {
            Ok(())
        } else {
            Err(Failure::Failed(Some(unique_violation_code())))
        }
    }

    /// The person with the identifier, if one is on record.
    pub open spec fn find(self, id: u128) -> Option<Person> {
        if self.has_id(id) {
            Some(self.people[choose|i: int| 0 <= i < self.people.len() && (#[trigger] self.people[i]).id == id])
        } else {
            None
        }
    }

    /// The persons that a search for `term` finds.
    pub open spec fn matching(self, term: Seq<char>) -> Seq<Person> {
        self.people.filter(|person: Person| matches_term(person, term))
    }

    /// The number of persons on record.
    pub open spec fn count(self) -> nat {
        self.people.len()
    }

    /// A creation from request to answer: the directory that it leaves and
    /// what it answers. `body` is the person that the request holds, if it
    /// holds one, and `fresh` the identifier drawn for it.
    pub open spec fn create(self, body: Option<PersonFields>, fresh: u128) -> (Directory, Answer) {
        let first = create_step(State::Receiving, CreateInput::Body(body), fresh);
        match first.1 {
            Move::Respond(answer) => (self, answer),
            Move::Run(Statement::Insert(person)) => {
                let reply = CreateInput::Stored(self.insert_reply(person));
                match create_step(first.0, reply, fresh).1 {
                    Move::Respond(answer) => (self.insert(person), answer),
                    Move::Run(_) => (self.insert(person), internal_fault()),
                }
            },
            Move::Run(_) => (self, internal_fault()),
        }
    }

    /// A lookup from request to answer. `path` is the identifier as the
    /// request gives it.
    pub open spec fn get(self, path: Seq<char>) -> Answer {
        let first = get_step(State::Receiving, GetInput::Path(path));
        match first.1 {
            Move::Respond(answer) => answer,
            Move::Run(Statement::SelectById(id)) => {
                match get_step(first.0, GetInput::Found(Ok(self.find(id)))).1 {
                    Move::Respond(answer) => answer,
                    Move::Run(_) => internal_fault(),
                }
            },
            Move::Run(_) => internal_fault(),
        }
    }

    /// A search from request to answer.
    pub open spec fn search(self, term: Seq<char>) -> Answer {
        let first = search_step(State::Receiving, SearchInput::Query(term));
        match first.1 {
            Move::Respond(answer) => answer,
            Move::Run(Statement::SelectLike(pattern)) => {
                match search_step(first.0, SearchInput::Matched(Ok(self.matching(pattern)))).1 {
                    Move::Respond(answer) => answer,
                    Move::Run(_) => internal_fault(),
                }
            },
            Move::Run(_) => internal_fault(),
        }
    }

    /// A count from request to answer.
    pub open spec fn tally(self) -> Answer {
        let first = count_step(State::Receiving, CountInput::Asked);
        match first.1 {
            Move::Respond(answer) => answer,
            Move::Run(Statement::CountAll) => {
                match count_step(first.0, CountInput::Counted(Ok(decimal(self.count())))).1 {
                    Move::Respond(answer) => answer,
                    Move::Run(_) => internal_fault(),
                }
            },
            Move::Run(_) => internal_fault(),
        }
    }
}

} // verus!
