//! Person records: what a client sends, what the store keeps and what a
//! client gets back.

use crate::date::{Date, DateView};
use crate::ident::{canonical, PersonId};
use vstd::prelude::*;

verus! {

/// The texts of a list of strings.
pub open spec fn texts(items: Seq<String>) -> Seq<Seq<char>> {
    Seq::new(items.len(), |i: int| items[i]@)
}

/// The texts of a stack, where there is one.
pub open spec fn stack_texts(stack: Option<Vec<String>>) -> Option<Seq<Seq<char>>> {
    match stack {
        Some(items) => Some(texts(items@)),
        None => None,
    }
}

/// What a client submits to have a person recorded.
#[derive(Clone, Debug, PartialEq, Eq)]
pub struct PersonInput {
    pub apelido: String,
    pub nome: String,
    pub nascimento: Date,
    pub stack: Option<Vec<String>>,
}

/// The submitted fields as mathematical values.
pub struct PersonFields {
    pub apelido: Seq<char>,
    pub nome: Seq<char>,
    pub nascimento: DateView,
    pub stack: Option<Seq<Seq<char>>>,
}

impl View for PersonInput {
    type V = PersonFields;

    open spec fn view(&self) -> PersonFields {
        PersonFields {
            apelido: self.apelido@,
            nome: self.nome@,
            nascimento: self.nascimento@,
            stack: stack_texts(self.stack),
        }
    }
}

/// A person as the store keeps it: the identifier and the submitted fields.
#[derive(Clone, Debug, PartialEq, Eq)]
pub struct PersonRow {
    pub id: PersonId,
    pub apelido: String,
    pub nome: String,
    pub nascimento: Date,
    pub stack: Option<Vec<String>>,
}

/// A stored person as a mathematical value.
pub struct Person {
    pub id: u128,
    pub fields: PersonFields,
}

impl View for PersonRow {
    type V = Person;

    open spec fn view(&self) -> Person {
        Person {
            id: self.id.value,
            fields: PersonFields {
                apelido: self.apelido@,
                nome: self.nome@,
                nascimento: self.nascimento@,
                stack: stack_texts(self.stack),
            },
        }
    }
}

/// What a client gets back for a person: the identifier in its canonical
/// text and the submitted fields.
#[derive(Clone, Debug, PartialEq, Eq)]
pub struct PersonOutput {
    pub id: String,
    pub apelido: String,
    pub nome: String,
    pub nascimento: Date,
    pub stack: Option<Vec<String>>,
}

/// A returned person as a mathematical value.
pub struct Shown {
    pub id: Seq<char>,
    pub fields: PersonFields,
}

impl View for PersonOutput {
    type V = Shown;

    open spec fn view(&self) -> Shown {
        Shown {
            id: self.id@,
            fields: PersonFields {
                apelido: self.apelido@,
                nome: self.nome@,
                nascimento: self.nascimento@,
                stack: stack_texts(self.stack),
            },
        }
    }
}

/// How a stored person is shown: the canonical text of its identifier and
/// its fields as they are.
pub open spec fn shown(person: Person) -> Shown {
    Shown { id: canonical(person.id), fields: person.fields }
}

/// How a list of stored persons is shown: each one in its place.
pub open spec fn shown_all(people: Seq<Person>) -> Seq<Shown> {
    Seq::new(people.len(), |i: int| shown(people[i]))
}

/// The views of a list of rows.
pub open spec fn persons(rows: Seq<PersonRow>) -> Seq<Person> {
    Seq::new(rows.len(), |i: int| rows[i]@)
}

/// The views of a list of outputs.
pub open spec fn outputs(items: Seq<PersonOutput>) -> Seq<Shown> {
    Seq::new(items.len(), |i: int| items[i]@)
}

/// The query of a search: the term that is looked for.
#[derive(Clone, Debug, PartialEq, Eq)]
pub struct Q {
    pub t: String,
}

impl View for Q {
    type V = Seq<char>;

    open spec fn view(&self) -> Seq<char> {
        self.t@
    }
}

impl PersonRow {
    /// The row that records the submitted fields under the given identifier.
    pub fn from_input(id: PersonId, input: PersonInput) -> (row: PersonRow)
        ensures
            row@ == (Person { id: id.value, fields: input@ }),
    {
        let PersonInput { apelido, nome, nascimento, stack } = input;
        PersonRow { id, apelido, nome, nascimento, stack }
    }
}

impl PersonOutput {
    /// Shapes a stored person for a client.
    pub fn from_row(row: PersonRow) -> (output: PersonOutput)
        ensures
            output@ == shown(row@),
    {
        let PersonRow { id, apelido, nome, nascimento, stack } = row;
        PersonOutput { id: id.to_text(), apelido, nome, nascimento, stack }
    }

    /// Shapes a list of stored persons for a client, in the order given.
    pub fn from_rows(rows: Vec<PersonRow>) -> (items: Vec<PersonOutput>)
        ensures
            outputs(items@) == shown_all(persons(rows@)),
    {
        let ghost all = persons(rows@);
        let mut rest = rows;
        let mut backwards: Vec<PersonOutput> = Vec::new();
        while rest.len() > 0
            invariant
                rest@.len() + backwards@.len() == all.len(),
                persons(rest@) == all.subrange(0, rest@.len() as int),
                forall|k: int|
                    0 <= k < backwards@.len() ==> (#[trigger] backwards@[k])@ == shown(
                        all[all.len() - 1 - k],
                    ),
            decreases rest@.len(),
        {
            let ghost before = rest@;
            let row = rest.pop().unwrap();
            assert(row@ == persons(before)[before.len() - 1]);
            assert(persons(rest@) =~= all.subrange(0, rest@.len() as int));
            backwards.push(PersonOutput::from_row(row));
        }
        let mut items: Vec<PersonOutput> = Vec::new();
        while backwards.len() > 0
            invariant
                items@.len() + backwards@.len() == all.len(),
                forall|k: int|
                    0 <= k < backwards@.len() ==> (#[trigger] backwards@[k])@ == shown(
                        all[all.len() - 1 - k],
                    ),
                forall|k: int| 0 <= k < items@.len() ==> (#[trigger] items@[k])@ == shown(all[k]),
            decreases backwards@.len(),
        {
            let item = backwards.pop().unwrap();
            items.push(item);
        }
        assert(outputs(items@) =~= shown_all(all));
        items
    }
}

} // verus!
