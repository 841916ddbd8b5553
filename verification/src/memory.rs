//! A store that keeps the directory in memory and answers as the relational
//! store does. It stands in for it in tests and local runs.

use crate::directory::{
    contains_text, decimal, decimal_digit, joined, matches_term, occurs_at, search_field,
    Directory,
};
use crate::handlers::{
    count_people, create_person_as, get_person, search_people, Action, CountEvent, CreateEvent,
    GetEvent, SearchEvent, State,
};
use crate::ident::{is_random_form, PersonId};
use crate::models::{persons, texts, Person, PersonFields, PersonInput, PersonRow, Q};
use crate::response::Response;
use crate::store::{unique_violation_code, Command, StoreFailure};
use vstd::prelude::*;
use vstd::string::{StrSliceExecFns, StringExecFns};

verus! {

/// The characters of a text.
pub fn chars_of(text: &str) -> (chars: Vec<char>)
    ensures
        chars@ == text@,
{
    let n = text.unicode_len();
    let mut chars: Vec<char> = Vec::new();
    let mut i: usize = 0;
    while i < n
        invariant
            n == text@.len(),
            i <= n,
            chars@ == text@.subrange(0, i as int),
        decreases n - i,
    {
        chars.push(text.get_char(i));
        assert(chars@ =~= text@.subrange(0, i + 1));
        i = i + 1;
    }
    assert(text@.subrange(0, n as int) =~= text@);
    chars
}

fn stands_at(text: &Vec<char>, term: &Vec<char>, at: usize) -> (r: bool)
    requires
        at + term@.len() <= text@.len(),
    ensures
        r == occurs_at(text@, term@, at as int),
{
    let n = text.len();
    let mut k: usize = 0;
    while k < term.len()
        invariant
            n == text@.len(),
            at + term@.len() <= text@.len(),
            k <= term@.len(),
            text@.subrange(at as int, at + k) == term@.subrange(0, k as int),
        decreases term@.len() - k,
    {
        if text[at + k] != term[k] {
            assert(text@.subrange(at as int, at + term@.len())[k as int] != term@[k as int]);
            return false;
        }
        assert(text@.subrange(at as int, at + k + 1) =~= term@.subrange(0, k + 1));
        k = k + 1;
    }
    assert(term@.subrange(0, k as int) =~= term@);
    true
}

/// Whether `term` stands somewhere in `text`, letter for letter.
pub fn find_in(text: &Vec<char>, term: &Vec<char>) -> (r: bool)
    ensures
        r == contains_text(text@, term@),
{
    if term.len() > text.len() {
        return false;
    }
    let last: usize = text.len() - term.len();
    let mut at: usize = 0;
    while at < last
        invariant
            last == text@.len() - term@.len(),
            at <= last,
            forall|i: int| 0 <= i < at ==> !occurs_at(text@, term@, i),
        decreases last - at,
    {
        if stands_at(text, term, at) {
            return true;
        }
        at = at + 1;
    }
    stands_at(text, term, last)
}

fn extend(target: &mut Vec<char>, text: &str)
    ensures
        final(target)@ == old(target)@ + text@,
{
    let mut more = chars_of(text);
    target.append(&mut more);
}

/// The search field of a stored person.
pub fn search_field_of(row: &PersonRow) -> (field: Vec<char>)
    ensures
        field@ == search_field(row@.fields),
{
    let mut field: Vec<char> = Vec::new();
    extend(&mut field, row.apelido.as_str());
    extend(&mut field, row.nome.as_str());
    match &row.stack {
        Some(items) => {
            let ghost head = field@;
            let ghost all = texts(items@);
            assert(joined(all.subrange(0, 0)) =~= Seq::<char>::empty());
            let mut k: usize = 0;
            while k < items.len()
                invariant
                    k <= items@.len(),
                    all == texts(items@),
                    field@ == head + joined(all.subrange(0, k as int)),
                decreases items@.len() - k,
            {
                extend(&mut field, items[k].as_str());
                assert(all.subrange(0, k + 1).drop_last() =~= all.subrange(0, k as int));
                assert(all.subrange(0, k + 1).last() == items@[k as int]@);
                assert(field@ =~= head + joined(all.subrange(0, k + 1)));
                k = k + 1;
            }
            assert(all.subrange(0, k as int) =~= all);
            assert(field@ =~= search_field(row@.fields));
        },
        None => {
            assert(field@ =~= search_field(row@.fields));
        },
    }
    field
}

fn digit_text(d: usize) -> (text: &'static str)
    requires
        d < 10,
    ensures
        text@ == seq![decimal_digit(d as nat)],
{
    proof {
        reveal_strlit("0");
        reveal_strlit("1");
        reveal_strlit("2");
        reveal_strlit("3");
        reveal_strlit("4");
        reveal_strlit("5");
        reveal_strlit("6");
        reveal_strlit("7");
        reveal_strlit("8");
        reveal_strlit("9");
    }
    let text = if d == 0 {
        "0"
    } else if d == 1 {
        "1"
    } else if d == 2 {
        "2"
    } else if d == 3 {
        "3"
    } else if d == 4 {
        "4"
    } else if d == 5 {
        "5"
    } else if d == 6 {
        "6"
    } else if d == 7 {
        "7"
    } else if d == 8 {
        "8"
    } else {
        "9"
    };
    assert(text@ =~= seq![decimal_digit(d as nat)]);
    text
}

/// A number in decimal digits.
pub fn decimal_text(n: usize) -> (text: String)
    ensures
        text@ == decimal(n as nat),
    decreases n,
{
    if n < 10 {
        String::from_str(digit_text(n))
    } else {
        let head = decimal_text(n / 10);
        let text = head.concat(digit_text(n % 10));
        assert(text@ =~= decimal(n as nat));
        text
    }
}

fn copy_texts(items: &Vec<String>) -> (copy: Vec<String>)
    ensures
        texts(copy@) == texts(items@),
{
    let mut copy: Vec<String> = Vec::new();
    let mut k: usize = 0;
    while k < items.len()
        invariant
            k <= items@.len(),
            copy@.len() == k,
            forall|i: int| 0 <= i < k ==> (#[trigger] copy@[i])@ == items@[i]@,
        decreases items@.len() - k,
    {
        copy.push(items[k].clone());
        k = k + 1;
    }
    assert(texts(copy@) =~= texts(items@));
    copy
}

/// A copy of a stored person.
pub fn copy_row(row: &PersonRow) -> (copy: PersonRow)
    ensures
        copy@ == row@,
{
    let stack = match &row.stack {
        Some(items) => Some(copy_texts(items)),
        None => None,
    };
    PersonRow {
        id: row.id,
        apelido: row.apelido.clone(),
        nome: row.nome.clone(),
        nascimento: row.nascimento,
        stack,
    }
}

/// The view of the body of a creation.
pub open spec fn body_view(body: Option<PersonInput>) -> Option<PersonFields> {
    match body {
        Some(input) => Some(input@),
        None => None,
    }
}

/// A directory in memory.
pub struct MemoryStore {
    rows: Vec<PersonRow>,
}

impl View for MemoryStore {
    type V = Directory;

    closed spec fn view(&self) -> Directory {
        Directory { people: persons(self.rows@) }
    }
}

impl MemoryStore {
    #[verifier::type_invariant]
    spec fn well_formed(self) -> bool {
        self@.well_formed()
    }

    /// The store without a person.
    pub fn new() -> (store: MemoryStore)
        ensures
            store@ == Directory::empty(),
            store@.well_formed(),
    {
        let store = MemoryStore { rows: Vec::new() };
        assert(store@.people =~= Directory::empty().people);
        store
    }

    fn admits(&self, row: &PersonRow) -> (r: bool)
        ensures
            r == self@.admits(row@),
    {
        let mut k: usize = 0;
        while k < self.rows.len()
            invariant
                k <= self.rows@.len(),
                forall|i: int|
                    0 <= i < k ==> (#[trigger] self@.people[i]).id != row@.id
                        && self@.people[i].fields.apelido != row@.fields.apelido,
            decreases self.rows@.len() - k,
        {
            let other = &self.rows[k];
            if other.id.value == row.id.value || other.apelido == row.apelido {
                assert(self@.people[k as int] == other@);
                return false;
            }
            assert(self@.people[k as int] == other@);
            k = k + 1;
        }
        true
    }

    /// Records a person, unless its identifier or its handle is in the store
    /// already: that is a unique violation.
    pub fn insert(&mut self, row: PersonRow) -> (reply: Result<(), StoreFailure>)
        ensures
            final(self)@ == old(self)@.insert(row@),
            old(self)@.well_formed() && final(self)@.well_formed(),
            crate::handlers::done_view(reply) == old(self)@.insert_reply(row@),
    {
        proof {
            use_type_invariant(&*self);
        }
        if self.admits(&row) {
            let ghost before = self@;
            let ghost person = row@;
            let mut taken = MemoryStore::new();
            core::mem::swap(self, &mut taken);
            let mut rows = taken.rows;
            rows.push(row);
            proof {
                assert(persons(rows@) =~= before.people.push(person));
                crate::laws::insert_keeps_well_formed(before, person);
            }
            *self = MemoryStore { rows };
            Ok(())
        } else {
            let code = String::from_str("23505");
            proof {
                reveal_strlit("23505");
                assert(code@ =~= unique_violation_code());
            }
            Err(StoreFailure::Failed(Some(code)))
        }
    }

    /// The person with the identifier, if one is in the store.
    pub fn find(&self, id: PersonId) -> (found: Option<PersonRow>)
        ensures
            found is Some == self@.find(id.value) is Some,
            found matches Some(row) ==> self@.find(id.value) == Some(row@),
    {
        proof {
            use_type_invariant(self);
        }
        let mut k: usize = 0;
        while k < self.rows.len()
            invariant
                k <= self.rows@.len(),
                self@.well_formed(),
                forall|i: int| 0 <= i < k ==> (#[trigger] self@.people[i]).id != id.value,
            decreases self.rows@.len() - k,
        {
            if self.rows[k].id.value == id.value {
                proof {
                    assert(self@.people[k as int] == self.rows@[k as int]@);
                    crate::laws::find_gives_the_person(self@, k as int);
                }
                return Some(copy_row(&self.rows[k]));
            }
            assert(self@.people[k as int] == self.rows@[k as int]@);
            k = k + 1;
        }
        None
    }

    /// The persons whose search field contains the term, in the order in
    /// which they were recorded.
    pub fn matching(&self, term: &str) -> (found: Vec<PersonRow>)
        ensures
            persons(found@) == self@.matching(term@),
    {
        let wanted = chars_of(term);
        let ghost pred = |person: Person| matches_term(person, term@);
        let ghost all = self@.people;
        let mut found: Vec<PersonRow> = Vec::new();
        let mut k: usize = 0;
        proof {
            reveal(Seq::filter);
            assert(all.subrange(0, 0).filter(pred) =~= Seq::<Person>::empty());
            assert(persons(found@) =~= Seq::<Person>::empty());
        }
        while k < self.rows.len()
            invariant
                k <= self.rows@.len(),
                all == self@.people,
                wanted@ == term@,
                pred == (|person: Person| matches_term(person, term@)),
                persons(found@) == all.subrange(0, k as int).filter(pred),
            decreases self.rows@.len() - k,
        {
            let row = &self.rows[k];
            let field = search_field_of(row);
            let ghost before = persons(found@);
            proof {
                reveal(Seq::filter);
                assert(all[k as int] == row@);
                assert(all.subrange(0, k + 1).drop_last() =~= all.subrange(0, k as int));
                assert(all.subrange(0, k + 1).last() == row@);
            }
            if find_in(&field, &wanted) {
                found.push(copy_row(row));
                assert(persons(found@) =~= before.push(row@));
            }
            k = k + 1;
        }
        assert(all.subrange(0, k as int) =~= all);
        found
    }

    /// The number of persons in the store, in decimal digits.
    pub fn count(&self) -> (text: String)
        ensures
            text@ == decimal(self@.count()),
    {
        decimal_text(self.rows.len())
    }

    /// A whole creation against this store, with the identifier to give to
    /// a new person.
    pub fn create_as(&mut self, fresh: PersonId, body: Option<PersonInput>) -> (response: Response)
        ensures
            (final(self)@, response@) == old(self)@.create(body_view(body), fresh.value),
    {
        let first = create_person_as(fresh, State::Receiving, CreateEvent::Body(body));
        match first.1 {
            Action::Respond(response) => response,
            Action::Run(Command::Insert(row)) => {
                let reply = self.insert(row);
                let second = create_person_as(fresh, first.0, CreateEvent::Stored(reply));
                match second.1 {
                    Action::Respond(response) => response,
                    Action::Run(_) => Response::internal_fault(),
                }
            },
            Action::Run(_) => Response::internal_fault(),
        }
    }

    /// A whole creation against this store. A new person gets a random
    /// identifier, which is handed back beside the answer.
    pub fn create(&mut self, body: Option<PersonInput>) -> (done: (PersonId, Response))
        ensures
            is_random_form(done.0.value),
            (final(self)@, done.1@) == old(self)@.create(body_view(body), done.0.value),
    {
        let fresh = PersonId::fresh();
        let response = self.create_as(fresh, body);
        (fresh, response)
    }

    /// A whole lookup against this store.
    pub fn get(&self, path: String) -> (response: Response)
        ensures
            response@ == self@.get(path@),
    {
        let first = get_person(State::Receiving, GetEvent::Path(path));
        match first.1 {
            Action::Respond(response) => response,
            Action::Run(Command::SelectById(id)) => {
                let found = self.find(id);
                let second = get_person(first.0, GetEvent::Found(Ok(found)));
                match second.1 {
                    Action::Respond(response) => response,
                    Action::Run(_) => Response::internal_fault(),
                }
            },
            Action::Run(_) => Response::internal_fault(),
        }
    }

    /// A whole search against this store.
    pub fn search(&self, q: Q) -> (response: Response)
        ensures
            response@ == self@.search(q@),
    {
        let first = search_people(State::Receiving, SearchEvent::Query(q));
        match first.1 {
            Action::Respond(response) => response,
            Action::Run(Command::SelectLike(term)) => {
                let found = self.matching(term.as_str());
                let second = search_people(first.0, SearchEvent::Matched(Ok(found)));
                match second.1 {
                    Action::Respond(response) => response,
                    Action::Run(_) => Response::internal_fault(),
                }
            },
            Action::Run(_) => Response::internal_fault(),
        }
    }

    /// A whole count against this store.
    pub fn tally(&self) -> (response: Response)
        ensures
            response@ == self@.tally(),
    {
        let first = count_people(State::Receiving, CountEvent::Asked);
        match first.1 {
            Action::Respond(response) => response,
            Action::Run(Command::CountAll) => {
                let second = count_people(first.0, CountEvent::Counted(Ok(self.count())));
                match second.1 {
                    Action::Respond(response) => response,
                    Action::Run(_) => Response::internal_fault(),
                }
            },
            Action::Run(_) => Response::internal_fault(),
        }
    }
}

} // verus!
