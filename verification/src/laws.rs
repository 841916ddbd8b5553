//! What holds of the operations of the service, whatever is on record.

use crate::directory::{
    contains_text, decimal, matches_term, occurs_at, search_field, Directory,
};
use crate::ident::{canonical, PersonId};
use crate::models::{shown, shown_all, Person, PersonFields, Shown};
use crate::response::{
    created, location_of, not_found, ok_people, ok_person, ok_text, unprocessable,
};
use vstd::prelude::*;

verus! {

/// An insert leaves a well-formed directory well-formed.
pub proof fn insert_keeps_well_formed(dir: Directory, person: Person)
    requires
        dir.well_formed(),
    ensures
        dir.insert(person).well_formed(),
{
    let after = dir.insert(person);
    if dir.admits(person) {
        assert forall|i: int, j: int| 0 <= i < j < after.people.len() implies (
        #[trigger] after.people[i]).id != (#[trigger] after.people[j]).id
            && after.people[i].fields.apelido != after.people[j].fields.apelido by {
            if j == dir.people.len() {
                assert(dir.people[i].id != person.id);
                assert(dir.people[i].fields.apelido != person.fields.apelido);
            } else {
                assert(dir.people[i].id != dir.people[j].id);
            }
        }
    }
}

/// In a well-formed directory, the person at a position is the one that is
/// found under its identifier.
pub proof fn find_gives_the_person(dir: Directory, i: int)
    requires
        dir.well_formed(),
        0 <= i < dir.people.len(),
    ensures
        dir.find(dir.people[i].id) == Some(dir.people[i]),
{
    let id = dir.people[i].id;
    assert(dir.has_id(id));
    let k = choose|k: int| 0 <= k < dir.people.len() && (#[trigger] dir.people[k]).id == id;
    if k < i {
        assert(dir.people[k].id != dir.people[i].id);
    } else if i < k {
        assert(dir.people[i].id != dir.people[k].id);
    }
}

/// A creation with a handle and an identifier that are not on record is
/// answered with status 201 and the location of the new person, whose last
/// part is the canonical text of the identifier. A lookup by any text that
/// reads as that identifier then returns the submitted fields, each time it
/// is asked.
pub proof fn created_person_is_found(dir: Directory, fields: PersonFields, fresh: u128)
    requires
        dir.well_formed(),
        !dir.has_handle(fields.apelido),
        !dir.has_id(fresh),
    ensures
        dir.create(Some(fields), fresh).1 == created(fresh),
        created(fresh).status == 201,
        created(fresh).location == Some(location_of(fresh)),
        location_of(fresh).skip(9) == canonical(fresh),
        dir.create(Some(fields), fresh).0.well_formed(),
        forall|path: Seq<char>|
            PersonId::parsed(path) == Some(PersonId { value: fresh }) ==> #[trigger] dir.create(
                Some(fields),
                fresh,
            ).0.get(path) == ok_person(Shown { id: canonical(fresh), fields }),
{
    let person = Person { id: fresh, fields };
    let after = dir.create(Some(fields), fresh).0;
    assert(dir.admits(person));
    assert(after == dir.insert(person));
    insert_keeps_well_formed(dir, person);
    let last = dir.people.len() as int;
    assert(after.people[last] == person);
    find_gives_the_person(after, last);
    reveal_strlit("/pessoas/");
    assert(location_of(fresh).skip(9) =~= canonical(fresh));
}

/// Of two creations with the same handle, one after the other, at most one
/// is answered with status 201, and then the other is refused as
/// unprocessable.
pub proof fn handle_is_taken_once(
    dir: Directory,
    first: PersonFields,
    first_id: u128,
    second: PersonFields,
    second_id: u128,
)
    requires
        first.apelido == second.apelido,
    ensures
        ({
            let one = dir.create(Some(first), first_id);
            let other = one.0.create(Some(second), second_id);
            &&& one.1.status == 201 ==> other.1 == unprocessable()
            &&& other.1.status == 201 ==> one.1 == unprocessable()
            &&& !(one.1.status == 201 && other.1.status == 201)
        }),
{
    let p = Person { id: first_id, fields: first };
    let one = dir.create(Some(first), first_id);
    if dir.admits(p) {
        let last = dir.people.len() as int;
        assert(one.0.people[last].fields.apelido == second.apelido);
        assert(one.0.has_handle(second.apelido));
    } else {
        assert(one.0 == dir);
    }
}

/// A creation is answered with status 201 where the directory admits the
/// person, and refused as unprocessable where it does not.
pub proof fn creation_succeeds_where_admitted(dir: Directory, fields: PersonFields, fresh: u128)
    ensures
        dir.admits(Person { id: fresh, fields }) ==> dir.create(Some(fields), fresh) == (
            dir.insert(Person { id: fresh, fields }),
            created(fresh),
        ),
        !dir.admits(Person { id: fresh, fields }) ==> dir.create(Some(fields), fresh) == (
            dir,
            unprocessable(),
        ),
{
}

/// A request whose body holds no person is refused as unprocessable, and
/// leaves the directory and the count as they were.
pub proof fn refused_body_changes_nothing(dir: Directory, fresh: u128)
    ensures
        dir.create(None, fresh) == (dir, unprocessable()),
        unprocessable().status == 422,
        dir.create(None, fresh).0.tally() == dir.tally(),
{
}

/// A lookup by a text that reads as an identifier which is not on record is
/// answered as not found.
pub proof fn unknown_identifier_is_not_found(dir: Directory, path: Seq<char>)
    requires
        PersonId::parsed(path) matches Some(id) && !dir.has_id(id.value),
    ensures
        dir.get(path) == not_found(),
        not_found().status == 404,
{
}

/// A term that stands in the handle stands in the search field.
pub proof fn handle_is_searched(fields: PersonFields, term: Seq<char>)
    requires
        contains_text(fields.apelido, term),
    ensures
        contains_text(search_field(fields), term),
{
    let at = choose|at: int| occurs_at(fields.apelido, term, at);
    let field = search_field(fields);
    assert(field.subrange(at, at + term.len()) =~= fields.apelido.subrange(at, at + term.len()));
    assert(occurs_at(field, term, at));
}

/// A search answers with the persons whose search field contains the term,
/// and a person whose handle contains the term is among them.
pub proof fn search_finds_by_handle(dir: Directory, i: int, term: Seq<char>)
    requires
        0 <= i < dir.people.len(),
        contains_text(dir.people[i].fields.apelido, term),
    ensures
        dir.search(term) == ok_people(shown_all(dir.matching(term))),
        dir.matching(term).contains(dir.people[i]),
        shown_all(dir.matching(term)).contains(shown(dir.people[i])),
{
    handle_is_searched(dir.people[i].fields, term);
    let pred = |person: Person| matches_term(person, term);
    dir.people.lemma_filter_contains(pred, i);
    let found = dir.matching(term);
    let k = choose|k: int| 0 <= k < found.len() && found[k] == dir.people[i];
    assert(shown_all(found)[k] == shown(dir.people[i]));
}

/// A filter that every item passes keeps the sequence as it is.
proof fn filter_keeps_all(people: Seq<Person>, pred: spec_fn(Person) -> bool)
    requires
        forall|i: int| 0 <= i < people.len() ==> pred(#[trigger] people[i]),
    ensures
        people.filter(pred) == people,
    decreases people.len(),
{
    reveal(Seq::filter);
    if people.len() > 0 {
        let rest = people.drop_last();
        assert forall|i: int| 0 <= i < rest.len() implies pred(#[trigger] rest[i]) by {
            assert(rest[i] == people[i]);
        }
        filter_keeps_all(rest, pred);
        assert(rest.push(people.last()) =~= people);
    }
}

/// A search for the empty term answers with every person on record.
pub proof fn empty_term_finds_all(dir: Directory)
    ensures
        dir.search(Seq::empty()) == ok_people(shown_all(dir.people)),
{
    let term = Seq::<char>::empty();
    let pred = |person: Person| matches_term(person, term);
    assert forall|i: int| 0 <= i < dir.people.len() implies pred(#[trigger] dir.people[i]) by {
        let field = search_field(dir.people[i].fields);
        assert(field.subrange(0, 0) =~= term);
        assert(occurs_at(field, term, 0));
    }
    filter_keeps_all(dir.people, pred);
}

/// The count of the empty directory is answered as `0`. A count is answered
/// with the number of persons on record in decimal digits; a creation that
/// is answered with status 201 raises that number by exactly one, and any
/// other creation leaves it as it was.
pub proof fn count_follows_creations(dir: Directory, body: Option<PersonFields>, fresh: u128)
    ensures
        Directory::empty().tally() == ok_text("0"@),
        dir.tally() == ok_text(decimal(dir.count())),
        ({
            let after = dir.create(body, fresh);
            &&& after.1.status == 201 ==> after.0.count() == dir.count() + 1
            &&& after.1.status != 201 ==> after.0.count() == dir.count()
            &&& after.0.count() >= dir.count()
        }),
{
    reveal_strlit("0");
    assert(decimal(0) =~= "0"@);
}

} // verus!
