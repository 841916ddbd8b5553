//! The schema of the store: the ordered changes that are applied, once each,
//! before the service accepts requests.

use vstd::prelude::*;

verus! {

/// One change of the schema.
#[derive(Clone, Copy, Debug, PartialEq, Eq)]
pub struct SchemaChange {
    /// The name under which the ledger of applied changes keeps it: `V`, the
    /// version, two underscores and a title.
    pub name: &'static str,
    /// The statements of the change.
    pub sql: &'static str,
}

/// The name of the change that creates the table of persons.
pub open spec fn create_people_name() -> Seq<char> {
    "V1__create_people"@
}

/// The statements that create the table of persons. The store derives the
/// search field from handle, name and stack, one after the other, and
/// enforces that no identifier and no handle is recorded twice.
pub open spec fn create_people_sql() -> Seq<char> {
    "create function joined(items text[]) returns text as $$ select coalesce(array_to_string(items, ''), '') $$ language sql immutable; create table people (id uuid primary key, apelido text not null unique, nome text not null, nascimento date not null, stack text[], for_search text generated always as (apelido || nome || joined(stack)) stored);"@
}

/// The changes of the schema, in the order in which they are applied.
pub fn schema_changes() -> (changes: Vec<SchemaChange>)
    ensures
        changes@.len() == 1,
        changes@[0].name@ == create_people_name(),
        changes@[0].sql@ == create_people_sql(),
{
    let mut changes: Vec<SchemaChange> = Vec::new();
    changes.push(
        SchemaChange {
            name: "V1__create_people",
            sql: "create function joined(items text[]) returns text as $$ select coalesce(array_to_string(items, ''), '') $$ language sql immutable; create table people (id uuid primary key, apelido text not null unique, nome text not null, nascimento date not null, stack text[], for_search text generated always as (apelido || nome || joined(stack)) stored);",
        },
    );
    changes
}

} // verus!
