//! The exchange with the relational store: the statements that the service
//! has run, and how a failure of the store is classified.

use crate::ident::PersonId;
use crate::models::{Person, PersonRow};
use vstd::prelude::*;
use vstd::string::StrSliceExecFns;

verus! {

/// A statement for the store, with its parameters.
#[derive(Clone, Debug, PartialEq, Eq)]
pub enum Command {
    /// Record a person.
    Insert(PersonRow),
    /// Look a person up by identifier.
    SelectById(PersonId),
    /// Find the persons whose search field contains the term.
    SelectLike(String),
    /// Count all persons.
    CountAll,
}

/// A statement as a mathematical value.
pub enum Statement {
    Insert(Person),
    SelectById(u128),
    SelectLike(Seq<char>),
    CountAll,
}

impl View for Command {
    type V = Statement;

    open spec fn view(&self) -> Statement {
        match self {
            Command::Insert(row) => Statement::Insert(row@),
            Command::SelectById(id) => Statement::SelectById(id.value),
            Command::SelectLike(term) => Statement::SelectLike(term@),
            Command::CountAll => Statement::CountAll,
        }
    }
}

/// The SQL text of each statement. The insert leaves the search field to the
/// store, which derives it from the other columns; no select asks for it.
pub open spec fn sql_of(statement: Statement) -> Seq<char> {
    match statement {
        Statement::Insert(_) =>
            "insert into people (id, apelido, nome, nascimento, stack) values ($1, $2, $3, $4, $5)"@,
        Statement::SelectById(_) =>
            "select id, apelido, nome, nascimento, stack from people where id = $1"@,
        Statement::SelectLike(_) =>
            "select id, apelido, nome, nascimento, stack from people where for_search like ('%' || $1 || '%') "@,
        Statement::CountAll => "select count(1)::TEXT from people"@,
    }
}

impl Command {
    /// The SQL text to prepare for this statement.
    pub fn sql(&self) -> (text: &'static str)
        ensures
            text@ == sql_of(self@),
    {
        match self {
            Command::Insert(_) =>
                "insert into people (id, apelido, nome, nascimento, stack) values ($1, $2, $3, $4, $5)",
            Command::SelectById(_) =>
                "select id, apelido, nome, nascimento, stack from people where id = $1",
            Command::SelectLike(_) =>
                "select id, apelido, nome, nascimento, stack from people where for_search like ('%' || $1 || '%') ",
            Command::CountAll => "select count(1)::TEXT from people",
        }
    }
}

/// Why a statement brought no result.
#[derive(Clone, Debug, PartialEq, Eq)]
pub enum StoreFailure {
    /// No connection could be had, or the statement could not be prepared.
    Unavailable,
    /// The store failed the statement; with the SQLSTATE code that it gave,
    /// if it gave one.
    Failed(Option<String>),
}

/// A failure as a mathematical value.
pub enum Failure {
    Unavailable,
    Failed(Option<Seq<char>>),
}

impl View for StoreFailure {
    type V = Failure;

    open spec fn view(&self) -> Failure {
        match self {
            StoreFailure::Unavailable => Failure::Unavailable,
            StoreFailure::Failed(Some(code)) => Failure::Failed(Some(code@)),
            StoreFailure::Failed(None) => Failure::Failed(None),
        }
    }
}

/// The classes of failure that the service tells apart.
#[derive(Clone, Copy, Debug, PartialEq, Eq, Structural)]
pub enum FailureClass {
    /// A value that must be unique is there already.
    UniqueViolation,
    /// Another integrity constraint is broken.
    IntegrityViolation,
    /// Anything else.
    Other,
}

/// The SQLSTATE code of a unique violation.
pub open spec fn unique_violation_code() -> Seq<char> {
    seq!['2', '3', '5', '0', '5']
}

/// Whether a SQLSTATE code is that of a unique violation.
pub open spec fn is_unique_code(code: Seq<char>) -> bool {
    code.len() == 5 && code[0] == '2' && code[1] == '3' && code[2] == '5' && code[3] == '0'
        && code[4] == '5'
}

/// Whether a SQLSTATE code is of class 23, the integrity constraint
/// violations.
pub open spec fn is_integrity_code(code: Seq<char>) -> bool {
    code.len() == 5 && code[0] == '2' && code[1] == '3'
}

/// The class of a SQLSTATE code.
pub open spec fn class_of_code(code: Seq<char>) -> FailureClass {
    if is_unique_code(code) {
        FailureClass::UniqueViolation
    } else if is_integrity_code(code) {
        FailureClass::IntegrityViolation
    } else {
        FailureClass::Other
    }
}

/// The class of a failure: that of its code where the store gave one, and
/// `Other` for everything else.
pub open spec fn class_of(failure: Failure) -> FailureClass {
    match failure {
        Failure::Failed(Some(code)) => class_of_code(code),
        _ => FailureClass::Other,
    }
}

/// Classifies a SQLSTATE code.
pub fn classify_code(code: &str) -> (class: FailureClass)
    ensures
        class == class_of_code(code@),
{
    if code.unicode_len() != 5 {
        return FailureClass::Other;
    }
    if code.get_char(0) != '2' || code.get_char(1) != '3' {
        return FailureClass::Other;
    }
    if code.get_char(2) == '5' && code.get_char(3) == '0' && code.get_char(4) == '5' {
        FailureClass::UniqueViolation
    } else {
        FailureClass::IntegrityViolation
    }
}

/// Classifies a failure of the store.
pub fn classify(failure: &StoreFailure) -> (class: FailureClass)
    ensures
        class == class_of(failure@),
{
    match failure {
        StoreFailure::Failed(Some(code)) => classify_code(code.as_str()),
        _ => FailureClass::Other,
    }
}

} // verus!
