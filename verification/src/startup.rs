//! The order in which the service comes up: the pool, then the schema, and
//! only then the listening socket.

use vstd::prelude::*;

verus! {

/// How far the service has come up.
#[derive(Clone, Copy, Debug, PartialEq, Eq, Structural)]
pub enum Stage {
    /// Nothing is done yet.
    Down,
    /// The pool is being built.
    Pooling,
    /// The schema changes are being applied, on a connection of the pool.
    Migrating,
    /// The service accepts requests.
    Serving,
    /// The service gave up before it accepted a request.
    Halted,
}

/// What happened outside.
#[derive(Clone, Copy, Debug, PartialEq, Eq, Structural)]
pub enum Progress {
    /// The process has started.
    Started,
    /// The step that was asked for is done.
    Succeeded,
    /// The step that was asked for failed.
    Failed,
}

/// What to do next.
#[derive(Clone, Copy, Debug, PartialEq, Eq, Structural)]
pub enum Order {
    /// Build the connection pool.
    BuildPool,
    /// Apply the schema changes that are not applied yet.
    Migrate,
    /// Bind the socket and accept requests.
    Listen,
    /// End the process with a failure.
    Abort,
}

/// One step of the start. Each step is asked for when the one before it has
/// succeeded; a failure ends the start.
pub open spec fn next_stage(stage: Stage, progress: Progress) -> (Stage, Order) {
    match (stage, progress) {
        (Stage::Down, Progress::Started) => (Stage::Pooling, Order::BuildPool),
        (Stage::Pooling, Progress::Succeeded) => (Stage::Migrating, Order::Migrate),
        (Stage::Migrating, Progress::Succeeded) => (Stage::Serving, Order::Listen),
        _ => (Stage::Halted, Order::Abort),
    }
}

/// One step of the start.
pub fn advance(stage: Stage, progress: Progress) -> (step: (Stage, Order))
    ensures
        step == next_stage(stage, progress),
{
    match (stage, progress) {
        (Stage::Down, Progress::Started) => (Stage::Pooling, Order::BuildPool),
        (Stage::Pooling, Progress::Succeeded) => (Stage::Migrating, Order::Migrate),
        (Stage::Migrating, Progress::Succeeded) => (Stage::Serving, Order::Listen),
        _ => (Stage::Halted, Order::Abort),
    }
}

/// The service listens only when the schema changes have just succeeded, and
/// it serves only from then on.
pub proof fn listens_only_when_migrated(stage: Stage, progress: Progress)
    ensures
        next_stage(stage, progress).1 == Order::Listen <==> stage == Stage::Migrating && progress
            == Progress::Succeeded,
        next_stage(stage, progress).0 == Stage::Serving <==> next_stage(stage, progress).1
            == Order::Listen,
        progress == Progress::Failed ==> next_stage(stage, progress) == (
            Stage::Halted,
            Order::Abort,
        ),
{
}

} // verus!
