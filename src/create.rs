use vstd::prelude::*;

verus! {

/// The kinds of operating-system failure that the creation and lifecycle
/// protocols tell apart.
#[derive(Clone, Copy, Debug, PartialEq, Eq, Structural)]
pub enum ErrorKind {
    /// Something already exists at the path.
    AlreadyExists,
    /// Nothing exists at the path.
    NotFound,
    /// The caller may not perform the operation.
    PermissionDenied,
    /// A rename would cross a file-system boundary.
    CrossDeviceLink,
    /// The platform lacks the capability.
    Unsupported,
    /// Any other failure.
    Other,
}

/// What one exclusive create at a candidate path gave.
#[derive(Clone, Copy, Debug, PartialEq, Eq, Structural)]
pub enum Attempt {
    /// The file was created and opened: nothing existed at the path before.
    Created,
    /// The create failed with this kind of error.
    Failed(ErrorKind),
}

/// What the creation loop does after an attempt.
#[derive(Clone, Copy, Debug, PartialEq, Eq, Structural)]
pub enum Step {
    /// Keep the file just created: the loop ends in success.
    Accept,
    /// The name was taken: draw a new name and try again.
    Retry,
    /// Give up and hand this error to the caller.
    Fail(ErrorKind),
}

pub open spec fn step_of(a: Attempt) -> Step {
    match a {
        Attempt::Created => Step::Accept,
        Attempt::Failed(ErrorKind::AlreadyExists) => Step::Retry,
        Attempt::Failed(k) => Step::Fail(k),
    }
}

/// Decides the next step of the creation loop: only a taken name is retried,
/// every other error ends the loop.
pub fn next_step(a: Attempt) -> (r: Step)
    ensures
        r == step_of(a),
{
    match a {
        Attempt::Created => Step::Accept,
        Attempt::Failed(ErrorKind::AlreadyExists) => Step::Retry,
        Attempt::Failed(k) => Step::Fail(k),
    }
}

/// How a run of the creation loop ends on a given series of attempts.
pub enum RunEnd {
    /// The attempt at this index created the file.
    Created(nat),
    /// The attempt at this index failed with this error.
    Failed(nat, ErrorKind),
    /// Every attempt found its name taken: the loop is still going.
    Running,
}

/// The end of the creation loop fed `attempts` in order, following `step_of`.
pub open spec fn run_end(attempts: Seq<Attempt>) -> RunEnd
    decreases attempts.len(),
{
    if attempts.len() == 0 {
        RunEnd::Running
    } else {
        match step_of(attempts[0]) {
            Step::Accept => RunEnd::Created(0),
            Step::Fail(k) => RunEnd::Failed(0, k),
            Step::Retry => match run_end(attempts.drop_first()) {
                RunEnd::Created(i) => RunEnd::Created(i + 1),
                RunEnd::Failed(i, k) => RunEnd::Failed(i + 1, k),
                RunEnd::Running => RunEnd::Running,
            },
        }
    }
}

/// The creation loop never takes over an existing file. It ends on the first
/// attempt that did not find its name taken: if that attempt created the file,
/// the loop keeps it, and every earlier name was left alone because it already
/// existed; if it failed otherwise, that error is what the caller gets. While
/// every name is taken, the loop goes on.
pub proof fn lemma_creation_never_overwrites(attempts: Seq<Attempt>)
    ensures
        match run_end(attempts) {
            RunEnd::Created(i) => {
                &&& i < attempts.len()
                &&& attempts[i as int] == Attempt::Created
                &&& forall|j: int| 0 <= j < i ==> attempts[j] == Attempt::Failed(ErrorKind::AlreadyExists)
            },
            RunEnd::Failed(i, k) => {
                &&& i < attempts.len()
                &&& k != ErrorKind::AlreadyExists
                &&& attempts[i as int] == Attempt::Failed(k)
                &&& forall|j: int| 0 <= j < i ==> attempts[j] == Attempt::Failed(ErrorKind::AlreadyExists)
            },
            RunEnd::Running => forall|j: int|
                0 <= j < attempts.len() ==> attempts[j] == Attempt::Failed(ErrorKind::AlreadyExists),
        },
    decreases attempts.len(),
{
    if attempts.len() > 0 {
        let rest = attempts.drop_first();
        lemma_creation_never_overwrites(rest);
        assert forall|j: int| 1 <= j < attempts.len() implies attempts[j] == rest[j - 1] by {}
    }
}

} // verus!
