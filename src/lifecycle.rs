use vstd::prelude::*;

verus! {

/// The ways a named temporary file leaves its active stage.
#[derive(Clone, Copy, Debug, PartialEq, Eq, Structural)]
pub enum Exit {
    /// `close`: delete the file and tell the caller how that went.
    Close,
    /// `into_path`: the caller takes the path and, with it, the duty to delete.
    IntoPath,
    /// The owner went away without choosing: delete the file, nobody hears of errors.
    Abandon,
}

/// What must happen on the file system when a named file leaves its active stage.
#[derive(Clone, Copy, Debug, PartialEq, Eq, Structural)]
pub struct Cleanup {
    /// Close the open handle (else it goes to the caller).
    pub close_handle: bool,
    /// Delete the file at the path.
    pub remove_file: bool,
    /// Hand the outcome of the deletion to the caller.
    pub report_removal: bool,
}

/// The outcome of a persist attempt for the lifecycle.
#[derive(Clone, Copy, Debug, PartialEq, Eq, Structural)]
pub enum PersistStep {
    /// The rename succeeded: give the open handle to the caller, delete nothing.
    HandOver,
    /// The rename failed: give the still active file back with the error.
    GiveBack,
    /// The file had already left its active stage: nothing may be done with it.
    Refused,
}

pub open spec fn cleanup_of(e: Exit) -> Cleanup {
    match e {
        Exit::Close => Cleanup { close_handle: true, remove_file: true, report_removal: true },
        Exit::IntoPath => Cleanup { close_handle: true, remove_file: false, report_removal: false },
        Exit::Abandon => Cleanup { close_handle: true, remove_file: true, report_removal: false },
    }
}

/// Leaving by `e` from a file that is `active` or not: whether it is active
/// afterwards, and the cleanup to perform, if any.
pub open spec fn leave_spec(active: bool, e: Exit) -> (bool, Option<Cleanup>) {
    if active {
        (false, Some(cleanup_of(e)))
    } else {
        (false, None)
    }
}

/// The persist attempt on a file that is `active` or not, whose rename
/// succeeded or not: whether it is active afterwards, and what follows.
pub open spec fn persist_spec(active: bool, renamed: bool) -> (bool, PersistStep) {
    if !active {
        (false, PersistStep::Refused)
    } else if renamed {
        (false, PersistStep::HandOver)
    } else {
        (true, PersistStep::GiveBack)
    }
}

/// The stage of a named temporary file: active, with an open handle and an
/// existing path, or consumed, with neither.
pub struct Lifecycle {
    active: bool,
}

impl Lifecycle {
    pub closed spec fn active(&self) -> bool {
        self.active
    }

    /// A file just created: active.
    pub fn new() -> (r: Lifecycle)
        ensures
            r.active(),
    {
        Lifecycle { active: true }
    }

    /// Whether the file is still active.
    pub fn is_active(&self) -> (r: bool)
        ensures
            r == self.active(),
    {
        self.active
    }

    /// Leaves the active stage by `e`. The first exit yields the cleanup that it
    /// calls for; any later one yields nothing, so a file is cleaned up once.
    pub fn leave(&mut self, e: Exit) -> (r: Option<Cleanup>)
        ensures
            (final(self).active(), r) == leave_spec(old(self).active(), e),
    {
        if self.active {
            self.active = false;
            Some(cleanup_for(e))
        } else {
            None
        }
    }

    /// Records the outcome of the rename that a persist attempt made.
    pub fn persist_result(&mut self, renamed: bool) -> (r: PersistStep)
        ensures
            (final(self).active(), r) == persist_spec(old(self).active(), renamed),
    {
        if !self.active {
            PersistStep::Refused
        } else if renamed {
            self.active = false;
            PersistStep::HandOver
        } else {
            PersistStep::GiveBack
        }
    }
}

/// The cleanup that leaving by `e` calls for.
pub fn cleanup_for(e: Exit) -> (r: Cleanup)
    ensures
        r == cleanup_of(e),
{
    match e {
        Exit::Close => Cleanup { close_handle: true, remove_file: true, report_removal: true },
        Exit::IntoPath => Cleanup { close_handle: true, remove_file: false, report_removal: false },
        Exit::Abandon => Cleanup { close_handle: true, remove_file: true, report_removal: false },
    }
}

/// A named file leaves its active stage exactly once: after a first exit of any
/// kind, a second exit of any kind calls for no cleanup at all, and a persist
/// attempt is refused.
pub proof fn lemma_single_exit(first: Exit, second: Exit, renamed: bool)
    ensures
        leave_spec(true, first).1 is Some,
        !leave_spec(true, first).0,
        leave_spec(leave_spec(true, first).0, second).1 is None,
        persist_spec(leave_spec(true, first).0, renamed).1 == PersistStep::Refused,
{
}

/// Abandoning an active named file closes its handle and deletes the file, and
/// no error of that deletion reaches anyone.
pub proof fn lemma_abandon_deletes()
    ensures
        leave_spec(true, Exit::Abandon).1 == Some(
            Cleanup { close_handle: true, remove_file: true, report_removal: false },
        ),
{
}

/// Closing an active named file deletes it and hands the outcome of the
/// deletion to the caller.
pub proof fn lemma_close_reports_removal()
    ensures
        leave_spec(true, Exit::Close).1 == Some(
            Cleanup { close_handle: true, remove_file: true, report_removal: true },
        ),
{
}

/// A failed persist leaves the file active and untouched, and gives it back;
/// it can still be persisted, closed or abandoned later.
pub proof fn lemma_failed_persist_keeps_file(later: Exit)
    ensures
        persist_spec(true, false) == (true, PersistStep::GiveBack),
        leave_spec(persist_spec(true, false).0, later).1 == Some(cleanup_of(later)),
{
}

/// After `into_path` the file stays on disk: that exit deletes nothing, and
/// no later exit, abandonment included, cleans anything up.
pub proof fn lemma_into_path_keeps_file(later: Exit)
    ensures
        !cleanup_of(Exit::IntoPath).remove_file,
        leave_spec(true, Exit::IntoPath).1 == Some(cleanup_of(Exit::IntoPath)),
        leave_spec(leave_spec(true, Exit::IntoPath).0, later).1 is None,
{
}

/// A successful persist hands the open handle over and deletes nothing; the
/// file is no longer cleaned up afterwards.
pub proof fn lemma_persist_hands_over(later: Exit)
    ensures
        persist_spec(true, true) == (false, PersistStep::HandOver),
        leave_spec(persist_spec(true, true).0, later).1 is None,
{
}

} // verus!
