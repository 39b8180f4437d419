use vstd::prelude::*;

verus! {

/// The families of host systems, told apart by what their file systems offer.
#[derive(Clone, Copy, Debug, PartialEq, Eq, Structural)]
pub enum Platform {
    /// Linux, which can create a file that is never linked into a directory.
    Linux,
    /// Any other Unix: a file stays alive after its last name is removed.
    OtherUnix,
    /// Windows: a file can be marked for deletion when its last handle closes.
    Windows,
}

/// How an unnamed temporary file is made, strongest first.
#[derive(Clone, Copy, Debug, PartialEq, Eq, Structural)]
pub enum Tier {
    /// Storage that is never linked into any directory.
    NoLink,
    /// Exclusive create at a candidate path, then remove the entry while the file stays open.
    CreateThenUnlink,
    /// Create at a candidate path with a flag that deletes it when the last handle closes.
    DeleteOnClose,
}

/// One file-system operation of the unnamed creation protocol.
#[derive(Clone, Copy, Debug, PartialEq, Eq, Structural)]
pub enum FsStep {
    /// Open storage in the directory without giving it a name.
    OpenUnlinked,
    /// Exclusive create at a fresh candidate path, retried while the name is taken.
    CreateExclusive,
    /// Remove the directory entry just created; the open handle keeps the storage.
    Unlink,
    /// Exclusive create at a fresh candidate path, marked delete-on-close.
    CreateDeleteOnClose,
    /// Open the storage already held once more, as a new handle with its own
    /// offset; no directory entry is made or read.
    Reopen,
}

/// Whether a directory entry leads to the storage.
pub enum Entry {
    /// No entry leads to it.
    Unreachable,
    /// An entry leads to it and would outlive the handles.
    Linked,
    /// An entry leads to it, and the system deletes it once the last handle closes.
    DeletedOnClose,
}

/// The tier each platform uses: a fixed choice, the strongest the platform has.
pub open spec fn tier_of(p: Platform) -> Tier {
    match p {
        Platform::Linux => Tier::NoLink,
        Platform::OtherUnix => Tier::CreateThenUnlink,
        Platform::Windows => Tier::DeleteOnClose,
    }
}

pub open spec fn steps_of(t: Tier) -> Seq<FsStep> {
    match t {
        Tier::NoLink => seq![FsStep::OpenUnlinked],
        Tier::CreateThenUnlink => seq![FsStep::CreateExclusive, FsStep::Unlink],
        Tier::DeleteOnClose => seq![FsStep::CreateDeleteOnClose],
    }
}

/// What leads to the storage once `steps` have run in order.
pub open spec fn entry_after(steps: Seq<FsStep>) -> Entry
    decreases steps.len(),
{
    if steps.len() == 0 {
        Entry::Unreachable
    } else {
        match steps.last() {
            FsStep::Reopen => entry_after(steps.drop_last()),
            FsStep::OpenUnlinked => Entry::Unreachable,
            FsStep::CreateExclusive => Entry::Linked,
            FsStep::Unlink => Entry::Unreachable,
            FsStep::CreateDeleteOnClose => Entry::DeletedOnClose,
        }
    }
}

/// The tier to use on a platform.
pub fn tier_for(p: Platform) -> (r: Tier)
    ensures
        r == tier_of(p),
{
    match p {
        Platform::Linux => Tier::NoLink,
        Platform::OtherUnix => Tier::CreateThenUnlink,
        Platform::Windows => Tier::DeleteOnClose,
    }
}

/// The operations that create an unnamed file with the given tier, in order.
pub fn creation_steps(t: Tier) -> (r: Vec<FsStep>)
    ensures
        r@ == steps_of(t),
{
    match t {
        Tier::NoLink => vec![FsStep::OpenUnlinked],
        Tier::CreateThenUnlink => vec![FsStep::CreateExclusive, FsStep::Unlink],
        Tier::DeleteOnClose => vec![FsStep::CreateDeleteOnClose],
    }
}

/// Once an unnamed file has been created on any platform, no directory entry
/// leads to its storage as a lasting file: on Unix none leads to it at all, and
/// on Windows the one that does is deleted by the system with the last handle.
pub proof fn lemma_unnamed_never_linked(p: Platform)
    ensures
        !(entry_after(steps_of(tier_of(p))) is Linked),
        p != Platform::Windows ==> entry_after(steps_of(tier_of(p))) is Unreachable,
{
}

/// `n` reopen steps.
pub open spec fn reopens(n: nat) -> Seq<FsStep> {
    Seq::new(n, |i: int| FsStep::Reopen)
}

proof fn lemma_reopens_keep_entry(steps: Seq<FsStep>, n: nat)
    ensures
        entry_after(steps + reopens(n)) == entry_after(steps),
    decreases n,
{
    if n > 0 {
        let all = steps + reopens(n);
        assert(all.drop_last() =~= steps + reopens((n - 1) as nat));
        assert(all.last() == FsStep::Reopen);
        lemma_reopens_keep_entry(steps, (n - 1) as nat);
    }
}

/// What a creator of shared handles does next.
#[derive(Clone, Copy, Debug, PartialEq, Eq, Structural)]
pub enum SharedAction {
    /// Create the unnamed file: its handle is the first.
    CreateFirst,
    /// Open the file once more, as a new handle with its own offset.
    Reopen,
    /// Every handle asked for exists: hand them all out.
    Done,
    /// A handle could not be made: close every handle made so far and report the error.
    CloseAll,
}

/// Progress in making `wanted` handles that share one unnamed file, all or nothing.
pub struct SharedCreation {
    wanted: usize,
    made: usize,
    failed: bool,
}

impl SharedCreation {
    /// The number of handles asked for.
    pub closed spec fn wanted(&self) -> nat {
        self.wanted as nat
    }

    /// The number of handles made so far.
    pub closed spec fn made(&self) -> nat {
        self.made as nat
    }

    /// Whether making a handle has failed.
    pub closed spec fn failed(&self) -> bool {
        self.failed
    }

    pub open spec fn wf(&self) -> bool {
        self.made() <= self.wanted()
    }

    /// The file-system operations behind the handles made so far on a platform
    /// using tier `t`: the first handle is the unnamed file's creation, each
    /// later one a reopen of that same storage.
    pub open spec fn steps_done(&self, t: Tier) -> Seq<FsStep> {
        if self.made() == 0 {
            Seq::empty()
        } else {
            steps_of(t) + reopens((self.made() - 1) as nat)
        }
    }

    /// Starts making `count` handles.
    pub fn new(count: usize) -> (r: SharedCreation)
        ensures
            r.wf(),
            r.wanted() == count,
            r.made() == 0,
            !r.failed(),
    {
        SharedCreation { wanted: count, made: 0, failed: false }
    }

    /// The next thing to do: after a failure, close everything; with every handle
    /// made, finish; else make the first handle or open the file once more.
    pub fn action(&self) -> (r: SharedAction)
        requires
            self.wf(),
        ensures
            self.failed() ==> r == SharedAction::CloseAll,
            !self.failed() && self.made() == self.wanted() ==> r == SharedAction::Done,
            !self.failed() && self.made() < self.wanted() && self.made() == 0 ==> r
                == SharedAction::CreateFirst,
            !self.failed() && 0 < self.made() && self.made() < self.wanted() ==> r
                == SharedAction::Reopen,
            r == SharedAction::Done ==> !self.failed() && self.made() == self.wanted(),
    {
        if self.failed {
            SharedAction::CloseAll
        } else if self.made == self.wanted {
            SharedAction::Done
        } else if self.made == 0 {
            SharedAction::CreateFirst
        } else {
            SharedAction::Reopen
        }
    }

    /// Records whether the handle that `action` asked for was made.
    pub fn record(&mut self, made: bool)
        requires
            old(self).wf(),
            !old(self).failed(),
            old(self).made() < old(self).wanted(),
        ensures
            final(self).wf(),
            final(self).wanted() == old(self).wanted(),
            made ==> final(self).made() == old(self).made() + 1 && !final(self).failed(),
            !made ==> final(self).made() == old(self).made() && final(self).failed(),
    {
        if made {
            self.made = self.made + 1;
        } else {
            self.failed = true;
        }
    }
}

/// However many shared handles have been made, on any platform, no directory
/// entry leads to their common storage as a lasting file: the reopens that make
/// every handle after the first add no entry, so what holds after the unnamed
/// creation holds after all of them.
pub proof fn lemma_shared_never_linked(s: SharedCreation, p: Platform)
    requires
        s.made() >= 1,
    ensures
        entry_after(s.steps_done(tier_of(p))) == entry_after(steps_of(tier_of(p))),
        !(entry_after(s.steps_done(tier_of(p))) is Linked),
        p != Platform::Windows ==> entry_after(s.steps_done(tier_of(p))) is Unreachable,
{
    lemma_reopens_keep_entry(steps_of(tier_of(p)), (s.made() - 1) as nat);
    lemma_unnamed_never_linked(p);
}

} // verus!
