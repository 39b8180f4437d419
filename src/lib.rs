//! Secure temporary files: the decisions behind creating them and cleaning them up.
//!
//! The library holds the parts of a temporary-file implementation that are pure
//! logic, each with a proved contract: how candidate names are drawn, which
//! outcome of an exclusive create is retried, which operating-system steps give
//! an unnamed file that no path reaches, how a set of shared handles is produced
//! all or nothing, and the lifecycle of a named file from creation to exactly one
//! of close, persist, detach or abandonment.
mod anonymous;
mod create;
mod lifecycle;
mod name;

pub use anonymous::{
    creation_steps, lemma_shared_never_linked, lemma_unnamed_never_linked, tier_for, Entry, FsStep, Platform, SharedAction,
    SharedCreation, Tier,
};
pub use create::{lemma_creation_never_overwrites, next_step, Attempt, ErrorKind, RunEnd, Step};
pub use lifecycle::{
    cleanup_for, lemma_abandon_deletes, lemma_close_reports_removal, lemma_failed_persist_keeps_file,
    lemma_into_path_keeps_file, lemma_persist_hands_over, lemma_single_exit, Cleanup, Exit,
    Lifecycle, PersistStep,
};
pub use name::{candidate_name, tmpname, RANDOM_LEN};
