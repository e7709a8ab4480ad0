//! What a fixture asks its caller to do, and how failures are classed.
//!
//! The library performs no I/O. Each phase of a fixture's life offers
//! [`Action`]s one at a time; the caller carries each out and reports whether
//! it succeeded.

use vstd::prelude::*;

verus! {

/// The classes of failure in a fixture's life.
#[derive(Clone, Copy, Debug, PartialEq, Eq, Structural)]
pub enum ErrorKind {
    /// The administrative or the target endpoint could not be reached.
    Connectivity,
    /// The server refused to create the database.
    Provisioning,
    /// The migration set could not be loaded or applied.
    Migration,
    /// Sessions could not be terminated or the database could not be dropped.
    Teardown,
}

/// One piece of outside work, to be carried out by the caller.
#[derive(Debug, PartialEq, Eq)]
pub enum Action {
    /// Open a connection to this URL. It becomes the current connection.
    Connect(String),
    /// Run this statement on the current connection.
    Execute(String),
    /// Load the migration set and apply all of it, in order, on the current
    /// connection.
    Migrate,
}

/// An [`Action`] as a mathematical value.
pub enum ActionView {
    Connect(Seq<char>),
    Execute(Seq<char>),
    Migrate,
}

impl View for Action {
    type V = ActionView;

    open spec fn view(&self) -> ActionView {
        match self {
            Action::Connect(url) => ActionView::Connect(url@),
            Action::Execute(sql) => ActionView::Execute(sql@),
            Action::Migrate => ActionView::Migrate,
        }
    }
}

/// The view of an action that may be absent.
pub open spec fn action_view(action: Option<Action>) -> Option<ActionView> {
    match action {
        Some(a) => Some(a@),
        None => None,
    }
}

/// Whether the first `n` of `results`, the recorded results of a run's steps,
/// are all successes.
pub open spec fn all_succeeded(results: Seq<bool>, n: nat) -> bool {
    forall|i: int| 0 <= i < n ==> results[i]
}

} // verus!
