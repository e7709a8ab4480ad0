//! Teardown: from a live database back to nothing.
//!
//! A database with open sessions cannot be dropped, so the sessions of other
//! clients are terminated first, over an administrative connection, and the
//! database is dropped after that. The run is a fixed list of steps, taken
//! one after the other; the first failure ends it.

use vstd::prelude::*;
use crate::action::{action_view, all_succeeded, Action, ActionView, ErrorKind};
use crate::endpoint::{admin_url, admin_url_of};
use crate::name::is_generated_name;
use crate::statement::{drop_database, drop_database_of, terminate_sessions, terminate_sessions_of};

verus! {

/// The steps of teardown, in the order in which they are taken.
#[derive(Clone, Copy, Debug, PartialEq, Eq, Structural)]
pub enum TeardownStep {
    ConnectAdmin,
    TerminateSessions,
    DropDatabase,
}

/// Where a teardown run stands.
#[derive(Clone, Copy, Debug, PartialEq, Eq, Structural)]
pub enum TeardownState {
    /// This step is to be carried out next; all steps before it succeeded.
    Pending(TeardownStep),
    /// Every step succeeded: the database is gone.
    Dropped,
    /// This step did not succeed; nothing after it was attempted.
    Failed(TeardownStep),
}

/// Why a teardown run did not end with the database dropped.
#[derive(Clone, Copy, Debug, PartialEq, Eq, Structural)]
pub enum TeardownError {
    /// The run is not over: this step has not been carried out.
    Unfinished(TeardownStep),
    /// A step failed, with a failure of this class.
    Failed(ErrorKind),
}

/// Number of steps of teardown.
pub const TEARDOWN_STEPS: usize = 3;

impl TeardownStep {
    /// How many steps stand before this one.
    pub open spec fn position(self) -> nat {
        match self {
            TeardownStep::ConnectAdmin => 0,
            TeardownStep::TerminateSessions => 1,
            TeardownStep::DropDatabase => 2,
        }
    }

    /// The class of a failure of this step.
    pub open spec fn spec_failure_kind(self) -> ErrorKind {
        match self {
            TeardownStep::ConnectAdmin => ErrorKind::Connectivity,
            TeardownStep::TerminateSessions => ErrorKind::Teardown,
            TeardownStep::DropDatabase => ErrorKind::Teardown,
        }
    }

    /// The class of a failure of this step.
    #[verifier::when_used_as_spec(spec_failure_kind)]
    pub fn failure_kind(self) -> (kind: ErrorKind)
        ensures
            kind == self.spec_failure_kind(),
    {
        match self {
            TeardownStep::ConnectAdmin => ErrorKind::Connectivity,
            TeardownStep::TerminateSessions => ErrorKind::Teardown,
            TeardownStep::DropDatabase => ErrorKind::Teardown,
        }
    }
}

impl TeardownState {
    /// The state after the pending step, if there is one, has been carried
    /// out with the given result. A finished run stays as it is.
    pub open spec fn spec_after(self, succeeded: bool) -> TeardownState {
        match self {
            TeardownState::Pending(step) => if !succeeded {
                TeardownState::Failed(step)
            } else {
                match step {
                    TeardownStep::ConnectAdmin => TeardownState::Pending(
                        TeardownStep::TerminateSessions,
                    ),
                    TeardownStep::TerminateSessions => TeardownState::Pending(
                        TeardownStep::DropDatabase,
                    ),
                    TeardownStep::DropDatabase => TeardownState::Dropped,
                }
            },
            TeardownState::Dropped => self,
            TeardownState::Failed(_) => self,
        }
    }

    /// The state after the pending step, if there is one, has been carried
    /// out with the given result. A finished run stays as it is.
    #[verifier::when_used_as_spec(spec_after)]
    pub fn after(self, succeeded: bool) -> (next: TeardownState)
        ensures
            next == self.spec_after(succeeded),
    {
        match self {
            TeardownState::Pending(step) => {
                if !succeeded {
                    TeardownState::Failed(step)
                } else {
                    match step {
                        TeardownStep::ConnectAdmin => TeardownState::Pending(
                            TeardownStep::TerminateSessions,
                        ),
                        TeardownStep::TerminateSessions => TeardownState::Pending(
                            TeardownStep::DropDatabase,
                        ),
                        TeardownStep::DropDatabase => TeardownState::Dropped,
                    }
                }
            },
            TeardownState::Dropped => self,
            TeardownState::Failed(_) => self,
        }
    }

    /// How a run in this state has ended: well, not yet, or badly.
    pub open spec fn spec_outcome(self) -> Result<(), TeardownError> {
        match self {
            TeardownState::Pending(step) => Err(TeardownError::Unfinished(step)),
            TeardownState::Dropped => Ok(()),
            TeardownState::Failed(step) => Err(TeardownError::Failed(step.spec_failure_kind())),
        }
    }
}

/// The action that a teardown run for the database `name` on the server at
/// `server` offers in `state`: none once the run has finished.
pub open spec fn teardown_action(
    server: Seq<char>,
    name: Seq<char>,
    state: TeardownState,
) -> Option<ActionView> {
    match state {
        TeardownState::Pending(TeardownStep::ConnectAdmin) => Some(
            ActionView::Connect(admin_url_of(server)),
        ),
        TeardownState::Pending(TeardownStep::TerminateSessions) => Some(
            ActionView::Execute(terminate_sessions_of(name)),
        ),
        TeardownState::Pending(TeardownStep::DropDatabase) => Some(
            ActionView::Execute(drop_database_of(name)),
        ),
        TeardownState::Dropped => None,
        TeardownState::Failed(_) => None,
    }
}

/// The state of a teardown run whose steps so far ended as `results` tells,
/// oldest first.
pub open spec fn teardown_run(results: Seq<bool>) -> TeardownState
    decreases results.len(),
{
    if results.len() == 0 {
        TeardownState::Pending(TeardownStep::ConnectAdmin)
    } else {
        teardown_run(results.drop_last()).spec_after(results.last())
    }
}

/// What a teardown run's state says about the results recorded so far.
///
/// A step is pending exactly when all steps before it, and no others, have
/// been recorded, each as a success: the database is dropped only after the
/// sessions on it have been terminated, whether or not any was open. The
/// database counts as dropped exactly when the first three results are
/// successes, and the run has failed at a step exactly when the steps before
/// it succeeded and the step itself did not.
pub proof fn lemma_teardown_run(results: Seq<bool>)
    ensures
        match teardown_run(results) {
            TeardownState::Pending(step) => {
                &&& results.len() == step.position()
                &&& all_succeeded(results, results.len())
            },
            TeardownState::Dropped => {
                &&& results.len() >= TEARDOWN_STEPS
                &&& all_succeeded(results, TEARDOWN_STEPS as nat)
            },
            TeardownState::Failed(step) => {
                &&& results.len() > step.position()
                &&& all_succeeded(results, step.position())
                &&& !results[step.position() as int]
            },
        },
    decreases results.len(),
{
    if results.len() > 0 {
        let earlier = results.drop_last();
        lemma_teardown_run(earlier);
        assert forall|i: int| 0 <= i < earlier.len() implies earlier[i] == results[i] by {}
        assert(results.last() == results[results.len() - 1]);
    }
}

/// The database counts as dropped if and only if at least three results were
/// recorded and the first three are successes.
pub proof fn lemma_dropped_iff_every_step_succeeded(results: Seq<bool>)
    ensures
        teardown_run(results) == TeardownState::Dropped <==> results.len() >= TEARDOWN_STEPS
            && all_succeeded(results, TEARDOWN_STEPS as nat),
{
    lemma_teardown_run(results);
}

/// A finished run stays as it is, whatever is recorded after it: a database
/// is torn down once.
pub proof fn lemma_finished_run_is_final(results: Seq<bool>, later: Seq<bool>)
    requires
        !(teardown_run(results) is Pending),
    ensures
        teardown_run(results + later) == teardown_run(results),
    decreases later.len(),
{
    if later.len() == 0 {
        assert(results + later =~= results);
    } else {
        lemma_finished_run_is_final(results, later.drop_last());
        assert((results + later).drop_last() =~= results + later.drop_last());
        assert((results + later).last() == later.last());
    }
}

/// A teardown run: the database it is to drop, and how far it has come.
#[derive(Debug)]
pub struct Teardown {
    server_url: String,
    db_name: String,
    state: TeardownState,
}

/// A [`Teardown`] as a mathematical value.
pub struct TeardownView {
    pub server_url: Seq<char>,
    pub db_name: Seq<char>,
    pub state: TeardownState,
}

impl View for Teardown {
    type V = TeardownView;

    closed spec fn view(&self) -> TeardownView {
        TeardownView { server_url: self.server_url@, db_name: self.db_name@, state: self.state }
    }
}

impl Teardown {
    #[verifier::type_invariant]
    spec fn named_by_generator(&self) -> bool {
        is_generated_name(self.db_name@)
    }

    /// A run that has not begun, for the database `db_name` on the server at
    /// `server_url`.
    pub(crate) fn begin(server_url: String, db_name: String) -> (run: Teardown)
        requires
            is_generated_name(db_name@),
        ensures
            run@.server_url == server_url@,
            run@.db_name == db_name@,
            run@.state == TeardownState::Pending(TeardownStep::ConnectAdmin),
    {
        Teardown { server_url, db_name, state: TeardownState::Pending(TeardownStep::ConnectAdmin) }
    }

    /// Where the run stands.
    pub fn state(&self) -> (state: TeardownState)
        ensures
            state == self@.state,
    {
        self.state
    }

    /// The name of the database that the run drops.
    pub fn db_name(&self) -> (name: &str)
        ensures
            name@ == self@.db_name,
            is_generated_name(name@),
    {
        proof {
            use_type_invariant(self);
        }
        self.db_name.as_str()
    }

    /// The action to carry out next, or `None` once the run has finished.
    pub fn next_action(&self) -> (action: Option<Action>)
        ensures
            action_view(action) == teardown_action(self@.server_url, self@.db_name, self@.state),
    {
        match self.state {
            TeardownState::Pending(TeardownStep::ConnectAdmin) => Some(
                Action::Connect(admin_url(self.server_url.as_str())),
            ),
            TeardownState::Pending(TeardownStep::TerminateSessions) => Some(
                Action::Execute(terminate_sessions(self.db_name.as_str())),
            ),
            TeardownState::Pending(TeardownStep::DropDatabase) => Some(
                Action::Execute(drop_database(self.db_name.as_str())),
            ),
            TeardownState::Dropped => None,
            TeardownState::Failed(_) => None,
        }
    }

    /// Records how the action offered last ended. A finished run ignores it.
    pub fn record(&mut self, succeeded: bool)
        ensures
            final(self)@.server_url == old(self)@.server_url,
            final(self)@.db_name == old(self)@.db_name,
            final(self)@.state == old(self)@.state.spec_after(succeeded),
    {
        proof {
            use_type_invariant(&*self);
        }
        self.state = self.state.after(succeeded);
    }

    /// How the run has ended. It is `Ok` only once the database has been
    /// dropped. A failure is not to be passed over: a database that could
    /// not be removed stays behind on the server.
    pub fn outcome(&self) -> (outcome: Result<(), TeardownError>)
        ensures
            outcome == self@.state.spec_outcome(),
    {
        match self.state {
            TeardownState::Pending(step) => Err(TeardownError::Unfinished(step)),
            TeardownState::Dropped => Ok(()),
            TeardownState::Failed(step) => Err(TeardownError::Failed(step.failure_kind())),
        }
    }
}

} // verus!
