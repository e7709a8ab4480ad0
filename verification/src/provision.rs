//! Provisioning: from nothing to a migrated database.
//!
//! A run is a fixed list of steps. It offers the action of its current step,
//! the caller performs it and records whether it succeeded, and the run moves
//! on: to the next step after a success, to a final failure after the first
//! step that did not succeed. No step is offered before the one in front of
//! it has succeeded.

use vstd::prelude::*;
use crate::action::{action_view, all_succeeded, Action, ActionView, ErrorKind};
use crate::endpoint::{admin_url, admin_url_of, database_url, database_url_of};
use crate::name::{fresh_database_name, is_generated_name};
use crate::statement::{create_database, create_database_of};

verus! {

/// The steps of provisioning, in the order in which they are taken.
#[derive(Clone, Copy, Debug, PartialEq, Eq, Structural)]
pub enum ProvisionStep {
    ConnectAdmin,
    CreateDatabase,
    ConnectDatabase,
    Migrate,
}

/// Where a provisioning run stands.
#[derive(Clone, Copy, Debug, PartialEq, Eq, Structural)]
pub enum ProvisionState {
    /// This step is to be carried out next; all steps before it succeeded.
    Pending(ProvisionStep),
    /// Every step succeeded: the database exists and is migrated.
    Ready,
    /// This step did not succeed; nothing after it was attempted.
    Failed(ProvisionStep),
}

/// Why a provisioning run did not end with a usable database.
#[derive(Clone, Copy, Debug, PartialEq, Eq, Structural)]
pub enum ProvisionError {
    /// The run is not over: this step has not been carried out.
    Unfinished(ProvisionStep),
    /// A step failed, with a failure of this class.
    Failed(ErrorKind),
}

/// Number of steps of provisioning.
pub const PROVISION_STEPS: usize = 4;

impl ProvisionStep {
    /// How many steps stand before this one.
    pub open spec fn position(self) -> nat {
        match self {
            ProvisionStep::ConnectAdmin => 0,
            ProvisionStep::CreateDatabase => 1,
            ProvisionStep::ConnectDatabase => 2,
            ProvisionStep::Migrate => 3,
        }
    }

    /// The class of a failure of this step.
    pub open spec fn spec_failure_kind(self) -> ErrorKind {
        match self {
            ProvisionStep::ConnectAdmin => ErrorKind::Connectivity,
            ProvisionStep::CreateDatabase => ErrorKind::Provisioning,
            ProvisionStep::ConnectDatabase => ErrorKind::Connectivity,
            ProvisionStep::Migrate => ErrorKind::Migration,
        }
    }

    /// The class of a failure of this step.
    #[verifier::when_used_as_spec(spec_failure_kind)]
    pub fn failure_kind(self) -> (kind: ErrorKind)
        ensures
            kind == self.spec_failure_kind(),
    {
        match self {
            ProvisionStep::ConnectAdmin => ErrorKind::Connectivity,
            ProvisionStep::CreateDatabase => ErrorKind::Provisioning,
            ProvisionStep::ConnectDatabase => ErrorKind::Connectivity,
            ProvisionStep::Migrate => ErrorKind::Migration,
        }
    }
}

impl ProvisionState {
    /// The state after the pending step, if there is one, has been carried
    /// out with the given result. A finished run stays as it is.
    pub open spec fn spec_after(self, succeeded: bool) -> ProvisionState {
        match self {
            ProvisionState::Pending(step) => if !succeeded {
                ProvisionState::Failed(step)
            } else {
                match step {
                    ProvisionStep::ConnectAdmin => ProvisionState::Pending(
                        ProvisionStep::CreateDatabase,
                    ),
                    ProvisionStep::CreateDatabase => ProvisionState::Pending(
                        ProvisionStep::ConnectDatabase,
                    ),
                    ProvisionStep::ConnectDatabase => ProvisionState::Pending(
                        ProvisionStep::Migrate,
                    ),
                    ProvisionStep::Migrate => ProvisionState::Ready,
                }
            },
            ProvisionState::Ready => self,
            ProvisionState::Failed(_) => self,
        }
    }

    /// The state after the pending step, if there is one, has been carried
    /// out with the given result. A finished run stays as it is.
    #[verifier::when_used_as_spec(spec_after)]
    pub fn after(self, succeeded: bool) -> (next: ProvisionState)
        ensures
            next == self.spec_after(succeeded),
    {
        match self {
            ProvisionState::Pending(step) => {
                if !succeeded {
                    ProvisionState::Failed(step)
                } else {
                    match step {
                        ProvisionStep::ConnectAdmin => ProvisionState::Pending(
                            ProvisionStep::CreateDatabase,
                        ),
                        ProvisionStep::CreateDatabase => ProvisionState::Pending(
                            ProvisionStep::ConnectDatabase,
                        ),
                        ProvisionStep::ConnectDatabase => ProvisionState::Pending(
                            ProvisionStep::Migrate,
                        ),
                        ProvisionStep::Migrate => ProvisionState::Ready,
                    }
                }
            },
            ProvisionState::Ready => self,
            ProvisionState::Failed(_) => self,
        }
    }
}

/// The action that a provisioning run for the database `name` on the server
/// at `server` offers in `state`: none once the run has finished.
pub open spec fn provision_action(
    server: Seq<char>,
    name: Seq<char>,
    state: ProvisionState,
) -> Option<ActionView> {
    match state {
        ProvisionState::Pending(ProvisionStep::ConnectAdmin) => Some(
            ActionView::Connect(admin_url_of(server)),
        ),
        ProvisionState::Pending(ProvisionStep::CreateDatabase) => Some(
            ActionView::Execute(create_database_of(name)),
        ),
        ProvisionState::Pending(ProvisionStep::ConnectDatabase) => Some(
            ActionView::Connect(database_url_of(server, name)),
        ),
        ProvisionState::Pending(ProvisionStep::Migrate) => Some(ActionView::Migrate),
        ProvisionState::Ready => None,
        ProvisionState::Failed(_) => None,
    }
}

/// The state of a provisioning run whose steps so far ended as `results`
/// tells, oldest first.
pub open spec fn provision_run(results: Seq<bool>) -> ProvisionState
    decreases results.len(),
{
    if results.len() == 0 {
        ProvisionState::Pending(ProvisionStep::ConnectAdmin)
    } else {
        provision_run(results.drop_last()).spec_after(results.last())
    }
}

/// What a provisioning run's state says about the results recorded so far.
///
/// A step is pending exactly when all steps before it, and no others, have
/// been recorded, each as a success. The run is ready exactly when the first
/// four results are successes. It has failed at a step exactly when the
/// steps before it succeeded and the step itself did not. So there is no
/// usable fixture unless every step of provisioning succeeded, and no step is
/// begun before the one in front of it has completed.
pub proof fn lemma_provision_run(results: Seq<bool>)
    ensures
        match provision_run(results) {
            ProvisionState::Pending(step) => {
                &&& results.len() == step.position()
                &&& all_succeeded(results, results.len())
            },
            ProvisionState::Ready => {
                &&& results.len() >= PROVISION_STEPS
                &&& all_succeeded(results, PROVISION_STEPS as nat)
            },
            ProvisionState::Failed(step) => {
                &&& results.len() > step.position()
                &&& all_succeeded(results, step.position())
                &&& !results[step.position() as int]
            },
        },
    decreases results.len(),
{
    if results.len() > 0 {
        let earlier = results.drop_last();
        lemma_provision_run(earlier);
        assert forall|i: int| 0 <= i < earlier.len() implies earlier[i] == results[i] by {}
        assert(results.last() == results[results.len() - 1]);
    }
}

/// Construction is all or nothing: a run is ready if and only if at least
/// four results were recorded and the first four are successes.
pub proof fn lemma_ready_iff_every_step_succeeded(results: Seq<bool>)
    ensures
        provision_run(results) == ProvisionState::Ready <==> results.len() >= PROVISION_STEPS
            && all_succeeded(results, PROVISION_STEPS as nat),
{
    lemma_provision_run(results);
}

/// A finished run stays as it is, whatever is recorded after it: nothing is
/// begun a second time.
pub proof fn lemma_finished_run_is_final(results: Seq<bool>, later: Seq<bool>)
    requires
        !(provision_run(results) is Pending),
    ensures
        provision_run(results + later) == provision_run(results),
    decreases later.len(),
{
    if later.len() == 0 {
        assert(results + later =~= results);
    } else {
        lemma_finished_run_is_final(results, later.drop_last());
        assert((results + later).drop_last() =~= results + later.drop_last());
        assert((results + later).last() == later.last());
    }
}

/// A provisioning run: the database it is to create, and how far it has come.
#[derive(Debug)]
pub struct Provisioning {
    server_url: String,
    db_name: String,
    state: ProvisionState,
}

/// A [`Provisioning`] as a mathematical value.
pub struct ProvisioningView {
    pub server_url: Seq<char>,
    pub db_name: Seq<char>,
    pub state: ProvisionState,
}

impl View for Provisioning {
    type V = ProvisioningView;

    closed spec fn view(&self) -> ProvisioningView {
        ProvisioningView {
            server_url: self.server_url@,
            db_name: self.db_name@,
            state: self.state,
        }
    }
}

impl Provisioning {
    #[verifier::type_invariant]
    spec fn named_by_generator(&self) -> bool {
        is_generated_name(self.db_name@)
    }

    /// Starts a run for a new database on the server at `server_url`, under
    /// a fresh random name. Nothing has been done yet.
    pub fn begin(server_url: String) -> (run: Provisioning)
        ensures
            run@.server_url == server_url@,
            is_generated_name(run@.db_name),
            run@.state == ProvisionState::Pending(ProvisionStep::ConnectAdmin),
    {
        Provisioning {
            server_url,
            db_name: fresh_database_name(),
            state: ProvisionState::Pending(ProvisionStep::ConnectAdmin),
        }
    }

    /// Where the run stands.
    pub fn state(&self) -> (state: ProvisionState)
        ensures
            state == self@.state,
    {
        self.state
    }

    /// The name of the database that the run creates.
    pub fn db_name(&self) -> (name: &str)
        ensures
            name@ == self@.db_name,
            is_generated_name(name@),
    {
        proof {
            use_type_invariant(self);
        }
        self.db_name.as_str()
    }

    /// The action to carry out next, or `None` once the run has finished.
    pub fn next_action(&self) -> (action: Option<Action>)
        ensures
            action_view(action) == provision_action(self@.server_url, self@.db_name, self@.state),
    {
        match self.state {
            ProvisionState::Pending(ProvisionStep::ConnectAdmin) => Some(
                Action::Connect(admin_url(self.server_url.as_str())),
            ),
            ProvisionState::Pending(ProvisionStep::CreateDatabase) => Some(
                Action::Execute(create_database(self.db_name.as_str())),
            ),
            ProvisionState::Pending(ProvisionStep::ConnectDatabase) => Some(
                Action::Connect(database_url(self.server_url.as_str(), self.db_name.as_str())),
            ),
            ProvisionState::Pending(ProvisionStep::Migrate) => Some(Action::Migrate),
            ProvisionState::Ready => None,
            ProvisionState::Failed(_) => None,
        }
    }

    /// Records how the action offered last ended. A finished run ignores it.
    pub fn record(&mut self, succeeded: bool)
        ensures
            final(self)@.server_url == old(self)@.server_url,
            final(self)@.db_name == old(self)@.db_name,
            final(self)@.state == old(self)@.state.spec_after(succeeded),
    {
        proof {
            use_type_invariant(&*self);
        }
        self.state = self.state.after(succeeded);
    }

    /// Gives up the run's two strings: the server's address, then the name.
    pub(crate) fn into_parts(self) -> (parts: (String, String))
        ensures
            parts.0@ == self@.server_url,
            parts.1@ == self@.db_name,
            is_generated_name(parts.1@),
    {
        proof {
            use_type_invariant(&self);
        }
        (self.server_url, self.db_name)
    }
}

} // verus!
