//! The fixture: a handle on one provisioned database.

use vstd::prelude::*;
use crate::endpoint::{database_url, database_url_of, lemma_database_url_injective};
use crate::name::{database_name_of, is_generated_name, is_hyphenated, lemma_name_injective};
use crate::provision::{ProvisionError, ProvisionState, Provisioning};
use crate::teardown::{Teardown, TeardownState, TeardownStep};

verus! {

/// The largest number of connections that a fixture's pool may hold open.
pub const MAX_POOL_CONNECTIONS: u32 = 5;

/// How to build a connection pool for a fixture's database.
#[derive(Debug, PartialEq, Eq)]
pub struct PoolConfig {
    /// The URL that the pool's connections are opened to.
    pub url: String,
    /// The bound on the number of connections open at a time.
    pub max_connections: u32,
}

/// A [`PoolConfig`] as a mathematical value.
pub struct PoolConfigView {
    pub url: Seq<char>,
    pub max_connections: nat,
}

impl View for PoolConfig {
    type V = PoolConfigView;

    open spec fn view(&self) -> PoolConfigView {
        PoolConfigView { url: self.url@, max_connections: self.max_connections as nat }
    }
}

/// A database that exists and is migrated, on a given server.
///
/// The only way to a `TestDb` is a provisioning run of which every step
/// succeeded; see [`TestDb::new`].
#[derive(Debug)]
pub struct TestDb {
    server_url: String,
    db_name: String,
}

/// A [`TestDb`] as a mathematical value.
pub struct TestDbView {
    pub server_url: Seq<char>,
    pub db_name: Seq<char>,
}

impl View for TestDb {
    type V = TestDbView;

    closed spec fn view(&self) -> TestDbView {
        TestDbView { server_url: self.server_url@, db_name: self.db_name@ }
    }
}

impl TestDb {
    #[verifier::type_invariant]
    spec fn named_by_generator(&self) -> bool {
        is_generated_name(self.db_name@)
    }

    /// Turns a provisioning run into a fixture.
    ///
    /// Construction is all or nothing: there is a fixture if and only if the
    /// run is ready, which takes the success of every one of its steps. A
    /// run that has failed gives the class of its failure, and one that is
    /// still under way gives the step that is due.
    pub fn new(run: Provisioning) -> (made: Result<TestDb, ProvisionError>)
        ensures
            match run@.state {
                ProvisionState::Ready => {
                    &&& made matches Ok(db)
                    &&& db@.server_url == run@.server_url
                    &&& db@.db_name == run@.db_name
                },
                ProvisionState::Pending(step) => made matches Err(e) && e
                    == ProvisionError::Unfinished(step),
                ProvisionState::Failed(step) => made matches Err(e) && e == ProvisionError::Failed(
                    step.spec_failure_kind(),
                ),
            },
    {
        match run.state() {
            ProvisionState::Ready => {
                let (server_url, db_name) = run.into_parts();
                Ok(TestDb { server_url, db_name })
            },
            ProvisionState::Pending(step) => Err(ProvisionError::Unfinished(step)),
            ProvisionState::Failed(step) => Err(ProvisionError::Failed(step.failure_kind())),
        }
    }

    /// The name of the fixture's database.
    pub fn db_name(&self) -> (name: &str)
        ensures
            name@ == self@.db_name,
            is_generated_name(name@),
    {
        proof {
            use_type_invariant(self);
        }
        self.db_name.as_str()
    }

    /// The URL of the fixture's database: the server's address, a slash, and
    /// the database name.
    pub fn url(&self) -> (url: String)
        ensures
            url@ == database_url_of(self@.server_url, self@.db_name),
    {
        database_url(self.server_url.as_str(), self.db_name.as_str())
    }

    /// The settings of a pool on the fixture's database: its URL, and at
    /// most [`MAX_POOL_CONNECTIONS`] connections. The fixture is not changed,
    /// and every call gives the same settings for a pool of its own.
    pub fn get_pool(&self) -> (config: PoolConfig)
        ensures
            config@.url == database_url_of(self@.server_url, self@.db_name),
            config@.max_connections == MAX_POOL_CONNECTIONS,
    {
        PoolConfig { url: self.url(), max_connections: MAX_POOL_CONNECTIONS }
    }

    /// The teardown run for the fixture's database, not yet begun.
    pub fn teardown(&self) -> (run: Teardown)
        ensures
            run@.server_url == self@.server_url,
            run@.db_name == self@.db_name,
            run@.state == TeardownState::Pending(TeardownStep::ConnectAdmin),
    {
        proof {
            use_type_invariant(self);
        }
        Teardown::begin(self.server_url.clone(), self.db_name.clone())
    }
}

/// On one server, fixtures whose tokens differ have databases with different
/// URLs: what is written through the pool of one is written to a database
/// that no pool of the other is bound to.
pub proof fn lemma_fixtures_do_not_share_a_database(
    server: Seq<char>,
    a: Seq<char>,
    b: Seq<char>,
)
    requires
        is_hyphenated(a),
        is_hyphenated(b),
        a != b,
    ensures
        database_name_of(a) != database_name_of(b),
        database_url_of(server, database_name_of(a)) != database_url_of(
            server,
            database_name_of(b),
        ),
{
    if database_name_of(a) == database_name_of(b) {
        lemma_name_injective(a, b);
    }
    if database_url_of(server, database_name_of(a)) == database_url_of(
        server,
        database_name_of(b),
    ) {
        lemma_database_url_injective(server, database_name_of(a), database_name_of(b));
    }
}

} // verus!
