//! Bringing the service up: the connection to the database, then the
//! migrations, then the server. A failure of either of the first two ends
//! the start.

use vstd::prelude::*;

verus! {

/// The variable of the environment that holds the address of the database.
pub const DATABASE_URL: &'static str = "DATABASE_URL";

/// Seconds that a connection may take to be made.
pub const CONNECT_TIMEOUT_SECS: u64 = 10;

/// Where the server listens.
pub const LISTEN_ADDRESS: &'static str = "0.0.0.0:8081";

pub const URL_MISSING: &'static str = "DATABASE_URL is missing";

pub const CONNECT_TIMED_OUT: &'static str = "Database connection timed out";

pub const CONNECT_FAILED: &'static str = "Database connection failed";

pub const MIGRATION_FAILED: &'static str = "Migration failed";

/// Why the service did not come up.
#[derive(Debug)]
pub enum StartupError {
    /// The environment holds no address of the database.
    MissingUrl,
    /// The connection was not made in time.
    TimedOut,
    /// The database refused the connection, with this message.
    Connection(String),
    /// The migrations failed.
    Migration,
}

/// What the attempt to connect ended in.
#[derive(Debug)]
pub enum Attempt {
    Connected,
    /// The database refused, with this message.
    Refused(String),
    TimedOut,
}

/// Where the connection stands: what was done last, with its outcome.
#[derive(Debug)]
pub enum Connecting {
    /// The environment was read; it holds this address, or none.
    Configured(Option<String>),
    /// The connection was attempted.
    Attempted(Attempt),
}

/// What connecting does next.
#[derive(Debug)]
pub enum PoolStep {
    /// Connect to this address, and give up after this many seconds.
    Connect { url: String, timeout_secs: u64 },
    /// The connection is made.
    Ready,
    /// There will be no connection.
    Failed(StartupError),
}

/// Where the start stands: what was done last, and whether it succeeded.
#[derive(Clone, Copy, Debug, PartialEq, Eq, Structural)]
pub enum Startup {
    /// The connection was to be made.
    Pool(bool),
    /// The migrations were to be run.
    Migrations(bool),
}

/// What the start does next.
#[derive(Clone, Copy, Debug, PartialEq, Eq, Structural)]
pub enum StartupStep {
    RunMigrations,
    Serve,
    /// Give up, for this reason.
    Abort(StartupFailure),
}

/// The step of the start that failed.
#[derive(Clone, Copy, Debug, PartialEq, Eq, Structural)]
pub enum StartupFailure {
    Connection,
    Migration,
}

impl StartupError {
    /// What the error says.
    pub open spec fn message_spec(&self) -> Seq<char> {
        match self {
            StartupError::MissingUrl => URL_MISSING@,
            StartupError::TimedOut => CONNECT_TIMED_OUT@,
            StartupError::Connection(message) => message@,
            StartupError::Migration => MIGRATION_FAILED@,
        }
    }

    /// What the error says.
    pub fn message(&self) -> (s: String)
        ensures
            s@ == self.message_spec(),
    {
        match self {
            StartupError::MissingUrl => URL_MISSING.to_owned(),
            StartupError::TimedOut => CONNECT_TIMED_OUT.to_owned(),
            StartupError::Connection(message) => message.clone(),
            StartupError::Migration => MIGRATION_FAILED.to_owned(),
        }
    }
}

impl StartupFailure {
    /// What the failure says.
    pub fn message(&self) -> (s: &'static str)
        ensures
            s@ == (match self {
                StartupFailure::Connection => CONNECT_FAILED@,
                StartupFailure::Migration => MIGRATION_FAILED@,
            }),
    {
        match self {
            StartupFailure::Connection => CONNECT_FAILED,
            StartupFailure::Migration => MIGRATION_FAILED,
        }
    }
}

/// What connecting does next: without an address there is no attempt; with
/// one, one attempt is made under the time limit, and its outcome stands.
pub open spec fn establish_connection_pool_spec(at: Connecting, next: PoolStep) -> bool {
    match at {
        Connecting::Configured(None) => next == PoolStep::Failed(StartupError::MissingUrl),
        Connecting::Configured(Some(url)) => next == (PoolStep::Connect {
            url,
            timeout_secs: CONNECT_TIMEOUT_SECS,
        }),
        Connecting::Attempted(Attempt::Connected) => next == PoolStep::Ready,
        Connecting::Attempted(Attempt::Refused(message)) => next == PoolStep::Failed(
            StartupError::Connection(message),
        ),
        Connecting::Attempted(Attempt::TimedOut) => next == PoolStep::Failed(StartupError::TimedOut),
    }
}

/// What connecting does next.
pub fn establish_connection_pool(at: Connecting) -> (next: PoolStep)
    ensures
        establish_connection_pool_spec(at, next),
{
    match at {
        Connecting::Configured(None) => PoolStep::Failed(StartupError::MissingUrl),
        Connecting::Configured(Some(url)) => PoolStep::Connect {
            url,
            timeout_secs: CONNECT_TIMEOUT_SECS,
        },
        Connecting::Attempted(Attempt::Connected) => PoolStep::Ready,
        Connecting::Attempted(Attempt::Refused(message)) => PoolStep::Failed(
            StartupError::Connection(message),
        ),
        Connecting::Attempted(Attempt::TimedOut) => PoolStep::Failed(StartupError::TimedOut),
    }
}

/// What the start does next: the migrations run once the connection is
/// made, the server starts once the migrations have run, and a failure of
/// either ends the start.
pub open spec fn startup_spec(at: Startup) -> StartupStep {
    match at {
        Startup::Pool(true) => StartupStep::RunMigrations,
        Startup::Pool(false) => StartupStep::Abort(StartupFailure::Connection),
        Startup::Migrations(true) => StartupStep::Serve,
        Startup::Migrations(false) => StartupStep::Abort(StartupFailure::Migration),
    }
}

/// What the start does next.
pub fn startup(at: Startup) -> (next: StartupStep)
    ensures
        next == startup_spec(at),
{
    match at {
        Startup::Pool(true) => StartupStep::RunMigrations,
        Startup::Pool(false) => StartupStep::Abort(StartupFailure::Connection),
        Startup::Migrations(true) => StartupStep::Serve,
        Startup::Migrations(false) => StartupStep::Abort(StartupFailure::Migration),
    }
}

} // verus!
