//! Opening the store when the process starts.

use vstd::prelude::*;

use crate::database::state::State;
use crate::database::Database;
use crate::error::ServiceError;
use crate::migration::{migrated, registered, Migrator, SchemaManager};

verus! {

/// The sizes of the pool of connections to the database.
#[derive(Clone, Copy, Debug, PartialEq, Eq, Structural)]
pub struct PoolOptions {
    /// The most connections that are open at once.
    pub max_connections: u32,
    /// The connections that are kept open while idle.
    pub min_connections: u32,
    /// The seconds after which an idle connection is closed.
    pub idle_timeout_secs: u64,
}

impl PoolOptions {
    /// A pool can be made with these sizes: it may hold a connection, and it
    /// keeps no more open than it may hold.
    pub open spec fn valid(self) -> bool {
        0 < self.max_connections && self.min_connections <= self.max_connections
    }

    pub fn is_valid(&self) -> (r: bool)
        ensures
            r == self.valid(),
    {
        0 < self.max_connections && self.min_connections <= self.max_connections
    }

    /// The sizes that the application uses: up to 100 connections, 5 kept
    /// open, idle ones closed after 8 seconds.
    pub fn standard() -> (r: PoolOptions)
        ensures
            r == (PoolOptions { max_connections: 100, min_connections: 5, idle_timeout_secs: 8 }),
            r.valid(),
    {
        PoolOptions { max_connections: 100, min_connections: 5, idle_timeout_secs: 8 }
    }
}

/// Prepares the database and opens the store over it: runs the migrations that
/// have not run in `manager`, and hands out an empty store. A migration that
/// fails is fatal: no store is handed out.
pub fn establish_connection(manager: &mut SchemaManager) -> (r: Result<Database, ServiceError>)
    ensures
        final(manager)@ == migrated(old(manager)@, registered()).0,
        match migrated(old(manager)@, registered()).1 {
            None => r matches Ok(db) && db@ == State::empty(),
            Some(e) => r == Err::<Database, ServiceError>(ServiceError::ConnectionFailure(e)),
        },
{
    match Migrator::up(manager) {
        Ok(()) => Ok(Database::new()),
        Err(e) => Err(ServiceError::at_startup(e)),
    }
}

} // verus!
