//! Handles on the tables of the database, each sharing the one connection pool.

use std::sync::Arc;
use vstd::prelude::*;

verus! {

/// Where and how the server connects to its database.
#[derive(Debug, Clone)]
pub struct DatabasePool {
    pub database_url: String,
    pub max_connections: u32,
}

impl DatabasePool {
    /// The connection settings that the environment gives.
    pub fn init(env: &crate::env::Env) -> (pool: DatabasePool)
        ensures
            pool.database_url == env.database_url,
            pool.max_connections == env.database_max_connections,
    {
        DatabasePool {
            database_url: env.database_url.clone(),
            max_connections: env.database_max_connections,
        }
    }
}

/// Another handle on the same shared pool (`Arc::clone`).
#[verifier::external_body]
pub(crate) fn share_pool(pool: &Arc<DatabasePool>) -> (shared: Arc<DatabasePool>)
    ensures
        shared == *pool,
{
    Arc::clone(pool)
}

/// Access to the tables of bounties, bids, milestones, comments, chats and work submissions.
#[derive(Clone)]
pub struct BountyRepository {
    pub(crate) db_conn: Arc<DatabasePool>,
}

impl BountyRepository {
    /// The pool that this handle queries.
    pub closed spec fn pool(&self) -> DatabasePool {
        *self.db_conn
    }

    /// A handle on the given pool.
    pub fn new(db_conn: &Arc<DatabasePool>) -> (repo: Self)
        ensures
            repo.pool() == **db_conn,
    {
        Self { db_conn: share_pool(db_conn) }
    }
}

/// Access to the tables of notifications.
#[derive(Clone)]
pub struct NotificationRepository {
    pub(crate) db_conn: Arc<DatabasePool>,
}

impl NotificationRepository {
    /// The pool that this handle queries.
    pub closed spec fn pool(&self) -> DatabasePool {
        *self.db_conn
    }

    /// A handle on the given pool.
    pub fn new(db_conn: &Arc<DatabasePool>) -> (repo: Self)
        ensures
            repo.pool() == **db_conn,
    {
        Self { db_conn: share_pool(db_conn) }
    }
}

/// Access to the tables of predictions placed on chain.
#[derive(Clone)]
pub struct PredictionPlacementRepository {
    pub(crate) db_conn: Arc<DatabasePool>,
}

impl PredictionPlacementRepository {
    /// The pool that this handle queries.
    pub closed spec fn pool(&self) -> DatabasePool {
        *self.db_conn
    }

    /// A handle on the given pool.
    pub fn new(db_conn: &Arc<DatabasePool>) -> (repo: Self)
        ensures
            repo.pool() == **db_conn,
    {
        Self { db_conn: share_pool(db_conn) }
    }
}

/// Access to the tables of prediction markets.
#[derive(Clone)]
pub struct PredictionRepository {
    pub(crate) db_conn: Arc<DatabasePool>,
}

impl PredictionRepository {
    /// The pool that this handle queries.
    pub closed spec fn pool(&self) -> DatabasePool {
        *self.db_conn
    }

    /// A handle on the given pool.
    pub fn new(db_conn: &Arc<DatabasePool>) -> (repo: Self)
        ensures
            repo.pool() == **db_conn,
    {
        Self { db_conn: share_pool(db_conn) }
    }
}

/// Access to the tables of projects, their editors, milestones, DAOs and funding.
#[derive(Clone)]
pub struct ProjectRepository {
    pub(crate) db_conn: Arc<DatabasePool>,
}

impl ProjectRepository {
    /// The pool that this handle queries.
    pub closed spec fn pool(&self) -> DatabasePool {
        *self.db_conn
    }

    /// A handle on the given pool.
    pub fn new(db_conn: &Arc<DatabasePool>) -> (repo: Self)
        ensures
            repo.pool() == **db_conn,
    {
        Self { db_conn: share_pool(db_conn) }
    }
}

/// Access to the tables of users, temporary sign-ups and activity history.
#[derive(Clone)]
pub struct UserRepository {
    pub(crate) db_conn: Arc<DatabasePool>,
}

impl UserRepository {
    /// The pool that this handle queries.
    pub closed spec fn pool(&self) -> DatabasePool {
        *self.db_conn
    }

    /// A handle on the given pool.
    pub fn new(db_conn: &Arc<DatabasePool>) -> (repo: Self)
        ensures
            repo.pool() == **db_conn,
    {
        Self { db_conn: share_pool(db_conn) }
    }
}

/// Access to the tables of countries, cities, categories and stored values.
#[derive(Clone)]
pub struct UtilRepository {
    pub(crate) db_conn: Arc<DatabasePool>,
}

impl UtilRepository {
    /// The pool that this handle queries.
    pub closed spec fn pool(&self) -> DatabasePool {
        *self.db_conn
    }

    /// A handle on the given pool.
    pub fn new(db_conn: &Arc<DatabasePool>) -> (repo: Self)
        ensures
            repo.pool() == **db_conn,
    {
        Self { db_conn: share_pool(db_conn) }
    }
}

} // verus!
