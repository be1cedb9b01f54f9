//! The services behind the HTTP endpoints, each holding handles on the tables it uses.

use std::sync::Arc;
use vstd::prelude::*;
use crate::env::Env;
use crate::repository::{
    BountyRepository, DatabasePool, NotificationRepository, PredictionPlacementRepository,
    PredictionRepository, ProjectRepository, UserRepository, UtilRepository,
};

verus! {

/// Operations on bounties, bids and their chats.
#[derive(Clone)]
pub struct BountyService {
    bounty_repo: BountyRepository,
    user_repo: UserRepository,
    util_repo: UtilRepository,
}

impl BountyService {
    /// Whether every table handle of the service queries the given pool.
    pub closed spec fn uses_pool(&self, pool: DatabasePool) -> bool {
        self.bounty_repo.pool() == pool && self.user_repo.pool() == pool && self.util_repo.pool() == pool
    }

    /// The service on the given pool.
    pub fn new(db_conn: &Arc<DatabasePool>) -> (s: Self)
        ensures
            s.uses_pool(**db_conn),
    {
        Self {
            bounty_repo: BountyRepository::new(db_conn),
            user_repo: UserRepository::new(db_conn),
            util_repo: UtilRepository::new(db_conn),
        }
    }
}

/// Operations on notifications.
#[derive(Clone)]
pub struct NotificationService {
    repository: NotificationRepository,
}

impl NotificationService {
    /// Whether every table handle of the service queries the given pool.
    pub closed spec fn uses_pool(&self, pool: DatabasePool) -> bool {
        self.repository.pool() == pool
    }

    /// The service on the given pool.
    pub fn new(db_conn: &Arc<DatabasePool>) -> (s: Self)
        ensures
            s.uses_pool(**db_conn),
    {
        Self {
            repository: NotificationRepository::new(db_conn),
        }
    }
}

/// Operations on prediction markets.
#[derive(Clone)]
pub struct PredictionService {
    prediction_repo: PredictionRepository,
    user_repo: UserRepository,
    util_repo: UtilRepository,
}

impl PredictionService {
    /// Whether every table handle of the service queries the given pool.
    pub closed spec fn uses_pool(&self, pool: DatabasePool) -> bool {
        self.prediction_repo.pool() == pool && self.user_repo.pool() == pool && self.util_repo.pool() == pool
    }

    /// The service on the given pool.
    pub fn new(db_conn: &Arc<DatabasePool>) -> (s: Self)
        ensures
            s.uses_pool(**db_conn),
    {
        Self {
            prediction_repo: PredictionRepository::new(db_conn),
            user_repo: UserRepository::new(db_conn),
            util_repo: UtilRepository::new(db_conn),
        }
    }
}

/// Operations on predictions placed on chain.
#[derive(Clone)]
pub struct PredictionPlacementService {
    prediction_placement_repo: PredictionPlacementRepository,
    prediction_repo: PredictionRepository,
}

impl PredictionPlacementService {
    /// Whether every table handle of the service queries the given pool.
    pub closed spec fn uses_pool(&self, pool: DatabasePool) -> bool {
        self.prediction_placement_repo.pool() == pool && self.prediction_repo.pool() == pool
    }

    /// The service on the given pool.
    pub fn new(db_conn: &Arc<DatabasePool>) -> (s: Self)
        ensures
            s.uses_pool(**db_conn),
    {
        Self {
            prediction_placement_repo: PredictionPlacementRepository::new(db_conn),
            prediction_repo: PredictionRepository::new(db_conn),
        }
    }
}

/// Operations on projects, their review, DAO votes and funding.
#[derive(Clone)]
pub struct ProjectService {
    project_repo: ProjectRepository,
    user_repo: UserRepository,
    util_repo: UtilRepository,
}

impl ProjectService {
    /// Whether every table handle of the service queries the given pool.
    pub closed spec fn uses_pool(&self, pool: DatabasePool) -> bool {
        self.project_repo.pool() == pool && self.user_repo.pool() == pool && self.util_repo.pool() == pool
    }

    /// The service on the given pool.
    pub fn new(db_conn: &Arc<DatabasePool>) -> (s: Self)
        ensures
            s.uses_pool(**db_conn),
    {
        Self {
            project_repo: ProjectRepository::new(db_conn),
            user_repo: UserRepository::new(db_conn),
            util_repo: UtilRepository::new(db_conn),
        }
    }
}

/// Operations on accounts and their settings.
#[derive(Clone)]
pub struct UserService {
    user_repo: UserRepository,
    _util_repo: UtilRepository,
}

impl UserService {
    /// Whether every table handle of the service queries the given pool.
    pub closed spec fn uses_pool(&self, pool: DatabasePool) -> bool {
        self.user_repo.pool() == pool && self._util_repo.pool() == pool
    }

    /// The service on the given pool.
    pub fn new(db_conn: &Arc<DatabasePool>) -> (s: Self)
        ensures
            s.uses_pool(**db_conn),
    {
        Self {
            user_repo: UserRepository::new(db_conn),
            _util_repo: UtilRepository::new(db_conn),
        }
    }
}

/// Operations on lookups of countries, cities, institutions and categories.
#[derive(Clone)]
pub struct UtilService {
    util_repo: UtilRepository,
}

impl UtilService {
    /// Whether every table handle of the service queries the given pool.
    pub closed spec fn uses_pool(&self, pool: DatabasePool) -> bool {
        self.util_repo.pool() == pool
    }

    /// The service on the given pool.
    pub fn new(db_conn: &Arc<DatabasePool>) -> (s: Self)
        ensures
            s.uses_pool(**db_conn),
    {
        Self {
            util_repo: UtilRepository::new(db_conn),
        }
    }
}

/// Operations on administration of users.
#[derive(Clone)]
pub struct AdminService {
    user_repo: UserRepository,
    util_repo: UtilRepository,
}

impl AdminService {
    /// Whether every table handle of the service queries the given pool.
    pub closed spec fn uses_pool(&self, pool: DatabasePool) -> bool {
        self.user_repo.pool() == pool && self.util_repo.pool() == pool
    }

    /// The service on the given pool.
    pub fn init(db_conn: &Arc<DatabasePool>) -> (s: Self)
        ensures
            s.uses_pool(**db_conn),
    {
        Self {
            user_repo: UserRepository::new(db_conn),
            util_repo: UtilRepository::new(db_conn),
        }
    }
}

/// Issues and checks the tokens with which users authenticate.
#[derive(Clone)]
pub struct TokenService {
    secret: String,
    ttl_in_minutes: i64,
}

impl TokenService {
    /// The secret with which tokens are signed.
    pub closed spec fn secret(&self) -> Seq<char> {
        self.secret@
    }

    /// How many minutes a token stays valid.
    pub closed spec fn ttl_in_minutes(&self) -> i64 {
        self.ttl_in_minutes
    }

    /// The token service configured by the environment.
    pub fn new(env: &Env) -> (s: Self)
        ensures
            s.secret() == env.jwt_secret@,
            s.ttl_in_minutes() == env.jwt_ttl_in_minutes,
    {
        Self { secret: env.jwt_secret.clone(), ttl_in_minutes: env.jwt_ttl_in_minutes }
    }
}

/// All services of the server.
#[derive(Clone)]
pub struct AppService {
    pub bounty: BountyService,
    pub notification: NotificationService,
    pub prediction: PredictionService,
    pub prediction_placement: PredictionPlacementService,
    pub project: ProjectService,
    pub token: TokenService,
    pub user: UserService,
    pub util: UtilService,
}

impl AppService {
    /// Every service on the one pool, and tokens configured by the environment.
    pub fn init(db: &Arc<DatabasePool>, env: &Env) -> (s: Self)
        ensures
            s.bounty.uses_pool(**db),
            s.notification.uses_pool(**db),
            s.prediction.uses_pool(**db),
            s.prediction_placement.uses_pool(**db),
            s.project.uses_pool(**db),
            s.user.uses_pool(**db),
            s.util.uses_pool(**db),
            s.token.secret() == env.jwt_secret@,
            s.token.ttl_in_minutes() == env.jwt_ttl_in_minutes,
    {
        Self {
            bounty: BountyService::new(db),
            notification: NotificationService::new(db),
            prediction: PredictionService::new(db),
            prediction_placement: PredictionPlacementService::new(db),
            project: ProjectService::new(db),
            token: TokenService::new(env),
            user: UserService::new(db),
            util: UtilService::new(db),
        }
    }
}

} // verus!
