use crate::keyed::Keyed;
use vstd::pervasive::cloned;
use vstd::prelude::*;

verus! {

/// Lifecycle status of a strategy. Any status may follow any other.
#[derive(Debug, Clone, Copy, PartialEq, Eq, Structural)]
pub enum StrategyStatus {
    Active,
    Paused,
    Stopped,
}

/// What the contracts see of a user: the broker handle is opaque.
pub struct UserView {
    pub id: Seq<char>,
    pub name: Seq<char>,
}

/// A user with the handle of their broker connection. `H` is the host's
/// opaque handle type, carried through unchanged.
#[derive(Debug, Clone)]
pub struct User<H> {
    pub id: String,
    pub name: String,
    pub broker_api: H,
}

impl<H> View for User<H> {
    type V = UserView;

    open spec fn view(&self) -> UserView {
        UserView { id: self.id@, name: self.name@ }
    }
}

impl<H> User<H> {
    pub fn new(id: String, name: String, broker_api: H) -> (r: User<H>)
        ensures
            r.id == id,
            r.name == name,
            r.broker_api == broker_api,
    {
        User { id, name, broker_api }
    }

    pub fn get_broker_api(&self) -> (r: H) where H: Clone
        ensures
            cloned(self.broker_api, r),
    {
        self.broker_api.clone()
    }

    /// A copy of the user that shares nothing with it but a clone of the handle.
    pub fn snapshot(&self) -> (r: User<H>) where H: Clone
        ensures
            r@ == self@,
            cloned(self.broker_api, r.broker_api),
    {
        User { id: self.id.clone(), name: self.name.clone(), broker_api: self.broker_api.clone() }
    }
}

/// What the contracts see of a strategy: the payload and the handles are
/// opaque.
pub struct StrategyView {
    pub id: Seq<char>,
    pub name: Seq<char>,
    pub user_id: Seq<char>,
    pub status: StrategyStatus,
    pub created_at: int,
    pub updated_at: int,
    /// The owner as they were when the strategy was added.
    pub owner: UserView,
}

/// A user-owned strategy: its opaque payload, a snapshot of its owner taken
/// when it was added, its status, and when it was created and last updated
/// (seconds since the Unix epoch).
#[derive(Debug, Clone)]
pub struct StrategyWrapper<H> {
    pub id: String,
    pub name: String,
    pub user_id: String,
    pub status: StrategyStatus,
    pub created_at: i128,
    pub updated_at: i128,
    pub strategy: H,
    pub user: User<H>,
}

impl<H> View for StrategyWrapper<H> {
    type V = StrategyView;

    open spec fn view(&self) -> StrategyView {
        StrategyView {
            id: self.id@,
            name: self.name@,
            user_id: self.user_id@,
            status: self.status,
            created_at: self.created_at as int,
            updated_at: self.updated_at as int,
            owner: self.user@,
        }
    }
}

impl<H> StrategyWrapper<H> {
    /// A strategy created at `now`, which is also its last update.
    pub fn new(
        id: String,
        name: String,
        user_id: String,
        status: StrategyStatus,
        strategy: H,
        user: User<H>,
        now: i128,
    ) -> (r: StrategyWrapper<H>)
        ensures
            r@ == (StrategyView {
                id: id@,
                name: name@,
                user_id: user_id@,
                status,
                created_at: now as int,
                updated_at: now as int,
                owner: user@,
            }),
            r.strategy == strategy,
            r.user == user,
    {
        StrategyWrapper {
            id,
            name,
            user_id,
            status,
            created_at: now,
            updated_at: now,
            strategy,
            user,
        }
    }

    pub fn get_strategy(&self) -> (r: H) where H: Clone
        ensures
            cloned(self.strategy, r),
    {
        self.strategy.clone()
    }

    pub fn get_broker_api(&self) -> (r: H) where H: Clone
        ensures
            cloned(self.user.broker_api, r),
    {
        self.user.get_broker_api()
    }

    /// A copy that shares nothing with this strategy but clones of the handles.
    pub fn snapshot(&self) -> (r: StrategyWrapper<H>) where H: Clone
        ensures
            r@ == self@,
            cloned(self.strategy, r.strategy),
    {
        StrategyWrapper {
            id: self.id.clone(),
            name: self.name.clone(),
            user_id: self.user_id.clone(),
            status: self.status,
            created_at: self.created_at,
            updated_at: self.updated_at,
            strategy: self.strategy.clone(),
            user: self.user.snapshot(),
        }
    }
}

impl Keyed for UserView {
    open spec fn key(&self) -> Seq<char> {
        self.id
    }
}

impl Keyed for StrategyView {
    open spec fn key(&self) -> Seq<char> {
        self.id
    }
}

} // verus!
