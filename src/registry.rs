use crate::clock::unix_now;
use crate::keyed::{
    has_key, index_of, keys_unique, lemma_index_of_unique, lemma_update_same_key_unique,
    lemma_upsert_unique, lookup, upsert,
};
use crate::keyed::Keyed;
use crate::text::same_text;
use crate::strategy::{StrategyStatus, StrategyView, StrategyWrapper, User, UserView};
use vstd::prelude::*;

verus! {

/// Why a registry operation was refused. A refused operation changes nothing.
#[derive(Debug, Clone, Copy, PartialEq, Eq, Structural)]
pub enum RegistryError {
    UserNotFound,
    StrategyNotFound,
}

/// The strategies among `s` whose status is `Active`, in order.
pub open spec fn active_of(s: Seq<StrategyView>) -> Seq<StrategyView>
    decreases s.len(),
{
    if s.len() == 0 {
        seq![]
    } else if s.last().status == StrategyStatus::Active {
        active_of(s.drop_last()).push(s.last())
    } else {
        active_of(s.drop_last())
    }
}

/// The strategies among `s` owned by `user_id`, in order.
pub open spec fn owned_by(s: Seq<StrategyView>, user_id: Seq<char>) -> Seq<StrategyView>
    decreases s.len(),
{
    if s.len() == 0 {
        seq![]
    } else if s.last().user_id == user_id {
        owned_by(s.drop_last(), user_id).push(s.last())
    } else {
        owned_by(s.drop_last(), user_id)
    }
}

/// The registry as the contracts see it: users and strategies, each in the
/// order in which their ids were first added.
pub struct RegistryView {
    pub users: Seq<UserView>,
    pub strategies: Seq<StrategyView>,
}

impl RegistryView {
    /// Ids are unique in each table, and no strategy was updated before it
    /// was created.
    pub open spec fn wf(self) -> bool {
        &&& keys_unique(self.users)
        &&& keys_unique(self.strategies)
        &&& forall|i: int|
            0 <= i < self.strategies.len() ==> #[trigger] self.strategies[i].created_at
                <= self.strategies[i].updated_at
    }

    /// After adding (or replacing) the user `id`.
    pub open spec fn with_user(self, id: Seq<char>, name: Seq<char>) -> RegistryView {
        RegistryView {
            users: upsert(self.users, UserView { id, name }),
            strategies: self.strategies,
        }
    }

    /// The strategy that adding `id` for the existing user `user_id` at
    /// `now` creates.
    pub open spec fn new_strategy(
        self,
        id: Seq<char>,
        name: Seq<char>,
        user_id: Seq<char>,
        now: int,
    ) -> StrategyView {
        StrategyView {
            id,
            name,
            user_id,
            status: StrategyStatus::Active,
            created_at: now,
            updated_at: now,
            owner: lookup(self.users, user_id).unwrap(),
        }
    }

    /// After adding (or replacing) the strategy `id` for the existing user
    /// `user_id` at `now`.
    pub open spec fn with_strategy(
        self,
        id: Seq<char>,
        name: Seq<char>,
        user_id: Seq<char>,
        now: int,
    ) -> RegistryView {
        RegistryView {
            users: self.users,
            strategies: upsert(self.strategies, self.new_strategy(id, name, user_id, now)),
        }
    }

    /// The existing strategy `id` after its status is set at `now`: its update
    /// time moves to `now`, never backwards.
    pub open spec fn status_set(self, id: Seq<char>, status: StrategyStatus, now: int) -> StrategyView {
        let s = self.strategies[index_of(self.strategies, id)];
        StrategyView {
            id: s.id,
            name: s.name,
            user_id: s.user_id,
            status,
            created_at: s.created_at,
            updated_at: if now > s.updated_at {
                now
            } else {
                s.updated_at
            },
            owner: s.owner,
        }
    }

    /// After setting the status of the existing strategy `id` at `now`.
    pub open spec fn with_status(self, id: Seq<char>, status: StrategyStatus, now: int) -> RegistryView {
        RegistryView {
            users: self.users,
            strategies: self.strategies.update(
                index_of(self.strategies, id),
                self.status_set(id, status, now),
            ),
        }
    }
}

/// The registry of users and their strategies. A strategy can only be added
/// for a user that exists at that moment. Adding a user or a strategy under
/// an id already present replaces the earlier entry.
///
/// Writes take `&mut self`; a host that shares the registry between threads
/// wraps it in a lock.
pub struct StrategyManager<H> {
    users: Vec<User<H>>,
    strategies: Vec<StrategyWrapper<H>>,
}

impl<H> View for StrategyManager<H> {
    type V = RegistryView;

    closed spec fn view(&self) -> RegistryView {
        RegistryView {
            users: self.users@.map_values(|u: User<H>| u@),
            strategies: self.strategies@.map_values(|s: StrategyWrapper<H>| s@),
        }
    }
}

impl<H> StrategyManager<H> {
    pub fn new() -> (r: StrategyManager<H>)
        ensures
            r@.users.len() == 0,
            r@.strategies.len() == 0,
            r@.wf(),
    {
        let r = StrategyManager { users: Vec::new(), strategies: Vec::new() };
        assert(r@.users =~= seq![]);
        assert(r@.strategies =~= seq![]);
        r
    }

    fn find_user(&self, id: &str) -> (r: Option<usize>)
        ensures
            r is None <==> !has_key(self@.users, id@),
            r matches Some(i) ==> i < self@.users.len() && self@.users[i as int].id == id@,
    {
        let n = self.users.len();
        let mut i: usize = 0;
        while i < n
            invariant
                n == self.users@.len(),
                0 <= i <= n,
                forall|j: int| 0 <= j < i ==> #[trigger] self.users@[j].id@ != id@,
            decreases n - i,
        {
            if same_text(self.users[i].id.as_str(), id) {
                assert(self@.users[i as int].key() == id@);
                return Some(i);
            }
            i += 1;
        }
        assert forall|j: int| 0 <= j < self@.users.len() implies #[trigger] self@.users[j].id
            != id@ by {
            assert(self@.users[j] == self.users@[j]@);
        }
        None
    }

    fn find_strategy(&self, id: &str) -> (r: Option<usize>)
        ensures
            r is None <==> !has_key(self@.strategies, id@),
            r matches Some(i) ==> i < self@.strategies.len() && self@.strategies[i as int].id
                == id@,
    {
        let n = self.strategies.len();
        let mut i: usize = 0;
        while i < n
            invariant
                n == self.strategies@.len(),
                0 <= i <= n,
                forall|j: int| 0 <= j < i ==> #[trigger] self.strategies@[j].id@ != id@,
            decreases n - i,
        {
            if same_text(self.strategies[i].id.as_str(), id) {
                assert(self@.strategies[i as int].key() == id@);
                return Some(i);
            }
            i += 1;
        }
        assert forall|j: int| 0 <= j < self@.strategies.len() implies #[trigger] self@.strategies[j].id
            != id@ by {
            assert(self@.strategies[j] == self.strategies@[j]@);
        }
        None
    }

    /// Adds the user `id`, replacing any user with that id.
    pub fn add_user(&mut self, id: String, name: String, broker_api: H)
        requires
            old(self)@.wf(),
        ensures
            final(self)@ == old(self)@.with_user(id@, name@),
            final(self)@.wf(),
    {
        let ghost before = self@;
        let found = self.find_user(&id);
        let user = User::new(id, name, broker_api);
        proof {
            lemma_upsert_unique(before.users, user@);
        }
        match found {
            Some(i) => {
                proof {
                    lemma_index_of_unique(before.users, i as int);
                }
                self.users.set(i, user);
            },
            None => {
                self.users.push(user);
            },
        }
        assert(self@.users =~= before.with_user(user@.id, user@.name).users);
        assert(self@.strategies =~= before.strategies);
    }

    /// Adds the strategy `id` for the user `user_id` at time `now`, with
    /// status `Active` and a snapshot of the user; a strategy with that id is
    /// replaced. Fails with `UserNotFound`, changing nothing, when there is no
    /// such user.
    pub fn add_strategy_at(
        &mut self,
        id: String,
        name: String,
        user_id: String,
        strategy: H,
        now: i128,
    ) -> (r: Result<(), RegistryError>) where H: Clone
        requires
            old(self)@.wf(),
        ensures
            final(self)@.wf(),
            r is Ok <==> has_key(old(self)@.users, user_id@),
            r is Ok ==> final(self)@ == old(self)@.with_strategy(id@, name@, user_id@, now as int),
            r is Err ==> r == Err::<(), RegistryError>(RegistryError::UserNotFound) && final(self)@
                == old(self)@,
    {
        let ghost before = self@;
        let u = match self.find_user(&user_id) {
            None => {
                return Err(RegistryError::UserNotFound);
            },
            Some(u) => u,
        };
        proof {
            lemma_index_of_unique(before.users, u as int);
        }
        let owner = self.users[u].snapshot();
        let found = self.find_strategy(&id);
        let wrapper = StrategyWrapper::new(
            id,
            name,
            user_id,
            StrategyStatus::Active,
            strategy,
            owner,
            now,
        );
        let ghost v = before.new_strategy(wrapper@.id, wrapper@.name, wrapper@.user_id, now as int);
        assert(wrapper@ == v);
        proof {
            lemma_upsert_unique(before.strategies, v);
        }
        match found {
            Some(i) => {
                proof {
                    lemma_index_of_unique(before.strategies, i as int);
                }
                self.strategies.set(i, wrapper);
            },
            None => {
                self.strategies.push(wrapper);
            },
        }
        assert(self@.strategies =~= upsert(before.strategies, v));
        assert(self@.users =~= before.users);
        assert forall|i: int| 0 <= i < self@.strategies.len() implies #[trigger] self@.strategies[i].created_at
            <= self@.strategies[i].updated_at by {
            if self@.strategies[i] != v {
                assert(exists|j: int| 0 <= j < before.strategies.len() && before.strategies[j] == self@.strategies[i]);
            }
        }
        Ok(())
    }

    /// Adds the strategy `id` for the user `user_id`, created now by the
    /// clock, as `add_strategy_at` does.
    pub fn add_strategy(&mut self, id: String, name: String, user_id: String, strategy: H) -> (r:
        Result<(), RegistryError>) where H: Clone
        requires
            old(self)@.wf(),
        ensures
            final(self)@.wf(),
            r is Ok <==> has_key(old(self)@.users, user_id@),
            r is Ok ==> exists|now: int|
                final(self)@ == old(self)@.with_strategy(id@, name@, user_id@, now),
            r is Err ==> r == Err::<(), RegistryError>(RegistryError::UserNotFound) && final(self)@
                == old(self)@,
    {
        let now = unix_now();
        self.add_strategy_at(id, name, user_id, strategy, now)
    }

    /// A copy of the strategy `id`, if there is one.
    pub fn get_strategy(&self, id: &str) -> (r: Option<StrategyWrapper<H>>) where H: Clone
        requires
            self@.wf(),
        ensures
            r is Some <==> has_key(self@.strategies, id@),
            r matches Some(s) ==> lookup(self@.strategies, id@) == Some(s@),
    {
        match self.find_strategy(id) {
            None => None,
            Some(i) => {
                proof {
                    lemma_index_of_unique(self@.strategies, i as int);
                }
                Some(self.strategies[i].snapshot())
            },
        }
    }

    /// Sets the status of the strategy `id` at time `now`; its update time
    /// becomes `now`, or stays where it was if that is later. Fails with
    /// `StrategyNotFound`, changing nothing, when there is no such strategy.
    pub fn update_strategy_status_at(&mut self, id: &str, status: StrategyStatus, now: i128) -> (r:
        Result<(), RegistryError>)
        requires
            old(self)@.wf(),
        ensures
            final(self)@.wf(),
            r is Ok <==> has_key(old(self)@.strategies, id@),
            r is Ok ==> final(self)@ == old(self)@.with_status(id@, status, now as int),
            r is Err ==> r == Err::<(), RegistryError>(RegistryError::StrategyNotFound)
                && final(self)@ == old(self)@,
    {
        let ghost before = self@;
        match self.find_strategy(id) {
            None => Err(RegistryError::StrategyNotFound),
            Some(i) => {
                proof {
                    lemma_index_of_unique(before.strategies, i as int);
                }
                let ghost v = before.status_set(id@, status, now as int);
                let t = if now > self.strategies[i].updated_at {
                    now
                } else {
                    self.strategies[i].updated_at
                };
                self.strategies[i].status = status;
                self.strategies[i].updated_at = t;
                proof {
                    lemma_update_same_key_unique(before.strategies, i as int, v);
                }
                assert(self@.strategies =~= before.strategies.update(i as int, v));
                assert(self@.users =~= before.users);
                Ok(())
            },
        }
    }

    /// Sets the status of the strategy `id` at the clock's time, as
    /// `update_strategy_status_at` does.
    pub fn update_strategy_status(&mut self, id: &str, status: StrategyStatus) -> (r: Result<
        (),
        RegistryError,
    >)
        requires
            old(self)@.wf(),
        ensures
            final(self)@.wf(),
            r is Ok <==> has_key(old(self)@.strategies, id@),
            r is Ok ==> exists|now: int| final(self)@ == old(self)@.with_status(id@, status, now),
            r is Err ==> r == Err::<(), RegistryError>(RegistryError::StrategyNotFound)
                && final(self)@ == old(self)@,
    {
        let now = unix_now();
        self.update_strategy_status_at(id, status, now)
    }

    /// Copies of the active strategies.
    pub fn list_active_strategies(&self) -> (r: Vec<StrategyWrapper<H>>) where H: Clone
        ensures
            r@.map_values(|s: StrategyWrapper<H>| s@) == active_of(self@.strategies),
    {
        let mut out: Vec<StrategyWrapper<H>> = Vec::new();
        let n = self.strategies.len();
        let mut i: usize = 0;
        while i < n
            invariant
                n == self@.strategies.len(),
                n == self.strategies@.len(),
                0 <= i <= n,
                out@.map_values(|s: StrategyWrapper<H>| s@) == active_of(
                    self@.strategies.subrange(0, i as int),
                ),
            decreases n - i,
        {
            let ghost prev = out@;
            assert(self@.strategies.subrange(0, i + 1).drop_last() =~= self@.strategies.subrange(
                0,
                i as int,
            ));
            assert(self@.strategies[i as int] == self.strategies@[i as int]@);
            if self.strategies[i].status == StrategyStatus::Active {
                out.push(self.strategies[i].snapshot());
                assert(out@.map_values(|s: StrategyWrapper<H>| s@) =~= prev.map_values(
                    |s: StrategyWrapper<H>| s@,
                ).push(self@.strategies[i as int]));
            }
            i += 1;
        }
        assert(self@.strategies.subrange(0, n as int) =~= self@.strategies);
        out
    }

    /// Copies of the strategies owned by `user_id`.
    pub fn list_user_strategies(&self, user_id: &str) -> (r: Vec<StrategyWrapper<H>>) where
        H: Clone
        ensures
            r@.map_values(|s: StrategyWrapper<H>| s@) == owned_by(self@.strategies, user_id@),
    {
        let mut out: Vec<StrategyWrapper<H>> = Vec::new();
        let n = self.strategies.len();
        let mut i: usize = 0;
        while i < n
            invariant
                n == self@.strategies.len(),
                n == self.strategies@.len(),
                0 <= i <= n,
                out@.map_values(|s: StrategyWrapper<H>| s@) == owned_by(
                    self@.strategies.subrange(0, i as int),
                    user_id@,
                ),
            decreases n - i,
        {
            let ghost prev = out@;
            assert(self@.strategies.subrange(0, i + 1).drop_last() =~= self@.strategies.subrange(
                0,
                i as int,
            ));
            assert(self@.strategies[i as int] == self.strategies@[i as int]@);
            if same_text(self.strategies[i].user_id.as_str(), user_id) {
                out.push(self.strategies[i].snapshot());
                assert(out@.map_values(|s: StrategyWrapper<H>| s@) =~= prev.map_values(
                    |s: StrategyWrapper<H>| s@,
                ).push(self@.strategies[i as int]));
            }
            i += 1;
        }
        assert(self@.strategies.subrange(0, n as int) =~= self@.strategies);
        out
    }
}

/// Every strategy listed as active is an active strategy of `s`.
pub proof fn lemma_active_of_members(s: Seq<StrategyView>)
    ensures
        forall|k: int|
            0 <= k < active_of(s).len() ==> (#[trigger] active_of(s)[k]).status
                == StrategyStatus::Active && exists|j: int| 0 <= j < s.len() && s[j] == active_of(s)[k],
    decreases s.len(),
{
    if s.len() > 0 {
        let p = s.drop_last();
        lemma_active_of_members(p);
        assert forall|k: int| 0 <= k < active_of(s).len() implies (#[trigger] active_of(s)[k]).status
            == StrategyStatus::Active && exists|j: int| 0 <= j < s.len() && s[j] == active_of(s)[k] by {
            if k < active_of(p).len() {
                assert(active_of(s)[k] == active_of(p)[k]);
                let j = choose|j: int| 0 <= j < p.len() && p[j] == active_of(p)[k];
                assert(s[j] == p[j]);
            } else {
                assert(s[s.len() - 1] == active_of(s)[k]);
            }
        }
    }
}

/// Setting a strategy's status keeps the registry well formed: ids stay
/// unique and the update time does not fall behind the creation time.
pub proof fn lemma_status_update_keeps_wf(
    r: RegistryView,
    id: Seq<char>,
    status: StrategyStatus,
    now: int,
)
    requires
        r.wf(),
        has_key(r.strategies, id),
    ensures
        r.with_status(id, status, now).wf(),
        lookup(r.with_status(id, status, now).strategies, id) == Some(r.status_set(id, status, now)),
{
    let i = index_of(r.strategies, id);
    let v = r.status_set(id, status, now);
    lemma_update_same_key_unique(r.strategies, i, v);
    lemma_index_of_unique(r.with_status(id, status, now).strategies, i);
}

/// After a user is added and then a strategy for that user, the strategy is
/// found under its id, active and owned by that user.
pub proof fn lemma_added_strategy_is_active(
    r: RegistryView,
    user_id: Seq<char>,
    user_name: Seq<char>,
    id: Seq<char>,
    name: Seq<char>,
    now: int,
)
    requires
        r.wf(),
    ensures
        has_key(r.with_user(user_id, user_name).users, user_id),
        lookup(r.with_user(user_id, user_name).with_strategy(id, name, user_id, now).strategies, id) matches Some(
            s,
        ) && s.status == StrategyStatus::Active && s.user_id == user_id,
{
    let r1 = r.with_user(user_id, user_name);
    lemma_upsert_unique(r.users, UserView { id: user_id, name: user_name });
    lemma_upsert_unique(r1.strategies, r1.new_strategy(id, name, user_id, now));
}

/// After a strategy is paused it is no longer listed as active, and it is
/// found paused, with an update time no earlier than its creation time.
pub proof fn lemma_paused_strategy_not_active(r: RegistryView, id: Seq<char>, now: int)
    requires
        r.wf(),
        has_key(r.strategies, id),
    ensures
        forall|k: int|
            0 <= k < active_of(r.with_status(id, StrategyStatus::Paused, now).strategies).len()
                ==> (#[trigger] active_of(
                r.with_status(id, StrategyStatus::Paused, now).strategies,
            )[k]).id != id,
        lookup(r.with_status(id, StrategyStatus::Paused, now).strategies, id) matches Some(s)
            && s.status == StrategyStatus::Paused && s.updated_at >= s.created_at,
{
    let r2 = r.with_status(id, StrategyStatus::Paused, now);
    let i = index_of(r.strategies, id);
    lemma_status_update_keeps_wf(r, id, StrategyStatus::Paused, now);
    lemma_active_of_members(r2.strategies);
    assert forall|k: int| 0 <= k < active_of(r2.strategies).len() implies (#[trigger] active_of(
        r2.strategies,
    )[k]).id != id by {
        let j = choose|j: int| 0 <= j < r2.strategies.len() && r2.strategies[j] == active_of(r2.strategies)[k];
        if j != i {
            assert(r2.strategies[j].key() != r2.strategies[i].key());
        }
    }
    assert(r.strategies[i].created_at <= r.strategies[i].updated_at);
}

impl<H> StrategyManager<H> {
    /// Whether a user with id `id` exists.
    pub fn has_user(&self, id: &str) -> (r: bool)
        ensures
            r == has_key(self@.users, id@),
    {
        self.find_user(id).is_some()
    }
}

} // verus!
