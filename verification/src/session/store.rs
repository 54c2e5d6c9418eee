//! Session store that keeps its contents in memory.
use super::{AuthenticatedSession, RefreshOwnedMutation, SessionView};
use crate::keyed::{keeping, KeyedTable};
use crate::text::same_text;
use vstd::prelude::*;

verus! {

/// Lifetime of a session in a store made by [`SessionStore::for_tests`], in nanoseconds.
pub const TEST_SESSION_TTL: u128 = 3_600_000_000_000;

/// A session and the time of its creation on the monotonic clock, in nanoseconds.
pub struct StoredTestSession {
    pub session: AuthenticatedSession,
    pub stored_at: u128,
}

/// What a [`StoredTestSession`] holds.
pub struct StoredSessionView {
    pub session: SessionView,
    pub stored_at: u128,
}

impl View for StoredTestSession {
    type V = StoredSessionView;

    open spec fn view(&self) -> StoredSessionView {
        StoredSessionView { session: self.session@, stored_at: self.stored_at }
    }
}

/// A refresh lock: who holds it, and the time at which the lease ends.
pub struct StoredTestRefreshLock {
    pub owner_id: String,
    pub expires_at: u128,
}

/// What a [`StoredTestRefreshLock`] holds.
pub struct RefreshLockView {
    pub owner_id: Seq<char>,
    pub expires_at: u128,
}

impl View for StoredTestRefreshLock {
    type V = RefreshLockView;

    open spec fn view(&self) -> RefreshLockView {
        RefreshLockView { owner_id: self.owner_id@, expires_at: self.expires_at }
    }
}

/// Sessions and refresh locks, both by session id.
pub struct TestStoreState {
    pub sessions: KeyedTable<StoredTestSession>,
    pub refresh_locks: KeyedTable<StoredTestRefreshLock>,
}

/// What a [`TestStoreState`] holds.
#[verifier::ext_equal]
pub struct StoreView {
    pub sessions: Map<Seq<char>, StoredSessionView>,
    pub refresh_locks: Map<Seq<char>, RefreshLockView>,
}

/// The value behind each key, taken by its view.
pub open spec fn session_views(table: Map<Seq<char>, StoredTestSession>) -> Map<
    Seq<char>,
    StoredSessionView,
> {
    table.map_values(|stored: StoredTestSession| stored@)
}

/// The value behind each key, taken by its view.
pub open spec fn lock_views(table: Map<Seq<char>, StoredTestRefreshLock>) -> Map<
    Seq<char>,
    RefreshLockView,
> {
    table.map_values(|lock: StoredTestRefreshLock| lock@)
}

impl View for TestStoreState {
    type V = StoreView;

    open spec fn view(&self) -> StoreView {
        StoreView {
            sessions: session_views(self.sessions@),
            refresh_locks: lock_views(self.refresh_locks@),
        }
    }
}

impl TestStoreState {
    /// Every session id occurs once in each table.
    pub open spec fn wf(&self) -> bool {
        self.sessions.wf() && self.refresh_locks.wf()
    }
}

/// Time that has passed since `start`; none where `start` lies ahead.
pub open spec fn elapsed(start: u128, now: u128) -> int {
    if now >= start {
        now - start
    } else {
        0
    }
}

/// Whether a session is younger than the lifetime.
pub open spec fn session_is_live(stored: StoredSessionView, ttl: u128, now: u128) -> bool {
    elapsed(stored.stored_at, now) < ttl
}

/// Whether the lease of a lock is still running.
pub open spec fn lock_is_live(lock: RefreshLockView, now: u128) -> bool {
    lock.expires_at > now
}

/// What is left of a store once the sessions that are too old and the locks whose lease is over
/// have gone.
pub open spec fn live(store: StoreView, ttl: u128, now: u128) -> StoreView {
    StoreView {
        sessions: keeping(
            store.sessions,
            |stored: StoredSessionView| session_is_live(stored, ttl, now),
        ),
        refresh_locks: keeping(
            store.refresh_locks,
            |lock: RefreshLockView| lock_is_live(lock, now),
        ),
    }
}

/// Whether `owner_id` holds the refresh lock of the session.
pub open spec fn owns_lock(store: StoreView, session_id: Seq<char>, owner_id: Seq<char>) -> bool {
    store.refresh_locks.contains_key(session_id) && store.refresh_locks[session_id].owner_id
        == owner_id
}

/// The store with a session put in at `now`.
pub open spec fn with_session(
    store: StoreView,
    session_id: Seq<char>,
    session: SessionView,
    now: u128,
) -> StoreView {
    StoreView {
        sessions: store.sessions.insert(
            session_id,
            StoredSessionView { session, stored_at: now },
        ),
        ..store
    }
}

/// The store with other tokens in a session, and the time of its creation kept.
pub open spec fn with_tokens(
    store: StoreView,
    session_id: Seq<char>,
    session: SessionView,
) -> StoreView {
    with_session(store, session_id, session, store.sessions[session_id].stored_at)
}

/// The store without a session.
pub open spec fn without_session(store: StoreView, session_id: Seq<char>) -> StoreView {
    StoreView { sessions: store.sessions.remove(session_id), ..store }
}

/// The store with a lock taken until `expires_at`.
pub open spec fn with_lock(
    store: StoreView,
    session_id: Seq<char>,
    owner_id: Seq<char>,
    expires_at: u128,
) -> StoreView {
    StoreView {
        refresh_locks: store.refresh_locks.insert(
            session_id,
            RefreshLockView { owner_id, expires_at },
        ),
        ..store
    }
}

/// The store without a lock.
pub open spec fn without_lock(store: StoreView, session_id: Seq<char>) -> StoreView {
    StoreView { refresh_locks: store.refresh_locks.remove(session_id), ..store }
}

/// The session that a look-up finds.
pub open spec fn found_session(store: StoreView, session_id: Seq<char>) -> Option<SessionView> {
    if store.sessions.contains_key(session_id) {
        Some(store.sessions[session_id].session)
    } else {
        None
    }
}

/// Outcome of a change that needs the refresh lock.
pub open spec fn owned_mutation(
    store: StoreView,
    session_id: Seq<char>,
    owner_id: Seq<char>,
) -> RefreshOwnedMutation {
    if !owns_lock(store, session_id, owner_id) {
        RefreshOwnedMutation::OwnershipLost
    } else if !store.sessions.contains_key(session_id) {
        RefreshOwnedMutation::SessionMissing
    } else {
        RefreshOwnedMutation::Applied
    }
}

/// The store after new tokens were written under the refresh lock.
pub open spec fn after_refresh(
    store: StoreView,
    session_id: Seq<char>,
    owner_id: Seq<char>,
    session: SessionView,
) -> StoreView {
    if owned_mutation(store, session_id, owner_id) == RefreshOwnedMutation::Applied {
        with_tokens(store, session_id, session)
    } else {
        store
    }
}

/// The store after a session was ended under the refresh lock.
pub open spec fn after_invalidation(
    store: StoreView,
    session_id: Seq<char>,
    owner_id: Seq<char>,
) -> StoreView {
    if owned_mutation(store, session_id, owner_id) == RefreshOwnedMutation::Applied {
        without_session(store, session_id)
    } else {
        store
    }
}

/// The store after the lock was given back.
pub open spec fn after_release(
    store: StoreView,
    session_id: Seq<char>,
    owner_id: Seq<char>,
) -> StoreView {
    if owns_lock(store, session_id, owner_id) {
        without_lock(store, session_id)
    } else {
        store
    }
}

impl StoredTestSession {
    /// Whether the session is younger than the lifetime.
    pub fn is_live(&self, ttl: u128, now: u128) -> (alive: bool)
        ensures
            alive == session_is_live(self@, ttl, now),
    {
        let age: u128 = now.saturating_sub(self.stored_at);
        age < ttl
    }
}

impl StoredTestRefreshLock {
    /// Whether the lease is still running.
    pub fn is_live(&self, now: u128) -> (alive: bool)
        ensures
            alive == lock_is_live(self@, now),
    {
        self.expires_at > now
    }
}

/// Drops sessions that are too old and locks whose lease is over.
pub fn retain_live_test_state(state: &mut TestStoreState, ttl: u128, now: u128)
    requires
        old(state).wf(),
    ensures
        final(state).wf(),
        final(state)@ == live(old(state)@, ttl, now),
{
    let ghost before = *state;
    let ghost young = |stored: StoredTestSession| session_is_live(stored@, ttl, now);
    let ghost held = |lock: StoredTestRefreshLock| lock_is_live(lock@, now);
    let keep_session = |stored: &StoredTestSession| -> (kept: bool)
        ensures
            kept == session_is_live(stored@, ttl, now),
    {
        stored.is_live(ttl, now)
    };
    let keep_lock = |lock: &StoredTestRefreshLock| -> (kept: bool)
        ensures
            kept == lock_is_live(lock@, now),
    {
        lock.is_live(now)
    };
    state.sessions.retain(keep_session, Ghost(young));
    state.refresh_locks.retain(keep_lock, Ghost(held));
    proof {
        assert(state@ =~= live(before@, ttl, now)) by {
            assert(state@.sessions =~= live(before@, ttl, now).sessions);
            assert(state@.refresh_locks =~= live(before@, ttl, now).refresh_locks);
        }
    }
}

/// A store without sessions and locks.
pub open spec fn empty_store() -> StoreView {
    StoreView { sessions: Map::empty(), refresh_locks: Map::empty() }
}

/// A session store in memory, with switches that make groups of its operations fail.
pub struct SessionStore {
    pub state: TestStoreState,
    pub fail_writes: bool,
    pub fail_reads: bool,
    pub fail_refresh_mutations: bool,
    pub fail_refresh_lock_ops: bool,
    pub ttl: u128,
}

impl View for SessionStore {
    type V = StoreView;

    open spec fn view(&self) -> StoreView {
        self.state@
    }
}

impl SessionStore {
    /// Every session id occurs once.
    pub open spec fn wf(&self) -> bool {
        self.state.wf()
    }

    /// The failure switches are as given.
    pub open spec fn fails_as(
        &self,
        fail_writes: bool,
        fail_reads: bool,
        fail_refresh_mutations: bool,
        fail_refresh_lock_ops: bool,
    ) -> bool {
        &&& self.fail_writes == fail_writes
        &&& self.fail_reads == fail_reads
        &&& self.fail_refresh_mutations == fail_refresh_mutations
        &&& self.fail_refresh_lock_ops == fail_refresh_lock_ops
    }

    /// The lifetime and the failure switches are the same.
    pub open spec fn same_settings(&self, other: &Self) -> bool {
        &&& self.fails_as(
            other.fail_writes,
            other.fail_reads,
            other.fail_refresh_mutations,
            other.fail_refresh_lock_ops,
        )
        &&& self.ttl == other.ttl
    }

    /// An empty store in which the chosen groups of operations fail.
    pub fn for_tests_with_failures(
        fail_writes: bool,
        fail_reads: bool,
        fail_refresh_mutations: bool,
        fail_refresh_lock_ops: bool,
    ) -> (store: Self)
        ensures
            store.wf(),
            store@ == empty_store(),
            store.fails_as(
                fail_writes,
                fail_reads,
                fail_refresh_mutations,
                fail_refresh_lock_ops,
            ),
            store.ttl == TEST_SESSION_TTL,
    {
        let store: Self = SessionStore {
            state: TestStoreState { sessions: KeyedTable::new(), refresh_locks: KeyedTable::new() },
            fail_writes,
            fail_reads,
            fail_refresh_mutations,
            fail_refresh_lock_ops,
            ttl: TEST_SESSION_TTL,
        };
        proof {
            assert(store@.sessions =~= Map::<Seq<char>, StoredSessionView>::empty());
            assert(store@.refresh_locks =~= Map::<Seq<char>, RefreshLockView>::empty());
        }
        store
    }

    /// An empty store in which nothing fails.
    pub fn for_tests() -> (store: Self)
        ensures
            store.wf(),
            store@ == empty_store(),
            store.fails_as(false, false, false, false),
            store.ttl == TEST_SESSION_TTL,
    {
        Self::for_tests_with_failures(false, false, false, false)
    }

    /// An empty store in which sessions cannot be stored.
    pub fn for_tests_failing_writes() -> (store: Self)
        ensures
            store.wf(),
            store@ == empty_store(),
            store.fails_as(true, false, false, false),
            store.ttl == TEST_SESSION_TTL,
    {
        Self::for_tests_with_failures(true, false, false, false)
    }

    /// An empty store in which sessions cannot be looked up.
    pub fn for_tests_failing_reads() -> (store: Self)
        ensures
            store.wf(),
            store@ == empty_store(),
            store.fails_as(false, true, false, false),
            store.ttl == TEST_SESSION_TTL,
    {
        Self::for_tests_with_failures(false, true, false, false)
    }

    /// An empty store in which the owner of a refresh lock cannot change sessions.
    pub fn for_tests_failing_refresh_mutations() -> (store: Self)
        ensures
            store.wf(),
            store@ == empty_store(),
            store.fails_as(false, false, true, false),
            store.ttl == TEST_SESSION_TTL,
    {
        Self::for_tests_with_failures(false, false, true, false)
    }

    /// An empty store in which refresh locks cannot be taken or given back.
    pub fn for_tests_failing_refresh_lock_ops() -> (store: Self)
        ensures
            store.wf(),
            store@ == empty_store(),
            store.fails_as(false, false, false, true),
            store.ttl == TEST_SESSION_TTL,
    {
        Self::for_tests_with_failures(false, false, false, true)
    }

    /// Lifetime of a session, in nanoseconds.
    pub fn ttl(&self) -> (ttl: u128)
        ensures
            ttl == self.ttl,
    {
        self.ttl
    }

    /// Stores a session; its lifetime starts now.
    pub fn put(&mut self, session_id: &str, session: &AuthenticatedSession, now: u128) -> (outcome:
        Result<(), ()>)
        requires
            old(self).wf(),
        ensures
            final(self).wf(),
            final(self).same_settings(old(self)),
            outcome is Err <==> old(self).fail_writes,
            final(self)@ == if old(self).fail_writes {
                old(self)@
            } else {
                with_session(live(old(self)@, old(self).ttl, now), session_id@, session@, now)
            },
    {
        if self.fail_writes {
            return Err(());
        }
        retain_live_test_state(&mut self.state, self.ttl, now);
        let ghost before = self@;
        self.state.sessions.insert(
            session_id,
            StoredTestSession { session: session.copy(), stored_at: now },
        );
        proof {
            assert(self@.sessions =~= with_session(before, session_id@, session@, now).sessions);
        }
        Ok(())
    }

    /// Looks a session up. A look-up leaves lifetimes as they are.
    pub fn get(&mut self, session_id: &str, now: u128) -> (outcome: Result<
        Option<AuthenticatedSession>,
        (),
    >)
        requires
            old(self).wf(),
        ensures
            final(self).wf(),
            final(self).same_settings(old(self)),
            outcome is Err <==> old(self).fail_reads,
            final(self)@ == if old(self).fail_reads {
                old(self)@
            } else {
                live(old(self)@, old(self).ttl, now)
            },
            outcome matches Ok(found) ==> match found {
                Some(session) => found_session(final(self)@, session_id@) == Some(session@),
                None => found_session(final(self)@, session_id@) is None,
            },
    {
        if self.fail_reads {
            return Err(());
        }
        retain_live_test_state(&mut self.state, self.ttl, now);
        match self.state.sessions.get(session_id) {
            Some(stored) => Ok(Some(stored.session.copy())),
            None => Ok(None),
        }
    }

    /// Takes the refresh lock of a session for `lease` nanoseconds, unless somebody holds it.
    pub fn try_acquire_refresh_lock(
        &mut self,
        session_id: &str,
        owner_id: &str,
        lease: u128,
        now: u128,
    ) -> (outcome: Result<bool, ()>)
        requires
            old(self).wf(),
        ensures
            final(self).wf(),
            final(self).same_settings(old(self)),
            outcome is Err <==> old(self).fail_refresh_lock_ops || lease == 0 || now + lease
                > u128::MAX,
            outcome is Err ==> final(self)@ == old(self)@,
            outcome matches Ok(acquired) ==> {
                let before = live(old(self)@, old(self).ttl, now);
                &&& acquired == !before.refresh_locks.contains_key(session_id@)
                &&& final(self)@ == if acquired {
                    with_lock(before, session_id@, owner_id@, (now + lease) as u128)
                } else {
                    before
                }
            },
    {
        if self.fail_refresh_lock_ops || lease == 0 {
            return Err(());
        }
        let expires_at: u128 = match now.checked_add(lease) {
            Some(end) => end,
            None => return Err(()),
        };
        retain_live_test_state(&mut self.state, self.ttl, now);
        if self.state.refresh_locks.contains_key(session_id) {
            return Ok(false);
        }
        let ghost before = self@;
        self.state.refresh_locks.insert(
            session_id,
            StoredTestRefreshLock { owner_id: owner_id.to_owned(), expires_at },
        );
        proof {
            assert(self@.refresh_locks =~= with_lock(
                before,
                session_id@,
                owner_id@,
                expires_at,
            ).refresh_locks);
        }
        Ok(true)
    }

    fn owns_refresh_lock(&self, session_id: &str, owner_id: &str) -> (owned: bool)
        requires
            self.wf(),
        ensures
            owned == owns_lock(self@, session_id@, owner_id@),
    {
        match self.state.refresh_locks.get(session_id) {
            Some(lock) => same_text(lock.owner_id.as_str(), owner_id),
            None => false,
        }
    }

    /// Gives the refresh lock back; says whether the caller held it.
    pub fn release_refresh_lock(&mut self, session_id: &str, owner_id: &str, now: u128) -> (outcome:
        Result<bool, ()>)
        requires
            old(self).wf(),
        ensures
            final(self).wf(),
            final(self).same_settings(old(self)),
            outcome is Err <==> old(self).fail_refresh_lock_ops,
            outcome is Err ==> final(self)@ == old(self)@,
            outcome matches Ok(owned) ==> {
                let before = live(old(self)@, old(self).ttl, now);
                &&& owned == owns_lock(before, session_id@, owner_id@)
                &&& final(self)@ == after_release(before, session_id@, owner_id@)
            },
    {
        if self.fail_refresh_lock_ops {
            return Err(());
        }
        retain_live_test_state(&mut self.state, self.ttl, now);
        let owned: bool = self.owns_refresh_lock(session_id, owner_id);
        if owned {
            let ghost before = self@;
            let lock: Option<StoredTestRefreshLock> = self.state.refresh_locks.remove(session_id);
            proof {
                assert(self@.refresh_locks =~= without_lock(before, session_id@).refresh_locks);
            }
        }
        Ok(owned)
    }

    /// Writes the tokens of a refresh, for the owner of the refresh lock only. The session keeps
    /// its remaining lifetime, and one that is gone is not created again.
    pub fn update_after_refresh(
        &mut self,
        session_id: &str,
        owner_id: &str,
        session: &AuthenticatedSession,
        now: u128,
    ) -> (outcome: Result<RefreshOwnedMutation, ()>)
        requires
            old(self).wf(),
        ensures
            final(self).wf(),
            final(self).same_settings(old(self)),
            outcome is Err <==> old(self).fail_refresh_mutations,
            outcome is Err ==> final(self)@ == old(self)@,
            outcome matches Ok(mutation) ==> {
                let before = live(old(self)@, old(self).ttl, now);
                &&& mutation == owned_mutation(before, session_id@, owner_id@)
                &&& final(self)@ == after_refresh(before, session_id@, owner_id@, session@)
            },
    {
        if self.fail_refresh_mutations {
            return Err(());
        }
        retain_live_test_state(&mut self.state, self.ttl, now);
        if !self.owns_refresh_lock(session_id, owner_id) {
            return Ok(RefreshOwnedMutation::OwnershipLost);
        }
        let stored_at: u128 = match self.state.sessions.get(session_id) {
            Some(stored) => stored.stored_at,
            None => return Ok(RefreshOwnedMutation::SessionMissing),
        };
        let ghost before = self@;
        self.state.sessions.insert(
            session_id,
            StoredTestSession { session: session.copy(), stored_at },
        );
        proof {
            assert(self@.sessions =~= with_tokens(before, session_id@, session@).sessions);
        }
        Ok(RefreshOwnedMutation::Applied)
    }

    /// Ends a session, for the owner of the refresh lock only.
    pub fn invalidate_for_refresh(
        &mut self,
        session_id: &str,
        owner_id: &str,
        now: u128,
    ) -> (outcome: Result<RefreshOwnedMutation, ()>)
        requires
            old(self).wf(),
        ensures
            final(self).wf(),
            final(self).same_settings(old(self)),
            outcome is Err <==> old(self).fail_refresh_mutations,
            outcome is Err ==> final(self)@ == old(self)@,
            outcome matches Ok(mutation) ==> {
                let before = live(old(self)@, old(self).ttl, now);
                &&& mutation == owned_mutation(before, session_id@, owner_id@)
                &&& final(self)@ == after_invalidation(before, session_id@, owner_id@)
            },
    {
        if self.fail_refresh_mutations {
            return Err(());
        }
        retain_live_test_state(&mut self.state, self.ttl, now);
        if !self.owns_refresh_lock(session_id, owner_id) {
            return Ok(RefreshOwnedMutation::OwnershipLost);
        }
        let ghost before = self@;
        let ended: Option<StoredTestSession> = self.state.sessions.remove(session_id);
        proof {
            assert(self@.sessions =~= without_session(before, session_id@).sessions);
        }
        if ended.is_some() {
            Ok(RefreshOwnedMutation::Applied)
        } else {
            proof {
                assert(self@.sessions =~= before.sessions);
            }
            Ok(RefreshOwnedMutation::SessionMissing)
        }
    }
}

} // verus!
