//! Authorization transactions: logins that were started and not finished yet.
use super::config::{ClientIp, OIDC_CALLBACK_PATH};
use crate::cookies::{
    jar_remove, removes_cookie, RemovedCookie, RemovedCookieView, SameSite, SetCookie,
    SetCookieView,
};
use crate::digest::{hex, hex_text, sha256, sha256_digest};
use crate::keyed::{count_of, keeping, KeyedTable};
use crate::session::store::elapsed;
use crate::status::StatusCode;
use crate::text::joined;
use axum_extra::extract::cookie::CookieJar;
use vstd::prelude::*;

verus! {

/// Lifetime of a transaction in seconds.
pub const LOGIN_TTL_SECONDS: i64 = 300;

/// Lifetime of a transaction in nanoseconds.
pub const LOGIN_TTL: u128 = 300_000_000_000;

/// Transactions that may be pending at once.
pub const MAX_PENDING_LOGINS: usize = 128;

/// Transactions of one client that may be pending at once.
pub const MAX_PENDING_LOGINS_PER_CLIENT: usize = 8;

/// Path of the cookie that binds a transaction to its browser.
pub const PREAUTH_COOKIE_PATH: &'static str = OIDC_CALLBACK_PATH;

/// Random bytes in the secret that binds a transaction to its browser.
pub const BROWSER_BINDING_BYTES: u32 = 32;

/// How the name of a binding cookie begins.
pub const PREAUTH_COOKIE_PREFIX: &'static str = "rtp-preauth-";

/// A login that was started.
pub struct AuthorizationTransaction {
    pub pkce_verifier: String,
    pub nonce: String,
    /// Digest of the secret in the browser's binding cookie.
    pub browser_binding_hash: [u8; 32],
    /// Monotonic time of the start, in nanoseconds.
    pub created_at: u128,
    pub client_ip: ClientIp,
}

/// What an [`AuthorizationTransaction`] holds.
pub struct TransactionView {
    pub pkce_verifier: Seq<char>,
    pub nonce: Seq<char>,
    pub browser_binding_hash: Seq<u8>,
    pub created_at: u128,
    pub client_ip: ClientIp,
}

impl View for AuthorizationTransaction {
    type V = TransactionView;

    open spec fn view(&self) -> TransactionView {
        TransactionView {
            pkce_verifier: self.pkce_verifier@,
            nonce: self.nonce@,
            browser_binding_hash: self.browser_binding_hash@,
            created_at: self.created_at,
            client_ip: self.client_ip,
        }
    }
}

/// Name of the cookie that binds the transaction with a given state to its browser.
pub open spec fn preauth_cookie_name_of(state: Seq<char>) -> Seq<char> {
    PREAUTH_COOKIE_PREFIX@ + hex_text(sha256(vstd::utf8::encode_utf8(state)))
}

/// Name of the cookie that binds the transaction with a given state to its browser.
pub fn preauth_cookie_name(state: &str) -> (name: String)
    ensures
        name@ == preauth_cookie_name_of(state@),
        name@ == "rtp-preauth-"@ + hex_text(sha256(vstd::utf8::encode_utf8(state@))),
{
    let digest: [u8; 32] = sha256_digest(state.as_bytes());
    let suffix: String = hex(digest.as_slice());
    joined(PREAUTH_COOKIE_PREFIX, suffix.as_str())
}

/// Transactions whose states have different digests have differently named cookies.
pub proof fn cookie_names_differ(one: Seq<char>, other: Seq<char>)
    requires
        preauth_cookie_name_of(one) == preauth_cookie_name_of(other),
    ensures
        sha256(vstd::utf8::encode_utf8(one)) == sha256(vstd::utf8::encode_utf8(other)),
{
    let prefix = PREAUTH_COOKIE_PREFIX@;
    let left = hex_text(sha256(vstd::utf8::encode_utf8(one)));
    let right = hex_text(sha256(vstd::utf8::encode_utf8(other)));
    assert((prefix + left).skip(prefix.len() as int) =~= left);
    assert((prefix + right).skip(prefix.len() as int) =~= right);
    crate::digest::hex_text_is_injective(
        sha256(vstd::utf8::encode_utf8(one)),
        sha256(vstd::utf8::encode_utf8(other)),
    );
}

/// Digest under which the server keeps the secret of a binding cookie.
pub fn hash_browser_binding(secret: &str) -> (hash: [u8; 32])
    ensures
        hash@ == sha256(vstd::utf8::encode_utf8(secret@)),
{
    sha256_digest(secret.as_bytes())
}

/// The cookie that binds a transaction to its browser.
pub open spec fn preauth_cookie(
    cookie_name: Seq<char>,
    browser_binding_secret: Seq<char>,
    secure: bool,
) -> SetCookieView {
    SetCookieView {
        name: cookie_name,
        value: browser_binding_secret,
        path: PREAUTH_COOKIE_PATH@,
        http_only: true,
        secure,
        same_site: SameSite::Lax,
        max_age: LOGIN_TTL_SECONDS,
    }
}

/// Builds the cookie that binds a transaction to its browser.
pub fn build_preauth_cookie(
    cookie_name: String,
    browser_binding_secret: String,
    secure: bool,
) -> (cookie: SetCookie)
    ensures
        cookie@ == preauth_cookie(cookie_name@, browser_binding_secret@, secure),
        cookie.name@ == cookie_name@,
        cookie.value@ == browser_binding_secret@,
        cookie.path@ == "/auth/callback"@,
        cookie.http_only,
        cookie.secure == secure,
        cookie.same_site == SameSite::Lax,
        cookie.max_age == 300,
{
    SetCookie {
        name: cookie_name,
        value: browser_binding_secret,
        path: PREAUTH_COOKIE_PATH.to_owned(),
        http_only: true,
        secure,
        same_site: SameSite::Lax,
        max_age: LOGIN_TTL_SECONDS,
    }
}

/// How a response takes a binding cookie away.
pub open spec fn preauth_removal(cookie_name: Seq<char>, secure: bool) -> RemovedCookieView {
    RemovedCookieView {
        name: cookie_name,
        path: PREAUTH_COOKIE_PATH@,
        http_only: true,
        secure,
        same_site: SameSite::Lax,
    }
}

/// Takes a binding cookie away.
pub fn remove_preauth_cookie(jar: CookieJar, cookie_name: String, secure: bool) -> (after:
    CookieJar)
    ensures
        removes_cookie(jar, preauth_removal(cookie_name@, secure), after),
{
    jar_remove(
        jar,
        RemovedCookie {
            name: cookie_name,
            path: PREAUTH_COOKIE_PATH.to_owned(),
            http_only: true,
            secure,
            same_site: SameSite::Lax,
        },
    )
}

/// The transactions that are pending, by state.
pub struct PendingLogins {
    transactions: KeyedTable<AuthorizationTransaction>,
}

impl View for PendingLogins {
    type V = Map<Seq<char>, TransactionView>;

    closed spec fn view(&self) -> Map<Seq<char>, TransactionView> {
        self.transactions@.map_values(|transaction: AuthorizationTransaction| transaction@)
    }
}

/// Whether a transaction is younger than its lifetime.
pub open spec fn transaction_is_live(transaction: TransactionView, now: u128) -> bool {
    elapsed(transaction.created_at, now) < LOGIN_TTL
}

/// What is left of the pending transactions once those that are too old have gone.
pub open spec fn live_transactions(
    pending: Map<Seq<char>, TransactionView>,
    now: u128,
) -> Map<Seq<char>, TransactionView> {
    keeping(pending, |transaction: TransactionView| transaction_is_live(transaction, now))
}

/// The number of pending transactions of a client.
pub open spec fn pending_of(pending: Map<Seq<char>, TransactionView>, client_ip: ClientIp) -> nat {
    count_of(pending, |transaction: TransactionView| transaction.client_ip == client_ip)
}

/// Whether another transaction of the client may start.
pub open spec fn has_room(pending: Map<Seq<char>, TransactionView>, client_ip: ClientIp) -> bool {
    pending_of(pending, client_ip) < MAX_PENDING_LOGINS_PER_CLIENT && pending.dom().len()
        < MAX_PENDING_LOGINS
}

/// Whether the presented digest is the one that a transaction is bound to.
pub open spec fn is_bound(
    pending: Map<Seq<char>, TransactionView>,
    state: Seq<char>,
    binding_hash: Seq<u8>,
) -> bool {
    pending.contains_key(state) && pending[state].browser_binding_hash == binding_hash
}

fn same_digest(one: &[u8; 32], other: &[u8; 32]) -> (same: bool)
    ensures
        same == (one@ == other@),
{
    let mut index: usize = 0;
    while index < 32
        invariant
            index <= 32,
            forall|i: int| 0 <= i < index ==> one@[i] == other@[i],
        decreases 32 - index,
    {
        if one[index] != other[index] {
            return false;
        }
        index = index + 1;
    }
    proof {
        assert(one@ =~= other@);
    }
    true
}

impl AuthorizationTransaction {
    /// Whether the transaction is younger than its lifetime.
    pub fn is_live(&self, now: u128) -> (alive: bool)
        ensures
            alive == transaction_is_live(self@, now),
    {
        let age: u128 = now.saturating_sub(self.created_at);
        age < LOGIN_TTL
    }

    /// Whether the transaction was started by the client.
    pub fn is_of(&self, client_ip: ClientIp) -> (same: bool)
        ensures
            same == (self@.client_ip == client_ip),
    {
        self.client_ip == client_ip
    }
}

impl PendingLogins {
    /// Every state occurs once.
    pub closed spec fn wf(&self) -> bool {
        self.transactions.wf()
    }

    /// No transaction is pending.
    pub fn new() -> (pending: Self)
        ensures
            pending.wf(),
            pending@ == Map::<Seq<char>, TransactionView>::empty(),
    {
        let pending: Self = PendingLogins { transactions: KeyedTable::new() };
        proof {
            assert(pending@ =~= Map::<Seq<char>, TransactionView>::empty());
        }
        pending
    }

    /// The number of pending transactions.
    pub fn len(&self) -> (count: usize)
        requires
            self.wf(),
        ensures
            count == self@.dom().len(),
    {
        proof {
            assert(self@.dom() =~= self.transactions@.dom());
        }
        self.transactions.len()
    }

    /// Whether a transaction with the state is pending.
    pub fn contains_key(&self, state: &str) -> (present: bool)
        requires
            self.wf(),
        ensures
            present == self@.contains_key(state@),
    {
        self.transactions.contains_key(state)
    }

    /// Drops the transactions that are too old.
    pub fn retain_live(&mut self, now: u128)
        requires
            old(self).wf(),
        ensures
            final(self).wf(),
            final(self)@ == live_transactions(old(self)@, now),
    {
        let ghost before = *self;
        let ghost young = |transaction: AuthorizationTransaction|
            transaction_is_live(transaction@, now);
        let keep = |transaction: &AuthorizationTransaction| -> (kept: bool)
            ensures
                kept == transaction_is_live(transaction@, now),
        {
            transaction.is_live(now)
        };
        self.transactions.retain(keep, Ghost(young));
        proof {
            assert(self@ =~= live_transactions(before@, now));
        }
    }

    fn count_of_client(&self, client_ip: ClientIp) -> (count: usize)
        requires
            self.wf(),
        ensures
            count == pending_of(self@, client_ip),
    {
        let ghost same = |transaction: AuthorizationTransaction|
            transaction@.client_ip == client_ip;
        let wanted = |transaction: &AuthorizationTransaction| -> (picked: bool)
            ensures
                picked == (transaction@.client_ip == client_ip),
        {
            transaction.is_of(client_ip)
        };
        let count: usize = self.transactions.count(wanted, Ghost(same));
        proof {
            let viewed = |transaction: TransactionView| transaction.client_ip == client_ip;
            assert(keeping(self@, viewed).dom() =~= keeping(self.transactions@, same).dom());
        }
        count
    }

    /// Puts a transaction in, in place of one with the same state.
    pub fn insert(&mut self, state: &str, transaction: AuthorizationTransaction)
        requires
            old(self).wf(),
        ensures
            final(self).wf(),
            final(self)@ == old(self)@.insert(state@, transaction@),
    {
        let ghost before = self@;
        self.transactions.insert(state, transaction);
        proof {
            assert(self@ =~= before.insert(state@, transaction@));
        }
    }

    /// Starts a transaction, if the client and the service as a whole have room for one.
    pub fn start(&mut self, state: &str, transaction: AuthorizationTransaction, now: u128)
        -> (outcome: Result<(), StatusCode>)
        requires
            old(self).wf(),
        ensures
            final(self).wf(),
            match outcome {
                Ok(_) => {
                    &&& has_room(live_transactions(old(self)@, now), transaction.client_ip)
                    &&& final(self)@ == live_transactions(old(self)@, now).insert(
                        state@,
                        transaction@,
                    )
                },
                Err(status) => {
                    &&& !has_room(live_transactions(old(self)@, now), transaction.client_ip)
                    &&& status == StatusCode::TooManyRequests
                    &&& final(self)@ == live_transactions(old(self)@, now)
                },
            },
    {
        self.retain_live(now);
        if self.count_of_client(transaction.client_ip) >= MAX_PENDING_LOGINS_PER_CLIENT {
            return Err(StatusCode::TooManyRequests);
        }
        if self.len() >= MAX_PENDING_LOGINS {
            return Err(StatusCode::TooManyRequests);
        }
        self.insert(state, transaction);
        Ok(())
    }
}

/// Takes the transaction with a state out, if it is bound to the presented digest. A transaction
/// that is bound to another digest stays.
pub fn take_bound_transaction(
    pending: &mut PendingLogins,
    returned_state: &str,
    presented_binding_hash: [u8; 32],
    now: u128,
) -> (outcome: Result<AuthorizationTransaction, StatusCode>)
    requires
        old(pending).wf(),
    ensures
        final(pending).wf(),
        match outcome {
            Ok(transaction) => {
                let before = live_transactions(old(pending)@, now);
                &&& is_bound(before, returned_state@, presented_binding_hash@)
                &&& transaction@ == before[returned_state@]
                &&& final(pending)@ == before.remove(returned_state@)
            },
            Err(status) => {
                let before = live_transactions(old(pending)@, now);
                &&& !is_bound(before, returned_state@, presented_binding_hash@)
                &&& status == StatusCode::BadRequest
                &&& final(pending)@ == before
            },
        },
{
    pending.retain_live(now);
    let ghost before = pending@;
    let binding_matches: bool = match pending.transactions.get(returned_state) {
        Some(transaction) => same_digest(
            &transaction.browser_binding_hash,
            &presented_binding_hash,
        ),
        None => return Err(StatusCode::BadRequest),
    };
    if !binding_matches {
        return Err(StatusCode::BadRequest);
    }
    match pending.transactions.remove(returned_state) {
        Some(transaction) => {
            proof {
                assert(pending@ =~= before.remove(returned_state@));
            }
            Ok(transaction)
        },
        None => Err(StatusCode::BadRequest),
    }
}

/// Whether no more transactions are pending than may be, neither in all nor of one client.
pub open spec fn within_limits(pending: Map<Seq<char>, TransactionView>) -> bool {
    &&& pending.dom().finite()
    &&& pending.dom().len() <= MAX_PENDING_LOGINS
    &&& forall|client_ip: ClientIp| #[trigger]
        pending_of(pending, client_ip) <= MAX_PENDING_LOGINS_PER_CLIENT
}

proof fn fewer_stay_within_limits(
    pending: Map<Seq<char>, TransactionView>,
    fewer: Map<Seq<char>, TransactionView>,
)
    requires
        within_limits(pending),
        fewer.submap_of(pending),
    ensures
        within_limits(fewer),
{
    vstd::set_lib::lemma_len_subset(fewer.dom(), pending.dom());
    assert forall|client_ip: ClientIp| #[trigger]
        pending_of(fewer, client_ip) <= MAX_PENDING_LOGINS_PER_CLIENT by {
        let same = |transaction: TransactionView| transaction.client_ip == client_ip;
        let all = keeping(pending, same).dom();
        let some = keeping(fewer, same).dom();
        assert(pending_of(pending, client_ip) <= MAX_PENDING_LOGINS_PER_CLIENT);
        vstd::set_lib::lemma_len_subset(all, pending.dom());
        assert(some.subset_of(all)) by {
            assert forall|key: Seq<char>| some.contains(key) implies all.contains(key) by {
                assert(fewer.dom().contains(key));
            }
        }
        vstd::set_lib::lemma_len_subset(some, all);
    }
}

proof fn start_keeps_limits(
    pending: Map<Seq<char>, TransactionView>,
    now: u128,
    state: Seq<char>,
    transaction: TransactionView,
)
    requires
        within_limits(pending),
    ensures
        within_limits(live_transactions(pending, now)),
        has_room(live_transactions(pending, now), transaction.client_ip) ==> within_limits(
            live_transactions(pending, now).insert(state, transaction),
        ),
{
    let before = live_transactions(pending, now);
    fewer_stay_within_limits(pending, before);
    let after = before.insert(state, transaction);
    if has_room(before, transaction.client_ip) {
        assert(after.dom() =~= before.dom().insert(state));
        assert forall|client_ip: ClientIp| #[trigger]
            pending_of(after, client_ip) <= MAX_PENDING_LOGINS_PER_CLIENT by {
            let same = |t: TransactionView| t.client_ip == client_ip;
            let old_keys = keeping(before, same).dom();
            let new_keys = keeping(after, same).dom();
            assert(pending_of(before, client_ip) <= MAX_PENDING_LOGINS_PER_CLIENT);
            vstd::set_lib::lemma_len_subset(old_keys, before.dom());
            if client_ip == transaction.client_ip {
                assert(new_keys.subset_of(old_keys.insert(state)));
                vstd::set_lib::lemma_len_subset(new_keys, old_keys.insert(state));
            } else {
                assert(new_keys.subset_of(old_keys));
                vstd::set_lib::lemma_len_subset(new_keys, old_keys);
            }
        }
    }
}

/// What happens to the pending transactions.
pub enum PendingEvent {
    /// A login is started, if there is room for it.
    Start { state: Seq<char>, transaction: TransactionView },
    /// A browser comes back with a state and a digest.
    Take { state: Seq<char>, binding_hash: Seq<u8> },
}

/// The pending transactions after an event.
pub open spec fn after_event(
    pending: Map<Seq<char>, TransactionView>,
    event: PendingEvent,
    now: u128,
) -> Map<Seq<char>, TransactionView> {
    let before = live_transactions(pending, now);
    match event {
        PendingEvent::Start { state, transaction } => if has_room(before, transaction.client_ip) {
            before.insert(state, transaction)
        } else {
            before
        },
        PendingEvent::Take { state, binding_hash } => if is_bound(before, state, binding_hash) {
            before.remove(state)
        } else {
            before
        },
    }
}

/// The pending transactions after a row of events, each at its own time.
pub open spec fn after_events(
    pending: Map<Seq<char>, TransactionView>,
    events: Seq<(PendingEvent, u128)>,
) -> Map<Seq<char>, TransactionView>
    decreases events.len(),
{
    if events.len() == 0 {
        pending
    } else {
        after_event(
            after_events(pending, events.drop_last()),
            events.last().0,
            events.last().1,
        )
    }
}

/// From any state within the limits on pending transactions, what happens next keeps them.
pub proof fn limits_are_kept(
    pending: Map<Seq<char>, TransactionView>,
    event: PendingEvent,
    now: u128,
)
    requires
        within_limits(pending),
    ensures
        within_limits(after_event(pending, event, now)),
{
    match event {
        PendingEvent::Start { state, transaction } => start_keeps_limits(
            pending,
            now,
            state,
            transaction,
        ),
        PendingEvent::Take { state, binding_hash } => {
            let before = live_transactions(pending, now);
            fewer_stay_within_limits(pending, before);
            fewer_stay_within_limits(before, before.remove(state));
        },
    }
}

/// Whatever logins are started and whoever comes back, the limits on pending transactions are
/// kept.
pub proof fn limits_hold_always(events: Seq<(PendingEvent, u128)>)
    ensures
        within_limits(after_events(Map::<Seq<char>, TransactionView>::empty(), events)),
    decreases events.len(),
{
    if events.len() == 0 {
        nothing_is_within_limits();
    } else {
        let none = Map::<Seq<char>, TransactionView>::empty();
        limits_hold_always(events.drop_last());
        limits_are_kept(
            after_events(none, events.drop_last()),
            events.last().0,
            events.last().1,
        );
    }
}

proof fn nothing_is_within_limits()
    ensures
        within_limits(Map::<Seq<char>, TransactionView>::empty()),
{
    let none = Map::<Seq<char>, TransactionView>::empty();
    assert forall|client_ip: ClientIp| #[trigger]
        pending_of(none, client_ip) <= MAX_PENDING_LOGINS_PER_CLIENT by {
        let same = |transaction: TransactionView| transaction.client_ip == client_ip;
        assert(keeping(none, same).dom() =~= Set::<Seq<char>>::empty());
    }
}

/// Whether an event starts a login with a state.
pub open spec fn starts(event: PendingEvent, state: Seq<char>) -> bool {
    event matches PendingEvent::Start { state: started, .. } && started == state
}

proof fn absent_stays_absent(
    pending: Map<Seq<char>, TransactionView>,
    state: Seq<char>,
    events: Seq<(PendingEvent, u128)>,
)
    requires
        !pending.contains_key(state),
        forall|i: int| 0 <= i < events.len() ==> !starts((#[trigger] events[i]).0, state),
    ensures
        !after_events(pending, events).contains_key(state),
    decreases events.len(),
{
    if events.len() > 0 {
        let init = events.drop_last();
        assert(forall|i: int| 0 <= i < init.len() ==> init[i] == events[i]);
        absent_stays_absent(pending, state, init);
        assert(!starts(events[events.len() - 1].0, state));
    }
}

/// A transaction can be used once: after it was taken, and whatever else happens, no digest takes
/// it again.
pub proof fn transaction_is_used_once(
    pending: Map<Seq<char>, TransactionView>,
    state: Seq<char>,
    binding_hash: Seq<u8>,
    now: u128,
    events: Seq<(PendingEvent, u128)>,
    later: u128,
    any_hash: Seq<u8>,
)
    requires
        is_bound(live_transactions(pending, now), state, binding_hash),
        forall|i: int| 0 <= i < events.len() ==> !starts((#[trigger] events[i]).0, state),
    ensures
        ({
            let taken = after_event(pending, PendingEvent::Take { state, binding_hash }, now);
            !is_bound(live_transactions(after_events(taken, events), later), state, any_hash)
        }),
{
    let taken = after_event(pending, PendingEvent::Take { state, binding_hash }, now);
    absent_stays_absent(taken, state, events);
}

/// Whether an event is no return with the state and the digest.
pub open spec fn presents_otherwise(
    event: PendingEvent,
    state: Seq<char>,
    binding_hash: Seq<u8>,
) -> bool {
    event matches PendingEvent::Take { state: presented, binding_hash: hash } ==> presented != state
        || hash != binding_hash
}

/// Knowing the state is not enough: however often browsers come back with the state but without
/// the digest that its transaction is bound to, and whatever other logins are started and taken
/// meanwhile, nothing is taken of it. The browser that holds the secret can still take it while it
/// lives, and it is as it was.
pub proof fn wrong_bindings_take_nothing(
    pending: Map<Seq<char>, TransactionView>,
    state: Seq<char>,
    events: Seq<(PendingEvent, u128)>,
    later: u128,
)
    requires
        pending.contains_key(state),
        transaction_is_live(pending[state], later),
        forall|i: int|
            0 <= i < events.len() ==> presents_otherwise(
                (#[trigger] events[i]).0,
                state,
                pending[state].browser_binding_hash,
            ) && !starts(events[i].0, state) && events[i].1 <= later,
    ensures
        is_bound(
            live_transactions(after_events(pending, events), later),
            state,
            pending[state].browser_binding_hash,
        ),
        live_transactions(after_events(pending, events), later)[state] == pending[state],
{
    bound_transaction_stays(pending, state, events, later);
}

proof fn bound_transaction_stays(
    pending: Map<Seq<char>, TransactionView>,
    state: Seq<char>,
    events: Seq<(PendingEvent, u128)>,
    later: u128,
)
    requires
        pending.contains_key(state),
        transaction_is_live(pending[state], later),
        forall|i: int|
            0 <= i < events.len() ==> presents_otherwise(
                (#[trigger] events[i]).0,
                state,
                pending[state].browser_binding_hash,
            ) && !starts(events[i].0, state) && events[i].1 <= later,
    ensures
        after_events(pending, events).contains_key(state),
        after_events(pending, events)[state] == pending[state],
    decreases events.len(),
{
    if events.len() > 0 {
        let init = events.drop_last();
        assert(forall|i: int| 0 <= i < init.len() ==> init[i] == events[i]);
        bound_transaction_stays(pending, state, init, later);
        let (event, now) = events[events.len() - 1];
        assert(presents_otherwise(event, state, pending[state].browser_binding_hash));
        let before = after_events(pending, init);
        assert(live_transactions(before, now).contains_key(state));
    }
}

/// A transaction that is too old is taken by nobody.
pub proof fn expired_transaction_is_refused(
    pending: Map<Seq<char>, TransactionView>,
    state: Seq<char>,
    binding_hash: Seq<u8>,
    now: u128,
)
    requires
        pending.contains_key(state) ==> elapsed(pending[state].created_at, now) >= LOGIN_TTL,
    ensures
        !is_bound(live_transactions(pending, now), state, binding_hash),
{
}

/// Transactions are independent: starting or taking one leaves every other as it was.
pub proof fn transactions_are_independent(
    pending: Map<Seq<char>, TransactionView>,
    state: Seq<char>,
    transaction: TransactionView,
    other: Seq<char>,
    binding_hash: Seq<u8>,
)
    requires
        other != state,
    ensures
        is_bound(pending.insert(state, transaction), other, binding_hash) == is_bound(
            pending,
            other,
            binding_hash,
        ),
        is_bound(pending.remove(state), other, binding_hash) == is_bound(
            pending,
            other,
            binding_hash,
        ),
        pending.contains_key(other) ==> pending.insert(state, transaction)[other] == pending[other]
            && pending.remove(state)[other] == pending[other],
{
}

/// Whether two transactions differ in nothing but the address of the client.
pub open spec fn same_but_address(one: TransactionView, other: TransactionView) -> bool {
    &&& one.pkce_verifier == other.pkce_verifier
    &&& one.nonce == other.nonce
    &&& one.browser_binding_hash == other.browser_binding_hash
    &&& one.created_at == other.created_at
}

/// Whether the same transactions are pending but for the addresses of their clients.
pub open spec fn same_but_addresses(
    one: Map<Seq<char>, TransactionView>,
    other: Map<Seq<char>, TransactionView>,
) -> bool {
    &&& one.dom() == other.dom()
    &&& forall|state: Seq<char>|
        one.contains_key(state) ==> same_but_address(#[trigger] one[state], other[state])
}

/// The client's address proves nothing: where the same transactions are pending but for the
/// addresses of their clients, the same browsers take them, with the same secrets, and the same are
/// left.
pub proof fn addresses_do_not_bind(
    one: Map<Seq<char>, TransactionView>,
    other: Map<Seq<char>, TransactionView>,
    state: Seq<char>,
    binding_hash: Seq<u8>,
    now: u128,
)
    requires
        same_but_addresses(one, other),
    ensures
        is_bound(live_transactions(one, now), state, binding_hash) == is_bound(
            live_transactions(other, now),
            state,
            binding_hash,
        ),
        is_bound(live_transactions(one, now), state, binding_hash) ==> same_but_address(
            live_transactions(one, now)[state],
            live_transactions(other, now)[state],
        ),
        same_but_addresses(
            after_event(one, PendingEvent::Take { state, binding_hash }, now),
            after_event(other, PendingEvent::Take { state, binding_hash }, now),
        ),
{
    let one_live = live_transactions(one, now);
    let other_live = live_transactions(other, now);
    assert forall|key: Seq<char>| one_live.dom().contains(key) == other_live.dom().contains(
        key,
    ) by {
        if one.contains_key(key) {
            assert(same_but_address(one[key], other[key]));
        }
        assert(one.dom().contains(key) == other.dom().contains(key));
    }
    assert(one_live.dom() =~= other_live.dom());
    assert(same_but_addresses(one_live, other_live)) by {
        assert forall|key: Seq<char>| one_live.contains_key(key) implies same_but_address(
            #[trigger] one_live[key],
            other_live[key],
        ) by {
            assert(same_but_address(one[key], other[key]));
        }
    }
    let take = PendingEvent::Take { state, binding_hash };
    if one_live.contains_key(state) {
        assert(same_but_address(one_live[state], other_live[state]));
    }
    assert(after_event(one, take, now).dom() =~= after_event(other, take, now).dom());
}

/// A transaction lives for 300 seconds from its start, counted in nanoseconds, and not from then on.
pub proof fn transactions_live_for_five_minutes(transaction: TransactionView, now: u128)
    requires
        transaction.created_at <= now,
    ensures
        transaction_is_live(transaction, now) <==> now - transaction.created_at < 300_000_000_000,
{
}

/// What is left at a time: exactly the transactions that live, as they were.
pub proof fn living_transactions_are_left(
    pending: Map<Seq<char>, TransactionView>,
    state: Seq<char>,
    now: u128,
)
    requires
        pending.contains_key(state) ==> pending[state].created_at <= now,
    ensures
        live_transactions(pending, now).contains_key(state) <==> pending.contains_key(state) && now
            - pending[state].created_at < 300_000_000_000,
        live_transactions(pending, now).contains_key(state) ==> live_transactions(
            pending,
            now,
        )[state] == pending[state],
{
}

/// There is room for a login exactly if fewer than 128 are pending in all, and fewer than 8 of its
/// client, which are counted one by one.
pub proof fn room_is_for_eight_and_128(
    pending: Map<Seq<char>, TransactionView>,
    client_ip: ClientIp,
    state: Seq<char>,
    transaction: TransactionView,
)
    requires
        pending.dom().finite(),
        !pending.contains_key(state),
    ensures
        has_room(pending, client_ip) <==> pending_of(pending, client_ip) < 8 && pending.dom().len()
            < 128,
        pending_of(Map::<Seq<char>, TransactionView>::empty(), client_ip) == 0,
        pending_of(pending.insert(state, transaction), client_ip) == pending_of(pending, client_ip)
            + if transaction.client_ip == client_ip {
            1int
        } else {
            0
        },
{
    let same = |t: TransactionView| t.client_ip == client_ip;
    crate::keyed::counting_counts(pending, same, state, transaction);
}

/// A browser is bound to a transaction exactly if the transaction is there and keeps the digest that
/// the browser presents.
pub proof fn binding_is_the_digest(
    pending: Map<Seq<char>, TransactionView>,
    state: Seq<char>,
    binding_hash: Seq<u8>,
)
    ensures
        is_bound(pending, state, binding_hash) <==> pending.contains_key(state)
            && pending[state].browser_binding_hash == binding_hash,
{
}

/// The binding cookie: with the binding secret alone for its value, for the callback path, out of
/// reach of scripts, over HTTPS only where the mode says so, for five minutes. It is taken away by the
/// same name, from the same path.
pub proof fn binding_cookie_is_narrow(name: Seq<char>, secret: Seq<char>, secure: bool)
    ensures
        preauth_cookie(name, secret, secure).name == name,
        preauth_cookie(name, secret, secure).value == secret,
        preauth_cookie(name, secret, secure).path == "/auth/callback"@,
        preauth_cookie(name, secret, secure).http_only,
        preauth_cookie(name, secret, secure).secure == secure,
        preauth_cookie(name, secret, secure).same_site == SameSite::Lax,
        preauth_cookie(name, secret, secure).max_age == 300,
        preauth_removal(name, secure).name == name,
        preauth_removal(name, secure).path == "/auth/callback"@,
        preauth_removal(name, secure).http_only,
        preauth_removal(name, secure).secure == secure,
        preauth_removal(name, secure).same_site == SameSite::Lax,
{
}

/// The name of a binding cookie is a fixed prefix and the digest of the state in hexadecimal.
pub proof fn cookie_is_named_after_the_state(state: Seq<char>)
    ensures
        preauth_cookie_name_of(state) == "rtp-preauth-"@ + hex_text(
            sha256(vstd::utf8::encode_utf8(state)),
        ),
{
}

/// Transactions are seen as they are.
pub proof fn transaction_is_seen_as_it_is(transaction: AuthorizationTransaction)
    ensures
        transaction@.pkce_verifier == transaction.pkce_verifier@,
        transaction@.nonce == transaction.nonce@,
        transaction@.browser_binding_hash == transaction.browser_binding_hash@,
        transaction@.created_at == transaction.created_at,
        transaction@.client_ip == transaction.client_ip,
{
}

} // verus!
