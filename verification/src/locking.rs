use vstd::prelude::*;
use crate::error::LockError;

verus! {

/// The kinds of financial resource that requests may contend for.
#[derive(Clone, Copy, Debug, PartialEq, Eq, Structural)]
pub enum ResourceType {
    Payment,
    PaymentLink,
    Refund,
    Dispute,
    Payout,
}

/// What an operation declares about exclusivity: nothing, or a lock on one
/// resource for as long as its business logic runs.
#[derive(Debug, PartialEq, Eq)]
pub enum LockAction {
    NotApplicable,
    Lock { resource_type: ResourceType, resource_id: String },
}

/// The mathematical value of a [`LockKey`].
pub struct LockKeyView {
    pub merchant_id: Seq<char>,
    pub resource_type: ResourceType,
    pub resource_id: Seq<char>,
}

/// Names one contended resource of one merchant.
#[derive(Debug, PartialEq, Eq)]
pub struct LockKey {
    pub merchant_id: String,
    pub resource_type: ResourceType,
    pub resource_id: String,
}

impl View for LockKey {
    type V = LockKeyView;

    open spec fn view(&self) -> LockKeyView {
        LockKeyView {
            merchant_id: self.merchant_id@,
            resource_type: self.resource_type,
            resource_id: self.resource_id@,
        }
    }
}

impl Clone for LockKey {
    fn clone(&self) -> (r: Self)
        ensures
            r == *self,
    {
        LockKey {
            merchant_id: self.merchant_id.clone(),
            resource_type: self.resource_type,
            resource_id: self.resource_id.clone(),
        }
    }
}

impl LockKey {
    /// The key of the merchant's resource of this type with this id.
    pub fn new(merchant_id: &str, resource_type: ResourceType, resource_id: &str) -> (r: LockKey)
        ensures
            r@ == (LockKeyView {
                merchant_id: merchant_id@,
                resource_type,
                resource_id: resource_id@,
            }),
    {
        LockKey {
            merchant_id: merchant_id.to_owned(),
            resource_type,
            resource_id: resource_id.to_owned(),
        }
    }

    /// Whether two keys name the same resource.
    pub fn same_as(&self, other: &LockKey) -> (r: bool)
        ensures
            r == (self@ == other@),
    {
        self.resource_type == other.resource_type && self.merchant_id == other.merchant_id
            && self.resource_id == other.resource_id
    }
}

impl LockAction {
    /// The key that the action asks to lock on behalf of `merchant_id`.
    pub open spec fn key_spec(self, merchant_id: Seq<char>) -> Option<LockKeyView> {
        match self {
            LockAction::NotApplicable => None,
            LockAction::Lock { resource_type, resource_id } => Some(
                LockKeyView { merchant_id, resource_type, resource_id: resource_id@ },
            ),
        }
    }

    /// The key to lock for a request of `merchant_id`, or `None` where the
    /// operation needs no exclusivity.
    pub fn key_for(&self, merchant_id: &String) -> (r: Option<LockKey>)
        ensures
            r.is_some() == self.key_spec(merchant_id@).is_some(),
            r matches Some(k) ==> self.key_spec(merchant_id@) == Some(k@),
    {
        match self {
            LockAction::NotApplicable => None,
            LockAction::Lock { resource_type, resource_id } => Some(
                LockKey {
                    merchant_id: merchant_id.clone(),
                    resource_type: *resource_type,
                    resource_id: resource_id.clone(),
                },
            ),
        }
    }
}

/// What the store remembers of a granted lock.
#[derive(Clone, Copy, Debug, PartialEq, Eq, Structural)]
pub struct Lease {
    /// Tells this grant from every other grant the store ever made.
    pub token: u64,
    /// The first instant at which the lock no longer binds.
    pub expires_at: u64,
}

/// The mathematical value of a [`LockHandle`].
pub struct HandleView {
    pub key: LockKeyView,
    pub token: u64,
    pub expires_at: u64,
}

/// The instant at which a lock taken at `now` for `ttl` stops binding. It
/// stops at the last instant the clock can show.
pub open spec fn deadline(now: u64, ttl: u64) -> u64 {
    if now + ttl > u64::MAX {
        u64::MAX
    } else {
        (now + ttl) as u64
    }
}

/// The lock store as a mathematical value: for each locked key its lease,
/// the next token to hand out, and whether the store answers.
pub struct LockTable {
    pub leases: Map<LockKeyView, Lease>,
    pub next_token: u64,
    pub reachable: bool,
}

impl LockTable {
    /// A store that answers, holds no lock and has handed out no token.
    pub open spec fn empty() -> LockTable {
        LockTable { leases: Map::empty(), next_token: 0, reachable: true }
    }

    /// Every token in use was handed out before the next one.
    pub open spec fn wf(self) -> bool {
        forall|k: LockKeyView| #[trigger]
            self.leases.contains_key(k) ==> self.leases[k].token < self.next_token
    }

    /// Whether a live lease binds `key` at `now`.
    pub open spec fn held(self, key: LockKeyView, now: u64) -> bool {
        self.leases.contains_key(key) && now < self.leases[key].expires_at
    }

    /// Whether the store can grant anything: it answers and has a token left.
    pub open spec fn serving(self) -> bool {
        self.reachable && self.next_token < u64::MAX
    }

    /// What a request for `key` gets at `now`.
    pub open spec fn acquire_outcome(self, key: LockKeyView, ttl: u64, now: u64) -> Result<
        HandleView,
        LockError,
    > {
        if !self.serving() {
            Err(LockError::StoreUnavailable)
        } else if self.held(key, now) {
            Err(LockError::Contention)
        } else {
            Ok(HandleView { key, token: self.next_token, expires_at: deadline(now, ttl) })
        }
    }

    /// The store after a request for `key` at `now`: changed only by a grant.
    pub open spec fn after_acquire(self, key: LockKeyView, ttl: u64, now: u64) -> LockTable {
        if self.acquire_outcome(key, ttl, now).is_ok() {
            LockTable {
                leases: self.leases.insert(
                    key,
                    Lease { token: self.next_token, expires_at: deadline(now, ttl) },
                ),
                next_token: (self.next_token + 1) as u64,
                reachable: self.reachable,
            }
        } else {
            self
        }
    }

    /// Whether the lease on the handle's key is the one the handle was
    /// granted.
    pub open spec fn owns(self, handle: HandleView) -> bool {
        self.leases.contains_key(handle.key) && self.leases[handle.key] == (Lease {
            token: handle.token,
            expires_at: handle.expires_at,
        })
    }

    /// Whether the handle still excludes others at `now`.
    pub open spec fn outstanding(self, handle: HandleView, now: u64) -> bool {
        self.owns(handle) && now < handle.expires_at
    }

    /// Whether giving the handle back removes a lease.
    pub open spec fn releases(self, handle: HandleView) -> bool {
        self.reachable && self.owns(handle)
    }

    /// The store after the handle was given back. A handle whose lease was
    /// taken over after expiry, or a store that does not answer, changes
    /// nothing.
    pub open spec fn after_release(self, handle: HandleView) -> LockTable {
        if self.releases(handle) {
            LockTable {
                leases: self.leases.remove(handle.key),
                next_token: self.next_token,
                reachable: self.reachable,
            }
        } else {
            self
        }
    }

    /// What a probe of `key` answers at `now`.
    pub open spec fn probe(self, key: LockKeyView, now: u64) -> Result<bool, LockError> {
        if self.reachable {
            Ok(self.held(key, now))
        } else {
            Err(LockError::StoreUnavailable)
        }
    }
}

/// Proof of ownership of a lock. It cannot be copied, and giving it back
/// consumes it, so a lock is released at most once.
#[derive(Debug)]
pub struct LockHandle {
    key: LockKey,
    token: u64,
    expires_at: u64,
}

impl View for LockHandle {
    type V = HandleView;

    closed spec fn view(&self) -> HandleView {
        HandleView { key: self.key@, token: self.token, expires_at: self.expires_at }
    }
}

impl LockHandle {
    /// The key this handle locks.
    pub fn key(&self) -> (r: &LockKey)
        ensures
            r@ == self@.key,
    {
        &self.key
    }

    /// The first instant at which the lock no longer binds.
    pub fn expires_at(&self) -> (r: u64)
        ensures
            r == self@.expires_at,
    {
        self.expires_at
    }

    /// Whether the lock has stopped binding at `now`.
    pub fn is_expired(&self, now: u64) -> (r: bool)
        ensures
            r == (now >= self@.expires_at),
    {
        now >= self.expires_at
    }
}

/// Whether an acquisition's result is the one the table prescribes.
pub open spec fn grant_matches(
    got: Result<LockHandle, LockError>,
    expected: Result<HandleView, LockError>,
) -> bool {
    match got {
        Ok(h) => expected == Ok::<HandleView, LockError>(h@),
        Err(e) => expected == Err::<HandleView, LockError>(e),
    }
}

struct LockEntry {
    key: LockKey,
    lease: Lease,
}

/// Grants exclusive, keyed, time-bounded locks. A request that finds its key
/// held is turned away at once rather than queued. The store is well formed
/// at all times; its view always satisfies [`LockTable::wf`].
pub struct LockManager {
    entries: Vec<LockEntry>,
    next_token: u64,
    reachable: bool,
    table: Ghost<Map<LockKeyView, Lease>>,
}

impl View for LockManager {
    type V = LockTable;

    closed spec fn view(&self) -> LockTable {
        LockTable { leases: self.table@, next_token: self.next_token, reachable: self.reachable }
    }
}

fn expiry(now: u64, ttl: u64) -> (r: u64)
    ensures
        r == deadline(now, ttl),
{
    if ttl > u64::MAX - now {
        u64::MAX
    } else {
        now + ttl
    }
}

/// The entries and the table say the same, no key occurs twice, and every
/// token in use was handed out before the next one.
spec fn consistent(entries: Seq<LockEntry>, table: Map<LockKeyView, Lease>, next_token: u64) -> bool {
    &&& forall|k: LockKeyView| #[trigger] table.contains_key(k) ==> table[k].token < next_token
    &&& forall|i: int|
        #![trigger entries[i]]
        0 <= i < entries.len() ==> table.contains_key(entries[i].key@) && table[entries[i].key@]
            == entries[i].lease
    &&& forall|k: LockKeyView| #[trigger]
        table.contains_key(k) ==> exists|i: int|
            0 <= i < entries.len() && (#[trigger] entries[i]).key@ == k
    &&& forall|i: int, j: int|
        #![trigger entries[i], entries[j]]
        0 <= i < j < entries.len() ==> entries[i].key@ != entries[j].key@
}

impl LockManager {
    #[verifier::type_invariant]
    closed spec fn inv(self) -> bool {
        consistent(self.entries@, self.table@, self.next_token)
    }

    /// A store that answers and holds no lock.
    pub fn new() -> (r: LockManager)
        ensures
            r@ == LockTable::empty(),
            r@.wf(),
    {
        LockManager {
            entries: Vec::new(),
            next_token: 0,
            reachable: true,
            table: Ghost(Map::empty()),
        }
    }

    /// Marks the store as answering or not. While it does not answer every
    /// acquisition fails and no release takes effect.
    pub fn set_reachable(&mut self, reachable: bool)
        ensures
            final(self)@ == (LockTable { reachable, ..old(self)@ }),
            final(self)@.wf(),
    {
        proof {
            use_type_invariant(&*self);
        }
        self.reachable = reachable;
    }

    fn position(&self, key: &LockKey) -> (r: Option<usize>)
        ensures
            match r {
                Some(i) => i < self.entries@.len() && self.entries@[i as int].key@ == key@,
                None => forall|i: int|
                    0 <= i < self.entries@.len() ==> (#[trigger] self.entries@[i]).key@ != key@,
            },
    {
        let mut i: usize = 0;
        while i < self.entries.len()
            invariant
                i <= self.entries@.len(),
                forall|j: int| 0 <= j < i ==> (#[trigger] self.entries@[j]).key@ != key@,
            decreases self.entries@.len() - i,
        {
            if self.entries[i].key.same_as(key) {
                return Some(i);
            }
            i = i + 1;
        }
        None
    }

    /// Whether a live lock binds `key` at `now`.
    pub fn is_held(&self, key: &LockKey, now: u64) -> (r: Result<bool, LockError>)
        ensures
            r == self@.probe(key@, now),
    {
        proof {
            use_type_invariant(self);
        }
        if !self.reachable {
            return Err(LockError::StoreUnavailable);
        }
        match self.position(key) {
            Some(i) => Ok(now < self.entries[i].lease.expires_at),
            None => Ok(false),
        }
    }

    /// Takes the lock on `key` for `ttl` from `now` on, or says at once why
    /// not. A lock whose time has run out counts as free.
    pub fn acquire(&mut self, key: &LockKey, ttl: u64, now: u64) -> (r: Result<
        LockHandle,
        LockError,
    >)
        ensures
            final(self)@ == old(self)@.after_acquire(key@, ttl, now),
            final(self)@.wf(),
            grant_matches(r, old(self)@.acquire_outcome(key@, ttl, now)),
    {
        proof {
            use_type_invariant(&*self);
        }
        if !self.reachable || self.next_token == u64::MAX {
            return Err(LockError::StoreUnavailable);
        }
        let found = self.position(key);
        match found {
            Some(i) => {
                if now < self.entries[i].lease.expires_at {
                    return Err(LockError::Contention);
                }
            },
            None => {},
        }
        let lease = Lease { token: self.next_token, expires_at: expiry(now, ttl) };
        // The store is taken apart, changed and put together again, so that
        // it is whole whenever it can be seen.
        let mut taken = LockManager::new();
        core::mem::swap(self, &mut taken);
        let LockManager { mut entries, next_token, reachable, table } = taken;
        let ghost before = entries@;
        let ghost slot: int;
        match found {
            Some(i) => {
                entries.set(i, LockEntry { key: key.clone(), lease });
                proof {
                    slot = i as int;
                }
            },
            None => {
                entries.push(LockEntry { key: key.clone(), lease });
                proof {
                    slot = entries@.len() - 1;
                }
            },
        }
        let ghost leases = table@.insert(key@, lease);
        proof {
            assert(entries@[slot].key@ == key@);
            assert forall|k: LockKeyView| #[trigger] leases.contains_key(k) implies exists|i: int|
                0 <= i < entries@.len() && (#[trigger] entries@[i]).key@ == k by {
                if k != key@ {
                    let j = choose|j: int| 0 <= j < before.len() && (#[trigger] before[j]).key@ == k;
                    assert(entries@[j].key@ == k);
                }
            }
            assert forall|k: LockKeyView| #[trigger] leases.contains_key(k) implies leases[k].token
                < next_token + 1 by {
                if k != key@ {
                    assert(table@.contains_key(k));
                }
            }
        }
        *self = LockManager { entries, next_token: next_token + 1, reachable, table: Ghost(leases) };
        Ok(LockHandle { key: key.clone(), token: lease.token, expires_at: lease.expires_at })
    }

    /// Gives a lock back. Returns whether a lease was removed: it is not
    /// where the store does not answer, or where the lock ran out and was
    /// granted anew to another request.
    pub fn release(&mut self, handle: LockHandle) -> (r: bool)
        ensures
            final(self)@ == old(self)@.after_release(handle@),
            final(self)@.wf(),
            r == old(self)@.releases(handle@),
    {
        proof {
            use_type_invariant(&*self);
        }
        if !self.reachable {
            return false;
        }
        match self.position(&handle.key) {
            Some(i) => {
                if self.entries[i].lease.token == handle.token && self.entries[i].lease.expires_at
                    == handle.expires_at {
                    let mut taken = LockManager::new();
                    core::mem::swap(self, &mut taken);
                    let LockManager { mut entries, next_token, reachable, table } = taken;
                    let ghost before = entries@;
                    let _ = entries.remove(i);
                    let ghost leases = table@.remove(handle.key@);
                    proof {
                        assert forall|k: LockKeyView| #[trigger]
                            leases.contains_key(k) implies exists|j: int|
                            0 <= j < entries@.len() && (#[trigger] entries@[j]).key@ == k by {
                            let w = choose|w: int|
                                0 <= w < before.len() && (#[trigger] before[w]).key@ == k;
                            if w < i {
                                assert(entries@[w].key@ == k);
                            } else {
                                assert(entries@[w - 1] == before[w]);
                            }
                        }
                        assert forall|a: int, b: int|
                            #![trigger entries@[a], entries@[b]]
                            0 <= a < b < entries@.len() implies entries@[a].key@
                            != entries@[b].key@ by {
                            let oa = if a < i { a } else { a + 1 };
                            let ob = if b < i { b } else { b + 1 };
                            assert(entries@[a] == before[oa]);
                            assert(entries@[b] == before[ob]);
                        }
                        assert forall|j: int|
                            #![trigger entries@[j]]
                            0 <= j < entries@.len() implies leases.contains_key(entries@[j].key@)
                            && leases[entries@[j].key@] == entries@[j].lease by {
                            let oj = if j < i { j } else { j + 1 };
                            assert(entries@[j] == before[oj]);
                            assert(before[oj].key@ != before[i as int].key@);
                        }
                        assert forall|k: LockKeyView| #[trigger]
                            leases.contains_key(k) implies leases[k].token < next_token by {
                            assert(table@.contains_key(k));
                        }
                    }
                    *self = LockManager { entries, next_token, reachable, table: Ghost(leases) };
                    true
                } else {
                    false
                }
            },
            None => false,
        }
    }
}

/// One thing that can happen to the lock store.
pub enum LockStep {
    /// A request for `key` at `now`.
    Acquire { key: LockKeyView, ttl: u64, now: u64 },
    /// A handle is given back.
    Release { handle: HandleView },
    /// The store starts or stops answering.
    Reach { reachable: bool },
}

impl LockTable {
    /// The store after one step.
    pub open spec fn step(self, step: LockStep) -> LockTable {
        match step {
            LockStep::Acquire { key, ttl, now } => self.after_acquire(key, ttl, now),
            LockStep::Release { handle } => self.after_release(handle),
            LockStep::Reach { reachable } => LockTable { reachable, ..self },
        }
    }

    /// The store after a row of steps, taken in order.
    pub open spec fn run(self, steps: Seq<LockStep>) -> LockTable
        decreases steps.len(),
    {
        if steps.len() == 0 {
            self
        } else {
            self.run(steps.drop_last()).step(steps.last())
        }
    }
}

/// Whether a step leaves the lock of `handle` alone: it does not give the
/// handle back, and where it asks for the handle's key it does so before
/// the lock has run out.
pub open spec fn spares(step: LockStep, handle: HandleView) -> bool {
    match step {
        LockStep::Acquire { key, ttl, now } => key == handle.key ==> now < handle.expires_at,
        LockStep::Release { handle: given } => given != handle,
        LockStep::Reach { reachable } => true,
    }
}

/// Whatever happens to the store, every token in use stays below the next
/// one.
pub proof fn law_steps_keep_table_sound(table: LockTable, steps: Seq<LockStep>)
    requires
        table.wf(),
    ensures
        table.run(steps).wf(),
    decreases steps.len(),
{
    if steps.len() > 0 {
        law_steps_keep_table_sound(table, steps.drop_last());
        let before = table.run(steps.drop_last());
        match steps.last() {
            LockStep::Acquire { key, ttl, now } => {
                law_acquire_keeps_table_sound(before, key, ttl, now);
            },
            LockStep::Release { handle } => {
                law_release_keeps_table_sound(before, handle);
            },
            LockStep::Reach { reachable } => {
                assert forall|k: LockKeyView| #[trigger]
                    before.step(steps.last()).leases.contains_key(k) implies before.step(
                    steps.last(),
                ).leases[k].token < before.step(steps.last()).next_token by {
                    assert(before.leases.contains_key(k));
                }
            },
        }
    }
}

/// Mutual exclusion over time: a lock that was granted stays with its
/// handle through every row of steps that neither gives the handle back
/// nor asks for its key after the lock has run out. Until one of the two
/// happens, every request for the key is refused.
pub proof fn law_lock_outlasts_steps(
    table: LockTable,
    handle: HandleView,
    steps: Seq<LockStep>,
    ttl: u64,
    now: u64,
)
    requires
        table.owns(handle),
        forall|i: int| 0 <= i < steps.len() ==> spares(#[trigger] steps[i], handle),
    ensures
        table.run(steps).owns(handle),
        now < handle.expires_at ==> table.run(steps).acquire_outcome(handle.key, ttl, now) is Err,
    decreases steps.len(),
{
    if steps.len() > 0 {
        let earlier = steps.drop_last();
        assert forall|i: int| 0 <= i < earlier.len() implies spares(
            #[trigger] earlier[i],
            handle,
        ) by {
            assert(earlier[i] == steps[i]);
        }
        law_lock_outlasts_steps(table, handle, earlier, ttl, now);
        assert(spares(steps[steps.len() - 1], handle));
    }
}

/// Granting a lock keeps every token in use below the next one.
pub proof fn law_acquire_keeps_table_sound(table: LockTable, key: LockKeyView, ttl: u64, now: u64)
    requires
        table.wf(),
    ensures
        table.after_acquire(key, ttl, now).wf(),
{
    let after = table.after_acquire(key, ttl, now);
    assert forall|k: LockKeyView| #[trigger]
        after.leases.contains_key(k) implies after.leases[k].token < after.next_token by {
        if k != key {
            assert(table.leases.contains_key(k));
        }
    }
}

/// Taking a handle back keeps every token in use below the next one.
pub proof fn law_release_keeps_table_sound(table: LockTable, handle: HandleView)
    requires
        table.wf(),
    ensures
        table.after_release(handle).wf(),
{
    let after = table.after_release(handle);
    assert forall|k: LockKeyView| #[trigger]
        after.leases.contains_key(k) implies after.leases[k].token < after.next_token by {
        assert(table.leases.contains_key(k));
    }
}

/// Mutual exclusion: in no state of the store are two different handles on
/// one key outstanding at the same instant.
pub proof fn law_one_holder_per_key(table: LockTable, a: HandleView, b: HandleView, now: u64)
    requires
        a.key == b.key,
        table.outstanding(a, now),
        table.outstanding(b, now),
    ensures
        a == b,
{
}

/// A lock that was granted binds from the grant on and until it runs out,
/// and while it binds every further request for its key is refused.
pub proof fn law_live_lock_excludes(
    table: LockTable,
    key: LockKeyView,
    ttl: u64,
    now: u64,
    later_ttl: u64,
    later: u64,
)
    requires
        table.acquire_outcome(key, ttl, now) is Ok,
        later < deadline(now, ttl),
    ensures
        table.after_acquire(key, ttl, now).outstanding(
            table.acquire_outcome(key, ttl, now)->Ok_0,
            later,
        ),
        table.after_acquire(key, ttl, now).acquire_outcome(key, later_ttl, later) is Err,
{
}

/// No request takes a binding lock away: whatever key is asked for while a
/// handle is outstanding, the handle is outstanding afterwards, and a
/// request for the handle's own key is refused.
pub proof fn law_requests_keep_live_locks(
    table: LockTable,
    held: HandleView,
    key: LockKeyView,
    ttl: u64,
    now: u64,
)
    requires
        table.outstanding(held, now),
    ensures
        table.after_acquire(key, ttl, now).outstanding(held, now),
        key == held.key ==> table.acquire_outcome(key, ttl, now) is Err,
{
}

/// Giving one handle back leaves the lock of every other handle in place.
pub proof fn law_release_keeps_other_locks(
    table: LockTable,
    held: HandleView,
    given: HandleView,
    now: u64,
)
    requires
        table.outstanding(held, now),
        given != held,
    ensures
        table.after_release(given).outstanding(held, now),
{
}

/// A handle given back to a store that answers frees its key at once, and
/// the key can be granted again.
pub proof fn law_release_frees_key(table: LockTable, handle: HandleView, ttl: u64, now: u64)
    requires
        table.releases(handle),
    ensures
        !table.after_release(handle).held(handle.key, now),
        table.after_release(handle).serving() ==> table.after_release(handle).acquire_outcome(
            handle.key,
            ttl,
            now,
        ) is Ok,
{
}

/// Expiry: a lock that is never given back is free again from the instant
/// at which its time has run out, so a store that serves grants the key to
/// the next request.
pub proof fn law_expired_lock_is_free(
    table: LockTable,
    key: LockKeyView,
    ttl: u64,
    now: u64,
    later_ttl: u64,
    later: u64,
)
    requires
        table.acquire_outcome(key, ttl, now) is Ok,
        later >= deadline(now, ttl),
    ensures
        !table.after_acquire(key, ttl, now).held(key, later),
        table.after_acquire(key, ttl, now).serving() ==> table.after_acquire(
            key,
            ttl,
            now,
        ).acquire_outcome(key, later_ttl, later) is Ok,
{
}

/// Expiry in any state: a handle whose time has run out excludes nobody,
/// whether or not it was ever given back.
pub proof fn law_run_out_handle_excludes_nobody(
    table: LockTable,
    handle: HandleView,
    ttl: u64,
    now: u64,
)
    requires
        table.owns(handle),
        now >= handle.expires_at,
    ensures
        !table.held(handle.key, now),
        table.serving() ==> table.acquire_outcome(handle.key, ttl, now) is Ok,
{
}

/// A handle whose lock ran out and was granted anew cannot take the new
/// holder's lock away.
pub proof fn law_stale_handle_releases_nothing(
    table: LockTable,
    stale: HandleView,
    ttl: u64,
    now: u64,
)
    requires
        table.wf(),
        table.owns(stale),
        table.acquire_outcome(stale.key, ttl, now) is Ok,
    ensures
        table.after_acquire(stale.key, ttl, now).after_release(stale) == table.after_acquire(
            stale.key,
            ttl,
            now,
        ),
{
}

} // verus!
