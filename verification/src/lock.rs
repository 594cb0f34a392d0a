//! The core state machine: exclusive ownership of the privacy lock, keyed by
//! connection identity, with a mathematical model of every transition.

use vstd::prelude::*;

use crate::backend::Backend;
use crate::backend::BackendError;

verus! {

/// The distinguished connection id meaning "no connection". A release with
/// this id is a forced, system-level release.
pub const INVALID_PRIVACY_MODE_CONN_ID: i32 = 0;

/// The key under which this implementation registers itself.
pub const PRIVACY_MODE_IMPL: &'static str = "privacy_mode_impl_android";

/// Why an acquire was denied.
#[derive(Clone, Copy, Debug, PartialEq, Eq, Structural)]
pub enum LockError {
    /// Another connection currently holds the lock.
    AlreadyHeld,
    /// The platform backend failed to activate the privacy overlay.
    BackendUnavailable,
}

/// Whether a lock state records a holder at all.
pub open spec fn spec_is_held(owner: i32) -> bool {
    owner != INVALID_PRIVACY_MODE_CONN_ID
}

/// Whether connection `id` holds the lock in state `owner`.
pub open spec fn spec_holds(owner: i32, id: i32) -> bool {
    id != INVALID_PRIVACY_MODE_CONN_ID && owner == id
}

/// Whether an acquire from state `owner` must activate the backend: only an
/// unheld lock leads to an enable call.
pub open spec fn spec_needs_enable(owner: i32) -> bool {
    !spec_is_held(owner)
}

/// The acquire transition: from state `owner`, connection `conn_id` asks for
/// the lock and `enabled` says whether the backend's enable call succeeded
/// (it is consulted only when the lock is unheld). Yields the new state and
/// the result reported to the caller.
pub open spec fn spec_turn_on(owner: i32, conn_id: i32, enabled: bool) -> (i32, Result<
    bool,
    LockError,
>) {
    if owner == conn_id {
        (owner, Ok(true))
    } else if spec_is_held(owner) {
        (owner, Err(LockError::AlreadyHeld))
    } else if enabled {
        (conn_id, Ok(true))
    } else {
        (INVALID_PRIVACY_MODE_CONN_ID, Err(LockError::BackendUnavailable))
    }
}

/// Whether a release by `conn_id` from state `owner` clears the lock (and
/// therefore deactivates the backend): the holder itself, or the forced
/// system-level release, may clear a held lock.
pub open spec fn spec_release_clears(owner: i32, conn_id: i32) -> bool {
    spec_is_held(owner) && (conn_id == owner || conn_id == INVALID_PRIVACY_MODE_CONN_ID)
}

/// The release transition: the new state after `conn_id` releases from state
/// `owner`. It does not depend on the backend's disable outcome: clearing is
/// unconditional once the release is authorized (fail-open cleanup).
pub open spec fn spec_turn_off(owner: i32, conn_id: i32) -> i32 {
    if spec_release_clears(owner, conn_id) {
        INVALID_PRIVACY_MODE_CONN_ID
    } else {
        owner
    }
}

/// Folds the backend's enable outcome into the acquire that needed it: on
/// success ownership goes to `conn_id`, on failure the lock stays unheld and
/// the caller is told the backend was unavailable. This function is exact for
/// every value of the outcome; the backend only chooses which branch applies.
pub fn apply_enable_result(conn_id: i32, outcome: Result<(), BackendError>) -> (r: (
    i32,
    Result<bool, LockError>,
))
    requires
        conn_id != INVALID_PRIVACY_MODE_CONN_ID,
    ensures
        outcome is Ok ==> r == (conn_id, Ok::<bool, LockError>(true)),
        outcome is Err ==> (r == (
            INVALID_PRIVACY_MODE_CONN_ID,
            Err::<bool, LockError>(LockError::BackendUnavailable),
        )),
{
    match outcome {
        Ok(()) => (conn_id, Ok(true)),
        Err(_) => (INVALID_PRIVACY_MODE_CONN_ID, Err(LockError::BackendUnavailable)),
    }
}

/// The privacy lock: an explicitly owned state object holding the id of the
/// connection that currently owns the privacy resource (`INVALID_PRIVACY_MODE_CONN_ID`
/// when unheld), the backend it drives, and ghost counters recording how
/// often each backend operation has been invoked.
pub struct PrivacyModeImpl<B: Backend> {
    /// Key under which this implementation is registered.
    pub impl_key: String,
    /// The platform backend this lock drives.
    pub backend: B,
    /// The connection currently holding the lock, or
    /// `INVALID_PRIVACY_MODE_CONN_ID` when the lock is unheld.
    pub conn_id: i32,
    /// How many times the backend's `enable` has been invoked.
    pub enable_calls: Ghost<nat>,
    /// How many times the backend's `disable` has been invoked.
    pub disable_calls: Ghost<nat>,
}

impl<B: Backend> PrivacyModeImpl<B> {
    /// A fresh lock: unheld, with no backend call made yet.
    pub fn new(impl_key: &str, backend: B) -> (r: Self)
        ensures
            r.conn_id == INVALID_PRIVACY_MODE_CONN_ID,
            r.impl_key@ == impl_key@,
            r.backend == backend,
            r.enable_calls@ == 0,
            r.disable_calls@ == 0,
    {
        PrivacyModeImpl {
            impl_key: impl_key.to_owned(),
            backend,
            conn_id: INVALID_PRIVACY_MODE_CONN_ID,
            enable_calls: Ghost(0),
            disable_calls: Ghost(0),
        }
    }

    /// Whether the backend signals completion asynchronously (capability
    /// flag; callers that need confirmation poll `pre_conn_id` after an
    /// asynchronous acquire).
    pub fn is_async_privacy_mode(&self) -> (r: bool)
        ensures
            r == self.backend.spec_is_async(),
    {
        self.backend.is_async()
    }

    /// Lifecycle initialization. Nothing has to be prepared for this lock,
    /// so it always succeeds and changes nothing.
    pub fn init(&self) -> (r: Result<(), LockError>)
        ensures
            r == Ok::<(), LockError>(()),
    {
        Ok(())
    }

    /// Read-only query: the connection currently holding the lock, or
    /// `INVALID_PRIVACY_MODE_CONN_ID` when it is unheld.
    pub fn pre_conn_id(&self) -> (r: i32)
        ensures
            r == self.conn_id,
    {
        self.conn_id
    }

    /// The key under which this implementation is registered.
    pub fn get_impl_key(&self) -> (r: &str)
        ensures
            r@ == self.impl_key@,
    {
        self.impl_key.as_str()
    }

    /// Acquire the privacy lock for `conn_id`.
    ///
    /// Re-entrant acquire by the current holder succeeds without touching the
    /// backend; an acquire while another connection holds the lock is denied
    /// with `AlreadyHeld`, also without touching the backend; from the unheld
    /// state the backend's `enable` is invoked exactly once, and ownership is
    /// granted exactly when it succeeded, else the lock stays unheld and the
    /// caller gets `BackendUnavailable`.
    pub fn turn_on_privacy(&mut self, conn_id: i32) -> (r: Result<bool, LockError>)
        requires
            conn_id != INVALID_PRIVACY_MODE_CONN_ID,
        ensures
            exists|enabled: bool|
                (final(self).conn_id, r) == spec_turn_on(old(self).conn_id, conn_id, enabled),
            old(self).conn_id == conn_id ==> (r == Ok::<bool, LockError>(true) && *final(self)
                == *old(self)),
            old(self).conn_id != conn_id && spec_is_held(old(self).conn_id) ==> (r == Err::<
                bool,
                LockError,
            >(LockError::AlreadyHeld) && *final(self) == *old(self)),
            r == Ok::<bool, LockError>(true) <==> final(self).conn_id == conn_id,
            r is Err ==> final(self).conn_id == old(self).conn_id,
            final(self).enable_calls@ == old(self).enable_calls@ + (if spec_needs_enable(
                old(self).conn_id,
            ) {
                1nat
            } else {
                0nat
            }),
            final(self).disable_calls == old(self).disable_calls,
            final(self).impl_key == old(self).impl_key,
    {
        if self.conn_id == conn_id {
            assert((self.conn_id, Ok::<bool, LockError>(true)) == spec_turn_on(
                self.conn_id,
                conn_id,
                true,
            ));
            return Ok(true);
        }
        if self.conn_id != INVALID_PRIVACY_MODE_CONN_ID {
            assert((self.conn_id, Err::<bool, LockError>(LockError::AlreadyHeld)) == spec_turn_on(
                self.conn_id,
                conn_id,
                true,
            ));
            return Err(LockError::AlreadyHeld);
        }
        let outcome = self.backend.enable();
        self.enable_calls = Ghost(self.enable_calls@ + 1);
        proof {
            let witness = outcome is Ok;
            assert(spec_turn_on(old(self).conn_id, conn_id, witness) == spec_turn_on(
                old(self).conn_id,
                conn_id,
                witness,
            ));
        }
        let (owner, result) = apply_enable_result(conn_id, outcome);
        self.conn_id = owner;
        result
    }

    /// Release the privacy lock on behalf of `conn_id`.
    ///
    /// Only the current holder, or the forced system-level release with
    /// `INVALID_PRIVACY_MODE_CONN_ID`, clears a held lock; any other request
    /// is a no-op that leaves everything untouched. When the release is
    /// authorized the backend's `disable` is invoked exactly once and the
    /// lock is cleared whatever that call returned: a backend failure during
    /// cleanup never leaves the lock stuck (fail-open release).
    pub fn turn_off_privacy(&mut self, conn_id: i32)
        ensures
            final(self).conn_id == spec_turn_off(old(self).conn_id, conn_id),
            final(self).disable_calls@ == old(self).disable_calls@ + (if spec_release_clears(
                old(self).conn_id,
                conn_id,
            ) {
                1nat
            } else {
                0nat
            }),
            final(self).enable_calls == old(self).enable_calls,
            final(self).impl_key == old(self).impl_key,
            !spec_release_clears(old(self).conn_id, conn_id) ==> *final(self) == *old(self),
    {
        let held = self.conn_id != INVALID_PRIVACY_MODE_CONN_ID;
        let authorized = conn_id == self.conn_id || conn_id == INVALID_PRIVACY_MODE_CONN_ID;
        if held && authorized {
            let _ = self.backend.disable();
            self.disable_calls = Ghost(self.disable_calls@ + 1);
            self.conn_id = INVALID_PRIVACY_MODE_CONN_ID;
        }
    }

    /// Teardown: a forced release, used at shutdown so the backend is left
    /// disabled. Afterwards the lock is unheld, whoever held it.
    pub fn clear(&mut self)
        ensures
            final(self).conn_id == INVALID_PRIVACY_MODE_CONN_ID,
            final(self).disable_calls@ == old(self).disable_calls@ + (if spec_is_held(
                old(self).conn_id,
            ) {
                1nat
            } else {
                0nat
            }),
            final(self).enable_calls == old(self).enable_calls,
            final(self).impl_key == old(self).impl_key,
    {
        self.turn_off_privacy(INVALID_PRIVACY_MODE_CONN_ID);
    }
}

/// Mutual exclusion: in any lock state, at most one connection holds the
/// lock. Two connections that both hold it in the same state are the same
/// connection; since every transition yields again a single-owner state,
/// this covers every sequence of acquire and release calls.
pub proof fn lemma_mutual_exclusion(owner: i32, a: i32, b: i32)
    requires
        spec_holds(owner, a),
        spec_holds(owner, b),
    ensures
        a == b,
{
}

/// Idempotent re-acquire: once `a` has acquired the unheld lock (backend
/// enable succeeded, one enable call), a second acquire by `a` succeeds as
/// well and needs no further enable call, whatever the backend would answer.
pub proof fn lemma_reacquire_idempotent(a: i32, enabled: bool)
    requires
        a != INVALID_PRIVACY_MODE_CONN_ID,
    ensures
        spec_turn_on(INVALID_PRIVACY_MODE_CONN_ID, a, true) == (a, Ok::<bool, LockError>(true)),
        spec_needs_enable(INVALID_PRIVACY_MODE_CONN_ID),
        spec_turn_on(a, a, enabled) == (a, Ok::<bool, LockError>(true)),
        !spec_needs_enable(a),
{
}

/// Exclusivity on acquire: while `a` holds the lock, an acquire by a
/// different connection `b` is denied with `AlreadyHeld`, the owner is
/// unchanged, and the backend is not enabled again.
pub proof fn lemma_acquire_while_held_denied(a: i32, b: i32, enabled: bool)
    requires
        a != INVALID_PRIVACY_MODE_CONN_ID,
        b != INVALID_PRIVACY_MODE_CONN_ID,
        a != b,
    ensures
        spec_turn_on(a, b, enabled) == (a, Err::<bool, LockError>(LockError::AlreadyHeld)),
        !spec_needs_enable(a),
{
}

/// A release by an unrelated connection is a no-op: while `a` holds the
/// lock, a release by `b` (neither the holder nor the forced release) leaves
/// the owner unchanged and does not disable the backend.
pub proof fn lemma_release_by_other_ignored(a: i32, b: i32)
    requires
        a != INVALID_PRIVACY_MODE_CONN_ID,
        b != INVALID_PRIVACY_MODE_CONN_ID,
        a != b,
    ensures
        spec_turn_off(a, b) == a,
        !spec_release_clears(a, b),
{
}

/// Release by the holder clears the lock and disables the backend exactly
/// once; the transition does not consult the disable outcome, so the lock is
/// released even when the backend's disable fails.
pub proof fn lemma_release_by_owner_clears(a: i32)
    requires
        a != INVALID_PRIVACY_MODE_CONN_ID,
    ensures
        spec_turn_off(a, a) == INVALID_PRIVACY_MODE_CONN_ID,
        spec_release_clears(a, a),
{
}

/// Forced system-level release: a release with
/// `INVALID_PRIVACY_MODE_CONN_ID` clears the lock whoever holds it.
pub proof fn lemma_forced_release_clears(a: i32)
    requires
        a != INVALID_PRIVACY_MODE_CONN_ID,
    ensures
        spec_turn_off(a, INVALID_PRIVACY_MODE_CONN_ID) == INVALID_PRIVACY_MODE_CONN_ID,
        spec_release_clears(a, INVALID_PRIVACY_MODE_CONN_ID),
{
}

/// Acquire under backend failure: when the lock is unheld and the backend's
/// enable fails, the caller is told `BackendUnavailable` and the lock stays
/// unheld.
pub proof fn lemma_acquire_backend_failure(a: i32)
    requires
        a != INVALID_PRIVACY_MODE_CONN_ID,
    ensures
        spec_turn_on(INVALID_PRIVACY_MODE_CONN_ID, a, false) == (
            INVALID_PRIVACY_MODE_CONN_ID,
            Err::<bool, LockError>(LockError::BackendUnavailable),
        ),
{
}

/// Contention: each acquire runs as one atomic check-and-set (exclusive
/// access to the lock state), so two overlapping acquires by distinct
/// connections are serialized. In either serialization, the acquire that
/// runs first on the unheld lock wins, and the other is denied with
/// `AlreadyHeld` while the winner remains the owner — no interleaving leaves
/// both connections holding the lock.
pub proof fn lemma_exclusive_under_contention(a: i32, b: i32, enabled: bool)
    requires
        a != INVALID_PRIVACY_MODE_CONN_ID,
        b != INVALID_PRIVACY_MODE_CONN_ID,
        a != b,
    ensures
        ({
            let (owner1, r1) = spec_turn_on(INVALID_PRIVACY_MODE_CONN_ID, a, true);
            let (owner2, r2) = spec_turn_on(owner1, b, enabled);
            r1 == Ok::<bool, LockError>(true) && r2 == Err::<bool, LockError>(
                LockError::AlreadyHeld,
            ) && owner2 == a && spec_holds(owner2, a) && !spec_holds(owner2, b)
        }),
{
}

} // verus!
