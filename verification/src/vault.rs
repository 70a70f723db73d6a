//! The vault state machine.
//!
//! A `Vault` is parameterized by a zero-sized lifecycle marker, so that each
//! operation is only defined in the state where it is legal: `default` builds
//! an unbound vault, `bind` consumes it into a locked one, and `unlock`
//! consumes a locked vault into either an unlocked vault (on a PIN match) or
//! a fresh locked vault with one more failed attempt (on a mismatch). Every
//! transition is a move, so a stale state value cannot be reused.
//!
//! The secret payload is empty in every state except `Unlocked`, where it is
//! the fixed constant `secret_text()`.

use vstd::prelude::*;

verus! {

/// Lifecycle marker for a [`Vault`].
pub trait VaultState {}

/// A vault that has not yet been bound to a PIN.
pub struct Unbound;

/// A vault bound to a PIN and awaiting a successful unlock.
pub struct Locked;

/// A vault whose PIN was matched; it carries the secret payload.
pub struct Unlocked;

impl VaultState for Unbound {}

impl VaultState for Locked {}

impl VaultState for Unlocked {}

/// The entity guarding a secret behind a two-digit PIN.
pub struct Vault<State: VaultState> {
    /// The bound PIN; all zeroes until `bind` assigns it.
    pub pin: [u8; 2],
    /// Unlock attempts rejected so far in this bind session.
    pub failed_attempts: u32,
    /// The secret payload; empty unless the vault is unlocked.
    pub secret: &'static str,
    /// Zero-sized lifecycle marker.
    pub state: State,
}

/// The fixed secret payload revealed by a successful unlock.
pub open spec fn secret_text() -> Seq<char> {
    "Aww man you found my secret!"@
}

/// Two PINs agree on both digits.
pub open spec fn pin_matches(a: [u8; 2], b: [u8; 2]) -> bool {
    a[0] == b[0] && a[1] == b[1]
}

/// What `bind` promises of the locked vault it returns, given the PIN bound.
pub open spec fn bind_post(pin: [u8; 2], v: Vault<Locked>) -> bool {
    &&& v.pin == pin
    &&& v.failed_attempts == 0
    &&& v.secret@.len() == 0
}

/// What `unlock` promises of its result, given the locked vault consumed and
/// the attempt submitted.
pub open spec fn unlock_post(
    pre: Vault<Locked>,
    attempt: [u8; 2],
    r: Result<Vault<Unlocked>, Vault<Locked>>,
) -> bool {
    if pin_matches(attempt, pre.pin) {
        &&& r matches Ok(u)
        &&& u.pin == pre.pin
        &&& u.failed_attempts == pre.failed_attempts
        &&& u.secret@ == secret_text()
    } else {
        &&& r matches Err(l)
        &&& l.pin == pre.pin
        &&& l.failed_attempts == saturating_bump(pre.failed_attempts)
        &&& l.secret@.len() == 0
    }
}

/// The failed-attempt counter after one more rejection: it grows by exactly
/// one until it reaches the largest value its machine type can hold, where it
/// stays (the counter never wraps back down).
pub open spec fn saturating_bump(n: u32) -> u32 {
    if n < u32::MAX {
        (n + 1) as u32
    } else {
        n
    }
}

impl Vault<Unbound> {
    /// An unbound vault is fresh: zeroed PIN, no failures, no secret.
    pub open spec fn wf(self) -> bool {
        &&& self.pin[0] == 0
        &&& self.pin[1] == 0
        &&& self.failed_attempts == 0
        &&& self.secret@.len() == 0
    }

    /// Consume this unbound vault and bind it to `pin`, producing a locked
    /// vault with a zeroed failure counter. Always succeeds.
    pub fn bind(self, pin: [u8; 2]) -> (r: Vault<Locked>)
        ensures
            bind_post(pin, r),
    {
        proof {
            reveal_strlit("");
        }
        Vault { pin, failed_attempts: 0, secret: "", state: Locked }
    }
}

impl Default for Vault<Unbound> {
    /// Construct a fresh unbound vault.
    fn default() -> (r: Self)
        ensures
            r.wf(),
    {
        proof {
            reveal_strlit("");
        }
        Vault { pin: [0, 0], failed_attempts: 0, secret: "", state: Unbound }
    }
}

impl Vault<Locked> {
    /// A locked vault holds no secret yet.
    pub open spec fn wf(self) -> bool {
        self.secret@.len() == 0
    }

    /// Compare `attempt` with the bound PIN, consuming this locked vault.
    ///
    /// On a match, the unlocked vault carries the fixed secret and the
    /// failure counter unchanged. On a mismatch, the new locked vault keeps
    /// the PIN and counts one more failed attempt. Retries are unlimited:
    /// there is deliberately no lockout threshold, and the counter only stops
    /// growing at the limit of its machine type. Never panics.
    pub fn unlock(self, attempt: [u8; 2]) -> (r: Result<Vault<Unlocked>, Vault<Locked>>)
        ensures
            unlock_post(self, attempt, r),
    {
        proof {
            reveal_strlit("");
        }
        if attempt[0] == self.pin[0] && attempt[1] == self.pin[1] {
            Ok(
                Vault {
                    pin: self.pin,
                    failed_attempts: self.failed_attempts,
                    secret: "Aww man you found my secret!",
                    state: Unlocked,
                },
            )
        } else {
            let bumped: u32 = if self.failed_attempts < u32::MAX {
                self.failed_attempts + 1
            } else {
                self.failed_attempts
            };
            Err(Vault { pin: self.pin, failed_attempts: bumped, secret: "", state: Locked })
        }
    }
}

impl Vault<Unlocked> {
    /// An unlocked vault carries exactly the fixed secret payload.
    pub open spec fn wf(self) -> bool {
        self.secret@ == secret_text()
    }
}

/// Law: binding a fresh vault to `p` and then unlocking with `p` itself
/// yields an unlocked vault that carries the secret, keeps the PIN, and has
/// counted no failed attempt.
pub proof fn lemma_bind_then_matching_unlock(
    p: [u8; 2],
    v: Vault<Locked>,
    r: Result<Vault<Unlocked>, Vault<Locked>>,
)
    requires
        bind_post(p, v),
        unlock_post(v, p, r),
    ensures
        r matches Ok(u) && u.pin == p && u.failed_attempts == 0 && u.secret@ == secret_text(),
{
}

/// Law: unlocking a vault bound to `p` with a different PIN `q` leaves it
/// locked, keeps the PIN, and increments the failure counter by exactly one.
pub proof fn lemma_mismatched_unlock_counts(
    p: [u8; 2],
    q: [u8; 2],
    v: Vault<Locked>,
    r: Result<Vault<Unlocked>, Vault<Locked>>,
)
    requires
        bind_post(p, v),
        q != p,
        unlock_post(v, q, r),
    ensures
        r matches Err(l) && l.pin == p && l.failed_attempts == 1,
{
    assert(!pin_matches(q, v.pin)) by {
        if pin_matches(q, v.pin) {
            assert(q =~= p);
        }
    }
}

/// Law: every rejected attempt strictly increases the failure counter, for
/// as long as the counter has room in its machine type; no upper bound on
/// attempts is enforced, so rejections can repeat without limit.
pub proof fn lemma_rejection_strictly_increases(
    q: [u8; 2],
    v: Vault<Locked>,
    r: Result<Vault<Unlocked>, Vault<Locked>>,
)
    requires
        !pin_matches(q, v.pin),
        v.failed_attempts < u32::MAX,
        unlock_post(v, q, r),
    ensures
        r matches Err(l) && l.failed_attempts > v.failed_attempts && l.pin == v.pin,
{
}

/// Law: two rejected attempts in a row compose — the PIN survives both and
/// the counter grows strictly across each step.
pub proof fn lemma_repeated_rejection_monotonic(
    q0: [u8; 2],
    q1: [u8; 2],
    v0: Vault<Locked>,
    v1: Vault<Locked>,
    v2: Vault<Locked>,
)
    requires
        !pin_matches(q0, v0.pin),
        !pin_matches(q1, v1.pin),
        v0.failed_attempts < u32::MAX - 1,
        unlock_post(v0, q0, Err(v1)),
        unlock_post(v1, q1, Err(v2)),
    ensures
        v2.pin == v0.pin,
        v2.failed_attempts > v1.failed_attempts > v0.failed_attempts,
        v2.failed_attempts == v0.failed_attempts + 2,
{
}

} // verus!
