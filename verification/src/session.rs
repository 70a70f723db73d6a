//! The session controller.
//!
//! One session runs: wait for the bind frame, bind the vault to a freshly
//! generated PIN and display it, run the unlock-retry loop, then run the
//! post-unlock loop until the operator releases the session, which starts
//! the next one. The controller is a pure step function from the current
//! session state and one input event to the next state and one action; the
//! surrounding program performs the blocking transport reads and writes, the
//! random draws, and the LED pulses that the actions call for, and feeds the
//! results back as events.
//!
//! Frames are validated byte by byte: the first byte that breaks the frame
//! grammar is answered with an invalid-command notice at once, the partial
//! frame is discarded, and the phase is re-entered. A failed transport read
//! is treated the same way. A malformed frame never advances the vault, so
//! it never costs a failed unlock attempt.

use vstd::prelude::*;

use crate::parser::digit_char;
use crate::parser::digit_char_ok;
use crate::parser::digit_char_val;
use crate::parser::digit_val;
use crate::parser::is_bind_frame;
use crate::parser::is_post_frame;
use crate::parser::is_unlock_frame;
use crate::parser::BYTE_BIND;
use crate::parser::BYTE_CR;
use crate::parser::BYTE_LF;
use crate::parser::BYTE_QUERY;
use crate::parser::BYTE_RELEASE;
use crate::parser::BYTE_UNLOCK;
use crate::pin::digit_in_range;
use crate::pin::pin_in_range;
use crate::vault::saturating_bump;
use crate::vault::secret_text;
use crate::vault::Locked;
use crate::vault::Unbound;
use crate::vault::Unlocked;
use crate::vault::Vault;

verus! {

/// Progress through the bytes of a bind frame.
pub enum BindProgress {
    /// Nothing of the frame seen yet.
    Start,
    /// The bind byte was accepted.
    SeenBind,
    /// The carriage return was accepted.
    SeenCr,
}

/// Progress through the bytes of an unlock frame, carrying the digit values
/// decoded so far.
pub enum UnlockProgress {
    /// Nothing of the frame seen yet.
    Start,
    /// The unlock byte was accepted.
    SeenUnlock,
    /// The first digit was accepted and decoded.
    SeenFirst(u8),
    /// Both digits were accepted and decoded.
    SeenSecond(u8, u8),
    /// The carriage return was accepted.
    SeenCr(u8, u8),
}

/// Progress through the bytes of a post-unlock frame, carrying the command
/// byte seen.
pub enum PostProgress {
    /// Nothing of the frame seen yet.
    Start,
    /// A query or release byte was accepted.
    SeenCmd(u8),
    /// The carriage return was accepted.
    SeenCr(u8),
}

/// The controller's state between two input events.
pub enum SessionState {
    /// No vault is bound; reading a bind frame.
    WaitBind {
        /// Parse progress through the bind frame.
        got: BindProgress,
    },
    /// The bind frame arrived; a freshly generated PIN is awaited.
    AwaitPin,
    /// The vault is locked; reading unlock attempts.
    WaitUnlock {
        /// The locked vault under attack.
        vault: Vault<Locked>,
        /// Parse progress through the unlock frame.
        got: UnlockProgress,
    },
    /// The vault is unlocked; reading post-unlock commands.
    Open {
        /// The unlocked vault carrying the secret.
        vault: Vault<Unlocked>,
        /// Parse progress through the post-unlock frame.
        got: PostProgress,
    },
}

/// One input handed to the controller.
#[derive(Clone, Copy, Debug)]
pub enum Event {
    /// The transport delivered one byte.
    Byte(u8),
    /// The transport failed to deliver a byte.
    ReadFailed,
    /// The freshly generated PIN digits, answering `NeedPin`.
    Pin(u8, u8),
}

/// What the surrounding program must do before the next event.
#[derive(Clone, Copy, Debug, PartialEq, Eq)]
pub enum Action {
    /// Nothing to emit; read the next byte.
    Continue,
    /// Write the invalid-command notice, then read the next byte.
    WriteInvalid,
    /// Draw the session PIN and answer with `Event::Pin`.
    NeedPin,
    /// Write the device-bound notice and pulse the LED once per unit of each
    /// digit, then read the next byte.
    AnnounceBound(u8, u8),
    /// Write the device-unlocked notice, then read the next byte.
    WriteUnlocked,
    /// Write the incorrect-pin notice, then read the next byte.
    WriteIncorrect,
    /// Write the secret payload, then read the next byte.
    WriteSecret(&'static str),
}

/// The digits an unlock parse has decoded so far are all in range.
pub open spec fn unlock_progress_wf(p: UnlockProgress) -> bool {
    match p {
        UnlockProgress::Start => true,
        UnlockProgress::SeenUnlock => true,
        UnlockProgress::SeenFirst(d1) => digit_in_range(d1),
        UnlockProgress::SeenSecond(d1, d2) => digit_in_range(d1) && digit_in_range(d2),
        UnlockProgress::SeenCr(d1, d2) => digit_in_range(d1) && digit_in_range(d2),
    }
}

/// A post-unlock parse only records a query or release command byte.
pub open spec fn post_progress_wf(p: PostProgress) -> bool {
    match p {
        PostProgress::Start => true,
        PostProgress::SeenCmd(c) => c == BYTE_QUERY || c == BYTE_RELEASE,
        PostProgress::SeenCr(c) => c == BYTE_QUERY || c == BYTE_RELEASE,
    }
}

/// Two locked vaults agree on everything the session tracks.
pub open spec fn same_locked(a: Vault<Locked>, b: Vault<Locked>) -> bool {
    a.pin == b.pin && a.failed_attempts == b.failed_attempts
}

/// Two unlocked vaults agree on everything the session tracks.
pub open spec fn same_unlocked(a: Vault<Unlocked>, b: Vault<Unlocked>) -> bool {
    a.pin == b.pin && a.failed_attempts == b.failed_attempts && a.secret == b.secret
}

impl SessionState {
    /// The session invariant: vaults are well formed, a bound PIN has both
    /// digits in range, and parse progress only holds validated bytes.
    pub open spec fn wf(self) -> bool {
        match self {
            SessionState::WaitBind { .. } => true,
            SessionState::AwaitPin => true,
            SessionState::WaitUnlock { vault, got } => {
                &&& vault.wf()
                &&& pin_in_range(vault.pin)
                &&& unlock_progress_wf(got)
            },
            SessionState::Open { vault, got } => {
                &&& vault.wf()
                &&& pin_in_range(vault.pin)
                &&& post_progress_wf(got)
            },
        }
    }

    /// The state a powered-on device starts in: no vault, no parse progress.
    pub fn init() -> (r: SessionState)
        ensures
            r == (SessionState::WaitBind { got: BindProgress::Start }),
            r.wf(),
    {
        SessionState::WaitBind { got: BindProgress::Start }
    }
}

/// The event is one the controller can be waiting for in this state: bytes
/// and read failures while reading frames, and a PIN — with both digits in
/// range, as the generator guarantees — only while one is awaited.
pub open spec fn event_fits(s: SessionState, ev: Event) -> bool {
    match ev {
        Event::Byte(_) => !(s is AwaitPin),
        Event::ReadFailed => !(s is AwaitPin),
        Event::Pin(d1, d2) => s is AwaitPin && digit_in_range(d1) && digit_in_range(d2),
    }
}

/// The transition relation of the bind phase on one byte.
pub open spec fn bind_byte_rel(got: BindProgress, b: u8, post: SessionState, act: Action) -> bool {
    match got {
        BindProgress::Start => if b == BYTE_BIND {
            post == (SessionState::WaitBind { got: BindProgress::SeenBind }) && act
                == Action::Continue
        } else {
            post == (SessionState::WaitBind { got: BindProgress::Start }) && act
                == Action::WriteInvalid
        },
        BindProgress::SeenBind => if b == BYTE_CR {
            post == (SessionState::WaitBind { got: BindProgress::SeenCr }) && act
                == Action::Continue
        } else {
            post == (SessionState::WaitBind { got: BindProgress::Start }) && act
                == Action::WriteInvalid
        },
        BindProgress::SeenCr => if b == BYTE_LF {
            post == SessionState::AwaitPin && act == Action::NeedPin
        } else {
            post == (SessionState::WaitBind { got: BindProgress::Start }) && act
                == Action::WriteInvalid
        },
    }
}

/// The transition relation of the unlock phase on one byte: the frame is
/// validated byte by byte, a completed frame runs the vault's unlock, and
/// the first bad byte resets the parse and answers invalid-command without
/// touching the vault.
pub open spec fn unlock_byte_rel(
    vault: Vault<Locked>,
    got: UnlockProgress,
    b: u8,
    post: SessionState,
    act: Action,
) -> bool {
    match got {
        UnlockProgress::Start => if b == BYTE_UNLOCK {
            unlock_keeps(vault, UnlockProgress::SeenUnlock, post) && act == Action::Continue
        } else {
            unlock_keeps(vault, UnlockProgress::Start, post) && act == Action::WriteInvalid
        },
        UnlockProgress::SeenUnlock => if digit_char_ok(b) {
            unlock_keeps(vault, UnlockProgress::SeenFirst(digit_char_val(b)), post) && act
                == Action::Continue
        } else {
            unlock_keeps(vault, UnlockProgress::Start, post) && act == Action::WriteInvalid
        },
        UnlockProgress::SeenFirst(d1) => if digit_char_ok(b) {
            unlock_keeps(vault, UnlockProgress::SeenSecond(d1, digit_char_val(b)), post) && act
                == Action::Continue
        } else {
            unlock_keeps(vault, UnlockProgress::Start, post) && act == Action::WriteInvalid
        },
        UnlockProgress::SeenSecond(d1, d2) => if b == BYTE_CR {
            unlock_keeps(vault, UnlockProgress::SeenCr(d1, d2), post) && act == Action::Continue
        } else {
            unlock_keeps(vault, UnlockProgress::Start, post) && act == Action::WriteInvalid
        },
        UnlockProgress::SeenCr(d1, d2) => if b == BYTE_LF {
            if vault.pin[0] == d1 && vault.pin[1] == d2 {
                &&& post matches SessionState::Open { vault: u, got: g }
                &&& u.pin == vault.pin
                &&& u.failed_attempts == vault.failed_attempts
                &&& u.secret@ == secret_text()
                &&& g == PostProgress::Start
                &&& act == Action::WriteUnlocked
            } else {
                &&& post matches SessionState::WaitUnlock { vault: l, got: g }
                &&& l.pin == vault.pin
                &&& l.failed_attempts == saturating_bump(vault.failed_attempts)
                &&& g == UnlockProgress::Start
                &&& act == Action::WriteIncorrect
            }
        } else {
            unlock_keeps(vault, UnlockProgress::Start, post) && act == Action::WriteInvalid
        },
    }
}

/// The next state stays in the unlock phase with the same vault and the
/// given parse progress.
pub open spec fn unlock_keeps(vault: Vault<Locked>, g: UnlockProgress, post: SessionState) -> bool {
    &&& post matches SessionState::WaitUnlock { vault: v, got }
    &&& same_locked(v, vault)
    &&& got == g
}

/// The transition relation of the post-unlock phase on one byte: a completed
/// query frame writes the secret, a completed release frame restarts the
/// session, and the first bad byte resets the parse and answers
/// invalid-command.
pub open spec fn post_byte_rel(
    vault: Vault<Unlocked>,
    got: PostProgress,
    b: u8,
    post: SessionState,
    act: Action,
) -> bool {
    match got {
        PostProgress::Start => if b == BYTE_QUERY || b == BYTE_RELEASE {
            post_keeps(vault, PostProgress::SeenCmd(b), post) && act == Action::Continue
        } else {
            post_keeps(vault, PostProgress::Start, post) && act == Action::WriteInvalid
        },
        PostProgress::SeenCmd(c) => if b == BYTE_CR {
            post_keeps(vault, PostProgress::SeenCr(c), post) && act == Action::Continue
        } else {
            post_keeps(vault, PostProgress::Start, post) && act == Action::WriteInvalid
        },
        PostProgress::SeenCr(c) => if b == BYTE_LF {
            if c == BYTE_QUERY {
                post_keeps(vault, PostProgress::Start, post) && act == Action::WriteSecret(
                    vault.secret,
                )
            } else {
                post == (SessionState::WaitBind { got: BindProgress::Start }) && act
                    == Action::Continue
            }
        } else {
            post_keeps(vault, PostProgress::Start, post) && act == Action::WriteInvalid
        },
    }
}

/// The next state stays in the post-unlock phase with the same vault and the
/// given parse progress.
pub open spec fn post_keeps(vault: Vault<Unlocked>, g: PostProgress, post: SessionState) -> bool {
    &&& post matches SessionState::Open { vault: v, got }
    &&& same_unlocked(v, vault)
    &&& got == g
}

/// The full transition relation of the controller: what the next state and
/// action are for every state and every event that fits it.
pub open spec fn step_rel(pre: SessionState, ev: Event, post: SessionState, act: Action) -> bool {
    match pre {
        SessionState::WaitBind { got } => match ev {
            Event::Byte(b) => bind_byte_rel(got, b, post, act),
            Event::ReadFailed => post == (SessionState::WaitBind { got: BindProgress::Start })
                && act == Action::WriteInvalid,
            Event::Pin(_, _) => false,
        },
        SessionState::AwaitPin => match ev {
            Event::Pin(d1, d2) => {
                &&& post matches SessionState::WaitUnlock { vault, got }
                &&& vault.pin[0] == d1
                &&& vault.pin[1] == d2
                &&& vault.failed_attempts == 0
                &&& vault.secret@.len() == 0
                &&& got == UnlockProgress::Start
                &&& act == Action::AnnounceBound(d1, d2)
            },
            _ => false,
        },
        SessionState::WaitUnlock { vault, got } => match ev {
            Event::Byte(b) => unlock_byte_rel(vault, got, b, post, act),
            Event::ReadFailed => unlock_keeps(vault, UnlockProgress::Start, post) && act
                == Action::WriteInvalid,
            Event::Pin(_, _) => false,
        },
        SessionState::Open { vault, got } => match ev {
            Event::Byte(b) => post_byte_rel(vault, got, b, post, act),
            Event::ReadFailed => post_keeps(vault, PostProgress::Start, post) && act
                == Action::WriteInvalid,
            Event::Pin(_, _) => false,
        },
    }
}

/// Advance the session by one event.
///
/// Consumes the current state and returns the next state together with the
/// one action the surrounding program must perform. The transition taken is
/// exactly the one `step_rel` describes, and the session invariant is
/// preserved. Never panics.
pub fn session_step(s: SessionState, ev: Event) -> (r: (SessionState, Action))
    requires
        s.wf(),
        event_fits(s, ev),
    ensures
        step_rel(s, ev, r.0, r.1),
        r.0.wf(),
{
    match s {
        SessionState::WaitBind { got } => match ev {
            Event::Byte(b) => match got {
                BindProgress::Start => {
                    if b == BYTE_BIND {
                        (SessionState::WaitBind { got: BindProgress::SeenBind }, Action::Continue)
                    } else {
                        (SessionState::WaitBind { got: BindProgress::Start }, Action::WriteInvalid)
                    }
                },
                BindProgress::SeenBind => {
                    if b == BYTE_CR {
                        (SessionState::WaitBind { got: BindProgress::SeenCr }, Action::Continue)
                    } else {
                        (SessionState::WaitBind { got: BindProgress::Start }, Action::WriteInvalid)
                    }
                },
                BindProgress::SeenCr => {
                    if b == BYTE_LF {
                        (SessionState::AwaitPin, Action::NeedPin)
                    } else {
                        (SessionState::WaitBind { got: BindProgress::Start }, Action::WriteInvalid)
                    }
                },
            },
            Event::ReadFailed => (
                SessionState::WaitBind { got: BindProgress::Start },
                Action::WriteInvalid,
            ),
            Event::Pin(_, _) => {
                proof {
                    assert(false);
                }
                (SessionState::WaitBind { got: BindProgress::Start }, Action::Continue)
            },
        },
        SessionState::AwaitPin => match ev {
            Event::Pin(d1, d2) => {
                let fresh: Vault<Unbound> = Default::default();
                let vault = fresh.bind([d1, d2]);
                (
                    SessionState::WaitUnlock { vault, got: UnlockProgress::Start },
                    Action::AnnounceBound(d1, d2),
                )
            },
            _ => {
                proof {
                    assert(false);
                }
                (SessionState::WaitBind { got: BindProgress::Start }, Action::Continue)
            },
        },
        SessionState::WaitUnlock { vault, got } => match ev {
            Event::Byte(b) => match got {
                UnlockProgress::Start => {
                    if b == BYTE_UNLOCK {
                        (
                            SessionState::WaitUnlock { vault, got: UnlockProgress::SeenUnlock },
                            Action::Continue,
                        )
                    } else {
                        (
                            SessionState::WaitUnlock { vault, got: UnlockProgress::Start },
                            Action::WriteInvalid,
                        )
                    }
                },
                UnlockProgress::SeenUnlock => {
                    if digit_char(b) {
                        let d1 = digit_val(b);
                        (
                            SessionState::WaitUnlock { vault, got: UnlockProgress::SeenFirst(d1) },
                            Action::Continue,
                        )
                    } else {
                        (
                            SessionState::WaitUnlock { vault, got: UnlockProgress::Start },
                            Action::WriteInvalid,
                        )
                    }
                },
                UnlockProgress::SeenFirst(d1) => {
                    if digit_char(b) {
                        let d2 = digit_val(b);
                        (
                            SessionState::WaitUnlock {
                                vault,
                                got: UnlockProgress::SeenSecond(d1, d2),
                            },
                            Action::Continue,
                        )
                    } else {
                        (
                            SessionState::WaitUnlock { vault, got: UnlockProgress::Start },
                            Action::WriteInvalid,
                        )
                    }
                },
                UnlockProgress::SeenSecond(d1, d2) => {
                    if b == BYTE_CR {
                        (
                            SessionState::WaitUnlock {
                                vault,
                                got: UnlockProgress::SeenCr(d1, d2),
                            },
                            Action::Continue,
                        )
                    } else {
                        (
                            SessionState::WaitUnlock { vault, got: UnlockProgress::Start },
                            Action::WriteInvalid,
                        )
                    }
                },
                UnlockProgress::SeenCr(d1, d2) => {
                    if b == BYTE_LF {
                        match vault.unlock([d1, d2]) {
                            Ok(unlocked) => (
                                SessionState::Open {
                                    vault: unlocked,
                                    got: PostProgress::Start,
                                },
                                Action::WriteUnlocked,
                            ),
                            Err(locked) => (
                                SessionState::WaitUnlock {
                                    vault: locked,
                                    got: UnlockProgress::Start,
                                },
                                Action::WriteIncorrect,
                            ),
                        }
                    } else {
                        (
                            SessionState::WaitUnlock { vault, got: UnlockProgress::Start },
                            Action::WriteInvalid,
                        )
                    }
                },
            },
            Event::ReadFailed => (
                SessionState::WaitUnlock { vault, got: UnlockProgress::Start },
                Action::WriteInvalid,
            ),
            Event::Pin(_, _) => {
                proof {
                    assert(false);
                }
                (SessionState::WaitBind { got: BindProgress::Start }, Action::Continue)
            },
        },
        SessionState::Open { vault, got } => match ev {
            Event::Byte(b) => match got {
                PostProgress::Start => {
                    if b == BYTE_QUERY || b == BYTE_RELEASE {
                        (
                            SessionState::Open { vault, got: PostProgress::SeenCmd(b) },
                            Action::Continue,
                        )
                    } else {
                        (
                            SessionState::Open { vault, got: PostProgress::Start },
                            Action::WriteInvalid,
                        )
                    }
                },
                PostProgress::SeenCmd(c) => {
                    if b == BYTE_CR {
                        (
                            SessionState::Open { vault, got: PostProgress::SeenCr(c) },
                            Action::Continue,
                        )
                    } else {
                        (
                            SessionState::Open { vault, got: PostProgress::Start },
                            Action::WriteInvalid,
                        )
                    }
                },
                PostProgress::SeenCr(c) => {
                    if b == BYTE_LF {
                        if c == BYTE_QUERY {
                            let secret = vault.secret;
                            (
                                SessionState::Open { vault, got: PostProgress::Start },
                                Action::WriteSecret(secret),
                            )
                        } else {
                            (
                                SessionState::WaitBind { got: BindProgress::Start },
                                Action::Continue,
                            )
                        }
                    } else {
                        (
                            SessionState::Open { vault, got: PostProgress::Start },
                            Action::WriteInvalid,
                        )
                    }
                },
            },
            Event::ReadFailed => (
                SessionState::Open { vault, got: PostProgress::Start },
                Action::WriteInvalid,
            ),
            Event::Pin(_, _) => {
                proof {
                    assert(false);
                }
                (SessionState::WaitBind { got: BindProgress::Start }, Action::Continue)
            },
        },
    }
}

/// The notice answering a malformed frame or a failed read.
pub fn invalid_command_text() -> (r: &'static str)
    ensures
        r@ == "Invalid Command"@,
{
    "Invalid Command"
}

/// The notice answering a successful bind.
pub fn device_bound_text() -> (r: &'static str)
    ensures
        r@ == "Device Bound"@,
{
    "Device Bound"
}

/// The notice answering a successful unlock.
pub fn device_unlocked_text() -> (r: &'static str)
    ensures
        r@ == "Device unlocked"@,
{
    "Device unlocked"
}

/// The notice answering a rejected unlock attempt.
pub fn incorrect_pin_text() -> (r: &'static str)
    ensures
        r@ == "Incorrect pin\r\n"@,
{
    "Incorrect pin\r\n"
}

/// Law: a whole valid bind frame, fed byte by byte from the start of the
/// bind phase, is accepted silently and ends by requesting the session PIN.
pub proof fn lemma_bind_frame_drives_bind(
    s0: SessionState,
    s1: SessionState,
    s2: SessionState,
    s3: SessionState,
    a1: Action,
    a2: Action,
    a3: Action,
    b0: u8,
    b1: u8,
    b2: u8,
)
    requires
        s0 == (SessionState::WaitBind { got: BindProgress::Start }),
        is_bind_frame(seq![b0, b1, b2]),
        step_rel(s0, Event::Byte(b0), s1, a1),
        step_rel(s1, Event::Byte(b1), s2, a2),
        step_rel(s2, Event::Byte(b2), s3, a3),
    ensures
        a1 == Action::Continue,
        a2 == Action::Continue,
        a3 == Action::NeedPin,
        s3 is AwaitPin,
{
}

/// Law: a whole valid unlock frame, fed byte by byte from the start of the
/// unlock phase, is accepted silently up to the terminator and then decided
/// by the vault alone: the decoded digits unlock it exactly when they match
/// the bound PIN, and otherwise cost exactly one failed attempt.
pub proof fn lemma_unlock_frame_drives_unlock(
    p: [u8; 2],
    n: u32,
    s0: SessionState,
    s1: SessionState,
    s2: SessionState,
    s3: SessionState,
    s4: SessionState,
    s5: SessionState,
    a1: Action,
    a2: Action,
    a3: Action,
    a4: Action,
    a5: Action,
    b0: u8,
    b1: u8,
    b2: u8,
    b3: u8,
    b4: u8,
)
    requires
        s0 matches SessionState::WaitUnlock { vault, got } && vault.pin == p
            && vault.failed_attempts == n && got == UnlockProgress::Start,
        is_unlock_frame(seq![b0, b1, b2, b3, b4]),
        step_rel(s0, Event::Byte(b0), s1, a1),
        step_rel(s1, Event::Byte(b1), s2, a2),
        step_rel(s2, Event::Byte(b2), s3, a3),
        step_rel(s3, Event::Byte(b3), s4, a4),
        step_rel(s4, Event::Byte(b4), s5, a5),
    ensures
        a1 == Action::Continue,
        a2 == Action::Continue,
        a3 == Action::Continue,
        a4 == Action::Continue,
        p[0] == digit_char_val(b1) && p[1] == digit_char_val(b2) ==> {
            &&& s5 matches SessionState::Open { vault, .. }
            &&& vault.pin == p
            &&& vault.failed_attempts == n
            &&& a5 == Action::WriteUnlocked
        },
        !(p[0] == digit_char_val(b1) && p[1] == digit_char_val(b2)) ==> {
            &&& s5 matches SessionState::WaitUnlock { vault, got }
            &&& vault.pin == p
            &&& vault.failed_attempts == saturating_bump(n)
            &&& got == UnlockProgress::Start
            &&& a5 == Action::WriteIncorrect
        },
{
}

/// Law: a whole valid post-unlock frame, fed byte by byte from the start of
/// the open phase, either writes the held secret and stays open (`q`) or
/// restarts the session at the bind phase (`u`).
pub proof fn lemma_post_frame_drives_session(
    sec: &'static str,
    s0: SessionState,
    s1: SessionState,
    s2: SessionState,
    s3: SessionState,
    a1: Action,
    a2: Action,
    a3: Action,
    b0: u8,
    b1: u8,
    b2: u8,
)
    requires
        s0 matches SessionState::Open { vault, got } && vault.secret == sec && got
            == PostProgress::Start,
        is_post_frame(seq![b0, b1, b2]),
        step_rel(s0, Event::Byte(b0), s1, a1),
        step_rel(s1, Event::Byte(b1), s2, a2),
        step_rel(s2, Event::Byte(b2), s3, a3),
    ensures
        a1 == Action::Continue,
        a2 == Action::Continue,
        b0 == BYTE_QUERY ==> s3 is Open && a3 == Action::WriteSecret(sec),
        b0 == BYTE_RELEASE ==> s3 == (SessionState::WaitBind { got: BindProgress::Start }) && a3
            == Action::Continue,
{
}

/// Law: the secret reaches the transport only from an unlocked session — a
/// step whose action writes the secret starts and ends in the open phase,
/// and what it writes is exactly the fixed secret payload.
pub proof fn lemma_secret_only_when_unlocked(
    pre: SessionState,
    ev: Event,
    post: SessionState,
    act: Action,
)
    requires
        pre.wf(),
        step_rel(pre, ev, post, act),
        act matches Action::WriteSecret(sec),
    ensures
        pre is Open,
        post is Open,
        act matches Action::WriteSecret(sec) && sec@ == secret_text(),
{
}

/// Law: the only way into the open phase is a successful unlock — a step
/// that ends open either started open or started locked and announced the
/// unlock.
pub proof fn lemma_open_only_after_unlock(
    pre: SessionState,
    ev: Event,
    post: SessionState,
    act: Action,
)
    requires
        step_rel(pre, ev, post, act),
        post is Open,
    ensures
        pre is Open || (pre is WaitUnlock && act == Action::WriteUnlocked),
{
}

/// Law: within one bind session the vault is stable under every step — the
/// bound PIN never changes, and the failed-attempt counter never decreases,
/// whether the session stays locked or becomes open.
pub proof fn lemma_bound_vault_stable(
    pre: SessionState,
    ev: Event,
    post: SessionState,
    act: Action,
)
    requires
        step_rel(pre, ev, post, act),
        pre is WaitUnlock,
    ensures
        post matches SessionState::WaitUnlock { vault: v1, .. } ==> pre matches
            SessionState::WaitUnlock { vault: v0, .. } && v1.pin == v0.pin && v1.failed_attempts
            >= v0.failed_attempts,
        post matches SessionState::Open { vault: u, .. } ==> pre matches
            SessionState::WaitUnlock { vault: v0, .. } && u.pin == v0.pin && u.failed_attempts
            == v0.failed_attempts,
{
}

/// Law: the PIN display never pulses out of range — a step that announces
/// the bind carries two digits in the valid range, so each pulse train has
/// between `DIGIT_MIN` and `DIGIT_MAX` pulses.
pub proof fn lemma_bound_pulses_in_range(
    pre: SessionState,
    ev: Event,
    post: SessionState,
    act: Action,
)
    requires
        pre.wf(),
        event_fits(pre, ev),
        step_rel(pre, ev, post, act),
        act matches Action::AnnounceBound(d1, d2),
    ensures
        act matches Action::AnnounceBound(d1, d2) && digit_in_range(d1) && digit_in_range(d2),
{
}

} // verus!
