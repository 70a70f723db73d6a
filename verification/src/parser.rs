//! The command protocol parser.
//!
//! Commands arrive as short ASCII frames terminated by a carriage return and
//! a line feed. Three frame shapes exist, one per session phase:
//!
//! - bind: the single byte `x`, then the terminator;
//! - unlock: `g`, then exactly two digit characters in the valid range,
//!   then the terminator;
//! - post-unlock: `q` (query the secret) or `u` (release the session),
//!   then the terminator.
//!
//! The grammar is stated over byte sequences, and the frame-level parser is
//! proved to accept exactly the valid frames and to decode each into its
//! typed command. The session controller validates the same grammar byte by
//! byte as input arrives; it shares these per-byte predicates.

use vstd::prelude::*;

use crate::pin::digit_in_range;
use crate::pin::DIGIT_MAX;
use crate::pin::DIGIT_MIN;

verus! {

/// The ASCII code of the digit character `0`.
pub const ASCII_ZERO: u8 = 48;

/// The ASCII code of `x`, the bind command byte.
pub const BYTE_BIND: u8 = 120;

/// The ASCII code of `g`, the unlock command byte.
pub const BYTE_UNLOCK: u8 = 103;

/// The ASCII code of `q`, the query-secret command byte.
pub const BYTE_QUERY: u8 = 113;

/// The ASCII code of `u`, the release command byte.
pub const BYTE_RELEASE: u8 = 117;

/// The ASCII code of carriage return, the first terminator byte.
pub const BYTE_CR: u8 = 13;

/// The ASCII code of line feed, the second terminator byte.
pub const BYTE_LF: u8 = 10;

/// Which phase of the session the next frame is read in; each phase accepts
/// a different frame shape.
#[derive(Clone, Copy, PartialEq, Eq, Structural, Debug)]
pub enum Phase {
    /// Waiting for the bind frame `x`.
    Bind,
    /// Waiting for an unlock attempt `g<d1><d2>`.
    Unlock,
    /// Waiting for a post-unlock command `q` or `u`.
    PostUnlock,
}

/// A fully validated, typed command decoded from one frame.
#[derive(Clone, Copy, PartialEq, Eq, Structural, Debug)]
pub enum Command {
    /// Bind the vault to a freshly generated PIN.
    Bind,
    /// Attempt to unlock with the two decoded digit values.
    Unlock(u8, u8),
    /// Query the secret.
    Query,
    /// Release the session and start over.
    Release,
}

/// A byte is the ASCII character of a digit in the valid PIN range.
pub open spec fn digit_char_ok(b: u8) -> bool {
    ASCII_ZERO + DIGIT_MIN <= b <= ASCII_ZERO + DIGIT_MAX
}

/// The numeric value of a digit character.
pub open spec fn digit_char_val(b: u8) -> u8
    recommends
        digit_char_ok(b),
{
    (b - ASCII_ZERO) as u8
}

/// The byte sequence is a valid bind frame: `x\r\n`.
pub open spec fn is_bind_frame(s: Seq<u8>) -> bool {
    &&& s.len() == 3
    &&& s[0] == BYTE_BIND
    &&& s[1] == BYTE_CR
    &&& s[2] == BYTE_LF
}

/// The byte sequence is a valid unlock frame: `g` plus two in-range digit
/// characters plus the terminator.
pub open spec fn is_unlock_frame(s: Seq<u8>) -> bool {
    &&& s.len() == 5
    &&& s[0] == BYTE_UNLOCK
    &&& digit_char_ok(s[1])
    &&& digit_char_ok(s[2])
    &&& s[3] == BYTE_CR
    &&& s[4] == BYTE_LF
}

/// The byte sequence is a valid post-unlock frame: `q\r\n` or `u\r\n`.
pub open spec fn is_post_frame(s: Seq<u8>) -> bool {
    &&& s.len() == 3
    &&& (s[0] == BYTE_QUERY || s[0] == BYTE_RELEASE)
    &&& s[1] == BYTE_CR
    &&& s[2] == BYTE_LF
}

/// What parsing one frame in a given phase yields: the typed command for
/// exactly the valid frames of that phase, and nothing for every other byte
/// sequence.
pub open spec fn spec_parse(phase: Phase, s: Seq<u8>) -> Option<Command> {
    match phase {
        Phase::Bind => if is_bind_frame(s) {
            Some(Command::Bind)
        } else {
            None
        },
        Phase::Unlock => if is_unlock_frame(s) {
            Some(Command::Unlock(digit_char_val(s[1]), digit_char_val(s[2])))
        } else {
            None
        },
        Phase::PostUnlock => if is_post_frame(s) {
            if s[0] == BYTE_QUERY {
                Some(Command::Query)
            } else {
                Some(Command::Release)
            }
        } else {
            None
        },
    }
}

/// Decide whether a byte is an in-range digit character.
pub fn digit_char(b: u8) -> (r: bool)
    ensures
        r == digit_char_ok(b),
{
    ASCII_ZERO + DIGIT_MIN <= b && b <= ASCII_ZERO + DIGIT_MAX
}

/// Decode an in-range digit character to its numeric value.
pub fn digit_val(b: u8) -> (r: u8)
    requires
        digit_char_ok(b),
    ensures
        r == digit_char_val(b),
        digit_in_range(r),
{
    b - ASCII_ZERO
}

/// Parse one whole frame in the given phase.
///
/// Returns the typed command exactly when the frame is syntactically valid
/// for that phase, and `None` for every other byte sequence, of any length
/// and content. Never panics.
pub fn parse_frame(phase: Phase, frame: &[u8]) -> (r: Option<Command>)
    ensures
        r == spec_parse(phase, frame@),
{
    match phase {
        Phase::Bind => {
            if frame.len() == 3 && frame[0] == BYTE_BIND && frame[1] == BYTE_CR && frame[2] == BYTE_LF {
                Some(Command::Bind)
            } else {
                None
            }
        },
        Phase::Unlock => {
            if frame.len() == 5 && frame[0] == BYTE_UNLOCK && digit_char(frame[1]) && digit_char(frame[2])
                && frame[3] == BYTE_CR && frame[4] == BYTE_LF {
                Some(Command::Unlock(digit_val(frame[1]), digit_val(frame[2])))
            } else {
                None
            }
        },
        Phase::PostUnlock => {
            if frame.len() == 3 && (frame[0] == BYTE_QUERY || frame[0] == BYTE_RELEASE) && frame[1] == BYTE_CR
                && frame[2] == BYTE_LF {
                if frame[0] == BYTE_QUERY {
                    Some(Command::Query)
                } else {
                    Some(Command::Release)
                }
            } else {
                None
            }
        },
    }
}

/// The phase in which a command's frame shape is read.
pub open spec fn phase_of(c: Command) -> Phase {
    match c {
        Command::Bind => Phase::Bind,
        Command::Unlock(_, _) => Phase::Unlock,
        Command::Query => Phase::PostUnlock,
        Command::Release => Phase::PostUnlock,
    }
}

/// The frame that encodes a command on the wire.
pub open spec fn render(c: Command) -> Seq<u8> {
    match c {
        Command::Bind => seq![BYTE_BIND, BYTE_CR, BYTE_LF],
        Command::Unlock(d1, d2) => seq![
            BYTE_UNLOCK,
            (ASCII_ZERO + d1) as u8,
            (ASCII_ZERO + d2) as u8,
            BYTE_CR,
            BYTE_LF,
        ],
        Command::Query => seq![BYTE_QUERY, BYTE_CR, BYTE_LF],
        Command::Release => seq![BYTE_RELEASE, BYTE_CR, BYTE_LF],
    }
}

/// Law: the parser round-trips every command — rendering a command to its
/// frame and parsing that frame in the command's own phase yields exactly
/// that command back.
pub proof fn lemma_render_parse_round_trip(c: Command)
    requires
        c matches Command::Unlock(d1, d2) ==> digit_in_range(d1) && digit_in_range(d2),
    ensures
        spec_parse(phase_of(c), render(c)) == Some(c),
{
}

/// Law: corrupting any single byte of a valid bind frame makes it invalid —
/// the parser yields nothing, never a different valid command.
pub proof fn lemma_bind_frame_corruption(s: Seq<u8>, i: int, b: u8)
    requires
        is_bind_frame(s),
        0 <= i < s.len(),
        b != s[i],
    ensures
        spec_parse(Phase::Bind, s.update(i, b)) is None,
{
}

/// Law: corrupting a single byte of a valid unlock frame — a wrong leading
/// byte, an out-of-range digit character, or a wrong terminator byte — makes
/// it invalid; the parser yields nothing, never a different valid command.
pub proof fn lemma_unlock_frame_corruption(s: Seq<u8>, i: int, b: u8)
    requires
        is_unlock_frame(s),
        0 <= i < s.len(),
        i == 0 ==> b != BYTE_UNLOCK,
        i == 1 || i == 2 ==> !digit_char_ok(b),
        i == 3 ==> b != BYTE_CR,
        i == 4 ==> b != BYTE_LF,
    ensures
        spec_parse(Phase::Unlock, s.update(i, b)) is None,
{
}

/// Law: corrupting a single byte of a valid post-unlock frame — a leading
/// byte that is neither `q` nor `u`, or a wrong terminator byte — makes it
/// invalid; the parser yields nothing, never a different valid command.
pub proof fn lemma_post_frame_corruption(s: Seq<u8>, i: int, b: u8)
    requires
        is_post_frame(s),
        0 <= i < s.len(),
        i == 0 ==> b != BYTE_QUERY && b != BYTE_RELEASE,
        i == 1 ==> b != BYTE_CR,
        i == 2 ==> b != BYTE_LF,
    ensures
        spec_parse(Phase::PostUnlock, s.update(i, b)) is None,
{
}

} // verus!
