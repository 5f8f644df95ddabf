//! The Windows console driver's logic: the window rectangle of a screen
//! buffer, and raw mode as two sets of console input mode bits.
use vstd::prelude::*;

use crate::guard::RawModeGuard;
use crate::TerminalSize;

verus! {

pub const ENABLE_PROCESSED_INPUT: u32 = 0x0001;

pub const ENABLE_LINE_INPUT: u32 = 0x0002;

pub const ENABLE_ECHO_INPUT: u32 = 0x0004;

pub const ENABLE_WINDOW_INPUT: u32 = 0x0008;

pub const ENABLE_MOUSE_INPUT: u32 = 0x0010;

pub const ENABLE_INSERT_MODE: u32 = 0x0020;

pub const ENABLE_QUICK_EDIT_MODE: u32 = 0x0040;

pub const ENABLE_EXTENDED_FLAGS: u32 = 0x0080;

pub const ENABLE_VIRTUAL_TERMINAL_INPUT: u32 = 0x0200;

/// The bits that are all set in raw mode.
pub const RAW_MODE_MASK: u32 = ENABLE_EXTENDED_FLAGS | ENABLE_INSERT_MODE | ENABLE_QUICK_EDIT_MODE
    | ENABLE_VIRTUAL_TERMINAL_INPUT;

/// The bits of cooked input, all clear in raw mode.
pub const NOT_RAW_MODE_MASK: u32 = ENABLE_LINE_INPUT | ENABLE_ECHO_INPUT | ENABLE_MOUSE_INPUT
    | ENABLE_WINDOW_INPUT | ENABLE_PROCESSED_INPUT;

/// The visible window of a console screen buffer, in character cells; both
/// corners are inclusive.
#[derive(Debug, Clone, Copy, PartialEq, Eq, Structural)]
pub struct WindowRect {
    pub left: i16,
    pub top: i16,
    pub right: i16,
    pub bottom: i16,
}

/// A console's input mode as it was captured, to be applied again later.
#[derive(Debug, Clone, Copy)]
pub struct TerminalState {
    mode: u32,
}

impl View for TerminalState {
    type V = u32;

    closed spec fn view(&self) -> u32 {
        self.mode
    }
}

/// Raw mode on a console: every bit of the raw set is set and every bit of
/// the cooked set is clear.
pub open spec fn is_raw_spec(mode: u32) -> bool {
    mode & NOT_RAW_MODE_MASK == 0 && mode & RAW_MODE_MASK == RAW_MODE_MASK
}

/// The mode that raw mode makes of `mode`: the cooked set cleared, the raw
/// set set, every other bit kept.
pub open spec fn raw_mode_of(mode: u32) -> u32 {
    (mode & !NOT_RAW_MODE_MASK) | RAW_MODE_MASK
}

/// The bits that neither raw mode nor cooked mode speaks of.
pub open spec fn unrelated_bits(mode: u32) -> u32 {
    mode & !(RAW_MODE_MASK | NOT_RAW_MODE_MASK)
}

/// The terminal size of a console window: `right - left + 1` columns and
/// `bottom - top + 1` rows, each taken as a 16-bit unsigned value; a console
/// reports no pixels.
pub fn size(rect: WindowRect) -> (r: TerminalSize)
    ensures
        r.width == (rect.right - rect.left + 1) as u16,
        r.height == (rect.bottom - rect.top + 1) as u16,
        r.pixel_width == 0,
        r.pixel_height == 0,
{
    let width: i32 = rect.right as i32 - rect.left as i32 + 1;
    let height: i32 = rect.bottom as i32 - rect.top as i32 + 1;
    TerminalSize {
        width: #[verifier::truncate] (width as u16),
        height: #[verifier::truncate] (height as u16),
        pixel_width: 0,
        pixel_height: 0,
    }
}

/// Whether the console input mode `mode` is raw.
pub fn is_raw_mode_enabled(mode: u32) -> (r: bool)
    ensures
        r == is_raw_spec(mode),
{
    mode & NOT_RAW_MODE_MASK == 0 && mode & RAW_MODE_MASK == RAW_MODE_MASK
}

/// Enters raw mode from the console input mode `mode`: returns the captured
/// state, which restores `mode`, and the mode to apply, which is raw and
/// keeps every bit outside the two sets.
pub fn enable_raw_mode(mode: u32) -> (r: (TerminalState, u32))
    ensures
        r.0@ == mode,
        r.1 == raw_mode_of(mode),
        is_raw_spec(r.1),
        unrelated_bits(r.1) == unrelated_bits(mode),
{
    let new_mode: u32 = (mode & !NOT_RAW_MODE_MASK) | RAW_MODE_MASK;
    proof {
        lemma_raw_mode_of(mode);
    }
    (TerminalState { mode }, new_mode)
}

/// The console input mode that restoring `state` applies: the captured mode,
/// verbatim.
pub fn restore_mode(state: TerminalState) -> (r: u32)
    ensures
        r == state@,
{
    state.mode
}

proof fn lemma_raw_mode_of(mode: u32)
    by (bit_vector)
    ensures
        is_raw_spec(raw_mode_of(mode)),
        unrelated_bits(raw_mode_of(mode)) == unrelated_bits(mode),
{
}

/// The console input mode after `state` is restored on a console whose mode
/// is `current`: restoring applies the captured mode verbatim.
pub open spec fn mode_after_restore(current: u32, state: TerminalState) -> u32 {
    state@
}

/// Restoring the same captured state twice leaves the console in the mode
/// that restoring it once does.
pub proof fn lemma_restore_idempotent(current: u32, state: TerminalState)
    ensures
        mode_after_restore(mode_after_restore(current, state), state) == mode_after_restore(
            current,
            state,
        ),
{
}

/// Entering raw mode from `mode` and then restoring the state captured on
/// entry gives back a console that is raw exactly when `mode` was.
pub proof fn lemma_raw_round_trip(mode: u32, captured: TerminalState)
    requires
        captured@ == mode,
    ensures
        is_raw_spec(raw_mode_of(mode)),
        mode_after_restore(raw_mode_of(mode), captured) == mode,
        is_raw_spec(mode_after_restore(raw_mode_of(mode), captured)) == is_raw_spec(mode),
{
    lemma_raw_mode_of(mode);
}

/// Two guards taken one after the other from `mode` and released in the
/// reverse order: the inner release leaves the console raw, the outer one
/// restores `mode`.
pub proof fn lemma_nested_guards(mode: u32, outer: TerminalState, inner: TerminalState)
    requires
        outer@ == mode,
        inner@ == raw_mode_of(mode),
    ensures
        mode_after_restore(raw_mode_of(raw_mode_of(mode)), inner) == raw_mode_of(mode),
        is_raw_spec(mode_after_restore(raw_mode_of(raw_mode_of(mode)), inner)),
        mode_after_restore(
            mode_after_restore(raw_mode_of(raw_mode_of(mode)), inner),
            outer,
        ) == mode,
{
    lemma_raw_mode_of(mode);
}

/// Whatever mode the console is in when a guard taken from `mode` ends,
/// restoring the state it hands back makes the console raw exactly when it
/// was before the guard.
pub proof fn lemma_guard_restores(current: u32, mode: u32, guard: RawModeGuard<TerminalState>)
    requires
        guard@@ == mode,
    ensures
        mode_after_restore(current, guard@) == mode,
        is_raw_spec(mode_after_restore(current, guard@)) == is_raw_spec(mode),
{
}

} // verus!
