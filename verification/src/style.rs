//! The click-through bit of a window's extended style word.
//!
//! The host reads the style word of the native window, hands it to
//! [`set_click_through`], writes back the word of the [`StyleChange`] it gets
//! and prints the change's description. Nothing here touches the window.

use vstd::prelude::*;
use vstd::string::*;
use windows::Win32::UI::WindowsAndMessaging::WS_EX_TRANSPARENT;

use crate::error::WindowError;
use crate::hex::{hex_digits, push_hex};

verus! {

/// The bit of the extended style word that makes a window ignore mouse input.
pub const TRANSPARENT: u32 = 0x20;

/// Whether a window with this extended style lets mouse input pass through.
pub open spec fn is_click_through(style: u32) -> bool {
    style & TRANSPARENT != 0
}

/// The extended style with the click-through bit set or cleared.
pub open spec fn with_click_through(style: u32, enabled: bool) -> u32 {
    if enabled {
        style | TRANSPARENT
    } else {
        style & !TRANSPARENT
    }
}

/// The extended style held in a pointer-sized window word: its low 32 bits.
pub open spec fn style_of_word(word: isize) -> u32 {
    (word as int % 0x1_0000_0000) as u32
}

/// The pointer-sized window word that carries an extended style: the style
/// itself where it fits, and the same 32 bits read as a negative number on a
/// target whose words have only 32 bits.
pub open spec fn word_of_style(style: u32) -> int {
    if style <= isize::MAX {
        style as int
    } else {
        style - 0x1_0000_0000
    }
}

/// Reads `WS_EX_TRANSPARENT` from the `windows` crate, which defines it as
/// `WINDOW_EX_STYLE(32u32)`; the number is the struct's only field. Trusted:
/// the value is taken from the crate's source.
#[verifier::external_body]
fn transparent_bit() -> (bit: u32)
    ensures
        bit == TRANSPARENT,
{
    WS_EX_TRANSPARENT.0
}

/// Whether the extended style has the click-through bit set.
pub fn click_through_enabled(style: u32) -> (enabled: bool)
    ensures
        enabled == is_click_through(style),
{
    style & transparent_bit() != 0
}

/// Sets or clears the click-through bit of an extended style word and leaves
/// every other bit as it was.
pub fn restyle(style: u32, enabled: bool) -> (new_style: u32)
    ensures
        new_style == with_click_through(style, enabled),
        is_click_through(new_style) == enabled,
        new_style & !TRANSPARENT == style & !TRANSPARENT,
{
    let bit: u32 = transparent_bit();
    proof {
        lemma_restyle_touches_one_bit(style, enabled);
    }
    if enabled {
        style | bit
    } else {
        style & !bit
    }
}

/// The extended style held in a window word as the host read it.
pub fn style_from_word(word: isize) -> (style: u32)
    ensures
        style == style_of_word(word),
{
    assert(word as u32 == (word as int % 0x1_0000_0000) as u32) by (bit_vector);
    word as u32
}

/// The window word to write for an extended style.
pub fn word_from_style(style: u32) -> (word: isize)
    ensures
        word == word_of_style(style),
        style_of_word(word) == style,
{
    let word: isize = style as isize;
    assert((style as isize) as u32 == style) by (bit_vector);
    assert(word as u32 == (word as int % 0x1_0000_0000) as u32) by (bit_vector);
    word
}

/// Whether reading or writing the window word failed. Both calls report
/// failure by returning zero, which a window whose word was zero returns as
/// well; the thread's last-error code, cleared before the call, tells the
/// two apart.
pub fn style_call_failed(returned: isize, last_error: u32) -> (failed: bool)
    ensures
        failed == (returned == 0 && last_error != 0),
{
    returned == 0 && last_error != 0
}

/// The native window behind the managed window, as far as click-through
/// needs to know it.
#[derive(Debug, Clone, Copy, PartialEq, Eq, Structural)]
pub enum NativeHandle {
    /// A Win32 window, by its `HWND`.
    Win32 { hwnd: isize },
    /// A window of any other windowing system.
    Other,
}

/// The `HWND` whose extended style is to be changed. A handle of another
/// windowing system has no extended style word, and is refused.
pub fn window_handle(handle: &NativeHandle) -> (found: Result<isize, WindowError>)
    ensures
        match *handle {
            NativeHandle::Win32 { hwnd } => found == Ok::<isize, WindowError>(hwnd),
            NativeHandle::Other => found matches Err(WindowError::OsStyle(message))
                && message@ == "Not a Windows window"@,
        },
{
    match handle {
        NativeHandle::Win32 { hwnd } => Ok(*hwnd),
        NativeHandle::Other => Err(WindowError::OsStyle(String::from_str("Not a Windows window"))),
    }
}

/// The record of one change of the click-through bit: the style that was
/// read and the style to write in its place.
#[derive(Debug, Clone, Copy, PartialEq, Eq, Structural)]
pub struct StyleChange {
    pub enabled: bool,
    pub old_style: u32,
    pub new_style: u32,
}

impl StyleChange {
    /// The diagnostic line for this change, both styles in hexadecimal.
    pub open spec fn description(self) -> Seq<char> {
        "Click-through "@ + (if self.enabled {
            "enabled"@
        } else {
            "disabled"@
        }) + ": style changed from "@ + hex_digits(self.old_style as nat) + " to "@ + hex_digits(
            self.new_style as nat,
        )
    }

    /// The window word that the host writes back.
    pub fn word(&self) -> (word: isize)
        ensures
            word == word_of_style(self.new_style),
            style_of_word(word) == self.new_style,
    {
        word_from_style(self.new_style)
    }

    /// The diagnostic line for this change.
    pub fn describe(&self) -> (text: String)
        ensures
            text@ == self.description(),
    {
        let mut text = String::from_str("Click-through ");
        if self.enabled {
            text.append("enabled");
        } else {
            text.append("disabled");
        }
        text.append(": style changed from ");
        push_hex(&mut text, self.old_style);
        text.append(" to ");
        push_hex(&mut text, self.new_style);
        text
    }
}

/// The change that turns click-through on or off for a window whose extended
/// style word currently reads `current`.
pub open spec fn style_change(current: isize, enabled: bool) -> StyleChange {
    StyleChange {
        enabled,
        old_style: style_of_word(current),
        new_style: with_click_through(style_of_word(current), enabled),
    }
}

/// Computes the new extended style from the word that the host read: the
/// click-through bit is set if `enabled` and cleared otherwise, whatever it
/// was before.
pub fn set_click_through(current: isize, enabled: bool) -> (change: StyleChange)
    ensures
        change == style_change(current, enabled),
        is_click_through(change.new_style) == enabled,
        change.new_style & !TRANSPARENT == change.old_style & !TRANSPARENT,
{
    let old_style: u32 = style_from_word(current);
    let new_style: u32 = restyle(old_style, enabled);
    StyleChange { enabled, old_style, new_style }
}

/// Changing the click-through bit gives a style whose bit is as asked and
/// whose other bits are untouched.
pub proof fn lemma_restyle_touches_one_bit(style: u32, enabled: bool)
    ensures
        is_click_through(with_click_through(style, enabled)) == enabled,
        with_click_through(style, enabled) & !TRANSPARENT == style & !TRANSPARENT,
{
    assert((style | 0x20u32) & 0x20u32 != 0) by (bit_vector);
    assert((style & !0x20u32) & 0x20u32 == 0) by (bit_vector);
    assert((style | 0x20u32) & !0x20u32 == style & !0x20u32) by (bit_vector);
    assert((style & !0x20u32) & !0x20u32 == style & !0x20u32) by (bit_vector);
}

/// Asking for the same click-through state twice in a row yields the same
/// style word as asking once.
pub proof fn lemma_restyle_idempotent(style: u32, enabled: bool)
    ensures
        with_click_through(with_click_through(style, enabled), enabled) == with_click_through(
            style,
            enabled,
        ),
{
    assert((style | 0x20u32) | 0x20u32 == style | 0x20u32) by (bit_vector);
    assert((style & !0x20u32) & !0x20u32 == style & !0x20u32) by (bit_vector);
}

/// The style survives the way through a window word: what the host writes
/// back and reads again is the style that was computed.
pub proof fn lemma_word_round_trip(style: u32)
    ensures
        isize::MIN <= word_of_style(style) <= isize::MAX,
        style_of_word(word_of_style(style) as isize) == style,
{
}

/// Turning click-through on or off twice in a row, each time from the word
/// that the window then holds, yields the same style word as doing it once.
pub proof fn lemma_set_click_through_idempotent(current: isize, enabled: bool)
    ensures
        ({
            let once = style_change(current, enabled);
            let twice = style_change(word_of_style(once.new_style) as isize, enabled);
            &&& twice.old_style == once.new_style
            &&& twice.new_style == once.new_style
        }),
{
    let once = style_change(current, enabled);
    lemma_word_round_trip(once.new_style);
    lemma_restyle_idempotent(style_of_word(current), enabled);
}

/// Only the last of two changes counts: the first leaves no trace in the
/// style word.
pub proof fn lemma_restyle_last_wins(style: u32, first: bool, last: bool)
    ensures
        with_click_through(with_click_through(style, first), last) == with_click_through(
            style,
            last,
        ),
{
    assert((style | 0x20u32) | 0x20u32 == style | 0x20u32) by (bit_vector);
    assert((style & !0x20u32) | 0x20u32 == style | 0x20u32) by (bit_vector);
    assert((style | 0x20u32) & !0x20u32 == style & !0x20u32) by (bit_vector);
    assert((style & !0x20u32) & !0x20u32 == style & !0x20u32) by (bit_vector);
}

/// A style whose click-through bit already is as asked is left unchanged.
pub proof fn lemma_restyle_fixed_point(style: u32, enabled: bool)
    requires
        is_click_through(style) == enabled,
    ensures
        with_click_through(style, enabled) == style,
{
    assert(style & 0x20u32 != 0 ==> style | 0x20u32 == style) by (bit_vector);
    assert(style & 0x20u32 == 0 ==> style & !0x20u32 == style) by (bit_vector);
}

} // verus!
