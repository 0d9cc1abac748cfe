use vstd::prelude::*;

verus! {

/// A number used to represent a physical key on a keyboard.
///
/// Keycodes beyond 255 ("extended keycodes") are not treated specially;
/// keymaps and applications which are compatible with X11 should not use
/// them.
pub type Keycode = u32;

/// A number used to represent the symbols generated from a key on a keyboard.
pub type Keysym = u32;

/// Index of a keyboard layout. Layout indices are consecutive; the first
/// layout has index 0.
pub type LayoutIndex = u32;

/// A mask of layout indices.
pub type LayoutMask = u32;

/// Index of a shift level. Level indices are consecutive; the first level has
/// index 0.
pub type LevelIndex = u32;

/// Index of a modifier. Modifier indices are consecutive; the first modifier
/// has index 0.
pub type ModIndex = u32;

/// A mask of modifier indices.
pub type ModMask = u32;

/// Index of a keyboard LED. LED indices are not necessarily consecutive.
pub type LedIndex = u32;

/// A mask of LED indices.
pub type LedMask = u32;

/// The value that stands for "no keycode".
pub const KEYCODE_INVALID: u32 = 0xffffffff;
/// The value that stands for "no layout".
pub const LAYOUT_INVALID: u32 = 0xffffffff;
/// The value that stands for "no shift level".
pub const LEVEL_INVALID: u32 = 0xffffffff;
/// The value that stands for "no modifier".
pub const MOD_INVALID: u32 = 0xffffffff;
/// The value that stands for "no LED".
pub const LED_INVALID: u32 = 0xffffffff;

/// The largest valid (extended) keycode.
pub const KEYCODE_MAX: u32 = 0xfffffffe;

/// A value is a legal extended keycode when it does not exceed `KEYCODE_MAX`.
pub open spec fn is_legal_ext(key: u32) -> bool {
    key <= KEYCODE_MAX
}

/// A value is a legal X11 keycode when it lies in `8..=255`.
pub open spec fn is_legal_x11(key: u32) -> bool {
    8 <= key && key <= 255
}

/// Test whether a value is a valid extended keycode.
pub fn keycode_is_legal_ext(key: u32) -> (legal: bool)
    ensures
        legal == is_legal_ext(key),
        legal == (key != KEYCODE_INVALID),
{
    key <= KEYCODE_MAX
}

/// Test whether a value is a valid X11 keycode.
pub fn keycode_is_legal_x11(key: u32) -> (legal: bool)
    ensures
        legal == is_legal_x11(key),
        legal == (8 <= key && key <= 255),
{
    key >= 8 && key <= 255
}

/// Every keycode that X11 can carry is also a legal extended keycode: the
/// X11 range is a part of the extended range.
pub proof fn lemma_x11_keycodes_are_extended(key: u32)
    requires
        is_legal_x11(key),
    ensures
        is_legal_ext(key),
{
}

/// The invalid keycode is the one value of `u32` that is not a legal
/// extended keycode, and `KEYCODE_MAX` is the largest legal one.
pub proof fn lemma_extended_range_bounds(key: u32)
    ensures
        !is_legal_ext(KEYCODE_INVALID),
        is_legal_ext(KEYCODE_MAX),
        is_legal_ext(key) <==> key != KEYCODE_INVALID,
        is_legal_ext(key) ==> key <= KEYCODE_MAX,
{
}

} // verus!
