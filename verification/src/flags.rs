use vstd::prelude::*;

verus! {

/// Flags for keysym lookup by name.
pub type KeysymFlags = u32;
/// Do not apply any keysym flags.
pub const KEYSYM_NO_FLAGS: u32 = 0;
/// Look up the name without regard to case.
pub const KEYSYM_CASE_INSENSITIVE: u32 = 0x1;

/// Flags for context creation.
pub type ContextFlags = u32;
/// Do not apply any context flags.
pub const CONTEXT_NO_FLAGS: u32 = 0;
/// Create this context with an empty include path.
pub const CONTEXT_NO_DEFAULT_INCLUDES: u32 = 0x1;
/// Don't take RMLVO names from the environment.
pub const CONTEXT_NO_ENVIRONMENT_NAMES: u32 = 0x2;

/// Flags for keymap compilation.
pub type KeymapCompileFlags = u32;
/// Do not apply any flags.
pub const KEYMAP_COMPILE_NO_FLAGS: u32 = 0;

/// The possible keymap formats.
pub type KeymapFormat = u32;
/// The current/classic XKB text format, as generated by xkbcomp -xkb.
pub const KEYMAP_FORMAT_TEXT_V1: u32 = 1;
/// Get the keymap as a string in the format from which it was created.
pub const KEYMAP_FORMAT_USE_ORIGINAL: u32 = 0xffffffff;

/// Modifier and layout components of a state object. The components are
/// bits, so that they can be combined into masks.
///
/// In XKB, the DEPRESSED components are also known as 'base'.
pub type StateComponent = u32;
/// Depressed modifiers, i.e. a key is physically holding them.
pub const STATE_MODS_DEPRESSED: u32 = 0x1;
/// Latched modifiers, i.e. will be unset after the next non-modifier key press.
pub const STATE_MODS_LATCHED: u32 = 0x2;
/// Locked modifiers, i.e. will be unset after the key provoking the lock has
/// been pressed again.
pub const STATE_MODS_LOCKED: u32 = 0x4;
/// Effective modifiers, i.e. currently active and affect key processing
/// (derived from the other state components).
pub const STATE_MODS_EFFECTIVE: u32 = 0x8;
/// Depressed layout, i.e. a key is physically holding it.
pub const STATE_LAYOUT_DEPRESSED: u32 = 0x10;
/// Latched layout, i.e. will be unset after the next non-modifier key press.
pub const STATE_LAYOUT_LATCHED: u32 = 0x20;
/// Locked layout, i.e. will be unset after the key provoking the lock has been
/// pressed again.
pub const STATE_LAYOUT_LOCKED: u32 = 0x40;
/// Effective layout, i.e. currently active and affects key processing
/// (derived from the other state components).
pub const STATE_LAYOUT_EFFECTIVE: u32 = 0x80;
/// LEDs (derived from the other state components).
pub const STATE_LEDS: u32 = 0x100;

/// Match flags for the "are active" queries of a state object, specifying
/// the conditions for a successful match. `STATE_MATCH_NON_EXCLUSIVE` can be
/// combined with the other modes.
pub type StateMatch = u32;
/// Returns true if any of the modifiers are active.
pub const STATE_MATCH_ANY: u32 = 0x1;
/// Returns true if all of the modifiers are active.
pub const STATE_MATCH_ALL: u32 = 0x2;
/// Makes matching non-exclusive, i.e. will not return false if a modifier not
/// specified in the arguments is active.
pub const STATE_MATCH_NON_EXCLUSIVE: u32 = 0x10000;

/// Name of the Shift modifier.
pub const MOD_NAME_SHIFT: &'static str = "Shift";
/// Name of the Caps Lock modifier.
pub const MOD_NAME_CAPS: &'static str = "Lock";
/// Name of the Control modifier.
pub const MOD_NAME_CTRL: &'static str = "Control";
/// Name of the Alt modifier.
pub const MOD_NAME_ALT: &'static str = "Mod1";
/// Name of the Num Lock modifier.
pub const MOD_NAME_NUM: &'static str = "Mod2";
/// Name of the Logo (Super) modifier.
pub const MOD_NAME_LOGO: &'static str = "Mod4";

/// Name of the Caps Lock LED.
pub const LED_NAME_CAPS: &'static str = "Caps Lock";
/// Name of the Num Lock LED.
pub const LED_NAME_NUM: &'static str = "Num Lock";
/// Name of the Scroll Lock LED.
pub const LED_NAME_SCROLL: &'static str = "Scroll Lock";

/// The state components, in the order of their bits.
pub open spec fn state_components() -> Seq<u32> {
    seq![
        STATE_MODS_DEPRESSED,
        STATE_MODS_LATCHED,
        STATE_MODS_LOCKED,
        STATE_MODS_EFFECTIVE,
        STATE_LAYOUT_DEPRESSED,
        STATE_LAYOUT_LATCHED,
        STATE_LAYOUT_LOCKED,
        STATE_LAYOUT_EFFECTIVE,
        STATE_LEDS,
    ]
}

/// The state components can be combined into masks: component `i` is the
/// single bit `1 << i`, so no two components share a bit, and a combination
/// of them can be taken apart again bit by bit.
pub proof fn lemma_state_components_are_bits()
    ensures
        forall|i: int| 0 <= i < 9 ==> #[trigger] state_components()[i] == 1u32 << (i as u32),
        forall|i: int, j: int|
            0 <= i < 9 && 0 <= j < 9 && i != j ==> #[trigger] state_components()[i]
                & #[trigger] state_components()[j] == 0,
{
    assert(state_components().len() == 9);
    assert forall|i: int| 0 <= i < 9 implies #[trigger] state_components()[i] == 1u32 << (i as u32) by {
        if i == 0 { assert(1u32 << 0u32 == 1) by (bit_vector); }
        else if i == 1 { assert(1u32 << 1u32 == 2) by (bit_vector); }
        else if i == 2 { assert(1u32 << 2u32 == 4) by (bit_vector); }
        else if i == 3 { assert(1u32 << 3u32 == 8) by (bit_vector); }
        else if i == 4 { assert(1u32 << 4u32 == 16) by (bit_vector); }
        else if i == 5 { assert(1u32 << 5u32 == 32) by (bit_vector); }
        else if i == 6 { assert(1u32 << 6u32 == 64) by (bit_vector); }
        else if i == 7 { assert(1u32 << 7u32 == 128) by (bit_vector); }
        else { assert(1u32 << 8u32 == 256) by (bit_vector); }
    }
    assert forall|i: int, j: int|
        0 <= i < 9 && 0 <= j < 9 && i != j implies #[trigger] state_components()[i]
            & #[trigger] state_components()[j] == 0 by {
        let a = state_components()[i];
        let b = state_components()[j];
        let x = i as u32;
        let y = j as u32;
        assert(a == 1u32 << x && b == 1u32 << y);
        assert(x < 9 && y < 9 && x != y ==> (1u32 << x) & (1u32 << y) == 0) by (bit_vector);
    }
}

/// The non-exclusive match flag can be combined with either matching mode:
/// it shares no bit with them, and the two modes share no bit either.
pub proof fn lemma_match_flags_are_disjoint()
    ensures
        STATE_MATCH_NON_EXCLUSIVE & STATE_MATCH_ANY == 0,
        STATE_MATCH_NON_EXCLUSIVE & STATE_MATCH_ALL == 0,
        STATE_MATCH_ANY & STATE_MATCH_ALL == 0,
{
    assert(0x10000u32 & 0x1u32 == 0) by (bit_vector);
    assert(0x10000u32 & 0x2u32 == 0) by (bit_vector);
    assert(0x1u32 & 0x2u32 == 0) by (bit_vector);
}

/// The context flags can be combined: they share no bit.
pub proof fn lemma_context_flags_are_disjoint()
    ensures
        CONTEXT_NO_DEFAULT_INCLUDES & CONTEXT_NO_ENVIRONMENT_NAMES == 0,
        CONTEXT_NO_DEFAULT_INCLUDES != CONTEXT_NO_FLAGS,
        CONTEXT_NO_ENVIRONMENT_NAMES != CONTEXT_NO_FLAGS,
{
    assert(0x1u32 & 0x2u32 == 0) by (bit_vector);
}

} // verus!
