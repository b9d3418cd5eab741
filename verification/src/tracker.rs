//! The modifier/combination tracker: a state machine over the four
//! modifier families (ctrl, shift, alt, meta), each with two physical
//! key codes that are folded into one canonical code per family.
//!
//! Fed one key event `(code, value)` at a time, it updates which
//! modifiers are held and decides whether the event yields a countable
//! pressed combination.

use vstd::prelude::*;

verus! {

/// Event value meaning a key was released.
pub const VALUE_RELEASED: i32 = 0;

/// Event value meaning a key was pressed.
pub const VALUE_PRESSED: i32 = 1;

/// Event value meaning a held key auto-repeated.
pub const VALUE_REPEAT: i32 = 2;

/// A key press together with the modifier keys held at that moment:
/// the unit of aggregation. Equality is by value over all five fields.
#[derive(Copy, Clone, PartialEq, Eq, Hash, Structural, Debug)]
pub struct PressedCombination {
    pub shift: bool,
    pub alt: bool,
    pub meta: bool,
    pub ctrl: bool,
    pub code: u16,
}

/// The four modifier families.
#[derive(Copy, Clone, PartialEq, Eq, Structural, Debug)]
pub enum ModifierFamily {
    Ctrl,
    Shift,
    Alt,
    Meta,
}

/// Whether `code` is one of the two physical ctrl keys.
pub open spec fn is_ctrl_code(code: u16) -> bool {
    code == 29 || code == 97
}

/// Whether `code` is one of the two physical shift keys.
pub open spec fn is_shift_code(code: u16) -> bool {
    code == 42 || code == 54
}

/// Whether `code` is one of the two physical alt keys.
pub open spec fn is_alt_code(code: u16) -> bool {
    code == 56 || code == 100
}

/// Whether `code` is one of the two physical meta keys.
pub open spec fn is_meta_code(code: u16) -> bool {
    code == 125 || code == 126
}

/// Whether `code` belongs to any modifier family.
pub open spec fn is_modifier_code(code: u16) -> bool {
    is_ctrl_code(code) || is_shift_code(code) || is_alt_code(code) || is_meta_code(code)
}

/// Whether `code` belongs to the given family.
pub open spec fn in_family(fam: ModifierFamily, code: u16) -> bool {
    match fam {
        ModifierFamily::Ctrl => is_ctrl_code(code),
        ModifierFamily::Shift => is_shift_code(code),
        ModifierFamily::Alt => is_alt_code(code),
        ModifierFamily::Meta => is_meta_code(code),
    }
}

/// The canonical code kept for a modifier key, so that the left/right
/// physical variants of one family are not distinguished in the output.
/// A non-modifier code is kept exactly.
pub open spec fn canonical_code(code: u16) -> u16 {
    if is_ctrl_code(code) {
        29
    } else if is_shift_code(code) {
        42
    } else if is_alt_code(code) {
        56
    } else if is_meta_code(code) {
        125
    } else {
        code
    }
}

/// Which modifier families are currently held.
#[derive(Copy, Clone, PartialEq, Eq, Structural, Debug)]
pub struct ModifierTracker {
    pub shift: bool,
    pub alt: bool,
    pub meta: bool,
    pub ctrl: bool,
}

/// The tracker state with all modifiers up.
pub open spec fn initial_tracker() -> ModifierTracker {
    ModifierTracker { shift: false, alt: false, meta: false, ctrl: false }
}

/// The combination formed from the held modifiers of `t` and a code.
pub open spec fn combo_of(t: ModifierTracker, code: u16) -> PressedCombination {
    PressedCombination { shift: t.shift, alt: t.alt, meta: t.meta, ctrl: t.ctrl, code }
}

/// The modifier flag of `t` for one family.
pub open spec fn flag_of(t: ModifierTracker, fam: ModifierFamily) -> bool {
    match fam {
        ModifierFamily::Ctrl => t.ctrl,
        ModifierFamily::Shift => t.shift,
        ModifierFamily::Alt => t.alt,
        ModifierFamily::Meta => t.meta,
    }
}

/// `t` with the flag of one family replaced.
pub open spec fn set_flag(t: ModifierTracker, fam: ModifierFamily, v: bool) -> ModifierTracker {
    match fam {
        ModifierFamily::Ctrl => ModifierTracker { ctrl: v, ..t },
        ModifierFamily::Shift => ModifierTracker { shift: v, ..t },
        ModifierFamily::Alt => ModifierTracker { alt: v, ..t },
        ModifierFamily::Meta => ModifierTracker { meta: v, ..t },
    }
}

/// The family `code` belongs to, if any.
pub open spec fn family_of(code: u16) -> Option<ModifierFamily> {
    if is_ctrl_code(code) {
        Some(ModifierFamily::Ctrl)
    } else if is_shift_code(code) {
        Some(ModifierFamily::Shift)
    } else if is_alt_code(code) {
        Some(ModifierFamily::Alt)
    } else if is_meta_code(code) {
        Some(ModifierFamily::Meta)
    } else {
        None
    }
}

/// The tracker state after one key event. Only a press or release of a
/// modifier key changes the state: a press sets its family's flag, a
/// release clears it; every other event leaves the state as it is.
pub open spec fn next_state(t: ModifierTracker, code: u16, value: i32) -> ModifierTracker {
    match family_of(code) {
        Some(fam) => {
            if value == VALUE_RELEASED {
                set_flag(t, fam, false)
            } else if value == VALUE_PRESSED {
                set_flag(t, fam, true)
            } else {
                t
            }
        },
        None => t,
    }
}

/// The combination one key event yields, if any. A press always counts,
/// with the state after the event (so a bare modifier press counts, with
/// its own flag set) and the canonical code. A repeat counts only for a
/// non-modifier key, with the current state. Releases and unknown values
/// yield nothing.
pub open spec fn emitted(t: ModifierTracker, code: u16, value: i32) -> Option<PressedCombination> {
    if value == VALUE_PRESSED {
        Some(combo_of(next_state(t, code, value), canonical_code(code)))
    } else if value == VALUE_REPEAT && !is_modifier_code(code) {
        Some(combo_of(t, code))
    } else {
        None
    }
}

impl ModifierTracker {
    /// A fresh tracker: no modifier held.
    pub fn new() -> (t: ModifierTracker)
        ensures
            t == initial_tracker(),
    {
        ModifierTracker { shift: false, alt: false, meta: false, ctrl: false }
    }

    /// Feed one key event through the state machine: the state advances
    /// by `next_state` and the countable combination, if any, is exactly
    /// `emitted`.
    pub fn handle_key(&mut self, code: u16, value: i32) -> (r: Option<PressedCombination>)
        ensures
            *final(self) == next_state(*old(self), code, value),
            r == emitted(*old(self), code, value),
    {
        if value == VALUE_RELEASED {
            match code {
                29 | 97 => {
                    self.ctrl = false;
                },
                42 | 54 => {
                    self.shift = false;
                },
                56 | 100 => {
                    self.alt = false;
                },
                125 | 126 => {
                    self.meta = false;
                },
                _ => {},
            }
            None
        } else if value == VALUE_PRESSED {
            let combo_code: u16 = match code {
                29 | 97 => {
                    self.ctrl = true;
                    29
                },
                42 | 54 => {
                    self.shift = true;
                    42
                },
                56 | 100 => {
                    self.alt = true;
                    56
                },
                125 | 126 => {
                    self.meta = true;
                    125
                },
                _ => code,
            };
            Some(
                PressedCombination {
                    shift: self.shift,
                    alt: self.alt,
                    meta: self.meta,
                    ctrl: self.ctrl,
                    code: combo_code,
                },
            )
        } else if value == VALUE_REPEAT {
            match code {
                29 | 97 | 42 | 54 | 56 | 100 | 125 | 126 => None,
                _ => Some(
                    PressedCombination {
                        shift: self.shift,
                        alt: self.alt,
                        meta: self.meta,
                        ctrl: self.ctrl,
                        code,
                    },
                ),
            }
        } else {
            None
        }
    }
}

} // verus!
