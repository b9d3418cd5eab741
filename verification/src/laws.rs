//! Laws of the tracker/aggregator pipeline over whole event sequences:
//! the modifier state always reflects the most recent press or release
//! per family, releases never touch recorded counts, repeats of a held
//! ordinary key count once each, and the total of all counts equals
//! the number of countable events.

use vstd::prelude::*;
use crate::aggregate::bump;
use crate::aggregate::count_of;
use crate::aggregate::lemma_bump_counts;
use crate::aggregate::total_of;
use crate::tracker::ModifierFamily;
use crate::tracker::ModifierTracker;
use crate::tracker::PressedCombination;
use crate::tracker::VALUE_PRESSED;
use crate::tracker::VALUE_RELEASED;
use crate::tracker::VALUE_REPEAT;
use crate::tracker::combo_of;
use crate::tracker::emitted;
use crate::tracker::flag_of;
use crate::tracker::in_family;
use crate::tracker::is_modifier_code;
use crate::tracker::next_state;

verus! {

/// The tracker state after a whole sequence of key events `(code, value)`.
pub open spec fn run_state(t0: ModifierTracker, evs: Seq<(u16, i32)>) -> ModifierTracker
    decreases evs.len(),
{
    if evs.len() == 0 {
        t0
    } else {
        next_state(run_state(t0, evs.drop_last()), evs.last().0, evs.last().1)
    }
}

/// The aggregate entries after a whole sequence of key events, starting
/// from tracker state `t0` and entries `s0`.
pub open spec fn run_entries(
    t0: ModifierTracker,
    s0: Seq<(PressedCombination, int)>,
    evs: Seq<(u16, i32)>,
) -> Seq<(PressedCombination, int)>
    decreases evs.len(),
{
    if evs.len() == 0 {
        s0
    } else {
        let prev = run_entries(t0, s0, evs.drop_last());
        match emitted(run_state(t0, evs.drop_last()), evs.last().0, evs.last().1) {
            Some(c) => bump(prev, c),
            None => prev,
        }
    }
}

/// How many events of the sequence yield a countable combination.
pub open spec fn qualifying(t0: ModifierTracker, evs: Seq<(u16, i32)>) -> int
    decreases evs.len(),
{
    if evs.len() == 0 {
        0
    } else {
        qualifying(t0, evs.drop_last()) + (if emitted(
            run_state(t0, evs.drop_last()),
            evs.last().0,
            evs.last().1,
        ) is Some {
            1int
        } else {
            0int
        })
    }
}

/// The most recent press/release verdict for one modifier family over
/// a sequence of events: a press of either physical variant holds the
/// family down, a release of either lifts it, every other event leaves
/// the previous verdict.
pub open spec fn family_held(init: bool, fam: ModifierFamily, evs: Seq<(u16, i32)>) -> bool
    decreases evs.len(),
{
    if evs.len() == 0 {
        init
    } else if in_family(fam, evs.last().0) && evs.last().1 == VALUE_PRESSED {
        true
    } else if in_family(fam, evs.last().0) && evs.last().1 == VALUE_RELEASED {
        false
    } else {
        family_held(init, fam, evs.drop_last())
    }
}

/// After any sequence of key events, each modifier flag of the tracker
/// is exactly the most recent press/release verdict of its family,
/// whichever physical variant was used.
pub proof fn lemma_modifier_state_exact(
    t0: ModifierTracker,
    fam: ModifierFamily,
    evs: Seq<(u16, i32)>,
)
    ensures
        flag_of(run_state(t0, evs), fam) == family_held(flag_of(t0, fam), fam, evs),
    decreases evs.len(),
{
    if evs.len() > 0 {
        lemma_modifier_state_exact(t0, fam, evs.drop_last());
    }
}

/// Pressing a non-modifier key emits a combination whose flags are
/// exactly the modifiers held at that moment, and whose code is the
/// key's own code.
pub proof fn lemma_ordinary_press_flags(t: ModifierTracker, code: u16)
    requires
        !is_modifier_code(code),
    ensures
        emitted(t, code, VALUE_PRESSED) == Some(combo_of(t, code)),
        next_state(t, code, VALUE_PRESSED) == t,
{
}

/// A release — of any key — emits nothing, so appending a release to
/// an event sequence leaves every recorded count exactly as it was.
pub proof fn lemma_release_alters_no_counts(
    t0: ModifierTracker,
    s0: Seq<(PressedCombination, int)>,
    evs: Seq<(u16, i32)>,
    code: u16,
)
    ensures
        emitted(run_state(t0, evs), code, VALUE_RELEASED) is None,
        run_entries(t0, s0, evs.push((code, VALUE_RELEASED))) == run_entries(t0, s0, evs),
{
    let evs2 = evs.push((code, VALUE_RELEASED));
    assert(evs2.drop_last() =~= evs);
    assert(evs2.last() == (code, VALUE_RELEASED));
}

/// A repeat of a held non-modifier key counts exactly once more for
/// the held combination; a repeat of a modifier key counts nothing and
/// changes nothing.
pub proof fn lemma_repeat_counts(
    t: ModifierTracker,
    s: Seq<(PressedCombination, int)>,
    code: u16,
)
    ensures
        !is_modifier_code(code) ==> emitted(t, code, VALUE_REPEAT) == Some(combo_of(t, code))
            && count_of(bump(s, combo_of(t, code)), combo_of(t, code)) == count_of(
            s,
            combo_of(t, code),
        ) + 1,
        is_modifier_code(code) ==> emitted(t, code, VALUE_REPEAT) is None && next_state(
            t,
            code,
            VALUE_REPEAT,
        ) == t,
{
    if !is_modifier_code(code) {
        lemma_bump_counts(s, combo_of(t, code), combo_of(t, code));
    }
}

/// After any interleaving of modifier and ordinary key events, the sum
/// of all recorded counts grew by exactly the number of countable
/// events: each countable event is accounted exactly once.
pub proof fn lemma_total_is_qualifying(
    t0: ModifierTracker,
    s0: Seq<(PressedCombination, int)>,
    evs: Seq<(u16, i32)>,
)
    ensures
        total_of(run_entries(t0, s0, evs)) == total_of(s0) + qualifying(t0, evs),
    decreases evs.len(),
{
    if evs.len() > 0 {
        lemma_total_is_qualifying(t0, s0, evs.drop_last());
        match emitted(run_state(t0, evs.drop_last()), evs.last().0, evs.last().1) {
            Some(c) => {
                lemma_bump_counts(run_entries(t0, s0, evs.drop_last()), c, c);
            },
            None => {},
        }
    }
}

} // verus!
