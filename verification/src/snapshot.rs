//! Preparing a snapshot of the aggregate for durable storage: sorting
//! the entries by descending count and rendering each as one text line
//! `<count> <label> <ctrl> <shift> <alt>, <meta>\n`.

use vstd::prelude::*;
use crate::keycodes::code_to_keyname;
use crate::keycodes::label_of;
use crate::numeral::dec_rep;
use crate::numeral::is_digit;
use crate::numeral::leading_number;
use crate::numeral::lemma_leading_number_of_numeral;
use crate::numeral::u64_to_dec;
use crate::tracker::PressedCombination;

verus! {

/// Counts never increase along the sequence.
pub open spec fn sorted_desc(s: Seq<(PressedCombination, u64)>) -> bool {
    forall|a: int, b: int| 0 <= a < b < s.len() ==> s[a].1 >= s[b].1
}

/// Swapping two elements leaves the multiset of elements unchanged.
proof fn lemma_swap_multiset(s: Seq<(PressedCombination, u64)>, i: int, j: int)
    requires
        0 <= i < j < s.len(),
    ensures
        s.update(i, s[j]).update(j, s[i]).to_multiset() == s.to_multiset(),
{
    broadcast use vstd::seq_lib::to_multiset_update;
    broadcast use vstd::seq_lib::group_to_multiset_ensures;
    broadcast use vstd::multiset::group_multiset_axioms;
    broadcast use vstd::multiset::group_multiset_properties;

    let s1 = s.update(i, s[j]);
    assert(s.contains(s[i]));
    assert(s1.to_multiset() == s.to_multiset().insert(s[j]).remove(s[i]));
    assert(s1[j] == s[j]);
    let s2 = s1.update(j, s[i]);
    assert(s2.to_multiset() == s1.to_multiset().insert(s[i]).remove(s[j]));
    assert(s2.to_multiset() =~= s.to_multiset());
}

/// Sort the snapshot entries by strictly non-increasing count. Entries
/// are only reordered (the multisets agree); equal counts keep a
/// deterministic order fixed by the insertion order of the copy.
pub fn sort_entries_desc(entries: Vec<(PressedCombination, u64)>) -> (r: Vec<
    (PressedCombination, u64),
>)
    ensures
        sorted_desc(r@),
        r@.to_multiset() == entries@.to_multiset(),
{
    let mut v = entries;
    let n = v.len();
    let mut i: usize = 1;
    while i < n
        invariant
            n == v@.len(),
            i >= 1,
            v@.to_multiset() == entries@.to_multiset(),
            forall|a: int, b: int| 0 <= a < b < i ==> v@[a].1 >= v@[b].1,
        decreases n - i,
    {
        let mut j: usize = i;
        while j > 0 && v[j - 1].1 < v[j].1
            invariant
                n == v@.len(),
                j <= i < n,
                v@.to_multiset() == entries@.to_multiset(),
                forall|a: int, b: int|
                    0 <= a < b <= i && a != j && b != j ==> v@[a].1 >= v@[b].1,
                forall|b: int| j < b <= i ==> v@[j as int].1 >= v@[b].1,
            decreases j,
        {
            let ghost s = v@;
            let x = v[j - 1];
            let y = v[j];
            v[j - 1] = y;
            v[j] = x;
            proof {
                lemma_swap_multiset(s, j - 1, j as int);
                assert(v@ =~= s.update(j - 1, s[j as int]).update(j as int, s[j - 1]));
            }
            j -= 1;
        }
        proof {
            assert forall|a: int, b: int| 0 <= a < b <= i implies v@[a].1 >= v@[b].1 by {
                if a == j as int {
                } else if b == j as int {
                    assert(a <= j - 1);
                    if a < j - 1 {
                        assert(v@[a].1 >= v@[j - 1].1);
                    }
                }
            }
        }
        i += 1;
    }
    v
}

/// The rendering of a boolean flag.
pub open spec fn bool_str(b: bool) -> Seq<char> {
    if b {
        "true"@
    } else {
        "false"@
    }
}

/// One canonical output line: the count, the key label, and the four
/// modifier flags, separated as `<count> <label> <ctrl> <shift> <alt>, <meta>`
/// with a trailing newline.
pub open spec fn spec_line(count: int, c: PressedCombination) -> Seq<char> {
    dec_rep(count) + " "@ + label_of(c.code) + " "@ + bool_str(c.ctrl) + " "@ + bool_str(c.shift)
        + " "@ + bool_str(c.alt) + ", "@ + bool_str(c.meta) + "\n"@
}

/// Render a boolean flag.
fn bool_to_str(b: bool) -> (r: &'static str)
    ensures
        r@ == bool_str(b),
{
    if b {
        "true"
    } else {
        "false"
    }
}

/// Render one entry as its canonical output line.
pub fn render_line(count: u64, c: PressedCombination) -> (r: String)
    ensures
        r@ == spec_line(count as int, c),
{
    let mut s = u64_to_dec(count);
    s.append(" ");
    s.append(code_to_keyname(c.code));
    s.append(" ");
    s.append(bool_to_str(c.ctrl));
    s.append(" ");
    s.append(bool_to_str(c.shift));
    s.append(" ");
    s.append(bool_to_str(c.alt));
    s.append(", ");
    s.append(bool_to_str(c.meta));
    s.append("\n");
    s
}

/// Render every entry, in order, as its canonical output line.
pub fn render_lines(entries: &Vec<(PressedCombination, u64)>) -> (r: Vec<String>)
    ensures
        r@.len() == entries@.len(),
        forall|i: int|
            0 <= i < entries@.len() ==> r@[i]@ == spec_line(
                entries@[i].1 as int,
                entries@[i].0,
            ),
{
    let mut r: Vec<String> = Vec::new();
    let n = entries.len();
    let mut i: usize = 0;
    while i < n
        invariant
            n == entries@.len(),
            i <= n,
            r@.len() == i,
            forall|k: int|
                0 <= k < i ==> r@[k]@ == spec_line(entries@[k].1 as int, entries@[k].0),
        decreases n - i,
    {
        let e = entries[i];
        r.push(render_line(e.1, e.0));
        i += 1;
    }
    r
}

/// Round trip: the number at the head of a rendered line is exactly
/// the entry's count, so the lines of a written snapshot, read back in
/// order, carry strictly non-increasing counts.
pub proof fn lemma_snapshot_round_trip(entries: Seq<(PressedCombination, u64)>)
    requires
        sorted_desc(entries),
    ensures
        forall|i: int|
            0 <= i < entries.len() ==> #[trigger] leading_number(
                spec_line(entries[i].1 as int, entries[i].0),
            ) == Some(entries[i].1 as int),
        forall|i: int, j: int|
            0 <= i < j < entries.len() ==> leading_number(
                spec_line(entries[i].1 as int, entries[i].0),
            ).unwrap() >= leading_number(spec_line(entries[j].1 as int, entries[j].0)).unwrap(),
{
    assert forall|i: int| 0 <= i < entries.len() implies #[trigger] leading_number(
        spec_line(entries[i].1 as int, entries[i].0),
    ) == Some(entries[i].1 as int) by {
        lemma_line_parses(entries[i].1, entries[i].0);
    }
}

/// The number at the head of one rendered line is the count itself.
#[verifier::rlimit(100)]
proof fn lemma_line_parses(count: u64, c: PressedCombination)
    ensures
        leading_number(spec_line(count as int, c)) == Some(count as int),
{
    reveal_strlit(" ");
    let rest = " "@ + label_of(c.code) + " "@ + bool_str(c.ctrl) + " "@ + bool_str(c.shift) + " "@
        + bool_str(c.alt) + ", "@ + bool_str(c.meta) + "\n"@;
    assert(rest.first() == ' ');
    assert(!is_digit(' '));
    assert(spec_line(count as int, c) =~= dec_rep(count as int) + rest);
    lemma_leading_number_of_numeral(count as int, rest);
}

} // verus!
