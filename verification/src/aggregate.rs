//! The in-memory aggregate: a mapping from pressed combination to a
//! monotonically increasing press count.
//!
//! The aggregate is modelled as the sequence of its entries; `bump` is
//! the mathematical effect of recording one press, and `count_of` /
//! `total_of` read a single count and the sum of all counts.

use vstd::prelude::*;
use crate::tracker::PressedCombination;

verus! {

/// The count recorded for `c`: the sum of the counts of the entries
/// keyed by `c` (0 when `c` is absent).
pub open spec fn count_of(s: Seq<(PressedCombination, int)>, c: PressedCombination) -> int
    decreases s.len(),
{
    if s.len() == 0 {
        0
    } else {
        (if s.first().0 == c {
            s.first().1
        } else {
            0
        }) + count_of(s.drop_first(), c)
    }
}

/// The sum of all counts in the aggregate.
pub open spec fn total_of(s: Seq<(PressedCombination, int)>) -> int
    decreases s.len(),
{
    if s.len() == 0 {
        0
    } else {
        s.first().1 + total_of(s.drop_first())
    }
}

/// The entries after recording one press of `c`: the first entry keyed
/// by `c` is incremented; when `c` is absent it is appended with count 1.
pub open spec fn bump(
    s: Seq<(PressedCombination, int)>,
    c: PressedCombination,
) -> Seq<(PressedCombination, int)>
    decreases s.len(),
{
    if s.len() == 0 {
        seq![(c, 1 as int)]
    } else if s.first().0 == c {
        seq![(s.first().0, s.first().1 + 1)] + s.drop_first()
    } else {
        seq![s.first()] + bump(s.drop_first(), c)
    }
}

/// Recording one press of `c` raises the count of `c` by exactly one,
/// leaves every other combination's count unchanged, and raises the
/// total by exactly one.
pub proof fn lemma_bump_counts(
    s: Seq<(PressedCombination, int)>,
    c: PressedCombination,
    d: PressedCombination,
)
    ensures
        count_of(bump(s, c), c) == count_of(s, c) + 1,
        d != c ==> count_of(bump(s, c), d) == count_of(s, d),
        total_of(bump(s, c)) == total_of(s) + 1,
    decreases s.len(),
{
    let e = Seq::<(PressedCombination, int)>::empty();
    if s.len() == 0 {
        let b = seq![(c, 1 as int)];
        assert(bump(s, c) == b);
        assert(b.drop_first() =~= e);
        assert(count_of(e, c) == 0);
        assert(count_of(e, d) == 0);
        assert(total_of(e) == 0);
        assert(count_of(b, c) == 1 + count_of(e, c));
        assert(count_of(b, d) == (if b.first().0 == d { b.first().1 } else { 0 }) + count_of(e, d));
        assert(total_of(b) == 1 + total_of(e));
    } else if s.first().0 == c {
        let b = seq![(s.first().0, s.first().1 + 1)] + s.drop_first();
        assert(bump(s, c) == b);
        assert(b.first() == (s.first().0, s.first().1 + 1));
        assert(b.drop_first() =~= s.drop_first());
        assert(count_of(b, c) == b.first().1 + count_of(s.drop_first(), c));
        assert(count_of(s, c) == s.first().1 + count_of(s.drop_first(), c));
        assert(count_of(b, d) == (if b.first().0 == d { b.first().1 } else { 0 }) + count_of(
            s.drop_first(),
            d,
        ));
        assert(count_of(s, d) == (if s.first().0 == d { s.first().1 } else { 0 }) + count_of(
            s.drop_first(),
            d,
        ));
        assert(total_of(b) == b.first().1 + total_of(s.drop_first()));
        assert(total_of(s) == s.first().1 + total_of(s.drop_first()));
    } else {
        let b = seq![s.first()] + bump(s.drop_first(), c);
        assert(bump(s, c) == b);
        assert(b.first() == s.first());
        assert(b.drop_first() =~= bump(s.drop_first(), c));
        lemma_bump_counts(s.drop_first(), c, d);
        assert(count_of(b, c) == (if b.first().0 == c { b.first().1 } else { 0 }) + count_of(
            bump(s.drop_first(), c),
            c,
        ));
        assert(count_of(s, c) == (if s.first().0 == c { s.first().1 } else { 0 }) + count_of(
            s.drop_first(),
            c,
        ));
        assert(count_of(b, d) == (if b.first().0 == d { b.first().1 } else { 0 }) + count_of(
            bump(s.drop_first(), c),
            d,
        ));
        assert(count_of(s, d) == (if s.first().0 == d { s.first().1 } else { 0 }) + count_of(
            s.drop_first(),
            d,
        ));
        assert(total_of(b) == b.first().1 + total_of(bump(s.drop_first(), c)));
        assert(total_of(s) == s.first().1 + total_of(s.drop_first()));
    }
}

/// With all counts non-negative, every count and the total are
/// non-negative, and each single count is at most the total.
pub proof fn lemma_count_le_total(s: Seq<(PressedCombination, int)>, c: PressedCombination)
    requires
        forall|j: int| 0 <= j < s.len() ==> s[j].1 >= 0,
    ensures
        0 <= count_of(s, c),
        0 <= total_of(s),
        count_of(s, c) <= total_of(s),
    decreases s.len(),
{
    if s.len() > 0 {
        assert(forall|j: int|
            0 <= j < s.drop_first().len() ==> s.drop_first()[j].1 == s[j + 1].1);
        lemma_count_le_total(s.drop_first(), c);
        assert(s.first().1 == s[0].1);
    }
}

/// When the first entry keyed by `c` stands at index `i`, `bump`
/// increments exactly that entry in place.
pub proof fn lemma_bump_at(s: Seq<(PressedCombination, int)>, c: PressedCombination, i: int)
    requires
        0 <= i < s.len(),
        s[i].0 == c,
        forall|j: int| 0 <= j < i ==> s[j].0 != c,
    ensures
        bump(s, c) == s.update(i, (c, s[i].1 + 1)),
    decreases i,
{
    if i == 0 {
        assert(s.first().0 == c);
        assert(seq![(s.first().0, s.first().1 + 1)] + s.drop_first() =~= s.update(
            0,
            (c, s[0].1 + 1),
        ));
    } else {
        assert(s[0].0 != c);
        let r = s.drop_first();
        assert(r[i - 1].0 == c);
        assert(forall|j: int| 0 <= j < i - 1 ==> r[j].0 == s[j + 1].0 && s[j + 1].0 != c);
        lemma_bump_at(r, c, i - 1);
        assert(seq![s.first()] + r.update(i - 1, (c, r[i - 1].1 + 1)) =~= s.update(
            i,
            (c, s[i].1 + 1),
        ));
    }
}

/// When `c` is absent, `bump` appends a fresh entry with count 1.
pub proof fn lemma_bump_missing(s: Seq<(PressedCombination, int)>, c: PressedCombination)
    requires
        forall|j: int| 0 <= j < s.len() ==> s[j].0 != c,
    ensures
        bump(s, c) == s.push((c, 1 as int)),
    decreases s.len(),
{
    if s.len() == 0 {
        assert(seq![(c, 1 as int)] =~= s.push((c, 1 as int)));
    } else {
        let r = s.drop_first();
        assert(forall|j: int| 0 <= j < r.len() ==> r[j].0 == s[j + 1].0 && s[j + 1].0 != c);
        lemma_bump_missing(r, c);
        assert(s.first().0 != c);
        assert(seq![s.first()] + r.push((c, 1 as int)) =~= s.push((c, 1 as int)));
    }
}

/// One entry's count never exceeds the total, all counts non-negative.
pub proof fn lemma_entry_le_total(s: Seq<(PressedCombination, int)>, i: int)
    requires
        0 <= i < s.len(),
        forall|j: int| 0 <= j < s.len() ==> s[j].1 >= 0,
    ensures
        s[i].1 <= total_of(s),
    decreases s.len(),
{
    let r = s.drop_first();
    assert(forall|j: int| 0 <= j < r.len() ==> r[j].1 == s[j + 1].1);
    if i == 0 {
        lemma_count_le_total(r, s[0].0);
        assert(s.first().1 == s[0].1);
    } else {
        lemma_entry_le_total(r, i - 1);
        assert(s.first().1 >= 0);
    }
}

/// The live aggregate: entry order is insertion order, each combination
/// appears at most once.
pub struct Aggregator {
    pub entries: Vec<(PressedCombination, u64)>,
}

impl View for Aggregator {
    type V = Seq<(PressedCombination, int)>;

    open spec fn view(&self) -> Seq<(PressedCombination, int)> {
        self.entries@.map_values(|e: (PressedCombination, u64)| (e.0, e.1 as int))
    }
}

impl Aggregator {
    /// No combination is keyed twice.
    pub open spec fn wf(self) -> bool {
        forall|i: int, j: int|
            0 <= i < j < self.entries@.len() ==> self.entries@[i].0 != self.entries@[j].0
    }

    /// A fresh, empty aggregate.
    pub fn new() -> (r: Aggregator)
        ensures
            r.wf(),
            r@ == Seq::<(PressedCombination, int)>::empty(),
    {
        let r = Aggregator { entries: Vec::new() };
        proof {
            assert(r@ =~= Seq::<(PressedCombination, int)>::empty());
        }
        r
    }

    /// Record one press of `c`: the aggregate becomes exactly
    /// `bump(old, c)` — insert at 0 if absent, then increment.
    pub fn record(&mut self, c: PressedCombination)
        requires
            old(self).wf(),
            total_of(old(self)@) < u64::MAX,
        ensures
            final(self).wf(),
            final(self)@ == bump(old(self)@, c),
    {
        proof {
            assert forall|j: int| 0 <= j < self@.len() implies self@[j].1 >= 0 by {
                assert(self@[j] == (self.entries@[j].0, self.entries@[j].1 as int));
            }
        }
        let n = self.entries.len();
        let mut i: usize = 0;
        while i < n
            invariant
                self.entries@ == old(self).entries@,
                old(self).wf(),
                total_of(old(self)@) < u64::MAX,
                n == self.entries@.len(),
                i <= n,
                forall|j: int| 0 <= j < i ==> self.entries@[j].0 != c,
            decreases n - i,
        {
            if self.entries[i].0 == c {
                let cnt = self.entries[i].1;
                proof {
                    assert(self@[i as int] == (self.entries@[i as int].0, cnt as int));
                    assert forall|j: int| 0 <= j < self@.len() implies self@[j].1 >= 0 by {
                        assert(self@[j] == (self.entries@[j].0, self.entries@[j].1 as int));
                    }
                    assert forall|k: int|
                        0 <= k < self@.len() implies self@[k] == old(self)@[k] by {
                        assert(self@[k] == (self.entries@[k].0, self.entries@[k].1 as int));
                        assert(old(self)@[k] == (
                            old(self).entries@[k].0,
                            old(self).entries@[k].1 as int,
                        ));
                    }
                    assert(self@ =~= old(self)@);
                    lemma_entry_le_total(self@, i as int);
                    assert(cnt < u64::MAX);
                }
                self.entries[i] = (c, cnt + 1);
                proof {
                    assert forall|j: int| 0 <= j < i implies old(self)@[j].0 != c by {
                        assert(old(self)@[j] == (
                            old(self).entries@[j].0,
                            old(self).entries@[j].1 as int,
                        ));
                    }
                    assert(old(self)@[i as int].0 == c);
                    lemma_bump_at(old(self)@, c, i as int);
                    assert forall|k: int|
                        0 <= k < self@.len() implies self@[k] == old(self)@.update(
                        i as int,
                        (c, cnt as int + 1),
                    )[k] by {
                        assert(self@[k] == (self.entries@[k].0, self.entries@[k].1 as int));
                        assert(old(self)@[k] == (
                            old(self).entries@[k].0,
                            old(self).entries@[k].1 as int,
                        ));
                    }
                    assert(self@ =~= old(self)@.update(i as int, (c, cnt as int + 1)));
                    assert forall|a: int, b: int|
                        0 <= a < b < self.entries@.len() implies self.entries@[a].0
                        != self.entries@[b].0 by {
                        assert(self.entries@[a].0 == old(self).entries@[a].0);
                        assert(self.entries@[b].0 == old(self).entries@[b].0);
                        assert(old(self).entries@[a].0 != old(self).entries@[b].0);
                    }
                }
                return ;
            }
            i += 1;
        }
        self.entries.push((c, 1));
        proof {
            assert forall|j: int| 0 <= j < old(self)@.len() implies old(self)@[j].0 != c by {
                assert(old(self)@[j] == (old(self).entries@[j].0, old(self).entries@[j].1 as int));
            }
            lemma_bump_missing(old(self)@, c);
            assert forall|k: int|
                0 <= k < self@.len() implies self@[k] == old(self)@.push((c, 1 as int))[k] by {
                assert(self@[k] == (self.entries@[k].0, self.entries@[k].1 as int));
                if k < old(self).entries@.len() {
                    assert(old(self)@[k] == (
                        old(self).entries@[k].0,
                        old(self).entries@[k].1 as int,
                    ));
                }
            }
            assert(self@ =~= old(self)@.push((c, 1 as int)));
            assert forall|a: int, b: int|
                0 <= a < b < self.entries@.len() implies self.entries@[a].0
                != self.entries@[b].0 by {
                if b < old(self).entries@.len() {
                } else {
                    assert(self.entries@[a].0 == old(self).entries@[a].0);
                    assert(self.entries@[b].0 == c);
                    assert(old(self)@[a].0 == (
                        old(self).entries@[a].0,
                        old(self).entries@[a].1 as int,
                    ).0);
                }
            }
        }
    }

    /// An independent deep copy of the entries, for the snapshot writer.
    pub fn snapshot(&self) -> (r: Vec<(PressedCombination, u64)>)
        ensures
            r@ == self.entries@,
    {
        let mut r: Vec<(PressedCombination, u64)> = Vec::new();
        let n = self.entries.len();
        let mut i: usize = 0;
        while i < n
            invariant
                n == self.entries@.len(),
                i <= n,
                r@ =~= self.entries@.subrange(0, i as int),
            decreases n - i,
        {
            r.push(self.entries[i]);
            i += 1;
        }
        proof {
            assert(r@ =~= self.entries@);
        }
        r
    }
}

} // verus!
