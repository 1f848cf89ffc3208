//! The sequence suppressor: sequence numbers of the manager's own
//! requests, whose events must not be handled as if a client had caused them.

use vstd::prelude::*;

verus! {

/// How far `entry` lies ahead of `seq` on the circle of 16-bit sequence numbers.
pub open spec fn lead(entry: u16, seq: u16) -> int {
    if entry >= seq {
        entry - seq
    } else {
        entry - seq + 0x1_0000
    }
}

/// Whether `entry` is strictly older than `seq`: it does not lie within
/// half the circle ahead of it.
pub open spec fn stale(entry: u16, seq: u16) -> bool {
    lead(entry, seq) > u16::MAX / 2
}

/// Whether `entries` ascends.
pub open spec fn ascending(entries: Seq<u16>) -> bool {
    forall|i: int, j: int| 0 <= i <= j < entries.len() ==> entries[i] <= entries[j]
}

/// Number of entries at the head of `entries` that are stale for `seq`.
pub open spec fn stale_prefix(entries: Seq<u16>, seq: u16) -> int
    decreases entries.len(),
{
    if entries.len() > 0 && stale(entries[0], seq) {
        1 + stale_prefix(entries.drop_first(), seq)
    } else {
        0
    }
}

/// Whether an event numbered `seq` is to be ignored: after the stale
/// entries, the next one is `seq` itself.
pub open spec fn ignores(entries: Seq<u16>, seq: u16) -> bool {
    let k = stale_prefix(entries, seq);
    k < entries.len() && entries[k] == seq
}

/// What is left of `entries` once an event numbered `seq` was seen: the
/// stale entries are gone, and so is the entry that matched.
pub open spec fn settled(entries: Seq<u16>, seq: u16) -> Seq<u16> {
    let k = stale_prefix(entries, seq);
    if ignores(entries, seq) {
        entries.skip(k + 1)
    } else {
        entries.skip(k)
    }
}

/// Number of entries of `entries` that are below `seq`.
pub open spec fn rank(entries: Seq<u16>, seq: u16) -> int
    decreases entries.len(),
{
    if entries.len() > 0 && entries[0] < seq {
        1 + rank(entries.drop_first(), seq)
    } else {
        0
    }
}

/// `entries` with `seq` added in its place.
pub open spec fn with_entry(entries: Seq<u16>, seq: u16) -> Seq<u16> {
    entries.insert(rank(entries, seq), seq)
}

/// `stale_prefix` counts exactly the run of stale entries at the head.
pub proof fn lemma_stale_prefix(entries: Seq<u16>, seq: u16)
    ensures
        0 <= stale_prefix(entries, seq) <= entries.len(),
        forall|k: int| 0 <= k < stale_prefix(entries, seq) ==> stale(#[trigger] entries[k], seq),
        stale_prefix(entries, seq) < entries.len() ==> !stale(
            entries[stale_prefix(entries, seq)],
            seq,
        ),
    decreases entries.len(),
{
    if entries.len() > 0 && stale(entries[0], seq) {
        let rest = entries.drop_first();
        lemma_stale_prefix(rest, seq);
        assert forall|k: int| 0 <= k < stale_prefix(entries, seq) implies stale(
            #[trigger] entries[k],
            seq,
        ) by {
            if k > 0 {
                assert(entries[k] == rest[k - 1]);
            }
        }
    }
}

/// A count `k` with only stale entries before it and none at it is the stale prefix.
pub proof fn lemma_stale_prefix_is(entries: Seq<u16>, seq: u16, k: int)
    requires
        0 <= k <= entries.len(),
        forall|i: int| 0 <= i < k ==> stale(#[trigger] entries[i], seq),
        k < entries.len() ==> !stale(entries[k], seq),
    ensures
        stale_prefix(entries, seq) == k,
{
    lemma_stale_prefix(entries, seq);
    let p = stale_prefix(entries, seq);
    if p < k {
        assert(stale(entries[p], seq));
    }
    if k < p {
        assert(stale(entries[k], seq));
    }
}

/// In an ascending sequence, `rank` is the place before which every
/// entry is below `seq` and from which none is.
pub proof fn lemma_rank(entries: Seq<u16>, seq: u16)
    requires
        ascending(entries),
    ensures
        0 <= rank(entries, seq) <= entries.len(),
        forall|k: int| 0 <= k < rank(entries, seq) ==> (#[trigger] entries[k]) < seq,
        forall|k: int| rank(entries, seq) <= k < entries.len() ==> (#[trigger] entries[k]) >= seq,
        ascending(with_entry(entries, seq)),
    decreases entries.len(),
{
    if entries.len() > 0 && entries[0] < seq {
        let rest = entries.drop_first();
        assert(ascending(rest)) by {
            assert forall|i: int, j: int| 0 <= i <= j < rest.len() implies rest[i] <= rest[j] by {
                assert(rest[i] == entries[i + 1]);
                assert(rest[j] == entries[j + 1]);
            }
        }
        lemma_rank(rest, seq);
        assert forall|k: int| 0 <= k < rank(entries, seq) implies (#[trigger] entries[k]) < seq by {
            if k > 0 {
                assert(entries[k] == rest[k - 1]);
            }
        }
        assert forall|k: int| rank(entries, seq) <= k < entries.len() implies (
        #[trigger] entries[k]) >= seq by {
            assert(entries[k] == rest[k - 1]);
        }
    } else {
        assert forall|k: int| 0 <= k < entries.len() implies (#[trigger] entries[k]) >= seq by {
            assert(entries[0] <= entries[k]);
        }
    }
    let r = rank(entries, seq);
    let after = with_entry(entries, seq);
    assert forall|i: int, j: int| 0 <= i <= j < after.len() implies after[i] <= after[j] by {
        if i < r {
            assert(after[i] == entries[i]);
        } else if i > r {
            assert(after[i] == entries[i - 1]);
        }
        if j < r {
            assert(after[j] == entries[j]);
        } else if j > r {
            assert(after[j] == entries[j - 1]);
        }
    }
}

/// What `wrapping_sub` yields is the lead of its first argument over its second.
pub proof fn lemma_wrapping_sub_is_lead(entry: u16, seq: u16)
    ensures
        entry.wrapping_sub(seq) == lead(entry, seq),
{
}

/// The outstanding sequence numbers, smallest first.
pub struct SequenceSuppressor {
    entries: Vec<u16>,
}

impl View for SequenceSuppressor {
    type V = Seq<u16>;

    closed spec fn view(&self) -> Seq<u16> {
        self.entries@
    }
}

impl SequenceSuppressor {
    /// The invariant that every operation keeps: the entries ascend.
    pub open spec fn wf(&self) -> bool {
        ascending(self@)
    }

    pub fn new() -> (suppressor: Self)
        ensures
            suppressor@ == Seq::<u16>::empty(),
            suppressor.wf(),
    {
        SequenceSuppressor { entries: Vec::new() }
    }

    /// Number of outstanding sequence numbers.
    pub fn len(&self) -> (n: usize)
        ensures
            n == self@.len(),
    {
        self.entries.len()
    }

    /// Whether `entry` is strictly older than `seq`, across the wrap of the counter too.
    pub fn is_stale(entry: u16, seq: u16) -> (old_one: bool)
        ensures
            old_one == stale(entry, seq),
    {
        proof {
            lemma_wrapping_sub_is_lead(entry, seq);
        }
        entry.wrapping_sub(seq) > u16::MAX / 2
    }

    /// Records that events numbered `seq` stem from the manager's own request.
    pub fn mark_ignorable(&mut self, seq: u16)
        requires
            old(self).wf(),
        ensures
            final(self)@ == with_entry(old(self)@, seq),
            final(self).wf(),
    {
        let mut i: usize = 0;
        while i < self.entries.len() && self.entries[i] < seq
            invariant
                i <= self.entries@.len(),
                self.entries@ == old(self).entries@,
                forall|k: int| 0 <= k < i ==> (#[trigger] self.entries@[k]) < seq,
            decreases self.entries@.len() - i,
        {
            i += 1;
        }
        proof {
            lemma_rank(self@, seq);
            let r = rank(self@, seq);
            if r < i {
                assert(self.entries@[r] < seq);
            }
            if i < r {
                assert(self.entries@[i as int] < seq);
            }
        }
        self.entries.insert(i, seq);
    }

    /// Number of entries at the head that are stale for `seq`.
    fn count_stale(&self, seq: u16) -> (k: usize)
        ensures
            k == stale_prefix(self@, seq),
            k <= self@.len(),
    {
        let mut k: usize = 0;
        while k < self.entries.len() && Self::is_stale(self.entries[k], seq)
            invariant
                k <= self.entries@.len(),
                forall|i: int| 0 <= i < k ==> stale(#[trigger] self.entries@[i], seq),
            decreases self.entries@.len() - k,
        {
            k += 1;
        }
        proof {
            lemma_stale_prefix_is(self@, seq, k as int);
        }
        k
    }

    /// Whether `should_ignore` would answer `true` for `seq`, leaving the entries as they are.
    pub fn would_ignore(&self, seq: u16) -> (ignored: bool)
        ensures
            ignored == ignores(self@, seq),
    {
        let k = self.count_stale(seq);
        k < self.entries.len() && self.entries[k] == seq
    }

    /// Settles the entries against an event numbered `seq`: discards the
    /// entries older than `seq`, and where the next one is `seq` itself,
    /// consumes it and answers `true`.
    pub fn should_ignore(&mut self, seq: u16) -> (ignored: bool)
        requires
            old(self).wf(),
        ensures
            ignored == ignores(old(self)@, seq),
            final(self)@ == settled(old(self)@, seq),
            final(self).wf(),
    {
        let k = self.count_stale(seq);
        let ignored = k < self.entries.len() && self.entries[k] == seq;
        let from = if ignored {
            k + 1
        } else {
            k
        };
        let rest = self.entries.split_off(from);
        proof {
            assert(rest@ == old(self)@.skip(from as int));
            assert forall|i: int, j: int| 0 <= i <= j < rest@.len() implies rest@[i] <= rest@[j] by {
                assert(rest@[i] == old(self)@[i + from]);
                assert(rest@[j] == old(self)@[j + from]);
            }
        }
        self.entries = rest;
        ignored
    }
}

/// A suppressor primed with `primed` alone ignores `seq` exactly when
/// `seq` is `primed`, wherever on the circle the two lie; the entry
/// leaves when it matched or was stale, and stays otherwise.
pub proof fn lemma_primed_ignores_only_itself(primed: u16, seq: u16)
    ensures
        ignores(seq![primed], seq) == (seq == primed),
        settled(seq![primed], seq) == if seq == primed || stale(primed, seq) {
            Seq::<u16>::empty()
        } else {
            seq![primed]
        },
{
    let entries = seq![primed];
    lemma_stale_prefix(entries, seq);
    if stale(primed, seq) {
        assert(entries.drop_first() =~= Seq::<u16>::empty());
        assert(stale_prefix(entries.drop_first(), seq) == 0);
        assert(stale_prefix(entries, seq) == 1);
        assert(entries.skip(1) =~= Seq::<u16>::empty());
    } else {
        assert(stale_prefix(entries, seq) == 0);
        assert(entries.skip(0) =~= entries);
        assert(entries.skip(1) =~= Seq::<u16>::empty());
    }
}

/// A suppressor primed with `primed` alone ignores `primed` once: the
/// second time, nothing is outstanding.
pub proof fn lemma_primed_ignores_once(primed: u16)
    ensures
        ignores(seq![primed], primed),
        !ignores(settled(seq![primed], primed), primed),
{
    lemma_primed_ignores_only_itself(primed, primed);
    lemma_nothing_outstanding(primed);
}

/// With nothing outstanding, no event is ignored.
pub proof fn lemma_nothing_outstanding(seq: u16)
    ensures
        !ignores(Seq::<u16>::empty(), seq),
        settled(Seq::<u16>::empty(), seq) == Seq::<u16>::empty(),
{
    assert(Seq::<u16>::empty().skip(0) =~= Seq::<u16>::empty());
}

/// An ignored event takes exactly one entry equal to its number out of
/// the suppressor, and whatever else leaves is stale.
pub proof fn lemma_ignored_consumes_entry(entries: Seq<u16>, seq: u16)
    requires
        ignores(entries, seq),
    ensures
        entries.contains(seq),
        settled(entries, seq).len() < entries.len(),
        forall|k: int| 0 <= k < stale_prefix(entries, seq) ==> stale(#[trigger] entries[k], seq),
        entries == entries.take(stale_prefix(entries, seq)).push(seq) + settled(entries, seq),
{
    lemma_stale_prefix(entries, seq);
    let k = stale_prefix(entries, seq);
    assert(entries[k] == seq);
    assert(entries =~= entries.take(k).push(seq) + entries.skip(k + 1));
}

} // verus!
