use vstd::prelude::*;
use crate::error::ErrorKind;
use crate::language::{all_languages_spec, lower_of, resolve, resolve_spec, Language};

verus! {

/// The counts after one more request for `l`; a count that has reached the
/// largest `u64` stays there.
pub open spec fn record_spec(c: Seq<u64>, l: Language) -> Seq<u64> {
    let i = l.index_spec() as int;
    if c[i] < u64::MAX { c.update(i, (c[i] + 1) as u64) } else { c }
}

/// The counts after requests for the languages `ls`, one by one.
pub open spec fn record_all_spec(c: Seq<u64>, ls: Seq<Language>) -> Seq<u64>
    decreases ls.len(),
{
    if ls.len() == 0 {
        c
    } else {
        record_all_spec(record_spec(c, ls[0]), ls.drop_first())
    }
}

/// How many times `x` occurs in `ls`.
pub open spec fn occurrences(ls: Seq<Language>, x: Language) -> nat
    decreases ls.len(),
{
    if ls.len() == 0 {
        0
    } else {
        (if ls[0] == x { 1nat } else { 0nat }) + occurrences(ls.drop_first(), x)
    }
}

/// Per-language counts of accepted requests, one per supported language, in
/// the order of `all_languages`.
pub struct InvocationCounters {
    counts: Vec<u64>,
}

impl View for InvocationCounters {
    type V = Seq<u64>;

    closed spec fn view(&self) -> Seq<u64> {
        self.counts@
    }
}

impl InvocationCounters {
    pub open spec fn wf(&self) -> bool {
        self@.len() == 4
    }

    pub open spec fn count_spec(&self, l: Language) -> u64 {
        self@[l.index_spec() as int]
    }

    /// All counts zero.
    pub fn new() -> (r: InvocationCounters)
        ensures
            r.wf(),
            forall|l: Language| r.count_spec(l) == 0,
    {
        InvocationCounters { counts: vec![0u64, 0u64, 0u64, 0u64] }
    }

    /// Counts one more request for `l`.
    pub fn record(&mut self, l: Language)
        requires
            old(self).wf(),
        ensures
            final(self).wf(),
            final(self)@ == record_spec(old(self)@, l),
    {
        let i = l.index();
        let c = self.counts[i];
        if c < u64::MAX {
            self.counts.set(i, c + 1);
        }
    }

    /// The count of `l`.
    pub fn count(&self, l: Language) -> (r: u64)
        requires
            self.wf(),
        ensures
            r == self.count_spec(l),
    {
        self.counts[l.index()]
    }

    /// A copy of the counts of the languages requested at least once, each
    /// paired with its language, in registry order. A language never
    /// requested has no entry.
    pub fn snapshot(&self) -> (r: Vec<(Language, u64)>)
        requires
            self.wf(),
        ensures
            r@ == counted_prefix(self@, 4),
    {
        let langs = crate::language::all_languages();
        let mut r: Vec<(Language, u64)> = Vec::new();
        let mut i: usize = 0;
        while i < 4
            invariant
                i <= 4,
                langs@ == all_languages_spec(),
                self.wf(),
                r@ == counted_prefix(self@, i as nat),
            decreases 4 - i,
        {
            let n = self.counts[i];
            if n > 0 {
                r.push((langs[i], n));
            }
            i = i + 1;
        }
        r
    }
}

/// The languages among the first `k` of the registry whose count in `c` is
/// above zero, each paired with its count, in registry order.
pub open spec fn counted_prefix(c: Seq<u64>, k: nat) -> Seq<(Language, u64)>
    decreases k,
{
    if k == 0 {
        Seq::empty()
    } else {
        let before = counted_prefix(c, (k - 1) as nat);
        let i = (k - 1) as int;
        if c[i] > 0 { before.push((all_languages_spec()[i], c[i])) } else { before }
    }
}

/// Every entry of a snapshot has a count of at least one, and a fresh set of
/// counters has an empty snapshot.
pub proof fn lemma_snapshot_counts_positive(c: Seq<u64>, k: nat)
    requires
        k <= c.len(),
    ensures
        forall|j: int| 0 <= j < counted_prefix(c, k).len() ==> #[trigger] counted_prefix(c, k)[j].1 >= 1,
        (forall|i: int| 0 <= i < k ==> c[i] == 0) ==> counted_prefix(c, k).len() == 0,
    decreases k,
{
    if k > 0 {
        let before = counted_prefix(c, (k - 1) as nat);
        lemma_snapshot_counts_positive(c, (k - 1) as nat);
        let i = (k - 1) as int;
        if c[i] > 0 {
            let now = before.push((all_languages_spec()[i], c[i]));
            assert forall|j: int| 0 <= j < now.len() implies #[trigger] now[j].1 >= 1 by {
                if j < before.len() {
                    assert(now[j] == before[j]);
                }
            }
        }
    }
}


/// Admits a request for the language named `id` into the count: the name is
/// resolved case-insensitively, and only a supported language is counted.
/// An unsupported one is rejected before anything else happens.
pub fn accept(counters: &mut InvocationCounters, id: &str) -> (r: Result<Language, ErrorKind>)
    requires
        old(counters).wf(),
    ensures
        final(counters).wf(),
        r == resolve_spec(lower_of(id@)),
        match r {
            Ok(l) => final(counters)@ == record_spec(old(counters)@, l),
            Err(_) => final(counters)@ == old(counters)@,
        },
{
    let r = resolve(id);
    if let Ok(l) = r {
        counters.record(l);
    }
    r
}

/// Recording `M` requests for language `x`, among any number for other
/// languages, raises the count of `x` by exactly `M`, as long as the count
/// stays within `u64`.
pub proof fn lemma_counts_add_up(c: Seq<u64>, ls: Seq<Language>, x: Language)
    requires
        c.len() == 4,
        c[x.index_spec() as int] + ls.len() <= u64::MAX,
    ensures
        record_all_spec(c, ls).len() == 4,
        record_all_spec(c, ls)[x.index_spec() as int] == c[x.index_spec() as int] + occurrences(ls, x),
    decreases ls.len(),
{
    if ls.len() > 0 {
        let c1 = record_spec(c, ls[0]);
        let xi = x.index_spec() as int;
        if ls[0] == x {
            assert(c1[xi] == c[xi] + 1);
        } else {
            assert(ls[0].index_spec() != x.index_spec());
            assert(c1[xi] == c[xi]);
        }
        lemma_counts_add_up(c1, ls.drop_first(), x);
    }
}

} // verus!
