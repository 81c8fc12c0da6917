use vstd::prelude::*;

use crate::record::{RecordAcuriteTower, RecordView};

verus! {

/// One cache entry at the mathematical level: canonical id and record image.
pub type EntryView = (Seq<char>, RecordView);

/// The entries with the record under `id` replaced in place, or appended
/// when `id` is absent: last write wins, order of first insertion is kept.
pub open spec fn spec_upsert(s: Seq<EntryView>, id: Seq<char>, r: RecordView) -> Seq<EntryView>
    decreases s.len(),
{
    if s.len() == 0 {
        seq![(id, r)]
    } else if s[0].0 == id {
        seq![(id, r)] + s.drop_first()
    } else {
        seq![s[0]] + spec_upsert(s.drop_first(), id, r)
    }
}

/// The record stored under `id`, if any (first match).
pub open spec fn spec_lookup(s: Seq<EntryView>, id: Seq<char>) -> Option<RecordView>
    decreases s.len(),
{
    if s.len() == 0 {
        None
    } else if s[0].0 == id {
        Some(s[0].1)
    } else {
        spec_lookup(s.drop_first(), id)
    }
}

/// At most one entry per id.
pub open spec fn unique_ids(s: Seq<EntryView>) -> bool {
    forall|i: int, j: int| 0 <= i < j < s.len() ==> s[i].0 != s[j].0
}

/// The mathematical image of a sequence of owned entries.
pub open spec fn pairs_view(v: Seq<(String, RecordAcuriteTower)>) -> Seq<EntryView> {
    v.map(|i: int, e: (String, RecordAcuriteTower)| (e.0@, e.1@))
}

/// Mapping from canonical sensor id to the latest decoded record. A single
/// writer upserts in file order; readers take consistent copies. Entries are
/// never removed, and the iteration order (first-insertion order) is stable
/// across snapshots with no interleaved writes.
pub struct SensorStateCache {
    entries: Vec<(String, RecordAcuriteTower)>,
}

impl SensorStateCache {
    pub closed spec fn view(&self) -> Seq<EntryView> {
        pairs_view(self.entries@)
    }

    pub open spec fn wf(&self) -> bool {
        unique_ids(self@)
    }

    /// An empty cache, created once at startup.
    pub fn new() -> (c: SensorStateCache)
        ensures
            c@ == Seq::<EntryView>::empty(),
            c.wf(),
    {
        let c = SensorStateCache { entries: Vec::new() };
        proof {
            assert(c@ =~= Seq::<EntryView>::empty());
        }
        c
    }

    /// How many sensors are currently known.
    pub fn len(&self) -> (n: usize)
        ensures
            n == self@.len(),
    {
        self.entries.len()
    }

    /// Replace-or-insert the latest record for `id`: the whole entry is
    /// replaced at once, so no reader copy can see a partially-updated
    /// record.
    pub fn upsert(&mut self, id: String, r: RecordAcuriteTower)
        requires
            old(self).wf(),
        ensures
            final(self)@ == spec_upsert(old(self)@, id@, r@),
            final(self).wf(),
    {
        let ghost s0 = self@;
        let ghost gid = id@;
        let ghost gr = r@;
        let n = self.entries.len();
        let mut hit: usize = n;
        let mut i: usize = 0;
        while i < n
            invariant
                n == self.entries.len(),
                0 <= i <= n,
                self@ == s0,
                id@ == gid,
                hit == n || (hit < i && s0[hit as int].0 == gid),
                hit == n ==> forall|j: int| 0 <= j < i ==> s0[j].0 != gid,
                hit < n ==> forall|j: int| 0 <= j < hit ==> s0[j].0 != gid,
            decreases n - i,
        {
            if hit == n && self.entries[i].0 == id {
                hit = i;
            }
            i = i + 1;
        }
        if hit < n {
            let k = hit;
            let _old_pair = self.entries.remove(k);
            self.entries.insert(k, (id, r));
            proof {
                lemma_upsert_skip(s0, gid, gr, k as int);
                assert(s0.skip(k as int)[0] == s0[k as int]);
                assert(s0.skip(k as int).drop_first() =~= s0.skip(k as int + 1));
                assert(spec_upsert(s0.skip(k as int), gid, gr) == seq![(gid, gr)] + s0.skip(
                    k as int + 1,
                ));
                assert(self@ =~= s0.take(k as int) + (seq![(gid, gr)] + s0.skip(k as int + 1)));
                assert(self@ == spec_upsert(s0, gid, gr));
                assert forall|a: int, b: int| 0 <= a < b < self@.len() implies self@[a].0
                    != self@[b].0 by {
                    assert(self@[a].0 == s0[a].0);
                    assert(self@[b].0 == s0[b].0);
                }
            }
        } else {
            self.entries.push((id, r));
            proof {
                lemma_upsert_skip(s0, gid, gr, s0.len() as int);
                assert(s0.skip(s0.len() as int) =~= Seq::<EntryView>::empty());
                assert(s0.take(s0.len() as int) =~= s0);
                assert(spec_upsert(Seq::<EntryView>::empty(), gid, gr) == seq![(gid, gr)]);
                assert(self@ =~= s0 + seq![(gid, gr)]);
                assert forall|a: int, b: int| 0 <= a < b < self@.len() implies self@[a].0
                    != self@[b].0 by {
                    if b < s0.len() {
                        assert(self@[a].0 == s0[a].0);
                        assert(self@[b].0 == s0[b].0);
                    } else {
                        assert(self@[a].0 == s0[a].0);
                        assert(self@[b].0 == gid);
                    }
                }
            }
        }
    }

    /// A consistent, independent copy of all entries, in stored order. The
    /// caller owns the copy; later writes to the cache cannot touch it.
    pub fn snapshot(&self) -> (out: Vec<(String, RecordAcuriteTower)>)
        ensures
            pairs_view(out@) == self@,
    {
        let mut out: Vec<(String, RecordAcuriteTower)> = Vec::new();
        let n = self.entries.len();
        let mut i: usize = 0;
        while i < n
            invariant
                n == self.entries.len(),
                0 <= i <= n,
                out@ =~= self.entries@.take(i as int),
            decreases n - i,
        {
            let id = self.entries[i].0.clone();
            let rec = self.entries[i].1.duplicate();
            out.push((id, rec));
            proof {
                assert(out@ =~= self.entries@.take(i as int + 1));
            }
            i = i + 1;
        }
        proof {
            assert(out@ =~= self.entries@);
            assert(pairs_view(out@) =~= self@);
        }
        out
    }
}

proof fn lemma_upsert_skip(s: Seq<EntryView>, id: Seq<char>, r: RecordView, i: int)
    requires
        0 <= i <= s.len(),
        forall|j: int| 0 <= j < i ==> s[j].0 != id,
    ensures
        spec_upsert(s, id, r) == s.take(i) + spec_upsert(s.skip(i), id, r),
    decreases i,
{
    if i == 0 {
        assert(s.take(0) =~= Seq::<EntryView>::empty());
        assert(s.skip(0) =~= s);
        assert(s.take(0) + spec_upsert(s, id, r) =~= spec_upsert(s, id, r));
    } else {
        lemma_upsert_skip(s, id, r, i - 1);
        assert(s.skip(i - 1)[0] == s[i - 1]);
        assert(s.skip(i - 1).drop_first() =~= s.skip(i));
        assert(spec_upsert(s.skip(i - 1), id, r) == seq![s[i - 1]] + spec_upsert(s.skip(i), id, r));
        assert(s.take(i - 1) + (seq![s[i - 1]] + spec_upsert(s.skip(i), id, r)) =~= s.take(i)
            + spec_upsert(s.skip(i), id, r));
    }
}

/// After an upsert, the record stored under the upserted id is exactly the
/// new record.
pub proof fn lemma_upsert_lookup_same(s: Seq<EntryView>, id: Seq<char>, r: RecordView)
    ensures
        spec_lookup(spec_upsert(s, id, r), id) == Some(r),
    decreases s.len(),
{
    if s.len() == 0 {
    } else if s[0].0 == id {
        assert((seq![(id, r)] + s.drop_first())[0] == (id, r));
    } else {
        lemma_upsert_lookup_same(s.drop_first(), id, r);
        assert((seq![s[0]] + spec_upsert(s.drop_first(), id, r))[0] == s[0]);
        assert((seq![s[0]] + spec_upsert(s.drop_first(), id, r)).drop_first() =~= spec_upsert(
            s.drop_first(),
            id,
            r,
        ));
    }
}

/// An upsert leaves every other id's entry exactly as it was.
pub proof fn lemma_upsert_lookup_other(
    s: Seq<EntryView>,
    id: Seq<char>,
    r: RecordView,
    other: Seq<char>,
)
    requires
        other != id,
    ensures
        spec_lookup(spec_upsert(s, id, r), other) == spec_lookup(s, other),
    decreases s.len(),
{
    reveal_with_fuel(spec_lookup, 3);
    if s.len() == 0 {
        assert(seq![(id, r)][0] == (id, r));
        assert(seq![(id, r)].drop_first() =~= Seq::<EntryView>::empty());
        assert(spec_lookup(Seq::<EntryView>::empty(), other) is None);
    } else if s[0].0 == id {
        assert((seq![(id, r)] + s.drop_first())[0] == (id, r));
        assert((seq![(id, r)] + s.drop_first()).drop_first() =~= s.drop_first());
    } else {
        lemma_upsert_lookup_other(s.drop_first(), id, r, other);
        assert((seq![s[0]] + spec_upsert(s.drop_first(), id, r))[0] == s[0]);
        assert((seq![s[0]] + spec_upsert(s.drop_first(), id, r)).drop_first() =~= spec_upsert(
            s.drop_first(),
            id,
            r,
        ));
    }
}

} // verus!
