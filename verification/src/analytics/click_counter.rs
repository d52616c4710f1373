//! The buffer of clicks counted per link between two flushes into Postgres.

use vstd::prelude::*;
use vstd::string::*;
use vstd::hash_map::StringHashMap;

use crate::events::ClickEvent;

verus! {

broadcast use vstd::std_specs::hash::group_hash_axioms;

/// The clicks of one link since the last flush: how many, and the latest
/// (milliseconds since the Unix epoch).
#[derive(Debug, Clone)]
pub struct BufferedClicks {
    pub short_code: String,
    pub count: i64,
    pub last_clicked_at: i64,
}

/// (link, count, latest click) of each entry.
pub open spec fn entry_views(v: Seq<BufferedClicks>) -> Seq<(Seq<char>, int, int)> {
    v.map_values(|e: BufferedClicks| (e.short_code@, e.count as int, e.last_clicked_at as int))
}

/// The sum of the counts of `v`.
pub open spec fn sum_counts(v: Seq<(Seq<char>, int, int)>) -> int
    decreases v.len(),
{
    if v.len() == 0 {
        0
    } else {
        sum_counts(v.drop_last()) + v.last().1
    }
}

/// No link occurs twice in `v`.
pub open spec fn distinct_links(v: Seq<(Seq<char>, int, int)>) -> bool {
    forall|i: int, j: int| 0 <= i < j < v.len() ==> v[i].0 != v[j].0
}

proof fn lemma_sum_update(v: Seq<(Seq<char>, int, int)>, p: int, x: (Seq<char>, int, int))
    requires
        0 <= p < v.len(),
    ensures
        sum_counts(v.update(p, x)) == sum_counts(v) - v[p].1 + x.1,
    decreases v.len(),
{
    let w = v.update(p, x);
    if p < v.len() - 1 {
        assert(w.drop_last() =~= v.drop_last().update(p, x));
        lemma_sum_update(v.drop_last(), p, x);
    } else {
        assert(w.drop_last() =~= v.drop_last());
    }
}

/// The clicks buffered since the last flush, one entry per link, in the
/// order the links were first clicked, with their total.
pub struct ClickBuffer {
    entries: Vec<BufferedClicks>,
    index: StringHashMap<usize>,
    total: i64,
}

impl ClickBuffer {
    /// The buffered entries: (link, count, latest click).
    pub closed spec fn entries(self) -> Seq<(Seq<char>, int, int)> {
        entry_views(self.entries@)
    }

    /// The number of clicks buffered.
    pub closed spec fn total(self) -> int {
        self.total as int
    }

    pub closed spec fn wf(self) -> bool {
        &&& distinct_links(self.entries())
        &&& self.total == sum_counts(self.entries())
        &&& forall|i: int| 0 <= i < self.entries@.len() ==> (#[trigger] self.entries@[i]).count >= 1
        &&& forall|c: Seq<char>| #[trigger] self.index@.contains_key(c) ==> self.index@[c] < self.entries@.len()
            && self.entries@[self.index@[c] as int].short_code@ == c
        &&& forall|i: int| 0 <= i < self.entries@.len() ==> self.index@.contains_key(#[trigger] self.entries@[i].short_code@)
    }

    /// An empty buffer.
    pub fn new() -> (b: Self)
        ensures
            b.wf(),
            b.entries() == Seq::<(Seq<char>, int, int)>::empty(),
            b.total() == 0,
    {
        let b = ClickBuffer { entries: Vec::new(), index: StringHashMap::new(), total: 0 };
        assert(b.entries() =~= Seq::empty());
        b
    }

    /// The number of clicks buffered.
    pub fn total_clicks(&self) -> (t: i64)
        ensures
            t == self.total(),
    {
        self.total
    }

    /// Whether no click is buffered.
    pub fn is_empty(&self) -> (e: bool)
        ensures
            e == (self.entries().len() == 0),
    {
        self.entries.len() == 0
    }

    /// Counts `event`: its link's count grows by one and its latest click
    /// moves to the event when that is later; a link not buffered yet gets
    /// an entry of one click at the event.
    pub fn record(&mut self, event: ClickEvent)
        requires
            old(self).wf(),
            old(self).total() < i64::MAX,
        ensures
            final(self).wf(),
            final(self).total() == old(self).total() + 1,
            (exists|p: int| 0 <= p < old(self).entries().len() && old(self).entries()[p].0 == event.short_code@) ==> exists|p: int|
                0 <= p < old(self).entries().len() && old(self).entries()[p].0 == event.short_code@ && final(self).entries()
                    == old(self).entries().update(
                    p,
                    (
                        event.short_code@,
                        old(self).entries()[p].1 + 1,
                        if event.at_millis > old(self).entries()[p].2 { event.at_millis as int } else { old(self).entries()[p].2 },
                    ),
                ),
            !(exists|p: int| 0 <= p < old(self).entries().len() && old(self).entries()[p].0 == event.short_code@)
                ==> final(self).entries() == old(self).entries().push((event.short_code@, 1, event.at_millis as int)),
    {
        let ghost before = self.entries();
        match self.index.get(event.short_code.as_str()) {
            Some(pos) => {
                let p = *pos;
                let count = self.entries[p].count;
                let prev_last = self.entries[p].last_clicked_at;
                assert(sum_counts(before) >= before[p as int].1) by {
                    lemma_sum_bound(before, p as int);
                }
                let last = if event.at_millis > prev_last { event.at_millis } else { prev_last };
                let updated = BufferedClicks { short_code: event.short_code, count: count + 1, last_clicked_at: last };
                let ghost x = (updated.short_code@, updated.count as int, updated.last_clicked_at as int);
                proof {
                    lemma_sum_update(before, p as int, x);
                }
                self.entries.set(p, updated);
                assert(self.entries() =~= before.update(p as int, x));
                self.total = self.total + 1;
                assert forall|a: int, b: int| 0 <= a < b < self.entries().len() implies self.entries()[a].0 != self.entries()[b].0 by {
                    assert(before[a].0 != before[b].0);
                }
            },
            None => {
                let n = self.entries.len();
                let ghost x = (event.short_code@, 1int, event.at_millis as int);
                self.index.insert(event.short_code.clone(), n);
                self.entries.push(BufferedClicks { short_code: event.short_code, count: 1, last_clicked_at: event.at_millis });
                assert(self.entries() =~= before.push(x));
                assert(self.entries().drop_last() =~= before);
                self.total = self.total + 1;
                assert forall|a: int, b: int| 0 <= a < b < self.entries().len() implies self.entries()[a].0 != self.entries()[b].0 by {
                    if b == n as int {
                        assert(self.index@.contains_key(before[a].0));
                    }
                }
                assert(!(exists|p: int| 0 <= p < before.len() && before[p].0 == event.short_code@)) by {
                    if exists|p: int| 0 <= p < before.len() && before[p].0 == event.short_code@ {
                        let p = choose|p: int| 0 <= p < before.len() && before[p].0 == event.short_code@;
                        assert(self.entries@[p].short_code@ == before[p].0);
                    }
                }
            },
        }
    }

    /// Empties the buffer and returns its entries, in order, with the total
    /// number of clicks they count.
    pub fn drain(&mut self) -> (r: (Vec<BufferedClicks>, i64))
        requires
            old(self).wf(),
        ensures
            final(self).wf(),
            final(self).entries().len() == 0,
            final(self).total() == 0,
            entry_views(r.0@) == old(self).entries(),
            r.1 == old(self).total(),
            r.1 == sum_counts(entry_views(r.0@)),
    {
        let mut entries: Vec<BufferedClicks> = Vec::new();
        std::mem::swap(&mut entries, &mut self.entries);
        let total = self.total;
        self.total = 0;
        self.index = StringHashMap::new();
        assert(self.entries() =~= Seq::empty());
        (entries, total)
    }
}

/// A buffer's total counts at least each of its entries.
proof fn lemma_sum_bound(v: Seq<(Seq<char>, int, int)>, p: int)
    requires
        0 <= p < v.len(),
        forall|i: int| 0 <= i < v.len() ==> (#[trigger] v[i]).1 >= 1,
    ensures
        sum_counts(v) >= v[p].1,
    decreases v.len(),
{
    if p < v.len() - 1 {
        lemma_sum_bound(v.drop_last(), p);
        assert(v.drop_last()[p] == v[p]);
        lemma_sum_nonneg(v.drop_last());
    } else {
        lemma_sum_nonneg(v.drop_last());
    }
}

proof fn lemma_sum_nonneg(v: Seq<(Seq<char>, int, int)>)
    requires
        forall|i: int| 0 <= i < v.len() ==> (#[trigger] v[i]).1 >= 1,
    ensures
        sum_counts(v) >= 0,
    decreases v.len(),
{
    if v.len() > 0 {
        lemma_sum_nonneg(v.drop_last());
    }
}

} // verus!
