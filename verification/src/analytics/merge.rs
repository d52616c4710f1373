//! Merging a snapshot of the Redis day-buckets into the counts already
//! committed in Postgres. The reads and writes happen in one transaction in
//! the caller; this module decides what is written: each bucket takes the
//! larger of its committed and incoming counts, and the totals grow by what
//! the buckets gained.

use vstd::prelude::*;
use vstd::string::*;
use vstd::hash_map::{HashMapWithView, StringHashMap};
use vstd::hash_set::StringHashSet;

use crate::analytics::snapshot::{
    calculate_merge_delta, distinct_days, GlobalDailyStats, LastClick, LinkDailyStats, RedisSnapshot,
};
use crate::text::{i64_to_decimal, lemma_colon_join_injective, lemma_signed_decimal_injective, signed_decimal};

verus! {

broadcast use vstd::std_specs::hash::group_hash_axioms;

/// What a link's click total gains from a merge.
#[derive(Debug)]
pub struct CodeDelta {
    pub short_code: String,
    pub delta: i64,
}

/// An update of a link's row: its click count grows by `delta`, and its last
/// click moves forward to `last_clicked_at` (milliseconds since the epoch)
/// if that is later.
#[derive(Debug)]
pub struct LinkUpdate {
    pub short_code: String,
    pub delta: i64,
    pub last_clicked_at: i64,
}

/// The committed buckets and what the totals gained.
#[derive(Debug)]
pub struct MergeOutcome {
    pub committed_global: Vec<GlobalDailyStats>,
    pub committed_links: Vec<LinkDailyStats>,
    pub global_delta: i64,
    pub link_deltas: Vec<CodeDelta>,
}

/// Everything a merge writes: the buckets to upsert (the committed ones),
/// the increase of the global total, and the link rows to update.
#[derive(Debug)]
pub struct MergePlan {
    pub outcome: MergeOutcome,
    pub link_updates: Vec<LinkUpdate>,
}

/// The committed global buckets read back, later rows replacing earlier ones.
pub open spec fn global_map(rows: Seq<GlobalDailyStats>) -> Map<i32, i64>
    decreases rows.len(),
{
    if rows.len() == 0 {
        Map::empty()
    } else {
        global_map(rows.drop_last()).insert(rows.last().day, rows.last().clicks)
    }
}

/// The committed link buckets read back, later rows replacing earlier ones.
pub open spec fn link_map(rows: Seq<LinkDailyStats>) -> Map<(Seq<char>, i32), i64>
    decreases rows.len(),
{
    if rows.len() == 0 {
        Map::empty()
    } else {
        link_map(rows.drop_last()).insert((rows.last().short_code@, rows.last().day), rows.last().clicks)
    }
}

/// The last click of each link, later entries replacing earlier ones.
pub open spec fn last_map(v: Seq<LastClick>) -> Map<Seq<char>, i64>
    decreases v.len(),
{
    if v.len() == 0 {
        Map::empty()
    } else {
        last_map(v.drop_last()).insert(v.last().short_code@, v.last().at_millis)
    }
}

pub open spec fn or_zero<K>(m: Map<K, i64>, k: K) -> int {
    if m.contains_key(k) {
        m[k] as int
    } else {
        0
    }
}

/// The count committed when `incoming` meets `existing`.
pub open spec fn merged(existing: int, incoming: int) -> int {
    if existing >= incoming {
        existing
    } else {
        incoming
    }
}

/// What a bucket gains when `incoming` meets `existing`.
pub open spec fn gain(existing: int, incoming: int) -> int {
    merged(existing, incoming) - existing
}

pub open spec fn link_key(e: LinkDailyStats) -> (Seq<char>, i32) {
    (e.short_code@, e.day)
}

/// What the global total gains from merging the buckets `g`.
pub open spec fn global_gain(g: Seq<GlobalDailyStats>, ex: Map<i32, i64>) -> int
    decreases g.len(),
{
    if g.len() == 0 {
        0
    } else {
        global_gain(g.drop_last(), ex) + gain(or_zero(ex, g.last().day), g.last().clicks as int)
    }
}

/// What the total of link `code` gains from merging the buckets `l`.
pub open spec fn code_gain(l: Seq<LinkDailyStats>, ex: Map<(Seq<char>, i32), i64>, code: Seq<char>) -> int
    decreases l.len(),
{
    if l.len() == 0 {
        0
    } else {
        code_gain(l.drop_last(), ex, code) + if l.last().short_code@ == code {
            gain(or_zero(ex, link_key(l.last())), l.last().clicks as int)
        } else {
            0
        }
    }
}

/// Whether some bucket of `l` belongs to link `code`.
pub open spec fn has_code(l: Seq<LinkDailyStats>, code: Seq<char>) -> bool {
    exists|i: int| 0 <= i < l.len() && #[trigger] l[i].short_code@ == code
}

/// The update owed to link `code`: one is owed when its total gains, or when
/// its last click is known; it adds the gain and carries the last click (the
/// epoch when unknown).
pub open spec fn expected_update(
    l: Seq<LinkDailyStats>,
    ex: Map<(Seq<char>, i32), i64>,
    last: Map<Seq<char>, i64>,
    code: Seq<char>,
) -> Option<(int, int)> {
    if code_gain(l, ex, code) > 0 || last.contains_key(code) {
        Some((code_gain(l, ex, code), or_zero(last, code)))
    } else {
        None
    }
}

/// No (link, day) occurs twice in `l`.
pub open spec fn distinct_link_days(l: Seq<LinkDailyStats>) -> bool {
    forall|i: int, j: int| 0 <= i < j < l.len() ==> link_key(l[i]) != link_key(l[j])
}

/// The merge stays within `i64`: no bucket's gain, no link's total gain and
/// not the global gain exceeds `i64::MAX`.
pub open spec fn merge_fits(s: RedisSnapshot, exg: Map<i32, i64>, exl: Map<(Seq<char>, i32), i64>) -> bool {
    &&& forall|i: int|
        0 <= i < s.global_daily@.len() ==> gain(or_zero(exg, #[trigger] s.global_daily@[i].day), s.global_daily@[i].clicks as int)
            <= i64::MAX
    &&& forall|i: int|
        0 <= i < s.link_daily@.len() ==> gain(or_zero(exl, link_key(#[trigger] s.link_daily@[i])), s.link_daily@[i].clicks as int)
            <= i64::MAX
    &&& global_gain(s.global_daily@, exg) <= i64::MAX
    &&& forall|c: Seq<char>| #[trigger] code_gain(s.link_daily@, exl, c) <= i64::MAX
}

proof fn lemma_gain_nonneg(existing: int, incoming: int)
    ensures
        gain(existing, incoming) >= 0,
{
}

/// Gains only add up: a prefix of the buckets gains no more than all of them.
proof fn lemma_global_gain_prefix(g: Seq<GlobalDailyStats>, ex: Map<i32, i64>, k: int)
    requires
        0 <= k <= g.len(),
    ensures
        0 <= global_gain(g.take(k), ex) <= global_gain(g, ex),
    decreases g.len() - k,
{
    if k < g.len() {
        lemma_global_gain_prefix(g, ex, k + 1);
        assert(g.take(k + 1).drop_last() =~= g.take(k));
        assert(g.take(k + 1).last() == g[k]);
        lemma_gain_nonneg(or_zero(ex, g[k].day), g[k].clicks as int);
        lemma_global_gain_nonneg(g.take(k), ex);
    } else {
        assert(g.take(k) =~= g);
        lemma_global_gain_nonneg(g, ex);
    }
}

proof fn lemma_global_gain_nonneg(g: Seq<GlobalDailyStats>, ex: Map<i32, i64>)
    ensures
        global_gain(g, ex) >= 0,
    decreases g.len(),
{
    if g.len() > 0 {
        lemma_global_gain_nonneg(g.drop_last(), ex);
        lemma_gain_nonneg(or_zero(ex, g.last().day), g.last().clicks as int);
    }
}

proof fn lemma_code_gain_nonneg(l: Seq<LinkDailyStats>, ex: Map<(Seq<char>, i32), i64>, c: Seq<char>)
    ensures
        code_gain(l, ex, c) >= 0,
    decreases l.len(),
{
    if l.len() > 0 {
        lemma_code_gain_nonneg(l.drop_last(), ex, c);
        lemma_gain_nonneg(or_zero(ex, link_key(l.last())), l.last().clicks as int);
    }
}

proof fn lemma_code_gain_prefix(l: Seq<LinkDailyStats>, ex: Map<(Seq<char>, i32), i64>, c: Seq<char>, k: int)
    requires
        0 <= k <= l.len(),
    ensures
        0 <= code_gain(l.take(k), ex, c) <= code_gain(l, ex, c),
    decreases l.len() - k,
{
    if k < l.len() {
        lemma_code_gain_prefix(l, ex, c, k + 1);
        assert(l.take(k + 1).drop_last() =~= l.take(k));
        assert(l.take(k + 1).last() == l[k]);
        lemma_gain_nonneg(or_zero(ex, link_key(l[k])), l[k].clicks as int);
    } else {
        assert(l.take(k) =~= l);
    }
    lemma_code_gain_nonneg(l.take(k), ex, c);
}

/// A link with no bucket gains nothing.
proof fn lemma_code_gain_absent(l: Seq<LinkDailyStats>, ex: Map<(Seq<char>, i32), i64>, c: Seq<char>)
    requires
        !has_code(l, c),
    ensures
        code_gain(l, ex, c) == 0,
    decreases l.len(),
{
    if l.len() > 0 {
        assert(!has_code(l.drop_last(), c)) by {
            if has_code(l.drop_last(), c) {
                let i = choose|i: int| 0 <= i < l.drop_last().len() && #[trigger] l.drop_last()[i].short_code@ == c;
                assert(l[i].short_code@ == c);
            }
        }
        lemma_code_gain_absent(l.drop_last(), ex, c);
        assert(l.last().short_code@ != c) by {
            if l.last().short_code@ == c {
                assert(l[l.len() - 1].short_code@ == c);
            }
        }
    }
}

/// The key under which the committed count of (`code`, `day`) is looked up:
/// the day in decimal, a colon, and the code.
pub open spec fn bucket_key(code: Seq<char>, day: i32) -> Seq<char> {
    signed_decimal(day as int) + seq![':'] + code
}

pub(crate) proof fn lemma_bucket_key_injective(c1: Seq<char>, d1: i32, c2: Seq<char>, d2: i32)
    ensures
        bucket_key(c1, d1) == bucket_key(c2, d2) ==> c1 == c2 && d1 == d2,
{
    lemma_signed_decimal_injective(d1 as int, d2 as int);
    lemma_signed_decimal_injective(d2 as int, d1 as int);
    if bucket_key(c1, d1) == bucket_key(c2, d2) {
        lemma_colon_join_injective(signed_decimal(d1 as int), c1, signed_decimal(d2 as int), c2);
    }
}

pub(crate) fn make_bucket_key(code: &str, day: i32) -> (k: String)
    ensures
        k@ == bucket_key(code@, day),
{
    let mut k = i64_to_decimal(day as i64);
    k.append(":");
    k.append(code);
    proof {
        reveal_strlit(":");
    }
    assert(k@ =~= bucket_key(code@, day));
    k
}

/// Indexes the committed global buckets by day.
fn index_global(rows: &Vec<GlobalDailyStats>) -> (m: HashMapWithView<i32, i64>)
    ensures
        m@ == global_map(rows@),
{
    let mut m: HashMapWithView<i32, i64> = HashMapWithView::new();
    let mut i: usize = 0;
    while i < rows.len()
        invariant
            i <= rows.len(),
            m@ == global_map(rows@.take(i as int)),
        decreases rows.len() - i,
    {
        assert(rows@.take(i + 1).drop_last() =~= rows@.take(i as int));
        m.insert(rows[i].day, rows[i].clicks);
        i = i + 1;
    }
    assert(rows@.take(i as int) =~= rows@);
    m
}

/// Indexes the committed link buckets by `bucket_key`.
fn index_links(rows: &Vec<LinkDailyStats>) -> (m: StringHashMap<i64>)
    ensures
        forall|c: Seq<char>, d: i32| #[trigger] m@.contains_key(bucket_key(c, d)) == link_map(rows@).contains_key((c, d)),
        forall|c: Seq<char>, d: i32|
            link_map(rows@).contains_key((c, d)) ==> #[trigger] m@[bucket_key(c, d)] == link_map(rows@)[(c, d)],
{
    let mut m: StringHashMap<i64> = StringHashMap::new();
    let mut i: usize = 0;
    while i < rows.len()
        invariant
            i <= rows.len(),
            forall|c: Seq<char>, d: i32|
                #[trigger] m@.contains_key(bucket_key(c, d)) == link_map(rows@.take(i as int)).contains_key((c, d)),
            forall|c: Seq<char>, d: i32|
                link_map(rows@.take(i as int)).contains_key((c, d)) ==> #[trigger] m@[bucket_key(c, d)] == link_map(
                    rows@.take(i as int),
                )[(c, d)],
        decreases rows.len() - i,
    {
        assert(rows@.take(i + 1).drop_last() =~= rows@.take(i as int));
        let key = make_bucket_key(rows[i].short_code.as_str(), rows[i].day);
        let ghost c0 = rows@[i as int].short_code@;
        let ghost d0 = rows@[i as int].day;
        m.insert(key, rows[i].clicks);
        assert forall|c: Seq<char>, d: i32|
            #[trigger] m@.contains_key(bucket_key(c, d)) == link_map(rows@.take(i + 1)).contains_key((c, d)) by {
            lemma_bucket_key_injective(c, d, c0, d0);
        }
        assert forall|c: Seq<char>, d: i32|
            link_map(rows@.take(i + 1)).contains_key((c, d)) implies #[trigger] m@[bucket_key(c, d)] == link_map(
                rows@.take(i + 1),
            )[(c, d)] by {
            lemma_bucket_key_injective(c, d, c0, d0);
        }
        i = i + 1;
    }
    assert(rows@.take(i as int) =~= rows@);
    m
}

/// Indexes the last clicks by link.
fn index_last(v: &Vec<LastClick>) -> (m: StringHashMap<i64>)
    ensures
        m@ == last_map(v@),
{
    let mut m: StringHashMap<i64> = StringHashMap::new();
    let mut i: usize = 0;
    while i < v.len()
        invariant
            i <= v.len(),
            m@ == last_map(v@.take(i as int)),
        decreases v.len() - i,
    {
        assert(v@.take(i + 1).drop_last() =~= v@.take(i as int));
        m.insert(v[i].short_code.clone(), v[i].at_millis);
        i = i + 1;
    }
    assert(v@.take(i as int) =~= v@);
    m
}

/// Merges the global buckets `g` into the committed counts `exg`.
fn merge_global(g: &Vec<GlobalDailyStats>, exg: &HashMapWithView<i32, i64>) -> (r: (Vec<GlobalDailyStats>, i64))
    requires
        forall|i: int| 0 <= i < g@.len() ==> gain(or_zero(exg@, #[trigger] g@[i].day), g@[i].clicks as int) <= i64::MAX,
        global_gain(g@, exg@) <= i64::MAX,
    ensures
        r.0@.len() == g@.len(),
        forall|i: int|
            0 <= i < g@.len() ==> #[trigger] r.0@[i].day == g@[i].day && r.0@[i].clicks == merged(
                or_zero(exg@, g@[i].day),
                g@[i].clicks as int,
            ),
        r.1 == global_gain(g@, exg@),
{
    let mut committed: Vec<GlobalDailyStats> = Vec::new();
    let mut total: i64 = 0;
    let mut i: usize = 0;
    while i < g.len()
        invariant
            i <= g.len(),
            forall|j: int| 0 <= j < g@.len() ==> gain(or_zero(exg@, #[trigger] g@[j].day), g@[j].clicks as int) <= i64::MAX,
            global_gain(g@, exg@) <= i64::MAX,
            committed@.len() == i,
            forall|j: int|
                0 <= j < i ==> #[trigger] committed@[j].day == g@[j].day && committed@[j].clicks == merged(
                    or_zero(exg@, g@[j].day),
                    g@[j].clicks as int,
                ),
            total == global_gain(g@.take(i as int), exg@),
        decreases g.len() - i,
    {
        let e = g[i];
        let existing = match exg.get(&e.day) {
            Some(v) => *v,
            None => 0,
        };
        assert(gain(or_zero(exg@, g@[i as int].day), g@[i as int].clicks as int) <= i64::MAX);
        let (merged_count, delta) = calculate_merge_delta(existing, e.clicks);
        proof {
            assert(g@.take(i + 1).drop_last() =~= g@.take(i as int));
            assert(g@.take(i + 1).last() == g@[i as int]);
            lemma_global_gain_prefix(g@, exg@, i + 1);
        }
        committed.push(GlobalDailyStats { day: e.day, clicks: merged_count });
        total = total + delta;
        i = i + 1;
    }
    assert(g@.take(i as int) =~= g@);
    (committed, total)
}

/// No link occurs twice in `codes`.
pub open spec fn distinct_codes(codes: Seq<String>) -> bool {
    forall|i: int, j: int| 0 <= i < j < codes.len() ==> codes[i]@ != codes[j]@
}

/// The running totals of a link merge after the buckets `seen`: one entry
/// per link seen, holding what its total gains, and `codes` listing those
/// links once each.
pub open spec fn totals_track(
    deltas: Map<Seq<char>, i64>,
    codes: Seq<String>,
    seen: Seq<LinkDailyStats>,
    exl: Map<(Seq<char>, i32), i64>,
) -> bool {
    &&& forall|c: Seq<char>| #[trigger] deltas.contains_key(c) == has_code(seen, c)
    &&& forall|c: Seq<char>| #[trigger] deltas.contains_key(c) ==> deltas[c] == code_gain(seen, exl, c)
    &&& distinct_codes(codes)
    &&& forall|k: int| 0 <= k < codes.len() ==> deltas.contains_key(#[trigger] codes[k]@)
    &&& forall|c: Seq<char>| #[trigger] deltas.contains_key(c) ==> exists|k: int| 0 <= k < codes.len() && codes[k]@ == c
}

/// Merges the link buckets `l` into the committed counts indexed by `exl`
/// (whose contents are `exl_map`), and sums what each link's total gains.
fn merge_links(l: &Vec<LinkDailyStats>, exl: &StringHashMap<i64>, Ghost(exl_map): Ghost<Map<(Seq<char>, i32), i64>>) -> (r: (
    Vec<LinkDailyStats>,
    StringHashMap<i64>,
    Vec<String>,
))
    requires
        forall|c: Seq<char>, d: i32| #[trigger] exl@.contains_key(bucket_key(c, d)) == exl_map.contains_key((c, d)),
        forall|c: Seq<char>, d: i32| exl_map.contains_key((c, d)) ==> #[trigger] exl@[bucket_key(c, d)] == exl_map[(c, d)],
        forall|i: int| 0 <= i < l@.len() ==> gain(or_zero(exl_map, link_key(#[trigger] l@[i])), l@[i].clicks as int) <= i64::MAX,
        forall|c: Seq<char>| #[trigger] code_gain(l@, exl_map, c) <= i64::MAX,
    ensures
        r.0@.len() == l@.len(),
        forall|i: int|
            0 <= i < l@.len() ==> #[trigger] r.0@[i].short_code@ == l@[i].short_code@ && r.0@[i].day == l@[i].day
                && r.0@[i].clicks == merged(or_zero(exl_map, link_key(l@[i])), l@[i].clicks as int),
        totals_track(r.1@, r.2@, l@, exl_map),
{
    let mut committed: Vec<LinkDailyStats> = Vec::new();
    let mut deltas: StringHashMap<i64> = StringHashMap::new();
    let mut codes: Vec<String> = Vec::new();
    let mut i: usize = 0;
    while i < l.len()
        invariant
            i <= l.len(),
            forall|c: Seq<char>, d: i32| #[trigger] exl@.contains_key(bucket_key(c, d)) == exl_map.contains_key((c, d)),
            forall|c: Seq<char>, d: i32| exl_map.contains_key((c, d)) ==> #[trigger] exl@[bucket_key(c, d)] == exl_map[(c, d)],
            forall|j: int| 0 <= j < l@.len() ==> gain(or_zero(exl_map, link_key(#[trigger] l@[j])), l@[j].clicks as int) <= i64::MAX,
            forall|c: Seq<char>| #[trigger] code_gain(l@, exl_map, c) <= i64::MAX,
            committed@.len() == i,
            forall|j: int|
                0 <= j < i ==> #[trigger] committed@[j].short_code@ == l@[j].short_code@ && committed@[j].day == l@[j].day
                    && committed@[j].clicks == merged(or_zero(exl_map, link_key(l@[j])), l@[j].clicks as int),
            totals_track(deltas@, codes@, l@.take(i as int), exl_map),
        decreases l.len() - i,
    {
        let ghost seen = l@.take(i as int);
        let ghost next = l@.take(i + 1);
        let ghost code = l@[i as int].short_code@;
        assert(next.drop_last() =~= seen);
        assert(next.last() == l@[i as int]);
        let key = make_bucket_key(l[i].short_code.as_str(), l[i].day);
        let existing = match exl.get(key.as_str()) {
            Some(v) => *v,
            None => 0,
        };
        assert(existing == or_zero(exl_map, link_key(l@[i as int])));
        assert(gain(or_zero(exl_map, link_key(l@[i as int])), l@[i as int].clicks as int) <= i64::MAX);
        let (merged_count, delta) = calculate_merge_delta(existing, l[i].clicks);
        committed.push(LinkDailyStats { short_code: l[i].short_code.clone(), day: l[i].day, clicks: merged_count });
        let current = match deltas.get(l[i].short_code.as_str()) {
            Some(v) => *v,
            None => 0,
        };
        proof {
            lemma_code_gain_prefix(l@, exl_map, code, i + 1);
            if !deltas@.contains_key(code) {
                lemma_code_gain_absent(seen, exl_map, code);
            }
        }
        assert(current + delta == code_gain(next, exl_map, code));
        let ghost codes_before = codes@;
        if !deltas.contains_key(l[i].short_code.as_str()) {
            let ghost before = codes@;
            codes.push(l[i].short_code.clone());
            assert forall|a: int, b: int| 0 <= a < b < codes@.len() implies codes@[a]@ != codes@[b]@ by {
                if b == before.len() {
                    assert(deltas@.contains_key(before[a]@));
                }
            }
        }
        let ghost old_deltas = deltas@;
        deltas.insert(l[i].short_code.clone(), current + delta);
        assert forall|c: Seq<char>| #[trigger] deltas@.contains_key(c) == has_code(next, c) by {
            if has_code(next, c) && c != code {
                let j = choose|j: int| 0 <= j < next.len() && #[trigger] next[j].short_code@ == c;
                assert(seen[j].short_code@ == c);
            }
            if has_code(seen, c) {
                let j = choose|j: int| 0 <= j < seen.len() && #[trigger] seen[j].short_code@ == c;
                assert(next[j].short_code@ == c);
            }
            if c == code {
                assert(next[i as int].short_code@ == c);
            }
        }
        assert forall|c: Seq<char>| #[trigger] deltas@.contains_key(c) implies exists|k: int|
            0 <= k < codes@.len() && codes@[k]@ == c by {
            if old_deltas.contains_key(c) {
                let k = choose|k: int| 0 <= k < codes_before.len() && codes_before[k]@ == c;
                assert(codes@[k] == codes_before[k]);
            } else {
                assert(c == code);
                assert(codes@[codes@.len() - 1]@ == c);
            }
        }
        i = i + 1;
    }
    assert(l@.take(i as int) =~= l@);
    (committed, deltas, codes)
}

/// The index of last clicks knows every link listed.
proof fn lemma_last_map_contains(v: Seq<LastClick>, j: int)
    requires
        0 <= j < v.len(),
    ensures
        last_map(v).contains_key(v[j].short_code@),
    decreases v.len(),
{
    if j < v.len() - 1 {
        assert(v.drop_last()[j] == v[j]);
        lemma_last_map_contains(v.drop_last(), j);
    }
}

/// A link the index of last clicks knows occurs in the list.
proof fn lemma_last_map_from(v: Seq<LastClick>, c: Seq<char>)
    requires
        last_map(v).contains_key(c),
    ensures
        exists|j: int| 0 <= j < v.len() && #[trigger] v[j].short_code@ == c,
    decreases v.len(),
{
    if v.last().short_code@ == c {
        assert(v[v.len() - 1].short_code@ == c);
    } else {
        lemma_last_map_from(v.drop_last(), c);
        let j = choose|j: int| 0 <= j < v.drop_last().len() && #[trigger] v.drop_last()[j].short_code@ == c;
        assert(v[j].short_code@ == c);
    }
}

/// `d` holds what the total of each link with a bucket in `l` gains, one
/// entry per link.
pub open spec fn deltas_match(d: Seq<CodeDelta>, l: Seq<LinkDailyStats>, ex: Map<(Seq<char>, i32), i64>) -> bool {
    &&& forall|i: int| 0 <= i < d.len() ==> #[trigger] has_code(l, d[i].short_code@) && d[i].delta == code_gain(l, ex, d[i].short_code@)
    &&& forall|i: int, j: int| 0 <= i < j < d.len() ==> d[i].short_code@ != d[j].short_code@
    &&& forall|c: Seq<char>| #[trigger] has_code(l, c) ==> exists|i: int| 0 <= i < d.len() && d[i].short_code@ == c
}

/// `u` holds one update for each link that is owed one, as `expected_update`
/// says, and no other.
pub open spec fn updates_match(
    u: Seq<LinkUpdate>,
    l: Seq<LinkDailyStats>,
    ex: Map<(Seq<char>, i32), i64>,
    last: Map<Seq<char>, i64>,
) -> bool {
    &&& forall|i: int|
        0 <= i < u.len() ==> #[trigger] expected_update(l, ex, last, u[i].short_code@) == Some(
            (u[i].delta as int, u[i].last_clicked_at as int),
        )
    &&& forall|i: int, j: int| 0 <= i < j < u.len() ==> u[i].short_code@ != u[j].short_code@
    &&& forall|c: Seq<char>| #[trigger] expected_update(l, ex, last, c) is Some ==> exists|i: int| 0 <= i < u.len() && u[i].short_code@ == c
}

/// Lists what each link's total gains, in the order of `codes`.
fn collect_deltas(
    codes: &Vec<String>,
    deltas: &StringHashMap<i64>,
    Ghost(l): Ghost<Seq<LinkDailyStats>>,
    Ghost(ex): Ghost<Map<(Seq<char>, i32), i64>>,
) -> (d: Vec<CodeDelta>)
    requires
        totals_track(deltas@, codes@, l, ex),
    ensures
        deltas_match(d@, l, ex),
{
    let mut d: Vec<CodeDelta> = Vec::new();
    let mut i: usize = 0;
    while i < codes.len()
        invariant
            i <= codes.len(),
            totals_track(deltas@, codes@, l, ex),
            d@.len() == i,
            forall|k: int| 0 <= k < i ==> #[trigger] d@[k].short_code@ == codes@[k]@ && d@[k].delta == code_gain(l, ex, codes@[k]@),
        decreases codes.len() - i,
    {
        assert(deltas@.contains_key(codes@[i as int]@));
        let delta = match deltas.get(codes[i].as_str()) {
            Some(v) => *v,
            None => 0,
        };
        d.push(CodeDelta { short_code: codes[i].clone(), delta });
        i = i + 1;
    }
    assert forall|k: int| 0 <= k < d@.len() implies #[trigger] has_code(l, d@[k].short_code@) && d@[k].delta == code_gain(
        l,
        ex,
        d@[k].short_code@,
    ) by {
        assert(deltas@.contains_key(codes@[k]@));
    }
    assert forall|c: Seq<char>| #[trigger] has_code(l, c) implies exists|k: int| 0 <= k < d@.len() && d@[k].short_code@ == c by {
        assert(deltas@.contains_key(c));
        let k = choose|k: int| 0 <= k < codes@.len() && codes@[k]@ == c;
        assert(d@[k].short_code@ == c);
    }
    d
}

/// Lists the link rows to update: first each link whose total gains or whose
/// last click is known, in the order of `codes`, then each link with a last
/// click and no bucket, in the order of `last`.
fn collect_updates(
    codes: &Vec<String>,
    deltas: &StringHashMap<i64>,
    last: &Vec<LastClick>,
    last_idx: &StringHashMap<i64>,
    Ghost(l): Ghost<Seq<LinkDailyStats>>,
    Ghost(ex): Ghost<Map<(Seq<char>, i32), i64>>,
) -> (u: Vec<LinkUpdate>)
    requires
        totals_track(deltas@, codes@, l, ex),
        last_idx@ == last_map(last@),
    ensures
        updates_match(u@, l, ex, last_map(last@)),
{
    let ghost lm = last_map(last@);
    let mut u: Vec<LinkUpdate> = Vec::new();
    let mut i: usize = 0;
    while i < codes.len()
        invariant
            i <= codes.len(),
            totals_track(deltas@, codes@, l, ex),
            last_idx@ == lm,
            forall|k: int| 0 <= k < u@.len() ==> #[trigger] expected_update(l, ex, lm, u@[k].short_code@) == Some(
                (u@[k].delta as int, u@[k].last_clicked_at as int),
            ),
            forall|k: int| 0 <= k < u@.len() ==> deltas@.contains_key(#[trigger] u@[k].short_code@),
            forall|a: int, b: int| 0 <= a < b < u@.len() ==> u@[a].short_code@ != u@[b].short_code@,
            forall|k: int| 0 <= k < u@.len() ==> exists|j: int| 0 <= j < i && codes@[j]@ == #[trigger] u@[k].short_code@,
            forall|j: int|
                0 <= j < i && (#[trigger] expected_update(l, ex, lm, codes@[j]@)) is Some ==> exists|k: int|
                    0 <= k < u@.len() && u@[k].short_code@ == codes@[j]@,
        decreases codes.len() - i,
    {
        let ghost c = codes@[i as int]@;
        assert(deltas@.contains_key(c));
        let delta = match deltas.get(codes[i].as_str()) {
            Some(v) => *v,
            None => 0,
        };
        let known = last_idx.get(codes[i].as_str());
        let ghost before = u@;
        if delta > 0 || known.is_some() {
            let at = match known {
                Some(v) => *v,
                None => 0,
            };
            u.push(LinkUpdate { short_code: codes[i].clone(), delta, last_clicked_at: at });
            assert forall|a: int, b: int| 0 <= a < b < u@.len() implies u@[a].short_code@ != u@[b].short_code@ by {
                if b == before.len() {
                    let j = choose|j: int| 0 <= j < i && codes@[j]@ == #[trigger] before[a].short_code@;
                    assert(u@[a] == before[a]);
                }
            }
            assert(u@[before.len() as int].short_code@ == codes@[i as int]@);
        }
        assert forall|k: int| 0 <= k < u@.len() implies exists|j: int| 0 <= j < i + 1 && codes@[j]@ == #[trigger] u@[k].short_code@ by {
            if k < before.len() {
                assert(u@[k] == before[k]);
                let j = choose|j: int| 0 <= j < i && codes@[j]@ == #[trigger] before[k].short_code@;
            } else {
                assert(codes@[i as int]@ == u@[k].short_code@);
            }
        }
        assert forall|j: int|
            0 <= j < i + 1 && (#[trigger] expected_update(l, ex, lm, codes@[j]@)) is Some implies exists|k: int|
                0 <= k < u@.len() && u@[k].short_code@ == codes@[j]@ by {
            if j < i {
                let k = choose|k: int| 0 <= k < before.len() && before[k].short_code@ == codes@[j]@;
                assert(u@[k] == before[k]);
            } else {
                assert(u@[before.len() as int].short_code@ == codes@[j]@);
            }
        }
        i = i + 1;
    }
    let ghost first = u@;
    let mut emitted = StringHashSet::new();
    let mut j: usize = 0;
    while j < last.len()
        invariant
            j <= last.len(),
            i == codes.len(),
            totals_track(deltas@, codes@, l, ex),
            lm == last_map(last@),
            last_idx@ == lm,
            first.len() <= u@.len(),
            forall|k: int| 0 <= k < first.len() ==> #[trigger] u@[k] == first[k],
            forall|k: int| 0 <= k < u@.len() ==> #[trigger] expected_update(l, ex, lm, u@[k].short_code@) == Some(
                (u@[k].delta as int, u@[k].last_clicked_at as int),
            ),
            forall|k: int| 0 <= k < first.len() ==> deltas@.contains_key(#[trigger] first[k].short_code@),
            forall|k: int| first.len() <= k < u@.len() ==> !deltas@.contains_key(#[trigger] u@[k].short_code@),
            forall|k: int| first.len() <= k < u@.len() ==> emitted@.contains(#[trigger] u@[k].short_code@),
            forall|c: Seq<char>| #[trigger] emitted@.contains(c) ==> exists|k: int|
                first.len() <= k < u@.len() && u@[k].short_code@ == c,
            forall|a: int, b: int| 0 <= a < b < u@.len() ==> u@[a].short_code@ != u@[b].short_code@,
            forall|m: int|
                0 <= m < j && !deltas@.contains_key(#[trigger] last@[m].short_code@) ==> exists|k: int|
                    0 <= k < u@.len() && u@[k].short_code@ == last@[m].short_code@,
            forall|jj: int|
                0 <= jj < codes@.len() && (#[trigger] expected_update(l, ex, lm, codes@[jj]@)) is Some ==> exists|k: int|
                    0 <= k < first.len() && first[k].short_code@ == codes@[jj]@,
        decreases last.len() - j,
    {
        let ghost c = last@[j as int].short_code@;
        let ghost before = u@;
        let ghost emitted_before = emitted@;
        if !deltas.contains_key(last[j].short_code.as_str()) && !emitted.contains(last[j].short_code.as_str()) {
            proof {
                lemma_last_map_contains(last@, j as int);
                if has_code(l, c) {
                    assert(deltas@.contains_key(c));
                }
                lemma_code_gain_absent(l, ex, c);
            }
            let at = match last_idx.get(last[j].short_code.as_str()) {
                Some(v) => *v,
                None => 0,
            };
            u.push(LinkUpdate { short_code: last[j].short_code.clone(), delta: 0, last_clicked_at: at });
            emitted.insert(last[j].short_code.clone());
            assert forall|a: int, b: int| 0 <= a < b < u@.len() implies u@[a].short_code@ != u@[b].short_code@ by {
                if b == before.len() {
                    assert(u@[a] == before[a]);
                    if a < first.len() {
                        assert(before[a] == first[a]);
                        assert(deltas@.contains_key(first[a].short_code@));
                    } else {
                        assert(emitted_before.contains(before[a].short_code@));
                    }
                }
            }
            assert forall|cc: Seq<char>| #[trigger] emitted@.contains(cc) implies exists|k: int|
                first.len() <= k < u@.len() && u@[k].short_code@ == cc by {
                if cc == c {
                    assert(u@[before.len() as int].short_code@ == cc);
                } else {
                    let k = choose|k: int| first.len() <= k < before.len() && before[k].short_code@ == cc;
                    assert(u@[k] == before[k]);
                }
            }
        }
        assert forall|m: int|
            0 <= m < j + 1 && !deltas@.contains_key(#[trigger] last@[m].short_code@) implies exists|k: int|
                0 <= k < u@.len() && u@[k].short_code@ == last@[m].short_code@ by {
            if m < j {
                let k = choose|k: int| 0 <= k < before.len() && before[k].short_code@ == last@[m].short_code@;
                assert(u@[k] == before[k]);
            } else if emitted_before.contains(c) {
                let k = choose|k: int| first.len() <= k < before.len() && before[k].short_code@ == c;
                assert(u@[k] == before[k]);
            } else {
                assert(u@[before.len() as int].short_code@ == last@[m].short_code@);
            }
        }
        j = j + 1;
    }
    assert forall|c: Seq<char>| #[trigger] expected_update(l, ex, lm, c) is Some implies exists|k: int|
        0 <= k < u@.len() && u@[k].short_code@ == c by {
        if deltas@.contains_key(c) {
            let jj = choose|jj: int| 0 <= jj < codes@.len() && codes@[jj]@ == c;
            assert(expected_update(l, ex, lm, codes@[jj]@) is Some);
            let k = choose|k: int| 0 <= k < first.len() && first[k].short_code@ == codes@[jj]@;
            assert(u@[k] == first[k]);
        } else {
            lemma_code_gain_absent(l, ex, c);
            lemma_last_map_from(last@, c);
            let m = choose|m: int| 0 <= m < last@.len() && #[trigger] last@[m].short_code@ == c;
            assert(!deltas@.contains_key(last@[m].short_code@));
        }
    }
    u
}

/// Decides what merging `snapshot` into the committed buckets writes.
/// `existing_global` and `existing_links` are the committed rows of the
/// snapshot's buckets, read under lock. Each bucket commits the larger of its
/// committed and incoming counts; the global total and each link's total grow
/// by what their buckets gained. A link row is updated when its total gains
/// or its last click is known, and also for each last click of a link without
/// buckets; no link row is updated when the snapshot has no link buckets.
pub fn plan_merge(
    snapshot: &RedisSnapshot,
    existing_global: &Vec<GlobalDailyStats>,
    existing_links: &Vec<LinkDailyStats>,
) -> (plan: MergePlan)
    requires
        merge_fits(*snapshot, global_map(existing_global@), link_map(existing_links@)),
    ensures
        commits_global(snapshot.global_daily@, global_map(existing_global@), plan.outcome.committed_global@),
        plan.outcome.global_delta == global_gain(snapshot.global_daily@, global_map(existing_global@)),
        plan.outcome.global_delta >= 0,
        forall|i: int| 0 <= i < plan.outcome.link_deltas@.len() ==> (#[trigger] plan.outcome.link_deltas@[i]).delta >= 0,
        commits_links(snapshot.link_daily@, link_map(existing_links@), plan.outcome.committed_links@),
        deltas_match(plan.outcome.link_deltas@, snapshot.link_daily@, link_map(existing_links@)),
        snapshot.link_daily@.len() == 0 ==> plan.link_updates@.len() == 0,
        snapshot.link_daily@.len() > 0 ==> updates_match(
            plan.link_updates@,
            snapshot.link_daily@,
            link_map(existing_links@),
            last_map(snapshot.last_clicked_at@),
        ),
{
    let ghost exl_map = link_map(existing_links@);
    let exg = index_global(existing_global);
    let (committed_global, global_delta) = merge_global(&snapshot.global_daily, &exg);
    let exl = index_links(existing_links);
    let (committed_links, deltas, codes) = merge_links(&snapshot.link_daily, &exl, Ghost(exl_map));
    let link_deltas = collect_deltas(&codes, &deltas, Ghost(snapshot.link_daily@), Ghost(exl_map));
    let link_updates = if snapshot.link_daily.len() == 0 {
        Vec::new()
    } else {
        let last_idx = index_last(&snapshot.last_clicked_at);
        collect_updates(
            &codes,
            &deltas,
            &snapshot.last_clicked_at,
            &last_idx,
            Ghost(snapshot.link_daily@),
            Ghost(exl_map),
        )
    };
    proof {
        lemma_global_gain_nonneg(snapshot.global_daily@, global_map(existing_global@));
        assert forall|i: int| 0 <= i < link_deltas@.len() implies (#[trigger] link_deltas@[i]).delta >= 0 by {
            assert(has_code(snapshot.link_daily@, link_deltas@[i].short_code@));
            lemma_code_gain_nonneg(snapshot.link_daily@, exl_map, link_deltas@[i].short_code@);
        }
    }
    MergePlan {
        outcome: MergeOutcome { committed_global, committed_links, global_delta, link_deltas },
        link_updates,
    }
}

proof fn lemma_global_map_entry(v: Seq<GlobalDailyStats>, j: int)
    requires
        distinct_days(v),
        0 <= j < v.len(),
    ensures
        global_map(v).contains_key(v[j].day),
        global_map(v)[v[j].day] == v[j].clicks,
    decreases v.len(),
{
    if j < v.len() - 1 {
        assert(v.drop_last()[j] == v[j]);
        lemma_global_map_entry(v.drop_last(), j);
        assert(v[j].day != v[v.len() - 1].day);
    }
}

proof fn lemma_committed_link_entry(v: Seq<LinkDailyStats>, j: int)
    requires
        distinct_link_days(v),
        0 <= j < v.len(),
    ensures
        link_map(v).contains_key(link_key(v[j])),
        link_map(v)[link_key(v[j])] == v[j].clicks,
    decreases v.len(),
{
    if j < v.len() - 1 {
        assert(v.drop_last()[j] == v[j]);
        lemma_committed_link_entry(v.drop_last(), j);
        assert(link_key(v[j]) != link_key(v[v.len() - 1]));
    }
}

/// The committed buckets `committed` of the global buckets `g`, each the
/// larger of the count found in `exg` and the incoming one.
pub open spec fn commits_global(g: Seq<GlobalDailyStats>, exg: Map<i32, i64>, committed: Seq<GlobalDailyStats>) -> bool {
    &&& committed.len() == g.len()
    &&& forall|i: int|
        0 <= i < g.len() ==> #[trigger] committed[i].day == g[i].day && committed[i].clicks == merged(
            or_zero(exg, g[i].day),
            g[i].clicks as int,
        )
}

/// The committed buckets `committed` of the link buckets `l`, each the
/// larger of the count found in `exl` and the incoming one.
pub open spec fn commits_links(l: Seq<LinkDailyStats>, exl: Map<(Seq<char>, i32), i64>, committed: Seq<LinkDailyStats>) -> bool {
    &&& committed.len() == l.len()
    &&& forall|i: int|
        0 <= i < l.len() ==> #[trigger] committed[i].short_code@ == l[i].short_code@ && committed[i].day == l[i].day
            && committed[i].clicks == merged(or_zero(exl, link_key(l[i])), l[i].clicks as int)
}

proof fn lemma_remerge_global_prefix(g: Seq<GlobalDailyStats>, exg: Map<i32, i64>, committed: Seq<GlobalDailyStats>, k: int)
    requires
        distinct_days(committed),
        commits_global(g, exg, committed),
        0 <= k <= g.len(),
    ensures
        global_gain(g.take(k), global_map(committed)) == 0,
    decreases k,
{
    if k > 0 {
        lemma_remerge_global_prefix(g, exg, committed, k - 1);
        assert(g.take(k).drop_last() =~= g.take(k - 1));
        assert(g.take(k).last() == g[k - 1]);
        assert(committed[k - 1].day == g[k - 1].day);
        lemma_global_map_entry(committed, k - 1);
    } else {
        assert(g.take(0) =~= Seq::<GlobalDailyStats>::empty());
    }
}

/// Merging is idempotent: once the global buckets `g` are committed as
/// `committed` (each the larger of the count found in `exg` and the
/// incoming one), merging the same buckets again gains nothing.
pub proof fn remerge_global_gains_nothing(g: Seq<GlobalDailyStats>, exg: Map<i32, i64>, committed: Seq<GlobalDailyStats>)
    requires
        distinct_days(g),
        commits_global(g, exg, committed),
    ensures
        global_gain(g, global_map(committed)) == 0,
{
    assert forall|a: int, b: int| 0 <= a < b < committed.len() implies committed[a].day != committed[b].day by {
        assert(committed[a].day == g[a].day);
        assert(committed[b].day == g[b].day);
    }
    lemma_remerge_global_prefix(g, exg, committed, g.len() as int);
    assert(g.take(g.len() as int) =~= g);
}

proof fn lemma_remerge_links_prefix(
    l: Seq<LinkDailyStats>,
    exl: Map<(Seq<char>, i32), i64>,
    committed: Seq<LinkDailyStats>,
    code: Seq<char>,
    k: int,
)
    requires
        distinct_link_days(committed),
        commits_links(l, exl, committed),
        0 <= k <= l.len(),
    ensures
        code_gain(l.take(k), link_map(committed), code) == 0,
    decreases k,
{
    if k > 0 {
        lemma_remerge_links_prefix(l, exl, committed, code, k - 1);
        assert(l.take(k).drop_last() =~= l.take(k - 1));
        assert(l.take(k).last() == l[k - 1]);
        assert(committed[k - 1].short_code@ == l[k - 1].short_code@);
        lemma_committed_link_entry(committed, k - 1);
        assert(link_key(committed[k - 1]) == link_key(l[k - 1]));
    } else {
        assert(l.take(0) =~= Seq::<LinkDailyStats>::empty());
    }
}

/// Merging is idempotent for links too: once the link buckets `l` are
/// committed as `committed`, merging the same buckets again gains no link
/// anything.
pub proof fn remerge_links_gain_nothing(
    l: Seq<LinkDailyStats>,
    exl: Map<(Seq<char>, i32), i64>,
    committed: Seq<LinkDailyStats>,
    code: Seq<char>,
)
    requires
        distinct_link_days(l),
        commits_links(l, exl, committed),
    ensures
        code_gain(l, link_map(committed), code) == 0,
{
    assert forall|a: int, b: int| 0 <= a < b < committed.len() implies link_key(committed[a]) != link_key(committed[b]) by {
        assert(committed[a].short_code@ == l[a].short_code@);
        assert(committed[b].short_code@ == l[b].short_code@);
    }
    lemma_remerge_links_prefix(l, exl, committed, code, l.len() as int);
    assert(l.take(l.len() as int) =~= l);
}

/// Merging the same snapshot (well formed, as every scan's is) twice: when
/// the second merge finds, as the committed rows, what the first one
/// committed, it commits the very same
/// buckets, the global total gains nothing, and every link's delta is zero.
pub proof fn second_merge_changes_nothing(
    s: RedisSnapshot,
    exg: Map<i32, i64>,
    exl: Map<(Seq<char>, i32), i64>,
    first_global: Seq<GlobalDailyStats>,
    first_links: Seq<LinkDailyStats>,
    second_global: Seq<GlobalDailyStats>,
    second_links: Seq<LinkDailyStats>,
    second_deltas: Seq<CodeDelta>,
)
    requires
        s.wf(),
        commits_global(s.global_daily@, exg, first_global),
        commits_links(s.link_daily@, exl, first_links),
        commits_global(s.global_daily@, global_map(first_global), second_global),
        commits_links(s.link_daily@, link_map(first_links), second_links),
        deltas_match(second_deltas, s.link_daily@, link_map(first_links)),
    ensures
        second_global == first_global,
        second_links.len() == first_links.len(),
        forall|i: int|
            0 <= i < first_links.len() ==> #[trigger] link_key(second_links[i]) == link_key(first_links[i])
                && second_links[i].clicks == first_links[i].clicks,
        global_gain(s.global_daily@, global_map(first_global)) == 0,
        forall|i: int| 0 <= i < second_deltas.len() ==> (#[trigger] second_deltas[i]).delta == 0,
{
    let g = s.global_daily@;
    let l = s.link_daily@;
    remerge_global_gains_nothing(g, exg, first_global);
    assert forall|a: int, b: int| 0 <= a < b < first_global.len() implies first_global[a].day != first_global[b].day by {
        assert(first_global[a].day == g[a].day);
        assert(first_global[b].day == g[b].day);
    }
    assert forall|i: int| 0 <= i < g.len() implies second_global[i] == first_global[i] by {
        assert(first_global[i].day == g[i].day);
        assert(second_global[i].day == g[i].day);
        lemma_global_map_entry(first_global, i);
        assert(or_zero(global_map(first_global), g[i].day) == first_global[i].clicks);
        assert(second_global[i].clicks == first_global[i].clicks);
    }
    assert(second_global =~= first_global);
    assert forall|a: int, b: int| 0 <= a < b < first_links.len() implies link_key(first_links[a]) != link_key(
        first_links[b],
    ) by {
        assert(first_links[a].short_code@ == l[a].short_code@);
        assert(first_links[b].short_code@ == l[b].short_code@);
    }
    assert forall|i: int| 0 <= i < first_links.len() implies #[trigger] link_key(second_links[i]) == link_key(
        first_links[i],
    ) && second_links[i].clicks == first_links[i].clicks by {
        assert(first_links[i].short_code@ == l[i].short_code@ && first_links[i].day == l[i].day);
        assert(second_links.len() == l.len());
        assert(second_links[i].short_code@ == l[i].short_code@);
        assert(second_links[i].day == l[i].day);
        lemma_committed_link_entry(first_links, i);
        assert(link_key(first_links[i]) == link_key(l[i]));
        assert(or_zero(link_map(first_links), link_key(l[i])) == first_links[i].clicks);
    }
    assert forall|i: int| 0 <= i < second_deltas.len() implies (#[trigger] second_deltas[i]).delta == 0 by {
        remerge_links_gain_nothing(l, exl, first_links, second_deltas[i].short_code@);
        assert(has_code(l, second_deltas[i].short_code@) && second_deltas[i].delta == code_gain(
            l,
            link_map(first_links),
            second_deltas[i].short_code@,
        ));
    }
}

/// The clicks counted by the global buckets `g`.
pub open spec fn global_clicks(g: Seq<GlobalDailyStats>) -> int
    decreases g.len(),
{
    if g.len() == 0 {
        0
    } else {
        global_clicks(g.drop_last()) + g.last().clicks
    }
}

/// The clicks counted by the link buckets `l`.
pub open spec fn link_clicks(l: Seq<LinkDailyStats>) -> int
    decreases l.len(),
{
    if l.len() == 0 {
        0
    } else {
        link_clicks(l.drop_last()) + l.last().clicks
    }
}

pub open spec fn global_counts_nonneg(g: Seq<GlobalDailyStats>) -> bool {
    forall|i: int| 0 <= i < g.len() ==> (#[trigger] g[i]).clicks >= 0
}

pub open spec fn link_counts_nonneg(l: Seq<LinkDailyStats>) -> bool {
    forall|i: int| 0 <= i < l.len() ==> (#[trigger] l[i]).clicks >= 0
}

/// A merge whose counts, incoming and committed, are all non-negative, and
/// whose incoming counts of each kind sum to at most `i64::MAX`.
pub open spec fn merge_bounded(s: RedisSnapshot, eg: Seq<GlobalDailyStats>, el: Seq<LinkDailyStats>) -> bool {
    &&& global_counts_nonneg(s.global_daily@)
    &&& link_counts_nonneg(s.link_daily@)
    &&& global_counts_nonneg(eg)
    &&& link_counts_nonneg(el)
    &&& global_clicks(s.global_daily@) <= i64::MAX
    &&& link_clicks(s.link_daily@) <= i64::MAX
}

proof fn lemma_global_map_nonneg(rows: Seq<GlobalDailyStats>, d: i32)
    requires
        global_counts_nonneg(rows),
    ensures
        or_zero(global_map(rows), d) >= 0,
    decreases rows.len(),
{
    if rows.len() > 0 {
        assert(global_counts_nonneg(rows.drop_last())) by {
            assert forall|i: int| 0 <= i < rows.drop_last().len() implies (#[trigger] rows.drop_last()[i]).clicks >= 0 by {
                assert(rows.drop_last()[i] == rows[i]);
            }
        }
        lemma_global_map_nonneg(rows.drop_last(), d);
        assert(rows[rows.len() - 1].clicks >= 0);
    }
}

proof fn lemma_link_map_nonneg(rows: Seq<LinkDailyStats>, k: (Seq<char>, i32))
    requires
        link_counts_nonneg(rows),
    ensures
        or_zero(link_map(rows), k) >= 0,
    decreases rows.len(),
{
    if rows.len() > 0 {
        assert(link_counts_nonneg(rows.drop_last())) by {
            assert forall|i: int| 0 <= i < rows.drop_last().len() implies (#[trigger] rows.drop_last()[i]).clicks >= 0 by {
                assert(rows.drop_last()[i] == rows[i]);
            }
        }
        lemma_link_map_nonneg(rows.drop_last(), k);
        assert(rows[rows.len() - 1].clicks >= 0);
    }
}

proof fn lemma_global_gain_bounded(g: Seq<GlobalDailyStats>, eg: Seq<GlobalDailyStats>)
    requires
        global_counts_nonneg(g),
        global_counts_nonneg(eg),
    ensures
        0 <= global_gain(g, global_map(eg)) <= global_clicks(g),
    decreases g.len(),
{
    if g.len() > 0 {
        assert(global_counts_nonneg(g.drop_last())) by {
            assert forall|i: int| 0 <= i < g.drop_last().len() implies (#[trigger] g.drop_last()[i]).clicks >= 0 by {
                assert(g.drop_last()[i] == g[i]);
            }
        }
        lemma_global_gain_bounded(g.drop_last(), eg);
        lemma_global_map_nonneg(eg, g.last().day);
        assert(g[g.len() - 1].clicks >= 0);
    }
}

proof fn lemma_code_gain_bounded(l: Seq<LinkDailyStats>, el: Seq<LinkDailyStats>, c: Seq<char>)
    requires
        link_counts_nonneg(l),
        link_counts_nonneg(el),
    ensures
        0 <= code_gain(l, link_map(el), c) <= link_clicks(l),
    decreases l.len(),
{
    if l.len() > 0 {
        assert(link_counts_nonneg(l.drop_last())) by {
            assert forall|i: int| 0 <= i < l.drop_last().len() implies (#[trigger] l.drop_last()[i]).clicks >= 0 by {
                assert(l.drop_last()[i] == l[i]);
            }
        }
        lemma_code_gain_bounded(l.drop_last(), el, c);
        lemma_link_map_nonneg(el, link_key(l.last()));
        assert(l[l.len() - 1].clicks >= 0);
    }
}

/// A bounded merge stays within `i64`.
pub proof fn bounded_merge_fits(s: RedisSnapshot, eg: Seq<GlobalDailyStats>, el: Seq<LinkDailyStats>)
    requires
        merge_bounded(s, eg, el),
    ensures
        merge_fits(s, global_map(eg), link_map(el)),
{
    lemma_global_gain_bounded(s.global_daily@, eg);
    assert forall|c: Seq<char>| #[trigger] code_gain(s.link_daily@, link_map(el), c) <= i64::MAX by {
        lemma_code_gain_bounded(s.link_daily@, el, c);
    }
    assert forall|i: int| 0 <= i < s.global_daily@.len() implies gain(
        or_zero(global_map(eg), #[trigger] s.global_daily@[i].day),
        s.global_daily@[i].clicks as int,
    ) <= i64::MAX by {
        lemma_global_map_nonneg(eg, s.global_daily@[i].day);
    }
    assert forall|i: int| 0 <= i < s.link_daily@.len() implies gain(
        or_zero(link_map(el), link_key(#[trigger] s.link_daily@[i])),
        s.link_daily@[i].clicks as int,
    ) <= i64::MAX by {
        lemma_link_map_nonneg(el, link_key(s.link_daily@[i]));
    }
}

/// The gain of merging `incoming` over `existing`, computed without
/// overflow.
fn gain_of(existing: i64, incoming: i64) -> (g: i128)
    ensures
        g == gain(existing as int, incoming as int),
{
    if existing >= incoming {
        0
    } else {
        incoming as i128 - existing as i128
    }
}

/// Whether merging the global buckets `g` over the committed counts `exg`
/// stays within `i64`: every bucket's gain and their sum.
fn global_fits(g: &Vec<GlobalDailyStats>, exg: &HashMapWithView<i32, i64>) -> (b: bool)
    ensures
        b == ((forall|i: int|
            0 <= i < g@.len() ==> gain(or_zero(exg@, #[trigger] g@[i].day), g@[i].clicks as int) <= i64::MAX)
            && global_gain(g@, exg@) <= i64::MAX),
{
    let mut total: i128 = 0;
    let mut i: usize = 0;
    while i < g.len()
        invariant
            i <= g.len(),
            forall|j: int| 0 <= j < i ==> gain(or_zero(exg@, #[trigger] g@[j].day), g@[j].clicks as int) <= i64::MAX,
            total == global_gain(g@.take(i as int), exg@),
            0 <= total <= i64::MAX,
        decreases g.len() - i,
    {
        let e = g[i];
        let existing = match exg.get(&e.day) {
            Some(v) => *v,
            None => 0,
        };
        let step = gain_of(existing, e.clicks);
        proof {
            assert(g@.take(i + 1).drop_last() =~= g@.take(i as int));
            assert(g@.take(i + 1).last() == g@[i as int]);
            lemma_global_gain_prefix(g@, exg@, i + 1);
        }
        if step > i64::MAX as i128 {
            assert(gain(or_zero(exg@, g@[i as int].day), g@[i as int].clicks as int) > i64::MAX);
            return false;
        }
        if total + step > i64::MAX as i128 {
            return false;
        }
        total = total + step;
        i = i + 1;
    }
    assert(g@.take(i as int) =~= g@);
    true
}

/// Whether merging the link buckets `l` over the committed counts indexed
/// by `exl` (whose contents are `exl_map`) stays within `i64`: every
/// bucket's gain and each link's total gain.
fn links_fit(l: &Vec<LinkDailyStats>, exl: &StringHashMap<i64>, Ghost(exl_map): Ghost<Map<(Seq<char>, i32), i64>>) -> (b: bool)
    requires
        forall|c: Seq<char>, d: i32| #[trigger] exl@.contains_key(bucket_key(c, d)) == exl_map.contains_key((c, d)),
        forall|c: Seq<char>, d: i32| exl_map.contains_key((c, d)) ==> #[trigger] exl@[bucket_key(c, d)] == exl_map[(c, d)],
    ensures
        b == ((forall|i: int|
            0 <= i < l@.len() ==> gain(or_zero(exl_map, link_key(#[trigger] l@[i])), l@[i].clicks as int) <= i64::MAX)
            && forall|c: Seq<char>| #[trigger] code_gain(l@, exl_map, c) <= i64::MAX),
{
    let mut sums: StringHashMap<i64> = StringHashMap::new();
    let mut i: usize = 0;
    while i < l.len()
        invariant
            i <= l.len(),
            forall|c: Seq<char>, d: i32| #[trigger] exl@.contains_key(bucket_key(c, d)) == exl_map.contains_key((c, d)),
            forall|c: Seq<char>, d: i32| exl_map.contains_key((c, d)) ==> #[trigger] exl@[bucket_key(c, d)] == exl_map[(c, d)],
            forall|j: int| 0 <= j < i ==> gain(or_zero(exl_map, link_key(#[trigger] l@[j])), l@[j].clicks as int) <= i64::MAX,
            forall|c: Seq<char>| #[trigger] sums@.contains_key(c) ==> sums@[c] == code_gain(l@.take(i as int), exl_map, c),
            forall|c: Seq<char>| !(#[trigger] sums@.contains_key(c)) ==> code_gain(l@.take(i as int), exl_map, c) == 0,
            forall|c: Seq<char>| #[trigger] code_gain(l@.take(i as int), exl_map, c) <= i64::MAX,
        decreases l.len() - i,
    {
        let ghost seen = l@.take(i as int);
        let ghost next = l@.take(i + 1);
        let ghost code = l@[i as int].short_code@;
        assert(next.drop_last() =~= seen);
        assert(next.last() == l@[i as int]);
        let key = make_bucket_key(l[i].short_code.as_str(), l[i].day);
        let existing = match exl.get(key.as_str()) {
            Some(v) => *v,
            None => 0,
        };
        assert(existing == or_zero(exl_map, link_key(l@[i as int])));
        let step = gain_of(existing, l[i].clicks);
        if step > i64::MAX as i128 {
            assert(gain(or_zero(exl_map, link_key(l@[i as int])), l@[i as int].clicks as int) > i64::MAX);
            return false;
        }
        let current = match sums.get(l[i].short_code.as_str()) {
            Some(v) => *v,
            None => 0,
        };
        assert(current == code_gain(seen, exl_map, code));
        assert(current + step == code_gain(next, exl_map, code));
        if current as i128 + step > i64::MAX as i128 {
            proof {
                lemma_code_gain_prefix(l@, exl_map, code, i + 1);
            }
            assert(code_gain(l@, exl_map, code) > i64::MAX);
            return false;
        }
        sums.insert(l[i].short_code.clone(), (current as i128 + step) as i64);
        assert forall|c: Seq<char>| c != code implies code_gain(next, exl_map, c) == code_gain(seen, exl_map, c) by {}
        assert forall|c: Seq<char>| #[trigger] code_gain(next, exl_map, c) <= i64::MAX by {
            if c != code {
                assert(code_gain(seen, exl_map, c) <= i64::MAX);
            }
        }
        i = i + 1;
    }
    assert(l@.take(i as int) =~= l@);
    true
}

/// Whether `plan_merge` may be called on `snapshot` and the committed rows:
/// exactly when the merge stays within `i64`.
pub fn merge_fits_check(
    snapshot: &RedisSnapshot,
    existing_global: &Vec<GlobalDailyStats>,
    existing_links: &Vec<LinkDailyStats>,
) -> (b: bool)
    ensures
        b == merge_fits(*snapshot, global_map(existing_global@), link_map(existing_links@)),
{
    let exg = index_global(existing_global);
    let exl = index_links(existing_links);
    let links = links_fit(&snapshot.link_daily, &exl, Ghost(link_map(existing_links@)));
    let global = global_fits(&snapshot.global_daily, &exg);
    global && links
}

} // verus!
