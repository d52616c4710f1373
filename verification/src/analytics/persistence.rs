//! Moving the day-buckets between Redis and Postgres: the rolling window of
//! days kept in Redis, the scan that captures a snapshot of the buckets, and
//! the writes that rehydrate Redis from Postgres.

use vstd::prelude::*;
use vstd::string::*;
use vstd::hash_map::StringHashMap;
use vstd::hash_set::StringHashSet;

use crate::analytics::dates::{chrono_day_text, day_of_millis, day_text, utc_day, MILLIS_PER_DAY};
use crate::analytics::redis_stats::{string_views, RedisStats, ScriptCall, HMAX_SCRIPT};
use crate::analytics::merge::{
    bucket_key, distinct_codes, distinct_link_days, lemma_bucket_key_injective, link_key, link_map, make_bucket_key,
};
use crate::analytics::snapshot::{
    lists_counts, malformed_fields, malformed_views, pair_views, parse_daily_counts, stale_days, stale_global_fields,
    stale_link_days, stale_link_fields, valid_counts, GlobalDailyStats, LastClick, LinkDailyStats, MalformedField,
    RedisSnapshot, RehydrationData,
};
use crate::redis_keys::{global_stats_key_spec, link_stats_key_prefix, link_stats_key_spec, RedisKeys};
use crate::text::signed_decimal;
use crate::text::{has_prefix, strip_prefix};

verus! {

broadcast use vstd::std_specs::hash::group_hash_axioms;

/// The number of days, before today, whose buckets Redis keeps.
pub const ROLLING_WINDOW_DAYS: i64 = 7;

/// The days a bucket stays in Redis after leaving the window.
pub const STALE_GRACE_DAYS: i64 = 1;

/// How many keys one step of a scan asks for.
pub const SCAN_BATCH_SIZE: usize = 100;

/// The first day of the rolling window at the instant `now_millis`: the UTC
/// day of the instant seven days earlier, which is seven days before today.
pub fn rolling_window_start(now_millis: i64) -> (day: i64)
    requires
        now_millis >= i64::MIN + ROLLING_WINDOW_DAYS * MILLIS_PER_DAY,
    ensures
        day == day_of_millis(now_millis - ROLLING_WINDOW_DAYS * MILLIS_PER_DAY),
        day == day_of_millis(now_millis as int) - ROLLING_WINDOW_DAYS,
{
    let then = now_millis - ROLLING_WINDOW_DAYS * MILLIS_PER_DAY;
    assert((now_millis as int - 7 * 86_400_000) / 86_400_000int == (now_millis as int) / 86_400_000int - 7);
    utc_day(then)
}

/// The first day whose buckets are not stale at the instant `now_millis`:
/// the UTC day of the instant eight days earlier, eight days before today.
pub fn stale_cutoff(now_millis: i64) -> (day: i64)
    requires
        now_millis >= i64::MIN + (ROLLING_WINDOW_DAYS + STALE_GRACE_DAYS) * MILLIS_PER_DAY,
    ensures
        day == day_of_millis(now_millis - (ROLLING_WINDOW_DAYS + STALE_GRACE_DAYS) * MILLIS_PER_DAY),
        day == day_of_millis(now_millis as int) - (ROLLING_WINDOW_DAYS + STALE_GRACE_DAYS),
{
    let then = now_millis - (ROLLING_WINDOW_DAYS + STALE_GRACE_DAYS) * MILLIS_PER_DAY;
    assert((now_millis as int - 8 * 86_400_000) / 86_400_000int == (now_millis as int) / 86_400_000int - 8);
    utc_day(then)
}

/// The buckets `counts` of the link `code`, keyed by (link, day).
pub open spec fn link_counts(code: Seq<char>, counts: Map<int, int>) -> Map<(Seq<char>, i32), i64> {
    Map::new(
        |k: (Seq<char>, i32)| k.0 == code && counts.contains_key(k.1 as int),
        |k: (Seq<char>, i32)| counts[k.1 as int] as i64,
    )
}

/// The buckets of the link `code` listed by `v`, later ones replacing
/// earlier ones.
pub open spec fn counts_of(code: Seq<char>, v: Seq<GlobalDailyStats>) -> Map<(Seq<char>, i32), i64>
    decreases v.len(),
{
    if v.len() == 0 {
        Map::empty()
    } else {
        counts_of(code, v.drop_last()).insert((code, v.last().day), v.last().clicks)
    }
}

/// The links that have a bucket in `m`.
pub open spec fn bucket_codes(m: Map<(Seq<char>, i32), i64>) -> Set<Seq<char>> {
    Set::new(|c: Seq<char>| exists|d: i32| #[trigger] m.contains_key((c, d)))
}

/// The code of a link whose stats hash is `key`.
pub open spec fn code_of_key(key: Seq<char>) -> Seq<char> {
    key.subrange(link_stats_key_spec(Seq::empty()).len() as int, key.len() as int)
}

/// A scan reads a link's buckets under the link they were counted for: the
/// stats hash of `code` carries the link stats prefix, and what follows the
/// prefix is `code`.
pub proof fn stats_key_gives_code(code: Seq<char>)
    ensures
        has_prefix(link_stats_key_spec(code), link_stats_key_spec(Seq::empty())),
        code_of_key(link_stats_key_spec(code)) == code,
{
    link_stats_key_prefix(code);
    let p = link_stats_key_spec(Seq::empty());
    let k = link_stats_key_spec(code);
    assert(k.subrange(p.len() as int, k.len() as int) =~= code);
}

proof fn lemma_link_map_entry(v: Seq<LinkDailyStats>, j: int)
    requires
        distinct_link_days(v),
        0 <= j < v.len(),
    ensures
        link_map(v).contains_key(link_key(v[j])),
        link_map(v)[link_key(v[j])] == v[j].clicks,
    decreases v.len(),
{
    if j < v.len() - 1 {
        assert(distinct_link_days(v.drop_last()));
        assert(v.drop_last()[j] == v[j]);
        lemma_link_map_entry(v.drop_last(), j);
        assert(link_key(v[j]) != link_key(v[v.len() - 1]));
    }
}

proof fn lemma_link_map_from(v: Seq<LinkDailyStats>, k: (Seq<char>, i32))
    requires
        link_map(v).contains_key(k),
    ensures
        exists|j: int| 0 <= j < v.len() && #[trigger] link_key(v[j]) == k,
    decreases v.len(),
{
    if link_key(v.last()) == k {
        assert(link_key(v[v.len() - 1]) == k);
    } else {
        lemma_link_map_from(v.drop_last(), k);
        let j = choose|j: int| 0 <= j < v.drop_last().len() && #[trigger] link_key(v.drop_last()[j]) == k;
        assert(link_key(v[j]) == k);
    }
}

/// Replacing a bucket by one for the same (link, day) updates that entry.
proof fn lemma_link_map_update(v: Seq<LinkDailyStats>, p: int, e: LinkDailyStats)
    requires
        distinct_link_days(v),
        0 <= p < v.len(),
        link_key(v[p]) == link_key(e),
    ensures
        distinct_link_days(v.update(p, e)),
        link_map(v.update(p, e)) == link_map(v).insert(link_key(e), e.clicks),
{
    let w = v.update(p, e);
    assert forall|a: int, b: int| 0 <= a < b < w.len() implies link_key(w[a]) != link_key(w[b]) by {
        assert(link_key(w[a]) == link_key(v[a]));
        assert(link_key(w[b]) == link_key(v[b]));
    }
    let lhs = link_map(w);
    let rhs = link_map(v).insert(link_key(e), e.clicks);
    assert forall|k: (Seq<char>, i32)| #[trigger] lhs.dom().contains(k) == rhs.dom().contains(k) by {
        if lhs.dom().contains(k) {
            lemma_link_map_from(w, k);
            let j = choose|j: int| 0 <= j < w.len() && #[trigger] link_key(w[j]) == k;
            if j != p {
                lemma_link_map_entry(v, j);
            }
        }
        if rhs.dom().contains(k) {
            if k == link_key(e) {
                lemma_link_map_entry(w, p);
            } else {
                lemma_link_map_from(v, k);
                let j = choose|j: int| 0 <= j < v.len() && #[trigger] link_key(v[j]) == k;
                assert(link_key(w[j]) == k);
                lemma_link_map_entry(w, j);
            }
        }
    }
    assert forall|k: (Seq<char>, i32)| lhs.dom().contains(k) implies lhs[k] == rhs[k] by {
        lemma_link_map_from(w, k);
        let j = choose|j: int| 0 <= j < w.len() && #[trigger] link_key(w[j]) == k;
        lemma_link_map_entry(w, j);
        if j != p {
            lemma_link_map_entry(v, j);
        }
    }
    assert(lhs =~= rhs);
}

proof fn lemma_counts_of_entry(code: Seq<char>, v: Seq<GlobalDailyStats>, j: int)
    requires
        forall|a: int, b: int| 0 <= a < b < v.len() ==> v[a].day != v[b].day,
        0 <= j < v.len(),
    ensures
        counts_of(code, v).contains_key((code, v[j].day)),
        counts_of(code, v)[(code, v[j].day)] == v[j].clicks,
    decreases v.len(),
{
    if j < v.len() - 1 {
        assert(v.drop_last()[j] == v[j]);
        lemma_counts_of_entry(code, v.drop_last(), j);
        assert(v[j].day != v[v.len() - 1].day);
    }
}

proof fn lemma_counts_of_from(code: Seq<char>, v: Seq<GlobalDailyStats>, k: (Seq<char>, i32))
    requires
        counts_of(code, v).contains_key(k),
    ensures
        k.0 == code,
        exists|j: int| 0 <= j < v.len() && #[trigger] v[j].day == k.1,
    decreases v.len(),
{
    if k == (code, v.last().day) {
        assert(v[v.len() - 1].day == k.1);
    } else {
        lemma_counts_of_from(code, v.drop_last(), k);
        let j = choose|j: int| 0 <= j < v.drop_last().len() && #[trigger] v.drop_last()[j].day == k.1;
        assert(v[j].day == k.1);
    }
}

/// A list of buckets with each day once, read in order, gives the buckets it
/// lists.
proof fn lemma_counts_of_listed(code: Seq<char>, v: Seq<GlobalDailyStats>, m: Map<int, int>)
    requires
        lists_counts(v, m),
    ensures
        counts_of(code, v) == link_counts(code, m),
{
    let lhs = counts_of(code, v);
    let rhs = link_counts(code, m);
    assert forall|k: (Seq<char>, i32)| #[trigger] lhs.dom().contains(k) == rhs.dom().contains(k) by {
        if lhs.dom().contains(k) {
            lemma_counts_of_from(code, v, k);
            let j = choose|j: int| 0 <= j < v.len() && #[trigger] v[j].day == k.1;
            assert(m.contains_key(v[j].day as int));
        }
        if rhs.dom().contains(k) {
            let j = choose|j: int| 0 <= j < v.len() && v[j].day == k.1 as int;
            lemma_counts_of_entry(code, v, j);
        }
    }
    assert forall|k: (Seq<char>, i32)| lhs.dom().contains(k) implies lhs[k] == rhs[k] by {
        lemma_counts_of_from(code, v, k);
        let j = choose|j: int| 0 <= j < v.len() && #[trigger] v[j].day == k.1;
        lemma_counts_of_entry(code, v, j);
        assert(m.contains_key(v[j].day as int));
    }
    assert(lhs =~= rhs);
}

/// The link buckets found so far by a scan of the link stats hashes, each
/// (link, day) once; a hash met again replaces the buckets it gave before.
pub struct SnapshotScan {
    key_prefix: String,
    link_daily: Vec<LinkDailyStats>,
    index: StringHashMap<usize>,
}

impl SnapshotScan {
    /// The buckets found so far.
    pub closed spec fn buckets(self) -> Map<(Seq<char>, i32), i64> {
        link_map(self.link_daily@)
    }

    pub closed spec fn wf(self) -> bool {
        &&& self.key_prefix@ == link_stats_key_spec(Seq::empty())
        &&& distinct_link_days(self.link_daily@)
        &&& forall|c: Seq<char>, d: i32| #[trigger]
            self.index@.contains_key(bucket_key(c, d)) == link_map(self.link_daily@).contains_key((c, d))
        &&& forall|c: Seq<char>, d: i32|
            self.index@.contains_key(bucket_key(c, d)) ==> #[trigger] self.index@[bucket_key(c, d)] < self.link_daily@.len()
                && link_key(self.link_daily@[self.index@[bucket_key(c, d)] as int]) == (c, d)
    }

    /// An empty scan.
    pub fn new() -> (s: Self)
        ensures
            s.wf(),
            s.buckets() == Map::<(Seq<char>, i32), i64>::empty(),
    {
        let s = SnapshotScan {
            key_prefix: RedisKeys::link_stats_key(""),
            link_daily: Vec::new(),
            index: StringHashMap::new(),
        };
        proof {
            reveal_strlit("");
        }
        assert(s.link_daily@ =~= Seq::empty());
        assert(link_map(s.link_daily@) =~= Map::empty());
        s
    }

    /// The pattern that matches the keys of the link stats hashes.
    pub fn key_pattern() -> (k: String)
        ensures
            k@ == link_stats_key_spec("*"@),
    {
        RedisKeys::link_stats_key("*")
    }

    /// Adds the stats hash `key` with its `fields`. A key without the link
    /// stats prefix is skipped (`None`). Otherwise the day-buckets of the
    /// fields are the link's buckets of those days, replacing what the scan
    /// held for them, and the malformed fields are returned.
    pub fn add_link_hash(&mut self, key: &str, fields: Vec<(String, String)>) -> (malformed: Option<Vec<MalformedField>>)
        requires
            old(self).wf(),
        ensures
            final(self).wf(),
            malformed is None <==> !has_prefix(key@, link_stats_key_spec(Seq::empty())),
            malformed is None ==> final(self).buckets() == old(self).buckets(),
            malformed matches Some(m) ==> malformed_views(m@) == malformed_fields(fields@)
                && final(self).buckets() == old(self).buckets().union_prefer_right(
                link_counts(code_of_key(key@), valid_counts(fields@)),
            ),
    {
        let code = match strip_prefix(key, self.key_prefix.as_str()) {
            Some(c) => c,
            None => return None,
        };
        assert(code@ =~= code_of_key(key@));
        let ghost vm = valid_counts(fields@);
        let ghost start = link_map(self.link_daily@);
        let (parsed, malformed) = parse_daily_counts(fields);
        let mut j: usize = 0;
        assert(counts_of(code@, parsed@.take(0)) =~= Map::empty());
        assert(start.union_prefer_right(Map::empty()) =~= start);
        while j < parsed.len()
            invariant
                j <= parsed.len(),
                lists_counts(parsed@, vm),
                self.key_prefix@ == link_stats_key_spec(Seq::empty()),
                distinct_link_days(self.link_daily@),
                forall|c: Seq<char>, d: i32| #[trigger]
                    self.index@.contains_key(bucket_key(c, d)) == link_map(self.link_daily@).contains_key((c, d)),
                forall|c: Seq<char>, d: i32|
                    self.index@.contains_key(bucket_key(c, d)) ==> #[trigger] self.index@[bucket_key(c, d)]
                        < self.link_daily@.len() && link_key(self.link_daily@[self.index@[bucket_key(c, d)] as int]) == (
                        c,
                        d,
                    ),
                link_map(self.link_daily@) == start.union_prefer_right(counts_of(code@, parsed@.take(j as int))),
            decreases parsed.len() - j,
        {
            let day = parsed[j].day;
            let clicks = parsed[j].clicks;
            let ghost before = self.link_daily@;
            let ghost k0 = (code@, day);
            assert(parsed@.take(j + 1).drop_last() =~= parsed@.take(j as int));
            assert(parsed@.take(j + 1).last() == parsed@[j as int]);
            let bk = make_bucket_key(code.as_str(), day);
            let entry = LinkDailyStats { short_code: code.clone(), day, clicks };
            match self.index.get(bk.as_str()) {
                Some(pos) => {
                    let p = *pos;
                    proof {
                        lemma_link_map_update(before, p as int, entry);
                    }
                    self.link_daily.set(p, entry);
                    assert(self.link_daily@ == before.update(p as int, entry));
                },
                None => {
                    let n = self.link_daily.len();
                    self.link_daily.push(entry);
                    self.index.insert(bk, n);
                    assert(self.link_daily@.drop_last() =~= before);
                    assert forall|a: int, b: int| 0 <= a < b < self.link_daily@.len() implies link_key(
                        self.link_daily@[a],
                    ) != link_key(self.link_daily@[b]) by {
                        if b == n as int {
                            lemma_link_map_entry(before, a);
                        }
                    }
                    assert forall|c: Seq<char>, d: i32| #[trigger]
                        self.index@.contains_key(bucket_key(c, d)) == link_map(self.link_daily@).contains_key((c, d)) by {
                        lemma_bucket_key_injective(c, d, code@, day);
                    }
                    assert forall|c: Seq<char>, d: i32|
                        self.index@.contains_key(bucket_key(c, d)) implies #[trigger] self.index@[bucket_key(c, d)]
                            < self.link_daily@.len() && link_key(self.link_daily@[self.index@[bucket_key(c, d)] as int])
                            == (c, d) by {
                        lemma_bucket_key_injective(c, d, code@, day);
                    }
                },
            }
            assert(link_map(self.link_daily@) =~= start.union_prefer_right(counts_of(code@, parsed@.take(j + 1))));
            j = j + 1;
        }
        assert(parsed@.take(j as int) =~= parsed@);
        proof {
            lemma_counts_of_listed(code@, parsed@, vm);
        }
        Some(malformed)
    }

    /// The links that have buckets, each once.
    pub fn link_codes(&self) -> (codes: Vec<String>)
        requires
            self.wf(),
        ensures
            distinct_codes(codes@),
            forall|k: int| 0 <= k < codes@.len() ==> bucket_codes(self.buckets()).contains(#[trigger] codes@[k]@),
            forall|c: Seq<char>| #[trigger] bucket_codes(self.buckets()).contains(c) ==> exists|k: int|
                0 <= k < codes@.len() && codes@[k]@ == c,
    {
        let mut seen = StringHashSet::new();
        let mut codes: Vec<String> = Vec::new();
        let mut i: usize = 0;
        while i < self.link_daily.len()
            invariant
                i <= self.link_daily@.len(),
                distinct_codes(codes@),
                forall|k: int| 0 <= k < codes@.len() ==> seen@.contains(#[trigger] codes@[k]@),
                forall|c: Seq<char>| #[trigger] seen@.contains(c) ==> exists|k: int| 0 <= k < codes@.len() && codes@[k]@ == c,
                forall|j: int| 0 <= j < i ==> seen@.contains(#[trigger] self.link_daily@[j].short_code@),
                forall|k: int| #![trigger codes@[k]]
                    0 <= k < codes@.len() ==> exists|j: int|
                        0 <= j < self.link_daily@.len() && #[trigger] self.link_daily@[j].short_code@ == codes@[k]@,
            decreases self.link_daily@.len() - i,
        {
            if !seen.contains(self.link_daily[i].short_code.as_str()) {
                let ghost before = codes@;
                codes.push(self.link_daily[i].short_code.clone());
                seen.insert(self.link_daily[i].short_code.clone());
                assert forall|a: int, b: int| 0 <= a < b < codes@.len() implies codes@[a]@ != codes@[b]@ by {
                    if b == before.len() {
                        assert(codes@[a] == before[a]);
                    }
                }
                assert forall|k: int| #![trigger codes@[k]]
                    0 <= k < codes@.len() implies exists|j: int|
                        0 <= j < self.link_daily@.len() && #[trigger] self.link_daily@[j].short_code@ == codes@[k]@ by {
                    if k < before.len() {
                        assert(codes@[k] == before[k]);
                    } else {
                        assert(self.link_daily@[i as int].short_code@ == codes@[k]@);
                    }
                }
                assert forall|c: Seq<char>| #[trigger] seen@.contains(c) implies exists|k: int|
                    0 <= k < codes@.len() && codes@[k]@ == c by {
                    if c == self.link_daily@[i as int].short_code@ {
                        assert(codes@[before.len() as int]@ == c);
                    } else {
                        let k = choose|k: int| 0 <= k < before.len() && before[k]@ == c;
                        assert(codes@[k] == before[k]);
                    }
                }
            }
            i = i + 1;
        }
        assert forall|k: int| 0 <= k < codes@.len() implies bucket_codes(self.buckets()).contains(#[trigger] codes@[k]@) by {
            let j = choose|j: int| 0 <= j < self.link_daily@.len() && #[trigger] self.link_daily@[j].short_code@ == codes@[k]@;
            lemma_link_map_entry(self.link_daily@, j);
            assert(self.buckets().contains_key((codes@[k]@, self.link_daily@[j].day)));
        }
        assert forall|c: Seq<char>| #[trigger] bucket_codes(self.buckets()).contains(c) implies exists|k: int|
            0 <= k < codes@.len() && codes@[k]@ == c by {
            let d = choose|d: i32| #[trigger] self.buckets().contains_key((c, d));
            lemma_link_map_from(self.link_daily@, (c, d));
            let j = choose|j: int| 0 <= j < self.link_daily@.len() && #[trigger] link_key(self.link_daily@[j]) == (c, d);
            assert(seen@.contains(self.link_daily@[j].short_code@));
        }
        codes
    }

    /// Completes the snapshot: the global buckets read from `global_fields`
    /// (with the fields that are malformed), the link buckets found by the
    /// scan, the last clicks, and the buckets of both kinds that lie before
    /// `cutoff`.
    pub fn finish(self, global_fields: Vec<(String, String)>, last_clicked_at: Vec<LastClick>, cutoff: i64) -> (r: (
        RedisSnapshot,
        Vec<MalformedField>,
    ))
        requires
            self.wf(),
        ensures
            lists_counts(r.0.global_daily@, valid_counts(global_fields@)),
            r.0.wf(),
            malformed_views(r.1@) == malformed_fields(global_fields@),
            link_map(r.0.link_daily@) == self.buckets(),
            r.0.last_clicked_at@ == last_clicked_at@,
            r.0.stale_global@ == stale_days(r.0.global_daily@, cutoff as int),
            pair_views(r.0.stale_links@) == stale_link_days(r.0.link_daily@, cutoff as int),
    {
        let (global_daily, malformed) = parse_daily_counts(global_fields);
        let stale_global = stale_global_fields(&global_daily, cutoff);
        let stale_links = stale_link_fields(&self.link_daily, cutoff);
        (
            RedisSnapshot {
                global_daily,
                link_daily: self.link_daily,
                last_clicked_at,
                stale_global,
                stale_links,
            },
            malformed,
        )
    }
}

/// The bucket writes (hash key, day text, count) that seed the global stats
/// hash from `g`, in order; a day that cannot be rendered is skipped.
pub open spec fn global_writes(g: Seq<GlobalDailyStats>) -> Seq<(Seq<char>, Seq<char>, int)>
    decreases g.len(),
{
    if g.len() == 0 {
        Seq::empty()
    } else {
        let rest = global_writes(g.drop_last());
        match chrono_day_text(g.last().day as int) {
            Some(t) => rest.push((global_stats_key_spec(), t, g.last().clicks as int)),
            None => rest,
        }
    }
}

/// The bucket writes (hash key, day text, count) that seed each link's stats
/// hash from `l`, in order; a day that cannot be rendered is skipped.
pub open spec fn link_writes(l: Seq<LinkDailyStats>) -> Seq<(Seq<char>, Seq<char>, int)>
    decreases l.len(),
{
    if l.len() == 0 {
        Seq::empty()
    } else {
        let rest = link_writes(l.drop_last());
        match chrono_day_text(l.last().day as int) {
            Some(t) => rest.push((link_stats_key_spec(l.last().short_code@), t, l.last().clicks as int)),
            None => rest,
        }
    }
}

/// `c` raises field `w.1` of hash `w.0` to `w.2`.
pub open spec fn hmax_of(c: ScriptCall, w: (Seq<char>, Seq<char>, int)) -> bool {
    &&& c.script == HMAX_SCRIPT
    &&& string_views(c.keys@) == seq![w.0]
    &&& string_views(c.args@) == seq![w.1, signed_decimal(w.2)]
}

/// `calls` makes the writes `w`, one call each, in order.
pub open spec fn makes_writes(calls: Seq<ScriptCall>, w: Seq<(Seq<char>, Seq<char>, int)>) -> bool {
    calls.len() == w.len() && forall|i: int| 0 <= i < w.len() ==> hmax_of(#[trigger] calls[i], w[i])
}

/// The writes that rehydrate Redis from `data`: each global bucket raised
/// into the global stats hash, then each link bucket into the link's stats
/// hash, under the day's `YYYY-MM-DD` text.
pub fn rehydration_writes(data: &RehydrationData) -> (calls: Vec<ScriptCall>)
    ensures
        makes_writes(calls@, global_writes(data.global_daily@) + link_writes(data.link_daily@)),
{
    let global_key = RedisKeys::global_stats_key();
    let mut calls: Vec<ScriptCall> = Vec::new();
    let mut i: usize = 0;
    while i < data.global_daily.len()
        invariant
            i <= data.global_daily@.len(),
            global_key@ == global_stats_key_spec(),
            makes_writes(calls@, global_writes(data.global_daily@.take(i as int))),
        decreases data.global_daily@.len() - i,
    {
        let stat = data.global_daily[i];
        assert(data.global_daily@.take(i + 1).drop_last() =~= data.global_daily@.take(i as int));
        match day_text(stat.day) {
            Some(t) => {
                let call = RedisStats::hmax_call(global_key.as_str(), t.as_str(), stat.clicks);
                calls.push(call);
            },
            None => {},
        }
        i = i + 1;
    }
    assert(data.global_daily@.take(i as int) =~= data.global_daily@);
    let ghost n = calls@.len();
    let mut j: usize = 0;
    while j < data.link_daily.len()
        invariant
            j <= data.link_daily@.len(),
            n == global_writes(data.global_daily@).len(),
            calls@.len() >= n,
            makes_writes(calls@.take(n as int), global_writes(data.global_daily@)),
            makes_writes(calls@.skip(n as int), link_writes(data.link_daily@.take(j as int))),
        decreases data.link_daily@.len() - j,
    {
        assert(data.link_daily@.take(j + 1).drop_last() =~= data.link_daily@.take(j as int));
        match day_text(data.link_daily[j].day) {
            Some(t) => {
                let key = RedisKeys::link_stats_key(data.link_daily[j].short_code.as_str());
                let call = RedisStats::hmax_call(key.as_str(), t.as_str(), data.link_daily[j].clicks);
                let ghost before = calls@;
                calls.push(call);
                assert(calls@.take(n as int) =~= before.take(n as int));
                assert(calls@.skip(n as int) =~= before.skip(n as int).push(call));
            },
            None => {},
        }
        j = j + 1;
    }
    assert(data.link_daily@.take(j as int) =~= data.link_daily@);
    let ghost w = global_writes(data.global_daily@) + link_writes(data.link_daily@);
    assert forall|k: int| 0 <= k < w.len() implies hmax_of(#[trigger] calls@[k], w[k]) by {
        if k < n {
            assert(calls@.take(n as int)[k] == calls@[k]);
        } else {
            assert(calls@.skip(n as int)[k - n] == calls@[k]);
        }
    }
    calls
}

} // verus!
