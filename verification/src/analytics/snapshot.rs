//! Snapshots of the Redis day-buckets and the pure steps that build them.

use vstd::prelude::*;
use vstd::string::*;
use vstd::hash_map::HashMapWithView;

use crate::analytics::dates::{chrono_parse_date, parse_date};
use crate::analytics::merge::distinct_link_days;
use crate::text::{parse_i64, parse_i64_spec};

verus! {

broadcast use vstd::std_specs::hash::group_hash_axioms;

/// The clicks of all links on one day.
#[derive(Debug, Clone, Copy, PartialEq, Eq)]
pub struct GlobalDailyStats {
    pub day: i32,
    pub clicks: i64,
}

/// The clicks of one link on one day.
#[derive(Debug, Clone)]
pub struct LinkDailyStats {
    pub short_code: String,
    pub day: i32,
    pub clicks: i64,
}

/// The last time a link was clicked, in milliseconds since the Unix epoch.
#[derive(Debug, Clone)]
pub struct LastClick {
    pub short_code: String,
    pub at_millis: i64,
}

/// What a scan of Redis found: global and per-link day-buckets, the last
/// click of each link, and the buckets that have fallen out of the window.
#[derive(Debug)]
pub struct RedisSnapshot {
    pub global_daily: Vec<GlobalDailyStats>,
    pub link_daily: Vec<LinkDailyStats>,
    pub last_clicked_at: Vec<LastClick>,
    pub stale_global: Vec<i32>,
    pub stale_links: Vec<(String, i32)>,
}

impl RedisSnapshot {
    /// A snapshot keys its buckets as the maps it stands for do: no day
    /// occurs twice among the global buckets, and no (link, day) among the
    /// link buckets. A scan's snapshot is one.
    pub open spec fn wf(self) -> bool {
        &&& distinct_days(self.global_daily@)
        &&& distinct_link_days(self.link_daily@)
    }

    /// Whether the snapshot holds no bucket at all, so that there is nothing
    /// to merge.
    pub fn has_no_buckets(&self) -> (b: bool)
        ensures
            b == (self.global_daily@.len() == 0 && self.link_daily@.len() == 0),
    {
        self.global_daily.len() == 0 && self.link_daily.len() == 0
    }
}

/// The day-buckets read back from Postgres to seed Redis.
#[derive(Debug)]
pub struct RehydrationData {
    pub global_daily: Vec<GlobalDailyStats>,
    pub link_daily: Vec<LinkDailyStats>,
}

/// A Redis hash field that could not be read as a day-bucket.
#[derive(Debug)]
pub struct MalformedField {
    pub key: String,
    pub value: String,
    pub reason: &'static str,
}

/// Merges an incoming count into an existing one: the committed count is the
/// larger of the two, and the delta is what the merge adds.
pub fn calculate_merge_delta(existing: i64, incoming: i64) -> (r: (i64, i64))
    requires
        (if existing >= incoming { existing } else { incoming }) - existing <= i64::MAX,
    ensures
        r.0 == if existing >= incoming { existing } else { incoming },
        r.1 == r.0 - existing,
{
    let committed = if existing >= incoming { existing } else { incoming };
    let applied_delta = committed - existing;
    (committed, applied_delta)
}

/// Merging is monotone and idempotent: the committed count is at least both
/// inputs, the delta is never negative, existing plus delta is the committed
/// count, and merging the same incoming count again adds nothing.
pub proof fn merge_delta_laws(existing: int, incoming: int)
    ensures
        ({
            let committed = if existing >= incoming { existing } else { incoming };
            &&& committed >= existing
            &&& committed >= incoming
            &&& committed - existing >= 0
            &&& existing + (committed - existing) == committed
            &&& (if committed >= incoming { committed } else { incoming }) == committed
        }),
{
}

/// The days of `daily` that lie before `cutoff`, in order.
pub open spec fn stale_days(daily: Seq<GlobalDailyStats>, cutoff: int) -> Seq<i32>
    decreases daily.len(),
{
    if daily.len() == 0 {
        Seq::empty()
    } else {
        let rest = stale_days(daily.drop_last(), cutoff);
        if daily.last().day < cutoff {
            rest.push(daily.last().day)
        } else {
            rest
        }
    }
}

/// The (link, day) pairs of `daily` that lie before `cutoff`, in order.
pub open spec fn stale_link_days(daily: Seq<LinkDailyStats>, cutoff: int) -> Seq<(Seq<char>, i32)>
    decreases daily.len(),
{
    if daily.len() == 0 {
        Seq::empty()
    } else {
        let rest = stale_link_days(daily.drop_last(), cutoff);
        if daily.last().day < cutoff {
            rest.push((daily.last().short_code@, daily.last().day))
        } else {
            rest
        }
    }
}

pub open spec fn pair_views(v: Seq<(String, i32)>) -> Seq<(Seq<char>, i32)> {
    v.map_values(|p: (String, i32)| (p.0@, p.1))
}

/// Exactly the days before the cutoff are stale: every day listed is the day
/// of one of the buckets and lies strictly before `cutoff`, and the day of
/// every bucket before `cutoff` is listed; a bucket on or after the cutoff
/// never is.
pub proof fn stale_days_are_those_before_cutoff(daily: Seq<GlobalDailyStats>, cutoff: int)
    ensures
        forall|k: int|
            0 <= k < stale_days(daily, cutoff).len() ==> #[trigger] stale_days(daily, cutoff)[k] < cutoff && exists|j: int|
                0 <= j < daily.len() && daily[j].day == stale_days(daily, cutoff)[k],
        forall|j: int| 0 <= j < daily.len() && daily[j].day < cutoff ==> stale_days(daily, cutoff).contains(#[trigger] daily[j].day),
    decreases daily.len(),
{
    if daily.len() > 0 {
        let init = daily.drop_last();
        stale_days_are_those_before_cutoff(init, cutoff);
        let rest = stale_days(init, cutoff);
        let all = stale_days(daily, cutoff);
        assert forall|k: int| 0 <= k < all.len() implies #[trigger] all[k] < cutoff && exists|j: int|
            0 <= j < daily.len() && daily[j].day == all[k] by {
            if k < rest.len() {
                assert(all[k] == rest[k]);
                let j = choose|j: int| 0 <= j < init.len() && init[j].day == rest[k];
                assert(daily[j] == init[j]);
            } else {
                assert(daily[daily.len() - 1].day == all[k]);
            }
        }
        assert forall|j: int| 0 <= j < daily.len() && daily[j].day < cutoff implies all.contains(#[trigger] daily[j].day) by {
            if j < init.len() {
                assert(init[j] == daily[j]);
                assert(rest.contains(init[j].day));
                let k = choose|k: int| 0 <= k < rest.len() && rest[k] == init[j].day;
                assert(all[k] == rest[k]);
            } else {
                assert(all[all.len() - 1] == daily[j].day);
            }
        }
    }
}

/// Exactly the link buckets before the cutoff are stale: every (link, day)
/// listed is one of the buckets and lies strictly before `cutoff`, and every
/// bucket before `cutoff` is listed.
pub proof fn stale_link_days_are_those_before_cutoff(daily: Seq<LinkDailyStats>, cutoff: int)
    ensures
        forall|k: int|
            0 <= k < stale_link_days(daily, cutoff).len() ==> (#[trigger] stale_link_days(daily, cutoff)[k]).1 < cutoff
                && exists|j: int|
                0 <= j < daily.len() && (daily[j].short_code@, daily[j].day) == stale_link_days(daily, cutoff)[k],
        forall|j: int|
            0 <= j < daily.len() && daily[j].day < cutoff ==> stale_link_days(daily, cutoff).contains(
                (#[trigger] daily[j].short_code@, daily[j].day),
            ),
    decreases daily.len(),
{
    if daily.len() > 0 {
        let init = daily.drop_last();
        stale_link_days_are_those_before_cutoff(init, cutoff);
        let rest = stale_link_days(init, cutoff);
        let all = stale_link_days(daily, cutoff);
        assert forall|k: int| 0 <= k < all.len() implies (#[trigger] all[k]).1 < cutoff && exists|j: int|
            0 <= j < daily.len() && (daily[j].short_code@, daily[j].day) == all[k] by {
            if k < rest.len() {
                assert(all[k] == rest[k]);
                let j = choose|j: int| 0 <= j < init.len() && (init[j].short_code@, init[j].day) == rest[k];
                assert(daily[j] == init[j]);
            } else {
                let last = daily.len() - 1;
                assert((daily[last].short_code@, daily[last].day) == all[k]);
            }
        }
        assert forall|j: int| 0 <= j < daily.len() && daily[j].day < cutoff implies all.contains(
            (#[trigger] daily[j].short_code@, daily[j].day),
        ) by {
            if j < init.len() {
                assert(init[j] == daily[j]);
                assert(rest.contains((init[j].short_code@, init[j].day)));
                let k = choose|k: int| 0 <= k < rest.len() && rest[k] == (init[j].short_code@, init[j].day);
                assert(all[k] == rest[k]);
            } else {
                assert(all[all.len() - 1] == (daily[j].short_code@, daily[j].day));
            }
        }
    }
}

/// The days of the global buckets that lie before `cutoff`.
pub fn stale_global_fields(daily: &Vec<GlobalDailyStats>, cutoff: i64) -> (stale: Vec<i32>)
    ensures
        stale@ == stale_days(daily@, cutoff as int),
        forall|k: int|
            0 <= k < stale@.len() ==> #[trigger] stale@[k] < cutoff && exists|j: int|
                0 <= j < daily@.len() && daily@[j].day == stale@[k],
        forall|j: int| 0 <= j < daily@.len() && daily@[j].day < cutoff ==> stale@.contains(#[trigger] daily@[j].day),
{
    proof {
        stale_days_are_those_before_cutoff(daily@, cutoff as int);
    }
    let mut stale: Vec<i32> = Vec::new();
    let mut i: usize = 0;
    while i < daily.len()
        invariant
            i <= daily.len(),
            stale@ == stale_days(daily@.take(i as int), cutoff as int),
        decreases daily.len() - i,
    {
        assert(daily@.take(i + 1).drop_last() =~= daily@.take(i as int));
        if (daily[i].day as i64) < cutoff {
            stale.push(daily[i].day);
        }
        i = i + 1;
    }
    assert(daily@.take(i as int) =~= daily@);
    stale
}

/// The (link, day) buckets that lie before `cutoff`.
pub fn stale_link_fields(daily: &Vec<LinkDailyStats>, cutoff: i64) -> (stale: Vec<(String, i32)>)
    ensures
        pair_views(stale@) == stale_link_days(daily@, cutoff as int),
        forall|k: int|
            0 <= k < stale@.len() ==> (#[trigger] stale@[k]).1 < cutoff && exists|j: int|
                0 <= j < daily@.len() && daily@[j].short_code@ == stale@[k].0@ && daily@[j].day == stale@[k].1,
        forall|j: int|
            0 <= j < daily@.len() && daily@[j].day < cutoff ==> pair_views(stale@).contains(
                (#[trigger] daily@[j].short_code@, daily@[j].day),
            ),
{
    proof {
        stale_link_days_are_those_before_cutoff(daily@, cutoff as int);
    }
    let mut stale: Vec<(String, i32)> = Vec::new();
    let mut i: usize = 0;
    while i < daily.len()
        invariant
            i <= daily.len(),
            pair_views(stale@) == stale_link_days(daily@.take(i as int), cutoff as int),
        decreases daily.len() - i,
    {
        assert(daily@.take(i + 1).drop_last() =~= daily@.take(i as int));
        if (daily[i].day as i64) < cutoff {
            let ghost before = stale@;
            stale.push((daily[i].short_code.clone(), daily[i].day));
            assert(pair_views(stale@) =~= pair_views(before).push((daily@[i as int].short_code@, daily@[i as int].day)));
        }
        i = i + 1;
    }
    assert(daily@.take(i as int) =~= daily@);
    assert forall|k: int| 0 <= k < stale@.len() implies (#[trigger] stale@[k]).1 < cutoff && exists|j: int|
        0 <= j < daily@.len() && daily@[j].short_code@ == stale@[k].0@ && daily@[j].day == stale@[k].1 by {
        assert(pair_views(stale@)[k] == (stale@[k].0@, stale@[k].1));
    }
    stale
}

/// The format of a day-bucket's field name.
pub const DAY_FORMAT: &'static str = "%Y-%m-%d";

/// How a field is read once its name has been parsed as `date`: a count
/// that parses as a non-negative integer gives the bucket (day, count);
/// otherwise the reason the field is malformed.
pub open spec fn classify(date: Option<i32>, count: Seq<char>) -> Result<(int, int), Seq<char>> {
    match date {
        None => Err("invalid date format"@),
        Some(d) => match parse_i64_spec(count) {
            Some(c) => if c >= 0 {
                Ok((d as int, c))
            } else {
                Err("negative count"@)
            },
            None => Err("invalid count"@),
        },
    }
}

/// How a field (name, count) of a day-bucket hash is read.
pub open spec fn field_verdict(field: (String, String)) -> Result<(int, int), Seq<char>> {
    classify(chrono_parse_date(field.0@, DAY_FORMAT@), field.1@)
}

/// The buckets read from `fields`, later fields replacing earlier ones for
/// the same day.
pub open spec fn valid_counts(fields: Seq<(String, String)>) -> Map<int, int>
    decreases fields.len(),
{
    if fields.len() == 0 {
        Map::empty()
    } else {
        let m = valid_counts(fields.drop_last());
        match field_verdict(fields.last()) {
            Ok(b) => m.insert(b.0, b.1),
            Err(_) => m,
        }
    }
}

/// The buckets read are exactly those of the readable fields: every day
/// read holds a non-negative count that one field names under that day, and
/// every field whose name is a day and whose value is a non-negative integer
/// has its day read.
pub proof fn valid_counts_come_from_readable_fields(fields: Seq<(String, String)>)
    ensures
        forall|d: int|
            #[trigger] valid_counts(fields).contains_key(d) ==> valid_counts(fields)[d] >= 0 && exists|j: int|
                0 <= j < fields.len() && (chrono_parse_date(fields[j].0@, DAY_FORMAT@) matches Some(x) && x == d)
                    && parse_i64_spec(fields[j].1@) == Some(valid_counts(fields)[d]),
        forall|j: int|
            0 <= j < fields.len() && (chrono_parse_date(#[trigger] fields[j].0@, DAY_FORMAT@) matches Some(x)
                && (parse_i64_spec(fields[j].1@) matches Some(c) && c >= 0)) ==> valid_counts(fields).contains_key(
                chrono_parse_date(fields[j].0@, DAY_FORMAT@).unwrap() as int,
            ),
    decreases fields.len(),
{
    if fields.len() > 0 {
        let init = fields.drop_last();
        valid_counts_come_from_readable_fields(init);
        let m = valid_counts(init);
        let last = fields.len() - 1;
        assert(fields.last() == fields[last]);
        assert forall|d: int| #[trigger] valid_counts(fields).contains_key(d) implies valid_counts(fields)[d] >= 0 && exists|j: int|
            0 <= j < fields.len() && (chrono_parse_date(fields[j].0@, DAY_FORMAT@) matches Some(x) && x == d)
                && parse_i64_spec(fields[j].1@) == Some(valid_counts(fields)[d]) by {
            match field_verdict(fields[last]) {
                Ok(b) => {
                    if d == b.0 {
                        assert(chrono_parse_date(fields[last].0@, DAY_FORMAT@) matches Some(x) && x == d);
                    } else {
                        assert(m.contains_key(d));
                        let j = choose|j: int|
                            0 <= j < init.len() && (chrono_parse_date(init[j].0@, DAY_FORMAT@) matches Some(x) && x == d)
                                && parse_i64_spec(init[j].1@) == Some(m[d]);
                        assert(fields[j] == init[j]);
                    }
                },
                Err(_) => {
                    let j = choose|j: int|
                        0 <= j < init.len() && (chrono_parse_date(init[j].0@, DAY_FORMAT@) matches Some(x) && x == d)
                            && parse_i64_spec(init[j].1@) == Some(m[d]);
                    assert(fields[j] == init[j]);
                },
            }
        }
        assert forall|j: int|
            0 <= j < fields.len() && (chrono_parse_date(#[trigger] fields[j].0@, DAY_FORMAT@) matches Some(x)
                && (parse_i64_spec(fields[j].1@) matches Some(c) && c >= 0)) implies valid_counts(fields).contains_key(
            chrono_parse_date(fields[j].0@, DAY_FORMAT@).unwrap() as int,
        ) by {
            if j < last {
                assert(fields[j] == init[j]);
                assert(m.contains_key(chrono_parse_date(init[j].0@, DAY_FORMAT@).unwrap() as int));
            }
        }
    }
}

/// The malformed fields of `fields`, as (name, count, reason), in order.
pub open spec fn malformed_fields(fields: Seq<(String, String)>) -> Seq<(Seq<char>, Seq<char>, Seq<char>)>
    decreases fields.len(),
{
    if fields.len() == 0 {
        Seq::empty()
    } else {
        let rest = malformed_fields(fields.drop_last());
        match field_verdict(fields.last()) {
            Ok(_) => rest,
            Err(reason) => rest.push((fields.last().0@, fields.last().1@, reason)),
        }
    }
}

pub open spec fn malformed_views(v: Seq<MalformedField>) -> Seq<(Seq<char>, Seq<char>, Seq<char>)> {
    v.map_values(|f: MalformedField| (f.key@, f.value@, f.reason@))
}

/// No day occurs twice in `v`.
pub open spec fn distinct_days(v: Seq<GlobalDailyStats>) -> bool {
    forall|i: int, j: int| 0 <= i < j < v.len() ==> v[i].day != v[j].day
}

/// `v` lists exactly the buckets of `m`, each day once.
pub open spec fn lists_counts(v: Seq<GlobalDailyStats>, m: Map<int, int>) -> bool {
    &&& distinct_days(v)
    &&& forall|i: int| 0 <= i < v.len() ==> m.contains_key(#[trigger] v[i].day as int) && m[v[i].day as int] == v[i].clicks
    &&& forall|d: int| #[trigger] m.contains_key(d) ==> exists|i: int| 0 <= i < v.len() && v[i].day == d
}

/// Reads the count of a field whose name parsed as `date`.
pub fn classify_count(date: Option<i32>, count: &str) -> (r: Result<(i32, i64), &'static str>)
    ensures
        match classify(date, count@) {
            Ok(b) => r matches Ok(p) && p.0 == b.0 && p.1 == b.1,
            Err(reason) => r matches Err(m) && m@ == reason,
        },
{
    match date {
        None => Err("invalid date format"),
        Some(d) => match parse_i64(count) {
            Some(c) => if c >= 0 {
                Ok((d, c))
            } else {
                Err("negative count")
            },
            None => Err("invalid count"),
        },
    }
}

/// Reads the fields of a day-bucket hash: each field whose name is a day and
/// whose value is a non-negative count becomes a bucket (a later field
/// replaces an earlier one for the same day); every other field is reported
/// as malformed, with the reason.
pub fn parse_daily_counts(fields: Vec<(String, String)>) -> (r: (Vec<GlobalDailyStats>, Vec<MalformedField>))
    ensures
        lists_counts(r.0@, valid_counts(fields@)),
        malformed_views(r.1@) == malformed_fields(fields@),
{
    let mut valid: Vec<GlobalDailyStats> = Vec::new();
    let mut malformed: Vec<MalformedField> = Vec::new();
    let mut index: HashMapWithView<i32, usize> = HashMapWithView::new();
    let mut i: usize = 0;
    while i < fields.len()
        invariant
            i <= fields.len(),
            lists_counts(valid@, valid_counts(fields@.take(i as int))),
            malformed_views(malformed@) == malformed_fields(fields@.take(i as int)),
            forall|d: i32| #[trigger] index@.contains_key(d) <==> valid_counts(fields@.take(i as int)).contains_key(d as int),
            forall|d: i32| #[trigger] index@.contains_key(d) ==> index@[d] < valid@.len() && valid@[index@[d] as int].day == d,
        decreases fields.len() - i,
    {
        let ghost prev = fields@.take(i as int);
        let ghost m = valid_counts(prev);
        assert(fields@.take(i + 1).drop_last() =~= prev);
        assert(fields@.take(i + 1).last() == fields@[i as int]);
        let date = parse_date(fields[i].0.as_str(), DAY_FORMAT);
        match classify_count(date, fields[i].1.as_str()) {
            Ok((day, clicks)) => {
                let ghost m2 = m.insert(day as int, clicks as int);
                let entry = GlobalDailyStats { day, clicks };
                let ghost before = valid@;
                match index.get(&day) {
                    Some(pos) => {
                        let p = *pos;
                        valid.set(p, entry);
                        assert forall|a: int, b: int| 0 <= a < b < valid@.len() implies valid@[a].day != valid@[b].day by {
                            assert(before[a].day != before[b].day);
                        }
                        assert forall|d: int| #[trigger] m2.contains_key(d) implies exists|k: int|
                            0 <= k < valid@.len() && valid@[k].day == d by {
                            if d == day as int {
                                assert(valid@[p as int].day == d);
                            } else {
                                let k = choose|k: int| 0 <= k < before.len() && before[k].day == d;
                                assert(valid@[k].day == d);
                            }
                        }
                    },
                    None => {
                        let n = valid.len();
                        valid.push(entry);
                        index.insert(day, n);
                        assert forall|a: int, b: int| 0 <= a < b < valid@.len() implies valid@[a].day != valid@[b].day by {
                            if b == n as int {
                                assert(m.contains_key(before[a].day as int));
                            } else {
                                assert(before[a].day != before[b].day);
                            }
                        }
                        assert forall|d: int| #[trigger] m2.contains_key(d) implies exists|k: int|
                            0 <= k < valid@.len() && valid@[k].day == d by {
                            if d == day as int {
                                assert(valid@[n as int].day == d);
                            } else {
                                let k = choose|k: int| 0 <= k < before.len() && before[k].day == d;
                                assert(valid@[k].day == d);
                            }
                        }
                    },
                }
                assert(valid_counts(fields@.take(i + 1)) == m2);
            },
            Err(reason) => {
                let ghost before = malformed@;
                malformed.push(MalformedField { key: fields[i].0.clone(), value: fields[i].1.clone(), reason });
                assert(malformed_views(malformed@) =~= malformed_views(before).push(
                    (fields@[i as int].0@, fields@[i as int].1@, reason@),
                ));
            },
        }
        i = i + 1;
    }
    assert(fields@.take(i as int) =~= fields@);
    (valid, malformed)
}

} // verus!
