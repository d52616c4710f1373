//! The first form of the snapshot: each link hash under the analytics keys
//! is split into the fields that fell out of the window and the buckets
//! copied into Postgres.

use vstd::prelude::*;
use vstd::string::*;

use crate::analytics::dates::{chrono_parse_date, parse_date};
use crate::analytics::redis_keys::{link_key_spec, RedisKeys};
use crate::analytics::snapshot::{LinkDailyStats, DAY_FORMAT};
use crate::text::{has_prefix, parse_i64, parse_i64_spec, strip_prefix};

verus! {

/// A field of a link hash that could not be read.
#[derive(Debug)]
pub enum TrimError {
    /// The field's name is not a day.
    InvalidDate { field: String },
    /// The field's value is not an integer.
    InvalidCount { field: String, value: String },
}

/// Reads the first `n` fields of a link hash against `cutoff`: the names of
/// the fields before the cutoff, and the (day, count) of the others, in
/// order; or, at the first field that cannot be read, its index and whether
/// its name was the fault.
pub open spec fn split_fields(fields: Seq<(String, String)>, cutoff: int, n: int) -> Result<
    (Seq<Seq<char>>, Seq<(int, int)>),
    (int, bool),
>
    decreases n,
{
    if n <= 0 {
        Ok((Seq::empty(), Seq::empty()))
    } else {
        match split_fields(fields, cutoff, n - 1) {
            Err(e) => Err(e),
            Ok((stale, kept)) => match chrono_parse_date(fields[n - 1].0@, DAY_FORMAT@) {
                None => Err((n - 1, true)),
                Some(day) => match parse_i64_spec(fields[n - 1].1@) {
                    None => Err((n - 1, false)),
                    Some(count) => if day < cutoff {
                        Ok((stale.push(fields[n - 1].0@), kept))
                    } else {
                        Ok((stale, kept.push((day as int, count))))
                    },
                },
            },
        }
    }
}

proof fn lemma_split_error_stays(fields: Seq<(String, String)>, cutoff: int, k: int, m: int)
    requires
        k <= m,
        split_fields(fields, cutoff, k) is Err,
    ensures
        split_fields(fields, cutoff, m) == split_fields(fields, cutoff, k),
    decreases m - k,
{
    if k < m {
        lemma_split_error_stays(fields, cutoff, k, m - 1);
    }
}

/// A field is stale exactly when its day lies strictly before the cutoff:
/// once the first `n` fields are read, every field whose day is before
/// `cutoff` has its name listed stale, every other field has its (day,
/// count) kept, every name listed stale is that of a field before the
/// cutoff, and every bucket kept lies on or after it.
pub proof fn split_places_fields_by_day(fields: Seq<(String, String)>, cutoff: int, n: int)
    requires
        0 <= n <= fields.len(),
    ensures
        match split_fields(fields, cutoff, n) {
            Err(_) => true,
            Ok((stale, kept)) => {
            &&& forall|j: int|
                0 <= j < n ==> match chrono_parse_date(#[trigger] fields[j].0@, DAY_FORMAT@) {
                    Some(d) => if d < cutoff {
                        stale.contains(fields[j].0@)
                    } else {
                        exists|c: int| parse_i64_spec(fields[j].1@) == Some(c) && kept.contains((d as int, c))
                    },
                    None => false,
                }
            &&& forall|k: int|
                0 <= k < stale.len() ==> exists|j: int|
                    0 <= j < n && fields[j].0@ == #[trigger] stale[k] && (chrono_parse_date(fields[j].0@, DAY_FORMAT@) matches Some(
                        d,
                    ) && d < cutoff)
            &&& forall|k: int| 0 <= k < kept.len() ==> (#[trigger] kept[k]).0 >= cutoff
            },
        },
    decreases n,
{
    if n > 0 {
        split_places_fields_by_day(fields, cutoff, n - 1);
        match split_fields(fields, cutoff, n - 1) {
            Err(_) => {},
            Ok((st, kp)) => {
                let last = n - 1;
                match chrono_parse_date(fields[last].0@, DAY_FORMAT@) {
                    None => {},
                    Some(day) => match parse_i64_spec(fields[last].1@) {
                        None => {},
                        Some(count) => {
                            let (stale, kept) = if day < cutoff {
                                (st.push(fields[last].0@), kp)
                            } else {
                                (st, kp.push((day as int, count)))
                            };
                            assert(split_fields(fields, cutoff, n) == Ok::<(Seq<Seq<char>>, Seq<(int, int)>), (int, bool)>(
                                (stale, kept),
                            ));
                            assert forall|j: int|
                                0 <= j < n implies match chrono_parse_date(#[trigger] fields[j].0@, DAY_FORMAT@) {
                                Some(d) => if d < cutoff {
                                    stale.contains(fields[j].0@)
                                } else {
                                    exists|c: int| parse_i64_spec(fields[j].1@) == Some(c) && kept.contains((d as int, c))
                                },
                                None => false,
                            } by {
                                if j < last {
                                    let d = chrono_parse_date(fields[j].0@, DAY_FORMAT@).unwrap();
                                    if d < cutoff {
                                        let k = choose|k: int| 0 <= k < st.len() && st[k] == fields[j].0@;
                                        assert(stale[k] == st[k]);
                                        assert(stale.contains(fields[j].0@));
                                    } else {
                                        let c = choose|c: int| parse_i64_spec(fields[j].1@) == Some(c) && kp.contains((d as int, c));
                                        let k = choose|k: int| 0 <= k < kp.len() && kp[k] == (d as int, c);
                                        assert(kept[k] == kp[k]);
                                        assert(kept.contains((d as int, c)));
                                    }
                                } else {
                                    assert(j == last);
                                    if day < cutoff {
                                        assert(stale[stale.len() - 1] == fields[j].0@);
                                        assert(stale.contains(fields[j].0@));
                                    } else {
                                        assert(kept[kept.len() - 1] == (day as int, count));
                                        assert(kept.contains((day as int, count)));
                                    }
                                }
                            }
                            assert forall|k: int| 0 <= k < stale.len() implies exists|j: int|
                                0 <= j < n && fields[j].0@ == #[trigger] stale[k] && (chrono_parse_date(
                                    fields[j].0@,
                                    DAY_FORMAT@,
                                ) matches Some(d) && d < cutoff) by {
                                if k < st.len() {
                                    assert(stale[k] == st[k]);
                                    let j = choose|j: int|
                                        0 <= j < n - 1 && fields[j].0@ == #[trigger] st[k] && (chrono_parse_date(
                                            fields[j].0@,
                                            DAY_FORMAT@,
                                        ) matches Some(d) && d < cutoff);
                                } else {
                                    assert(fields[last].0@ == stale[k]);
                                }
                            }
                            assert forall|k: int| 0 <= k < kept.len() implies (#[trigger] kept[k]).0 >= cutoff by {
                                if k < kp.len() {
                                    assert(kept[k] == kp[k]);
                                    assert(kp[k].0 >= cutoff);
                                } else {
                                    assert(!(day < cutoff));
                                    assert(kept[k] == (day as int, count));
                                }
                            }
                        },
                    },
                }
            },
        }
    }
}

pub open spec fn string_seq_views(v: Seq<String>) -> Seq<Seq<char>> {
    v.map_values(|s: String| s@)
}

/// The (day, count) of each bucket, all of link `code`.
pub open spec fn buckets_of(v: Seq<LinkDailyStats>, code: Seq<char>) -> bool {
    forall|i: int| 0 <= i < v.len() ==> (#[trigger] v[i]).short_code@ == code
}

pub open spec fn day_counts(v: Seq<LinkDailyStats>) -> Seq<(int, int)> {
    v.map_values(|b: LinkDailyStats| (b.day as int, b.clicks as int))
}

/// `e` reports field `f` as unreadable, by its name when `date_failed`.
pub open spec fn reports_field(e: TrimError, f: (String, String), date_failed: bool) -> bool {
    if date_failed {
        e matches TrimError::InvalidDate { field } && field@ == f.0@
    } else {
        e matches TrimError::InvalidCount { field, value } && field@ == f.0@ && value@ == f.1@
    }
}

/// The link of the stats hash `key` (under the analytics keys `stats:`).
pub open spec fn trimmed_code(key: Seq<char>) -> Seq<char> {
    key.subrange(link_key_spec(Seq::empty()).len() as int, key.len() as int)
}

/// Splits the hash `key`, with its `fields`, into the names of the fields
/// whose day lies before `cutoff` and the buckets of the link kept; the
/// first field whose name is not a day or whose value is not an integer
/// fails the whole hash.
pub fn split_link_hash(key: &str, fields: &Vec<(String, String)>, cutoff: i64) -> (r: Result<
    (Vec<String>, Vec<LinkDailyStats>),
    TrimError,
>)
    requires
        has_prefix(key@, link_key_spec(Seq::empty())),
    ensures
        match split_fields(fields@, cutoff as int, fields@.len() as int) {
            Ok((stale, kept)) => r matches Ok((s, b)) && string_seq_views(s@) == stale && buckets_of(b@, trimmed_code(key@))
                && day_counts(b@) == kept,
            Err(bad) => r is Err && reports_field(r->Err_0, fields@[bad.0], bad.1),
        },
{
    let prefix = RedisKeys::link_key("");
    proof {
        reveal_strlit("");
        assert(link_key_spec(Seq::empty()) =~= link_key_spec(""@));
    }
    let code = match strip_prefix(key, prefix.as_str()) {
        Some(c) => c,
        None => {
            assert(false);
            String::new()
        },
    };
    assert(code@ =~= trimmed_code(key@));
    let mut stale: Vec<String> = Vec::new();
    let mut kept: Vec<LinkDailyStats> = Vec::new();
    assert(string_seq_views(stale@) =~= Seq::empty());
    assert(day_counts(kept@) =~= Seq::empty());
    let mut i: usize = 0;
    while i < fields.len()
        invariant
            i <= fields@.len(),
            code@ == trimmed_code(key@),
            buckets_of(kept@, code@),
            split_fields(fields@, cutoff as int, i as int) == Ok::<(Seq<Seq<char>>, Seq<(int, int)>), (int, bool)>(
                (string_seq_views(stale@), day_counts(kept@)),
            ),
        decreases fields@.len() - i,
    {
        let day = match parse_date(fields[i].0.as_str(), DAY_FORMAT) {
            Some(d) => d,
            None => {
                assert(split_fields(fields@, cutoff as int, i + 1) == Err::<(Seq<Seq<char>>, Seq<(int, int)>), (int, bool)>(
                    (i as int, true),
                ));
                proof {
                    lemma_split_error_stays(fields@, cutoff as int, i + 1, fields@.len() as int);
                }
                return Err(TrimError::InvalidDate { field: fields[i].0.clone() });
            },
        };
        let count = match parse_i64(fields[i].1.as_str()) {
            Some(c) => c,
            None => {
                assert(split_fields(fields@, cutoff as int, i + 1) == Err::<(Seq<Seq<char>>, Seq<(int, int)>), (int, bool)>(
                    (i as int, false),
                ));
                proof {
                    lemma_split_error_stays(fields@, cutoff as int, i + 1, fields@.len() as int);
                }
                return Err(TrimError::InvalidCount { field: fields[i].0.clone(), value: fields[i].1.clone() });
            },
        };
        if (day as i64) < cutoff {
            let ghost before = stale@;
            stale.push(fields[i].0.clone());
            assert(string_seq_views(stale@) =~= string_seq_views(before).push(fields@[i as int].0@));
        } else {
            let ghost before = kept@;
            kept.push(LinkDailyStats { short_code: code.clone(), day, clicks: count });
            assert(day_counts(kept@) =~= day_counts(before).push((day as int, count as int)));
            assert forall|k: int| 0 <= k < kept@.len() implies (#[trigger] kept@[k]).short_code@ == code@ by {
                if k < before.len() {
                    assert(kept@[k] == before[k]);
                }
            }
        }
        i = i + 1;
    }
    Ok((stale, kept))
}

} // verus!
