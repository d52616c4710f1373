//! The layout of keys in Redis shared by the services.

use vstd::prelude::*;
use vstd::string::*;

verus! {

pub struct RedisKeys {}

/// `"stats:" + stat`.
pub open spec fn stats_key_spec(stat: Seq<char>) -> Seq<char> {
    "stats"@ + ":"@ + stat
}

/// The hash of global day-buckets: `"stats:global"`.
pub open spec fn global_stats_key_spec() -> Seq<char> {
    "stats"@ + ":global"@
}

/// The hash of a link's day-buckets: `"stats:link:" + short_code`.
pub open spec fn link_stats_key_spec(short_code: Seq<char>) -> Seq<char> {
    "stats"@ + ":link:"@ + short_code
}

/// A link's cached target: `"cache:" + short_code`.
pub open spec fn link_cache_key_spec(short_code: Seq<char>) -> Seq<char> {
    "cache"@ + ":"@ + short_code
}

/// A link's last click time: `"stats:last_clicked_at:" + short_code`.
pub open spec fn link_last_clicked_at_key_spec(short_code: Seq<char>) -> Seq<char> {
    "stats"@ + ":last_clicked_at:"@ + short_code
}

fn concat2(a: &str, b: &str) -> (s: String)
    ensures
        s@ == a@ + b@,
{
    let mut s = String::from_str(a);
    s.append(b);
    s
}

fn concat3(a: &str, b: &str, c: &str) -> (s: String)
    ensures
        s@ == a@ + b@ + c@,
{
    let mut s = String::from_str(a);
    s.append(b);
    s.append(c);
    s
}

impl RedisKeys {
    pub const CACHE: &'static str = "cache";

    pub const STATS: &'static str = "stats";

    pub fn stats_key(stat: &str) -> (k: String)
        ensures
            k@ == stats_key_spec(stat@),
    {
        concat3(Self::STATS, ":", stat)
    }

    pub fn global_stats_key() -> (k: String)
        ensures
            k@ == global_stats_key_spec(),
    {
        concat2(Self::STATS, ":global")
    }

    pub fn link_stats_key(short_code: &str) -> (k: String)
        ensures
            k@ == link_stats_key_spec(short_code@),
    {
        concat3(Self::STATS, ":link:", short_code)
    }

    pub fn link_cache_key(short_code: &str) -> (k: String)
        ensures
            k@ == link_cache_key_spec(short_code@),
    {
        concat3(Self::CACHE, ":", short_code)
    }

    pub fn link_last_clicked_at_key(short_code: &str) -> (k: String)
        ensures
            k@ == link_last_clicked_at_key_spec(short_code@),
    {
        concat3(Self::STATS, ":last_clicked_at:", short_code)
    }
}

/// Every link's stats key begins with the stats key of the empty code, and
/// what follows that prefix is the code: stripping the prefix recovers it.
pub proof fn link_stats_key_prefix(short_code: Seq<char>)
    ensures
        crate::text::has_prefix(link_stats_key_spec(short_code), link_stats_key_spec(Seq::empty())),
        link_stats_key_spec(Seq::empty()) + short_code == link_stats_key_spec(short_code),
{
    let p = link_stats_key_spec(Seq::empty());
    let k = link_stats_key_spec(short_code);
    assert(p =~= "stats"@ + ":link:"@);
    assert(k =~= p + short_code);
    assert(k.subrange(0, p.len() as int) =~= p);
}

/// Distinct links have distinct stats keys, cache keys and last-click keys.
pub proof fn link_keys_injective(a: Seq<char>, b: Seq<char>)
    ensures
        link_stats_key_spec(a) == link_stats_key_spec(b) ==> a == b,
        link_cache_key_spec(a) == link_cache_key_spec(b) ==> a == b,
        link_last_clicked_at_key_spec(a) == link_last_clicked_at_key_spec(b) ==> a == b,
{
    let p1 = "stats"@ + ":link:"@;
    let p2 = "cache"@ + ":"@;
    let p3 = "stats"@ + ":last_clicked_at:"@;
    if link_stats_key_spec(a) == link_stats_key_spec(b) {
        assert((p1 + a).subrange(p1.len() as int, (p1 + a).len() as int) =~= a);
        assert((p1 + b).subrange(p1.len() as int, (p1 + b).len() as int) =~= b);
    }
    if link_cache_key_spec(a) == link_cache_key_spec(b) {
        assert((p2 + a).subrange(p2.len() as int, (p2 + a).len() as int) =~= a);
        assert((p2 + b).subrange(p2.len() as int, (p2 + b).len() as int) =~= b);
    }
    if link_last_clicked_at_key_spec(a) == link_last_clicked_at_key_spec(b) {
        assert((p3 + a).subrange(p3.len() as int, (p3 + a).len() as int) =~= a);
        assert((p3 + b).subrange(p3.len() as int, (p3 + b).len() as int) =~= b);
    }
}

} // verus!
