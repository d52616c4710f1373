//! The keys under which the analytics service first kept its day-buckets.

use vstd::prelude::*;
use vstd::string::*;

verus! {

pub struct RedisKeys {}

/// `"stats_global"`.
pub open spec fn global_key_spec() -> Seq<char> {
    "stats"@ + "_global"@
}

/// `"stats:" + short_code`.
pub open spec fn link_key_spec(short_code: Seq<char>) -> Seq<char> {
    "stats"@ + ":"@ + short_code
}

impl RedisKeys {
    pub const STATS: &'static str = "stats";

    pub fn global_key() -> (k: String)
        ensures
            k@ == global_key_spec(),
    {
        let mut k = String::from_str(Self::STATS);
        k.append("_global");
        k
    }

    pub fn link_key(short_code: &str) -> (k: String)
        ensures
            k@ == link_key_spec(short_code@),
    {
        let mut k = String::from_str(Self::STATS);
        k.append(":");
        k.append(short_code);
        k
    }
}

} // verus!
