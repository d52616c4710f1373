//! Short codes: random alphanumeric strings, and the search for one that no
//! link uses yet.

use vstd::prelude::*;
use vstd::string::*;

use crate::db::DbError;

verus! {

/// The number of random codes tried before giving up.
pub const SHORT_CODE_RETRIES: usize = 10;

/// The length of a generated short code.
pub const SHORT_CODE_LEN: usize = 6;

/// An ASCII letter or digit.
pub open spec fn is_alphanumeric(c: char) -> bool {
    ('A' <= c && c <= 'Z') || ('a' <= c && c <= 'z') || ('0' <= c && c <= '9')
}

#[verifier::external_type_specification]
#[verifier::external_body]
pub struct ExtStdRng(rand::rngs::StdRng);

/// `StdRng::try_from_rng(&mut SysRng)`: a generator seeded from the
/// operating system's random source, or `None` when that source fails.
/// Which of the two comes out is the system's, and not stated.
#[verifier::external_body]
fn seeded_rng() -> Option<rand::rngs::StdRng> {
    <rand::rngs::StdRng as rand::SeedableRng>::try_from_rng(&mut rand::rngs::SysRng).ok()
}

/// One character drawn by `rng.sample(Alphanumeric)`, as a string. `rand`
/// draws it uniformly from the 62 ASCII letters and digits; which one comes
/// out is left open here, and so is the generator's new state.
#[verifier::external_body]
fn random_alphanumeric(rng: &mut rand::rngs::StdRng) -> (s: String)
    ensures
        s@.len() == 1,
        is_alphanumeric(s@[0]),
{
    let b: u8 = rand::RngExt::sample(rng, rand::distr::Alphanumeric);
    (b as char).to_string()
}

/// A random string of `len` ASCII letters and digits, or `None` when the
/// operating system's random source cannot seed a generator.
pub fn random_string(len: usize) -> (r: Option<String>)
    ensures
        r matches Some(s) ==> s@.len() == len && forall|i: int| 0 <= i < len ==> is_alphanumeric(#[trigger] s@[i]),
{
    let mut rng = match seeded_rng() {
        Some(g) => g,
        None => return None,
    };
    let mut s = String::new();
    let mut i: usize = 0;
    while i < len
        invariant
            i <= len,
            s@.len() == i,
            forall|k: int| 0 <= k < i ==> is_alphanumeric(#[trigger] s@[k]),
        decreases len - i,
    {
        let c = random_alphanumeric(&mut rng);
        let ghost before = s@;
        s.append(c.as_str());
        assert(s@[i as int] == c@[0]);
        assert forall|k: int| 0 <= k < i + 1 implies is_alphanumeric(#[trigger] s@[k]) by {
            if k < i {
                assert(s@[k] == before[k]);
            }
        }
        i = i + 1;
    }
    Some(s)
}

/// The search for an unused short code: at most `SHORT_CODE_RETRIES` random
/// candidates, each checked against the links that exist.
pub struct ShortCodeSearch {
    tries: usize,
}

impl ShortCodeSearch {
    /// The number of candidates handed out so far.
    pub closed spec fn tried(self) -> nat {
        self.tries as nat
    }

    pub fn new() -> (s: Self)
        ensures
            s.tried() == 0,
    {
        ShortCodeSearch { tries: 0 }
    }

    /// The next candidate: a random code of `SHORT_CODE_LEN` letters and
    /// digits, or `None` once `SHORT_CODE_RETRIES` candidates were tried or
    /// when no random code can be drawn, which ends the search.
    pub fn next_candidate(&mut self) -> (code: Option<String>)
        requires
            old(self).tried() <= SHORT_CODE_RETRIES,
        ensures
            final(self).tried() <= SHORT_CODE_RETRIES,
            old(self).tried() < SHORT_CODE_RETRIES ==> match code {
                Some(c) => {
                    &&& c@.len() == SHORT_CODE_LEN
                    &&& forall|i: int| 0 <= i < SHORT_CODE_LEN ==> is_alphanumeric(#[trigger] c@[i])
                    &&& final(self).tried() == old(self).tried() + 1
                },
                None => final(self).tried() == SHORT_CODE_RETRIES,
            },
            old(self).tried() == SHORT_CODE_RETRIES ==> code is None && final(self).tried() == old(self).tried(),
    {
        if self.tries >= SHORT_CODE_RETRIES {
            return None;
        }
        match random_string(SHORT_CODE_LEN) {
            Some(c) => {
                self.tries = self.tries + 1;
                Some(c)
            },
            None => {
                self.tries = SHORT_CODE_RETRIES;
                None
            },
        }
    }

    /// Whether a candidate may be used, given the check whether a link
    /// with it exists: only when the check succeeded and found none.
    pub fn accepts(check: &Result<bool, DbError>) -> (b: bool)
        ensures
            b == (check matches Ok(found) && !*found),
    {
        match check {
            Ok(found) => !*found,
            Err(_) => false,
        }
    }
}

} // verus!
