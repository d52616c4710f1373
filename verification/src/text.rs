//! Small verified string utilities: decimal rendering of integers and
//! character-level predicates used by configuration and key handling.

use vstd::prelude::*;
use vstd::string::*;

verus! {

/// The character of a decimal digit `d` (0..=9).
pub open spec fn digit_char(d: nat) -> char {
    ((48 + d) as u32) as char
}

/// The shortest decimal rendering of `n`, most significant digit first.
pub open spec fn decimal(n: nat) -> Seq<char>
    decreases n,
{
    if n < 10 {
        seq![digit_char(n)]
    } else {
        decimal(n / 10).push(digit_char(n % 10))
    }
}

fn digit_str(d: u64) -> (s: &'static str)
    requires
        d < 10,
    ensures
        s@ == seq![digit_char(d as nat)],
{
    proof {
        reveal_strlit("0");
        reveal_strlit("1");
        reveal_strlit("2");
        reveal_strlit("3");
        reveal_strlit("4");
        reveal_strlit("5");
        reveal_strlit("6");
        reveal_strlit("7");
        reveal_strlit("8");
        reveal_strlit("9");
    }
    match d {
        0 => "0",
        1 => "1",
        2 => "2",
        3 => "3",
        4 => "4",
        5 => "5",
        6 => "6",
        7 => "7",
        8 => "8",
        _ => "9",
    }
}

/// Renders `n` in decimal, as `n.to_string()` does.
pub fn u64_to_decimal(n: u64) -> (s: String)
    ensures
        s@ == decimal(n as nat),
    decreases n,
{
    if n < 10 {
        String::from_str(digit_str(n))
    } else {
        let mut s = u64_to_decimal(n / 10);
        s.append(digit_str(n % 10));
        s
    }
}

} // verus!

verus! {

/// Whether `c` has the Unicode `White_Space` property, as `char::is_whitespace`
/// reports it.
pub open spec fn is_white_space(c: char) -> bool {
    let u = c as u32;
    ||| 0x09 <= u <= 0x0D
    ||| u == 0x20
    ||| u == 0x85
    ||| u == 0xA0
    ||| u == 0x1680
    ||| 0x2000 <= u <= 0x200A
    ||| u == 0x2028
    ||| u == 0x2029
    ||| u == 0x202F
    ||| u == 0x205F
    ||| u == 0x3000
}

/// Whether `s` is empty once leading and trailing white space is trimmed,
/// that is, whether every character of `s` is white space.
pub open spec fn is_blank(s: Seq<char>) -> bool {
    forall|i: int| 0 <= i < s.len() ==> is_white_space(#[trigger] s[i])
}

/// Decides `is_white_space` for one character.
pub fn char_is_white_space(c: char) -> (b: bool)
    ensures
        b == is_white_space(c),
{
    let u = c as u32;
    (0x09 <= u && u <= 0x0D) || u == 0x20 || u == 0x85 || u == 0xA0 || u == 0x1680 || (0x2000 <= u
        && u <= 0x200A) || u == 0x2028 || u == 0x2029 || u == 0x202F || u == 0x205F || u == 0x3000
}

/// Whether `s.trim().is_empty()`.
pub fn is_blank_str(s: &str) -> (b: bool)
    ensures
        b == is_blank(s@),
{
    let n = s.unicode_len();
    let mut i: usize = 0;
    while i < n
        invariant
            n == s@.len(),
            i <= n,
            forall|j: int| 0 <= j < i ==> is_white_space(#[trigger] s@[j]),
        decreases n - i,
    {
        let c = s.get_char(i);
        if !char_is_white_space(c) {
            return false;
        }
        i = i + 1;
    }
    true
}

} // verus!

verus! {

/// Whether two strings hold the same characters.
pub fn str_equal(a: &str, b: &str) -> (r: bool)
    ensures
        r == (a@ == b@),
{
    let n = a.unicode_len();
    let m = b.unicode_len();
    if n != m {
        return false;
    }
    let mut i: usize = 0;
    while i < n
        invariant
            n == a@.len(),
            m == b@.len(),
            n == m,
            i <= n,
            forall|j: int| 0 <= j < i ==> a@[j] == b@[j],
        decreases n - i,
    {
        if a.get_char(i) != b.get_char(i) {
            return false;
        }
        i = i + 1;
    }
    assert(a@ =~= b@);
    true
}

/// The views of a list of string slices.
pub open spec fn views(names: Seq<&str>) -> Seq<Seq<char>> {
    names.map_values(|s: &str| s@)
}

/// Whether `key` is one of `names`.
pub fn is_one_of(key: &str, names: &Vec<&str>) -> (r: bool)
    ensures
        r == views(names@).contains(key@),
{
    let mut i: usize = 0;
    while i < names.len()
        invariant
            i <= names.len(),
            forall|j: int| 0 <= j < i ==> names@[j]@ != key@,
        decreases names.len() - i,
    {
        if str_equal(names[i], key) {
            assert(views(names@)[i as int] == key@);
            return true;
        }
        i = i + 1;
    }
    assert forall|j: int| 0 <= j < views(names@).len() implies views(names@)[j] != key@ by {}
    false
}

/// Whether `s` begins with `prefix`.
pub open spec fn has_prefix(s: Seq<char>, prefix: Seq<char>) -> bool {
    prefix.len() <= s.len() && s.subrange(0, prefix.len() as int) == prefix
}

/// Whether `needle` occurs in `s` at position `i`.
pub open spec fn occurs_at(s: Seq<char>, needle: Seq<char>, i: int) -> bool {
    0 <= i && i + needle.len() <= s.len() && s.subrange(i, i + needle.len()) == needle
}

/// Whether `needle` occurs anywhere in `s`.
pub open spec fn contains_text(s: Seq<char>, needle: Seq<char>) -> bool {
    exists|i: int| occurs_at(s, needle, i)
}

/// Whether `needle` occurs in `s` at position `i`.
fn matches_at(s: &str, needle: &str, i: usize) -> (r: bool)
    requires
        i + needle@.len() <= s@.len(),
    ensures
        r == occurs_at(s@, needle@, i as int),
{
    let n = s.unicode_len();
    let m = needle.unicode_len();
    let mut j: usize = 0;
    while j < m
        invariant
            n == s@.len(),
            m == needle@.len(),
            i + m <= s@.len(),
            j <= m,
            forall|k: int| 0 <= k < j ==> s@[i + k] == needle@[k],
        decreases m - j,
    {
        if s.get_char(i + j) != needle.get_char(j) {
            assert(s@.subrange(i as int, i + m)[j as int] != needle@[j as int]);
            return false;
        }
        j = j + 1;
    }
    assert(s@.subrange(i as int, i + m) =~= needle@);
    true
}

/// Whether `s.starts_with(prefix)`.
pub fn starts_with(s: &str, prefix: &str) -> (r: bool)
    ensures
        r == has_prefix(s@, prefix@),
{
    if prefix.unicode_len() > s.unicode_len() {
        return false;
    }
    matches_at(s, prefix, 0)
}

/// Whether `s.contains(needle)`.
pub fn contains_str(s: &str, needle: &str) -> (r: bool)
    ensures
        r == contains_text(s@, needle@),
{
    let n = s.unicode_len();
    let m = needle.unicode_len();
    if m > n {
        assert forall|i: int| !occurs_at(s@, needle@, i) by {}
        return false;
    }
    if m == 0 {
        assert(s@.subrange(0, 0) =~= needle@);
        assert(occurs_at(s@, needle@, 0));
        return true;
    }
    let mut i: usize = 0;
    while i <= n - m
        invariant
            n == s@.len(),
            m == needle@.len(),
            0 < m <= n,
            i <= n - m + 1,
            forall|k: int| 0 <= k < i ==> !occurs_at(s@, needle@, k),
        decreases n + 1 - i,
    {
        if matches_at(s, needle, i) {
            return true;
        }
        i = i + 1;
    }
    assert forall|k: int| !occurs_at(s@, needle@, k) by {
        if 0 <= k && k < i {
        }
    }
    false
}

/// `s.strip_prefix(prefix)`: the rest of `s` when it begins with `prefix`.
pub fn strip_prefix(s: &str, prefix: &str) -> (r: Option<String>)
    ensures
        r is Some <==> has_prefix(s@, prefix@),
        r matches Some(rest) ==> prefix@ + rest@ == s@,
{
    if !starts_with(s, prefix) {
        return None;
    }
    let rest = s.substring_char(prefix.unicode_len(), s.unicode_len());
    assert(prefix@ + rest@ =~= s@);
    Some(String::from_str(rest))
}

} // verus!

verus! {

/// Whether `c` is an ASCII decimal digit.
pub open spec fn is_digit(c: char) -> bool {
    '0' <= c <= '9'
}

/// The value of a digit character.
pub open spec fn digit_value(c: char) -> int {
    c as int - '0' as int
}

/// The value of a string of decimal digits, most significant first.
pub open spec fn digits_value(s: Seq<char>) -> int
    decreases s.len(),
{
    if s.len() == 0 {
        0
    } else {
        digits_value(s.drop_last()) * 10 + digit_value(s.last())
    }
}

pub open spec fn all_digits(s: Seq<char>) -> bool {
    forall|i: int| 0 <= i < s.len() ==> is_digit(#[trigger] s[i])
}

/// What `str::parse::<i64>` accepts: an optional `+` or `-` sign followed by
/// one or more decimal digits, whose value fits in an `i64`.
pub open spec fn parse_i64_spec(s: Seq<char>) -> Option<int> {
    let negative = s.len() > 0 && s[0] == '-';
    let body = if s.len() > 0 && (s[0] == '-' || s[0] == '+') {
        s.drop_first()
    } else {
        s
    };
    let magnitude = digits_value(body);
    let value = if negative {
        -magnitude
    } else {
        magnitude
    };
    if body.len() > 0 && all_digits(body) && i64::MIN <= value <= i64::MAX {
        Some(value)
    } else {
        None
    }
}

proof fn lemma_digits_value_nonneg(s: Seq<char>)
    requires
        all_digits(s),
    ensures
        digits_value(s) >= 0,
    decreases s.len(),
{
    if s.len() > 0 {
        assert(all_digits(s.drop_last()));
        lemma_digits_value_nonneg(s.drop_last());
        assert(is_digit(s[s.len() - 1]));
    }
}

/// Parses a decimal integer as `str::parse::<i64>` does.
pub fn parse_i64(s: &str) -> (r: Option<i64>)
    ensures
        match parse_i64_spec(s@) {
            Some(v) => r == Some(v as i64),
            None => r is None,
        },
{
    let n = s.unicode_len();
    if n == 0 {
        return None;
    }
    let first = s.get_char(0);
    let negative = first == '-';
    let start: usize = if first == '-' || first == '+' {
        1
    } else {
        0
    };
    if start == n {
        return None;
    }
    let ghost body = s@.subrange(start as int, n as int);
    assert(body =~= if s@.len() > 0 && (s@[0] == '-' || s@[0] == '+') {
        s@.drop_first()
    } else {
        s@
    });
    let limit: i128 = 9_223_372_036_854_775_808;
    let mut acc: i128 = 0;
    let mut i: usize = start;
    while i < n
        invariant
            n == s@.len(),
            start <= i <= n,
            body == s@.subrange(start as int, n as int),
            body == if s@.len() > 0 && (s@[0] == '-' || s@[0] == '+') {
                s@.drop_first()
            } else {
                s@
            },
            negative == (s@.len() > 0 && s@[0] == '-'),
            start < n,
            all_digits(body.subrange(0, i - start)),
            acc == digits_value(body.subrange(0, i - start)),
            0 <= acc <= limit,
            limit == 9_223_372_036_854_775_808,
        decreases n - i,
    {
        let c = s.get_char(i);
        if !('0' <= c && c <= '9') {
            assert(!is_digit(body[i - start]));
            return None;
        }
        let ghost prefix = body.subrange(0, i - start);
        let ghost next = body.subrange(0, i - start + 1);
        assert(next.drop_last() =~= prefix);
        assert(next.last() == c);
        acc = acc * 10 + (c as u32 - '0' as u32) as i128;
        if acc > limit {
            proof {
                assert(all_digits(next));
                lemma_digits_value_monotone(body, (i - start + 1) as int);
            }
            return None;
        }
        i = i + 1;
    }
    assert(body.subrange(0, n - start) =~= body);
    if negative {
        Some((0 - acc) as i64)
    } else {
        if acc == limit {
            return None;
        }
        Some(acc as i64)
    }
}

/// Extending a string of digits never lowers its value.
proof fn lemma_digits_value_monotone(s: Seq<char>, k: int)
    requires
        0 <= k <= s.len(),
        all_digits(s.subrange(0, k)),
        all_digits(s) ==> true,
    ensures
        all_digits(s) ==> digits_value(s.subrange(0, k)) <= digits_value(s),
    decreases s.len() - k,
{
    if all_digits(s) && k < s.len() {
        assert(all_digits(s.subrange(0, k + 1)));
        lemma_digits_value_monotone(s, k + 1);
        let t = s.subrange(0, k + 1);
        assert(t.drop_last() =~= s.subrange(0, k));
        lemma_digits_value_nonneg(s.subrange(0, k));
        assert(is_digit(t.last()));
    }
    if all_digits(s) && k == s.len() {
        assert(s.subrange(0, k) =~= s);
    }
}

/// The decimal rendering of a signed integer, with a leading `-` when negative.
pub open spec fn signed_decimal(v: int) -> Seq<char> {
    if v < 0 {
        seq!['-'] + decimal((-v) as nat)
    } else {
        decimal(v as nat)
    }
}

/// Renders `v` in decimal, as `v.to_string()` does.
pub fn i64_to_decimal(v: i64) -> (s: String)
    ensures
        s@ == signed_decimal(v as int),
{
    if v < 0 {
        let magnitude: u64 = if v == i64::MIN {
            9_223_372_036_854_775_808
        } else {
            (-v) as u64
        };
        let mut s = String::from_str("-");
        let digits = u64_to_decimal(magnitude);
        s.append(digits.as_str());
        proof {
            reveal_strlit("-");
        }
        assert(s@ =~= signed_decimal(v as int));
        s
    } else {
        u64_to_decimal(v as u64)
    }
}

} // verus!

verus! {

/// The decimal rendering of `n` consists of digits whose value is `n`.
pub proof fn lemma_decimal_value(n: nat)
    ensures
        all_digits(decimal(n)),
        digits_value(decimal(n)) == n,
        decimal(n).len() > 0,
    decreases n,
{
    let c = digit_char(n % 10);
    assert(c as int == 48 + n % 10);
    if n < 10 {
        let s = decimal(n);
        assert(s.drop_last() =~= Seq::<char>::empty());
        assert(s.last() == c);
        assert(digits_value(s) == digits_value(s.drop_last()) * 10 + digit_value(s.last()));
    } else {
        lemma_decimal_value(n / 10);
        let s = decimal(n);
        assert(s.drop_last() =~= decimal(n / 10));
        assert(s.last() == c);
        assert(digits_value(s) == digits_value(s.drop_last()) * 10 + digit_value(s.last()));
        assert((n / 10) * 10 + n % 10 == n);
        assert forall|i: int| 0 <= i < s.len() implies is_digit(#[trigger] s[i]) by {
            if i < s.len() - 1 {
                assert(s[i] == decimal(n / 10)[i]);
            }
        }
    }
}

/// Distinct integers have distinct signed decimal renderings, and none of
/// them holds a colon.
pub proof fn lemma_signed_decimal_injective(a: int, b: int)
    ensures
        signed_decimal(a) == signed_decimal(b) ==> a == b,
        !signed_decimal(a).contains(':'),
        signed_decimal(a).len() > 0,
{
    lemma_decimal_value(if a < 0 { (-a) as nat } else { a as nat });
    lemma_decimal_value(if b < 0 { (-b) as nat } else { b as nat });
    let sa = signed_decimal(a);
    let sb = signed_decimal(b);
    if a < 0 {
        assert(sa.drop_first() =~= decimal((-a) as nat));
    }
    if b < 0 {
        assert(sb.drop_first() =~= decimal((-b) as nat));
    }
    if sa == sb {
        if a < 0 && b >= 0 {
            assert(sa[0] == '-');
            assert(is_digit(decimal(b as nat)[0]));
        } else if a >= 0 && b < 0 {
            assert(sb[0] == '-');
            assert(is_digit(decimal(a as nat)[0]));
        }
    }
    assert forall|i: int| 0 <= i < sa.len() implies sa[i] != ':' by {
        if a < 0 {
            if i > 0 {
                assert(sa[i] == decimal((-a) as nat)[i - 1]);
                assert(is_digit(decimal((-a) as nat)[i - 1]));
            }
        } else {
            assert(is_digit(decimal(a as nat)[i]));
        }
    }
}

/// Joining two strings with a colon is reversible when the first holds no
/// colon.
pub proof fn lemma_colon_join_injective(a: Seq<char>, b: Seq<char>, c: Seq<char>, d: Seq<char>)
    requires
        !a.contains(':'),
        !c.contains(':'),
        a + seq![':'] + b == c + seq![':'] + d,
    ensures
        a == c,
        b == d,
{
    let l = a + seq![':'] + b;
    let r = c + seq![':'] + d;
    if a.len() < c.len() {
        assert(l[a.len() as int] == ':');
        assert(r[a.len() as int] == c[a.len() as int]);
        assert(c.contains(c[a.len() as int]));
    } else if c.len() < a.len() {
        assert(r[c.len() as int] == ':');
        assert(l[c.len() as int] == a[c.len() as int]);
        assert(a.contains(a[c.len() as int]));
    } else {
        assert(a =~= l.subrange(0, a.len() as int));
        assert(c =~= r.subrange(0, c.len() as int));
        assert(b =~= l.subrange(a.len() as int + 1, l.len() as int));
        assert(d =~= r.subrange(c.len() as int + 1, r.len() as int));
    }
}

/// What `i64::to_string` writes, `str::parse::<i64>` reads back: a count
/// written to Redis in decimal is read back unchanged.
pub proof fn decimal_round_trip(v: int)
    requires
        i64::MIN <= v <= i64::MAX,
    ensures
        parse_i64_spec(signed_decimal(v)) == Some(v),
{
    let s = signed_decimal(v);
    if v < 0 {
        lemma_decimal_value((-v) as nat);
        let d = decimal((-v) as nat);
        assert(s.drop_first() =~= d);
        assert(s[0] == '-');
    } else {
        lemma_decimal_value(v as nat);
        assert(is_digit(s[0]));
    }
}

} // verus!
