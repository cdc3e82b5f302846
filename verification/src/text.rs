//! Character-level helpers on strings.

use vstd::prelude::*;

verus! {

/// The characters of a string, in order.
pub fn chars_of(s: &str) -> (r: Vec<char>)
    ensures
        r@ == s@,
{
    let n = s.unicode_len();
    let mut r: Vec<char> = Vec::new();
    let mut i: usize = 0;
    while i < n
        invariant
            n == s@.len(),
            i <= n,
            r@ == s@.take(i as int),
        decreases n - i,
    {
        let c = s.get_char(i);
        r.push(c);
        assert(r@ =~= s@.take(i + 1));
        i = i + 1;
    }
    assert(r@ =~= s@);
    r
}

/// The decimal digit for `d`, which is below ten.
pub open spec fn digit_char(d: nat) -> char {
    seq!['0', '1', '2', '3', '4', '5', '6', '7', '8', '9'][d as int]
}

/// The decimal notation of a natural number, without leading zeros.
pub open spec fn decimal(n: nat) -> Seq<char>
    decreases n,
{
    if n < 10 {
        seq![digit_char(n)]
    } else {
        decimal(n / 10).push(digit_char(n % 10))
    }
}

fn digit_string(d: usize) -> (r: String)
    requires
        d < 10,
    ensures
        r@ == seq![digit_char(d as nat)],
{
    let digits = "0123456789";
    proof {
        reveal_strlit("0123456789");
    }
    let one = digits.substring_char(d, d + 1);
    assert(one@ =~= seq![digit_char(d as nat)]);
    one.to_owned()
}

/// The decimal notation of `n`, as `n.to_string()` writes it.
pub fn decimal_string(n: usize) -> (r: String)
    ensures
        r@ == decimal(n as nat),
    decreases n,
{
    if n < 10 {
        digit_string(n)
    } else {
        let mut r = decimal_string(n / 10);
        let last = digit_string(n % 10);
        r.append(last.as_str());
        assert(r@ =~= decimal(n as nat));
        r
    }
}

/// Whether `needle` occurs as a contiguous part of `hay`.
pub open spec fn occurs_in(needle: Seq<char>, hay: Seq<char>) -> bool {
    exists|i: int| 0 <= i && i + needle.len() <= hay.len() && #[trigger] hay.subrange(i, i + needle.len()) == needle
}

/// Whether `hay[at..]` begins with `needle[lo..hi]`.
fn matches_at(hay: &Vec<char>, at: usize, needle: &Vec<char>, lo: usize, hi: usize) -> (r: bool)
    requires
        lo <= hi <= needle@.len(),
        at + (hi - lo) <= hay@.len(),
    ensures
        r == (hay@.subrange(at as int, at + (hi - lo)) == needle@.subrange(lo as int, hi as int)),
{
    let mut k: usize = 0;
    while k < hi - lo
        invariant
            lo <= hi <= needle@.len(),
            at + (hi - lo) <= hay.len(),
            k <= hi - lo,
            hay@.subrange(at as int, at + k) == needle@.subrange(lo as int, lo + k),
        decreases hi - lo - k,
    {
        if hay[at + k] != needle[lo + k] {
            assert(hay@.subrange(at as int, at + (hi - lo))[k as int] != needle@.subrange(
                lo as int,
                hi as int,
            )[k as int]);
            return false;
        }
        assert(hay@.subrange(at as int, at + k + 1) =~= hay@.subrange(at as int, at + k).push(hay@[at + k]));
        assert(needle@.subrange(lo as int, lo + k + 1) =~= needle@.subrange(lo as int, lo + k).push(needle@[lo + k]));
        k = k + 1;
    }
    true
}

/// Whether `needle[lo..hi]` occurs in `hay`, as `str::contains` decides it.
pub fn contains_part(hay: &Vec<char>, needle: &Vec<char>, lo: usize, hi: usize) -> (r: bool)
    requires
        lo <= hi <= needle@.len(),
    ensures
        r == occurs_in(needle@.subrange(lo as int, hi as int), hay@),
{
    let ghost part = needle@.subrange(lo as int, hi as int);
    let m = hi - lo;
    if m > hay.len() {
        assert(!occurs_in(part, hay@));
        return false;
    }
    let mut at: usize = 0;
    if m == 0 {
        assert(hay@.subrange(0int, 0int + part.len()) =~= part);
        return true;
    }
    let last = hay.len() - m;
    while at <= last
        invariant
            last == hay@.len() - m,
            last < hay.len(),
            m > 0,
            lo <= hi <= needle@.len(),
            m == hi - lo,
            part == needle@.subrange(lo as int, hi as int),
            part.len() == m,
            m <= hay@.len(),
            at <= last + 1,
            forall|i: int| 0 <= i < at ==> #[trigger] hay@.subrange(i, i + m) != part,
        decreases last + 1 - at,
    {
        if matches_at(hay, at, needle, lo, hi) {
            assert(hay@.subrange(at as int, at + part.len()) == part);
            return true;
        }
        at = at + 1;
    }
    assert forall|i: int| 0 <= i && i + part.len() <= hay@.len() implies #[trigger] hay@.subrange(
        i,
        i + part.len(),
    ) != part by {
        assert(i < at);
    }
    false
}

/// The number of leading `*` characters.
pub open spec fn leading_stars(s: Seq<char>) -> nat
    decreases s.len(),
{
    if s.len() > 0 && s[0] == '*' {
        1 + leading_stars(s.drop_first())
    } else {
        0
    }
}

/// The number of trailing `*` characters.
pub open spec fn trailing_stars(s: Seq<char>) -> nat
    decreases s.len(),
{
    if s.len() > 0 && s.last() == '*' {
        1 + trailing_stars(s.drop_last())
    } else {
        0
    }
}

/// `s` with every leading and then every trailing `*` removed, as `trim_matches('*')` gives it.
pub open spec fn trim_stars(s: Seq<char>) -> Seq<char> {
    let rest = s.skip(leading_stars(s) as int);
    rest.take(rest.len() - trailing_stars(rest))
}

proof fn lemma_leading_stars_exact(s: Seq<char>, k: nat)
    requires
        k <= s.len(),
        forall|j: int| 0 <= j < k ==> s[j] == '*',
        k < s.len() ==> s[k as int] != '*',
    ensures
        leading_stars(s) == k,
    decreases s.len(),
{
    if k > 0 {
        lemma_leading_stars_exact(s.drop_first(), (k - 1) as nat);
    }
}

proof fn lemma_trailing_stars_exact(s: Seq<char>, k: nat)
    requires
        k <= s.len(),
        forall|j: int| s.len() - k <= j < s.len() ==> s[j] == '*',
        k < s.len() ==> s[s.len() - 1 - k] != '*',
    ensures
        trailing_stars(s) == k,
    decreases s.len(),
{
    if k > 0 {
        assert forall|j: int| s.drop_last().len() - (k - 1) <= j < s.drop_last().len() implies s.drop_last()[j] == '*' by {
            assert(s.drop_last()[j] == s[j]);
        }
        lemma_trailing_stars_exact(s.drop_last(), (k - 1) as nat);
    }
}

/// The bounds `(lo, hi)` of `trim_stars(s)` within `s`.
pub fn trim_stars_bounds(s: &Vec<char>) -> (r: (usize, usize))
    ensures
        r.0 <= r.1 <= s@.len(),
        s@.subrange(r.0 as int, r.1 as int) == trim_stars(s@),
{
    let n = s.len();
    let mut lo: usize = 0;
    while lo < n && s[lo] == '*'
        invariant
            n == s@.len(),
            lo <= n,
            forall|j: int| 0 <= j < lo ==> s@[j] == '*',
        decreases n - lo,
    {
        lo = lo + 1;
    }
    proof {
        lemma_leading_stars_exact(s@, lo as nat);
    }
    let ghost rest = s@.skip(lo as int);
    let mut hi: usize = n;
    while hi > lo && s[hi - 1] == '*'
        invariant
            n == s@.len(),
            lo <= hi <= n,
            forall|j: int| hi <= j < n ==> s@[j] == '*',
        decreases hi,
    {
        hi = hi - 1;
    }
    proof {
        assert forall|j: int| rest.len() - (n - hi) <= j < rest.len() implies rest[j] == '*' by {
            assert(rest[j] == s@[lo + j]);
        }
        if (n - hi) < rest.len() {
            assert(rest[rest.len() - 1 - (n - hi)] == s@[hi - 1]);
        }
        lemma_trailing_stars_exact(rest, (n - hi) as nat);
        assert(s@.subrange(lo as int, hi as int) =~= trim_stars(s@));
    }
    (lo, hi)
}

/// `s` with a leading `prefix` removed, if `s` starts with it.
pub open spec fn strip_prefix(s: Seq<char>, prefix: Seq<char>) -> Option<Seq<char>> {
    if prefix.len() <= s.len() && s.take(prefix.len() as int) == prefix {
        Some(s.skip(prefix.len() as int))
    } else {
        None
    }
}

/// `s` with a leading `prefix` removed, if `s` starts with it, as `str::strip_prefix` gives it.
pub fn strip_prefix_string(s: &String, prefix: &str) -> (r: Option<String>)
    ensures
        r matches Some(t) ==> strip_prefix(s@, prefix@) == Some(t@),
        r is None ==> strip_prefix(s@, prefix@) is None,
{
    let sc = chars_of(s.as_str());
    let pc = chars_of(prefix);
    let n = sc.len();
    let m = pc.len();
    if m > n {
        return None;
    }
    if matches_at(&sc, 0, &pc, 0, m) {
        assert(s@.take(m as int) =~= sc@.subrange(0, m as int));
        assert(pc@.subrange(0, m as int) =~= prefix@);
        let rest = s.as_str().substring_char(m, n);
        Some(rest.to_owned())
    } else {
        assert(s@.take(m as int) =~= sc@.subrange(0, m as int));
        assert(pc@.subrange(0, m as int) =~= prefix@);
        None
    }
}

} // verus!
