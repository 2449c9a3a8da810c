//! Character-level string operations: substring occurrence, replacement and
//! trimming, each verified against a direct mathematical definition.
use vstd::prelude::*;
use vstd::string::StrSliceExecFns;
use vstd::string::StringExecFns;

verus! {

/// `p` occurs in `s` starting at index `i`.
pub open spec fn occurs_at(s: Seq<char>, p: Seq<char>, i: int) -> bool {
    0 <= i && i + p.len() <= s.len() && s.subrange(i, i + p.len() as int) == p
}

/// `p` occurs somewhere in `s`.
pub open spec fn contains_seq(s: Seq<char>, p: Seq<char>) -> bool {
    exists|i: int| occurs_at(s, p, i)
}

/// `s` begins with `p`.
pub open spec fn starts_with_seq(s: Seq<char>, p: Seq<char>) -> bool {
    p.len() <= s.len() && s.subrange(0, p.len() as int) == p
}

/// `s` with every occurrence of `p` replaced by `r`: occurrences are taken
/// leftmost-first and do not overlap, and the replacement text is never
/// rescanned.
pub open spec fn replace_seq(s: Seq<char>, p: Seq<char>, r: Seq<char>) -> Seq<char>
    decreases s.len(),
{
    if p.len() == 0 || s.len() < p.len() {
        s
    } else if starts_with_seq(s, p) {
        r + replace_seq(s.skip(p.len() as int), p, r)
    } else {
        seq![s[0]] + replace_seq(s.skip(1), p, r)
    }
}

/// Whether `a` and `b` hold the same characters.
pub fn str_eq(a: &str, b: &str) -> (r: bool)
    ensures
        r == (a@ == b@),
{
    let n = a.unicode_len();
    let m = b.unicode_len();
    if n != m {
        return false;
    }
    let mut i: usize = 0;
    while i < n
        invariant
            n == a@.len(),
            n == b@.len(),
            i <= n,
            forall|j: int| 0 <= j < i ==> a@[j] == b@[j],
        decreases n - i,
    {
        if a.get_char(i) != b.get_char(i) {
            return false;
        }
        i = i + 1;
    }
    proof {
        assert(a@ =~= b@);
    }
    true
}

/// Whether `p` occurs in `s` at index `i`.
fn match_at(s: &str, p: &str, i: usize) -> (r: bool)
    requires
        i + p@.len() <= s@.len(),
        s@.len() <= usize::MAX,
    ensures
        r == occurs_at(s@, p@, i as int),
{
    let m = p.unicode_len();
    let mut j: usize = 0;
    while j < m
        invariant
            m == p@.len(),
            i + m <= s@.len(),
            s@.len() <= usize::MAX,
            j <= m,
            forall|k: int| 0 <= k < j ==> s@[i + k] == p@[k],
        decreases m - j,
    {
        if s.get_char(i + j) != p.get_char(j) {
            proof {
                let sub = s@.subrange(i as int, i + p@.len() as int);
                assert(sub[j as int] == s@[i + j]);
            }
            return false;
        }
        j = j + 1;
    }
    proof {
        assert(s@.subrange(i as int, i + p@.len() as int) =~= p@);
    }
    true
}

/// Whether `p` occurs anywhere in `s`.
pub fn contains_str(s: &str, p: &str) -> (r: bool)
    requires
        p@.len() > 0,
    ensures
        r == contains_seq(s@, p@),
{
    let n = s.unicode_len();
    let m = p.unicode_len();
    let mut i: usize = 0;
    while i <= n && n - i >= m
        invariant
            n == s@.len(),
            m == p@.len(),
            m > 0,
            i <= n,
            forall|j: int| 0 <= j < i ==> !occurs_at(s@, p@, j),
        decreases n - i,
    {
        if match_at(s, p, i) {
            return true;
        }
        i = i + 1;
    }
    proof {
        assert forall|j: int| !occurs_at(s@, p@, j) by {
            if 0 <= j < i {
            } else if j >= i {
                assert(j + p@.len() > s@.len());
            }
        }
    }
    false
}

proof fn lemma_replace_step_match(s: Seq<char>, p: Seq<char>, r: Seq<char>, i: int)
    requires
        p.len() > 0,
        occurs_at(s, p, i),
    ensures
        replace_seq(s.skip(i), p, r) == r + replace_seq(s.skip(i + p.len() as int), p, r),
{
    let t = s.skip(i);
    assert(t.subrange(0, p.len() as int) =~= s.subrange(i, i + p.len() as int));
    assert(starts_with_seq(t, p));
    assert(t.skip(p.len() as int) =~= s.skip(i + p.len() as int));
}

proof fn lemma_replace_step_miss(s: Seq<char>, p: Seq<char>, r: Seq<char>, i: int)
    requires
        p.len() > 0,
        0 <= i,
        i + p.len() <= s.len(),
        !occurs_at(s, p, i),
    ensures
        replace_seq(s.skip(i), p, r) == seq![s[i]] + replace_seq(s.skip(i + 1), p, r),
{
    let t = s.skip(i);
    assert(t.subrange(0, p.len() as int) =~= s.subrange(i, i + p.len() as int));
    assert(!starts_with_seq(t, p));
    assert(t[0] == s[i]);
    assert(t.skip(1) =~= s.skip(i + 1));
    assert(seq![t[0]] =~= seq![s[i]]);
}

/// `s` with every occurrence of `p` replaced by `repl`.
pub fn replace_str(s: &str, p: &str, repl: &str) -> (out: String)
    requires
        p@.len() > 0,
    ensures
        out@ == replace_seq(s@, p@, repl@),
{
    let n = s.unicode_len();
    let m = p.unicode_len();
    let mut out = String::new();
    let mut i: usize = 0;
    proof {
        assert(s@.skip(0) =~= s@);
        assert(Seq::<char>::empty() + replace_seq(s@, p@, repl@) =~= replace_seq(s@, p@, repl@));
    }
    while i <= n && n - i >= m
        invariant
            n == s@.len(),
            m == p@.len(),
            m > 0,
            i <= n,
            replace_seq(s@, p@, repl@) == out@ + replace_seq(s@.skip(i as int), p@, repl@),
        decreases n - i,
    {
        if match_at(s, p, i) {
            proof {
                lemma_replace_step_match(s@, p@, repl@, i as int);
                assert(out@ + (repl@ + replace_seq(s@.skip(i + p@.len() as int), p@, repl@))
                    =~= (out@ + repl@) + replace_seq(s@.skip(i + p@.len() as int), p@, repl@));
            }
            out.append(repl);
            i = i + m;
        } else {
            let c = s.substring_char(i, i + 1);
            proof {
                lemma_replace_step_miss(s@, p@, repl@, i as int);
                assert(c@ =~= seq![s@[i as int]]);
                assert(out@ + (c@ + replace_seq(s@.skip(i + 1), p@, repl@))
                    =~= (out@ + c@) + replace_seq(s@.skip(i + 1), p@, repl@));
            }
            out.append(c);
            i = i + 1;
        }
    }
    let tail = s.substring_char(i, n);
    proof {
        assert(tail@ =~= s@.skip(i as int));
        assert(s@.skip(i as int).len() < p@.len());
    }
    out.append(tail);
    out
}

/// The characters that trimming removes: deliberately the four ASCII blanks
/// alone, not all of Unicode's whitespace, so that what counts as a blank
/// line or a surrounding blank is auditable at a glance.
pub open spec fn is_blank(c: char) -> bool {
    c == ' ' || c == '\t' || c == '\n' || c == '\r'
}

/// `s` without its leading blank characters.
pub open spec fn trim_front(s: Seq<char>) -> Seq<char>
    decreases s.len(),
{
    if s.len() > 0 && is_blank(s[0]) {
        trim_front(s.drop_first())
    } else {
        s
    }
}

/// `s` without its trailing blank characters.
pub open spec fn trim_back(s: Seq<char>) -> Seq<char>
    decreases s.len(),
{
    if s.len() > 0 && is_blank(s[s.len() - 1]) {
        trim_back(s.drop_last())
    } else {
        s
    }
}

/// `s` without leading and trailing blank characters.
pub open spec fn trim_seq(s: Seq<char>) -> Seq<char> {
    trim_back(trim_front(s))
}

fn blank_char(c: char) -> (r: bool)
    ensures
        r == is_blank(c),
{
    c == ' ' || c == '\t' || c == '\n' || c == '\r'
}

/// `s` with leading and trailing ASCII whitespace (space, tab, CR, LF)
/// removed; other Unicode whitespace is kept.
pub fn trim_str<'a>(s: &'a str) -> (t: &'a str)
    ensures
        t@ == trim_seq(s@),
{
    let n = s.unicode_len();
    let mut a: usize = 0;
    proof {
        assert(s@.skip(0) =~= s@);
    }
    while a < n && blank_char(s.get_char(a))
        invariant
            n == s@.len(),
            a <= n,
            trim_front(s@) == trim_front(s@.skip(a as int)),
        decreases n - a,
    {
        proof {
            assert(s@.skip(a as int).drop_first() =~= s@.skip(a + 1));
        }
        a = a + 1;
    }
    proof {
        if a < n {
            assert(!is_blank(s@.skip(a as int)[0]));
        }
        assert(trim_front(s@) == s@.skip(a as int));
    }
    let mut b: usize = n;
    proof {
        assert(s@.subrange(a as int, n as int) =~= s@.skip(a as int));
    }
    while b > a && blank_char(s.get_char(b - 1))
        invariant
            n == s@.len(),
            a <= b <= n,
            trim_back(trim_front(s@)) == trim_back(s@.subrange(a as int, b as int)),
        decreases b,
    {
        proof {
            assert(s@.subrange(a as int, b as int).drop_last() =~= s@.subrange(
                a as int,
                b - 1,
            ));
            assert(s@.subrange(a as int, b as int)[b - a - 1] == s@[b - 1]);
        }
        b = b - 1;
    }
    let t = s.substring_char(a, b);
    proof {
        if b > a {
            assert(!is_blank(s@.subrange(a as int, b as int)[b - a - 1]));
        }
        assert(trim_back(s@.subrange(a as int, b as int)) == s@.subrange(a as int, b as int));
    }
    t
}

} // verus!
