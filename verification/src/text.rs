use vstd::prelude::*;
use vstd::string::StrSliceExecFns;
use vstd::string::StringExecFns;

verus! {

// ---------------------------------------------------------------------------
// Trusted names for the two pieces of text behaviour that come from outside
// this crate's verified code: the Unicode white-space property and Unicode
// lowercasing. Both depend on their argument alone.
// ---------------------------------------------------------------------------

/// What `char::is_whitespace` answers for a character.
pub uninterp spec fn is_unicode_ws(c: char) -> bool;

/// Relies on `char::is_whitespace`: the answer is a property of the
/// character alone.
#[verifier::external_body]
pub(crate) fn char_is_ws(c: char) -> (r: bool)
    ensures
        r == is_unicode_ws(c),
{
    c.is_whitespace()
}

/// What `str::to_lowercase` returns for a given character sequence.
pub uninterp spec fn lower_of(s: Seq<char>) -> Seq<char>;

/// Relies on `str::to_lowercase`: the result depends on the characters alone.
#[verifier::external_body]
pub(crate) fn to_lower(s: &str) -> (r: String)
    ensures
        r@ == lower_of(s@),
{
    s.to_lowercase()
}

/// Relies on `String::push`: appends exactly the one character.
#[verifier::external_body]
pub(crate) fn push_char(s: &mut String, c: char)
    ensures
        final(s)@ == old(s)@.push(c),
{
    s.push(c);
}

// ---------------------------------------------------------------------------
// Trimming surrounding white space.
// ---------------------------------------------------------------------------

/// The sequence with its leading white-space characters removed.
pub open spec fn trim_front(s: Seq<char>) -> Seq<char>
    decreases s.len(),
{
    if s.len() > 0 && is_unicode_ws(s[0]) {
        trim_front(s.drop_first())
    } else {
        s
    }
}

/// The sequence with its trailing white-space characters removed.
pub open spec fn trim_back(s: Seq<char>) -> Seq<char>
    decreases s.len(),
{
    if s.len() > 0 && is_unicode_ws(s[s.len() - 1]) {
        trim_back(s.drop_last())
    } else {
        s
    }
}

/// The sequence with surrounding white space removed on both sides.
pub open spec fn trim_of(s: Seq<char>) -> Seq<char> {
    trim_back(trim_front(s))
}

/// Remove surrounding white space, as `str::trim` does.
pub fn trim_text(s: &str) -> (r: String)
    ensures
        r@ == trim_of(s@),
{
    let n = s.unicode_len();
    proof {
        assert(s@.subrange(0, n as int) =~= s@);
    }
    let mut i: usize = 0;
    while i < n && char_is_ws(s.get_char(i))
        invariant
            n == s@.len(),
            0 <= i <= n,
            trim_front(s@) == trim_front(s@.subrange(i as int, n as int)),
        decreases n - i,
    {
        proof {
            assert(s@.subrange(i as int, n as int).drop_first() =~= s@.subrange(
                i + 1,
                n as int,
            ));
        }
        i += 1;
    }
    proof {
        if i == n {
            assert(s@.subrange(i as int, n as int) =~= Seq::<char>::empty());
        }
    }
    let mut j: usize = n;
    while j > i && char_is_ws(s.get_char(j - 1))
        invariant
            n == s@.len(),
            0 <= i <= j <= n,
            trim_front(s@) == trim_front(s@.subrange(i as int, n as int)),
            i < n ==> !is_unicode_ws(s@[i as int]),
            trim_back(s@.subrange(i as int, n as int)) == trim_back(
                s@.subrange(i as int, j as int),
            ),
        decreases j,
    {
        proof {
            assert(s@.subrange(i as int, j as int).drop_last() =~= s@.subrange(
                i as int,
                j - 1,
            ));
        }
        j -= 1;
    }
    proof {
        if i == n {
            assert(trim_of(s@) =~= s@.subrange(i as int, j as int));
        } else {
            assert(trim_front(s@.subrange(i as int, n as int)) == s@.subrange(
                i as int,
                n as int,
            ));
            if j == i {
                assert(s@.subrange(i as int, j as int).len() == 0);
                assert(trim_of(s@) =~= s@.subrange(i as int, j as int));
            } else {
                assert(!is_unicode_ws(s@.subrange(i as int, j as int)[j - i - 1]));
                assert(trim_of(s@) =~= s@.subrange(i as int, j as int));
            }
        }
    }
    s.substring_char(i, j).to_owned()
}

// ---------------------------------------------------------------------------
// Substring containment, case sensitive and case insensitive.
// ---------------------------------------------------------------------------

/// `needle` occurs contiguously somewhere inside `hay`.
pub open spec fn is_substring(hay: Seq<char>, needle: Seq<char>) -> bool {
    exists|k: int|
        0 <= k && k + needle.len() <= hay.len() && #[trigger] hay.subrange(k, k + needle.len())
            == needle
}

/// `needle` matches `hay` exactly at offset `k`.
fn match_at(hay: &str, needle: &str, k: usize) -> (r: bool)
    requires
        k + needle@.len() <= hay@.len(),
        hay@.len() <= usize::MAX,
    ensures
        r == (hay@.subrange(k as int, k + needle@.len()) == needle@),
{
    let nn = needle.unicode_len();
    let mut m: usize = 0;
    while m < nn
        invariant
            nn == needle@.len(),
            k + nn <= hay@.len(),
            hay@.len() <= usize::MAX,
            0 <= m <= nn,
            forall|t: int| 0 <= t < m ==> hay@[k + t] == needle@[t],
        decreases nn - m,
    {
        if hay.get_char(k + m) != needle.get_char(m) {
            proof {
                assert(hay@.subrange(k as int, k + nn as int)[m as int] == hay@[k + m]);
            }
            return false;
        }
        m += 1;
    }
    proof {
        assert(hay@.subrange(k as int, k + nn as int) =~= needle@);
    }
    true
}

/// Whether `needle` occurs as a contiguous substring of `hay`.
pub fn contains_sub(hay: &str, needle: &str) -> (r: bool)
    ensures
        r == is_substring(hay@, needle@),
{
    let hn = hay.unicode_len();
    let nn = needle.unicode_len();
    if nn > hn {
        return false;
    }
    if nn == 0 {
        proof {
            assert(hay@.subrange(0, 0 + needle@.len() as int) =~= needle@);
            assert(is_substring(hay@, needle@));
        }
        return true;
    }
    let mut k: usize = 0;
    while k <= hn - nn
        invariant
            hn == hay@.len(),
            nn == needle@.len(),
            0 < nn <= hn,
            0 <= k <= hn - nn + 1,
            forall|j: int|
                0 <= j < k ==> #[trigger] hay@.subrange(j, j + nn as int) != needle@,
        decreases hn - nn + 1 - k,
    {
        if match_at(hay, needle, k) {
            assert(is_substring(hay@, needle@));
            return true;
        }
        k += 1;
    }
    false
}

/// Whether any case variant of `needle` occurs inside `hay`, decided by
/// lowercasing both sides first.
pub fn contains_ci(hay: &str, needle: &str) -> (r: bool)
    ensures
        r == is_substring(lower_of(hay@), lower_of(needle@)),
{
    let lh = to_lower(hay);
    let ln = to_lower(needle);
    contains_sub(lh.as_str(), ln.as_str())
}

/// Case-insensitive equality, decided by lowercasing both sides.
pub fn eq_ci(a: &str, b: &str) -> (r: bool)
    ensures
        r == (lower_of(a@) == lower_of(b@)),
{
    let la = to_lower(a);
    let lb = to_lower(b);
    la == lb
}

// ---------------------------------------------------------------------------
// Splitting on a separator character, and line splitting as `str::lines`.
// ---------------------------------------------------------------------------

/// The parts of `s` between occurrences of `sep`. Always at least one part;
/// an empty input yields one empty part.
pub open spec fn split_spec(s: Seq<char>, sep: char) -> Seq<Seq<char>>
    decreases s.len(),
{
    if s.len() == 0 {
        seq![Seq::<char>::empty()]
    } else if s[0] == sep {
        seq![Seq::<char>::empty()] + split_spec(s.drop_first(), sep)
    } else {
        let rest = split_spec(s.drop_first(), sep);
        seq![seq![s[0]] + rest[0]] + rest.drop_first()
    }
}

pub proof fn lemma_split_len(s: Seq<char>, sep: char)
    ensures
        split_spec(s, sep).len() >= 1,
    decreases s.len(),
{
    if s.len() > 0 {
        lemma_split_len(s.drop_first(), sep);
    }
}

/// Split `s` at every occurrence of `sep`, as `str::split` does for a
/// character pattern.
pub fn split_text(s: &str, sep: char) -> (r: Vec<String>)
    ensures
        r.deep_view() == split_spec(s@, sep),
        r.len() >= 1,
{
    let n = s.unicode_len();
    let mut acc: Vec<String> = Vec::new();
    acc.push(String::new());
    proof {
        assert(s@.subrange(n as int, n as int) =~= Seq::<char>::empty());
        assert(acc.deep_view() =~~= split_spec(s@.subrange(n as int, n as int), sep));
    }
    let mut i: usize = n;
    while i > 0
        invariant
            n == s@.len(),
            0 <= i <= n,
            acc.len() >= 1,
            acc.deep_view() == split_spec(s@.subrange(i as int, n as int), sep),
        decreases i,
    {
        let c = s.get_char(i - 1);
        let ghost prev = acc.deep_view();
        if c == sep {
            acc.insert(0, String::new());
        } else {
            let head = acc.remove(0);
            let mut t = String::new();
            push_char(&mut t, c);
            t.append(head.as_str());
            acc.insert(0, t);
        }
        proof {
            let tail = s@.subrange(i as int, n as int);
            let full = s@.subrange(i - 1, n as int);
            assert(full.drop_first() =~= tail);
            assert(full[0] == s@[i - 1]);
            lemma_split_len(tail, sep);
            if c == sep {
                assert(acc.deep_view() =~~= split_spec(full, sep));
            } else {
                assert(acc.deep_view() =~~= seq![seq![s@[i - 1]] + prev[0]]
                    + prev.drop_first());
                assert(acc.deep_view() =~~= split_spec(full, sep));
            }
        }
        i -= 1;
    }
    proof {
        assert(s@.subrange(0, n as int) =~= s@);
    }
    acc
}

/// A line part with one trailing carriage return removed, as `str::lines`
/// treats a `\r\n` terminator.
pub open spec fn strip_cr(l: Seq<char>) -> Seq<char> {
    if l.len() > 0 && l[l.len() - 1] == '\r' {
        l.drop_last()
    } else {
        l
    }
}

/// The lines of `s`, as `str::lines` yields them: split on `\n`, a carriage
/// return before each split point removed, and no final empty line when the
/// text ends with a terminator.
pub open spec fn lines_spec(s: Seq<char>) -> Seq<Seq<char>> {
    let parts = split_spec(s, '\n');
    let stripped = Seq::new(
        parts.len(),
        |i: int| if i < parts.len() - 1 {
            strip_cr(parts[i])
        } else {
            parts[i]
        },
    );
    if stripped.len() > 0 && stripped.last().len() == 0 {
        stripped.drop_last()
    } else {
        stripped
    }
}

/// The lines of `s`, as `str::lines` yields them.
pub fn lines_text(s: &str) -> (r: Vec<String>)
    ensures
        r.deep_view() == lines_spec(s@),
{
    let parts = split_text(s, '\n');
    let m = parts.len();
    let ghost pv = parts.deep_view();
    let ghost stripped = Seq::new(
        pv.len(),
        |q: int| if q < pv.len() - 1 {
            strip_cr(pv[q])
        } else {
            pv[q]
        },
    );
    let mut out: Vec<String> = Vec::new();
    let mut k: usize = 0;
    while k < m
        invariant
            m == parts.len(),
            pv == parts.deep_view(),
            m == pv.len(),
            m >= 1,
            stripped.len() == m,
            forall|q: int|
                0 <= q < m ==> stripped[q] == (if q < m - 1 {
                    strip_cr(pv[q])
                } else {
                    pv[q]
                }),
            0 <= k <= m,
            out@.len() == k,
            forall|q: int| 0 <= q < k ==> #[trigger] out@[q]@ == stripped[q],
        decreases m - k,
    {
        let p = &parts[k];
        proof {
            assert(pv[k as int] == parts@[k as int].deep_view());
            assert(p@ == pv[k as int]);
        }
        let pl = p.as_str().unicode_len();
        if k < m - 1 && pl > 0 && p.as_str().get_char(pl - 1) == '\r' {
            out.push(p.as_str().substring_char(0, pl - 1).to_owned());
            proof {
                assert(p@.subrange(0, pl - 1) =~= p@.drop_last());
                assert(out@[k as int]@ == strip_cr(pv[k as int]));
            }
        } else {
            out.push(p.clone());
            proof {
                assert(out@[k as int]@ == pv[k as int]);
                if k < m - 1 {
                    assert(strip_cr(pv[k as int]) == pv[k as int]);
                }
            }
        }
        k += 1;
    }
    let last = out.len() - 1;
    if out[last].as_str().is_empty() {
        out.pop();
        proof {
            assert(stripped.last().len() == 0);
            assert(out.deep_view() =~~= stripped.drop_last());
            assert(out.deep_view() == lines_spec(s@));
        }
    } else {
        proof {
            assert(stripped.last().len() != 0);
            assert(out.deep_view() =~~= stripped);
            assert(out.deep_view() == lines_spec(s@));
        }
    }
    out
}

} // verus!
