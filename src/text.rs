//! Character-level helpers: Unicode whitespace, trimming, tokenizing and
//! ASCII case-insensitive prefix tests.

use vstd::prelude::*;

verus! {

/// The Unicode `White_Space` property, the one `char::is_whitespace` uses.
pub open spec fn is_ws(c: char) -> bool {
    let u = c as u32;
    (0x9 <= u && u <= 0xd) || u == 0x20 || u == 0x85 || u == 0xa0 || u == 0x1680 || (0x2000 <= u
        && u <= 0x200a) || u == 0x2028 || u == 0x2029 || u == 0x202f || u == 0x205f || u == 0x3000
}

/// `s` without its leading whitespace.
pub open spec fn trim_start(s: Seq<char>) -> Seq<char>
    decreases s.len(),
{
    if s.len() > 0 && is_ws(s[0]) {
        trim_start(s.drop_first())
    } else {
        s
    }
}

/// `s` without its trailing whitespace.
pub open spec fn trim_end(s: Seq<char>) -> Seq<char>
    decreases s.len(),
{
    if s.len() > 0 && is_ws(s.last()) {
        trim_end(s.drop_last())
    } else {
        s
    }
}

/// `s` without leading or trailing whitespace.
pub open spec fn trimmed(s: Seq<char>) -> Seq<char> {
    trim_end(trim_start(s))
}

/// Number of non-whitespace characters at the front of `s`.
pub open spec fn word_len(s: Seq<char>) -> nat
    decreases s.len(),
{
    if s.len() > 0 && !is_ws(s[0]) {
        1 + word_len(s.drop_first())
    } else {
        0
    }
}

/// The maximal runs of non-whitespace characters of `s`, in order.
pub open spec fn tokens(s: Seq<char>) -> Seq<Seq<char>>
    decreases s.len(),
{
    if s.len() == 0 {
        Seq::empty()
    } else if is_ws(s[0]) {
        tokens(s.drop_first())
    } else {
        let k = word_len(s);
        if 0 < k <= s.len() {
            seq![s.take(k as int)] + tokens(s.skip(k as int))
        } else {
            Seq::empty()
        }
    }
}

/// The code of `c` with `A`..`Z` mapped to `a`..`z`.
pub open spec fn ascii_lower_code(c: char) -> u32 {
    let u = c as u32;
    if 65 <= u && u <= 90 {
        (u + 32) as u32
    } else {
        u
    }
}

/// `s` begins with `p`, ignoring ASCII case.
pub open spec fn starts_with_ignore_case(s: Seq<char>, p: Seq<char>) -> bool {
    p.len() <= s.len() && forall|i: int|
        0 <= i < p.len() ==> #[trigger] ascii_lower_code(s[i]) == ascii_lower_code(p[i])
}

pub fn is_whitespace(c: char) -> (r: bool)
    ensures
        r == is_ws(c),
{
    let u = c as u32;
    (0x9 <= u && u <= 0xd) || u == 0x20 || u == 0x85 || u == 0xa0 || u == 0x1680 || (0x2000 <= u
        && u <= 0x200a) || u == 0x2028 || u == 0x2029 || u == 0x202f || u == 0x205f || u == 0x3000
}

proof fn lemma_trim_start_skip(s: Seq<char>, i: int)
    requires
        0 <= i <= s.len(),
        forall|k: int| 0 <= k < i ==> is_ws(#[trigger] s[k]),
    ensures
        trim_start(s) == trim_start(s.skip(i)),
    decreases i,
{
    if i > 0 {
        lemma_trim_start_skip(s, i - 1);
        assert(s.skip(i - 1).drop_first() =~= s.skip(i));
    } else {
        assert(s.skip(0) =~= s);
    }
}

proof fn lemma_trim_end_take(s: Seq<char>, j: int)
    requires
        0 <= j <= s.len(),
        forall|k: int| j <= k < s.len() ==> is_ws(#[trigger] s[k]),
    ensures
        trim_end(s) == trim_end(s.take(j)),
    decreases s.len() - j,
{
    if j < s.len() {
        lemma_trim_end_take(s, j + 1);
        assert(s.take(j + 1).drop_last() =~= s.take(j));
    } else {
        assert(s.take(j) =~= s);
    }
}

/// `s` with leading and trailing whitespace removed.
pub fn trim(s: &str) -> (r: String)
    ensures
        r@ == trimmed(s@),
{
    let n = s.unicode_len();
    let mut i: usize = 0;
    while i < n && is_whitespace(s.get_char(i))
        invariant
            n == s@.len(),
            i <= n,
            forall|k: int| 0 <= k < i ==> is_ws(#[trigger] s@[k]),
        decreases n - i,
    {
        i = i + 1;
    }
    proof {
        lemma_trim_start_skip(s@, i as int);
        if i < n {
            assert(!is_ws(s@.skip(i as int)[0]));
        }
    }
    let mut j: usize = n;
    while j > i && is_whitespace(s.get_char(j - 1))
        invariant
            n == s@.len(),
            i <= j <= n,
            forall|k: int| j <= k < n ==> is_ws(#[trigger] s@[k]),
        decreases j,
    {
        j = j - 1;
    }
    let ghost t = s@.skip(i as int);
    proof {
        assert forall|k: int| j - i <= k < t.len() implies is_ws(#[trigger] t[k]) by {
            assert(t[k] == s@[k + i]);
        }
        lemma_trim_end_take(t, j - i);
        assert(t.take(j - i) =~= s@.subrange(i as int, j as int));
        if j > i {
            assert(!is_ws(t.take(j - i).last()));
        }
    }
    s.substring_char(i, j).to_owned()
}

proof fn lemma_word_len(s: Seq<char>, i: int, j: int)
    requires
        0 <= i <= j <= s.len(),
        forall|k: int| i <= k < j ==> !is_ws(#[trigger] s[k]),
        j == s.len() || is_ws(s[j]),
    ensures
        word_len(s.skip(i)) == j - i,
    decreases j - i,
{
    if i < j {
        lemma_word_len(s, i + 1, j);
        assert(s.skip(i).drop_first() =~= s.skip(i + 1));
    } else if j < s.len() {
        assert(s.skip(i)[0] == s[j]);
    }
}

/// The whitespace-separated words of `s`; empty words never occur.
pub fn tokenize(s: &str) -> (r: Vec<String>)
    ensures
        r@.map_values(|w: String| w@) == tokens(s@),
{
    let n = s.unicode_len();
    let mut out: Vec<String> = Vec::new();
    let mut i: usize = 0;
    proof {
        assert(s@.skip(0) =~= s@);
    }
    while i < n
        invariant
            n == s@.len(),
            i <= n,
            out@.map_values(|w: String| w@) + tokens(s@.skip(i as int)) == tokens(s@),
        decreases n - i,
    {
        let ghost before = out@.map_values(|w: String| w@);
        if is_whitespace(s.get_char(i)) {
            proof {
                assert(s@.skip(i as int).drop_first() =~= s@.skip(i + 1));
            }
            i = i + 1;
        } else {
            let mut j: usize = i + 1;
            while j < n && !is_whitespace(s.get_char(j))
                invariant
                    n == s@.len(),
                    i < j <= n,
                    forall|k: int| i <= k < j ==> !is_ws(#[trigger] s@[k]),
                decreases n - j,
            {
                j = j + 1;
            }
            let w = s.substring_char(i, j).to_owned();
            proof {
                lemma_word_len(s@, i as int, j as int);
                let t = s@.skip(i as int);
                assert(t.take(j - i) =~= w@);
                assert(t.skip(j - i) =~= s@.skip(j as int));
                assert(tokens(t) == seq![w@] + tokens(s@.skip(j as int)));
            }
            out.push(w);
            proof {
                assert(out@.map_values(|w: String| w@) =~= before.push(w@));
                assert(before.push(w@) + tokens(s@.skip(j as int)) =~= before + (seq![w@]
                    + tokens(s@.skip(j as int))));
            }
            i = j;
        }
    }
    proof {
        assert(s@.skip(n as int).len() == 0);
        assert(out@.map_values(|w: String| w@) + tokens(s@.skip(n as int)) =~= out@.map_values(
            |w: String| w@,
        ));
    }
    out
}

/// Whether `s` begins with `p`, ignoring ASCII case.
pub fn starts_with_ignoring_case(s: &str, p: &str) -> (r: bool)
    ensures
        r == starts_with_ignore_case(s@, p@),
{
    let n = s.unicode_len();
    let m = p.unicode_len();
    if m > n {
        return false;
    }
    let mut i: usize = 0;
    while i < m
        invariant
            n == s@.len(),
            m == p@.len(),
            m <= n,
            i <= m,
            forall|k: int| 0 <= k < i ==> #[trigger] ascii_lower_code(s@[k]) == ascii_lower_code(
                p@[k],
            ),
        decreases m - i,
    {
        if lower_code(s.get_char(i)) != lower_code(p.get_char(i)) {
            assert(ascii_lower_code(s@[i as int]) != ascii_lower_code(p@[i as int]));
            return false;
        }
        i = i + 1;
    }
    true
}

fn lower_code(c: char) -> (r: u32)
    ensures
        r == ascii_lower_code(c),
{
    let u = c as u32;
    if 65 <= u && u <= 90 {
        u + 32
    } else {
        u
    }
}

/// Whether `a` and `b` hold the same characters.
pub fn same_text(a: &str, b: &str) -> (r: bool)
    ensures
        r == (a@ == b@),
{
    let n = a.unicode_len();
    if n != b.unicode_len() {
        return false;
    }
    let mut i: usize = 0;
    while i < n
        invariant
            n == a@.len(),
            n == b@.len(),
            i <= n,
            forall|k: int| 0 <= k < i ==> a@[k] == b@[k],
        decreases n - i,
    {
        if a.get_char(i) != b.get_char(i) {
            return false;
        }
        i = i + 1;
    }
    assert(a@ =~= b@);
    true
}

proof fn lemma_word_len_facts(s: Seq<char>)
    ensures
        word_len(s) <= s.len(),
        forall|k: int| 0 <= k < word_len(s) ==> !is_ws(#[trigger] s[k]),
        word_len(s) < s.len() ==> is_ws(s[word_len(s) as int]),
    decreases s.len(),
{
    if s.len() > 0 && !is_ws(s[0]) {
        let t = s.drop_first();
        lemma_word_len_facts(t);
        assert forall|k: int| 0 <= k < word_len(s) implies !is_ws(#[trigger] s[k]) by {
            if k > 0 {
                assert(s[k] == t[k - 1]);
            }
        }
        if word_len(s) < s.len() {
            assert(s[word_len(s) as int] == t[word_len(t) as int]);
        }
    }
}

/// Dropping one of two adjacent whitespace characters leaves the words of a
/// line as they were: a run of spaces separates words as one space does.
pub proof fn lemma_tokens_collapse_whitespace(s: Seq<char>, i: int)
    requires
        0 <= i,
        i + 1 < s.len(),
        is_ws(s[i]),
        is_ws(s[i + 1]),
    ensures
        tokens(s.remove(i)) == tokens(s),
    decreases s.len(),
{
    let r = s.remove(i);
    if i == 0 {
        assert(r =~= s.drop_first());
    } else if is_ws(s[0]) {
        let d = s.drop_first();
        lemma_tokens_collapse_whitespace(d, i - 1);
        assert(r[0] == s[0]);
        assert(r.drop_first() =~= d.remove(i - 1));
    } else {
        let k = word_len(s);
        lemma_word_len_facts(s);
        assert(k <= i) by {
            if k > i {
                assert(!is_ws(s[i]));
            }
        }
        assert(k > 0) by {
            reveal_with_fuel(word_len, 2);
        }
        assert forall|j: int| 0 <= j < k implies !is_ws(#[trigger] r[j]) by {
            assert(r[j] == s[j]);
        }
        assert(is_ws(r[k as int])) by {
            if k < i {
                assert(r[k as int] == s[k as int]);
            } else {
                assert(r[k as int] == s[i + 1]);
            }
        }
        lemma_word_len(r, 0, k as int);
        assert(r.skip(0) =~= r);
        assert(r.take(k as int) =~= s.take(k as int));
        let rest = s.skip(k as int);
        assert(r.skip(k as int) =~= rest.remove(i - k));
        lemma_tokens_collapse_whitespace(rest, i - k);
        assert(r[0] == s[0]);
    }
}

/// A line of whitespace alone has no words.
pub proof fn lemma_blank_has_no_tokens(s: Seq<char>)
    requires
        forall|k: int| 0 <= k < s.len() ==> is_ws(#[trigger] s[k]),
    ensures
        tokens(s).len() == 0,
    decreases s.len(),
{
    if s.len() > 0 {
        let d = s.drop_first();
        assert forall|k: int| 0 <= k < d.len() implies is_ws(#[trigger] d[k]) by {
            assert(d[k] == s[k + 1]);
        }
        lemma_blank_has_no_tokens(d);
    }
}

} // verus!
