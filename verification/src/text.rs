//! Character-level helpers on strings: equality, substring search and
//! splitting at a separator, each specified over `Seq<char>`.
use vstd::prelude::*;
use vstd::string::*;

verus! {

/// `pat` occurs in `s` starting at index `i`.
pub open spec fn occurs_at(s: Seq<char>, pat: Seq<char>, i: int) -> bool {
    &&& 0 <= i
    &&& i + pat.len() <= s.len()
    &&& s.subrange(i, i + pat.len()) == pat
}

/// The first index at or after `from` at which `pat` occurs in `s`.
pub open spec fn find_from(s: Seq<char>, pat: Seq<char>, from: int) -> Option<int>
    decreases s.len() + 1 - from,
{
    if from < 0 || from + pat.len() > s.len() {
        None
    } else if occurs_at(s, pat, from) {
        Some(from)
    } else {
        find_from(s, pat, from + 1)
    }
}

/// The first index at which `pat` occurs in `s`.
pub open spec fn find(s: Seq<char>, pat: Seq<char>) -> Option<int> {
    find_from(s, pat, 0)
}

/// `s` cut around the first occurrence of `pat`, the occurrence itself left out.
pub open spec fn split_once(s: Seq<char>, pat: Seq<char>) -> Option<(Seq<char>, Seq<char>)> {
    match find(s, pat) {
        Some(i) => Some((s.take(i), s.skip(i + pat.len()))),
        None => None,
    }
}

/// What `find_from` returns is an occurrence, and the first one from `from` on.
pub proof fn lemma_find_from(s: Seq<char>, pat: Seq<char>, from: int)
    requires
        0 <= from,
    ensures
        find_from(s, pat, from) matches Some(i) ==> from <= i && occurs_at(s, pat, i)
            && forall|j: int| from <= j < i ==> !occurs_at(s, pat, j),
        find_from(s, pat, from) is None ==> forall|j: int| from <= j ==> !occurs_at(s, pat, j),
    decreases s.len() + 1 - from,
{
    if from + pat.len() > s.len() {
    } else if occurs_at(s, pat, from) {
    } else {
        lemma_find_from(s, pat, from + 1);
    }
}

/// The first occurrence of `pat` at or after `from` is the one at `i`.
pub proof fn lemma_find_from_first(s: Seq<char>, pat: Seq<char>, from: int, i: int)
    requires
        0 <= from <= i,
        occurs_at(s, pat, i),
        forall|j: int| from <= j < i ==> !occurs_at(s, pat, j),
    ensures
        find_from(s, pat, from) == Some(i),
    decreases i - from,
{
    if from < i {
        lemma_find_from_first(s, pat, from + 1, i);
    }
}

/// No character of `s` is `/`.
pub open spec fn no_slash(s: Seq<char>) -> bool {
    forall|i: int| 0 <= i < s.len() ==> s[i] != '/'
}

/// The pieces of `s` between the separator `/`, in order, as `str::split` yields them.
pub open spec fn segments(s: Seq<char>) -> Seq<Seq<char>>
    decreases s.len(),
{
    match find(s, seq!['/']) {
        Some(i) => {
            proof {
                lemma_find_from(s, seq!['/'], 0);
            }
            seq![s.take(i)] + segments(s.skip(i + 1))
        },
        None => seq![s],
    }
}

/// In a piece without `/` followed by `/`, the first `/` is the one after the piece.
pub proof fn lemma_first_slash(a: Seq<char>, b: Seq<char>)
    requires
        no_slash(a),
    ensures
        find(a + seq!['/'] + b, seq!['/']) == Some(a.len() as int),
{
    let s = a + seq!['/'] + b;
    let slash = seq!['/'];
    assert(s.subrange(a.len() as int, a.len() + 1int) =~= slash);
    assert forall|j: int| 0 <= j < a.len() implies !occurs_at(s, slash, j) by {
        assert(s.subrange(j, j + 1)[0] == a[j]);
    }
    lemma_find_from_first(s, slash, 0, a.len() as int);
}

/// A piece without `/` splits off whole.
pub proof fn lemma_segments_cons(a: Seq<char>, b: Seq<char>)
    requires
        no_slash(a),
    ensures
        segments(a + seq!['/'] + b) == seq![a] + segments(b),
{
    let s = a + seq!['/'] + b;
    lemma_first_slash(a, b);
    assert(s.take(a.len() as int) =~= a);
    assert(s.skip(a.len() + 1int) =~= b);
}

/// `y` is empty or starts with `/`.
pub open spec fn empty_or_slash_first(y: Seq<char>) -> bool {
    y.len() == 0 || y[0] == '/'
}

/// An occurrence that starts inside the tail `y` of `x + y` is an occurrence in `y`.
proof fn lemma_occurs_in_tail(x: Seq<char>, y: Seq<char>, pat: Seq<char>, i: int)
    requires
        occurs_at(x + y, pat, i),
        i >= x.len(),
    ensures
        occurs_at(y, pat, i - x.len()),
{
    let j = i - x.len();
    assert((x + y).subrange(i, i + pat.len()) =~= y.subrange(j, j + pat.len()));
}

/// `/api/` occurs nowhere in `/a` followed by `y`, where `a` is a piece, other than
/// `api` unless it is the last, and `/api/` occurs nowhere in `y`, which starts with
/// `/` or is empty.
pub proof fn lemma_no_api_cons(a: Seq<char>, y: Seq<char>)
    requires
        no_slash(a),
        a != "api"@ || y.len() == 0,
        empty_or_slash_first(y),
        find(y, "/api/"@) is None,
    ensures
        find(seq!['/'] + a + y, "/api/"@) is None,
{
    reveal_strlit("/api/");
    reveal_strlit("api");
    let pat = "/api/"@;
    assert(pat =~= seq!['/', 'a', 'p', 'i', '/']);
    assert("api"@ =~= seq!['a', 'p', 'i']);
    let x = seq!['/'] + a + y;
    let head = seq!['/'] + a;
    assert(x =~= head + y);
    lemma_find_from(x, pat, 0);
    lemma_find_from(y, pat, 0);
    if let Some(i) = find(x, pat) {
        assert(x.subrange(i, i + 5)[0] == x[i]);
        if i == 0 {
            assert(x[1] == 'a' && x[2] == 'p' && x[3] == 'i' && x[4] == '/') by {
                assert(x.subrange(0, 5)[1] == x[1]);
                assert(x.subrange(0, 5)[2] == x[2]);
                assert(x.subrange(0, 5)[3] == x[3]);
                assert(x.subrange(0, 5)[4] == x[4]);
            }
            if a.len() >= 4 {
                assert(x[4] == a[3]);
            } else if a.len() == 3 {
                assert(a =~= seq!['a', 'p', 'i']);
            } else {
                assert(x[1 + a.len() as int] == y[0]);
            }
        } else if i <= a.len() {
            assert(x[i] == a[i - 1]);
        } else {
            lemma_occurs_in_tail(head, y, pat, i);
        }
    }
}

/// `/api/` occurs nowhere in `/apis` followed by `y`, where it occurs nowhere in `y`,
/// which starts with `/` or is empty.
pub proof fn lemma_no_api_after_apis(y: Seq<char>)
    requires
        empty_or_slash_first(y),
        find(y, "/api/"@) is None,
    ensures
        find("/apis"@ + y, "/api/"@) is None,
{
    reveal_strlit("/api/");
    reveal_strlit("/apis");
    let pat = "/api/"@;
    assert(pat =~= seq!['/', 'a', 'p', 'i', '/']);
    assert("/apis"@ =~= seq!['/', 'a', 'p', 'i', 's']);
    let x = "/apis"@ + y;
    lemma_find_from(x, pat, 0);
    lemma_find_from(y, pat, 0);
    if let Some(i) = find(x, pat) {
        assert(x.subrange(i, i + 5)[0] == x[i]);
        if i == 0 {
            assert(x.subrange(0, 5)[4] == x[4]);
        } else if i < 5 {
        } else {
            lemma_occurs_in_tail("/apis"@, y, pat, i);
        }
    }
}

/// A piece without `/` is the only piece.
pub proof fn lemma_segments_single(a: Seq<char>)
    requires
        no_slash(a),
    ensures
        segments(a) == seq![a],
{
    lemma_find_from(a, seq!['/'], 0);
    if let Some(i) = find(a, seq!['/']) {
        assert(a.subrange(i, i + 1)[0] == a[i]);
    }
}

/// The pieces that a split iterator still yields: none once it is exhausted.
pub open spec fn remaining_segments(rest: Option<Seq<char>>) -> Seq<Seq<char>> {
    match rest {
        Some(s) => segments(s),
        None => Seq::empty(),
    }
}

pub open spec fn opt_str_view(o: Option<&str>) -> Option<Seq<char>> {
    match o {
        Some(s) => Some(s@),
        None => None,
    }
}

pub open spec fn opt_string_view(o: Option<String>) -> Option<Seq<char>> {
    match o {
        Some(s) => Some(s@),
        None => None,
    }
}

/// Character-wise equality of two string slices.
pub fn str_eq(a: &str, b: &str) -> (res: bool)
    ensures
        res == (a@ == b@),
{
    let n: usize = a.unicode_len();
    let m: usize = b.unicode_len();
    if n != m {
        return false;
    }
    let mut i: usize = 0;
    while i < n
        invariant
            n == a@.len(),
            m == b@.len(),
            n == m,
            i <= n,
            forall|j: int| 0 <= j < i ==> a@[j] == b@[j],
        decreases n - i,
    {
        if a.get_char(i) != b.get_char(i) {
            return false;
        }
        i = i + 1;
    }
    assert(a@ =~= b@);
    true
}

/// Whether `pat` occurs in `s` at index `i`.
fn occurs_at_exec(s: &str, pat: &str, i: usize) -> (res: bool)
    requires
        i + pat@.len() <= s@.len(),
        s@.len() <= usize::MAX,
    ensures
        res == occurs_at(s@, pat@, i as int),
{
    let m: usize = pat.unicode_len();
    let mut j: usize = 0;
    while j < m
        invariant
            m == pat@.len(),
            i + m <= s@.len(),
            s@.len() <= usize::MAX,
            j <= m,
            forall|k: int| 0 <= k < j ==> s@[i + k] == pat@[k],
        decreases m - j,
    {
        if s.get_char(i + j) != pat.get_char(j) {
            assert(s@.subrange(i as int, i + m)[j as int] != pat@[j as int]);
            return false;
        }
        j = j + 1;
    }
    assert(s@.subrange(i as int, i + m) =~= pat@);
    true
}

/// The first index at which `pat` occurs in `s`.
pub fn find_str(s: &str, pat: &str) -> (res: Option<usize>)
    ensures
        match res {
            Some(i) => find(s@, pat@) == Some(i as int),
            None => find(s@, pat@) is None,
        },
{
    let n: usize = s.unicode_len();
    let m: usize = pat.unicode_len();
    if m > n {
        return None;
    }
    if m == 0 {
        assert(s@.subrange(0, 0) =~= pat@);
        return Some(0);
    }
    let mut i: usize = 0;
    while i <= n - m
        invariant
            n == s@.len(),
            m == pat@.len(),
            0 < m <= n,
            i <= n - m + 1,
            find(s@, pat@) == find_from(s@, pat@, i as int),
        decreases n - m + 1 - i,
    {
        if occurs_at_exec(s, pat, i) {
            return Some(i);
        }
        i = i + 1;
    }
    None
}

/// `s` cut around the first occurrence of `pat`, like `str::split_once`.
pub fn split_once_str<'a>(s: &'a str, pat: &str) -> (res: Option<(&'a str, &'a str)>)
    ensures
        match res {
            Some((a, b)) => split_once(s@, pat@) == Some((a@, b@)),
            None => split_once(s@, pat@) is None,
        },
{
    match find_str(s, pat) {
        Some(i) => {
            proof {
                lemma_find_from(s@, pat@, 0);
            }
            let n: usize = s.unicode_len();
            let m: usize = pat.unicode_len();
            let before = s.substring_char(0, i);
            let after = s.substring_char(i + m, n);
            assert(before@ =~= s@.take(i as int));
            assert(after@ =~= s@.skip(i + m));
            Some((before, after))
        },
        None => None,
    }
}

/// One step of a split iterator on `/`: the next piece, and what is left after it.
pub fn next_segment<'a>(rest: Option<&'a str>) -> (res: (Option<&'a str>, Option<&'a str>))
    ensures
        res.0 is None <==> rest is None,
        rest is None ==> res.1 is None,
        remaining_segments(opt_str_view(rest)) == match res.0 {
            Some(seg) => seq![seg@] + remaining_segments(opt_str_view(res.1)),
            None => Seq::<Seq<char>>::empty(),
        },
{
    match rest {
        None => (None, None),
        Some(s) => {
            proof {
                reveal_strlit("/");
                assert("/"@ =~= seq!['/']);
            }
            match split_once_str(s, "/") {
                Some((before, after)) => (Some(before), Some(after)),
                None => (Some(s), None),
            }
        },
    }
}

} // verus!
