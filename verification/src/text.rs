//! Character-level text operations with exact specifications.
//!
//! Strings are modelled by their `Seq<char>` view. The operations here match
//! the standard library's `trim`, `trim_start`, `trim_matches(char)`,
//! `contains`, `starts_with`, `split_once`, `join` and the decimal rendering
//! of unsigned integers, each stated as a spec function over the view.

use vstd::prelude::*;
use vstd::string::*;

verus! {

// ---------------------------------------------------------------------------
// Specifications
// ---------------------------------------------------------------------------

/// The Unicode `White_Space` property, which `char::is_whitespace` tests.
pub open spec fn is_white_space(c: char) -> bool {
    let v = c as u32;
    ||| (0x09 <= v && v <= 0x0d)
    ||| v == 0x20
    ||| v == 0x85
    ||| v == 0xa0
    ||| v == 0x1680
    ||| (0x2000 <= v && v <= 0x200a)
    ||| v == 0x2028
    ||| v == 0x2029
    ||| v == 0x202f
    ||| v == 0x205f
    ||| v == 0x3000
}

/// `s` with its leading white space removed.
pub open spec fn trim_start_seq(s: Seq<char>) -> Seq<char>
    decreases s.len(),
{
    if s.len() > 0 && is_white_space(s[0]) {
        trim_start_seq(s.drop_first())
    } else {
        s
    }
}

/// `s` with its trailing white space removed.
pub open spec fn trim_end_seq(s: Seq<char>) -> Seq<char>
    decreases s.len(),
{
    if s.len() > 0 && is_white_space(s.last()) {
        trim_end_seq(s.drop_last())
    } else {
        s
    }
}

/// `s` with leading and trailing white space removed.
pub open spec fn trim_seq(s: Seq<char>) -> Seq<char> {
    trim_end_seq(trim_start_seq(s))
}

/// `s` with every leading occurrence of `c` removed.
pub open spec fn strip_start_char(s: Seq<char>, c: char) -> Seq<char>
    decreases s.len(),
{
    if s.len() > 0 && s[0] == c {
        strip_start_char(s.drop_first(), c)
    } else {
        s
    }
}

/// `s` with every trailing occurrence of `c` removed.
pub open spec fn strip_end_char(s: Seq<char>, c: char) -> Seq<char>
    decreases s.len(),
{
    if s.len() > 0 && s.last() == c {
        strip_end_char(s.drop_last(), c)
    } else {
        s
    }
}

/// `s` with every leading and trailing occurrence of `c` removed.
pub open spec fn trim_char_seq(s: Seq<char>, c: char) -> Seq<char> {
    strip_end_char(strip_start_char(s, c), c)
}

/// `pat` occurs in `s` starting at position `i`.
pub open spec fn occurs_at(s: Seq<char>, pat: Seq<char>, i: int) -> bool {
    0 <= i && i + pat.len() <= s.len() && s.subrange(i, i + pat.len()) == pat
}

/// `pat` occurs somewhere in `s`.
pub open spec fn contains_seq(s: Seq<char>, pat: Seq<char>) -> bool {
    exists|i: int| occurs_at(s, pat, i)
}

/// `s` begins with `pat`.
pub open spec fn starts_with_seq(s: Seq<char>, pat: Seq<char>) -> bool {
    occurs_at(s, pat, 0)
}

/// `i` is the position of the first occurrence of `pat` in `s`.
pub open spec fn is_first_occurrence(s: Seq<char>, pat: Seq<char>, i: int) -> bool {
    occurs_at(s, pat, i) && forall|j: int| 0 <= j < i ==> !occurs_at(s, pat, j)
}

/// The position of the first occurrence of `pat` in `s`, if there is one.
pub open spec fn first_occurrence(s: Seq<char>, pat: Seq<char>) -> Option<int> {
    if contains_seq(s, pat) {
        Some(choose|i: int| is_first_occurrence(s, pat, i))
    } else {
        None
    }
}

/// The two parts of `s` around the first occurrence of `pat`.
pub open spec fn split_once_seq(s: Seq<char>, pat: Seq<char>) -> Option<(Seq<char>, Seq<char>)> {
    match first_occurrence(s, pat) {
        Some(i) => Some((s.subrange(0, i), s.subrange(i + pat.len(), s.len() as int))),
        None => None,
    }
}

/// The items of `list` with `sep` between each neighbouring pair.
pub open spec fn join_seq(list: Seq<Seq<char>>, sep: Seq<char>) -> Seq<char>
    decreases list.len(),
{
    if list.len() == 0 {
        Seq::empty()
    } else if list.len() == 1 {
        list[0]
    } else {
        join_seq(list.drop_last(), sep) + sep + list.last()
    }
}

/// The character of a decimal digit.
pub open spec fn digit_char(d: nat) -> char {
    if d == 0 { '0' }
    else if d == 1 { '1' }
    else if d == 2 { '2' }
    else if d == 3 { '3' }
    else if d == 4 { '4' }
    else if d == 5 { '5' }
    else if d == 6 { '6' }
    else if d == 7 { '7' }
    else if d == 8 { '8' }
    else { '9' }
}

/// The decimal rendering of `n`, without sign or leading zeros.
pub open spec fn decimal(n: nat) -> Seq<char>
    decreases n,
{
    if n < 10 {
        seq![digit_char(n)]
    } else {
        decimal(n / 10).push(digit_char(n % 10))
    }
}

/// The view of every string in `v`.
pub open spec fn views(v: Seq<String>) -> Seq<Seq<char>> {
    v.map_values(|s: String| s@)
}

/// The view of an optional string.
pub open spec fn opt_view(o: Option<String>) -> Option<Seq<char>> {
    match o {
        Some(s) => Some(s@),
        None => None,
    }
}

/// What `str::to_lowercase` returns for `s`: the Unicode lowercase mapping,
/// which depends on the characters of `s` alone.
pub uninterp spec fn lowercase(s: Seq<char>) -> Seq<char>;

// ---------------------------------------------------------------------------
// Trusted
// ---------------------------------------------------------------------------

/// Calls `str::to_lowercase`. Trusted to return the Unicode lowercase mapping
/// of `s`, named `lowercase`; nothing more is claimed of it.
#[verifier::external_body]
pub(crate) fn to_lowercase(s: &str) -> (res: String)
    ensures
        res@ == lowercase(s@),
{
    s.to_lowercase()
}

// ---------------------------------------------------------------------------
// Executable operations
// ---------------------------------------------------------------------------

/// The characters of `s`, in order.
pub fn chars_of(s: &str) -> (res: Vec<char>)
    ensures
        res@ == s@,
{
    let mut res: Vec<char> = Vec::new();
    for c in it: s.chars()
        invariant
            res@ == it.seq().subrange(0, it.index() as int),
    {
        res.push(c);
    }
    res
}

/// An owned copy of `s`.
pub fn owned(s: &str) -> (res: String)
    ensures
        res@ == s@,
{
    String::from_str(s)
}

/// The concatenation of `a` and `b`.
pub fn cat(a: &str, b: &str) -> (res: String)
    ensures
        res@ == a@ + b@,
{
    String::from_str(a).concat(b)
}

/// The characters of `s` from position `from` up to `to`.
pub fn substring(s: &str, from: usize, to: usize) -> (res: String)
    requires
        from <= to <= s@.len(),
    ensures
        res@ == s@.subrange(from as int, to as int),
{
    String::from_str(s.substring_char(from, to))
}

/// Tests `char::is_whitespace`: the Unicode `White_Space` property.
pub fn is_whitespace(c: char) -> (res: bool)
    ensures
        res == is_white_space(c),
{
    let v = c as u32;
    (0x09 <= v && v <= 0x0d) || v == 0x20 || v == 0x85 || v == 0xa0 || v == 0x1680 || (0x2000
        <= v && v <= 0x200a) || v == 0x2028 || v == 0x2029 || v == 0x202f || v == 0x205f || v
        == 0x3000
}

/// Whether `s` and `t` hold the same characters.
pub fn str_eq(s: &str, t: &str) -> (res: bool)
    ensures
        res == (s@ == t@),
{
    let a = String::from_str(s);
    let b = String::from_str(t);
    a == b
}

proof fn lemma_trim_start_skip(s: Seq<char>, i: int)
    requires
        0 <= i <= s.len(),
        forall|j: int| 0 <= j < i ==> is_white_space(#[trigger] s[j]),
    ensures
        trim_start_seq(s) == trim_start_seq(s.subrange(i, s.len() as int)),
    decreases i,
{
    if i == 0 {
        assert(s.subrange(0, s.len() as int) =~= s);
    } else {
        assert(is_white_space(s[0]));
        let t = s.drop_first();
        assert forall|j: int| 0 <= j < i - 1 implies is_white_space(#[trigger] t[j]) by {
            assert(t[j] == s[j + 1]);
        }
        lemma_trim_start_skip(t, i - 1);
        assert(t.subrange(i - 1, t.len() as int) =~= s.subrange(i, s.len() as int));
    }
}

proof fn lemma_trim_end_skip(s: Seq<char>, k: int)
    requires
        0 <= k <= s.len(),
        forall|j: int| k <= j < s.len() ==> is_white_space(#[trigger] s[j]),
    ensures
        trim_end_seq(s) == trim_end_seq(s.subrange(0, k)),
    decreases s.len() - k,
{
    if k == s.len() {
        assert(s.subrange(0, k) =~= s);
    } else {
        assert(is_white_space(s[s.len() - 1]));
        let t = s.drop_last();
        assert forall|j: int| k <= j < t.len() implies is_white_space(#[trigger] t[j]) by {
            assert(t[j] == s[j]);
        }
        lemma_trim_end_skip(t, k);
        assert(t.subrange(0, k) =~= s.subrange(0, k));
    }
}

proof fn lemma_strip_start_skip(s: Seq<char>, c: char, i: int)
    requires
        0 <= i <= s.len(),
        forall|j: int| 0 <= j < i ==> #[trigger] s[j] == c,
    ensures
        strip_start_char(s, c) == strip_start_char(s.subrange(i, s.len() as int), c),
    decreases i,
{
    if i == 0 {
        assert(s.subrange(0, s.len() as int) =~= s);
    } else {
        assert(s[0] == c);
        let t = s.drop_first();
        assert forall|j: int| 0 <= j < i - 1 implies #[trigger] t[j] == c by {
            assert(t[j] == s[j + 1]);
        }
        lemma_strip_start_skip(t, c, i - 1);
        assert(t.subrange(i - 1, t.len() as int) =~= s.subrange(i, s.len() as int));
    }
}

proof fn lemma_strip_end_skip(s: Seq<char>, c: char, k: int)
    requires
        0 <= k <= s.len(),
        forall|j: int| k <= j < s.len() ==> #[trigger] s[j] == c,
    ensures
        strip_end_char(s, c) == strip_end_char(s.subrange(0, k), c),
    decreases s.len() - k,
{
    if k == s.len() {
        assert(s.subrange(0, k) =~= s);
    } else {
        assert(s[s.len() - 1] == c);
        let t = s.drop_last();
        assert forall|j: int| k <= j < t.len() implies #[trigger] t[j] == c by {
            assert(t[j] == s[j]);
        }
        lemma_strip_end_skip(t, c, k);
        assert(t.subrange(0, k) =~= s.subrange(0, k));
    }
}

/// `str::trim_start`: `s` without its leading white space.
pub fn trim_start(s: &str) -> (res: String)
    ensures
        res@ == trim_start_seq(s@),
{
    let cs = chars_of(s);
    let n = cs.len();
    let mut i: usize = 0;
    while i < n && is_whitespace(cs[i])
        invariant
            cs@ == s@,
            n == cs.len(),
            i <= n,
            forall|j: int| 0 <= j < i ==> is_white_space(#[trigger] s@[j]),
        decreases n - i,
    {
        i = i + 1;
    }
    proof {
        lemma_trim_start_skip(s@, i as int);
    }
    substring(s, i, n)
}

/// `str::trim`: `s` without its leading and trailing white space.
pub fn trim(s: &str) -> (res: String)
    ensures
        res@ == trim_seq(s@),
{
    let cs = chars_of(s);
    let n = cs.len();
    let mut i: usize = 0;
    while i < n && is_whitespace(cs[i])
        invariant
            cs@ == s@,
            n == cs.len(),
            i <= n,
            forall|j: int| 0 <= j < i ==> is_white_space(#[trigger] s@[j]),
        decreases n - i,
    {
        i = i + 1;
    }
    let ghost t = s@.subrange(i as int, n as int);
    proof {
        lemma_trim_start_skip(s@, i as int);
        if i < n {
            assert(t[0] == s@[i as int]);
        }
        assert(trim_start_seq(t) == t);
    }
    let mut k: usize = n;
    while k > i && is_whitespace(cs[k - 1])
        invariant
            cs@ == s@,
            n == cs.len(),
            i <= k <= n,
            t == s@.subrange(i as int, n as int),
            forall|j: int| k - i <= j < t.len() ==> is_white_space(#[trigger] t[j]),
        decreases k,
    {
        assert(t[k - 1 - i] == s@[k - 1]);
        k = k - 1;
    }
    proof {
        lemma_trim_end_skip(t, k - i);
        let u = t.subrange(0, k - i);
        assert(u =~= s@.subrange(i as int, k as int));
        if k > i {
            assert(u.last() == s@[k - 1]);
        }
        assert(trim_end_seq(u) == u);
    }
    substring(s, i, k)
}

/// `str::trim_matches(c)`: `s` without its leading and trailing `c`s.
pub fn trim_char(s: &str, c: char) -> (res: String)
    ensures
        res@ == trim_char_seq(s@, c),
{
    let cs = chars_of(s);
    let n = cs.len();
    let mut i: usize = 0;
    while i < n && cs[i] == c
        invariant
            cs@ == s@,
            n == cs.len(),
            i <= n,
            forall|j: int| 0 <= j < i ==> #[trigger] s@[j] == c,
        decreases n - i,
    {
        i = i + 1;
    }
    let ghost t = s@.subrange(i as int, n as int);
    proof {
        lemma_strip_start_skip(s@, c, i as int);
        if i < n {
            assert(t[0] == s@[i as int]);
        }
        assert(strip_start_char(t, c) == t);
    }
    let mut k: usize = n;
    while k > i && cs[k - 1] == c
        invariant
            cs@ == s@,
            n == cs.len(),
            i <= k <= n,
            t == s@.subrange(i as int, n as int),
            forall|j: int| k - i <= j < t.len() ==> #[trigger] t[j] == c,
        decreases k,
    {
        assert(t[k - 1 - i] == s@[k - 1]);
        k = k - 1;
    }
    proof {
        lemma_strip_end_skip(t, c, k - i);
        let u = t.subrange(0, k - i);
        assert(u =~= s@.subrange(i as int, k as int));
        if k > i {
            assert(u.last() == s@[k - 1]);
        }
        assert(strip_end_char(u, c) == u);
    }
    substring(s, i, k)
}

/// Whether `pat` occurs in `cs` at position `i`.
fn matches_at(cs: &Vec<char>, pat: &Vec<char>, i: usize) -> (res: bool)
    ensures
        res == occurs_at(cs@, pat@, i as int),
{
    if i > cs.len() || pat.len() > cs.len() - i {
        return false;
    }
    let m = pat.len();
    let mut j: usize = 0;
    while j < m
        invariant
            m == pat.len(),
            i + m <= cs.len(),
            j <= m,
            forall|k: int| 0 <= k < j ==> cs@[i + k] == pat@[k],
        decreases m - j,
    {
        if cs[i + j] != pat[j] {
            assert(cs@.subrange(i as int, i + m)[j as int] != pat@[j as int]);
            return false;
        }
        j = j + 1;
    }
    assert(cs@.subrange(i as int, i + m) =~= pat@);
    true
}

/// The position of the first occurrence of `pat` in `s`, counted in characters.
pub fn find(s: &str, pat: &str) -> (res: Option<usize>)
    ensures
        match res {
            Some(i) => is_first_occurrence(s@, pat@, i as int),
            None => !contains_seq(s@, pat@),
        },
        res is Some <==> contains_seq(s@, pat@),
        res matches Some(i) ==> first_occurrence(s@, pat@) == Some(i as int),
{
    let cs = chars_of(s);
    let ps = chars_of(pat);
    let n = cs.len();
    let m = ps.len();
    if m > n {
        assert forall|j: int| !occurs_at(s@, pat@, j) by {}
        return None;
    }
    if m == 0 {
        proof {
            assert(s@.subrange(0, 0) =~= pat@);
            assert(is_first_occurrence(s@, pat@, 0));
            let k = choose|k: int| is_first_occurrence(s@, pat@, k);
            if k > 0 {
                assert(!occurs_at(s@, pat@, 0));
            }
        }
        return Some(0);
    }
    let mut i: usize = 0;
    while i <= n - m
        invariant
            cs@ == s@,
            ps@ == pat@,
            n == cs.len(),
            m == ps.len(),
            1 <= m <= n,
            i <= n - m + 1,
            forall|j: int| 0 <= j < i ==> !occurs_at(s@, pat@, j),
        decreases n - m + 1 - i,
    {
        if matches_at(&cs, &ps, i) {
            proof {
                assert(is_first_occurrence(s@, pat@, i as int));
                let k = choose|k: int| is_first_occurrence(s@, pat@, k);
                if k < i {
                    assert(!occurs_at(s@, pat@, k));
                } else if k > i {
                    assert(!occurs_at(s@, pat@, i as int));
                }
            }
            return Some(i);
        }
        i = i + 1;
    }
    proof {
        assert forall|j: int| !occurs_at(s@, pat@, j) by {
            if 0 <= j < i {
            } else if j >= i {
                assert(j + m > n);
            }
        }
    }
    None
}

/// `str::contains`: whether `pat` occurs in `s`.
pub fn contains(s: &str, pat: &str) -> (res: bool)
    ensures
        res == contains_seq(s@, pat@),
{
    find(s, pat).is_some()
}

/// `str::starts_with`: whether `s` begins with `pat`.
pub fn starts_with(s: &str, pat: &str) -> (res: bool)
    ensures
        res == starts_with_seq(s@, pat@),
{
    let cs = chars_of(s);
    let ps = chars_of(pat);
    matches_at(&cs, &ps, 0)
}

/// `str::split_once`: the parts of `s` before and after the first `pat`.
pub fn split_once(s: &str, pat: &str) -> (res: Option<(String, String)>)
    ensures
        match res {
            Some((a, b)) => split_once_seq(s@, pat@) == Some((a@, b@)),
            None => split_once_seq(s@, pat@) is None,
        },
{
    match find(s, pat) {
        Some(i) => {
            let n = s.unicode_len();
            let m = pat.unicode_len();
            let a = substring(s, 0, i);
            let b = substring(s, i + m, n);
            Some((a, b))
        },
        None => None,
    }
}

/// `[..].join(sep)`: the items of `list` with `sep` between neighbours.
pub fn join(list: &Vec<String>, sep: &str) -> (res: String)
    ensures
        res@ == join_seq(views(list@), sep@),
{
    let mut res = String::new();
    let n = list.len();
    let mut i: usize = 0;
    while i < n
        invariant
            n == list.len(),
            i <= n,
            res@ == join_seq(views(list@).subrange(0, i as int), sep@),
        decreases n - i,
    {
        let ghost prev = views(list@).subrange(0, i as int);
        let ghost next = views(list@).subrange(0, i + 1);
        assert(next.drop_last() =~= prev);
        if i > 0 {
            res.append(sep);
        }
        res.append(list[i].as_str());
        proof {
            if i == 0 {
                assert(res@ =~= next[0]);
            }
        }
        i = i + 1;
    }
    assert(views(list@).subrange(0, n as int) =~= views(list@));
    res
}

/// The text of one decimal digit.
fn digit_text(d: u64) -> (res: &'static str)
    requires
        d < 10,
    ensures
        res@ == seq![digit_char(d as nat)],
{
    if d == 0 {
        proof { reveal_strlit("0"); }
        "0"
    } else if d == 1 {
        proof { reveal_strlit("1"); }
        "1"
    } else if d == 2 {
        proof { reveal_strlit("2"); }
        "2"
    } else if d == 3 {
        proof { reveal_strlit("3"); }
        "3"
    } else if d == 4 {
        proof { reveal_strlit("4"); }
        "4"
    } else if d == 5 {
        proof { reveal_strlit("5"); }
        "5"
    } else if d == 6 {
        proof { reveal_strlit("6"); }
        "6"
    } else if d == 7 {
        proof { reveal_strlit("7"); }
        "7"
    } else if d == 8 {
        proof { reveal_strlit("8"); }
        "8"
    } else {
        proof { reveal_strlit("9"); }
        "9"
    }
}

/// The decimal text of `n`, as `n.to_string()` gives it.
pub fn decimal_text(n: u64) -> (res: String)
    ensures
        res@ == decimal(n as nat),
    decreases n,
{
    if n < 10 {
        owned(digit_text(n))
    } else {
        let mut s = decimal_text(n / 10);
        s.append(digit_text(n % 10));
        assert(s@ =~= decimal((n / 10) as nat).push(digit_char((n % 10) as nat)));
        s
    }
}

} // verus!
