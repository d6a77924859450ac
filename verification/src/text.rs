//! Character-level text helpers shared by the whole bot: whitespace
//! handling, prefixes, searching, integer parsing and formatting.
//!
//! Texts are modelled by their character sequence (`Seq<char>`), which is
//! what `&str` and `String` view as in Verus.
use vstd::prelude::*;

verus! {

// ---------------------------------------------------------------------
// Character classes
// ---------------------------------------------------------------------

/// The Unicode `White_Space` property (PropList.txt), the class that
/// `char::is_whitespace`, `str::trim` and `str::split_whitespace` use.
pub open spec fn is_ws(c: char) -> bool {
    let n = c as u32;
    ||| (0x09 <= n && n <= 0x0D)
    ||| n == 0x20
    ||| n == 0x85
    ||| n == 0xA0
    ||| n == 0x1680
    ||| (0x2000 <= n && n <= 0x200A)
    ||| n == 0x2028
    ||| n == 0x2029
    ||| n == 0x202F
    ||| n == 0x205F
    ||| n == 0x3000
}

/// Whether `c` is white space in the sense of [`is_ws`].
pub fn is_whitespace(c: char) -> (r: bool)
    ensures
        r == is_ws(c),
{
    let n = c as u32;
    (0x09 <= n && n <= 0x0D) || n == 0x20 || n == 0x85 || n == 0xA0 || n == 0x1680 || (0x2000
        <= n && n <= 0x200A) || n == 0x2028 || n == 0x2029 || n == 0x202F || n == 0x205F || n
        == 0x3000
}

/// An ASCII decimal digit `'0'..='9'`.
pub open spec fn is_digit(c: char) -> bool {
    '0' <= c && c <= '9'
}

/// An ASCII letter.
pub open spec fn is_ascii_alpha(c: char) -> bool {
    ('a' <= c && c <= 'z') || ('A' <= c && c <= 'Z')
}

pub fn is_ascii_digit(c: char) -> (r: bool)
    ensures
        r == is_digit(c),
{
    '0' <= c && c <= '9'
}

pub fn is_ascii_alphabetic(c: char) -> (r: bool)
    ensures
        r == is_ascii_alpha(c),
{
    ('a' <= c && c <= 'z') || ('A' <= c && c <= 'Z')
}

/// `[x]` when `b` holds, nothing otherwise.
pub open spec fn if_then<T>(b: bool, x: T) -> Seq<T> {
    if b {
        seq![x]
    } else {
        seq![]
    }
}

/// The texts `f(i, s[i])` for every index of `s`, one after the other.
pub open spec fn concat_indexed<T>(s: Seq<T>, f: spec_fn(int, T) -> Seq<char>) -> Seq<char>
    decreases s.len(),
{
    if s.len() == 0 {
        seq![]
    } else {
        concat_indexed(s.drop_last(), f) + f(s.len() - 1, s.last())
    }
}

/// One step of [`concat_indexed`] over a growing prefix.
pub proof fn lemma_concat_indexed_step<T>(s: Seq<T>, f: spec_fn(int, T) -> Seq<char>, i: int)
    requires
        0 <= i < s.len(),
    ensures
        concat_indexed(s.subrange(0, i + 1), f) == concat_indexed(s.subrange(0, i), f) + f(i, s[i]),
{
    assert(s.subrange(0, i + 1).drop_last() =~= s.subrange(0, i));
}

// ---------------------------------------------------------------------
// Conversions between strings and character vectors
// ---------------------------------------------------------------------

/// The characters of `s`, in order.
pub fn chars_of(s: &str) -> (r: Vec<char>)
    ensures
        r@ == s@,
{
    let mut r: Vec<char> = Vec::new();
    for c in it: s.chars()
        invariant
            r@ == it.seq().take(it.index() as int),
            it.seq() == s@,
    {
        r.push(c);
    }
    r
}

/// `String::push`. The contract claims that afterwards the text is the
/// text before followed by `c`.
#[verifier::external_body]
pub(crate) fn push_char(s: &mut String, c: char)
    ensures
        final(s)@ == old(s)@.push(c),
{
    s.push(c);
}

/// A copy of `cs[from..to]`.
pub fn copy_range(cs: &[char], from: usize, to: usize) -> (r: Vec<char>)
    requires
        from <= to <= cs@.len(),
    ensures
        r@ == cs@.subrange(from as int, to as int),
{
    let mut r: Vec<char> = Vec::new();
    let mut i: usize = from;
    while i < to
        invariant
            from <= i <= to,
            to <= cs@.len(),
            r@ == cs@.subrange(from as int, i as int),
        decreases to - i,
    {
        r.push(cs[i]);
        assert(cs@.subrange(from as int, i + 1) =~= cs@.subrange(from as int, i as int).push(
            cs@[i as int],
        ));
        i = i + 1;
    }
    r
}

/// The string made of the characters `cs[from..to]`.
pub fn string_from_range(cs: &[char], from: usize, to: usize) -> (r: String)
    requires
        from <= to <= cs@.len(),
    ensures
        r@ == cs@.subrange(from as int, to as int),
{
    let mut r = String::new();
    let mut i: usize = from;
    while i < to
        invariant
            from <= i <= to,
            to <= cs@.len(),
            r@ == cs@.subrange(from as int, i as int),
        decreases to - i,
    {
        push_char(&mut r, cs[i]);
        assert(cs@.subrange(from as int, i + 1) =~= cs@.subrange(from as int, i as int).push(
            cs@[i as int],
        ));
        i = i + 1;
    }
    r
}

/// The string made of the characters `cs`.
pub fn string_from_chars(cs: &[char]) -> (r: String)
    ensures
        r@ == cs@,
{
    let r = string_from_range(cs, 0, cs.len());
    assert(cs@.subrange(0, cs@.len() as int) =~= cs@);
    r
}

/// A fresh `String` holding `s`.
pub fn owned(s: &str) -> (r: String)
    ensures
        r@ == s@,
{
    s.to_owned()
}

/// `a` followed by `b`.
pub fn concat(a: &str, b: &str) -> (r: String)
    ensures
        r@ == a@ + b@,
{
    let mut r = a.to_owned();
    r.append(b);
    r
}

/// `a`, `b` and `c` one after the other.
pub fn concat3(a: &str, b: &str, c: &str) -> (r: String)
    ensures
        r@ == a@ + b@ + c@,
{
    let mut r = a.to_owned();
    r.append(b);
    r.append(c);
    r
}

/// Appends `b` to `a`.
pub fn append(a: &mut String, b: &str)
    ensures
        final(a)@ == old(a)@ + b@,
{
    a.append(b);
}

/// `str::to_lowercase`: the Unicode lower-case mapping of a text. Its table
/// spans the whole Unicode character database, so it is named here, not
/// written out.
pub uninterp spec fn lowercase(s: Seq<char>) -> Seq<char>;

/// `str::to_lowercase`. The contract claims only that the result is the
/// lower-case mapping of `s`, a function of `s` alone.
#[verifier::external_body]
pub(crate) fn to_lowercase(s: &str) -> (r: String)
    ensures
        r@ == lowercase(s@),
{
    s.to_lowercase()
}

// ---------------------------------------------------------------------
// Equality
// ---------------------------------------------------------------------

/// Whether two character slices hold the same characters.
pub fn chars_eq(a: &[char], b: &[char]) -> (r: bool)
    ensures
        r == (a@ == b@),
{
    if a.len() != b.len() {
        return false;
    }
    let mut i: usize = 0;
    while i < a.len()
        invariant
            i <= a@.len(),
            a@.len() == b@.len(),
            forall|j: int| 0 <= j < i ==> a@[j] == b@[j],
        decreases a.len() - i,
    {
        if a[i] != b[i] {
            return false;
        }
        i = i + 1;
    }
    assert(a@ =~= b@);
    true
}

/// Whether two texts are equal.
pub fn str_eq(a: &str, b: &str) -> (r: bool)
    ensures
        r == (a@ == b@),
{
    let ca = chars_of(a);
    let cb = chars_of(b);
    chars_eq(ca.as_slice(), cb.as_slice())
}

// ---------------------------------------------------------------------
// Trimming
// ---------------------------------------------------------------------

/// `s` without its leading white space.
pub open spec fn trim_start_spec(s: Seq<char>) -> Seq<char>
    decreases s.len(),
{
    if s.len() > 0 && is_ws(s[0]) {
        trim_start_spec(s.drop_first())
    } else {
        s
    }
}

/// `s` without its trailing white space.
pub open spec fn trim_end_spec(s: Seq<char>) -> Seq<char>
    decreases s.len(),
{
    if s.len() > 0 && is_ws(s.last()) {
        trim_end_spec(s.drop_last())
    } else {
        s
    }
}

/// `s` without leading and trailing white space, as `str::trim` gives it.
pub open spec fn trim_spec(s: Seq<char>) -> Seq<char> {
    trim_end_spec(trim_start_spec(s))
}

/// Index of the first character of `cs` at or after `from` that is not
/// white space, and what trimming the start of the rest gives.
fn skip_ws_forward(cs: &[char], from: usize) -> (r: usize)
    requires
        from <= cs@.len(),
    ensures
        from <= r <= cs@.len(),
        trim_start_spec(cs@.subrange(from as int, cs@.len() as int)) == cs@.subrange(
            r as int,
            cs@.len() as int,
        ),
        r < cs@.len() ==> !is_ws(cs@[r as int]),
        forall|j: int| from <= j < r ==> is_ws(#[trigger] cs@[j]),
{
    let mut i = from;
    while i < cs.len() && is_whitespace(cs[i])
        invariant
            from <= i <= cs@.len(),
            trim_start_spec(cs@.subrange(from as int, cs@.len() as int)) == trim_start_spec(
                cs@.subrange(i as int, cs@.len() as int),
            ),
            forall|j: int| from <= j < i ==> is_ws(#[trigger] cs@[j]),
        decreases cs.len() - i,
    {
        assert(cs@.subrange(i as int, cs@.len() as int).drop_first() =~= cs@.subrange(
            i + 1,
            cs@.len() as int,
        ));
        i = i + 1;
    }
    proof {
        lemma_trim_start_at_non_ws(cs@.subrange(i as int, cs@.len() as int));
    }
    i
}

proof fn lemma_trim_start_at_non_ws(s: Seq<char>)
    requires
        s.len() == 0 || !is_ws(s[0]),
    ensures
        trim_start_spec(s) == s,
{
}

/// Index just past the last character of `cs[from..to]` that is not white
/// space (`from` when there is none).
fn skip_ws_backward(cs: &[char], from: usize, to: usize) -> (r: usize)
    requires
        from <= to <= cs@.len(),
    ensures
        from <= r <= to,
        trim_end_spec(cs@.subrange(from as int, to as int)) == cs@.subrange(
            from as int,
            r as int,
        ),
        r > from ==> !is_ws(cs@[r - 1]),
        forall|j: int| r <= j < to ==> is_ws(#[trigger] cs@[j]),
{
    let mut e = to;
    while e > from && is_whitespace(cs[e - 1])
        invariant
            from <= e <= to,
            to <= cs@.len(),
            trim_end_spec(cs@.subrange(from as int, to as int)) == trim_end_spec(
                cs@.subrange(from as int, e as int),
            ),
            forall|j: int| e <= j < to ==> is_ws(#[trigger] cs@[j]),
        decreases e - from,
    {
        assert(cs@.subrange(from as int, e as int).drop_last() =~= cs@.subrange(
            from as int,
            e - 1,
        ));
        e = e - 1;
    }
    e
}

/// Bounds `(a, b)` such that `cs[a..b]` is `cs` trimmed.
pub fn trim_bounds(cs: &[char]) -> (r: (usize, usize))
    ensures
        r.0 <= r.1 <= cs@.len(),
        cs@.subrange(r.0 as int, r.1 as int) == trim_spec(cs@),
{
    let a = skip_ws_forward(cs, 0);
    assert(cs@.subrange(0, cs@.len() as int) =~= cs@);
    let b = skip_ws_backward(cs, a, cs.len());
    (a, b)
}

/// `str::trim`: `s` without leading and trailing white space.
pub fn trim(s: &str) -> (r: String)
    ensures
        r@ == trim_spec(s@),
{
    let cs = chars_of(s);
    let (a, b) = trim_bounds(cs.as_slice());
    string_from_range(cs.as_slice(), a, b)
}

/// Whether `s`, trimmed, is empty or only white space.
pub fn is_blank(s: &str) -> (r: bool)
    ensures
        r == (trim_spec(s@).len() == 0),
{
    let cs = chars_of(s);
    let (a, b) = trim_bounds(cs.as_slice());
    a == b
}

// ---------------------------------------------------------------------
// Prefixes
// ---------------------------------------------------------------------

/// Whether `s` begins with `p`.
pub open spec fn starts_with_spec(s: Seq<char>, p: Seq<char>) -> bool {
    p.len() <= s.len() && s.subrange(0, p.len() as int) == p
}

/// Whether `cs[from..]` begins with `p`.
pub fn chars_start_with_at(cs: &[char], from: usize, p: &[char]) -> (r: bool)
    requires
        from <= cs@.len(),
    ensures
        r == starts_with_spec(cs@.subrange(from as int, cs@.len() as int), p@),
{
    let n = p.len();
    if n > cs.len() - from {
        return false;
    }
    let mut i: usize = 0;
    while i < n
        invariant
            n == p@.len(),
            i <= n,
            from + n <= cs@.len(),
            cs@.len() <= usize::MAX,
            forall|j: int| 0 <= j < i ==> cs@[from + j] == p@[j],
        decreases n - i,
    {
        if cs[from + i] != p[i] {
            assert(cs@.subrange(from as int, cs@.len() as int).subrange(0, p@.len() as int)[i as int]
                != p@[i as int]);
            return false;
        }
        i = i + 1;
    }
    assert(cs@.subrange(from as int, cs@.len() as int).subrange(0, p@.len() as int) =~= p@);
    true
}

/// `str::starts_with`.
pub fn starts_with(s: &str, p: &str) -> (r: bool)
    ensures
        r == starts_with_spec(s@, p@),
{
    let cs = chars_of(s);
    let ps = chars_of(p);
    let r = chars_start_with_at(cs.as_slice(), 0, ps.as_slice());
    assert(cs@.subrange(0, cs@.len() as int) =~= cs@);
    r
}

/// `str::strip_prefix`.
pub fn strip_prefix(s: &str, p: &str) -> (r: Option<String>)
    ensures
        starts_with_spec(s@, p@) ==> (r matches Some(t) && t@ == s@.skip(p@.len() as int)),
        !starts_with_spec(s@, p@) ==> r is None,
{
    let cs = chars_of(s);
    let ps = chars_of(p);
    assert(cs@.subrange(0, cs@.len() as int) =~= cs@);
    if chars_start_with_at(cs.as_slice(), 0, ps.as_slice()) {
        let t = string_from_range(cs.as_slice(), ps.len(), cs.len());
        assert(cs@.subrange(ps@.len() as int, cs@.len() as int) =~= s@.skip(ps@.len() as int));
        Some(t)
    } else {
        None
    }
}

/// `s` with every leading `c` removed (`str::trim_start_matches` with a
/// character).
pub open spec fn trim_start_char_spec(s: Seq<char>, c: char) -> Seq<char>
    decreases s.len(),
{
    if s.len() > 0 && s[0] == c {
        trim_start_char_spec(s.drop_first(), c)
    } else {
        s
    }
}

/// `str::trim_start_matches` with a character pattern.
pub fn trim_start_char(s: &str, c: char) -> (r: String)
    ensures
        r@ == trim_start_char_spec(s@, c),
{
    let cs = chars_of(s);
    let mut i: usize = 0;
    assert(cs@.subrange(0, cs@.len() as int) =~= cs@);
    while i < cs.len() && cs[i] == c
        invariant
            i <= cs@.len(),
            cs@ == s@,
            trim_start_char_spec(s@, c) == trim_start_char_spec(
                cs@.subrange(i as int, cs@.len() as int),
                c,
            ),
        decreases cs.len() - i,
    {
        assert(cs@.subrange(i as int, cs@.len() as int).drop_first() =~= cs@.subrange(
            i + 1,
            cs@.len() as int,
        ));
        i = i + 1;
    }
    string_from_range(cs.as_slice(), i, cs.len())
}

/// `s` with every leading copy of `p` removed (`str::trim_start_matches`
/// with a non-empty text pattern).
pub open spec fn trim_start_str_spec(s: Seq<char>, p: Seq<char>) -> Seq<char>
    decreases s.len(),
{
    if p.len() > 0 && starts_with_spec(s, p) {
        trim_start_str_spec(s.skip(p.len() as int), p)
    } else {
        s
    }
}

/// `str::trim_start_matches` with a text pattern.
pub fn trim_start_str(s: &str, p: &str) -> (r: String)
    ensures
        r@ == trim_start_str_spec(s@, p@),
{
    let cs = chars_of(s);
    let ps = chars_of(p);
    let mut i: usize = 0;
    assert(cs@.subrange(0, cs@.len() as int) =~= cs@);
    while ps.len() > 0 && chars_start_with_at(cs.as_slice(), i, ps.as_slice())
        invariant
            i <= cs@.len(),
            cs@ == s@,
            ps@ == p@,
            trim_start_str_spec(s@, p@) == trim_start_str_spec(
                cs@.subrange(i as int, cs@.len() as int),
                p@,
            ),
        decreases cs.len() - i,
    {
        assert(cs@.subrange(i as int, cs@.len() as int).skip(ps@.len() as int) =~= cs@.subrange(
            i + ps@.len(),
            cs@.len() as int,
        ));
        i = i + ps.len();
    }
    string_from_range(cs.as_slice(), i, cs.len())
}

// ---------------------------------------------------------------------
// Searching
// ---------------------------------------------------------------------

/// Whether `p` occurs in `s` starting at index `i`.
pub open spec fn occurs_at(s: Seq<char>, p: Seq<char>, i: int) -> bool {
    0 <= i && i + p.len() <= s.len() && s.subrange(i, i + p.len()) == p
}

/// Whether `p` occurs anywhere in `s` (`str::contains`).
pub open spec fn contains_spec(s: Seq<char>, p: Seq<char>) -> bool {
    exists|i: int| occurs_at(s, p, i)
}

/// Whether `p` occurs in `cs`.
pub fn chars_contain(cs: &[char], p: &[char]) -> (r: bool)
    ensures
        r == contains_spec(cs@, p@),
{
    if p.len() > cs.len() {
        assert forall|i: int| !occurs_at(cs@, p@, i) by {}
        return false;
    }
    if p.len() == 0 {
        assert(cs@.subrange(0, 0) =~= p@);
        assert(occurs_at(cs@, p@, 0));
        return true;
    }
    let mut i: usize = 0;
    let last = cs.len() - p.len();
    while i <= last
        invariant
            0 < p@.len() <= cs@.len(),
            cs@.len() <= usize::MAX,
            last == cs@.len() - p@.len(),
            i <= last + 1,
            forall|j: int| 0 <= j < i ==> !occurs_at(cs@, p@, j),
        decreases last + 1 - i,
    {
        if chars_start_with_at(cs, i, p) {
            assert(cs@.subrange(i as int, cs@.len() as int).subrange(0, p@.len() as int)
                =~= cs@.subrange(i as int, i + p@.len()));
            assert(occurs_at(cs@, p@, i as int));
            return true;
        }
        assert(cs@.subrange(i as int, cs@.len() as int).subrange(0, p@.len() as int)
            =~= cs@.subrange(i as int, i + p@.len()));
        i = i + 1;
    }
    assert forall|j: int| !occurs_at(cs@, p@, j) by {
        if 0 <= j < i {
        }
    }
    false
}

/// `str::contains` with a text pattern.
pub fn contains(s: &str, p: &str) -> (r: bool)
    ensures
        r == contains_spec(s@, p@),
{
    let cs = chars_of(s);
    let ps = chars_of(p);
    chars_contain(cs.as_slice(), ps.as_slice())
}


// ---------------------------------------------------------------------
// Splitting into words (`str::split_whitespace`)
// ---------------------------------------------------------------------

/// The views of a sequence of strings.
pub open spec fn views(v: Seq<String>) -> Seq<Seq<char>> {
    v.map_values(|w: String| w@)
}

/// Length of the run of non-white-space characters that `s` begins with.
pub open spec fn word_len(s: Seq<char>) -> nat
    decreases s.len(),
{
    if s.len() > 0 && !is_ws(s[0]) {
        1 + word_len(s.drop_first())
    } else {
        0
    }
}

pub proof fn lemma_word_len_bound(s: Seq<char>)
    ensures
        word_len(s) <= s.len(),
    decreases s.len(),
{
    if s.len() > 0 && !is_ws(s[0]) {
        lemma_word_len_bound(s.drop_first());
    }
}

/// The maximal runs of non-white-space characters of `s`, in order, as
/// `str::split_whitespace` yields them.
pub open spec fn words(s: Seq<char>) -> Seq<Seq<char>>
    decreases s.len(),
{
    if s.len() == 0 {
        seq![]
    } else if is_ws(s[0]) {
        words(s.drop_first())
    } else {
        let k = word_len(s);
        proof {
            lemma_word_len_bound(s);
        }
        seq![s.take(k as int)] + words(s.skip(k as int))
    }
}

/// `str::split_whitespace`, collected.
pub fn split_whitespace(s: &str) -> (r: Vec<String>)
    ensures
        views(r@) == words(s@),
{
    let cs = chars_of(s);
    let n = cs.len();
    let mut out: Vec<String> = Vec::new();
    let mut i: usize = 0;
    assert(cs@.subrange(0, n as int) =~= cs@);
    while i < n
        invariant
            n == cs@.len(),
            cs@ == s@,
            i <= n,
            words(s@) == views(out@) + words(cs@.subrange(i as int, n as int)),
        decreases n - i,
    {
        if is_whitespace(cs[i]) {
            assert(cs@.subrange(i as int, n as int).drop_first() =~= cs@.subrange(
                i + 1,
                n as int,
            ));
            i = i + 1;
        } else {
            let mut j = i;
            while j < n && !is_whitespace(cs[j])
                invariant
                    i <= j <= n,
                    n == cs@.len(),
                    word_len(cs@.subrange(i as int, n as int)) == (j - i) + word_len(
                        cs@.subrange(j as int, n as int),
                    ),
                decreases n - j,
            {
                assert(cs@.subrange(j as int, n as int).drop_first() =~= cs@.subrange(
                    j + 1,
                    n as int,
                ));
                j = j + 1;
            }
            let w = string_from_range(cs.as_slice(), i, j);
            let ghost rest = cs@.subrange(i as int, n as int);
            assert(word_len(rest) == j - i);
            assert(rest.take((j - i) as int) =~= cs@.subrange(i as int, j as int));
            assert(rest.skip((j - i) as int) =~= cs@.subrange(j as int, n as int));
            let ghost old_out = out@;
            out.push(w);
            assert(views(out@) =~= views(old_out) + seq![w@]);
            i = j;
        }
    }
    assert(cs@.subrange(n as int, n as int) =~= Seq::<char>::empty());
    assert(views(out@) + Seq::<Seq<char>>::empty() =~= views(out@));
    out
}

// ---------------------------------------------------------------------
// Splitting on a separator (`str::split` with a character)
// ---------------------------------------------------------------------

/// The fields of `s` between occurrences of `c`, as `str::split(c)`
/// yields them (empty fields included; one field when `c` is absent).
pub open spec fn split_char_spec(s: Seq<char>, c: char) -> Seq<Seq<char>>
    decreases s.len(),
{
    if s.len() == 0 {
        seq![seq![]]
    } else if s.last() == c {
        split_char_spec(s.drop_last(), c).push(seq![])
    } else {
        let r = split_char_spec(s.drop_last(), c);
        r.update(r.len() - 1, r.last().push(s.last()))
    }
}

/// `str::split` on a character, collected.
pub fn split_char(s: &str, c: char) -> (r: Vec<String>)
    ensures
        views(r@) == split_char_spec(s@, c),
{
    let cs = chars_of(s);
    let n = cs.len();
    let mut done: Vec<String> = Vec::new();
    let mut start: usize = 0;
    let mut i: usize = 0;
    assert(cs@.subrange(0, 0) =~= Seq::<char>::empty());
    while i < n
        invariant
            n == cs@.len(),
            cs@ == s@,
            start <= i <= n,
            split_char_spec(cs@.subrange(0, i as int), c) == views(done@).push(
                cs@.subrange(start as int, i as int),
            ),
        decreases n - i,
    {
        let ghost pre = cs@.subrange(0, i as int);
        assert(cs@.subrange(0, i + 1).drop_last() =~= pre);
        assert(cs@.subrange(0, i + 1).last() == cs@[i as int]);
        if cs[i] == c {
            let w = string_from_range(cs.as_slice(), start, i);
            let ghost old_done = done@;
            done.push(w);
            assert(views(done@) =~= views(old_done).push(w@));
            i = i + 1;
            start = i;
            assert(cs@.subrange(start as int, i as int) =~= Seq::<char>::empty());
        } else {
            assert(cs@.subrange(start as int, i + 1) =~= cs@.subrange(start as int, i as int).push(
                cs@[i as int],
            ));
            i = i + 1;
        }
    }
    let last = string_from_range(cs.as_slice(), start, n);
    let ghost old_done = done@;
    done.push(last);
    assert(views(done@) =~= views(old_done).push(last@));
    assert(cs@.subrange(0, n as int) =~= cs@);
    done
}

// ---------------------------------------------------------------------
// Removing every occurrence of a pattern (`str::replace(p, "")`)
// ---------------------------------------------------------------------

/// `s` with every occurrence of `p` removed, scanning from the left and
/// never overlapping, as `str::replace(p, "")` does.
pub open spec fn remove_all_spec(s: Seq<char>, p: Seq<char>) -> Seq<char>
    decreases s.len(),
{
    if p.len() == 0 || s.len() == 0 {
        s
    } else if starts_with_spec(s, p) {
        remove_all_spec(s.skip(p.len() as int), p)
    } else {
        seq![s[0]] + remove_all_spec(s.drop_first(), p)
    }
}

/// `str::replace(p, "")`.
pub fn remove_all(s: &str, p: &str) -> (r: String)
    ensures
        r@ == remove_all_spec(s@, p@),
{
    let cs = chars_of(s);
    let ps = chars_of(p);
    if ps.len() == 0 {
        return owned(s);
    }
    let n = cs.len();
    let mut out = String::new();
    let mut i: usize = 0;
    assert(cs@.subrange(0, n as int) =~= cs@);
    while i < n
        invariant
            n == cs@.len(),
            cs@ == s@,
            ps@ == p@,
            ps@.len() > 0,
            i <= n,
            remove_all_spec(s@, p@) == out@ + remove_all_spec(cs@.subrange(i as int, n as int), p@),
        decreases n - i,
    {
        let ghost rest = cs@.subrange(i as int, n as int);
        if chars_start_with_at(cs.as_slice(), i, ps.as_slice()) {
            assert(rest.skip(ps@.len() as int) =~= cs@.subrange(i + ps@.len(), n as int));
            i = i + ps.len();
        } else {
            push_char(&mut out, cs[i]);
            assert(rest.drop_first() =~= cs@.subrange(i + 1, n as int));
            i = i + 1;
        }
    }
    assert(cs@.subrange(n as int, n as int) =~= Seq::<char>::empty());
    assert(out@ + Seq::<char>::empty() =~= out@);
    out
}

// ---------------------------------------------------------------------
// Taking a prefix of characters
// ---------------------------------------------------------------------

/// The first `n` characters of `s` (all of `s` when it is shorter).
pub open spec fn take_chars_spec(s: Seq<char>, n: nat) -> Seq<char> {
    if s.len() <= n {
        s
    } else {
        s.take(n as int)
    }
}

/// `s.chars().take(n).collect::<String>()`.
pub fn take_chars(s: &str, n: usize) -> (r: String)
    ensures
        r@ == take_chars_spec(s@, n as nat),
{
    let cs = chars_of(s);
    if cs.len() <= n {
        string_from_chars(cs.as_slice())
    } else {
        let r = string_from_range(cs.as_slice(), 0, n);
        assert(cs@.subrange(0, n as int) =~= cs@.take(n as int));
        r
    }
}

/// `s` with each `from` replaced by `to`.
pub open spec fn replace_char_spec(s: Seq<char>, from: char, to: char) -> Seq<char> {
    s.map_values(|c: char| if c == from { to } else { c })
}

/// `str::replace` of one character by another.
pub fn replace_char(s: &str, from: char, to: char) -> (r: String)
    ensures
        r@ == replace_char_spec(s@, from, to),
{
    let cs = chars_of(s);
    let mut out = String::new();
    let mut i: usize = 0;
    while i < cs.len()
        invariant
            i <= cs@.len(),
            cs@ == s@,
            out@ == replace_char_spec(cs@.subrange(0, i as int), from, to),
        decreases cs.len() - i,
    {
        let c = cs[i];
        push_char(&mut out, if c == from { to } else { c });
        assert(replace_char_spec(cs@.subrange(0, i + 1), from, to) =~= replace_char_spec(
            cs@.subrange(0, i as int),
            from,
            to,
        ).push(if c == from { to } else { c }));
        i = i + 1;
    }
    assert(cs@.subrange(0, cs@.len() as int) =~= cs@);
    out
}


// ---------------------------------------------------------------------
// Integers: parsing (`str::parse::<i64>`) and decimal formatting
// ---------------------------------------------------------------------

/// The value of a decimal digit character.
pub open spec fn digit_value(c: char) -> int {
    c as int - '0' as int
}

/// The value of a sequence of decimal digits (0 for none).
pub open spec fn digits_value(d: Seq<char>) -> int
    decreases d.len(),
{
    if d.len() == 0 {
        0
    } else {
        digits_value(d.drop_last()) * 10 + digit_value(d.last())
    }
}

/// Whether every character of `d` is a decimal digit.
pub open spec fn all_digits(d: Seq<char>) -> bool {
    forall|i: int| 0 <= i < d.len() ==> is_digit(#[trigger] d[i])
}

/// What `i64::from_str` gives: an optional `+` or `-`, then at least one
/// decimal digit and nothing else, with a value that fits in `i64`.
pub open spec fn parse_i64_spec(s: Seq<char>) -> Option<i64> {
    let neg = s.len() > 0 && s[0] == '-';
    let signed = s.len() > 0 && (s[0] == '-' || s[0] == '+');
    let d = if signed { s.drop_first() } else { s };
    let v = if neg { -digits_value(d) } else { digits_value(d) };
    if d.len() > 0 && all_digits(d) && i64::MIN <= v <= i64::MAX {
        Some(v as i64)
    } else {
        None
    }
}

proof fn lemma_digits_value_nonneg(d: Seq<char>)
    requires
        all_digits(d),
    ensures
        digits_value(d) >= 0,
    decreases d.len(),
{
    if d.len() > 0 {
        assert(all_digits(d.drop_last()));
        lemma_digits_value_nonneg(d.drop_last());
        assert(is_digit(d[d.len() - 1]));
    }
}

/// Extending a digit sequence never lowers its value.
proof fn lemma_digits_value_prefix(d: Seq<char>, i: int)
    requires
        all_digits(d),
        0 <= i <= d.len(),
    ensures
        digits_value(d.subrange(0, i)) <= digits_value(d),
    decreases d.len() - i,
{
    if i < d.len() {
        let p = d.subrange(0, i + 1);
        assert(p.drop_last() =~= d.subrange(0, i));
        assert(all_digits(d.subrange(0, i)));
        lemma_digits_value_nonneg(d.subrange(0, i));
        assert(is_digit(p.last()));
        lemma_digits_value_prefix(d, i + 1);
    } else {
        assert(d.subrange(0, i) =~= d);
    }
}

/// `str::parse::<i64>`, with `None` for every error.
pub fn parse_i64(s: &str) -> (r: Option<i64>)
    ensures
        r == parse_i64_spec(s@),
{
    let cs = chars_of(s);
    let n = cs.len();
    let neg = n > 0 && cs[0] == '-';
    let signed = n > 0 && (cs[0] == '-' || cs[0] == '+');
    let start: usize = if signed { 1 } else { 0 };
    let ghost d = if signed { s@.drop_first() } else { s@ };
    assert(d =~= cs@.subrange(start as int, n as int));
    if start == n {
        return None;
    }
    let limit: u128 = 9223372036854775808;
    let mut acc: u128 = 0;
    let mut i: usize = start;
    assert(d.subrange(0, 0) =~= Seq::<char>::empty());
    while i < n
        invariant
            start <= i <= n,
            n == cs@.len(),
            d == cs@.subrange(start as int, n as int),
            limit == 9223372036854775808u128,
            cs@ == s@,
            neg == (s@.len() > 0 && s@[0] == '-'),
            signed == (s@.len() > 0 && (s@[0] == '-' || s@[0] == '+')),
            d == (if signed { s@.drop_first() } else { s@ }),
            acc <= limit,
            acc as int == digits_value(d.subrange(0, i - start)),
            all_digits(d.subrange(0, i - start)),
        decreases n - i,
    {
        let c = cs[i];
        if !is_ascii_digit(c) {
            assert(d[i - start] == c);
            assert(!all_digits(d));
            return None;
        }
        let k = i - start;
        assert(d.subrange(0, k + 1).drop_last() =~= d.subrange(0, k as int));
        assert(d.subrange(0, k + 1).last() == c);
        acc = acc * 10 + ((c as u32) - ('0' as u32)) as u128;
        i = i + 1;
        assert(all_digits(d.subrange(0, i - start))) by {
            assert forall|j: int| 0 <= j < d.subrange(0, i - start).len() implies is_digit(
                #[trigger] d.subrange(0, i - start)[j],
            ) by {
                if j < k {
                    assert(d.subrange(0, i - start)[j] == d.subrange(0, k as int)[j]);
                }
            }
        }
        if acc > limit {
            // Every later digit only raises the value, and a later non-digit
            // is an error anyway.
            proof {
                if all_digits(d) {
                    lemma_digits_value_prefix(d, i - start);
                }
            }
            return None;
        }
    }
    assert(d.subrange(0, n - start) =~= d);
    if neg {
        if acc == limit {
            Some(-9223372036854775807i64 - 1)
        } else {
            Some(-(acc as i64))
        }
    } else {
        if acc == limit {
            None
        } else {
            Some(acc as i64)
        }
    }
}

/// The character of a decimal digit value `0..=9`.
pub open spec fn digit_char(d: int) -> char {
    if d == 0 {
        '0'
    } else if d == 1 {
        '1'
    } else if d == 2 {
        '2'
    } else if d == 3 {
        '3'
    } else if d == 4 {
        '4'
    } else if d == 5 {
        '5'
    } else if d == 6 {
        '6'
    } else if d == 7 {
        '7'
    } else if d == 8 {
        '8'
    } else {
        '9'
    }
}

/// The decimal digits of `n`, without leading zeros (`"0"` for zero).
pub open spec fn nat_decimal(n: nat) -> Seq<char>
    decreases n,
{
    if n < 10 {
        seq![digit_char(n as int)]
    } else {
        nat_decimal(n / 10).push(digit_char((n % 10) as int))
    }
}

/// The decimal text of `i` as `Display` writes it: a `-` before negative
/// values, no sign otherwise.
pub open spec fn int_decimal(i: int) -> Seq<char> {
    if i < 0 {
        seq!['-'] + nat_decimal((-i) as nat)
    } else {
        nat_decimal(i as nat)
    }
}

fn digit_to_char(d: u64) -> (c: char)
    requires
        d < 10,
    ensures
        c == digit_char(d as int),
{
    if d == 0 {
        '0'
    } else if d == 1 {
        '1'
    } else if d == 2 {
        '2'
    } else if d == 3 {
        '3'
    } else if d == 4 {
        '4'
    } else if d == 5 {
        '5'
    } else if d == 6 {
        '6'
    } else if d == 7 {
        '7'
    } else if d == 8 {
        '8'
    } else {
        '9'
    }
}

fn push_decimal(out: &mut String, n: u64)
    ensures
        final(out)@ == old(out)@ + nat_decimal(n as nat),
    decreases n,
{
    if n >= 10 {
        push_decimal(out, n / 10);
    }
    push_char(out, digit_to_char(n % 10));
    proof {
        if n < 10 {
            assert(nat_decimal(n as nat) =~= seq![digit_char(n as int)]);
        }
    }
}

/// `u64::to_string`.
pub fn u64_to_string(n: u64) -> (r: String)
    ensures
        r@ == nat_decimal(n as nat),
{
    let mut out = String::new();
    push_decimal(&mut out, n);
    assert(Seq::<char>::empty() + nat_decimal(n as nat) =~= nat_decimal(n as nat));
    out
}

/// `i64::to_string`.
pub fn i64_to_string(n: i64) -> (r: String)
    ensures
        r@ == int_decimal(n as int),
{
    let mut out = String::new();
    if n < 0 {
        push_char(&mut out, '-');
        let m: u64 = if n == -9223372036854775807i64 - 1 {
            9223372036854775808u64
        } else {
            (-n) as u64
        };
        push_decimal(&mut out, m);
    } else {
        push_decimal(&mut out, n as u64);
        assert(Seq::<char>::empty() + nat_decimal(n as nat) =~= nat_decimal(n as nat));
    }
    out
}

/// `usize::to_string`.
pub fn usize_to_string(n: usize) -> (r: String)
    ensures
        r@ == nat_decimal(n as nat),
{
    u64_to_string(n as u64)
}

// ---------------------------------------------------------------------
// Formatting then parsing
// ---------------------------------------------------------------------

proof fn lemma_digit_char_value(d: int)
    requires
        0 <= d < 10,
    ensures
        is_digit(digit_char(d)),
        digit_value(digit_char(d)) == d,
{
}

/// The decimal digits of `n` are digits, at least one, with value `n`.
pub proof fn lemma_nat_decimal_digits(n: nat)
    ensures
        nat_decimal(n).len() > 0,
        all_digits(nat_decimal(n)),
        digits_value(nat_decimal(n)) == n,
    decreases n,
{
    if n < 10 {
        lemma_digit_char_value(n as int);
        let s = nat_decimal(n);
        assert(s.drop_last() =~= Seq::<char>::empty());
        assert(digits_value(Seq::<char>::empty()) == 0);
        assert(s.last() == digit_char(n as int));
        assert(digits_value(s) == digits_value(s.drop_last()) * 10 + digit_value(s.last()));
    } else {
        lemma_nat_decimal_digits(n / 10);
        let r = nat_decimal(n / 10);
        let s = nat_decimal(n);
        lemma_digit_char_value((n % 10) as int);
        assert(s == r.push(digit_char((n % 10) as int)));
        assert(s.drop_last() =~= r);
        assert(s.last() == digit_char((n % 10) as int));
        assert(digits_value(s) == digits_value(r) * 10 + digit_value(s.last()));
        assert(n == (n / 10) * 10 + n % 10) by (nonlinear_arith);
        assert forall|i: int| 0 <= i < s.len() implies is_digit(#[trigger] s[i]) by {
            if i < r.len() {
                assert(s[i] == r[i]);
            }
        }
    }
}

/// Formatting an `i64` in decimal and parsing the text gives the number
/// back.
pub proof fn law_parse_after_format(i: i64)
    ensures
        parse_i64_spec(int_decimal(i as int)) == Some(i),
{
    if i < 0 {
        let d = nat_decimal((-i) as nat);
        lemma_nat_decimal_digits((-i) as nat);
        let s = int_decimal(i as int);
        assert(s == seq!['-'] + d);
        assert(s.drop_first() =~= d);
    } else {
        let d = nat_decimal(i as nat);
        lemma_nat_decimal_digits(i as nat);
        assert(is_digit(d[0]));
    }
}

/// A text made of decimal digits and at most a leading `-` holds no `c`
/// other than those.
pub proof fn lemma_int_decimal_chars(i: int, c: char)
    requires
        c != '-',
        !is_digit(c),
    ensures
        forall|k: int| 0 <= k < int_decimal(i).len() ==> int_decimal(i)[k] != c,
{
    if i < 0 {
        lemma_nat_decimal_digits((-i) as nat);
        let d = nat_decimal((-i) as nat);
        assert forall|k: int| 0 <= k < int_decimal(i).len() implies int_decimal(i)[k] != c by {
            if k > 0 {
                assert(int_decimal(i)[k] == d[k - 1]);
                assert(is_digit(d[k - 1]));
            }
        }
    } else {
        lemma_nat_decimal_digits(i as nat);
        let d = nat_decimal(i as nat);
        assert forall|k: int| 0 <= k < int_decimal(i).len() implies int_decimal(i)[k] != c by {
            assert(is_digit(d[k]));
        }
    }
}

/// `c` does not occur in `s`.
pub open spec fn lacks(s: Seq<char>, c: char) -> bool {
    forall|k: int| 0 <= k < s.len() ==> s[k] != c
}

proof fn lemma_split_char_nonempty(s: Seq<char>, c: char)
    ensures
        split_char_spec(s, c).len() >= 1,
    decreases s.len(),
{
    if s.len() > 0 {
        lemma_split_char_nonempty(s.drop_last(), c);
    }
}

/// Appending text without the separator extends the last field.
proof fn lemma_split_char_extend(s: Seq<char>, t: Seq<char>, c: char)
    requires
        lacks(t, c),
    ensures
        split_char_spec(s + t, c) == split_char_spec(s, c).update(
            split_char_spec(s, c).len() - 1,
            split_char_spec(s, c).last() + t,
        ),
    decreases t.len(),
{
    lemma_split_char_nonempty(s, c);
    let r = split_char_spec(s, c);
    if t.len() == 0 {
        assert(s + t =~= s);
        assert(r.last() + t =~= r.last());
        assert(r.update(r.len() - 1, r.last() + t) =~= r);
    } else {
        let t0 = t.drop_last();
        assert(lacks(t0, c));
        lemma_split_char_extend(s, t0, c);
        assert((s + t).drop_last() =~= s + t0);
        assert((s + t).last() == t.last());
        let r0 = split_char_spec(s + t0, c);
        assert(r0 == r.update(r.len() - 1, r.last() + t0));
        assert(r0.last() == r.last() + t0);
        assert(r0.last().push(t.last()) =~= r.last() + t);
        assert(split_char_spec(s + t, c) =~= r.update(r.len() - 1, r.last() + t));
    }
}

/// Three fields joined by the separator split back into the three.
pub proof fn lemma_split_char_three(a: Seq<char>, b: Seq<char>, t: Seq<char>, c: char)
    requires
        lacks(a, c),
        lacks(b, c),
        lacks(t, c),
    ensures
        split_char_spec(a + seq![c] + b + seq![c] + t, c) == seq![a, b, t],
{
    let e = Seq::<char>::empty();
    lemma_split_char_extend(e, a, c);
    assert(e + a =~= a);
    assert(split_char_spec(e, c) == seq![e]);
    assert(split_char_spec(a, c) =~= seq![a]);
    let s1 = a + seq![c];
    assert(s1.drop_last() =~= a);
    assert(split_char_spec(s1, c) =~= seq![a, e]);
    lemma_split_char_extend(s1, b, c);
    let s2 = s1 + b;
    assert(split_char_spec(s2, c) =~= seq![a, b]);
    let s3 = s2 + seq![c];
    assert(s3.drop_last() =~= s2);
    assert(split_char_spec(s3, c) =~= seq![a, b, e]);
    lemma_split_char_extend(s3, t, c);
    assert(split_char_spec(s3 + t, c) =~= seq![a, b, t]);
    assert(a + seq![c] + b + seq![c] + t =~= s3 + t);
}

} // verus!
