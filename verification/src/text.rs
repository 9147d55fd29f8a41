//! Character-sequence primitives with exact specifications.
//!
//! Strings are modelled by their `Seq<char>` views. The executable helpers work
//! on `Vec<char>` and mirror the behaviour of the corresponding `str` methods
//! of the standard library (`trim`, `split`, `split_whitespace`, `lines`, ...).
use vstd::prelude::*;

verus! {

/// Unicode `White_Space` property, as used by `char::is_whitespace`.
pub open spec fn is_ws(c: char) -> bool {
    let u = c as u32;
    (0x09 <= u <= 0x0d) || u == 0x20 || u == 0x85 || u == 0xa0 || u == 0x1680 || (0x2000 <= u
        <= 0x200a) || u == 0x2028 || u == 0x2029 || u == 0x202f || u == 0x205f || u == 0x3000
}

pub open spec fn is_ascii_upper(c: char) -> bool {
    'A' <= c <= 'Z'
}

pub open spec fn is_ascii_lower_letter(c: char) -> bool {
    'a' <= c <= 'z'
}

pub open spec fn is_ascii_digit(c: char) -> bool {
    '0' <= c <= '9'
}

pub open spec fn is_ascii_alnum(c: char) -> bool {
    is_ascii_upper(c) || is_ascii_lower_letter(c) || is_ascii_digit(c)
}

/// `char::to_ascii_lowercase`.
pub open spec fn ascii_lower(c: char) -> char {
    if is_ascii_upper(c) {
        ((c as u32) + 32) as char
    } else {
        c
    }
}

/// `char::to_ascii_uppercase`.
pub open spec fn ascii_upper(c: char) -> char {
    if is_ascii_lower_letter(c) {
        ((c as u32) - 32) as char
    } else {
        c
    }
}

/// `str::to_ascii_lowercase`.
pub open spec fn lower(s: Seq<char>) -> Seq<char> {
    s.map_values(|c: char| ascii_lower(c))
}

/// `str::trim_start`.
pub open spec fn trim_start(s: Seq<char>) -> Seq<char>
    decreases s.len(),
{
    if s.len() > 0 && is_ws(s[0]) {
        trim_start(s.drop_first())
    } else {
        s
    }
}

/// `str::trim_end`.
pub open spec fn trim_end(s: Seq<char>) -> Seq<char>
    decreases s.len(),
{
    if s.len() > 0 && is_ws(s.last()) {
        trim_end(s.drop_last())
    } else {
        s
    }
}

/// `str::trim`.
pub open spec fn trim(s: Seq<char>) -> Seq<char> {
    trim_end(trim_start(s))
}

pub fn char_is_whitespace(c: char) -> (b: bool)
    ensures
        b == is_ws(c),
{
    let u = c as u32;
    (0x09 <= u && u <= 0x0d) || u == 0x20 || u == 0x85 || u == 0xa0 || u == 0x1680 || (0x2000
        <= u && u <= 0x200a) || u == 0x2028 || u == 0x2029 || u == 0x202f || u == 0x205f || u
        == 0x3000
}

pub fn char_to_ascii_lowercase(c: char) -> (r: char)
    ensures
        r == ascii_lower(c),
{
    if 'A' <= c && c <= 'Z' {
        let b = c as u8;
        assert(b as u32 == c as u32);
        ((b + 32) as char)
    } else {
        c
    }
}

pub fn char_to_ascii_uppercase(c: char) -> (r: char)
    ensures
        r == ascii_upper(c),
{
    if 'a' <= c && c <= 'z' {
        let b = c as u8;
        assert(b as u32 == c as u32);
        ((b - 32) as char)
    } else {
        c
    }
}

pub fn char_is_ascii_alphanumeric(c: char) -> (b: bool)
    ensures
        b == is_ascii_alnum(c),
{
    ('A' <= c && c <= 'Z') || ('a' <= c && c <= 'z') || ('0' <= c && c <= '9')
}

/// The characters of a string slice.
pub fn str_chars(s: &str) -> (v: Vec<char>)
    ensures
        v@ == s@,
{
    let mut v: Vec<char> = Vec::new();
    for c in it: s.chars()
        invariant
            it.seq() == s@,
            v@ == it.seq().take(it.index() as int),
    {
        v.push(c);
    }
    v
}

/// `String::push`: appends one character.
#[verifier::external_body]
pub(crate) fn string_push(s: &mut String, c: char)
    ensures
        final(s)@ == old(s)@.push(c),
{
    s.push(c);
}

/// A `String` holding exactly the given characters.
pub fn chars_to_string(v: &Vec<char>) -> (s: String)
    ensures
        s@ == v@,
{
    let mut s = String::new();
    for i in 0..v.len()
        invariant
            s@ == v@.take(i as int),
    {
        string_push(&mut s, v[i]);
        assert(v@.take(i + 1) == v@.take(i as int).push(v@[i as int]));
    }
    assert(v@.take(v.len() as int) == v@);
    s
}

/// Appends the characters of `t` to `s`.
pub fn push_chars(s: &mut String, t: &Vec<char>)
    ensures
        final(s)@ == old(s)@ + t@,
{
    for i in 0..t.len()
        invariant
            s@ == old(s)@ + t@.take(i as int),
    {
        string_push(s, t[i]);
        assert(t@.take(i + 1) == t@.take(i as int).push(t@[i as int]));
    }
    assert(t@.take(t.len() as int) == t@);
}

/// Appends the characters of `t` to `s`.
pub fn push_str(s: &mut String, t: &str)
    ensures
        final(s)@ == old(s)@ + t@,
{
    let v = str_chars(t);
    push_chars(s, &v);
}

pub fn to_ascii_lowercase(s: &Vec<char>) -> (r: Vec<char>)
    ensures
        r@ == lower(s@),
{
    let mut r: Vec<char> = Vec::new();
    for i in 0..s.len()
        invariant
            r@ == lower(s@.take(i as int)),
    {
        let c = char_to_ascii_lowercase(s[i]);
        r.push(c);
        assert(lower(s@.take(i + 1)) == lower(s@.take(i as int)).push(ascii_lower(s@[i as int])));
    }
    assert(s@.take(s.len() as int) == s@);
    r
}


/// The characters `s[lo..hi]`.
pub fn slice(s: &Vec<char>, lo: usize, hi: usize) -> (r: Vec<char>)
    requires
        lo <= hi <= s.len(),
    ensures
        r@ == s@.subrange(lo as int, hi as int),
{
    let mut r: Vec<char> = Vec::new();
    let mut i = lo;
    while i < hi
        invariant
            lo <= i <= hi <= s.len(),
            r@ == s@.subrange(lo as int, i as int),
        decreases hi - i,
    {
        r.push(s[i]);
        assert(s@.subrange(lo as int, i + 1) == s@.subrange(lo as int, i as int).push(s@[i as int]));
        i = i + 1;
    }
    r
}

pub proof fn lemma_trim_start_skip(s: Seq<char>, i: int)
    requires
        0 <= i <= s.len(),
        forall|j: int| 0 <= j < i ==> is_ws(#[trigger] s[j]),
        i == s.len() || !is_ws(s[i]),
    ensures
        trim_start(s) == s.skip(i),
    decreases i,
{
    if i > 0 {
        lemma_trim_start_skip(s.drop_first(), i - 1);
        assert(s.drop_first().skip(i - 1) == s.skip(i));
    } else {
        assert(s.skip(0) == s);
    }
}

pub proof fn lemma_trim_end_take(s: Seq<char>, i: int)
    requires
        0 <= i <= s.len(),
        forall|j: int| i <= j < s.len() ==> is_ws(#[trigger] s[j]),
        i == 0 || !is_ws(s[i - 1]),
    ensures
        trim_end(s) == s.take(i),
    decreases s.len() - i,
{
    if i < s.len() {
        lemma_trim_end_take(s.drop_last(), i);
        assert(s.drop_last().take(i) == s.take(i));
    } else {
        assert(s.take(i) == s);
    }
}

/// `str::trim`.
pub fn trim_chars(s: &Vec<char>) -> (r: Vec<char>)
    ensures
        r@ == trim(s@),
{
    let mut lo: usize = 0;
    while lo < s.len() && char_is_whitespace(s[lo])
        invariant
            lo <= s.len(),
            forall|j: int| 0 <= j < lo ==> is_ws(#[trigger] s@[j]),
        decreases s.len() - lo,
    {
        lo = lo + 1;
    }
    proof {
        lemma_trim_start_skip(s@, lo as int);
    }
    let mut hi: usize = s.len();
    while hi > lo && char_is_whitespace(s[hi - 1])
        invariant
            lo <= hi <= s.len(),
            forall|j: int| hi <= j < s.len() ==> is_ws(#[trigger] s@[j]),
        decreases hi - lo,
    {
        hi = hi - 1;
    }
    proof {
        let t = s@.skip(lo as int);
        lemma_trim_end_take(t, hi - lo);
        assert(t.take(hi - lo) == s@.subrange(lo as int, hi as int));
    }
    slice(s, lo, hi)
}


/// The views of a sequence of character vectors.
pub open spec fn views(v: Seq<Vec<char>>) -> Seq<Seq<char>> {
    v.map_values(|x: Vec<char>| x@)
}

/// The predicate "is one of `seps`".
pub open spec fn one_of(seps: Seq<char>) -> spec_fn(char) -> bool {
    |c: char| seps.contains(c)
}

/// The predicate `char::is_whitespace`.
pub open spec fn whitespace() -> spec_fn(char) -> bool {
    |c: char| is_ws(c)
}

/// `str::split` with a character predicate: the pieces between separators,
/// one more piece than there are separators.
pub open spec fn split_when(s: Seq<char>, sep: spec_fn(char) -> bool) -> Seq<Seq<char>>
    decreases s.len(),
{
    if s.len() == 0 {
        seq![Seq::empty()]
    } else {
        let prev = split_when(s.drop_last(), sep);
        if sep(s.last()) {
            prev.push(Seq::empty())
        } else {
            prev.update(prev.len() - 1, prev.last().push(s.last()))
        }
    }
}

pub proof fn lemma_split_when_len(s: Seq<char>, sep: spec_fn(char) -> bool)
    ensures
        split_when(s, sep).len() >= 1,
    decreases s.len(),
{
    if s.len() > 0 {
        lemma_split_when_len(s.drop_last(), sep);
    }
}

/// Without any separator, splitting yields the whole text as the only piece.
pub proof fn lemma_split_without_separator(s: Seq<char>, sep: spec_fn(char) -> bool)
    requires
        forall|i: int| 0 <= i < s.len() ==> !sep(#[trigger] s[i]),
    ensures
        split_when(s, sep) == seq![s],
    decreases s.len(),
{
    if s.len() == 0 {
        assert(s =~= Seq::<char>::empty());
    } else {
        let d = s.drop_last();
        assert forall|i: int| 0 <= i < d.len() implies !sep(#[trigger] d[i]) by {
            assert(d[i] == s[i]);
        }
        lemma_split_without_separator(d, sep);
        assert(!sep(s[s.len() - 1]));
        assert(d.push(s.last()) =~= s);
        assert(seq![d].update(0, d.push(s.last())) =~= seq![s]);
    }
}

/// The pieces that are not empty, in order.
pub open spec fn nonempty(parts: Seq<Seq<char>>) -> Seq<Seq<char>>
    decreases parts.len(),
{
    if parts.len() == 0 {
        Seq::empty()
    } else if parts.last().len() > 0 {
        nonempty(parts.drop_last()).push(parts.last())
    } else {
        nonempty(parts.drop_last())
    }
}

/// `str::split_whitespace`.
pub open spec fn split_ws(s: Seq<char>) -> Seq<Seq<char>> {
    nonempty(split_when(s, whitespace()))
}

/// The text before the first occurrence of `c` (`s.split(c).next()`).
pub open spec fn before(s: Seq<char>, c: char) -> Seq<char> {
    split_when(s, one_of(seq![c]))[0]
}

/// Removes one trailing carriage return.
pub open spec fn strip_cr(l: Seq<char>) -> Seq<char> {
    if l.len() > 0 && l.last() == '\r' {
        l.drop_last()
    } else {
        l
    }
}

/// `str::lines`.
pub open spec fn lines(s: Seq<char>) -> Seq<Seq<char>> {
    let p = split_when(s, one_of(seq!['\n']));
    let init = p.take(p.len() - 1).map_values(|l: Seq<char>| strip_cr(l));
    if p.last().len() > 0 {
        init.push(p.last())
    } else {
        init
    }
}

/// Splits at every character that is one of `seps`.
pub fn split_on(s: &Vec<char>, seps: &Vec<char>) -> (r: Vec<Vec<char>>)
    ensures
        views(r@) == split_when(s@, one_of(seps@)),
{
    let mut pieces: Vec<Vec<char>> = Vec::new();
    let mut cur: Vec<char> = Vec::new();
    for i in 0..s.len()
        invariant
            views(pieces@).push(cur@) == split_when(s@.take(i as int), one_of(seps@)),
    {
        let c = s[i];
        let mut is_sep = false;
        for j in 0..seps.len()
            invariant
                is_sep == (exists|k: int| 0 <= k < j && seps@[k] == c),
        {
            if seps[j] == c {
                is_sep = true;
            }
        }
        assert(is_sep == seps@.contains(c));
        assert(s@.take(i + 1).drop_last() == s@.take(i as int));
        if is_sep {
            pieces.push(cur);
            cur = Vec::new();
            assert(views(pieces@) == split_when(s@.take(i as int), one_of(seps@)));
        } else {
            let ghost old_cur = cur@;
            cur.push(c);
            assert(views(pieces@).push(cur@) == views(pieces@).push(old_cur).update(
                pieces@.len() as int,
                old_cur.push(c),
            ));
        }
    }
    assert(s@.take(s.len() as int) == s@);
    pieces.push(cur);
    pieces
}

/// Splits at every whitespace character.
pub fn split_on_whitespace(s: &Vec<char>) -> (r: Vec<Vec<char>>)
    ensures
        views(r@) == split_when(s@, whitespace()),
{
    let mut pieces: Vec<Vec<char>> = Vec::new();
    let mut cur: Vec<char> = Vec::new();
    for i in 0..s.len()
        invariant
            views(pieces@).push(cur@) == split_when(s@.take(i as int), whitespace()),
    {
        let c = s[i];
        let is_sep = char_is_whitespace(c);
        assert(s@.take(i + 1).drop_last() == s@.take(i as int));
        if is_sep {
            pieces.push(cur);
            cur = Vec::new();
            assert(views(pieces@) == split_when(s@.take(i as int), whitespace()));
        } else {
            let ghost old_cur = cur@;
            cur.push(c);
            assert(views(pieces@).push(cur@) == views(pieces@).push(old_cur).update(
                pieces@.len() as int,
                old_cur.push(c),
            ));
        }
    }
    assert(s@.take(s.len() as int) == s@);
    pieces.push(cur);
    pieces
}

/// Keeps the pieces that are not empty.
pub fn keep_nonempty(parts: Vec<Vec<char>>) -> (r: Vec<Vec<char>>)
    ensures
        views(r@) == nonempty(views(parts@)),
{
    let mut r: Vec<Vec<char>> = Vec::new();
    let n = parts.len();
    let mut parts = parts;
    let ghost orig = views(parts@);
    let mut i: usize = 0;
    while i < n
        invariant
            n == parts.len(),
            orig == views(parts@),
            i <= n,
            views(r@) == nonempty(orig.take(i as int)),
        decreases n - i,
    {
        let p = parts[i].clone();
        assert(orig.take(i + 1).drop_last() == orig.take(i as int));
        assert(orig.take(i + 1).last() == p@);
        if p.len() > 0 {
            r.push(p);
        }
        i = i + 1;
    }
    assert(orig.take(n as int) == orig);
    r
}

/// `str::split_whitespace`.
pub fn split_whitespace(s: &Vec<char>) -> (r: Vec<Vec<char>>)
    ensures
        views(r@) == split_ws(s@),
{
    let parts = split_on_whitespace(s);
    keep_nonempty(parts)
}

/// `s.split(c).next()`.
pub fn before_char(s: &Vec<char>, c: char) -> (r: Vec<char>)
    ensures
        r@ == before(s@, c),
{
    let seps = vec![c];
    assert(seps@ == seq![c]);
    let parts = split_on(s, &seps);
    proof {
        lemma_split_when_len(s@, one_of(seq![c]));
    }
    parts[0].clone()
}

/// `str::lines`.
pub fn split_lines(s: &Vec<char>) -> (r: Vec<Vec<char>>)
    ensures
        views(r@) == lines(s@),
{
    let seps = vec!['\n'];
    assert(seps@ == seq!['\n']);
    let parts = split_on(s, &seps);
    proof {
        lemma_split_when_len(s@, one_of(seq!['\n']));
    }
    let ghost p = views(parts@);
    let n = parts.len();
    let mut r: Vec<Vec<char>> = Vec::new();
    for i in 0..n - 1
        invariant
            n == parts.len(),
            n >= 1,
            p == views(parts@),
            views(r@) == p.take(i as int).map_values(|l: Seq<char>| strip_cr(l)),
    {
        let l = &parts[i];
        let mut line = l.clone();
        if line.len() > 0 && line[line.len() - 1] == '\r' {
            line.pop();
        }
        assert(line@ == strip_cr(p[i as int]));
        r.push(line);
        assert(p.take(i + 1).map_values(|l: Seq<char>| strip_cr(l)) == p.take(i as int).map_values(
            |l: Seq<char>| strip_cr(l),
        ).push(strip_cr(p[i as int])));
    }
    if parts[n - 1].len() > 0 {
        r.push(parts[n - 1].clone());
    }
    r
}


/// `str::starts_with` for a string prefix.
pub open spec fn starts_with(s: Seq<char>, p: Seq<char>) -> bool {
    p.len() <= s.len() && s.take(p.len() as int) == p
}

/// `needle` occurs in `hay` starting at index `i`.
pub open spec fn occurs_at(hay: Seq<char>, needle: Seq<char>, i: int) -> bool {
    0 <= i && i + needle.len() <= hay.len() && hay.subrange(i, i + needle.len()) == needle
}

/// `str::contains` for a string pattern.
pub open spec fn contains(hay: Seq<char>, needle: Seq<char>) -> bool {
    exists|i: int| occurs_at(hay, needle, i)
}

/// The first index at or after `i` at which `needle` occurs.
pub open spec fn find_from(hay: Seq<char>, needle: Seq<char>, i: int) -> Option<int>
    decreases hay.len() + 1 - i,
{
    if i < 0 || i > hay.len() {
        None
    } else if occurs_at(hay, needle, i) {
        Some(i)
    } else {
        find_from(hay, needle, i + 1)
    }
}

/// `str::find` for a string pattern: the first index at which `needle` occurs.
pub open spec fn find(hay: Seq<char>, needle: Seq<char>) -> Option<int> {
    find_from(hay, needle, 0)
}

/// `[T]::join` for strings.
pub open spec fn join(parts: Seq<Seq<char>>, sep: Seq<char>) -> Seq<char>
    decreases parts.len(),
{
    if parts.len() == 0 {
        Seq::empty()
    } else if parts.len() == 1 {
        parts[0]
    } else {
        join(parts.drop_last(), sep) + sep + parts.last()
    }
}

pub open spec fn digit(d: nat) -> char {
    ((d % 10) + 48) as char
}

/// The decimal representation of a natural number (as `format!("{n}")`).
pub open spec fn decimal(n: nat) -> Seq<char>
    decreases n,
{
    if n < 10 {
        seq![digit(n)]
    } else {
        decimal(n / 10).push(digit(n % 10))
    }
}

/// Whether two character sequences are equal.
pub fn chars_eq(a: &Vec<char>, b: &Vec<char>) -> (r: bool)
    ensures
        r == (a@ == b@),
{
    if a.len() != b.len() {
        return false;
    }
    for i in 0..a.len()
        invariant
            a.len() == b.len(),
            forall|j: int| 0 <= j < i ==> a@[j] == b@[j],
    {
        if a[i] != b[i] {
            return false;
        }
    }
    assert(a@ =~= b@);
    true
}

/// Whether the characters equal the string literal `lit`.
pub fn eq_str(a: &Vec<char>, lit: &str) -> (r: bool)
    ensures
        r == (a@ == lit@),
{
    let b = str_chars(lit);
    chars_eq(a, &b)
}

/// Whether `p` occurs in `s` at index `i`.
pub fn occurs_at_exec(s: &Vec<char>, p: &Vec<char>, i: usize) -> (r: bool)
    ensures
        r == occurs_at(s@, p@, i as int),
{
    if i > s.len() || p.len() > s.len() - i {
        return false;
    }
    for j in 0..p.len()
        invariant
            i + p.len() <= s.len(),
            forall|k: int| 0 <= k < j ==> s@[i + k] == p@[k],
    {
        if s[i + j] != p[j] {
            assert(s@.subrange(i as int, i + p.len())[j as int] != p@[j as int]);
            return false;
        }
    }
    assert(s@.subrange(i as int, i + p.len()) =~= p@);
    true
}

/// `str::starts_with`.
pub fn starts_with_str(s: &Vec<char>, lit: &str) -> (r: bool)
    ensures
        r == starts_with(s@, lit@),
{
    let p = str_chars(lit);
    let r = occurs_at_exec(s, &p, 0);
    assert(s@.subrange(0, p@.len() as int) == s@.take(p@.len() as int));
    r
}

/// A found index is an occurrence.
pub proof fn lemma_find_from_some(hay: Seq<char>, needle: Seq<char>, i: int, k: int)
    requires
        find_from(hay, needle, i) == Some(k),
    ensures
        occurs_at(hay, needle, k),
        i <= k,
    decreases hay.len() + 1 - i,
{
    if 0 <= i <= hay.len() && !occurs_at(hay, needle, i) {
        lemma_find_from_some(hay, needle, i + 1, k);
    }
}

/// Searching from `i` fails exactly when nothing occurs at or after `i`.
pub proof fn lemma_find_from_none(hay: Seq<char>, needle: Seq<char>, i: int)
    requires
        0 <= i,
    ensures
        (find_from(hay, needle, i) is None) == (forall|j: int| i <= j ==> !occurs_at(hay, needle, j)),
    decreases hay.len() + 1 - i,
{
    if i <= hay.len() {
        lemma_find_from_none(hay, needle, i + 1);
        if find_from(hay, needle, i) is None {
            assert forall|j: int| i <= j implies !occurs_at(hay, needle, j) by {
                if j == i {
                } else {
                }
            }
        }
    } else {
        assert forall|j: int| i <= j implies !occurs_at(hay, needle, j) by {
        }
    }
}

/// A found index leaves room for the pattern.
pub proof fn lemma_find_some_bound(hay: Seq<char>, needle: Seq<char>, i: int)
    requires
        find(hay, needle) == Some(i),
    ensures
        occurs_at(hay, needle, i),
        0 <= i,
        i + needle.len() <= hay.len(),
{
    lemma_find_from_some(hay, needle, 0, i);
}

/// `find` succeeds exactly when the pattern occurs.
pub proof fn lemma_find_iff_contains(hay: Seq<char>, needle: Seq<char>)
    ensures
        (find(hay, needle) is Some) == contains(hay, needle),
{
    lemma_find_from_none(hay, needle, 0);
    if contains(hay, needle) {
        let w = choose|i: int| occurs_at(hay, needle, i);
        assert(occurs_at(hay, needle, w));
    }
}

/// `str::find`.
pub fn find_chars(hay: &Vec<char>, needle: &Vec<char>) -> (r: Option<usize>)
    ensures
        match r {
            Some(i) => find(hay@, needle@) == Some(i as int),
            None => find(hay@, needle@) is None,
        },
{
    let n = hay.len();
    let mut i: usize = 0;
    loop
        invariant
            i <= n,
            n == hay.len(),
            find(hay@, needle@) == find_from(hay@, needle@, i as int),
        decreases n - i,
    {
        if occurs_at_exec(hay, needle, i) {
            return Some(i);
        }
        if i == n {
            assert(find_from(hay@, needle@, (n + 1) as int) is None);
            return None;
        }
        i = i + 1;
    }
}

/// `str::contains`.
pub fn contains_str(hay: &Vec<char>, lit: &str) -> (r: bool)
    ensures
        r == contains(hay@, lit@),
{
    let p = str_chars(lit);
    let f = find_chars(hay, &p);
    proof {
        lemma_find_iff_contains(hay@, p@);
    }
    f.is_some()
}

/// Joins `parts` with `sep` between consecutive parts.
pub fn join_chars(parts: &Vec<Vec<char>>, sep: &Vec<char>) -> (r: Vec<char>)
    ensures
        r@ == join(views(parts@), sep@),
{
    let mut r: Vec<char> = Vec::new();
    for i in 0..parts.len()
        invariant
            r@ == join(views(parts@).take(i as int), sep@),
    {
        let ghost prev = r@;
        if i > 0 {
            let mut k: usize = 0;
            while k < sep.len()
                invariant
                    k <= sep.len(),
                    r@ == prev + sep@.take(k as int),
                decreases sep.len() - k,
            {
                r.push(sep[k]);
                assert(sep@.take(k + 1) == sep@.take(k as int).push(sep@[k as int]));
                k = k + 1;
            }
            assert(sep@.take(sep.len() as int) == sep@);
        }
        let ghost mid = r@;
        let p = &parts[i];
        let mut k: usize = 0;
        while k < p.len()
            invariant
                k <= p.len(),
                r@ == mid + p@.take(k as int),
            decreases p.len() - k,
        {
            r.push(p[k]);
            assert(p@.take(k + 1) == p@.take(k as int).push(p@[k as int]));
            k = k + 1;
        }
        assert(p@.take(p.len() as int) == p@);
        assert(views(parts@).take(i + 1).drop_last() == views(parts@).take(i as int));
        if i == 0 {
            assert(views(parts@).take(1)[0] == p@);
        }
    }
    assert(views(parts@).take(parts.len() as int) == views(parts@));
    r
}

/// `format!("{n}")` for a byte.
pub fn decimal_u8(n: u8) -> (r: Vec<char>)
    ensures
        r@ == decimal(n as nat),
{
    let d0 = ((n % 10) + 48) as char;
    if n < 10 {
        return vec![d0];
    }
    let m = n / 10;
    let d1 = ((m % 10) + 48) as char;
    if m < 10 {
        let r = vec![d1, d0];
        assert(decimal(m as nat) == seq![d1]);
        assert(r@ == seq![d1].push(d0));
        return r;
    }
    let k = m / 10;
    let d2 = ((k % 10) + 48) as char;
    let r = vec![d2, d1, d0];
    assert(decimal(k as nat) == seq![d2]);
    assert(decimal(m as nat) == seq![d2].push(d1));
    assert(r@ == seq![d2].push(d1).push(d0));
    r
}


/// `str::eq_ignore_ascii_case`.
pub open spec fn eq_ic(a: Seq<char>, b: Seq<char>) -> bool {
    lower(a) == lower(b)
}

/// `str::eq_ignore_ascii_case` against a string literal.
pub fn eq_ignore_case_str(a: &Vec<char>, lit: &str) -> (r: bool)
    ensures
        r == eq_ic(a@, lit@),
{
    let b = str_chars(lit);
    let la = to_ascii_lowercase(a);
    let lb = to_ascii_lowercase(&b);
    chars_eq(&la, &lb)
}

/// `str::eq_ignore_ascii_case`.
pub fn eq_ignore_case(a: &Vec<char>, b: &Vec<char>) -> (r: bool)
    ensures
        r == eq_ic(a@, b@),
{
    let la = to_ascii_lowercase(a);
    let lb = to_ascii_lowercase(b);
    chars_eq(&la, &lb)
}

/// The concatenation of a string literal and characters.
pub fn cat(lit: &str, v: &Vec<char>) -> (r: Vec<char>)
    ensures
        r@ == lit@ + v@,
{
    let mut r = str_chars(lit);
    let mut i: usize = 0;
    let ghost start = r@;
    while i < v.len()
        invariant
            i <= v.len(),
            r@ == start + v@.take(i as int),
        decreases v.len() - i,
    {
        r.push(v[i]);
        assert(v@.take(i + 1) == v@.take(i as int).push(v@[i as int]));
        i = i + 1;
    }
    assert(v@.take(v.len() as int) == v@);
    r
}

/// Appends the characters of a string literal.
pub fn append_str(r: &mut Vec<char>, lit: &str)
    ensures
        final(r)@ == old(r)@ + lit@,
{
    let v = str_chars(lit);
    append_chars(r, &v);
}

/// Appends characters.
pub fn append_chars(r: &mut Vec<char>, v: &Vec<char>)
    ensures
        final(r)@ == old(r)@ + v@,
{
    let mut i: usize = 0;
    while i < v.len()
        invariant
            i <= v.len(),
            r@ == old(r)@ + v@.take(i as int),
        decreases v.len() - i,
    {
        r.push(v[i]);
        assert(v@.take(i + 1) == v@.take(i as int).push(v@[i as int]));
        i = i + 1;
    }
    assert(v@.take(v.len() as int) == v@);
}

/// `PathBuf::push` on Unix: an absolute component replaces the path, otherwise
/// it is appended after a `/` unless the path is empty or already ends in one.
pub open spec fn path_join(base: Seq<char>, comp: Seq<char>) -> Seq<char> {
    if comp.len() > 0 && comp[0] == '/' {
        comp
    } else if base.len() == 0 {
        comp
    } else if base.last() == '/' {
        base + comp
    } else {
        base + seq!['/'] + comp
    }
}

/// Pushes `comp` onto the path `base`, as `PathBuf::push` does on Unix.
pub fn path_push(base: &mut Vec<char>, comp: &str)
    ensures
        final(base)@ == path_join(old(base)@, comp@),
{
    let c = str_chars(comp);
    if c.len() > 0 && c[0] == '/' {
        *base = c;
    } else if base.len() == 0 {
        *base = c;
    } else if base[base.len() - 1] == '/' {
        append_chars(base, &c);
    } else {
        base.push('/');
        append_chars(base, &c);
    }
}

/// Splitting text that ends in a separator opens a new, empty piece.
pub proof fn lemma_split_push_separator(x: Seq<char>, c: char, sep: spec_fn(char) -> bool)
    requires
        sep(c),
    ensures
        split_when(x.push(c), sep) == split_when(x, sep).push(Seq::empty()),
{
    assert(x.push(c).drop_last() =~= x);
}

/// Text without separators extends the last piece.
pub proof fn lemma_split_append_plain(x: Seq<char>, y: Seq<char>, sep: spec_fn(char) -> bool)
    requires
        forall|i: int| 0 <= i < y.len() ==> !sep(#[trigger] y[i]),
    ensures
        split_when(x + y, sep) == split_when(x, sep).update(
            split_when(x, sep).len() - 1,
            split_when(x, sep).last() + y,
        ),
    decreases y.len(),
{
    lemma_split_when_len(x, sep);
    let p = split_when(x, sep);
    if y.len() == 0 {
        assert(x + y =~= x);
        assert(p.last() + y =~= p.last());
        assert(p.update(p.len() - 1, p.last()) =~= p);
    } else {
        let y2 = y.drop_last();
        assert forall|i: int| 0 <= i < y2.len() implies !sep(#[trigger] y2[i]) by {
            assert(y2[i] == y[i]);
        }
        lemma_split_append_plain(x, y2, sep);
        assert((x + y).drop_last() =~= x + y2);
        assert((x + y).last() == y.last());
        assert(!sep(y[y.len() - 1]));
        let prev = split_when(x + y2, sep);
        assert(prev.len() == p.len());
        assert(prev.last() == p.last() + y2);
        assert((p.last() + y2).push(y.last()) =~= p.last() + y);
        assert(prev.update(prev.len() - 1, prev.last().push(y.last())) =~= p.update(
            p.len() - 1,
            p.last() + y,
        ));
    }
}

/// Pieces joined by one separator character split back into the pieces.
pub proof fn lemma_split_join(ws: Seq<Seq<char>>, c: char, sep: spec_fn(char) -> bool)
    requires
        ws.len() >= 1,
        sep(c),
        forall|i: int, j: int| 0 <= i < ws.len() && 0 <= j < ws[i].len() ==> !sep(#[trigger] ws[i][j]),
    ensures
        split_when(join(ws, seq![c]), sep) == ws,
    decreases ws.len(),
{
    if ws.len() == 1 {
        let w = ws[0];
        assert forall|j: int| 0 <= j < w.len() implies !sep(#[trigger] w[j]) by {
            assert(ws[0][j] == w[j]);
        }
        lemma_split_without_separator(w, sep);
        assert(ws =~= seq![w]);
    } else {
        let init = ws.drop_last();
        let w = ws.last();
        assert forall|i: int, j: int| 0 <= i < init.len() && 0 <= j < init[i].len() implies !sep(
            #[trigger] init[i][j],
        ) by {
            assert(init[i] == ws[i]);
        }
        lemma_split_join(init, c, sep);
        let ji = join(init, seq![c]);
        assert(join(ws, seq![c]) == ji + seq![c] + w);
        assert(ji + seq![c] =~= ji.push(c));
        lemma_split_push_separator(ji, c, sep);
        assert forall|j: int| 0 <= j < w.len() implies !sep(#[trigger] w[j]) by {
            assert(ws[ws.len() - 1][j] == w[j]);
        }
        lemma_split_append_plain(ji.push(c), w, sep);
        let q = init.push(Seq::<char>::empty());
        assert(Seq::<char>::empty() + w =~= w);
        assert(q.update(q.len() - 1, q.last() + w) =~= ws);
    }
}

/// Keeping the non-empty pieces keeps them all when none is empty.
pub proof fn lemma_nonempty_all(parts: Seq<Seq<char>>)
    requires
        forall|i: int| 0 <= i < parts.len() ==> (#[trigger] parts[i]).len() > 0,
    ensures
        nonempty(parts) == parts,
    decreases parts.len(),
{
    if parts.len() > 0 {
        let init = parts.drop_last();
        assert forall|i: int| 0 <= i < init.len() implies (#[trigger] init[i]).len() > 0 by {
            assert(init[i] == parts[i]);
        }
        lemma_nonempty_all(init);
        assert(parts[parts.len() - 1].len() > 0);
        assert(init.push(parts.last()) =~= parts);
    }
}

/// Words without whitespace, joined by single spaces, split back into the words.
pub proof fn lemma_split_ws_join(ws: Seq<Seq<char>>)
    requires
        ws.len() >= 1,
        forall|i: int| 0 <= i < ws.len() ==> (#[trigger] ws[i]).len() > 0,
        forall|i: int, j: int| 0 <= i < ws.len() && 0 <= j < ws[i].len() ==> !is_ws(#[trigger] ws[i][j]),
    ensures
        split_ws(join(ws, seq![' '])) == ws,
{
    assert forall|i: int, j: int| 0 <= i < ws.len() && 0 <= j < ws[i].len() implies !whitespace()(
        #[trigger] ws[i][j],
    ) by {
        assert(!is_ws(ws[i][j]));
    }
    assert(whitespace()(' '));
    lemma_split_join(ws, ' ', whitespace());
    lemma_nonempty_all(ws);
}

/// Text that starts and ends with non-whitespace is its own trim.
pub proof fn lemma_trim_plain_ends(s: Seq<char>)
    requires
        s.len() > 0,
        !is_ws(s[0]),
        !is_ws(s.last()),
    ensures
        trim(s) == s,
{
}

/// A property of every character of the pieces and of the separator holds of
/// every character of their join.
pub proof fn lemma_join_chars(parts: Seq<Seq<char>>, sep: Seq<char>, p: spec_fn(char) -> bool)
    requires
        forall|i: int, j: int| 0 <= i < parts.len() && 0 <= j < parts[i].len() ==> p(#[trigger] parts[i][j]),
        forall|j: int| 0 <= j < sep.len() ==> p(#[trigger] sep[j]),
    ensures
        forall|k: int| 0 <= k < join(parts, sep).len() ==> p(#[trigger] join(parts, sep)[k]),
    decreases parts.len(),
{
    if parts.len() == 1 {
        assert forall|k: int| 0 <= k < join(parts, sep).len() implies p(#[trigger] join(parts, sep)[k]) by {
            assert(join(parts, sep)[k] == parts[0][k]);
        }
    } else if parts.len() > 1 {
        let init = parts.drop_last();
        assert forall|i: int, j: int| 0 <= i < init.len() && 0 <= j < init[i].len() implies p(
            #[trigger] init[i][j],
        ) by {
            assert(init[i] == parts[i]);
        }
        lemma_join_chars(init, sep, p);
        let a = join(init, sep);
        let w = parts.last();
        assert(join(parts, sep) == a + sep + w);
        assert forall|k: int| 0 <= k < join(parts, sep).len() implies p(#[trigger] join(parts, sep)[k]) by {
            if k < a.len() {
                assert(join(parts, sep)[k] == a[k]);
            } else if k < a.len() + sep.len() {
                assert(join(parts, sep)[k] == sep[k - a.len()]);
            } else {
                assert(join(parts, sep)[k] == w[k - a.len() - sep.len()]);
                assert(parts[parts.len() - 1][k - a.len() - sep.len()] == w[k - a.len() - sep.len()]);
            }
        }
    }
}

/// The decimal digits of a number are ASCII digits, which lower-casing keeps.
pub proof fn lemma_decimal_digits(n: nat)
    ensures
        decimal(n).len() >= 1,
        forall|i: int| 0 <= i < decimal(n).len() ==> is_ascii_digit(#[trigger] decimal(n)[i]),
        lower(decimal(n)) == decimal(n),
    decreases n,
{
    if n >= 10 {
        lemma_decimal_digits(n / 10);
    }
    let d = decimal(n);
    assert forall|i: int| 0 <= i < d.len() implies is_ascii_digit(#[trigger] d[i]) by {
        if n >= 10 && i < d.len() - 1 {
            assert(d[i] == decimal(n / 10)[i]);
        }
    }
    assert(lower(d) =~= d);
}

/// Lower-casing twice is lower-casing once.
pub proof fn lemma_ascii_lower_idempotent(c: char)
    ensures
        ascii_lower(ascii_lower(c)) == ascii_lower(c),
{
}

/// A join starts with the first piece.
pub proof fn lemma_join_first(parts: Seq<Seq<char>>, sep: Seq<char>)
    requires
        parts.len() >= 1,
        parts[0].len() > 0,
    ensures
        join(parts, sep).len() >= parts[0].len(),
        join(parts, sep)[0] == parts[0][0],
        parts.len() == 1 ==> join(parts, sep) == parts[0],
    decreases parts.len(),
{
    if parts.len() > 1 {
        let init = parts.drop_last();
        assert(init[0] == parts[0]);
        lemma_join_first(init, sep);
        assert(join(parts, sep) == join(init, sep) + sep + parts.last());
    }
}

/// The character does not occur in the text.
pub open spec fn lacks(s: Seq<char>, c: char) -> bool {
    forall|i: int| 0 <= i < s.len() ==> s[i] != c
}

/// A text lacking a character of the pattern does not contain the pattern.
pub proof fn lemma_lacks_not_contains(hay: Seq<char>, needle: Seq<char>, j: int)
    requires
        0 <= j < needle.len(),
        lacks(hay, needle[j]),
    ensures
        !contains(hay, needle),
{
    assert forall|i: int| !occurs_at(hay, needle, i) by {
        if occurs_at(hay, needle, i) {
            assert(hay.subrange(i, i + needle.len())[j] == hay[i + j]);
        }
    }
}

/// Trimming keeps a character out.
pub proof fn lemma_trim_lacks(s: Seq<char>, c: char)
    requires
        lacks(s, c),
    ensures
        lacks(trim_start(s), c),
        lacks(trim_end(s), c),
        lacks(trim(s), c),
    decreases s.len(),
{
    if s.len() > 0 {
        lemma_trim_lacks(s.drop_first(), c);
        lemma_trim_lacks(s.drop_last(), c);
    }
    if lacks(trim_start(s), c) {
        lemma_trim_lacks_end(trim_start(s), c);
    }
}

proof fn lemma_trim_lacks_end(s: Seq<char>, c: char)
    requires
        lacks(s, c),
    ensures
        lacks(trim_end(s), c),
    decreases s.len(),
{
    if s.len() > 0 {
        lemma_trim_lacks_end(s.drop_last(), c);
    }
}

/// The first occurrence from `i` is what `find_from` finds.
pub proof fn lemma_find_from_first(hay: Seq<char>, needle: Seq<char>, i: int, k: int)
    requires
        0 <= i <= k,
        occurs_at(hay, needle, k),
        forall|j: int| i <= j < k ==> !occurs_at(hay, needle, j),
    ensures
        find_from(hay, needle, i) == Some(k),
    decreases k - i,
{
    if i < k {
        lemma_find_from_first(hay, needle, i + 1, k);
    }
}

/// Whitespace in front of a trimmed text is trimmed away.
pub proof fn lemma_trim_after_space(x: Seq<char>)
    requires
        x.len() == 0 || (!is_ws(x[0]) && !is_ws(x.last())),
    ensures
        trim(seq![' '] + x) == x,
{
    let s = seq![' '] + x;
    assert(s.drop_first() =~= x);
    if x.len() == 0 {
        assert(trim_start(x) == x);
        assert(trim_start(s) == trim_start(x));
    } else {
        assert(trim_start(s) == trim_start(x));
        lemma_trim_plain_ends(x);
    }
}

/// Upper-casing an ASCII character keeps it ASCII and does not change its
/// lower-case form.
pub proof fn lemma_ascii_upper_then_lower(c: char)
    requires
        (c as u32) < 128,
    ensures
        (ascii_upper(c) as u32) < 128,
        ascii_lower(ascii_upper(c)) == ascii_lower(c),
{
    if is_ascii_lower_letter(c) {
        let u = ((c as u32) - 32) as char;
        assert(ascii_upper(c) == u);
        assert((u as u32) == (c as u32) - 32);
        assert(is_ascii_upper(u));
        assert(((u as u32) + 32) as char == c);
    }
}

} // verus!
