//! Character-level string operations with exact specifications.
//!
//! Every operation here is stated over `Seq<char>`, the view of `str` and
//! `String`, so that the callers' contracts can speak of whitespace trimming,
//! ASCII case folding, suffix stripping and decimal rendering directly.
use vstd::prelude::*;

verus! {

/// Unicode `White_Space`: the characters that `char::is_whitespace` accepts.
pub open spec fn is_ws(c: char) -> bool {
    let u = c as u32;
    ||| (0x09 <= u && u <= 0x0d)
    ||| u == 0x20
    ||| u == 0x85
    ||| u == 0xa0
    ||| u == 0x1680
    ||| (0x2000 <= u && u <= 0x200a)
    ||| u == 0x2028
    ||| u == 0x2029
    ||| u == 0x202f
    ||| u == 0x205f
    ||| u == 0x3000
}

/// `s` with its leading whitespace removed.
pub open spec fn trim_start(s: Seq<char>) -> Seq<char>
    decreases s.len(),
{
    if s.len() > 0 && is_ws(s[0]) {
        trim_start(s.subrange(1, s.len() as int))
    } else {
        s
    }
}

/// `s` with its trailing whitespace removed.
pub open spec fn trim_end(s: Seq<char>) -> Seq<char>
    decreases s.len(),
{
    if s.len() > 0 && is_ws(s[s.len() - 1]) {
        trim_end(s.subrange(0, s.len() - 1))
    } else {
        s
    }
}

/// `s` with leading and trailing whitespace removed (`str::trim`).
pub open spec fn trim(s: Seq<char>) -> Seq<char> {
    trim_end(trim_start(s))
}

proof fn lemma_trim_start_head(s: Seq<char>)
    ensures
        trim_start(s).len() > 0 ==> !is_ws(trim_start(s)[0]),
    decreases s.len(),
{
    if s.len() > 0 && is_ws(s[0]) {
        lemma_trim_start_head(s.subrange(1, s.len() as int));
    }
}

proof fn lemma_trim_end_prefix(s: Seq<char>)
    ensures
        trim_end(s).len() <= s.len(),
        trim_end(s) == s.subrange(0, trim_end(s).len() as int),
        trim_end(s).len() > 0 ==> !is_ws(trim_end(s)[trim_end(s).len() - 1]),
    decreases s.len(),
{
    if s.len() > 0 && is_ws(s[s.len() - 1]) {
        let t = s.subrange(0, s.len() - 1);
        lemma_trim_end_prefix(t);
        assert(t.subrange(0, trim_end(t).len() as int) =~= s.subrange(0, trim_end(t).len() as int));
    } else {
        assert(s.subrange(0, s.len() as int) =~= s);
    }
}

/// Trimming twice trims as much as trimming once.
pub proof fn lemma_trim_idempotent(s: Seq<char>)
    ensures
        trim(trim(s)) == trim(s),
{
    let t = trim_start(s);
    let u = trim_end(t);
    lemma_trim_start_head(s);
    lemma_trim_end_prefix(t);
    if u.len() > 0 {
        assert(u[0] == t[0]);
        assert(trim_start(u) == u);
        assert(trim_end(u) == u);
    }
}

/// `s` with every trailing occurrence of `c` removed (`str::trim_end_matches`).
pub open spec fn trim_end_char(s: Seq<char>, c: char) -> Seq<char>
    decreases s.len(),
{
    if s.len() > 0 && s[s.len() - 1] == c {
        trim_end_char(s.subrange(0, s.len() - 1), c)
    } else {
        s
    }
}

/// ASCII case folding of one character (`char::to_ascii_lowercase`).
pub open spec fn ascii_lower(c: char) -> char {
    if 'A' <= c && c <= 'Z' {
        ((c as u32) + 32) as char
    } else {
        c
    }
}

/// ASCII case folding of a whole string (`str::to_ascii_lowercase`).
pub open spec fn ascii_lower_seq(s: Seq<char>) -> Seq<char> {
    Seq::new(s.len(), |i: int| ascii_lower(s[i]))
}

/// Every occurrence of `from` replaced by `to`.
pub open spec fn replace_char(s: Seq<char>, from: char, to: char) -> Seq<char> {
    Seq::new(s.len(), |i: int| if s[i] == from { to } else { s[i] })
}

/// The decimal digit character for `d < 10`.
pub open spec fn digit_char(d: nat) -> char {
    if d == 0 { '0' }
    else if d == 1 { '1' }
    else if d == 2 { '2' }
    else if d == 3 { '3' }
    else if d == 4 { '4' }
    else if d == 5 { '5' }
    else if d == 6 { '6' }
    else if d == 7 { '7' }
    else if d == 8 { '8' }
    else { '9' }
}

/// The decimal rendering of `n`, without sign or leading zeros.
pub open spec fn decimal(n: nat) -> Seq<char>
    decreases n,
{
    if n < 10 {
        seq![digit_char(n)]
    } else {
        decimal(n / 10).push(digit_char(n % 10))
    }
}

/// The part of `s` before its first line break (`str::lines().next()`),
/// without a carriage return that ends that line.
pub open spec fn first_line(s: Seq<char>) -> Seq<char> {
    let end = first_index_of(s, '\n');
    let line = s.subrange(0, end);
    if line.len() > 0 && line[line.len() - 1] == '\r' {
        line.subrange(0, line.len() - 1)
    } else {
        line
    }
}

/// The index of the first `c` in `s`, or the length of `s` where there is none.
pub open spec fn first_index_of(s: Seq<char>, c: char) -> int
    decreases s.len(),
{
    if s.len() == 0 {
        0
    } else if s[0] == c {
        0
    } else {
        1 + first_index_of(s.subrange(1, s.len() as int), c)
    }
}

/// Appends one character to a string (`String::push`).
#[verifier::external_body]
pub(crate) fn push_char(s: &mut String, c: char)
    ensures
        final(s)@ == old(s)@.push(c),
{
    s.push(c);
}

/// The characters of a string slice, in order.
pub fn chars_of(s: &str) -> (out: Vec<char>)
    ensures
        out@ == s@,
{
    let mut out: Vec<char> = Vec::new();
    for c in it: s.chars()
        invariant
            out@ == it.seq().take(it.index() as int),
    {
        out.push(c);
    }
    out
}

/// Appends the characters `v[from..to]` to `s`.
pub fn push_chars(s: &mut String, v: &Vec<char>, from: usize, to: usize)
    requires
        from <= to <= v@.len(),
    ensures
        final(s)@ == old(s)@ + v@.subrange(from as int, to as int),
{
    let ghost start = s@;
    let mut i = from;
    while i < to
        invariant
            from <= i <= to <= v@.len(),
            s@ == start + v@.subrange(from as int, i as int),
        decreases to - i,
    {
        push_char(s, v[i]);
        i = i + 1;
        assert(v@.subrange(from as int, i as int) =~= v@.subrange(from as int, i - 1).push(
            v@[i - 1],
        ));
    }
}

/// A string made of the characters `v[from..to]`.
pub fn string_from_range(v: &Vec<char>, from: usize, to: usize) -> (out: String)
    requires
        from <= to <= v@.len(),
    ensures
        out@ == v@.subrange(from as int, to as int),
{
    let mut out = String::new();
    push_chars(&mut out, v, from, to);
    assert(Seq::<char>::empty() + v@.subrange(from as int, to as int) =~= v@.subrange(
        from as int,
        to as int,
    ));
    out
}

/// A string made of the characters of `v`.
pub fn string_from_chars(v: &Vec<char>) -> (out: String)
    ensures
        out@ == v@,
{
    let out = string_from_range(v, 0, v.len());
    assert(v@.subrange(0, v@.len() as int) =~= v@);
    out
}

/// An owned copy of a string slice.
pub fn owned(s: &str) -> (out: String)
    ensures
        out@ == s@,
{
    let v = chars_of(s);
    string_from_chars(&v)
}

/// Appends a string slice to `s`.
pub fn push_str(s: &mut String, t: &str)
    ensures
        final(s)@ == old(s)@ + t@,
{
    let v = chars_of(t);
    push_chars(s, &v, 0, v.len());
    assert(v@.subrange(0, v@.len() as int) =~= t@);
}

/// Whether `c` is Unicode white space (`char::is_whitespace`).
pub fn is_whitespace(c: char) -> (b: bool)
    ensures
        b == is_ws(c),
{
    let u = c as u32;
    (0x09 <= u && u <= 0x0d) || u == 0x20 || u == 0x85 || u == 0xa0 || u == 0x1680 || (0x2000
        <= u && u <= 0x200a) || u == 0x2028 || u == 0x2029 || u == 0x202f || u == 0x205f || u
        == 0x3000
}

proof fn lemma_trim_start_skip(s: Seq<char>, i: int)
    requires
        0 <= i <= s.len(),
        forall|k: int| 0 <= k < i ==> is_ws(s[k]),
    ensures
        trim_start(s) == trim_start(s.subrange(i, s.len() as int)),
    decreases i,
{
    if i > 0 {
        let t = s.subrange(1, s.len() as int);
        assert forall|k: int| 0 <= k < i - 1 implies is_ws(t[k]) by {
            assert(t[k] == s[k + 1]);
        }
        lemma_trim_start_skip(t, i - 1);
        assert(t.subrange(i - 1, t.len() as int) =~= s.subrange(i, s.len() as int));
    } else {
        assert(s.subrange(0, s.len() as int) =~= s);
    }
}

proof fn lemma_trim_end_drop(s: Seq<char>, j: int)
    requires
        0 <= j <= s.len(),
        forall|k: int| j <= k < s.len() ==> is_ws(s[k]),
    ensures
        trim_end(s) == trim_end(s.subrange(0, j)),
    decreases s.len() - j,
{
    if j < s.len() {
        let t = s.subrange(0, s.len() - 1);
        lemma_trim_end_drop(t, j);
        assert(t.subrange(0, j) =~= s.subrange(0, j));
    } else {
        assert(s.subrange(0, j) =~= s);
    }
}

proof fn lemma_trim_end_char_drop(s: Seq<char>, c: char, j: int)
    requires
        0 <= j <= s.len(),
        forall|k: int| j <= k < s.len() ==> s[k] == c,
    ensures
        trim_end_char(s, c) == trim_end_char(s.subrange(0, j), c),
    decreases s.len() - j,
{
    if j < s.len() {
        let t = s.subrange(0, s.len() - 1);
        lemma_trim_end_char_drop(t, c, j);
        assert(t.subrange(0, j) =~= s.subrange(0, j));
    } else {
        assert(s.subrange(0, j) =~= s);
    }
}

/// The bounds `[i, j)` of `trim(v)` inside `v`.
pub fn trim_bounds(v: &Vec<char>) -> (r: (usize, usize))
    ensures
        r.0 <= r.1 <= v@.len(),
        trim(v@) == v@.subrange(r.0 as int, r.1 as int),
{
    let n = v.len();
    let mut i: usize = 0;
    while i < n && is_whitespace(v[i])
        invariant
            i <= n == v@.len(),
            forall|k: int| 0 <= k < i ==> is_ws(v@[k]),
        decreases n - i,
    {
        i = i + 1;
    }
    proof {
        lemma_trim_start_skip(v@, i as int);
        let rest = v@.subrange(i as int, n as int);
        assert(trim_start(rest) == rest);
    }
    let mut j: usize = n;
    while j > i && is_whitespace(v[j - 1])
        invariant
            i <= j <= n == v@.len(),
            forall|k: int| j <= k < n ==> is_ws(v@[k]),
        decreases j,
    {
        j = j - 1;
    }
    proof {
        let rest = v@.subrange(i as int, n as int);
        assert forall|k: int| j - i <= k < rest.len() implies is_ws(rest[k]) by {
            assert(rest[k] == v@[k + i]);
        }
        lemma_trim_end_drop(rest, j - i);
        let core = rest.subrange(0, j - i);
        assert(core =~= v@.subrange(i as int, j as int));
        assert(trim_end(core) == core);
    }
    (i, j)
}

/// `s` without leading and trailing white space (`str::trim`).
pub fn trim_str(s: &str) -> (out: String)
    ensures
        out@ == trim(s@),
{
    let v = chars_of(s);
    let (i, j) = trim_bounds(&v);
    string_from_range(&v, i, j)
}

/// Whether `s` is empty or white space only (`s.trim().is_empty()`).
pub fn is_blank(s: &str) -> (b: bool)
    ensures
        b == (trim(s@).len() == 0),
{
    let v = chars_of(s);
    let (i, j) = trim_bounds(&v);
    i == j
}

/// `s` without trailing occurrences of `c` (`str::trim_end_matches(c)`).
pub fn trim_end_matches_char(s: &str, c: char) -> (out: String)
    ensures
        out@ == trim_end_char(s@, c),
{
    let v = chars_of(s);
    let n = v.len();
    let mut j: usize = n;
    while j > 0 && v[j - 1] == c
        invariant
            j <= n == v@.len(),
            forall|k: int| j <= k < n ==> v@[k] == c,
        decreases j,
    {
        j = j - 1;
    }
    proof {
        lemma_trim_end_char_drop(v@, c, j as int);
        let core = v@.subrange(0, j as int);
        assert(trim_end_char(core, c) == core);
    }
    string_from_range(&v, 0, j)
}

/// ASCII lowercase of `c` (`char::to_ascii_lowercase`).
pub fn to_ascii_lower(c: char) -> (out: char)
    ensures
        out == ascii_lower(c),
{
    if 'A' <= c && c <= 'Z' {
        let u = (c as u32) + 32;
        let out = char_from_ascii_code(u);
        out
    } else {
        c
    }
}

/// The character with the ASCII code `u`.
fn char_from_ascii_code(u: u32) -> (out: char)
    requires
        u < 128,
    ensures
        out == u as char,
{
    let b = u as u8;
    b as char
}

/// ASCII lowercase of a whole string (`str::to_ascii_lowercase`).
pub fn to_ascii_lowercase(s: &str) -> (out: String)
    ensures
        out@ == ascii_lower_seq(s@),
{
    let v = chars_of(s);
    let mut out = String::new();
    let mut i: usize = 0;
    while i < v.len()
        invariant
            i <= v@.len(),
            out@ == ascii_lower_seq(v@.subrange(0, i as int)),
        decreases v@.len() - i,
    {
        let c = to_ascii_lower(v[i]);
        push_char(&mut out, c);
        i = i + 1;
        assert(out@ =~= ascii_lower_seq(v@.subrange(0, i as int)));
    }
    assert(v@.subrange(0, v@.len() as int) =~= v@);
    out
}

/// `s` with every `from` replaced by `to` (`str::replace` with one-character patterns).
pub fn replace_chars(s: &str, from: char, to: char) -> (out: String)
    ensures
        out@ == replace_char(s@, from, to),
{
    let v = chars_of(s);
    let mut out = String::new();
    let mut i: usize = 0;
    while i < v.len()
        invariant
            i <= v@.len(),
            out@ == replace_char(v@.subrange(0, i as int), from, to),
        decreases v@.len() - i,
    {
        let c = v[i];
        if c == from {
            push_char(&mut out, to);
        } else {
            push_char(&mut out, c);
        }
        i = i + 1;
        assert(out@ =~= replace_char(v@.subrange(0, i as int), from, to));
    }
    assert(v@.subrange(0, v@.len() as int) =~= v@);
    out
}

/// Whether two strings hold the same characters.
pub fn str_eq(a: &str, b: &str) -> (r: bool)
    ensures
        r == (a@ == b@),
{
    let va = chars_of(a);
    let vb = chars_of(b);
    if va.len() != vb.len() {
        return false;
    }
    let mut i: usize = 0;
    while i < va.len()
        invariant
            i <= va@.len() == vb@.len(),
            va@ == a@,
            vb@ == b@,
            forall|k: int| 0 <= k < i ==> va@[k] == vb@[k],
        decreases va@.len() - i,
    {
        if va[i] != vb[i] {
            assert(va@[i as int] != vb@[i as int]);
            return false;
        }
        i = i + 1;
    }
    assert(va@ =~= vb@);
    true
}

/// The digit character for `d < 10`.
pub fn digit(d: usize) -> (c: char)
    requires
        d < 10,
    ensures
        c == digit_char(d as nat),
{
    if d == 0 { '0' }
    else if d == 1 { '1' }
    else if d == 2 { '2' }
    else if d == 3 { '3' }
    else if d == 4 { '4' }
    else if d == 5 { '5' }
    else if d == 6 { '6' }
    else if d == 7 { '7' }
    else if d == 8 { '8' }
    else { '9' }
}

/// Appends the decimal rendering of `n` to `s`.
pub fn push_decimal(s: &mut String, n: u64)
    ensures
        final(s)@ == old(s)@ + decimal(n as nat),
    decreases n,
{
    if n >= 10 {
        push_decimal(s, n / 10);
    }
    push_char(s, digit((n % 10) as usize));
    proof {
        if n >= 10 {
            assert(decimal(n as nat) == decimal((n / 10) as nat).push(digit_char((n % 10) as nat)));
        }
    }
    assert(final(s)@ =~= old(s)@ + decimal(n as nat)) by {
        if n >= 10 {
            assert(decimal(n as nat) == decimal((n / 10) as nat).push(digit_char((n % 10) as nat)));
        }
    }
}

/// The index of the first `c` in `v`, or `v.len()` where there is none.
pub fn index_of(v: &Vec<char>, c: char) -> (r: usize)
    ensures
        r as int == first_index_of(v@, c),
        r <= v@.len(),
{
    let mut i: usize = 0;
    assert(v@.subrange(0, v@.len() as int) =~= v@);
    while i < v.len() && v[i] != c
        invariant
            i <= v@.len(),
            first_index_of(v@, c) == i + first_index_of(v@.subrange(i as int, v@.len() as int), c),
        decreases v@.len() - i,
    {
        let ghost rest = v@.subrange(i as int, v@.len() as int);
        assert(rest.subrange(1, rest.len() as int) =~= v@.subrange(i + 1, v@.len() as int));
        i = i + 1;
    }
    proof {
        let rest = v@.subrange(i as int, v@.len() as int);
        if i < v@.len() {
            assert(rest[0] == v@[i as int]);
        }
        lemma_first_index_bound(v@, c);
    }
    i
}

proof fn lemma_first_index_bound(s: Seq<char>, c: char)
    ensures
        0 <= first_index_of(s, c) <= s.len(),
    decreases s.len(),
{
    if s.len() > 0 && s[0] != c {
        lemma_first_index_bound(s.subrange(1, s.len() as int), c);
    }
}

/// Whether `s` ends with `t`.
pub open spec fn ends_with(s: Seq<char>, t: Seq<char>) -> bool {
    s.len() >= t.len() && s.subrange(s.len() - t.len(), s.len() as int) == t
}

/// Whether `s` ends with `t` (`str::ends_with`).
pub fn str_ends_with(s: &str, t: &str) -> (r: bool)
    ensures
        r == ends_with(s@, t@),
{
    let vs = chars_of(s);
    let vt = chars_of(t);
    if vt.len() > vs.len() {
        return false;
    }
    let start = vs.len() - vt.len();
    let mut i: usize = 0;
    while i < vt.len()
        invariant
            i <= vt@.len(),
            vs@ == s@,
            vt@ == t@,
            vt@.len() <= vs@.len(),
            vs@.len() <= usize::MAX,
            start == vs@.len() - vt@.len(),
            forall|j: int| 0 <= j < i ==> vs@[start + j] == vt@[j],
        decreases vt@.len() - i,
    {
        if vs[start + i] != vt[i] {
            assert(s@.subrange(start as int, s@.len() as int)[i as int] != t@[i as int]);
            return false;
        }
        i = i + 1;
    }
    assert(s@.subrange(start as int, s@.len() as int) =~= t@);
    true
}

} // verus!
