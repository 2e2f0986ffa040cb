//! Character-level text model: the string operations the analysis relies on
//! (`lines`, `contains`, `find`, `trim`, prefix handling, decimal rendering),
//! each stated over `Seq<char>` and implemented over `&[char]`.
use vstd::prelude::*;

verus! {

// ---------------------------------------------------------------------------
// Spec model
// ---------------------------------------------------------------------------

/// `char::is_whitespace`: the Unicode `White_Space` property.
pub open spec fn is_ws(c: char) -> bool {
    let u = c as u32;
    ||| 0x09 <= u <= 0x0D
    ||| u == 0x20
    ||| u == 0x85
    ||| u == 0xA0
    ||| u == 0x1680
    ||| 0x2000 <= u <= 0x200A
    ||| u == 0x2028
    ||| u == 0x2029
    ||| u == 0x202F
    ||| u == 0x205F
    ||| u == 0x3000
}

/// Leading whitespace removed.
pub open spec fn trim_front(s: Seq<char>) -> Seq<char>
    decreases s.len(),
{
    if s.len() > 0 && is_ws(s[0]) {
        trim_front(s.drop_first())
    } else {
        s
    }
}

/// Trailing whitespace removed.
pub open spec fn trim_back(s: Seq<char>) -> Seq<char>
    decreases s.len(),
{
    if s.len() > 0 && is_ws(s.last()) {
        trim_back(s.drop_last())
    } else {
        s
    }
}

/// `str::trim`.
pub open spec fn trim(s: Seq<char>) -> Seq<char> {
    trim_back(trim_front(s))
}

/// `n` occurs in `h` starting at index `i`.
pub open spec fn occurs_at(h: Seq<char>, n: Seq<char>, i: int) -> bool {
    0 <= i && i + n.len() <= h.len() && h.subrange(i, i + n.len()) == n
}

/// `str::contains` with a string pattern.
pub open spec fn contains(h: Seq<char>, n: Seq<char>) -> bool {
    exists|i: int| occurs_at(h, n, i)
}

/// First occurrence of `n` in `h` at or after index `i`.
pub open spec fn find_from(h: Seq<char>, n: Seq<char>, i: int) -> Option<int>
    decreases h.len() + 1 - i,
{
    if i < 0 || i + n.len() > h.len() {
        None
    } else if occurs_at(h, n, i) {
        Some(i)
    } else {
        find_from(h, n, i + 1)
    }
}

/// `str::find` with a string pattern (as a character index).
pub open spec fn find(h: Seq<char>, n: Seq<char>) -> Option<int> {
    find_from(h, n, 0)
}

/// Number of non-overlapping occurrences of `n` in `h`, scanning left to right
/// from index `i` (`str::matches(..).count()`).
pub open spec fn count_from(h: Seq<char>, n: Seq<char>, i: int) -> nat
    decreases h.len() + 1 - i,
{
    if n.len() == 0 || i < 0 || i + n.len() > h.len() {
        0
    } else if occurs_at(h, n, i) {
        1 + count_from(h, n, i + n.len())
    } else {
        count_from(h, n, i + 1)
    }
}

pub open spec fn count_matches(h: Seq<char>, n: Seq<char>) -> nat {
    count_from(h, n, 0)
}

/// `str::starts_with` with a string pattern.
pub open spec fn starts_with(s: Seq<char>, p: Seq<char>) -> bool {
    p.len() <= s.len() && s.subrange(0, p.len() as int) == p
}

/// `str::ends_with` with a string pattern.
pub open spec fn ends_with(s: Seq<char>, p: Seq<char>) -> bool {
    p.len() <= s.len() && s.subrange(s.len() - p.len(), s.len() as int) == p
}

/// `str::strip_prefix` with a string pattern.
pub open spec fn strip_prefix(s: Seq<char>, p: Seq<char>) -> Option<Seq<char>> {
    if starts_with(s, p) {
        Some(s.subrange(p.len() as int, s.len() as int))
    } else {
        None
    }
}

/// `str::trim_end_matches` with a non-empty string pattern.
pub open spec fn trim_end_matches(s: Seq<char>, p: Seq<char>) -> Seq<char>
    decreases s.len(),
{
    if p.len() > 0 && ends_with(s, p) {
        trim_end_matches(s.subrange(0, s.len() - p.len()), p)
    } else {
        s
    }
}

/// Index of the first `'\n'` at or after `i` (or the length).
pub open spec fn line_end(s: Seq<char>, i: int) -> int
    decreases s.len() - i,
{
    if i < 0 || i >= s.len() || s[i] == '\n' {
        i
    } else {
        line_end(s, i + 1)
    }
}

/// A line terminated by `'\n'` also drops one trailing `'\r'`.
pub open spec fn strip_cr(l: Seq<char>) -> Seq<char> {
    if l.len() > 0 && l.last() == '\r' {
        l.drop_last()
    } else {
        l
    }
}

/// The lines of `s` that start at or after index `i`.
pub open spec fn lines_from(s: Seq<char>, i: int) -> Seq<Seq<char>>
    decreases s.len() - i,
{
    if i < 0 || i >= s.len() {
        seq![]
    } else {
        let e = line_end(s, i);
        proof {
            lemma_line_end_bounds(s, i);
        }
        if e < s.len() {
            seq![strip_cr(s.subrange(i, e))] + lines_from(s, e + 1)
        } else {
            seq![s.subrange(i, e)]
        }
    }
}

/// `str::lines`: split at `'\n'`, dropping a `'\r'` before it; no final
/// empty line.
pub open spec fn lines(s: Seq<char>) -> Seq<Seq<char>> {
    lines_from(s, 0)
}

/// Pieces of `s` between occurrences of `sep`, starting at index `i`
/// (`str::split` with a `char` pattern; always at least one piece).
pub open spec fn split_from(s: Seq<char>, sep: char, i: int) -> Seq<Seq<char>>
    decreases s.len() - i,
{
    let e = char_end(s, sep, i);
    if i < 0 || e >= s.len() {
        seq![s.subrange(if i < 0 { 0 } else if i > s.len() { s.len() as int } else { i }, s.len() as int)]
    } else {
        proof {
            lemma_char_end_bounds(s, sep, i);
        }
        seq![s.subrange(i, e)] + split_from(s, sep, e + 1)
    }
}

pub open spec fn split(s: Seq<char>, sep: char) -> Seq<Seq<char>> {
    split_from(s, sep, 0)
}

/// Index of the first `c` at or after `i` (or the length).
pub open spec fn char_end(s: Seq<char>, c: char, i: int) -> int
    decreases s.len() - i,
{
    if i < 0 || i >= s.len() || s[i] == c {
        i
    } else {
        char_end(s, c, i + 1)
    }
}

/// Index of the last `c` in `s`, if any.
pub open spec fn last_char_index(s: Seq<char>, c: char) -> Option<int>
    decreases s.len(),
{
    if s.len() == 0 {
        None
    } else if s.last() == c {
        Some(s.len() - 1)
    } else {
        last_char_index(s.drop_last(), c)
    }
}

/// The text after the last `c` (`str::split(c).next_back()`).
pub open spec fn after_last(s: Seq<char>, c: char) -> Seq<char> {
    match last_char_index(s, c) {
        Some(k) => s.subrange(k + 1, s.len() as int),
        None => s,
    }
}

/// The text before the first character in `stops`
/// (`str::split(&[..]).next()` for a set of characters).
pub open spec fn before_any(s: Seq<char>, stops: Seq<char>) -> Seq<char> {
    s.subrange(0, stop_index(s, stops, 0))
}

pub open spec fn stop_index(s: Seq<char>, stops: Seq<char>, i: int) -> int
    decreases s.len() - i,
{
    if i < 0 || i >= s.len() || stops.contains(s[i]) {
        i
    } else {
        stop_index(s, stops, i + 1)
    }
}

pub open spec fn digit(d: int) -> char {
    if d == 0 {
        '0'
    } else if d == 1 {
        '1'
    } else if d == 2 {
        '2'
    } else if d == 3 {
        '3'
    } else if d == 4 {
        '4'
    } else if d == 5 {
        '5'
    } else if d == 6 {
        '6'
    } else if d == 7 {
        '7'
    } else if d == 8 {
        '8'
    } else {
        '9'
    }
}

/// Decimal rendering of a natural number (`Display` for unsigned integers).
pub open spec fn decimal(n: nat) -> Seq<char>
    decreases n,
{
    if n < 10 {
        seq![digit(n as int)]
    } else {
        decimal(n / 10).push(digit((n % 10) as int))
    }
}

/// The views of a sequence of character vectors.
pub open spec fn texts(v: Seq<Vec<char>>) -> Seq<Seq<char>> {
    v.map_values(|x: Vec<char>| x@)
}

/// A line carries every pattern of `pats`.
pub open spec fn has_all(l: Seq<char>, pats: Seq<Seq<char>>) -> bool {
    forall|k: int| 0 <= k < pats.len() ==> contains(l, #[trigger] pats[k])
}

/// Index of the first line at or after `i` that carries every pattern.
pub open spec fn position_from(ls: Seq<Seq<char>>, pats: Seq<Seq<char>>, i: int) -> Option<int>
    decreases ls.len() - i,
{
    if i < 0 || i >= ls.len() {
        None
    } else if has_all(ls[i], pats) {
        Some(i)
    } else {
        position_from(ls, pats, i + 1)
    }
}

/// `lines().position(|l| pats.all(|p| l.contains(p)))`.
pub open spec fn position(ls: Seq<Seq<char>>, pats: Seq<Seq<char>>) -> Option<int> {
    position_from(ls, pats, 0)
}

/// The 1-based line number of 0-based line `n`: `(n + 1) as u32`.
pub open spec fn line_no(n: int) -> u32 {
    (n + 1) as u32
}

pub open spec fn line_no_of(p: Option<int>) -> Option<u32> {
    match p {
        Some(n) => Some(line_no(n)),
        None => None,
    }
}

// ---------------------------------------------------------------------------
// Lemmas
// ---------------------------------------------------------------------------

pub proof fn lemma_line_end_bounds(s: Seq<char>, i: int)
    requires
        0 <= i,
    ensures
        i <= line_end(s, i),
        i < s.len() ==> line_end(s, i) <= s.len(),
        line_end(s, i) < s.len() ==> s[line_end(s, i)] == '\n',
        forall|j: int| i <= j < line_end(s, i) ==> s[j] != '\n',
    decreases s.len() - i,
{
    if i >= s.len() || s[i] == '\n' {
    } else {
        lemma_line_end_bounds(s, i + 1);
    }
}

pub proof fn lemma_char_end_bounds(s: Seq<char>, c: char, i: int)
    requires
        0 <= i,
    ensures
        i <= char_end(s, c, i),
        i < s.len() ==> char_end(s, c, i) <= s.len(),
        char_end(s, c, i) < s.len() ==> s[char_end(s, c, i)] == c,
        forall|j: int| i <= j < char_end(s, c, i) ==> s[j] != c,
    decreases s.len() - i,
{
    if i >= s.len() || s[i] == c {
    } else {
        lemma_char_end_bounds(s, c, i + 1);
    }
}

proof fn lemma_line_end_skip(s: Seq<char>, i: int, k: int)
    requires
        0 <= i <= k <= s.len(),
        forall|j: int| i <= j < k ==> s[j] != '\n',
    ensures
        line_end(s, i) == line_end(s, k),
    decreases k - i,
{
    if i < k {
        lemma_line_end_skip(s, i + 1, k);
    }
}

proof fn lemma_char_end_skip(s: Seq<char>, c: char, i: int, k: int)
    requires
        0 <= i <= k <= s.len(),
        forall|j: int| i <= j < k ==> s[j] != c,
    ensures
        char_end(s, c, i) == char_end(s, c, k),
    decreases k - i,
{
    if i < k {
        lemma_char_end_skip(s, c, i + 1, k);
    }
}

proof fn lemma_stop_index_skip(s: Seq<char>, stops: Seq<char>, i: int, k: int)
    requires
        0 <= i <= k <= s.len(),
        forall|j: int| i <= j < k ==> !stops.contains(s[j]),
    ensures
        stop_index(s, stops, i) == stop_index(s, stops, k),
    decreases k - i,
{
    if i < k {
        lemma_stop_index_skip(s, stops, i + 1, k);
    }
}

/// `find_from` gives the first occurrence at or after `i`.
pub proof fn lemma_find_from(h: Seq<char>, n: Seq<char>, i: int)
    requires
        0 <= i,
    ensures
        match find_from(h, n, i) {
            Some(k) => i <= k && occurs_at(h, n, k) && forall|j: int|
                i <= j < k ==> !occurs_at(h, n, j),
            None => forall|j: int| i <= j ==> !occurs_at(h, n, j),
        },
    decreases h.len() + 1 - i,
{
    if i + n.len() > h.len() {
    } else if occurs_at(h, n, i) {
    } else {
        lemma_find_from(h, n, i + 1);
    }
}

/// `contains` holds exactly when `find` finds something.
pub proof fn lemma_contains_find(h: Seq<char>, n: Seq<char>)
    ensures
        contains(h, n) <==> find(h, n) is Some,
{
    lemma_find_from(h, n, 0);
    if let Some(k) = find(h, n) {
        assert(occurs_at(h, n, k));
    }
}

proof fn lemma_trim_front_step(s: Seq<char>, i: int)
    requires
        0 <= i < s.len(),
        is_ws(s[i]),
    ensures
        trim_front(s.subrange(i, s.len() as int)) == trim_front(s.subrange(i + 1, s.len() as int)),
{
    let t = s.subrange(i, s.len() as int);
    assert(t.drop_first() =~= s.subrange(i + 1, s.len() as int));
}

proof fn lemma_trim_back_step(s: Seq<char>, i: int, j: int)
    requires
        0 <= i < j <= s.len(),
        is_ws(s[j - 1]),
    ensures
        trim_back(s.subrange(i, j)) == trim_back(s.subrange(i, j - 1)),
{
    let t = s.subrange(i, j);
    assert(t.drop_last() =~= s.subrange(i, j - 1));
}

proof fn lemma_last_char_index(s: Seq<char>, c: char)
    ensures
        match last_char_index(s, c) {
            Some(k) => 0 <= k < s.len() && s[k] == c && forall|j: int|
                k < j < s.len() ==> s[j] != c,
            None => forall|j: int| 0 <= j < s.len() ==> s[j] != c,
        },
    decreases s.len(),
{
    if s.len() == 0 {
    } else if s.last() == c {
    } else {
        let t = s.drop_last();
        lemma_last_char_index(t, c);
        assert forall|j: int| 0 <= j < t.len() implies s[j] == t[j] by {}
    }
}

// ---------------------------------------------------------------------------
// Executable operations
// ---------------------------------------------------------------------------

/// `char::is_whitespace`.
pub fn is_whitespace(c: char) -> (r: bool)
    ensures
        r == is_ws(c),
{
    let u = c as u32;
    (0x09 <= u && u <= 0x0D) || u == 0x20 || u == 0x85 || u == 0xA0 || u == 0x1680 || (0x2000
        <= u && u <= 0x200A) || u == 0x2028 || u == 0x2029 || u == 0x202F || u == 0x205F || u
        == 0x3000
}

/// The characters of a string.
pub fn chars_of(s: &str) -> (v: Vec<char>)
    ensures
        v@ == s@,
{
    let mut v: Vec<char> = Vec::new();
    for c in it: s.chars()
        invariant
            v@ == it.seq().take(it.index() as int),
            it.seq() == s@,
    {
        v.push(c);
    }
    v
}

/// `String::push`.
#[verifier::external_body]
fn string_push(s: &mut String, c: char)
    ensures
        final(s)@ == old(s)@.push(c),
{
    s.push(c)
}

/// A `String` holding exactly the given characters.
pub fn string_of(v: &[char]) -> (s: String)
    ensures
        s@ == v@,
{
    let mut s = String::new();
    let mut i: usize = 0;
    while i < v.len()
        invariant
            i <= v@.len(),
            s@ == v@.subrange(0, i as int),
        decreases v@.len() - i,
    {
        string_push(&mut s, v[i]);
        assert(v@.subrange(0, i as int).push(v@[i as int]) =~= v@.subrange(0, i + 1));
        i = i + 1;
    }
    assert(v@.subrange(0, v@.len() as int) =~= v@);
    s
}

/// Append characters to a string.
pub fn push_chars(s: &mut String, v: &[char])
    ensures
        final(s)@ == old(s)@ + v@,
{
    let mut i: usize = 0;
    while i < v.len()
        invariant
            i <= v@.len(),
            s@ == old(s)@ + v@.subrange(0, i as int),
        decreases v@.len() - i,
    {
        string_push(s, v[i]);
        assert(v@.subrange(0, i as int).push(v@[i as int]) =~= v@.subrange(0, i + 1));
        assert((old(s)@ + v@.subrange(0, i as int)).push(v@[i as int]) =~= old(s)@ + v@.subrange(
            0,
            i + 1,
        ));
        i = i + 1;
    }
    assert(v@.subrange(0, v@.len() as int) =~= v@);
}

/// Copy of `s[a..b]`.
pub fn slice_chars(s: &[char], a: usize, b: usize) -> (v: Vec<char>)
    requires
        a <= b <= s@.len(),
    ensures
        v@ == s@.subrange(a as int, b as int),
{
    let mut v: Vec<char> = Vec::new();
    let mut i = a;
    while i < b
        invariant
            a <= i <= b <= s@.len(),
            v@ == s@.subrange(a as int, i as int),
        decreases b - i,
    {
        v.push(s[i]);
        assert(s@.subrange(a as int, i as int).push(s@[i as int]) =~= s@.subrange(
            a as int,
            i + 1,
        ));
        i = i + 1;
    }
    v
}

/// Concatenation.
pub fn concat(a: &[char], b: &[char]) -> (v: Vec<char>)
    ensures
        v@ == a@ + b@,
{
    let mut v = slice_chars(a, 0, a.len());
    let mut i: usize = 0;
    while i < b.len()
        invariant
            i <= b@.len(),
            v@ == a@ + b@.subrange(0, i as int),
        decreases b@.len() - i,
    {
        v.push(b[i]);
        assert((a@ + b@.subrange(0, i as int)).push(b@[i as int]) =~= a@ + b@.subrange(0, i + 1));
        i = i + 1;
    }
    assert(b@.subrange(0, b@.len() as int) =~= b@);
    assert(a@.subrange(0, a@.len() as int) =~= a@);
    v
}

/// Character-wise equality.
pub fn same(a: &[char], b: &[char]) -> (r: bool)
    ensures
        r == (a@ == b@),
{
    if a.len() != b.len() {
        return false;
    }
    let mut i: usize = 0;
    while i < a.len()
        invariant
            a@.len() == b@.len(),
            i <= a@.len(),
            forall|j: int| 0 <= j < i ==> a@[j] == b@[j],
        decreases a@.len() - i,
    {
        if a[i] != b[i] {
            return false;
        }
        i = i + 1;
    }
    assert(a@ =~= b@);
    true
}

/// Whether `n` occurs in `h` at index `i`.
pub fn matches_at(h: &[char], n: &[char], i: usize) -> (r: bool)
    ensures
        r == occurs_at(h@, n@, i as int),
{
    let hl = h.len();
    if i > hl || n.len() > hl - i {
        return false;
    }
    let mut k: usize = 0;
    while k < n.len()
        invariant
            hl == h@.len(),
            i + n@.len() <= h@.len(),
            k <= n@.len(),
            forall|j: int| 0 <= j < k ==> h@[i + j] == n@[j],
        decreases n@.len() - k,
    {
        if h[i + k] != n[k] {
            assert(h@.subrange(i as int, i + n@.len())[k as int] != n@[k as int]);
            return false;
        }
        k = k + 1;
    }
    assert(h@.subrange(i as int, i + n@.len()) =~= n@);
    true
}

/// `h[start..].find(n)` as an index into `h`.
pub fn find_at(h: &[char], n: &[char], start: usize) -> (r: Option<usize>)
    ensures
        r == (match find_from(h@, n@, start as int) {
            Some(k) => Some(k as usize),
            None => None,
        }),
        r matches Some(k) ==> start <= k && k + n@.len() <= h@.len(),
        find_from(h@, n@, start as int) matches Some(k) ==> start <= k && k + n@.len() <= h@.len(),
{
    proof {
        lemma_find_from(h@, n@, start as int);
    }
    let hl = h.len();
    let nl = n.len();
    if start > hl || nl > hl - start {
        return None;
    }
    if nl == 0 {
        assert(h@.subrange(start as int, start as int) =~= n@);
        return Some(start);
    }
    let mut i = start;
    while i <= hl - nl
        invariant
            hl == h@.len(),
            nl == n@.len(),
            1 <= nl <= hl,
            start <= i <= hl,
            find_from(h@, n@, start as int) == find_from(h@, n@, i as int),
        decreases hl - i,
    {
        if matches_at(h, n, i) {
            return Some(i);
        }
        i = i + 1;
    }
    None
}

/// `str::find`.
pub fn find_chars(h: &[char], n: &[char]) -> (r: Option<usize>)
    ensures
        r == (match find(h@, n@) {
            Some(k) => Some(k as usize),
            None => None,
        }),
        r matches Some(k) ==> k + n@.len() <= h@.len(),
        find(h@, n@) matches Some(k) ==> 0 <= k && k + n@.len() <= h@.len(),
{
    find_at(h, n, 0)
}

/// `str::contains`.
pub fn contains_chars(h: &[char], n: &[char]) -> (r: bool)
    ensures
        r == contains(h@, n@),
{
    proof {
        lemma_contains_find(h@, n@);
    }
    find_at(h, n, 0).is_some()
}

/// `str::contains` for a string literal pattern.
pub fn contains_str(h: &[char], n: &str) -> (r: bool)
    ensures
        r == contains(h@, n@),
{
    let nv = chars_of(n);
    contains_chars(h, nv.as_slice())
}

/// `str::matches(n).count()` for a non-empty pattern.
pub fn count_chars(h: &[char], n: &[char]) -> (r: usize)
    ensures
        r == count_matches(h@, n@),
{
    let hl = h.len();
    let nl = n.len();
    if nl == 0 || nl > hl {
        return 0;
    }
    let mut i: usize = 0;
    let mut c: usize = 0;
    while i <= hl - nl
        invariant
            hl == h@.len(),
            nl == n@.len(),
            1 <= nl <= hl,
            c + count_from(h@, n@, i as int) == count_matches(h@, n@),
            c <= i <= hl,
        decreases hl - i,
    {
        if matches_at(h, n, i) {
            c = c + 1;
            i = i + nl;
        } else {
            i = i + 1;
        }
    }
    c
}

/// `str::starts_with`.
pub fn starts_with_chars(s: &[char], p: &[char]) -> (r: bool)
    ensures
        r == starts_with(s@, p@),
{
    let r = matches_at(s, p, 0);
    proof {
        if r {
            assert(s@.subrange(0, p@.len() as int) == p@);
        }
    }
    r
}

/// `str::starts_with` for a literal pattern.
pub fn starts_with_str(s: &[char], p: &str) -> (r: bool)
    ensures
        r == starts_with(s@, p@),
{
    let pv = chars_of(p);
    starts_with_chars(s, pv.as_slice())
}

/// `str::ends_with`.
pub fn ends_with_chars(s: &[char], p: &[char]) -> (r: bool)
    ensures
        r == ends_with(s@, p@),
{
    if p.len() > s.len() {
        return false;
    }
    let r = matches_at(s, p, s.len() - p.len());
    r
}

/// `str::strip_prefix` for a literal pattern.
pub fn strip_prefix_str(s: &[char], p: &str) -> (r: Option<Vec<char>>)
    ensures
        match strip_prefix(s@, p@) {
            Some(t) => r matches Some(v) && v@ == t,
            None => r is None,
        },
{
    let pv = chars_of(p);
    if starts_with_chars(s, pv.as_slice()) {
        Some(slice_chars(s, pv.len(), s.len()))
    } else {
        None
    }
}

/// `str::trim`.
pub fn trim_chars(s: &[char]) -> (r: Vec<char>)
    ensures
        r@ == trim(s@),
{
    let n = s.len();
    let mut i: usize = 0;
    assert(s@.subrange(0, n as int) =~= s@);
    while i < n && is_whitespace(s[i])
        invariant
            n == s@.len(),
            i <= n,
            trim_front(s@) == trim_front(s@.subrange(i as int, n as int)),
        decreases n - i,
    {
        proof {
            lemma_trim_front_step(s@, i as int);
        }
        i = i + 1;
    }
    assert(trim_front(s@.subrange(i as int, n as int)) == s@.subrange(i as int, n as int));
    let mut j: usize = n;
    while j > i && is_whitespace(s[j - 1])
        invariant
            n == s@.len(),
            i <= j <= n,
            trim(s@) == trim_back(s@.subrange(i as int, j as int)),
        decreases j,
    {
        proof {
            lemma_trim_back_step(s@, i as int, j as int);
        }
        j = j - 1;
    }
    slice_chars(s, i, j)
}

/// `str::trim_end_matches` for a literal pattern.
pub fn trim_end_matches_str(s: &[char], p: &str) -> (r: Vec<char>)
    ensures
        r@ == trim_end_matches(s@, p@),
{
    let pv = chars_of(p);
    let mut e = s.len();
    assert(s@.subrange(0, e as int) =~= s@);
    while pv.len() > 0 && ends_with_chars(slice_chars(s, 0, e).as_slice(), pv.as_slice())
        invariant
            pv@ == p@,
            e <= s@.len(),
            trim_end_matches(s@, p@) == trim_end_matches(s@.subrange(0, e as int), p@),
        decreases e,
    {
        assert(s@.subrange(0, e as int).subrange(0, e - pv@.len()) =~= s@.subrange(
            0,
            e - pv@.len(),
        ));
        e = e - pv.len();
    }
    slice_chars(s, 0, e)
}

/// `str::lines`.
pub fn lines_of(s: &[char]) -> (r: Vec<Vec<char>>)
    ensures
        texts(r@) == lines(s@),
{
    let n = s.len();
    let mut out: Vec<Vec<char>> = Vec::new();
    let mut start: usize = 0;
    let mut k: usize = 0;
    assert(texts(out@) =~= seq![]);
    while k < n
        invariant
            n == s@.len(),
            start <= k <= n,
            forall|j: int| start <= j < k ==> s@[j] != '\n',
            texts(out@) + lines_from(s@, start as int) == lines(s@),
        decreases n - k,
    {
        if s[k] == '\n' {
            proof {
                lemma_line_end_skip(s@, start as int, k as int);
                lemma_line_end_bounds(s@, start as int);
            }
            let mut line = slice_chars(s, start, k);
            if line.len() > 0 && line[line.len() - 1] == '\r' {
                line.pop();
            }
            proof {
                let raw = s@.subrange(start as int, k as int);
                assert(line@ == strip_cr(raw));
                assert(lines_from(s@, start as int) == seq![line@] + lines_from(s@, k + 1));
                assert(texts(out@.push(line)) =~= texts(out@).push(line@));
                assert(texts(out@).push(line@) + lines_from(s@, k + 1) =~= texts(out@) + (seq![
                    line@,
                ] + lines_from(s@, k + 1)));
            }
            out.push(line);
            start = k + 1;
        }
        k = k + 1;
    }
    if start < n {
        proof {
            lemma_line_end_skip(s@, start as int, n as int);
            lemma_line_end_bounds(s@, start as int);
        }
        let line = slice_chars(s, start, n);
        proof {
            assert(lines_from(s@, n as int + 1) == Seq::<Seq<char>>::empty());
            assert(lines_from(s@, start as int) == seq![line@] + lines_from(s@, n + 1));
            assert(texts(out@.push(line)) =~= texts(out@).push(line@));
            assert(texts(out@).push(line@) =~= texts(out@) + (seq![line@] + Seq::<
                Seq<char>,
            >::empty()));
        }
        out.push(line);
    } else {
        assert(texts(out@) + lines_from(s@, start as int) =~= texts(out@));
    }
    out
}

/// `str::split` with a `char` pattern.
pub fn split_char(s: &[char], sep: char) -> (r: Vec<Vec<char>>)
    ensures
        texts(r@) == split(s@, sep),
{
    let n = s.len();
    let mut out: Vec<Vec<char>> = Vec::new();
    let mut start: usize = 0;
    let mut k: usize = 0;
    assert(texts(out@) =~= seq![]);
    while k < n
        invariant
            n == s@.len(),
            start <= k <= n,
            forall|j: int| start <= j < k ==> s@[j] != sep,
            texts(out@) + split_from(s@, sep, start as int) == split(s@, sep),
        decreases n - k,
    {
        if s[k] == sep {
            proof {
                lemma_char_end_skip(s@, sep, start as int, k as int);
                lemma_char_end_bounds(s@, sep, start as int);
            }
            let piece = slice_chars(s, start, k);
            proof {
                assert(split_from(s@, sep, start as int) == seq![piece@] + split_from(
                    s@,
                    sep,
                    k + 1,
                ));
                assert(texts(out@.push(piece)) =~= texts(out@).push(piece@));
                assert(texts(out@).push(piece@) + split_from(s@, sep, k + 1) =~= texts(out@) + (
                seq![piece@] + split_from(s@, sep, k + 1)));
            }
            out.push(piece);
            start = k + 1;
        }
        k = k + 1;
    }
    proof {
        lemma_char_end_skip(s@, sep, start as int, n as int);
    }
    let piece = slice_chars(s, start, n);
    proof {
        assert(split_from(s@, sep, start as int) == seq![piece@]);
        assert(texts(out@.push(piece)) =~= texts(out@) + seq![piece@]);
    }
    out.push(piece);
    out
}

/// `str::split(c).next_back()`.
pub fn after_last_char(s: &[char], c: char) -> (r: Vec<char>)
    ensures
        r@ == after_last(s@, c),
{
    proof {
        lemma_last_char_index(s@, c);
    }
    let mut k = s.len();
    while k > 0 && s[k - 1] != c
        invariant
            k <= s@.len(),
            forall|j: int| k <= j < s@.len() ==> s@[j] != c,
        decreases k,
    {
        k = k - 1;
    }
    proof {
        if k > 0 {
            assert(last_char_index(s@, c) == Some(k - 1)) by {
                lemma_last_char_index_is(s@, c, k - 1);
            }
        } else {
            assert(last_char_index(s@, c) is None) by {
                lemma_last_char_index_none(s@, c);
            }
            assert(s@.subrange(0, s@.len() as int) =~= s@);
        }
    }
    slice_chars(s, k, s.len())
}

proof fn lemma_last_char_index_is(s: Seq<char>, c: char, k: int)
    requires
        0 <= k < s.len(),
        s[k] == c,
        forall|j: int| k < j < s.len() ==> s[j] != c,
    ensures
        last_char_index(s, c) == Some(k),
    decreases s.len(),
{
    if s.last() != c {
        assert(s.drop_last()[k] == c);
        lemma_last_char_index_is(s.drop_last(), c, k);
    }
}

proof fn lemma_last_char_index_none(s: Seq<char>, c: char)
    requires
        forall|j: int| 0 <= j < s.len() ==> s[j] != c,
    ensures
        last_char_index(s, c) is None,
    decreases s.len(),
{
    if s.len() > 0 {
        lemma_last_char_index_none(s.drop_last(), c);
    }
}

/// Text before the first character of `stops`.
pub fn before_any_of(s: &[char], stops: &[char]) -> (r: Vec<char>)
    ensures
        r@ == before_any(s@, stops@),
{
    let mut k: usize = 0;
    while k < s.len() && !char_in(s[k], stops)
        invariant
            k <= s@.len(),
            forall|j: int| 0 <= j < k ==> !stops@.contains(s@[j]),
        decreases s@.len() - k,
    {
        k = k + 1;
    }
    proof {
        lemma_stop_index_skip(s@, stops@, 0, k as int);
    }
    slice_chars(s, 0, k)
}

/// Membership of a character in a list.
pub fn char_in(c: char, set: &[char]) -> (r: bool)
    ensures
        r == set@.contains(c),
{
    let mut i: usize = 0;
    while i < set.len()
        invariant
            i <= set@.len(),
            forall|j: int| 0 <= j < i ==> set@[j] != c,
        decreases set@.len() - i,
    {
        if set[i] == c {
            assert(set@[i as int] == c);
            return true;
        }
        i = i + 1;
    }
    false
}

/// The decimal digit character for `d < 10`.
pub fn digit_char(d: usize) -> (c: char)
    requires
        d < 10,
    ensures
        c == digit(d as int),
{
    if d == 0 {
        '0'
    } else if d == 1 {
        '1'
    } else if d == 2 {
        '2'
    } else if d == 3 {
        '3'
    } else if d == 4 {
        '4'
    } else if d == 5 {
        '5'
    } else if d == 6 {
        '6'
    } else if d == 7 {
        '7'
    } else if d == 8 {
        '8'
    } else {
        '9'
    }
}

/// Decimal rendering of an unsigned number.
pub fn decimal_of(n: usize) -> (v: Vec<char>)
    ensures
        v@ == decimal(n as nat),
    decreases n,
{
    if n < 10 {
        let mut v = Vec::new();
        v.push(digit_char(n));
        assert(v@ =~= seq![digit(n as int)]);
        v
    } else {
        let mut v = decimal_of(n / 10);
        v.push(digit_char(n % 10));
        v
    }
}

pub proof fn lemma_position_from(ls: Seq<Seq<char>>, pats: Seq<Seq<char>>, i: int)
    ensures
        match position_from(ls, pats, i) {
            Some(k) => 0 <= i <= k < ls.len() && has_all(ls[k], pats) && forall|j: int|
                i <= j < k ==> !has_all(#[trigger] ls[j], pats),
            None => forall|j: int| 0 <= i <= j < ls.len() ==> !has_all(#[trigger] ls[j], pats),
        },
    decreases ls.len() - i,
{
    if i < 0 || i >= ls.len() {
    } else if has_all(ls[i], pats) {
    } else {
        lemma_position_from(ls, pats, i + 1);
    }
}

/// Index of the first line at or after `start` carrying every pattern.
pub fn position_lines(ls: &Vec<Vec<char>>, pats: &Vec<Vec<char>>, start: usize) -> (r: Option<
    usize,
>)
    ensures
        r == (match position_from(texts(ls@), texts(pats@), start as int) {
            Some(k) => Some(k as usize),
            None => None,
        }),
        r matches Some(k) ==> k < ls@.len(),
{
    proof {
        lemma_position_from(texts(ls@), texts(pats@), start as int);
    }
    let mut i = start;
    if i > ls.len() {
        return None;
    }
    while i < ls.len()
        invariant
            start <= i <= ls@.len(),
            position_from(texts(ls@), texts(pats@), start as int) == position_from(
                texts(ls@),
                texts(pats@),
                i as int,
            ),
        decreases ls@.len() - i,
    {
        if line_has_all(ls[i].as_slice(), pats) {
            return Some(i);
        }
        i = i + 1;
    }
    None
}

/// Whether a line carries every pattern.
pub fn line_has_all(l: &[char], pats: &Vec<Vec<char>>) -> (r: bool)
    ensures
        r == has_all(l@, texts(pats@)),
{
    let mut k: usize = 0;
    while k < pats.len()
        invariant
            k <= pats@.len(),
            forall|j: int| 0 <= j < k ==> contains(l@, #[trigger] texts(pats@)[j]),
        decreases pats@.len() - k,
    {
        if !contains_chars(l, pats[k].as_slice()) {
            assert(!contains(l@, texts(pats@)[k as int]));
            return false;
        }
        k = k + 1;
    }
    true
}

/// `lines().position(..)` for lines carrying every given literal, as the
/// 1-based line number.
pub fn find_line_with_all(ls: &Vec<Vec<char>>, pats: &Vec<Vec<char>>) -> (r: Option<u32>)
    ensures
        r == line_no_of(position(texts(ls@), texts(pats@))),
{
    proof {
        lemma_position_from(texts(ls@), texts(pats@), 0);
    }
    let _ = ls.len();
    let p = position_lines(ls, pats, 0);
    match p {
        Some(n) => {
            assert(n < ls.len());
            Some(line_number(n))
        },
        None => None,
    }
}

/// `(n + 1) as u32`.
pub fn line_number(n: usize) -> (r: u32)
    ensures
        r == line_no(n as int),
{
    #[verifier::truncate]
    let r = (n as u128 + 1) as u32;
    r
}

/// One literal pattern as a list.
pub fn pats1(a: &str) -> (r: Vec<Vec<char>>)
    ensures
        texts(r@) == seq![a@],
{
    let mut r = Vec::new();
    r.push(chars_of(a));
    assert(texts(r@) =~= seq![a@]);
    r
}

/// Two patterns as a list.
pub fn pats2(a: &[char], b: &[char]) -> (r: Vec<Vec<char>>)
    ensures
        texts(r@) == seq![a@, b@],
{
    let mut r = Vec::new();
    r.push(slice_chars(a, 0, a.len()));
    r.push(slice_chars(b, 0, b.len()));
    assert(a@.subrange(0, a@.len() as int) =~= a@);
    assert(b@.subrange(0, b@.len() as int) =~= b@);
    assert(texts(r@) =~= seq![a@, b@]);
    r
}

/// `Path::join` on Unix: an absolute `rel` replaces `base`; otherwise a `/`
/// is put between them unless `base` is empty or already ends with one.
pub open spec fn join_path(base: Seq<char>, rel: Seq<char>) -> Seq<char> {
    if rel.len() > 0 && rel[0] == '/' {
        rel
    } else if base.len() == 0 || base.last() == '/' {
        base + rel
    } else {
        base + "/"@ + rel
    }
}

/// `Path::join` on Unix paths held as text.
pub fn join_path_text(base: &str, rel: &str) -> (r: String)
    ensures
        r@ == join_path(base@, rel@),
{
    let b = chars_of(base);
    let r = chars_of(rel);
    if r.len() > 0 && r[0] == '/' {
        return string_of(r.as_slice());
    }
    let mut s = string_of(b.as_slice());
    if !(b.len() == 0 || b[b.len() - 1] == '/') {
        s.append("/");
    }
    s.append(rel);
    s
}

/// Whether a character has the Unicode `Uppercase` property, as
/// `char::is_uppercase` decides it.
pub uninterp spec fn uppercase_char(c: char) -> bool;

/// `char::is_uppercase`. Trusted: the result is the Unicode `Uppercase`
/// property of `c`, a function of `c` alone, named `uppercase_char`; its
/// table is not restated here.
#[verifier::external_body]
pub(crate) fn char_is_uppercase(c: char) -> (r: bool)
    ensures
        r == uppercase_char(c),
{
    c.is_uppercase()
}

/// Whether a string equals a literal.
pub fn text_is(s: &str, lit: &str) -> (r: bool)
    ensures
        r == (s@ == lit@),
{
    let a = chars_of(s);
    let b = chars_of(lit);
    same(a.as_slice(), b.as_slice())
}

/// One pattern, from characters.
pub fn pat_of(a: &[char]) -> (r: Vec<Vec<char>>)
    ensures
        texts(r@) == seq![a@],
{
    let mut r = Vec::new();
    r.push(slice_chars(a, 0, a.len()));
    assert(a@.subrange(0, a@.len() as int) =~= a@);
    assert(texts(r@) =~= seq![a@]);
    r
}

/// Three patterns.
pub fn pats3(a: &[char], b: &[char], c: &[char]) -> (r: Vec<Vec<char>>)
    ensures
        texts(r@) == seq![a@, b@, c@],
{
    let mut r = Vec::new();
    r.push(slice_chars(a, 0, a.len()));
    r.push(slice_chars(b, 0, b.len()));
    r.push(slice_chars(c, 0, c.len()));
    assert(a@.subrange(0, a@.len() as int) =~= a@);
    assert(b@.subrange(0, b@.len() as int) =~= b@);
    assert(c@.subrange(0, c@.len() as int) =~= c@);
    assert(texts(r@) =~= seq![a@, b@, c@]);
    r
}

/// As `find_line_with_all`, among the first `limit` lines only.
pub fn find_line_before(ls: &Vec<Vec<char>>, pats: &Vec<Vec<char>>, limit: usize) -> (r: Option<
    u32,
>)
    requires
        limit <= ls@.len(),
    ensures
        r == line_no_of(position(texts(ls@).take(limit as int), texts(pats@))),
{
    let ghost pre = texts(ls@).take(limit as int);
    let mut i: usize = 0;
    while i < limit
        invariant
            limit <= ls@.len(),
            i <= limit,
            pre == texts(ls@).take(limit as int),
            position_from(pre, texts(pats@), 0) == position_from(pre, texts(pats@), i as int),
        decreases limit - i,
    {
        assert(pre[i as int] == ls@[i as int]@);
        if line_has_all(ls[i].as_slice(), pats) {
            return Some(line_number(i));
        }
        i = i + 1;
    }
    None
}


// ---------------------------------------------------------------------------
// Lengths in UTF-8 bytes
// ---------------------------------------------------------------------------

/// The number of bytes UTF-8 takes for `c`.
pub open spec fn char_width(c: char) -> nat {
    if (c as u32) < 0x80 {
        1
    } else if (c as u32) < 0x800 {
        2
    } else if (c as u32) < 0x10000 {
        3
    } else {
        4
    }
}

/// The length of `s` in UTF-8 bytes, as `str::len` counts it.
pub open spec fn utf8_len(s: Seq<char>) -> nat
    decreases s.len(),
{
    if s.len() == 0 {
        0
    } else {
        utf8_len(s.drop_last()) + char_width(s.last())
    }
}

/// How many characters from the start of `s` fit in `max` bytes.
pub open spec fn bytes_fit(s: Seq<char>, max: int) -> nat
    decreases s.len(),
{
    if s.len() == 0 || char_width(s[0]) > max {
        0
    } else {
        1 + bytes_fit(s.drop_first(), max - char_width(s[0]))
    }
}

pub proof fn lemma_utf8_len_prefix(s: Seq<char>, i: int)
    requires
        0 <= i <= s.len(),
    ensures
        utf8_len(s.take(i)) <= utf8_len(s),
    decreases s.len() - i,
{
    if i < s.len() {
        lemma_utf8_len_prefix(s, i + 1);
        assert(s.take(i + 1).drop_last() =~= s.take(i));
    } else {
        assert(s.take(i) =~= s);
    }
}

fn width_of(c: char) -> (r: usize)
    ensures
        r == char_width(c),
{
    let u = c as u32;
    if u < 0x80 {
        1
    } else if u < 0x800 {
        2
    } else if u < 0x10000 {
        3
    } else {
        4
    }
}

/// Whether `s` takes more than `n` bytes in UTF-8.
pub fn utf8_len_over(s: &[char], n: usize) -> (r: bool)
    ensures
        r == (utf8_len(s@) > n),
{
    let mut total: usize = 0;
    let mut i: usize = 0;
    while i < s.len()
        invariant
            i <= s@.len(),
            total == utf8_len(s@.take(i as int)),
            total <= n,
        decreases s@.len() - i,
    {
        assert(s@.take(i + 1).drop_last() =~= s@.take(i as int));
        let w = width_of(s[i]);
        if w > n - total {
            proof {
                lemma_utf8_len_prefix(s@, i + 1);
            }
            return true;
        }
        total = total + w;
        i = i + 1;
    }
    assert(s@.take(s@.len() as int) =~= s@);
    false
}

/// The end of the characters from `start` on that fit in `max` bytes.
pub fn fit_end(s: &[char], start: usize, max: usize) -> (r: usize)
    requires
        start <= s@.len(),
    ensures
        r == start + bytes_fit(s@.skip(start as int), max as int),
        r <= s@.len(),
{
    let mut i: usize = start;
    let mut budget: usize = max;
    while i < s.len() && width_of(s[i]) <= budget
        invariant
            start <= i <= s@.len(),
            budget <= max,
            start + bytes_fit(s@.skip(start as int), max as int) == i + bytes_fit(
                s@.skip(i as int),
                budget as int,
            ),
        decreases s@.len() - i,
    {
        assert(s@.skip(i as int)[0] == s@[i as int]);
        assert(s@.skip(i as int).drop_first() =~= s@.skip(i + 1));
        let w = width_of(s[i]);
        budget = budget - w;
        i = i + 1;
    }
    if i < s.len() {
        assert(s@.skip(i as int)[0] == s@[i as int]);
    } else {
        assert(s@.skip(i as int).len() == 0);
    }
    i
}

} // verus!
