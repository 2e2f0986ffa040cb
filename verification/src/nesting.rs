//! How deeply a Rust source text nests, measured on its bytes before the
//! text is handed to a recursive-descent parser, whose stack grows with it.
//!
//! The scan follows the lexer: comments, string, raw string and character
//! literals are passed over, and every other token is weighed at the
//! bracket level it stands on, by how much parsing it may begin (see
//! `punct_weight`; a word, a literal and a bracket weigh 1, `<` 5 and `|`
//! 2). A level's weight counts its tokens since the last point where
//! everything begun on it must be complete: a `;`; a word or `#` right after
//! a closing brace, except a word that carries the construct on (`else`,
//! `as`, `in`, `if`, `where`, `for`, `mut`, `dyn`, `move`); and, for all but
//! `<` and `|`, a `,`. Each enclosing bracket adds 3, and the weights of the
//! enclosing levels are added in.
use vstd::prelude::*;

verus! {

/// The most weight `source_nesting_ok` admits at any point of a text.
pub const NESTING_LIMIT: usize = 256;

/// What the scan is inside of.
#[derive(Clone, Copy, PartialEq, Eq, Structural)]
pub enum LexMode {
    Code,
    LineComment,
    BlockComment,
    Str,
    CharLit,
    RawStr,
}

/// The weights of one bracket level.
#[derive(Clone, Copy)]
pub struct Level {
    /// The weight of the enclosing levels, the opening bracket included.
    pub base: usize,
    /// The weight of the `<` and `|` tokens since the level's last boundary.
    pub sticky: usize,
    /// The weight of the other tokens since the level's last boundary or
    /// comma.
    pub loose: usize,
    /// Whether the level's last token closed a brace.
    pub after_brace: bool,
}

/// The state of the scan besides the enclosing levels.
#[derive(Clone, Copy)]
pub struct Scan {
    pub mode: LexMode,
    /// How many block comments are open.
    pub nest: usize,
    /// The `#` count of the raw string being passed over.
    pub hashes: usize,
    /// The current level.
    pub cur: Level,
}

/// The weight at a level.
pub open spec fn weight(l: Level) -> int {
    l.base + l.sticky + l.loose
}

/// The level after a token of weight `w`.
pub open spec fn weighed(l: Level, w: int) -> Level {
    Level { loose: (l.loose + w) as usize, after_brace: false, ..l }
}

/// The level with one more token of weight one.
pub open spec fn counted(l: Level) -> Level {
    weighed(l, 1)
}

/// The level after a token that weighs nothing.
pub open spec fn quiet(l: Level) -> Level {
    Level { after_brace: false, ..l }
}

/// The level after a boundary.
pub open spec fn cleared(l: Level) -> Level {
    Level { sticky: 0, loose: 0, after_brace: false, ..l }
}

pub open spec fn with_cur(st: Scan, l: Level) -> Scan {
    Scan { cur: l, ..st }
}

pub open spec fn in_mode(st: Scan, m: LexMode) -> Scan {
    Scan { mode: m, ..st }
}

/// A byte of a word: an ASCII letter, digit or `_`.
pub open spec fn word_byte(b: u8) -> bool {
    (48 <= b && b <= 57) || (65 <= b && b <= 90) || (97 <= b && b <= 122) || b == 95
}

/// The end of the word bytes from `i`.
pub open spec fn word_end(s: Seq<u8>, i: int) -> int
    decreases s.len() - i,
{
    if 0 <= i < s.len() && word_byte(s[i]) {
        word_end(s, i + 1)
    } else {
        i
    }
}

/// The end of the `#` bytes from `i`.
pub open spec fn hash_end(s: Seq<u8>, i: int) -> int
    decreases s.len() - i,
{
    if 0 <= i < s.len() && s[i] == 35 {
        hash_end(s, i + 1)
    } else {
        i
    }
}

/// The first newline at or after `i`, or the end of `s`.
pub open spec fn line_end(s: Seq<u8>, i: int) -> int
    decreases s.len() - i,
{
    if 0 <= i < s.len() && s[i] != 10 {
        line_end(s, i + 1)
    } else {
        i
    }
}

/// The word `s[i..j]` opens a raw string when a quote follows: `r`, `br`
/// or `cr`.
pub open spec fn raw_prefix(s: Seq<u8>, i: int, j: int) -> bool {
    ||| j == i + 1 && s[i] == 114
    ||| j == i + 2 && (s[i] == 98 || s[i] == 99) && s[i + 1] == 114
}

/// The word `s[i..j]` is one of `else`, `as`, `in`, `if`, `where`, `for`,
/// `mut`, `dyn`, `move`.
pub open spec fn continuing_word(s: Seq<u8>, i: int, j: int) -> bool {
    ||| j == i + 2 && ((s[i] == 97 && s[i + 1] == 115) || (s[i] == 105 && (s[i + 1] == 110
        || s[i + 1] == 102)))
    ||| j == i + 3 && ((s[i] == 102 && s[i + 1] == 111 && s[i + 2] == 114) || (s[i] == 109
        && s[i + 1] == 117 && s[i + 2] == 116) || (s[i] == 100 && s[i + 1] == 121 && s[i + 2]
        == 110))
    ||| j == i + 4 && ((s[i] == 101 && s[i + 1] == 108 && s[i + 2] == 115 && s[i + 3] == 101)
        || (s[i] == 109 && s[i + 1] == 111 && s[i + 2] == 118 && s[i + 3] == 101))
    ||| j == i + 5 && s[i] == 119 && s[i + 1] == 104 && s[i + 2] == 101 && s[i + 3] == 114
        && s[i + 4] == 101
}

/// The length of the UTF-8 sequence that byte `b` leads.
pub open spec fn utf8_width(b: u8) -> int {
    if b < 128 {
        1
    } else if b >= 240 {
        4
    } else if b >= 224 {
        3
    } else if b >= 192 {
        2
    } else {
        1
    }
}

/// The `'` at `i` starts a character literal of one character.
pub open spec fn char_closes(s: Seq<u8>, i: int) -> bool {
    i + 1 < s.len() && i + 1 + utf8_width(s[i + 1]) < s.len() && s[i + 1 + utf8_width(s[i + 1])]
        == 39
}

/// The quote at `i` closes a raw string with `h` hashes.
pub open spec fn raw_closes(s: Seq<u8>, i: int, h: int) -> bool {
    i + 1 + h <= s.len() && forall|k: int| i + 1 <= k < i + 1 + h ==> s[k] == 35
}

/// The weight of the punctuation byte at `i`: the more stack a parser can
/// spend on what the byte may begin, the heavier. `&` and `*` (which also
/// begin reference and pointer types) weigh 4, as does the `>` of `->`;
/// `!` and the operators `+ - / % ^ = @` and `>` weigh 2; `.` and `?`
/// weigh 1; the `=` and `>` of `=>` and any other byte weigh nothing.
pub open spec fn punct_weight(s: Seq<u8>, i: int) -> int {
    let b = s[i];
    if b == 38 || b == 42 {
        4
    } else if b == 62 {
        if i > 0 && s[i - 1] == 45 {
            4
        } else if i > 0 && s[i - 1] == 61 {
            0
        } else {
            2
        }
    } else if b == 61 {
        if i + 1 < s.len() && s[i + 1] == 62 {
            0
        } else {
            2
        }
    } else if b == 33 || b == 43 || b == 45 || b == 47 || b == 37 || b == 94 || b == 64 {
        2
    } else if b == 46 || b == 63 {
        1
    } else {
        0
    }
}

/// One step inside a comment or a literal.
pub open spec fn skip_step(s: Seq<u8>, i: int, st: Scan) -> (int, Scan) {
    let b = s[i];
    match st.mode {
        LexMode::LineComment => (i + 1, if b == 10 {
            in_mode(st, LexMode::Code)
        } else {
            st
        }),
        LexMode::BlockComment => if b == 47 && i + 1 < s.len() && s[i + 1] == 42 {
            (i + 2, Scan { nest: (st.nest + 1) as usize, ..st })
        } else if b == 42 && i + 1 < s.len() && s[i + 1] == 47 {
            (i + 2, if st.nest <= 1 {
                Scan { mode: LexMode::Code, nest: 0, ..st }
            } else {
                Scan { nest: (st.nest - 1) as usize, ..st }
            })
        } else {
            (i + 1, st)
        },
        LexMode::Str => if b == 92 && i + 1 < s.len() {
            (i + 2, st)
        } else if b == 34 {
            (i + 1, in_mode(st, LexMode::Code))
        } else {
            (i + 1, st)
        },
        LexMode::CharLit => if b == 92 && i + 1 < s.len() {
            (i + 2, st)
        } else if b == 39 {
            (i + 1, in_mode(st, LexMode::Code))
        } else {
            (i + 1, st)
        },
        LexMode::RawStr => if b == 34 && raw_closes(s, i, st.hashes as int) {
            (i + 1 + st.hashes, in_mode(st, LexMode::Code))
        } else {
            (i + 1, st)
        },
        LexMode::Code => (i + 1, st),
    }
}

/// One step at a word: a raw string's opening, or a weighed word.
pub open spec fn word_step(s: Seq<u8>, i: int, st: Scan) -> (int, Scan) {
    let j = word_end(s, i);
    let q = hash_end(s, j);
    let l = st.cur;
    if raw_prefix(s, i, j) && q < s.len() && s[q] == 34 {
        (q + 1, Scan { mode: LexMode::RawStr, hashes: (q - j) as usize, cur: counted(l), ..st })
    } else if l.after_brace && !continuing_word(s, i, j) {
        (j, with_cur(st, counted(cleared(l))))
    } else {
        (j, with_cur(st, counted(l)))
    }
}

/// One step in code, with the enclosing levels.
pub open spec fn code_step(s: Seq<u8>, i: int, st: Scan, stack: Seq<Level>) -> (
    int,
    Scan,
    Seq<Level>,
) {
    let b = s[i];
    let l = st.cur;
    if b == 32 || (9 <= b && b <= 13) {
        (i + 1, st, stack)
    } else if b == 47 && i + 1 < s.len() && s[i + 1] == 47 {
        (i + 2, in_mode(st, LexMode::LineComment), stack)
    } else if b == 47 && i + 1 < s.len() && s[i + 1] == 42 {
        (i + 2, Scan { mode: LexMode::BlockComment, nest: 1, ..st }, stack)
    } else if b == 34 {
        (i + 1, Scan { mode: LexMode::Str, cur: counted(l), ..st }, stack)
    } else if b == 39 {
        if i + 1 < s.len() && s[i + 1] == 92 {
            (i + 1, Scan { mode: LexMode::CharLit, cur: counted(l), ..st }, stack)
        } else if char_closes(s, i) {
            (i + 2 + utf8_width(s[i + 1]), with_cur(st, counted(l)), stack)
        } else {
            (i + 1, with_cur(st, quiet(l)), stack)
        }
    } else if word_byte(b) {
        let (j, st2) = word_step(s, i, st);
        (j, st2, stack)
    } else if b == 40 || b == 91 || b == 123 {
        let parent = counted(l);
        (
            i + 1,
            with_cur(
                st,
                Level { base: (weight(parent) + 3) as usize, sticky: 0, loose: 0, after_brace: false },
            ),
            stack.push(parent),
        )
    } else if b == 41 || b == 93 || b == 125 {
        if stack.len() == 0 {
            (i + 1, with_cur(st, quiet(l)), stack)
        } else {
            (i + 1, with_cur(st, Level { after_brace: b == 125, ..stack.last() }), stack.drop_last())
        }
    } else if b == 59 {
        (i + 1, with_cur(st, cleared(l)), stack)
    } else if b == 44 {
        (i + 1, with_cur(st, Level { loose: 0, after_brace: false, ..l }), stack)
    } else if b == 35 {
        (i + 1, with_cur(st, if l.after_brace { cleared(l) } else { l }), stack)
    } else if b == 60 {
        (i + 1, with_cur(st, Level { sticky: (l.sticky + 5) as usize, after_brace: false, ..l }), stack)
    } else if b == 124 {
        (i + 1, with_cur(st, Level { sticky: (l.sticky + 2) as usize, after_brace: false, ..l }), stack)
    } else {
        (i + 1, with_cur(st, weighed(l, punct_weight(s, i))), stack)
    }
}

/// One step of the scan.
pub open spec fn scan_step(s: Seq<u8>, i: int, st: Scan, stack: Seq<Level>) -> (
    int,
    Scan,
    Seq<Level>,
) {
    if st.mode == LexMode::Code {
        code_step(s, i, st, stack)
    } else {
        let (j, st2) = skip_step(s, i, st);
        (j, st2, stack)
    }
}

/// From position `i` on, the weight never exceeds `NESTING_LIMIT`.
pub open spec fn scan_ok_from(s: Seq<u8>, i: int, st: Scan, stack: Seq<Level>) -> bool
    decreases s.len() - i,
{
    if i < 0 || i >= s.len() {
        true
    } else {
        let (j, st2, stack2) = scan_step(s, i, st, stack);
        if j <= i || j > s.len() {
            false
        } else {
            weight(st2.cur) <= NESTING_LIMIT && scan_ok_from(s, j, st2, stack2)
        }
    }
}

/// Where the parser's text begins: after a byte-order mark, and after a
/// first line `#!/...` (a script's interpreter line, which the parser sets
/// aside). `None` for other text that starts with `#!` but not `#![`, which
/// is not measured.
pub open spec fn scan_start(s: Seq<u8>) -> Option<int> {
    let k = if s.len() >= 3 && s[0] == 239 && s[1] == 187 && s[2] == 191 {
        3int
    } else {
        0int
    };
    if k + 1 < s.len() && s[k] == 35 && s[k + 1] == 33 && !(k + 2 < s.len() && s[k + 2] == 91) {
        if k + 3 < s.len() && s[k + 2] == 47 && s[k + 3] != 47 && s[k + 3] != 42 {
            Some(line_end(s, k))
        } else {
            None
        }
    } else {
        Some(k)
    }
}

pub open spec fn initial_scan() -> Scan {
    Scan {
        mode: LexMode::Code,
        nest: 0,
        hashes: 0,
        cur: Level { base: 0, sticky: 0, loose: 0, after_brace: false },
    }
}

/// Whether the source text `s` stays within `NESTING_LIMIT` throughout.
pub open spec fn nesting_within(s: Seq<u8>) -> bool {
    match scan_start(s) {
        Some(k) => scan_ok_from(s, k, initial_scan(), seq![]),
        None => false,
    }
}

proof fn lemma_word_end_bounds(s: Seq<u8>, i: int)
    requires
        0 <= i <= s.len(),
    ensures
        i <= word_end(s, i) <= s.len(),
    decreases s.len() - i,
{
    if i < s.len() && word_byte(s[i]) {
        lemma_word_end_bounds(s, i + 1);
    }
}

fn word_byte_exec(b: u8) -> (r: bool)
    ensures
        r == word_byte(b),
{
    (48 <= b && b <= 57) || (65 <= b && b <= 90) || (97 <= b && b <= 122) || b == 95
}

fn word_end_exec(s: &[u8], i: usize) -> (j: usize)
    requires
        i <= s.len(),
    ensures
        j == word_end(s@, i as int),
        i <= j <= s.len(),
{
    let mut j = i;
    while j < s.len() && word_byte_exec(s[j])
        invariant
            i <= j <= s.len(),
            word_end(s@, j as int) == word_end(s@, i as int),
        decreases s.len() - j,
    {
        j = j + 1;
    }
    j
}

fn hash_end_exec(s: &[u8], i: usize) -> (j: usize)
    requires
        i <= s.len(),
    ensures
        j == hash_end(s@, i as int),
        i <= j <= s.len(),
{
    let mut j = i;
    while j < s.len() && s[j] == 35
        invariant
            i <= j <= s.len(),
            hash_end(s@, j as int) == hash_end(s@, i as int),
        decreases s.len() - j,
    {
        j = j + 1;
    }
    j
}

fn line_end_exec(s: &[u8], i: usize) -> (j: usize)
    requires
        i <= s.len(),
    ensures
        j == line_end(s@, i as int),
        i <= j <= s.len(),
{
    let mut j = i;
    while j < s.len() && s[j] != 10
        invariant
            i <= j <= s.len(),
            line_end(s@, j as int) == line_end(s@, i as int),
        decreases s.len() - j,
    {
        j = j + 1;
    }
    j
}

fn raw_closes_exec(s: &[u8], i: usize, h: usize) -> (r: bool)
    requires
        i < s.len(),
    ensures
        r == raw_closes(s@, i as int, h as int),
{
    if h > s.len() - (i + 1) {
        return false;
    }
    let mut k: usize = 0;
    while k < h
        invariant
            k <= h,
            i < s.len(),
            i + 1 + h <= s.len(),
            forall|m: int| i + 1 <= m < i + 1 + k ==> s@[m] == 35,
        decreases h - k,
    {
        if s[i + 1 + k] != 35 {
            assert(s@[i + 1 + k] != 35);
            return false;
        }
        k = k + 1;
    }
    true
}

fn utf8_width_exec(b: u8) -> (r: usize)
    ensures
        r == utf8_width(b),
{
    if b < 128 {
        1
    } else if b >= 240 {
        4
    } else if b >= 224 {
        3
    } else if b >= 192 {
        2
    } else {
        1
    }
}

fn punct_weight_exec(s: &[u8], i: usize) -> (r: usize)
    requires
        i < s.len(),
    ensures
        r == punct_weight(s@, i as int),
        r <= 4,
{
    let b = s[i];
    if b == 38 || b == 42 {
        4
    } else if b == 62 {
        if i > 0 && s[i - 1] == 45 {
            4
        } else if i > 0 && s[i - 1] == 61 {
            0
        } else {
            2
        }
    } else if b == 61 {
        if i + 1 < s.len() && s[i + 1] == 62 {
            0
        } else {
            2
        }
    } else if b == 33 || b == 43 || b == 45 || b == 47 || b == 37 || b == 94 || b == 64 {
        2
    } else if b == 46 || b == 63 {
        1
    } else {
        0
    }
}

fn continuing_word_exec(s: &[u8], i: usize, j: usize) -> (r: bool)
    requires
        i < j <= s.len(),
    ensures
        r == continuing_word(s@, i as int, j as int),
{
    let n = j - i;
    if n == 2 {
        (s[i] == 97 && s[i + 1] == 115) || (s[i] == 105 && (s[i + 1] == 110 || s[i + 1] == 102))
    } else if n == 3 {
        (s[i] == 102 && s[i + 1] == 111 && s[i + 2] == 114) || (s[i] == 109 && s[i + 1] == 117
            && s[i + 2] == 116) || (s[i] == 100 && s[i + 1] == 121 && s[i + 2] == 110)
    } else if n == 4 {
        (s[i] == 101 && s[i + 1] == 108 && s[i + 2] == 115 && s[i + 3] == 101) || (s[i] == 109
            && s[i + 1] == 111 && s[i + 2] == 118 && s[i + 3] == 101)
    } else if n == 5 {
        s[i] == 119 && s[i + 1] == 104 && s[i + 2] == 101 && s[i + 3] == 114 && s[i + 4] == 101
    } else {
        false
    }
}

fn weighed_exec(l: Level, w: usize) -> (r: Level)
    requires
        l.loose + w <= usize::MAX,
    ensures
        r == weighed(l, w as int),
{
    Level { loose: l.loose + w, after_brace: false, ..l }
}

fn counted_exec(l: Level) -> (r: Level)
    requires
        l.loose < usize::MAX,
    ensures
        r == counted(l),
{
    weighed_exec(l, 1)
}

fn cleared_exec(l: Level) -> (r: Level)
    ensures
        r == cleared(l),
{
    Level { sticky: 0, loose: 0, after_brace: false, ..l }
}

fn quiet_exec(l: Level) -> (r: Level)
    ensures
        r == quiet(l),
{
    Level { after_brace: false, ..l }
}

fn weight_exec(l: Level) -> (r: usize)
    requires
        weight(l) <= NESTING_LIMIT + 8,
    ensures
        r == weight(l),
{
    l.base + l.sticky + l.loose
}

fn skip_step_exec(s: &[u8], i: usize, st: Scan) -> (r: (usize, Scan))
    requires
        i < s.len(),
        st.mode != LexMode::Code,
        st.nest <= i,
    ensures
        (r.0 as int, r.1) == skip_step(s@, i as int, st),
        i < r.0 <= s.len(),
        r.1.cur == st.cur,
        r.1.nest <= r.0,
        r.1.hashes == st.hashes,
{
    let b = s[i];
    match st.mode {
        LexMode::LineComment => {
            if b == 10 {
                (i + 1, Scan { mode: LexMode::Code, ..st })
            } else {
                (i + 1, st)
            }
        },
        LexMode::BlockComment => {
            if b == 47 && i + 1 < s.len() && s[i + 1] == 42 {
                (i + 2, Scan { nest: st.nest + 1, ..st })
            } else if b == 42 && i + 1 < s.len() && s[i + 1] == 47 {
                if st.nest <= 1 {
                    (i + 2, Scan { mode: LexMode::Code, nest: 0, ..st })
                } else {
                    (i + 2, Scan { nest: st.nest - 1, ..st })
                }
            } else {
                (i + 1, st)
            }
        },
        LexMode::Str => {
            if b == 92 && i + 1 < s.len() {
                (i + 2, st)
            } else if b == 34 {
                (i + 1, Scan { mode: LexMode::Code, ..st })
            } else {
                (i + 1, st)
            }
        },
        LexMode::CharLit => {
            if b == 92 && i + 1 < s.len() {
                (i + 2, st)
            } else if b == 39 {
                (i + 1, Scan { mode: LexMode::Code, ..st })
            } else {
                (i + 1, st)
            }
        },
        LexMode::RawStr => {
            if b == 34 && raw_closes_exec(s, i, st.hashes) {
                (i + 1 + st.hashes, Scan { mode: LexMode::Code, ..st })
            } else {
                (i + 1, st)
            }
        },
        LexMode::Code => (i + 1, st),
    }
}

fn word_step_exec(s: &[u8], i: usize, st: Scan) -> (r: (usize, Scan))
    requires
        i < s.len(),
        word_byte(s@[i as int]),
        weight(st.cur) <= NESTING_LIMIT,
        st.nest <= i,
        st.hashes <= i,
    ensures
        (r.0 as int, r.1) == word_step(s@, i as int, st),
        i < r.0 <= s.len(),
        weight(r.1.cur) <= NESTING_LIMIT + 1,
        r.1.nest <= r.0,
        r.1.hashes <= r.0,
{
    let j = word_end_exec(s, i);
    proof {
        lemma_word_end_bounds(s@, i + 1);
    }
    let q = hash_end_exec(s, j);
    let l = st.cur;
    let raw = (j - i == 1 && s[i] == 114) || (j - i == 2 && (s[i] == 98 || s[i] == 99) && s[i + 1]
        == 114);
    if raw && q < s.len() && s[q] == 34 {
        (q + 1, Scan { mode: LexMode::RawStr, hashes: q - j, cur: counted_exec(l), ..st })
    } else if l.after_brace && !continuing_word_exec(s, i, j) {
        (j, Scan { cur: counted_exec(cleared_exec(l)), ..st })
    } else {
        (j, Scan { cur: counted_exec(l), ..st })
    }
}

fn code_step_exec(s: &[u8], i: usize, st: Scan, stack: &mut Vec<Level>) -> (r: (usize, Scan))
    requires
        i < s.len(),
        st.mode == LexMode::Code,
        weight(st.cur) <= NESTING_LIMIT,
        forall|m: int| 0 <= m < old(stack)@.len() ==> weight(#[trigger] old(stack)@[m]) <= NESTING_LIMIT + 1,
        st.nest <= i,
        st.hashes <= i,
    ensures
        (r.0 as int, r.1, final(stack)@) == code_step(s@, i as int, st, old(stack)@),
        i < r.0 <= s.len(),
        weight(r.1.cur) <= NESTING_LIMIT + 8,
        forall|m: int| 0 <= m < final(stack)@.len() ==> weight(#[trigger] final(stack)@[m]) <= NESTING_LIMIT + 1,
        r.1.nest <= r.0,
        r.1.hashes <= r.0,
{
    let b = s[i];
    let l = st.cur;
    if b == 32 || (9 <= b && b <= 13) {
        (i + 1, st)
    } else if b == 47 && i + 1 < s.len() && s[i + 1] == 47 {
        (i + 2, Scan { mode: LexMode::LineComment, ..st })
    } else if b == 47 && i + 1 < s.len() && s[i + 1] == 42 {
        (i + 2, Scan { mode: LexMode::BlockComment, nest: 1, ..st })
    } else if b == 34 {
        (i + 1, Scan { mode: LexMode::Str, cur: counted_exec(l), ..st })
    } else if b == 39 {
        if i + 1 < s.len() && s[i + 1] == 92 {
            (i + 1, Scan { mode: LexMode::CharLit, cur: counted_exec(l), ..st })
        } else {
            let closes = if i + 1 < s.len() {
                let w = utf8_width_exec(s[i + 1]);
                w < s.len() - (i + 1) && s[i + 1 + w] == 39
            } else {
                false
            };
            if closes {
                let w = utf8_width_exec(s[i + 1]);
                (i + 2 + w, Scan { cur: counted_exec(l), ..st })
            } else {
                (i + 1, Scan { cur: quiet_exec(l), ..st })
            }
        }
    } else if word_byte_exec(b) {
        word_step_exec(s, i, st)
    } else if b == 40 || b == 91 || b == 123 {
        let parent = counted_exec(l);
        let base = weight_exec(parent) + 3;
        stack.push(parent);
        (i + 1, Scan { cur: Level { base, sticky: 0, loose: 0, after_brace: false }, ..st })
    } else if b == 41 || b == 93 || b == 125 {
        if stack.len() == 0 {
            (i + 1, Scan { cur: quiet_exec(l), ..st })
        } else {
            let p = stack.pop().unwrap();
            (i + 1, Scan { cur: Level { after_brace: b == 125, ..p }, ..st })
        }
    } else if b == 59 {
        (i + 1, Scan { cur: cleared_exec(l), ..st })
    } else if b == 44 {
        (i + 1, Scan { cur: Level { loose: 0, after_brace: false, ..l }, ..st })
    } else if b == 35 {
        if l.after_brace {
            (i + 1, Scan { cur: cleared_exec(l), ..st })
        } else {
            (i + 1, st)
        }
    } else if b == 60 {
        (i + 1, Scan { cur: Level { sticky: l.sticky + 5, after_brace: false, ..l }, ..st })
    } else if b == 124 {
        (i + 1, Scan { cur: Level { sticky: l.sticky + 2, after_brace: false, ..l }, ..st })
    } else {
        let w = punct_weight_exec(s, i);
        (i + 1, Scan { cur: weighed_exec(l, w), ..st })
    }
}

fn scan_start_exec(s: &[u8]) -> (r: Option<usize>)
    ensures
        match r {
            Some(k) => scan_start(s@) == Some(k as int) && k <= s.len(),
            None => scan_start(s@) is None,
        },
{
    let k: usize = if s.len() >= 3 && s[0] == 239 && s[1] == 187 && s[2] == 191 {
        3
    } else {
        0
    };
    if k + 1 < s.len() && s[k] == 35 && s[k + 1] == 33 && !(k + 2 < s.len() && s[k + 2] == 91) {
        if k + 3 < s.len() && s[k + 2] == 47 && s[k + 3] != 47 && s[k + 3] != 42 {
            Some(line_end_exec(s, k))
        } else {
            None
        }
    } else {
        Some(k)
    }
}

/// Whether the source text `s` (its UTF-8 bytes) stays within
/// `NESTING_LIMIT` throughout.
pub fn source_nesting_ok(s: &[u8]) -> (r: bool)
    ensures
        r == nesting_within(s@),
{
    let k = match scan_start_exec(s) {
        Some(k) => k,
        None => {
            return false;
        },
    };
    let mut st = Scan {
        mode: LexMode::Code,
        nest: 0,
        hashes: 0,
        cur: Level { base: 0, sticky: 0, loose: 0, after_brace: false },
    };
    let mut stack: Vec<Level> = Vec::new();
    let mut i = k;
    assert(stack@ =~= Seq::<Level>::empty());
    assert(st == initial_scan());
    while i < s.len()
        invariant
            k <= i <= s.len(),
            nesting_within(s@) == scan_ok_from(s@, i as int, st, stack@),
            weight(st.cur) <= NESTING_LIMIT,
            forall|m: int| 0 <= m < stack@.len() ==> weight(#[trigger] stack@[m]) <= NESTING_LIMIT + 1,
            st.nest <= i,
            st.hashes <= i,
        decreases s.len() - i,
    {
        let (j, st2) = match st.mode {
            LexMode::Code => code_step_exec(s, i, st, &mut stack),
            _ => skip_step_exec(s, i, st),
        };
        if weight_exec(st2.cur) > NESTING_LIMIT {
            return false;
        }
        i = j;
        st = st2;
    }
    true
}

} // verus!
