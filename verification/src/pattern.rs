//! The PHP fragments the indexers look for (`->name('...')`, `$fillable = [...]`,
//! `class Foo`, ...) are written down as short step programs. A program is
//! matched at one position by `run`; the scan over a whole text takes the
//! leftmost match, records its capture and goes on after it, as the `regex`
//! crate's `captures_iter` does.
use vstd::prelude::*;
use crate::text::{
    at_str, has_at, is_whitespace, is_ws, lemma_skip_ws_bounds, skip_whitespace, skip_ws, string_of,
    to_chars, word_char, is_word_char,
};

verus! {

/// One element of a pattern.
pub enum Step {
    /// `(?m)^`: the position is the start of the text or follows a `'\n'`.
    LineStart,
    /// The given text, literally.
    Lit(&'static str),
    /// `\s*`
    Ws,
    /// `\s+`
    Ws1,
    /// `['"]`
    Quote,
    /// `([^'"]+)['"]`: captures the text up to the next quote, then consumes it.
    QuotedText,
    /// `\w+`
    Word,
    /// `(\w+)`
    WordCap,
    /// `([\w\\]+)`
    PathCap,
    /// `(\w+Controller)`: the longest word prefix that ends in `Controller`.
    ControllerCap,
    /// `(?:abstract\s+|final\s+)?`
    Modifier,
    /// One character out of the given set.
    OneOf(&'static str),
    /// `([^\]]*)\]`: captures the text up to the next `]`, then consumes it.
    BracketBody,
}

pub open spec fn is_quote(c: char) -> bool {
    c == '\'' || c == '"'
}

/// First position at or after `i` holding a quote, or the end of `s`.
pub open spec fn next_quote(s: Seq<char>, i: int) -> int
    decreases s.len() - i,
{
    if i < 0 || i >= s.len() {
        s.len() as int
    } else if is_quote(s[i]) {
        i
    } else {
        next_quote(s, i + 1)
    }
}

/// First position at or after `i` holding `]`, or the end of `s`.
pub open spec fn next_close(s: Seq<char>, i: int) -> int
    decreases s.len() - i,
{
    if i < 0 || i >= s.len() {
        s.len() as int
    } else if s[i] == ']' {
        i
    } else {
        next_close(s, i + 1)
    }
}

/// End of the run of word characters that starts at `i`.
pub open spec fn word_end(w: Seq<bool>, i: int) -> int
    decreases w.len() - i,
{
    if 0 <= i < w.len() && w[i] {
        word_end(w, i + 1)
    } else {
        i
    }
}

/// End of the run of word characters and backslashes that starts at `i`.
pub open spec fn path_end(s: Seq<char>, w: Seq<bool>, i: int) -> int
    decreases s.len() - i,
{
    if 0 <= i < s.len() && i < w.len() && (w[i] || s[i] == '\\') {
        path_end(s, w, i + 1)
    } else {
        i
    }
}

/// The greatest `k` with `a < k <= b` at which `Controller` occurs, or `a`.
pub open spec fn controller_split(s: Seq<char>, a: int, b: int) -> int
    decreases b - a,
{
    if b <= a {
        a
    } else if has_at(s, b, "Controller"@) {
        b
    } else {
        controller_split(s, a, b - 1)
    }
}

/// `(?:abstract\s+|final\s+)?` at `i`: where it continues.
pub open spec fn after_modifier(s: Seq<char>, i: int) -> int {
    let a = "abstract"@;
    let f = "final"@;
    if has_at(s, i, a) && i + a.len() < s.len() && is_ws(s[i + a.len()]) {
        skip_ws(s, i + a.len())
    } else if has_at(s, i, f) && i + f.len() < s.len() && is_ws(s[i + f.len()]) {
        skip_ws(s, i + f.len())
    } else {
        i
    }
}

/// One step at position `i` of `s` (with word flags `w`): where matching
/// continues and what the step captures, or `None` when it does not match.
pub open spec fn step_at(st: Step, s: Seq<char>, w: Seq<bool>, i: int) -> Option<
    (int, Option<(int, int)>),
> {
    match st {
        Step::LineStart => if i == 0 || (0 < i <= s.len() && s[i - 1] == '\n') {
            Some((i, None))
        } else {
            None
        },
        Step::Lit(l) => if has_at(s, i, l@) {
            Some((i + l@.len(), None))
        } else {
            None
        },
        Step::Ws => Some((skip_ws(s, i), None)),
        Step::Ws1 => if 0 <= i < s.len() && is_ws(s[i]) {
            Some((skip_ws(s, i), None))
        } else {
            None
        },
        Step::Quote => if 0 <= i < s.len() && is_quote(s[i]) {
            Some((i + 1, None))
        } else {
            None
        },
        Step::QuotedText => {
            let e = next_quote(s, i);
            if i < e < s.len() {
                Some((e + 1, Some((i, e))))
            } else {
                None
            }
        },
        Step::Word => {
            let e = word_end(w, i);
            if i < e {
                Some((e, None))
            } else {
                None
            }
        },
        Step::WordCap => {
            let e = word_end(w, i);
            if i < e {
                Some((e, Some((i, e))))
            } else {
                None
            }
        },
        Step::PathCap => {
            let e = path_end(s, w, i);
            if i < e {
                Some((e, Some((i, e))))
            } else {
                None
            }
        },
        Step::ControllerCap => {
            let k = controller_split(s, i, word_end(w, i));
            let e = k + "Controller"@.len();
            if i < k {
                Some((e, Some((i, e))))
            } else {
                None
            }
        },
        Step::Modifier => Some((after_modifier(s, i), None)),
        Step::OneOf(set) => if 0 <= i < s.len() && set@.contains(s[i]) {
            Some((i + 1, None))
        } else {
            None
        },
        Step::BracketBody => {
            let e = next_close(s, i);
            if 0 <= i && e < s.len() {
                Some((e + 1, Some((i, e))))
            } else {
                None
            }
        },
    }
}

/// The steps in order from position `i`, carrying the latest capture: where
/// the match ends and what it captured, or `None`.
pub open spec fn run(steps: Seq<Step>, s: Seq<char>, w: Seq<bool>, i: int, cap: Option<(int, int)>) -> Option<
    (int, Option<(int, int)>),
>
    decreases steps.len(),
{
    if steps.len() == 0 {
        Some((i, cap))
    } else {
        match step_at(steps[0], s, w, i) {
            None => None,
            Some((j, c)) => run(
                steps.drop_first(),
                s,
                w,
                j,
                if c is Some {
                    c
                } else {
                    cap
                },
            ),
        }
    }
}

/// The captures of all leftmost, non-overlapping matches found from `i` on:
/// at each position the program is tried; a match with a capture is recorded
/// and the search resumes where it ended, otherwise at the next position.
pub open spec fn matches_from(steps: Seq<Step>, s: Seq<char>, w: Seq<bool>, i: int) -> Seq<(int, int)>
    decreases s.len() - i,
{
    if i < 0 || i >= s.len() {
        Seq::empty()
    } else {
        match run(steps, s, w, i, None) {
            Some((e, Some(c))) => if i < e <= s.len() {
                seq![c] + matches_from(steps, s, w, e)
            } else {
                matches_from(steps, s, w, i + 1)
            },
            _ => matches_from(steps, s, w, i + 1),
        }
    }
}

/// The texts of the given spans of `s`.
pub open spec fn spans_text(s: Seq<char>, m: Seq<(int, int)>) -> Seq<Seq<char>> {
    m.map_values(|p: (int, int)| s.subrange(p.0, p.1))
}

/// The captured texts of every match of `steps` in `s`, in order.
pub open spec fn all_captures(steps: Seq<Step>, s: Seq<char>, w: Seq<bool>) -> Seq<Seq<char>> {
    spans_text(s, matches_from(steps, s, w, 0))
}

/// The captured text of the first match of `steps` in `s`.
pub open spec fn first_capture(steps: Seq<Step>, s: Seq<char>, w: Seq<bool>) -> Option<Seq<char>> {
    let m = matches_from(steps, s, w, 0);
    if m.len() == 0 {
        None
    } else {
        Some(s.subrange(m[0].0, m[0].1))
    }
}

/// The word flags of `s`: which of its characters `\w` accepts.
pub open spec fn word_flags(s: Seq<char>) -> Seq<bool> {
    Seq::new(s.len(), |i: int| word_char(s[i]))
}

pub open spec fn lift_step(r: Option<(usize, Option<(usize, usize)>)>) -> Option<(int, Option<(int, int)>)> {
    match r {
        None => None,
        Some((j, c)) => Some(
            (
                j as int,
                match c {
                    None => None,
                    Some((a, b)) => Some((a as int, b as int)),
                },
            ),
        ),
    }
}

pub open spec fn lift_cap(c: Option<(usize, usize)>) -> Option<(int, int)> {
    match c {
        None => None,
        Some((a, b)) => Some((a as int, b as int)),
    }
}

pub open spec fn lift_spans(v: Seq<(usize, usize)>) -> Seq<(int, int)> {
    v.map_values(|p: (usize, usize)| (p.0 as int, p.1 as int))
}

pub open spec fn cap_in(c: Option<(int, int)>, lo: int, hi: int) -> bool {
    c matches Some((a, b)) ==> lo <= a <= b <= hi
}

// ----- bounds -----

pub proof fn lemma_next_quote(s: Seq<char>, i: int)
    requires
        0 <= i <= s.len(),
    ensures
        i <= next_quote(s, i) <= s.len(),
        next_quote(s, i) < s.len() ==> is_quote(s[next_quote(s, i)]),
        forall|k: int| i <= k < next_quote(s, i) ==> !is_quote(#[trigger] s[k]),
    decreases s.len() - i,
{
    if i < s.len() && !is_quote(s[i]) {
        lemma_next_quote(s, i + 1);
    }
}

pub proof fn lemma_next_close(s: Seq<char>, i: int)
    requires
        0 <= i <= s.len(),
    ensures
        i <= next_close(s, i) <= s.len(),
        next_close(s, i) < s.len() ==> s[next_close(s, i)] == ']',
        forall|k: int| i <= k < next_close(s, i) ==> #[trigger] s[k] != ']',
    decreases s.len() - i,
{
    if i < s.len() && s[i] != ']' {
        lemma_next_close(s, i + 1);
    }
}

pub proof fn lemma_word_end(w: Seq<bool>, i: int)
    requires
        0 <= i <= w.len(),
    ensures
        i <= word_end(w, i) <= w.len(),
        forall|k: int| i <= k < word_end(w, i) ==> #[trigger] w[k],
        word_end(w, i) < w.len() ==> !w[word_end(w, i)],
    decreases w.len() - i,
{
    if i < w.len() && w[i] {
        lemma_word_end(w, i + 1);
    }
}

pub proof fn lemma_path_end(s: Seq<char>, w: Seq<bool>, i: int)
    requires
        0 <= i <= s.len(),
        w.len() == s.len(),
    ensures
        i <= path_end(s, w, i) <= s.len(),
        forall|k: int| i <= k < path_end(s, w, i) ==> (#[trigger] w[k] || s[k] == '\\'),
        path_end(s, w, i) < s.len() ==> !(w[path_end(s, w, i)] || s[path_end(s, w, i)] == '\\'),
    decreases s.len() - i,
{
    if i < s.len() && (w[i] || s[i] == '\\') {
        lemma_path_end(s, w, i + 1);
    }
}

pub proof fn lemma_controller_split(s: Seq<char>, a: int, b: int)
    ensures
        controller_split(s, a, b) == a || (a < controller_split(s, a, b) <= b && has_at(
            s,
            controller_split(s, a, b),
            "Controller"@,
        )),
        forall|k: int| controller_split(s, a, b) < k <= b && a < k ==> !has_at(s, k, "Controller"@),
    decreases b - a,
{
    if b > a && !has_at(s, b, "Controller"@) {
        lemma_controller_split(s, a, b - 1);
    }
}

pub proof fn lemma_step_bounds(st: Step, s: Seq<char>, w: Seq<bool>, i: int)
    requires
        0 <= i <= s.len(),
        w.len() == s.len(),
    ensures
        step_at(st, s, w, i) matches Some((j, c)) ==> i <= j <= s.len() && cap_in(c, i, j),
{
    lemma_skip_ws_bounds(s, i);
    lemma_next_quote(s, i);
    lemma_next_close(s, i);
    lemma_word_end(w, i);
    lemma_path_end(s, w, i);
    match st {
        Step::ControllerCap => {
            lemma_controller_split(s, i, word_end(w, i));
        },
        Step::Modifier => {
            let a = "abstract"@;
            let f = "final"@;
            if has_at(s, i, a) && i + a.len() < s.len() {
                lemma_skip_ws_bounds(s, i + a.len());
            }
            if has_at(s, i, f) && i + f.len() < s.len() {
                lemma_skip_ws_bounds(s, i + f.len());
            }
        },
        _ => {},
    }
}

pub proof fn lemma_run_bounds(steps: Seq<Step>, s: Seq<char>, w: Seq<bool>, i: int, cap: Option<(int, int)>)
    requires
        0 <= i <= s.len(),
        w.len() == s.len(),
        cap_in(cap, 0, i),
    ensures
        run(steps, s, w, i, cap) matches Some((e, c)) ==> i <= e <= s.len() && cap_in(c, 0, e),
    decreases steps.len(),
{
    if steps.len() > 0 {
        lemma_step_bounds(steps[0], s, w, i);
        match step_at(steps[0], s, w, i) {
            None => {},
            Some((j, c)) => {
                let nc = if c is Some {
                    c
                } else {
                    cap
                };
                lemma_run_bounds(steps.drop_first(), s, w, j, nc);
            },
        }
    }
}

pub proof fn lemma_matches_bounds(steps: Seq<Step>, s: Seq<char>, w: Seq<bool>, i: int)
    requires
        0 <= i,
        w.len() == s.len(),
    ensures
        forall|k: int|
            0 <= k < matches_from(steps, s, w, i).len() ==> 0 <= (
            #[trigger] matches_from(steps, s, w, i)[k]).0 <= matches_from(steps, s, w, i)[k].1
                <= s.len(),
    decreases s.len() - i,
{
    if i < s.len() {
        lemma_run_bounds(steps, s, w, i, None);
        match run(steps, s, w, i, None) {
            Some((e, Some(c))) => {
                if i < e <= s.len() {
                    lemma_matches_bounds(steps, s, w, e);
                    let rest = matches_from(steps, s, w, e);
                    assert(matches_from(steps, s, w, i) == seq![c] + rest);
                    assert forall|k: int|
                        0 <= k < matches_from(steps, s, w, i).len() implies 0 <= (
                        #[trigger] matches_from(steps, s, w, i)[k]).0 <= matches_from(
                        steps,
                        s,
                        w,
                        i,
                    )[k].1 <= s.len() by {
                        if k > 0 {
                            assert(matches_from(steps, s, w, i)[k] == rest[k - 1]);
                        }
                    }
                } else {
                    lemma_matches_bounds(steps, s, w, i + 1);
                    assert(matches_from(steps, s, w, i) == matches_from(steps, s, w, i + 1));
                }
            },
            _ => {
                lemma_matches_bounds(steps, s, w, i + 1);
                assert(matches_from(steps, s, w, i) == matches_from(steps, s, w, i + 1));
            },
        }
    }
}

// ----- executable matching -----

/// Whether `c` is one of the characters of `set`.
pub fn char_in(c: char, set: &str) -> (b: bool)
    ensures
        b == set@.contains(c),
{
    let v = to_chars(set);
    let mut k: usize = 0;
    while k < v.len()
        invariant
            k <= v@.len(),
            v@ == set@,
            forall|m: int| 0 <= m < k ==> v@[m] != c,
        decreases v@.len() - k,
    {
        if v[k] == c {
            assert(set@[k as int] == c);
            return true;
        }
        k = k + 1;
    }
    false
}

fn next_quote_exec(s: &Vec<char>, i: usize) -> (r: usize)
    requires
        i <= s@.len(),
    ensures
        r == next_quote(s@, i as int),
{
    let mut j = i;
    while j < s.len() && !(s[j] == '\'' || s[j] == '"')
        invariant
            i <= j <= s@.len(),
            next_quote(s@, j as int) == next_quote(s@, i as int),
        decreases s@.len() - j,
    {
        j = j + 1;
    }
    j
}

fn next_close_exec(s: &Vec<char>, i: usize) -> (r: usize)
    requires
        i <= s@.len(),
    ensures
        r == next_close(s@, i as int),
{
    let mut j = i;
    while j < s.len() && s[j] != ']'
        invariant
            i <= j <= s@.len(),
            next_close(s@, j as int) == next_close(s@, i as int),
        decreases s@.len() - j,
    {
        j = j + 1;
    }
    j
}

fn word_end_exec(w: &Vec<bool>, i: usize) -> (r: usize)
    requires
        i <= w@.len(),
    ensures
        r == word_end(w@, i as int),
{
    let mut j = i;
    while j < w.len() && w[j]
        invariant
            i <= j <= w@.len(),
            word_end(w@, j as int) == word_end(w@, i as int),
        decreases w@.len() - j,
    {
        j = j + 1;
    }
    j
}

fn path_end_exec(s: &Vec<char>, w: &Vec<bool>, i: usize) -> (r: usize)
    requires
        i <= s@.len(),
        w@.len() == s@.len(),
    ensures
        r == path_end(s@, w@, i as int),
{
    let mut j = i;
    while j < s.len() && (w[j] || s[j] == '\\')
        invariant
            i <= j <= s@.len(),
            w@.len() == s@.len(),
            path_end(s@, w@, j as int) == path_end(s@, w@, i as int),
        decreases s@.len() - j,
    {
        j = j + 1;
    }
    j
}

fn controller_split_exec(s: &Vec<char>, a: usize, b: usize) -> (r: usize)
    ensures
        r == controller_split(s@, a as int, b as int),
{
    let mut k = b;
    while k > a && !at_str(s, k, "Controller")
        invariant
            controller_split(s@, a as int, k as int) == controller_split(s@, a as int, b as int),
        decreases k,
    {
        k = k - 1;
    }
    if k <= a {
        a
    } else {
        k
    }
}

fn after_modifier_exec(s: &Vec<char>, i: usize) -> (r: usize)
    requires
        i <= s@.len(),
    ensures
        r == after_modifier(s@, i as int),
{
    let la = "abstract".unicode_len();
    let lf = "final".unicode_len();
    if at_str(s, i, "abstract") && la < s.len() - i && is_whitespace(s[i + la]) {
        skip_whitespace(s, i + la)
    } else if at_str(s, i, "final") && lf < s.len() - i && is_whitespace(s[i + lf]) {
        skip_whitespace(s, i + lf)
    } else {
        i
    }
}

/// One step at position `i`.
pub fn step_exec(st: &Step, s: &Vec<char>, w: &Vec<bool>, i: usize) -> (r: Option<
    (usize, Option<(usize, usize)>),
>)
    requires
        i <= s@.len(),
        w@.len() == s@.len(),
    ensures
        lift_step(r) == step_at(*st, s@, w@, i as int),
{
    let n = s.len();
    match st {
        Step::LineStart => {
            if i == 0 || s[i - 1] == '\n' {
                Some((i, None))
            } else {
                None
            }
        },
        Step::Lit(l) => {
            if at_str(s, i, l) {
                Some((i + l.unicode_len(), None))
            } else {
                None
            }
        },
        Step::Ws => Some((skip_whitespace(s, i), None)),
        Step::Ws1 => {
            if i < s.len() && is_whitespace(s[i]) {
                Some((skip_whitespace(s, i), None))
            } else {
                None
            }
        },
        Step::Quote => {
            if i < s.len() && (s[i] == '\'' || s[i] == '"') {
                Some((i + 1, None))
            } else {
                None
            }
        },
        Step::QuotedText => {
            let e = next_quote_exec(s, i);
            if i < e && e < s.len() {
                Some((e + 1, Some((i, e))))
            } else {
                None
            }
        },
        Step::Word => {
            let e = word_end_exec(w, i);
            if i < e {
                Some((e, None))
            } else {
                None
            }
        },
        Step::WordCap => {
            let e = word_end_exec(w, i);
            if i < e {
                Some((e, Some((i, e))))
            } else {
                None
            }
        },
        Step::PathCap => {
            let e = path_end_exec(s, w, i);
            if i < e {
                Some((e, Some((i, e))))
            } else {
                None
            }
        },
        Step::ControllerCap => {
            let b = word_end_exec(w, i);
            let k = controller_split_exec(s, i, b);
            proof {
                lemma_controller_split(s@, i as int, b as int);
            }
            if i < k {
                let e = k + "Controller".unicode_len();
                Some((e, Some((i, e))))
            } else {
                None
            }
        },
        Step::Modifier => Some((after_modifier_exec(s, i), None)),
        Step::OneOf(set) => {
            if i < s.len() && char_in(s[i], set) {
                Some((i + 1, None))
            } else {
                None
            }
        },
        Step::BracketBody => {
            let e = next_close_exec(s, i);
            if e < s.len() {
                Some((e + 1, Some((i, e))))
            } else {
                None
            }
        },
    }
}

/// The whole program at position `i`: where the match ends and its capture.
pub fn run_exec(steps: &Vec<Step>, s: &Vec<char>, w: &Vec<bool>, i: usize) -> (r: Option<
    (usize, Option<(usize, usize)>),
>)
    requires
        i <= s@.len(),
        w@.len() == s@.len(),
    ensures
        lift_step(r) == run(steps@, s@, w@, i as int, None),
{
    let mut pos = i;
    let mut cap: Option<(usize, usize)> = None;
    let mut k: usize = 0;
    assert(steps@.skip(0) =~= steps@);
    while k < steps.len()
        invariant
            k <= steps@.len(),
            pos <= s@.len(),
            w@.len() == s@.len(),
            run(steps@.skip(k as int), s@, w@, pos as int, lift_cap(cap))
                == run(steps@, s@, w@, i as int, None),
        decreases steps@.len() - k,
    {
        let ghost before = steps@.skip(k as int);
        assert(before[0] == steps@[k as int]);
        assert(before.drop_first() =~= steps@.skip(k + 1));
        proof {
            lemma_step_bounds(steps@[k as int], s@, w@, pos as int);
        }
        match step_exec(&steps[k], s, w, pos) {
            None => {
                return None;
            },
            Some((j, c)) => {
                pos = j;
                if c.is_some() {
                    cap = c;
                }
            },
        }
        k = k + 1;
    }
    assert(steps@.skip(k as int).len() == 0);
    Some((pos, cap))
}

/// Every leftmost, non-overlapping match of `steps` in `s`, as capture spans.
/// The word flags are an argument, so the scan can be run on any classification.
pub fn find_all(steps: &Vec<Step>, s: &Vec<char>, w: &Vec<bool>) -> (r: Vec<(usize, usize)>)
    requires
        w@.len() == s@.len(),
    ensures
        lift_spans(r@) == matches_from(steps@, s@, w@, 0),
{
    let mut out: Vec<(usize, usize)> = Vec::new();
    let mut i: usize = 0;
    while i < s.len()
        invariant
            i <= s@.len(),
            w@.len() == s@.len(),
            lift_spans(out@) + matches_from(steps@, s@, w@, i as int) == matches_from(
                steps@,
                s@,
                w@,
                0,
            ),
        decreases s@.len() - i,
    {
        proof {
            lemma_run_bounds(steps@, s@, w@, i as int, None);
        }
        match run_exec(steps, s, w, i) {
            Some((e, Some(c))) => {
                if i < e {
                    let ghost old_out = out@;
                    out.push(c);
                    assert(lift_spans(out@) =~= lift_spans(old_out).push((c.0 as int, c.1 as int)));
                    assert(lift_spans(out@) + matches_from(steps@, s@, w@, e as int) =~= lift_spans(
                        old_out,
                    ) + matches_from(steps@, s@, w@, i as int));
                    i = e;
                } else {
                    i = i + 1;
                }
            },
            _ => {
                i = i + 1;
            },
        }
    }
    assert(lift_spans(out@) + matches_from(steps@, s@, w@, i as int) =~= lift_spans(out@));
    out
}

/// The word flags of `s`.
pub fn word_flags_of(s: &Vec<char>) -> (w: Vec<bool>)
    ensures
        w@ == word_flags(s@),
{
    let mut w: Vec<bool> = Vec::new();
    let mut k: usize = 0;
    while k < s.len()
        invariant
            k <= s@.len(),
            w@ =~= word_flags(s@.take(k as int)),
        decreases s@.len() - k,
    {
        w.push(is_word_char(s[k]));
        k = k + 1;
    }
    assert(s@.take(s@.len() as int) =~= s@);
    w
}

/// The texts of the spans `m` of `s`.
pub fn texts_of(s: &Vec<char>, m: &Vec<(usize, usize)>) -> (r: Vec<String>)
    requires
        forall|k: int| 0 <= k < m@.len() ==> #[trigger] m@[k].0 <= m@[k].1 <= s@.len(),
    ensures
        r.deep_view() == spans_text(s@, lift_spans(m@)),
{
    let mut r: Vec<String> = Vec::new();
    let mut k: usize = 0;
    while k < m.len()
        invariant
            k <= m@.len(),
            forall|j: int| 0 <= j < m@.len() ==> #[trigger] m@[j].0 <= m@[j].1 <= s@.len(),
            r.deep_view() =~= spans_text(s@, lift_spans(m@.take(k as int))),
        decreases m@.len() - k,
    {
        let (a, b) = m[k];
        let t = string_of(s, a, b);
        let ghost old_dv = r.deep_view();
        r.push(t);
        assert(r.deep_view() =~= old_dv.push(s@.subrange(a as int, b as int)));
        assert(m@.take(k + 1) =~= m@.take(k as int).push(m@[k as int]));
        assert(lift_spans(m@.take(k + 1)) =~= lift_spans(m@.take(k as int)).push((a as int, b as int)));
        assert(spans_text(s@, lift_spans(m@.take(k + 1))) =~= spans_text(s@, lift_spans(m@.take(k as int))).push(s@.subrange(a as int, b as int)));
        k = k + 1;
    }
    assert(m@.take(m@.len() as int) =~= m@);
    r
}

/// The captured texts of every match of `steps` in `text`.
pub fn capture_all(steps: &Vec<Step>, text: &str) -> (r: Vec<String>)
    ensures
        r.deep_view() == all_captures(steps@, text@, word_flags(text@)),
{
    let s = to_chars(text);
    let w = word_flags_of(&s);
    let m = find_all(steps, &s, &w);
    proof {
        lemma_matches_bounds(steps@, s@, w@, 0);
        assert forall|k: int| 0 <= k < m@.len() implies #[trigger] m@[k].0 <= m@[k].1 <= s@.len() by {
            assert(lift_spans(m@)[k] == (m@[k].0 as int, m@[k].1 as int));
        }
    }
    texts_of(&s, &m)
}

/// The captured text of the first match of `steps` in `text`.
pub fn capture_first(steps: &Vec<Step>, text: &str) -> (r: Option<String>)
    ensures
        r.deep_view() == first_capture(steps@, text@, word_flags(text@)),
{
    let s = to_chars(text);
    let w = word_flags_of(&s);
    let m = find_all(steps, &s, &w);
    proof {
        lemma_matches_bounds(steps@, s@, w@, 0);
    }
    if m.len() == 0 {
        None
    } else {
        let (a, b) = m[0];
        assert(lift_spans(m@)[0] == (a as int, b as int));
        Some(string_of(&s, a, b))
    }
}

} // verus!
