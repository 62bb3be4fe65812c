//! Properties that hold across the library's functions.
use vstd::prelude::*;
use crate::artisan::{artisan_commands, command_names, command_text, first_colon, in_namespace_fn, lemma_first_colon, namespace_of, namespaces_in};
use crate::lsp::indexer::{blade_tag, class_name_of, class_names_fn, dots_to_dashes, opt_seq, strip_suffixes};
use crate::lsp::scanner::{extracted, index_of, model_entries, php_items, php_items_fn, project_model_properties, project_route_names, project_route_uris, sorted_distinct, Extract, ProjectSnapshot, LaravelIndex};
use crate::completion::{blade_directives, code_label, label_fits, utf8_len, CompletionKind, SpanView};
use crate::extension::{artisan_label, completion_fits, completion_label};
use crate::lsp::server::{directive_entry, directive_entry_fn, all_entries, facade_classes, facade_entry_fn, helper_entry_fn, helper_signatures, indexable, section_entry, section_entry_fn, strip_prefixes, Section};
use crate::order::{lemma_lex_asymmetric, lemma_lex_irreflexive, lex_lt, strictly_sorted};
use crate::pattern::{all_captures, lemma_next_quote, lemma_step_bounds, matches_from, next_quote, run, step_at, word_flags, is_quote, Step};
use crate::php::{
    array_entries, array_key_pattern, fillable_pattern, guarded_pattern, named_route_pattern, quoted_pattern,
    route_uri_pattern, view_ref_pattern,
};
use crate::source::{files_view, is_php_name};
use crate::text::{contains_at_some, ends_with, has_at, is_ws, starts_with, lemma_skip_ws_bounds, lemma_trim_end_bounds, skip_ws, str_views, trim, trim_end_at};

verus! {

// ----- captured texts -----

/// Whether a step captures text.
pub open spec fn captures_text(st: Step) -> bool {
    match st {
        Step::QuotedText | Step::WordCap | Step::PathCap | Step::ControllerCap | Step::BracketBody => true,
        _ => false,
    }
}

/// The only capturing step of the program is the quoted-text step.
pub open spec fn captures_quoted_only(steps: Seq<Step>) -> bool {
    forall|k: int| 0 <= k < steps.len() && captures_text(#[trigger] steps[k]) ==> steps[k] is QuotedText
}

/// A capture spans at least one character of `s`, none of them a quote.
pub open spec fn quote_free(s: Seq<char>, c: Option<(int, int)>) -> bool {
    c matches Some((a, b)) ==> 0 <= a < b <= s.len() && forall|k: int| a <= k < b ==> !is_quote(#[trigger] s[k])
}

proof fn lemma_step_quote_free(st: Step, s: Seq<char>, w: Seq<bool>, i: int)
    requires
        0 <= i <= s.len(),
        w.len() == s.len(),
        captures_text(st) ==> st is QuotedText,
    ensures
        step_at(st, s, w, i) matches Some((j, c)) ==> quote_free(s, c),
{
    lemma_next_quote(s, i);
}

proof fn lemma_run_quote_free(steps: Seq<Step>, s: Seq<char>, w: Seq<bool>, i: int, cap: Option<(int, int)>)
    requires
        captures_quoted_only(steps),
        quote_free(s, cap),
        0 <= i <= s.len(),
        w.len() == s.len(),
    ensures
        run(steps, s, w, i, cap) matches Some((e, c)) ==> quote_free(s, c),
    decreases steps.len(),
{
    if steps.len() > 0 {
        assert(captures_text(steps[0]) ==> steps[0] is QuotedText);
        lemma_step_quote_free(steps[0], s, w, i);
        lemma_step_bounds(steps[0], s, w, i);
        match step_at(steps[0], s, w, i) {
            None => {},
            Some((j, c)) => {
                let rest = steps.drop_first();
                assert forall|k: int| 0 <= k < rest.len() && captures_text(#[trigger] rest[k]) implies rest[k] is QuotedText by {
                    assert(rest[k] == steps[k + 1]);
                }
                let nc = if c is Some {
                    c
                } else {
                    cap
                };
                lemma_run_quote_free(rest, s, w, j, nc);
            },
        }
    }
}

proof fn lemma_matches_quote_free(steps: Seq<Step>, s: Seq<char>, w: Seq<bool>, i: int)
    requires
        captures_quoted_only(steps),
        w.len() == s.len(),
        0 <= i,
    ensures
        forall|k: int|
            0 <= k < matches_from(steps, s, w, i).len() ==> quote_free(
                s,
                Some(#[trigger] matches_from(steps, s, w, i)[k]),
            ),
    decreases s.len() - i,
{
    if i < s.len() {
        lemma_run_quote_free(steps, s, w, i, None);
        match run(steps, s, w, i, None) {
            Some((e, Some(c))) => {
                if i < e <= s.len() {
                    lemma_matches_quote_free(steps, s, w, e);
                    let rest = matches_from(steps, s, w, e);
                    assert(matches_from(steps, s, w, i) == seq![c] + rest);
                    assert forall|k: int| 0 <= k < matches_from(steps, s, w, i).len() implies quote_free(
                        s,
                        Some(#[trigger] matches_from(steps, s, w, i)[k]),
                    ) by {
                        if k > 0 {
                            assert(matches_from(steps, s, w, i)[k] == rest[k - 1]);
                        }
                    }
                } else {
                    lemma_matches_quote_free(steps, s, w, i + 1);
                    assert(matches_from(steps, s, w, i) == matches_from(steps, s, w, i + 1));
                }
            },
            _ => {
                lemma_matches_quote_free(steps, s, w, i + 1);
                assert(matches_from(steps, s, w, i) == matches_from(steps, s, w, i + 1));
            },
        }
    }
}

/// A text that is not empty and holds no quote character.
pub open spec fn plain_text(x: Seq<char>) -> bool {
    x.len() > 0 && forall|k: int| 0 <= k < x.len() ==> !is_quote(#[trigger] x[k])
}

/// Whatever a program captures with its quoted-text step alone is a
/// non-empty text without quotes.
pub proof fn lemma_quoted_captures_plain(steps: Seq<Step>, s: Seq<char>, w: Seq<bool>)
    requires
        captures_quoted_only(steps),
        w.len() == s.len(),
    ensures
        forall|k: int| 0 <= k < all_captures(steps, s, w).len() ==> plain_text(#[trigger] all_captures(steps, s, w)[k]),
{
    lemma_matches_quote_free(steps, s, w, 0);
    let m = matches_from(steps, s, w, 0);
    assert forall|k: int| 0 <= k < all_captures(steps, s, w).len() implies plain_text(
        #[trigger] all_captures(steps, s, w)[k],
    ) by {
        assert(quote_free(s, Some(m[k])));
        let x = all_captures(steps, s, w)[k];
        assert(x == s.subrange(m[k].0, m[k].1));
        assert forall|j: int| 0 <= j < x.len() implies !is_quote(#[trigger] x[j]) by {
            assert(x[j] == s[m[k].0 + j]);
        }
    }
}

/// Every named route, route URI and view name found in a text is a non-empty
/// text without quotes.
pub proof fn lemma_quoted_names_plain(s: Seq<char>)
    ensures
        forall|k: int|
            0 <= k < all_captures(named_route_pattern(), s, word_flags(s)).len() ==> plain_text(
                #[trigger] all_captures(named_route_pattern(), s, word_flags(s))[k],
            ),
        forall|k: int|
            0 <= k < all_captures(route_uri_pattern(), s, word_flags(s)).len() ==> plain_text(
                #[trigger] all_captures(route_uri_pattern(), s, word_flags(s))[k],
            ),
        forall|k: int|
            0 <= k < all_captures(view_ref_pattern(), s, word_flags(s)).len() ==> plain_text(
                #[trigger] all_captures(view_ref_pattern(), s, word_flags(s))[k],
            ),
{
    assert(captures_quoted_only(named_route_pattern()));
    assert(captures_quoted_only(route_uri_pattern()));
    assert(captures_quoted_only(view_ref_pattern()));
    lemma_quoted_captures_plain(named_route_pattern(), s, word_flags(s));
    lemma_quoted_captures_plain(route_uri_pattern(), s, word_flags(s));
    lemma_quoted_captures_plain(view_ref_pattern(), s, word_flags(s));
}

/// Every entry of a `$fillable` or `$guarded` array is a non-empty text
/// without quotes (so filtering out empty entries removes nothing).
pub proof fn lemma_quoted_captures_nonempty(s: Seq<char>)
    ensures
        forall|k: int|
            0 <= k < array_entries(fillable_pattern(), quoted_pattern(), s).len() ==> plain_text(
                #[trigger] array_entries(fillable_pattern(), quoted_pattern(), s)[k],
            ),
        forall|k: int|
            0 <= k < array_entries(guarded_pattern(), quoted_pattern(), s).len() ==> plain_text(
                #[trigger] array_entries(guarded_pattern(), quoted_pattern(), s)[k],
            ),
{
    assert(captures_quoted_only(quoted_pattern()));
    match crate::pattern::first_capture(fillable_pattern(), s, word_flags(s)) {
        Some(body) => lemma_quoted_captures_plain(quoted_pattern(), body, word_flags(body)),
        None => {},
    }
    match crate::pattern::first_capture(guarded_pattern(), s, word_flags(s)) {
        Some(body) => lemma_quoted_captures_plain(quoted_pattern(), body, word_flags(body)),
        None => {},
    }
}

// ----- artisan commands -----

/// A command with a namespace is that namespace, a colon and the rest; the
/// namespace holds no colon.
pub proof fn lemma_namespace_split(command: Seq<char>)
    ensures
        namespace_of(command) matches Some(ns) ==> {
            &&& !ns.contains(':')
            &&& command == ns + seq![':'] + command.skip(ns.len() + 1int)
        },
{
    lemma_first_colon(command, 0);
    if let Some(ns) = namespace_of(command) {
        let k = first_colon(command, 0);
        assert(command =~= ns + seq![':'] + command.skip(ns.len() + 1int));
        if ns.contains(':') {
            let j = choose|j: int| 0 <= j < ns.len() && ns[j] == ':';
            assert(command[j] == ':');
        }
    }
}

/// Every command listed for a namespace is a known command of that namespace.
pub proof fn lemma_namespace_members(ns: Seq<char>)
    ensures
        forall|c: &'static str|
            artisan_commands().filter(in_namespace_fn(ns)).contains(c) ==> artisan_commands().contains(c)
                && namespace_of(c@) == Some(ns),
{
    broadcast use vstd::seq_lib::group_filter_ensures;

    let f = artisan_commands().filter(in_namespace_fn(ns));
    assert forall|c: &'static str| f.contains(c) implies artisan_commands().contains(c) && namespace_of(c@)
        == Some(ns) by {
        artisan_commands().lemma_filter_contains_rev(in_namespace_fn(ns), c);
        let i = choose|i: int| 0 <= i < f.len() && f[i] == c;
        artisan_commands().lemma_filter_pred(in_namespace_fn(ns), i);
    }
}

/// The namespaces of a command list are distinct, and a text is one of them
/// exactly when some command of the list has it as namespace.
pub proof fn lemma_namespaces_exact(cmds: Seq<&'static str>)
    ensures
        namespaces_in(cmds).no_duplicates(),
        forall|n: Seq<char>|
            namespaces_in(cmds).contains(n) <==> exists|i: int| 0 <= i < cmds.len() && namespace_of(
                #[trigger] cmds[i]@,
            ) == Some(n),
    decreases cmds.len(),
{
    if cmds.len() > 0 {
        let init = cmds.drop_last();
        lemma_namespaces_exact(init);
        let prev = namespaces_in(init);
        assert forall|n: Seq<char>|
            namespaces_in(cmds).contains(n) <==> exists|i: int| 0 <= i < cmds.len() && namespace_of(
                #[trigger] cmds[i]@,
            ) == Some(n) by {
            if namespaces_in(cmds).contains(n) {
                if prev.contains(n) {
                    let i = choose|i: int| 0 <= i < init.len() && namespace_of(#[trigger] init[i]@) == Some(n);
                    assert(cmds[i] == init[i]);
                } else {
                    let j = choose|j: int| 0 <= j < namespaces_in(cmds).len() && namespaces_in(cmds)[j] == n;
                    assert(namespaces_in(cmds) == prev.push(n) || namespaces_in(cmds) == prev);
                    assert(namespace_of(cmds[cmds.len() - 1]@) == Some(n));
                }
            }
            if exists|i: int| 0 <= i < cmds.len() && namespace_of(#[trigger] cmds[i]@) == Some(n) {
                let i = choose|i: int| 0 <= i < cmds.len() && namespace_of(#[trigger] cmds[i]@) == Some(n);
                if i < cmds.len() - 1 {
                    assert(init[i] == cmds[i]);
                    assert(prev.contains(n));
                    let j = choose|j: int| 0 <= j < prev.len() && prev[j] == n;
                    if namespaces_in(cmds) != prev {
                        assert(namespaces_in(cmds)[j] == n);
                    }
                } else {
                    if !prev.contains(n) {
                        assert(namespaces_in(cmds)[prev.len() as int] == n);
                    }
                }
            }
        }
        if let Some(n) = namespace_of(cmds.last()@) {
            if !prev.contains(n) {
                let now = prev.push(n);
                assert forall|a: int, b: int| 0 <= a < now.len() && 0 <= b < now.len() && a != b implies now[a]
                    != now[b] by {
                    if a < prev.len() && b < prev.len() {
                    } else if a == prev.len() {
                        assert(prev[b] == now[b]);
                    } else {
                        assert(prev[a] == now[a]);
                    }
                }
            }
        }
    }
}

/// Each namespace of the command list has at least one command in it.
pub proof fn lemma_namespace_has_commands(ns: Seq<char>)
    requires
        namespaces_in(artisan_commands()).contains(ns),
    ensures
        artisan_commands().filter(in_namespace_fn(ns)).len() > 0,
{
    broadcast use vstd::seq_lib::group_filter_ensures;

    lemma_namespaces_exact(artisan_commands());
    let i = choose|i: int| 0 <= i < artisan_commands().len() && namespace_of(#[trigger] artisan_commands()[i]@) == Some(ns);
    assert(in_namespace_fn(ns)(artisan_commands()[i]));
    artisan_commands().lemma_filter_contains(in_namespace_fn(ns), i);
}

/// The command part of an input neither starts nor ends with whitespace.
pub proof fn lemma_command_text_trimmed(input: Seq<char>)
    ensures
        command_text(input).len() > 0 ==> !is_ws(command_text(input)[0]) && !is_ws(
            command_text(input).last(),
        ),
{
    let t = trim(input);
    lemma_trim_shape(input);
    if t.len() >= "php artisan "@.len() {
        lemma_trim_shape(t.skip("php artisan "@.len() as int));
    }
    if t.len() >= "artisan "@.len() {
        lemma_trim_shape(t.skip("artisan "@.len() as int));
    }
}

/// A trimmed text neither starts nor ends with whitespace.
pub proof fn lemma_trim_shape(s: Seq<char>)
    ensures
        trim(s).len() > 0 ==> !is_ws(trim(s)[0]) && !is_ws(trim(s).last()),
{
    lemma_skip_ws_bounds(s, 0);
    lemma_trim_end_bounds(s, s.len() as int);
    let a = skip_ws(s, 0);
    let e = trim_end_at(s, s.len() as int);
    if a < s.len() {
        if e <= a {
            assert(is_ws(s[a]));
        }
        assert(trim(s)[0] == s[a]);
        assert(trim(s).last() == s[e - 1]);
    }
}

/// `w` holds whitespace only.
pub open spec fn all_ws(w: Seq<char>) -> bool {
    forall|k: int| 0 <= k < w.len() ==> is_ws(#[trigger] w[k])
}

/// `x` is non-empty and neither starts nor ends with whitespace.
pub open spec fn is_trimmed(x: Seq<char>) -> bool {
    x.len() > 0 && !is_ws(x[0]) && !is_ws(x.last())
}

proof fn lemma_skip_ws_over(s: Seq<char>, i: int, j: int)
    requires
        0 <= i <= j <= s.len(),
        forall|k: int| i <= k < j ==> is_ws(#[trigger] s[k]),
        j == s.len() || !is_ws(s[j]),
    ensures
        skip_ws(s, i) == j,
    decreases j - i,
{
    if i < j {
        lemma_skip_ws_over(s, i + 1, j);
    }
}

proof fn lemma_trim_end_over(s: Seq<char>, i: int, j: int)
    requires
        0 <= i <= j <= s.len(),
        forall|k: int| i <= k < j ==> is_ws(#[trigger] s[k]),
        i == 0 || !is_ws(s[i - 1]),
    ensures
        trim_end_at(s, j) == i,
    decreases j - i,
{
    if i < j {
        lemma_trim_end_over(s, i, j - 1);
    }
}

/// Whitespace around a trimmed text is what `trim` removes.
pub proof fn lemma_trim_padded(w1: Seq<char>, x: Seq<char>, w2: Seq<char>)
    requires
        all_ws(w1),
        all_ws(w2),
        is_trimmed(x),
    ensures
        trim(w1 + x + w2) == x,
{
    let t = w1 + x + w2;
    let a = w1.len() as int;
    let b = a + x.len();
    assert forall|k: int| 0 <= k < a implies is_ws(#[trigger] t[k]) by {
        assert(t[k] == w1[k]);
    }
    assert(t[a] == x[0]);
    lemma_skip_ws_over(t, 0, a);
    assert forall|k: int| b <= k < t.len() implies is_ws(#[trigger] t[k]) by {
        assert(t[k] == w2[k - b]);
    }
    assert(t[b - 1] == x.last());
    lemma_trim_end_over(t, b, t.len() as int);
    assert(t.subrange(a, b) =~= x);
}

/// A text of whitespace only trims to nothing.
pub proof fn lemma_trim_blank(w: Seq<char>)
    requires
        all_ws(w),
    ensures
        trim(w).len() == 0,
{
    lemma_skip_ws_over(w, 0, w.len() as int);
}

/// `trim` gives back a piece of its input.
pub proof fn lemma_trim_subrange(s: Seq<char>)
    ensures
        exists|a: int, b: int| 0 <= a <= b <= s.len() && trim(s) == #[trigger] s.subrange(a, b),
{
    lemma_skip_ws_bounds(s, 0);
    lemma_trim_end_bounds(s, s.len() as int);
    let a = skip_ws(s, 0);
    let e = trim_end_at(s, s.len() as int);
    if a >= s.len() {
        assert(trim(s) =~= s.subrange(0, 0));
    } else {
        if e <= a {
            assert(is_ws(s[a]));
        }
        assert(trim(s) == s.subrange(a, e));
    }
}

proof fn lemma_trim_rest_subrange(s: Seq<char>, n: int)
    requires
        0 <= n <= s.len(),
    ensures
        exists|a: int, b: int| 0 <= a <= b <= s.len() && trim(s.skip(n)) == #[trigger] s.subrange(a, b),
{
    let r = s.skip(n);
    lemma_trim_subrange(r);
    let (a, b) = choose|a: int, b: int| 0 <= a <= b <= r.len() && trim(r) == #[trigger] r.subrange(a, b);
    assert(r.subrange(a, b) =~= s.subrange(n + a, n + b));
}

/// The command found in an input is non-empty, trimmed and a piece of the
/// input.
pub proof fn lemma_command_text_piece(input: Seq<char>)
    ensures
        command_text(input).len() > 0 ==> is_trimmed(command_text(input)),
        exists|a: int, b: int| 0 <= a <= b <= input.len() && command_text(input) == #[trigger] input.subrange(a, b),
{
    lemma_command_text_trimmed(input);
    lemma_trim_subrange(input);
    let t = trim(input);
    let (a, b) = choose|a: int, b: int| 0 <= a <= b <= input.len() && t == #[trigger] input.subrange(a, b);
    let p = "php artisan "@;
    let q = "artisan "@;
    if starts_with(t, p) {
        lemma_trim_rest_subrange(t, p.len() as int);
        let (c, d) = choose|c: int, d: int| 0 <= c <= d <= t.len() && trim(t.skip(p.len() as int)) == #[trigger] t.subrange(c, d);
        assert(t.subrange(c, d) =~= input.subrange(a + c, a + d));
    } else if starts_with(t, q) {
        lemma_trim_rest_subrange(t, q.len() as int);
        let (c, d) = choose|c: int, d: int| 0 <= c <= d <= t.len() && trim(t.skip(q.len() as int)) == #[trigger] t.subrange(c, d);
        assert(t.subrange(c, d) =~= input.subrange(a + c, a + d));
    }
}

/// Whatever whitespace surrounds a command and follows `php artisan ` or
/// `artisan `, the command comes back unchanged; an input of whitespace
/// only holds no command.
pub proof fn lemma_extract_command_round_trip(w1: Seq<char>, w2: Seq<char>, w3: Seq<char>, s: Seq<char>)
    requires
        all_ws(w1),
        all_ws(w2),
        all_ws(w3),
        is_trimmed(s),
    ensures
        command_text(w1 + "php artisan "@ + w3 + s + w2) == s,
        command_text(w1 + "artisan "@ + w3 + s + w2) == s,
        command_text(w1 + w2).len() == 0,
        !starts_with(s, "php artisan "@) && !starts_with(s, "artisan "@) ==> command_text(w1 + s + w2)
            == s,
{
    reveal_strlit("php artisan ");
    reveal_strlit("artisan ");
    let p = "php artisan "@;
    let q = "artisan "@;
    let empty = Seq::<char>::empty();
    assert(all_ws(empty));
    // php artisan <w3> <s>
    let x = p + w3 + s;
    assert(x[0] == 'p');
    assert(x.last() == s.last());
    assert(w1 + p + w3 + s + w2 =~= w1 + x + w2);
    lemma_trim_padded(w1, x, w2);
    assert(x.subrange(0, p.len() as int) =~= p);
    assert(x.skip(p.len() as int) =~= w3 + s + empty);
    lemma_trim_padded(w3, s, empty);
    // artisan <w3> <s>
    let y = q + w3 + s;
    assert(y[0] == 'a');
    assert(y.last() == s.last());
    assert(w1 + q + w3 + s + w2 =~= w1 + y + w2);
    lemma_trim_padded(w1, y, w2);
    if has_at(y, 0, p) {
        assert(y.subrange(0, p.len() as int)[0] == p[0]);
    }
    assert(y.subrange(0, q.len() as int) =~= q);
    assert(y.skip(q.len() as int) =~= w3 + s + empty);
    // whitespace only
    assert forall|k: int| 0 <= k < (w1 + w2).len() implies is_ws(#[trigger] (w1 + w2)[k]) by {
        if k < w1.len() {
            assert((w1 + w2)[k] == w1[k]);
        } else {
            assert((w1 + w2)[k] == w2[k - w1.len()]);
        }
    }
    lemma_trim_blank(w1 + w2);
    // a bare command
    lemma_trim_padded(w1, s, w2);
}

/// A completion that names no known Artisan command gets the label its kind
/// gives, whatever its label, and on exactly the labels on which the shared
/// builder can give one (for instance `route` with kind `Function` shows as
/// `fn route()`, and a completion without a kind gets no label).
pub proof fn lemma_label_by_kind(label: Seq<char>, kind: Option<CompletionKind>)
    ensures
        artisan_label(label) is None ==> completion_label(label, kind) == code_label(label, kind),
        artisan_label(label) is None ==> (completion_fits(label, kind) <==> label_fits(label, kind)),
        code_label(label, None) is None,
        code_label("route"@, Some(CompletionKind::Function)) matches Some(l) && l.0 == "fn route()"@,
{
    reveal_strlit("route");
    reveal_strlit("fn ");
    reveal_strlit("()");
    reveal_strlit("fn route()");
    assert("fn "@ + "route"@ + "()"@ =~= "fn route()"@);
}

// ----- the language server's index -----

/// A strictly sorted list of distinct values is determined by its values:
/// any two such lists of the same values are equal.
pub proof fn lemma_sorted_distinct_unique(r1: Seq<Seq<char>>, r2: Seq<Seq<char>>, items: Seq<Seq<char>>)
    requires
        sorted_distinct(r1, items),
        sorted_distinct(r2, items),
    ensures
        r1 == r2,
{
    lemma_sorted_same_values(r1, r2);
}

proof fn lemma_sorted_same_values(a: Seq<Seq<char>>, b: Seq<Seq<char>>)
    requires
        strictly_sorted(a),
        strictly_sorted(b),
        forall|x: Seq<char>| a.contains(x) <==> b.contains(x),
    ensures
        a == b,
    decreases a.len(),
{
    if a.len() == 0 {
        if b.len() > 0 {
            assert(b.contains(b[0]));
        }
        assert(a =~= b);
    } else {
        assert(a.contains(a[0]));
        assert(b.len() > 0);
        assert(b.contains(b[0]));
        let j = choose|j: int| 0 <= j < a.len() && a[j] == b[0];
        let k = choose|k: int| 0 <= k < b.len() && b[k] == a[0];
        if a[0] != b[0] {
            assert(j != 0 && k != 0);
            assert(lex_lt(a[0], a[j]));
            assert(lex_lt(b[0], b[k]));
            lemma_lex_asymmetric(a[0], b[0]);
        }
        let ta = a.drop_first();
        let tb = b.drop_first();
        assert forall|x: Seq<char>| ta.contains(x) <==> tb.contains(x) by {
            if ta.contains(x) {
                let i = choose|i: int| 0 <= i < ta.len() && ta[i] == x;
                assert(a[i + 1] == x);
                assert(lex_lt(a[0], a[i + 1]));
                lemma_lex_irreflexive(x);
                assert(b.contains(x));
                let m = choose|m: int| 0 <= m < b.len() && b[m] == x;
                assert(m != 0);
                assert(tb[m - 1] == x);
            }
            if tb.contains(x) {
                let i = choose|i: int| 0 <= i < tb.len() && tb[i] == x;
                assert(b[i + 1] == x);
                assert(lex_lt(b[0], b[i + 1]));
                lemma_lex_irreflexive(x);
                assert(a.contains(x));
                let m = choose|m: int| 0 <= m < a.len() && a[m] == x;
                assert(m != 0);
                assert(ta[m - 1] == x);
            }
        }
        lemma_sorted_same_values(ta, tb);
        assert(a =~= seq![a[0]] + ta);
        assert(b =~= seq![b[0]] + tb);
    }
}

/// A sorted list without repeats holds each value once.
pub proof fn lemma_sorted_distinct_no_repeats(r: Seq<Seq<char>>, items: Seq<Seq<char>>)
    requires
        sorted_distinct(r, items),
    ensures
        r.no_duplicates(),
{
    assert forall|i: int, j: int| 0 <= i < r.len() && 0 <= j < r.len() && i != j implies r[i] != r[j] by {
        if i < j {
            assert(lex_lt(r[i], r[j]));
            lemma_lex_irreflexive(r[i]);
        } else {
            assert(lex_lt(r[j], r[i]));
            lemma_lex_irreflexive(r[j]);
        }
    }
}

proof fn lemma_flat_map_contains<A>(s: Seq<A>, f: spec_fn(A) -> Seq<Seq<char>>, k: int, x: Seq<char>)
    requires
        0 <= k < s.len(),
        f(s[k]).contains(x),
    ensures
        s.flat_map(f).contains(x),
    decreases s.len(),
{
    let n = s.len() - 1;
    s.lemma_flat_map_take_append(f, n);
    assert(s.take(n + 1) =~= s);
    let front = s.take(n).flat_map(f);
    if k == n {
        let fk = f(s[k]);
        let j = choose|j: int| 0 <= j < fk.len() && fk[j] == x;
        assert(s.flat_map(f)[front.len() + j] == x);
    } else {
        lemma_flat_map_contains(s.take(n), f, k, x);
        let j = choose|j: int| 0 <= j < front.len() && front[j] == x;
        assert(s.flat_map(f)[j] == x);
    }
}

/// A route named in any PHP file of `routes/` appears in the index.
pub proof fn lemma_route_in_index(p: ProjectSnapshot, idx: LaravelIndex, k: int, x: Seq<char>)
    requires
        index_of(p, idx),
        0 <= k < p.route_files@.len(),
        is_php_name(p.route_files@[k].name@),
        extracted(Extract::NamedRoutes, p.route_files@[k].content@).contains(x),
    ensures
        idx.routes.deep_view().contains(x),
{
    let fv = files_view(p.route_files@);
    assert(fv[k] == p.route_files@[k]@);
    lemma_flat_map_contains(fv, php_items_fn(Extract::NamedRoutes), k, x);
}

proof fn lemma_concat_contains(a: Seq<Seq<char>>, b: Seq<Seq<char>>, x: Seq<char>)
    requires
        a.contains(x) || b.contains(x),
    ensures
        (a + b).contains(x),
{
    if a.contains(x) {
        let j = choose|j: int| 0 <= j < a.len() && a[j] == x;
        assert((a + b)[j] == x);
    } else {
        let j = choose|j: int| 0 <= j < b.len() && b[j] == x;
        assert((a + b)[a.len() + j] == x);
    }
}

/// An entry of a `$fillable` or `$guarded` array of any PHP file under
/// `app/Models/` (or, with `legacy`, directly in `app/`) appears among the
/// index's model properties.
pub proof fn lemma_property_in_index(
    p: ProjectSnapshot,
    idx: LaravelIndex,
    legacy: bool,
    guarded: bool,
    k: int,
    x: Seq<char>,
)
    requires
        index_of(p, idx),
        0 <= k < (if legacy {
            p.legacy_files@
        } else {
            p.model_files@
        }).len(),
        is_php_name(
            (if legacy {
                p.legacy_files@
            } else {
                p.model_files@
            })[k].name@,
        ),
        extracted(
            if guarded {
                Extract::Guarded
            } else {
                Extract::Fillable
            },
            (if legacy {
                p.legacy_files@
            } else {
                p.model_files@
            })[k].content@,
        ).contains(x),
    ensures
        idx.model_properties.deep_view().contains(x),
{
    let files = if legacy {
        p.legacy_files@
    } else {
        p.model_files@
    };
    let e = if guarded {
        Extract::Guarded
    } else {
        Extract::Fillable
    };
    let fv = files_view(files);
    assert(fv[k] == files[k]@);
    lemma_flat_map_contains(fv, php_items_fn(e), k, x);
    lemma_concat_contains(php_items(Extract::Fillable, files), php_items(Extract::Guarded, files), x);
    lemma_concat_contains(model_entries(p.model_files@), model_entries(p.legacy_files@), x);
}

/// The class declared by any PHP file under `app/Http/Controllers/` appears
/// among the index's controllers.
pub proof fn lemma_controller_in_index(p: ProjectSnapshot, idx: LaravelIndex, k: int)
    requires
        index_of(p, idx),
        0 <= k < p.controller_files@.len(),
        is_php_name(p.controller_files@[k].name@),
        class_name_of(p.controller_files@[k].content@) is Some,
    ensures
        idx.controllers.deep_view().contains(class_name_of(p.controller_files@[k].content@)->0),
{
    let fv = files_view(p.controller_files@);
    assert(fv[k] == p.controller_files@[k]@);
    let x = class_name_of(p.controller_files@[k].content@)->0;
    assert(opt_seq(class_name_of(p.controller_files@[k].content@))[0] == x);
    lemma_flat_map_contains(fv, class_names_fn(), k, x);
}

/// Route names, route URIs and model properties each appear once in the index.
pub proof fn lemma_index_without_repeats(p: ProjectSnapshot, idx: LaravelIndex)
    requires
        index_of(p, idx),
    ensures
        idx.routes.deep_view().no_duplicates(),
        idx.route_uris.deep_view().no_duplicates(),
        idx.model_properties.deep_view().no_duplicates(),
{
    lemma_sorted_distinct_no_repeats(idx.routes.deep_view(), project_route_names(p));
    lemma_sorted_distinct_no_repeats(idx.route_uris.deep_view(), project_route_uris(p));
    lemma_sorted_distinct_no_repeats(idx.model_properties.deep_view(), project_model_properties(p));
}

/// A project without files has an empty index.
pub proof fn lemma_empty_project(p: ProjectSnapshot, idx: LaravelIndex)
    requires
        index_of(p, idx),
        p.blade_files@.len() == 0,
        p.route_files@.len() == 0,
        p.model_files@.len() == 0,
        p.legacy_files@.len() == 0,
        p.controller_files@.len() == 0,
    ensures
        idx.blade_components@.len() == 0,
        idx.routes@.len() == 0,
        idx.route_uris@.len() == 0,
        idx.model_properties@.len() == 0,
        idx.controllers@.len() == 0,
{
    assert(files_view(p.route_files@) =~= Seq::empty());
    assert(files_view(p.model_files@) =~= Seq::empty());
    assert(files_view(p.legacy_files@) =~= Seq::empty());
    assert(files_view(p.controller_files@) =~= Seq::empty());
    assert(p.blade_files@.map_values(|f: crate::lsp::indexer::BladeFile| f@) =~= Seq::empty());
    assert(project_route_names(p) =~= Seq::empty());
    assert(project_route_uris(p) =~= Seq::empty());
    assert(project_model_properties(p) =~= Seq::empty());
    if idx.routes@.len() > 0 {
        assert(idx.routes.deep_view().contains(idx.routes.deep_view()[0]));
    }
    if idx.route_uris@.len() > 0 {
        assert(idx.route_uris.deep_view().contains(idx.route_uris.deep_view()[0]));
    }
    if idx.model_properties@.len() > 0 {
        assert(idx.model_properties.deep_view().contains(idx.model_properties.deep_view()[0]));
    }
    assert(idx.blade_components.deep_view().len() == idx.blade_components@.len());
    assert(idx.controllers.deep_view().len() == idx.controllers@.len());
}

/// A component tag is `<x-` and a name without dots, then ` />`.
pub proof fn lemma_blade_tag_shape(dirs: Seq<Seq<char>>, name: Seq<char>)
    ensures
        blade_tag(dirs, name) matches Some(t) ==> exists|m: Seq<char>|
            t == "<x-"@ + m + " />"@ && !m.contains('.'),
{
    if let Some(t) = blade_tag(dirs, name) {
        let m = dots_to_dashes(
            crate::lsp::indexer::join_dot(
                crate::lsp::indexer::dotted_prefix(dirs),
                crate::lsp::indexer::strip_suffixes(name, ".blade.php"@),
            ),
        );
        assert(t == "<x-"@ + m + " />"@);
        if m.contains('.') {
            let j = choose|j: int| 0 <= j < m.len() && m[j] == '.';
        }
    }
}

// ----- completions -----

/// The completion for a component tag `<x-m />` inserts the same tag with a
/// cursor stop before ` />` (for names that do not themselves begin with
/// `<x-` or end with ` />`).
pub proof fn lemma_component_insert_text(m: Seq<char>)
    requires
        !has_at(m, 0, "<x-"@),
        !ends_with(m, " />"@),
    ensures
        section_entry(Section::Component, "<x-"@ + m + " />"@).3 == "<x-"@ + m + " ${1} />"@,
{
    reveal_strlit("<x-");
    reveal_strlit(" />");
    let open = "<x-"@;
    let close = " />"@;
    let t = open + m + close;
    let rest = m + close;
    assert(t.subrange(0, 3) =~= open);
    assert(t.skip(3) =~= rest);
    if has_at(rest, 0, open) {
        if m.len() >= 3 {
            assert(m.subrange(0, 3) =~= rest.subrange(0, 3));
        } else {
            assert(rest.subrange(0, 3)[m.len() as int] == ' ');
            assert(open[m.len() as int] != ' ');
        }
    }
    assert(strip_prefixes(rest, open) == rest);
    assert(strip_prefixes(t, open) == rest);
    assert(rest.subrange(rest.len() - 3, rest.len() as int) =~= close);
    assert(rest.take(rest.len() - 3) =~= m);
    assert(strip_suffixes(m, close) == m);
    assert(strip_suffixes(rest, close) == m);
}

/// Every Blade directive is offered as a completion item, whatever the index
/// holds.
pub proof fn lemma_directives_offered(idx: LaravelIndex)
    ensures
        forall|i: int|
            0 <= i < blade_directives().len() ==> all_entries(idx).contains(
                directive_entry(#[trigger] blade_directives()[i]),
            ),
{
    let d = blade_directives().map_values(directive_entry_fn());
    let all = all_entries(idx);
    let front = all.subrange(0, all.len() - d.len());
    assert(all =~= front + d);
    assert forall|i: int| 0 <= i < blade_directives().len() implies all.contains(
        directive_entry(#[trigger] blade_directives()[i]),
    ) by {
        assert(all[front.len() + i] == d[i]);
    }
}

/// A completion request is always answered: the built-in helpers, facades
/// and Blade directives are offered whatever the index holds, after one item
/// per indexed name.
pub proof fn lemma_completion_never_empty(idx: LaravelIndex)
    ensures
        all_entries(idx).len() == idx.routes@.len() + idx.route_uris@.len() + idx.blade_components@.len()
            + idx.model_properties@.len() + idx.controllers@.len() + helper_signatures().len()
            + facade_classes().len() + blade_directives().len(),
        all_entries(idx).len() > 0,
{
    assert(helper_signatures().len() > 0);
}

// ----- what each operation is for -----

proof fn lemma_next_quote_over(s: Seq<char>, i: int, j: int)
    requires
        0 <= i <= j < s.len(),
        forall|k: int| i <= k < j ==> !is_quote(#[trigger] s[k]),
        is_quote(s[j]),
    ensures
        next_quote(s, i) == j,
    decreases j - i,
{
    if i < j {
        lemma_next_quote_over(s, i + 1, j);
    }
}

/// An array key is any quoted text followed by `=>`, whatever value comes
/// after the arrow (a quoted string, a cast class, anything): a text that
/// starts with `'key' =>` has `key` as its first key.
pub proof fn lemma_array_key_whatever_value(q1: char, key: Seq<char>, q2: char, ws: Seq<char>, rest: Seq<char>)
    requires
        is_quote(q1),
        is_quote(q2),
        key.len() > 0,
        forall|k: int| 0 <= k < key.len() ==> !is_quote(#[trigger] key[k]),
        all_ws(ws),
    ensures
        ({
            let s = seq![q1] + key + seq![q2] + ws + "=>"@ + rest;
            let keys = all_captures(array_key_pattern(), s, word_flags(s));
            keys.len() > 0 && keys[0] == key
        }),
{
    reveal_strlit("=>");
    let s = seq![q1] + key + seq![q2] + ws + "=>"@ + rest;
    let w = word_flags(s);
    let kl = key.len() as int;
    let j = 2 + kl + ws.len();
    assert(s[0] == q1);
    assert forall|k: int| 1 <= k < 1 + kl implies !is_quote(#[trigger] s[k]) by {
        assert(s[k] == key[k - 1]);
    }
    assert(s[1 + kl] == q2);
    lemma_next_quote_over(s, 1, 1 + kl);
    assert forall|k: int| 2 + kl <= k < j implies is_ws(#[trigger] s[k]) by {
        assert(s[k] == ws[k - 2 - kl]);
    }
    assert(s[j] == '=');
    lemma_skip_ws_over(s, 2 + kl, j);
    assert(s.subrange(j, j + 2) =~= "=>"@);
    let p = array_key_pattern();
    let cap = Some((1int, 1 + kl));
    assert(step_at(p[0], s, w, 0) == Some((1int, None::<(int, int)>)));
    assert(step_at(p[1], s, w, 1) == Some((2 + kl, cap)));
    assert(step_at(p[2], s, w, 2 + kl) == Some((j, None::<(int, int)>)));
    assert(step_at(p[3], s, w, j) == Some((j + 2, None::<(int, int)>)));
    let p1 = p.drop_first();
    let p2 = p1.drop_first();
    let p3 = p2.drop_first();
    assert(p3.drop_first().len() == 0);
    assert(run(p3.drop_first(), s, w, j + 2, cap) == Some((j + 2, cap)));
    assert(run(p3, s, w, j, cap) == Some((j + 2, cap)));
    assert(run(p2, s, w, 2 + kl, cap) == Some((j + 2, cap)));
    assert(run(p1, s, w, 1, None) == Some((j + 2, cap)));
    assert(run(p, s, w, 0, None) == Some((j + 2, cap)));
    let m = matches_from(p, s, w, 0);
    assert(m == seq![(1int, 1 + kl)] + matches_from(p, s, w, j + 2));
    assert(s.subrange(1, 1 + kl) =~= key);
}

/// Every interface completion is labelled as a class, `class <label>`, with
/// its one span running from the end of `class ` over the label's bytes;
/// functions and methods read `fn <label>()`, constants `const <label>`,
/// and variables, fields and properties `$<label>` with the label filtered
/// after the `$`.
pub proof fn lemma_label_shapes(l: Seq<char>)
    requires
        utf8_len(l) + 6 <= u32::MAX,
    ensures
        ({
            let n = utf8_len(l);
            &&& code_label(l, Some(CompletionKind::Interface)) == code_label(l, Some(CompletionKind::Class))
            &&& code_label(l, Some(CompletionKind::Interface)) == Some(
                ("class "@ + l, seq![SpanView::CodeRange(6u32, (6 + n) as u32)], (0u32, n as u32)),
            )
            &&& code_label(l, Some(CompletionKind::Struct)) == code_label(l, Some(CompletionKind::Class))
            &&& code_label(l, Some(CompletionKind::Function)) == Some(
                ("fn "@ + l + "()"@, seq![SpanView::CodeRange(3u32, (3 + n) as u32)], (0u32, n as u32)),
            )
            &&& code_label(l, Some(CompletionKind::Method)) == code_label(l, Some(CompletionKind::Function))
            &&& code_label(l, Some(CompletionKind::Constant)) == Some(
                ("const "@ + l, seq![SpanView::CodeRange(6u32, (6 + n) as u32)], (0u32, n as u32)),
            )
            &&& code_label(l, Some(CompletionKind::Property)) == Some(
                ("$"@ + l, seq![SpanView::CodeRange(0u32, (1 + n) as u32)], (1u32, (1 + n) as u32)),
            )
            &&& code_label(l, Some(CompletionKind::Variable)) == code_label(l, Some(CompletionKind::Property))
            &&& code_label(l, Some(CompletionKind::Field)) == code_label(l, Some(CompletionKind::Property))
            &&& code_label(l, Some(CompletionKind::Keyword)) == Some(
                (l, seq![SpanView::Literal(l, Some("keyword"@))], (0u32, n as u32)),
            )
            &&& code_label(l, Some(CompletionKind::Module)) == Some(
                (l, seq![SpanView::Literal(l, Some("namespace"@))], (0u32, n as u32)),
            )
            &&& code_label(l, Some(CompletionKind::Snippet)) == Some(
                (
                    l,
                    seq![
                        SpanView::Literal(
                            l,
                            Some(
                                if str_views(blade_directives()).contains(l) {
                                    "string.special"@
                                } else {
                                    "snippet"@
                                },
                            ),
                        ),
                    ],
                    (0u32, n as u32),
                ),
            )
            &&& code_label(l, None) is None
            &&& code_label(l, Some(CompletionKind::Text)) is None
            &&& code_label(l, Some(CompletionKind::Value)) is None
        }),
{
}

/// A path calls for a new scan whenever its lower-cased form contains
/// `/routes/`, `/models/` or `/components/` anywhere (so
/// `.../app/view/components/alert.php` does), or ends in `.blade.php`.
pub proof fn lemma_indexable_paths(lower: Seq<char>, i: int)
    ensures
        has_at(lower, i, "/components/"@) ==> indexable(lower),
        has_at(lower, i, "/routes/"@) ==> indexable(lower),
        has_at(lower, i, "/models/"@) ==> indexable(lower),
        ends_with(lower, ".blade.php"@) ==> indexable(lower),
        indexable(lower) ==> contains_at_some(lower, "/components/"@) || contains_at_some(lower, "/routes/"@)
            || contains_at_some(lower, "/models/"@) || ends_with(lower, ".blade.php"@),
{
}

/// Whatever its kind, a completion whose command text (trimmed, without a
/// leading `php artisan ` or `artisan `) is a known Artisan command gets the
/// Artisan label `// artisan <label>`, its span over the label.
pub proof fn lemma_known_command_label(l: Seq<char>, k: Option<CompletionKind>)
    requires
        command_text(l).len() > 0,
        command_names().contains(command_text(l)),
    ensures
        completion_label(l, k) == Some(
            (
                "// artisan "@ + l,
                seq![SpanView::CodeRange(11u32, (11 + utf8_len(l)) as u32)],
                (0u32, utf8_len(l) as u32),
            ),
        ),
{
}

/// A known Artisan command gets the Artisan label whether it is written alone
/// or after `php artisan ` or `artisan `, with any whitespace around.
pub proof fn lemma_command_forms_labelled(
    w1: Seq<char>,
    w2: Seq<char>,
    w3: Seq<char>,
    c: Seq<char>,
    k: Option<CompletionKind>,
)
    requires
        all_ws(w1),
        all_ws(w2),
        all_ws(w3),
        is_trimmed(c),
        command_names().contains(c),
        !starts_with(c, "php artisan "@),
        !starts_with(c, "artisan "@),
    ensures
        completion_label(w1 + c + w2, k) matches Some(lab) && lab.0 == "// artisan "@ + w1 + c + w2,
        completion_label(w1 + "php artisan "@ + w3 + c + w2, k) is Some,
        completion_label(w1 + "artisan "@ + w3 + c + w2, k) is Some,
{
    lemma_extract_command_round_trip(w1, w2, w3, c);
    lemma_known_command_label(w1 + c + w2, k);
    lemma_known_command_label(w1 + "php artisan "@ + w3 + c + w2, k);
    lemma_known_command_label(w1 + "artisan "@ + w3 + c + w2, k);
}

/// Each named route, route URI and model property is offered as an item
/// whose label and inserted text are the name itself, and each controller
/// as an item inserting `<name>::class`.
pub proof fn lemma_items_insert_names(idx: LaravelIndex, i: int)
    ensures
        ({
            let e = all_entries(idx);
            let r = idx.routes.deep_view();
            let u = idx.route_uris.deep_view();
            let b = idx.blade_components.deep_view();
            let m = idx.model_properties.deep_view();
            let c = idx.controllers.deep_view();
            &&& 0 <= i < r.len() ==> e[i].0 == r[i] && e[i].3 == r[i]
            &&& 0 <= i < u.len() ==> e[r.len() + i].0 == u[i] && e[r.len() + i].3 == u[i]
            &&& 0 <= i < m.len() ==> e[r.len() + u.len() + b.len() + i].0 == m[i] && e[r.len() + u.len()
                + b.len() + i].3 == m[i]
            &&& 0 <= i < c.len() ==> e[r.len() + u.len() + b.len() + m.len() + i].0 == c[i] && e[r.len()
                + u.len() + b.len() + m.len() + i].3 == c[i] + "::class"@
        }),
{
    let r = idx.routes.deep_view().map_values(section_entry_fn(Section::Route));
    let u = idx.route_uris.deep_view().map_values(section_entry_fn(Section::Uri));
    let b = idx.blade_components.deep_view().map_values(section_entry_fn(Section::Component));
    let m = idx.model_properties.deep_view().map_values(section_entry_fn(Section::Property));
    let c = idx.controllers.deep_view().map_values(section_entry_fn(Section::Controller));
    let t = helper_signatures().map_values(helper_entry_fn()) + facade_classes().map_values(facade_entry_fn())
        + blade_directives().map_values(directive_entry_fn());
    let e = all_entries(idx);
    assert(e =~= r + u + b + m + c + t);
    let ru = r + u;
    let rub = ru + b;
    let rubm = rub + m;
    let rubmc = rubm + c;
    if 0 <= i < r.len() {
        assert(e[i] == r[i]);
    }
    if 0 <= i < u.len() {
        assert(e[r.len() + i] == u[i]);
    }
    if 0 <= i < m.len() {
        assert(e[rub.len() + i] == m[i]);
    }
    if 0 <= i < c.len() {
        assert(e[rubm.len() + i] == c[i]);
    }
}

} // verus!
