//! Built-in Laravel helpers, facades and Blade directives, the code labels
//! shown for completions, and the helper functions a project declares.
use vstd::prelude::*;
use vstd::utf8::encode_utf8;
use crate::text::{at_str, concat2, concat3, names_contain, owned, starts_with, str_views, string_of, to_chars, trim, trim_str};

verus! {

/// Built-in Laravel helper functions.
pub open spec fn laravel_helpers() -> Seq<&'static str> {
    seq![
        "abort",
        "abort_if",
        "abort_unless",
        "action",
        "app",
        "app_path",
        "asset",
        "auth",
        "back",
        "base_path",
        "bcrypt",
        "blank",
        "broadcast",
        "cache",
        "config",
        "config_path",
        "cookie",
        "csrf_field",
        "csrf_token",
        "database_path",
        "dd",
        "dispatch",
        "dispatch_sync",
        "dump",
        "encrypt",
        "env",
        "event",
        "fake",
        "filled",
        "info",
        "lang_path",
        "logger",
        "method_field",
        "mix",
        "now",
        "old",
        "optional",
        "policy",
        "public_path",
        "redirect",
        "report",
        "report_if",
        "report_unless",
        "request",
        "rescue",
        "resolve",
        "resource",
        "resource_path",
        "response",
        "retry",
        "route",
        "secure_asset",
        "secure_url",
        "session",
        "storage_path",
        "str",
        "tap",
        "throw_if",
        "throw_unless",
        "today",
        "trans",
        "trans_choice",
        "to_route",
        "url",
        "validator",
        "value",
        "view",
        "with",
    ]
}

pub fn laravel_helper_list() -> (v: Vec<&'static str>)
    ensures
        v@ == laravel_helpers(),
{
    vec![
        "abort",
        "abort_if",
        "abort_unless",
        "action",
        "app",
        "app_path",
        "asset",
        "auth",
        "back",
        "base_path",
        "bcrypt",
        "blank",
        "broadcast",
        "cache",
        "config",
        "config_path",
        "cookie",
        "csrf_field",
        "csrf_token",
        "database_path",
        "dd",
        "dispatch",
        "dispatch_sync",
        "dump",
        "encrypt",
        "env",
        "event",
        "fake",
        "filled",
        "info",
        "lang_path",
        "logger",
        "method_field",
        "mix",
        "now",
        "old",
        "optional",
        "policy",
        "public_path",
        "redirect",
        "report",
        "report_if",
        "report_unless",
        "request",
        "rescue",
        "resolve",
        "resource",
        "resource_path",
        "response",
        "retry",
        "route",
        "secure_asset",
        "secure_url",
        "session",
        "storage_path",
        "str",
        "tap",
        "throw_if",
        "throw_unless",
        "today",
        "trans",
        "trans_choice",
        "to_route",
        "url",
        "validator",
        "value",
        "view",
        "with",
    ]
}

/// Built-in Laravel facades.
pub open spec fn laravel_facades() -> Seq<&'static str> {
    seq![
        "App",
        "Artisan",
        "Auth",
        "Blade",
        "Broadcast",
        "Bus",
        "Cache",
        "Config",
        "Cookie",
        "Crypt",
        "DB",
        "Event",
        "File",
        "Gate",
        "Hash",
        "Http",
        "Lang",
        "Log",
        "Mail",
        "Notification",
        "Password",
        "Queue",
        "Redirect",
        "Request",
        "Response",
        "Route",
        "Schema",
        "Session",
        "Storage",
        "URL",
        "Validator",
        "View",
    ]
}

pub fn laravel_facade_list() -> (v: Vec<&'static str>)
    ensures
        v@ == laravel_facades(),
{
    vec![
        "App",
        "Artisan",
        "Auth",
        "Blade",
        "Broadcast",
        "Bus",
        "Cache",
        "Config",
        "Cookie",
        "Crypt",
        "DB",
        "Event",
        "File",
        "Gate",
        "Hash",
        "Http",
        "Lang",
        "Log",
        "Mail",
        "Notification",
        "Password",
        "Queue",
        "Redirect",
        "Request",
        "Response",
        "Route",
        "Schema",
        "Session",
        "Storage",
        "URL",
        "Validator",
        "View",
    ]
}

/// Blade directives.
pub open spec fn blade_directives() -> Seq<&'static str> {
    seq![
        "@csrf",
        "@method",
        "@yield",
        "@section",
        "@show",
        "@extends",
        "@include",
        "@foreach",
        "@for",
        "@while",
        "@if",
        "@elseif",
        "@else",
        "@endif",
        "@isset",
        "@empty",
        "@auth",
        "@guest",
        "@switch",
        "@case",
        "@break",
        "@default",
    ]
}

pub fn blade_directive_list() -> (v: Vec<&'static str>)
    ensures
        v@ == blade_directives(),
{
    vec![
        "@csrf",
        "@method",
        "@yield",
        "@section",
        "@show",
        "@extends",
        "@include",
        "@foreach",
        "@for",
        "@while",
        "@if",
        "@elseif",
        "@else",
        "@endif",
        "@isset",
        "@empty",
        "@auth",
        "@guest",
        "@switch",
        "@case",
        "@break",
        "@default",
    ]
}

/// Returns true if a name is a known Laravel helper.
pub fn is_laravel_helper(name: &str) -> (b: bool)
    ensures
        b == str_views(laravel_helpers()).contains(name@),
{
    names_contain(&laravel_helper_list(), name)
}

/// Returns true if a name is a known Laravel facade.
pub fn is_laravel_facade(name: &str) -> (b: bool)
    ensures
        b == str_views(laravel_facades()).contains(name@),
{
    names_contain(&laravel_facade_list(), name)
}

/// Returns true if a name is a known Blade directive.
pub fn is_blade_directive(name: &str) -> (b: bool)
    ensures
        b == str_views(blade_directives()).contains(name@),
{
    names_contain(&blade_directive_list(), name)
}

/// The kind of an LSP completion.
pub enum CompletionKind {
    Text,
    Method,
    Function,
    Constructor,
    Field,
    Variable,
    Class,
    Interface,
    Module,
    Property,
    Unit,
    Value,
    Enum,
    Keyword,
    Snippet,
    Color,
    File,
    Reference,
    Folder,
    EnumMember,
    Constant,
    Struct,
    Event,
    Operator,
    TypeParameter,
    Other(i32),
}

/// Label details for an LSP completion.
pub struct CompletionLabelDetails {
    pub detail: Option<String>,
    pub description: Option<String>,
}

/// Defines how to interpret the insert text in a completion item.
pub enum InsertTextFormat {
    PlainText,
    Snippet,
    Other(i32),
}

/// An LSP completion as the editor hands it to the extension.
pub struct Completion {
    pub label: String,
    pub label_details: Option<CompletionLabelDetails>,
    pub detail: Option<String>,
    pub kind: Option<CompletionKind>,
    pub insert_text_format: Option<InsertTextFormat>,
}

/// A range of byte offsets, end exclusive.
pub struct Range {
    pub start: u32,
    pub end: u32,
}

/// Literal text of a code label, with an optional highlight name.
pub struct CodeLabelSpanLiteral {
    pub text: String,
    pub highlight_name: Option<String>,
}

/// A span of a code label: a range of its code, or a literal.
pub enum CodeLabelSpan {
    CodeRange(Range),
    Literal(CodeLabelSpanLiteral),
}

/// How a completion is displayed: code to highlight, the spans that make up
/// the label, and the range of the label used for filtering.
pub struct CodeLabel {
    pub code: String,
    pub spans: Vec<CodeLabelSpan>,
    pub filter_range: Range,
}

/// A span as plain values: a range of `code`, or a literal with its highlight.
pub enum SpanView {
    CodeRange(u32, u32),
    Literal(Seq<char>, Option<Seq<char>>),
}

impl View for CodeLabelSpan {
    type V = SpanView;

    open spec fn view(&self) -> SpanView {
        match self {
            CodeLabelSpan::CodeRange(r) => SpanView::CodeRange(r.start, r.end),
            CodeLabelSpan::Literal(l) => SpanView::Literal(
                l.text@,
                match &l.highlight_name {
                    Some(h) => Some(h@),
                    None => None,
                },
            ),
        }
    }
}

impl View for CodeLabel {
    type V = (Seq<char>, Seq<SpanView>, (u32, u32));

    open spec fn view(&self) -> (Seq<char>, Seq<SpanView>, (u32, u32)) {
        (self.code@, self.spans@.map_values(|x: CodeLabelSpan| x@), (self.filter_range.start, self.filter_range.end))
    }
}

pub open spec fn label_view(r: Option<CodeLabel>) -> Option<(Seq<char>, Seq<SpanView>, (u32, u32))> {
    match r {
        Some(l) => Some(l@),
        None => None,
    }
}

/// Length in bytes of the UTF-8 encoding of `s` (`str::len`).
pub open spec fn utf8_len(s: Seq<char>) -> nat {
    encode_utf8(s).len()
}

/// A label whose code is `prefix ++ label ++ suffix` and whose one span is
/// the label itself; `p` is the byte length of `prefix`.
pub open spec fn ranged_label(code: Seq<char>, label: Seq<char>, p: nat) -> (Seq<char>, Seq<SpanView>, (u32, u32)) {
    let n = utf8_len(label);
    (code, seq![SpanView::CodeRange(p as u32, (p + n) as u32)], (0u32, n as u32))
}

/// A label that shows `label` literally with the given highlight.
pub open spec fn literal_label(label: Seq<char>, highlight: Seq<char>) -> (Seq<char>, Seq<SpanView>, (u32, u32)) {
    (label, seq![SpanView::Literal(label, Some(highlight))], (0u32, utf8_len(label) as u32))
}

/// Whether the byte offsets of the label that `kind` gives `label` fit in
/// `u32`: the span of a `fn`, `class` or `const` label ends past its
/// prefix (3 or 6 bytes), a `$` label is one byte longer, and a literal
/// label is as long as its text.
pub open spec fn label_fits(label: Seq<char>, kind: Option<CompletionKind>) -> bool {
    let n = utf8_len(label);
    match kind {
        None => true,
        Some(k) => match k {
            CompletionKind::Function | CompletionKind::Method => n + 3 <= u32::MAX,
            CompletionKind::Class | CompletionKind::Interface | CompletionKind::Struct
            | CompletionKind::Constant => n + 6 <= u32::MAX,
            CompletionKind::Variable | CompletionKind::Field | CompletionKind::Property => n + 1 <= u32::MAX,
            CompletionKind::Keyword | CompletionKind::Snippet | CompletionKind::Module => n <= u32::MAX,
            _ => true,
        },
    }
}

/// The code label for a completion with this label and kind.
pub open spec fn code_label(label: Seq<char>, kind: Option<CompletionKind>) -> Option<(Seq<char>, Seq<SpanView>, (u32, u32))> {
    match kind {
        None => None,
        Some(k) => match k {
            CompletionKind::Function | CompletionKind::Method => Some(
                ranged_label("fn "@ + label + "()"@, label, 3),
            ),
            CompletionKind::Class | CompletionKind::Interface | CompletionKind::Struct => Some(
                ranged_label("class "@ + label, label, 6),
            ),
            CompletionKind::Constant => Some(ranged_label("const "@ + label, label, 6)),
            CompletionKind::Variable | CompletionKind::Field | CompletionKind::Property => {
                let len = (1 + utf8_len(label)) as u32;
                Some(("$"@ + label, seq![SpanView::CodeRange(0u32, len)], (1u32, len)))
            },
            CompletionKind::Keyword => Some(literal_label(label, "keyword"@)),
            CompletionKind::Snippet => Some(
                literal_label(
                    label,
                    if str_views(blade_directives()).contains(label) {
                        "string.special"@
                    } else {
                        "snippet"@
                    },
                ),
            ),
            CompletionKind::Module => Some(literal_label(label, "namespace"@)),
            _ => None,
        },
    }
}

fn code_range_label(code: String, start: u32, n: u32) -> (r: CodeLabel)
    requires
        start + n <= u32::MAX,
    ensures
        r@ == (code@, seq![SpanView::CodeRange(start, (start + n) as u32)], (0u32, n)),
{
    let mut spans: Vec<CodeLabelSpan> = Vec::new();
    spans.push(CodeLabelSpan::CodeRange(Range { start, end: start + n }));
    let r = CodeLabel { code, spans, filter_range: Range { start: 0, end: n } };
    assert(r.spans@.map_values(|x: CodeLabelSpan| x@) =~= seq![SpanView::CodeRange(start, (start + n) as u32)]);
    r
}

fn literal_code_label(label: &str, highlight: &str) -> (r: CodeLabel)
    requires
        utf8_len(label@) <= u32::MAX,
    ensures
        r@ == literal_label(label@, highlight@),
{
    let n = label.len() as u32;
    let mut spans: Vec<CodeLabelSpan> = Vec::new();
    spans.push(CodeLabelSpan::Literal(CodeLabelSpanLiteral { text: owned(label), highlight_name: Some(owned(highlight)) }));
    let r = CodeLabel { code: owned(label), spans, filter_range: Range { start: 0, end: n } };
    assert(r.spans@.map_values(|x: CodeLabelSpan| x@) =~= seq![SpanView::Literal(label@, Some(highlight@))]);
    r
}

/// The code label shown for a completion, by its kind: functions as
/// `fn name()`, classes as `class Name`, constants as `const NAME`,
/// variables as `$name`, keywords, snippets and modules as their label
/// with a highlight; no label for other kinds or without a kind.
pub fn build_label(completion: &Completion) -> (r: Option<CodeLabel>)
    requires
        label_fits(completion.label@, completion.kind),
    ensures
        label_view(r) == code_label(completion.label@, completion.kind),
{
    let label = completion.label.as_str();
    let kind = match &completion.kind {
        Some(k) => k,
        None => {
            return None;
        },
    };
    let n = label.len() as u32;
    match kind {
        CompletionKind::Function | CompletionKind::Method => {
            let code = concat3("fn ", label, "()");
            Some(code_range_label(code, 3, n))
        },
        CompletionKind::Class | CompletionKind::Interface | CompletionKind::Struct => {
            let code = concat2("class ", label);
            Some(code_range_label(code, 6, n))
        },
        CompletionKind::Constant => {
            let code = concat2("const ", label);
            Some(code_range_label(code, 6, n))
        },
        CompletionKind::Variable | CompletionKind::Field | CompletionKind::Property => {
            let code = concat2("$", label);
            let len = n + 1;
            let mut spans: Vec<CodeLabelSpan> = Vec::new();
            spans.push(CodeLabelSpan::CodeRange(Range { start: 0, end: len }));
            let r = CodeLabel { code, spans, filter_range: Range { start: 1, end: len } };
            assert(r.spans@.map_values(|x: CodeLabelSpan| x@) =~= seq![SpanView::CodeRange(0u32, len)]);
            Some(r)
        },
        CompletionKind::Keyword => Some(literal_code_label(label, "keyword")),
        CompletionKind::Snippet => {
            let style = if is_blade_directive(label) {
                "string.special"
            } else {
                "snippet"
            };
            Some(literal_code_label(label, style))
        },
        CompletionKind::Module => Some(literal_code_label(label, "namespace")),
        _ => None,
    }
}

// ----- project helpers -----

/// Position of the first `'\n'` at or after `i`, or the end of `s`.
pub open spec fn next_newline(s: Seq<char>, i: int) -> int
    decreases s.len() - i,
{
    if i < 0 || i >= s.len() {
        s.len() as int
    } else if s[i] == '\n' {
        i
    } else {
        next_newline(s, i + 1)
    }
}

/// A line without its trailing `'\r'`, if any.
pub open spec fn strip_cr(l: Seq<char>) -> Seq<char> {
    if l.len() > 0 && l.last() == '\r' {
        l.drop_last()
    } else {
        l
    }
}

/// The lines of `s` (`str::lines`): split at `'\n'`, a `'\r'` before the
/// `'\n'` dropped too, and no empty line after a final `'\n'`.
pub open spec fn text_lines(s: Seq<char>) -> Seq<Seq<char>>
    decreases s.len(),
{
    if s.len() == 0 {
        Seq::empty()
    } else {
        let k = next_newline(s, 0);
        proof {
            lemma_next_newline(s, 0);
        }
        if k < s.len() {
            seq![strip_cr(s.take(k))] + text_lines(s.skip(k + 1))
        } else {
            seq![s]
        }
    }
}

/// Position of the first `(` at or after `i`, or the end of `s`.
pub open spec fn next_paren(s: Seq<char>, i: int) -> int
    decreases s.len() - i,
{
    if i < 0 || i >= s.len() {
        s.len() as int
    } else if s[i] == '(' {
        i
    } else {
        next_paren(s, i + 1)
    }
}

/// The helper a line declares: on a line that reads `function name(...`
/// once trimmed, the text between `function ` and the first `(`.
pub open spec fn helper_of_line(l: Seq<char>) -> Option<Seq<char>> {
    let t = trim(l);
    if starts_with(t, "function "@) {
        let rest = t.skip("function "@.len() as int);
        Some(rest.take(next_paren(rest, 0)))
    } else {
        None
    }
}

pub open spec fn helper_of_line_fn() -> spec_fn(Seq<char>) -> Option<Seq<char>> {
    |l: Seq<char>| helper_of_line(l)
}

/// The helpers declared in one file.
pub open spec fn helpers_in(content: Seq<char>) -> Seq<Seq<char>> {
    text_lines(content).filter_map(helper_of_line_fn())
}

pub open spec fn helpers_in_fn() -> spec_fn(Seq<char>) -> Seq<Seq<char>> {
    |c: Seq<char>| helpers_in(c)
}

pub proof fn lemma_next_newline(s: Seq<char>, i: int)
    requires
        0 <= i <= s.len(),
    ensures
        i <= next_newline(s, i) <= s.len(),
        next_newline(s, i) < s.len() ==> s[next_newline(s, i)] == '\n',
    decreases s.len() - i,
{
    if i < s.len() && s[i] != '\n' {
        lemma_next_newline(s, i + 1);
    }
}

/// The helper declared by one line, if any.
pub fn helper_of(line: &str) -> (r: Option<String>)
    ensures
        r.deep_view() == helper_of_line(line@),
{
    let t = trim_str(line);
    let v = to_chars(t);
    if !at_str(&v, 0, "function ") {
        return None;
    }
    let start = "function ".unicode_len();
    let mut j = start;
    let ghost rest = v@.skip(start as int);
    assert(rest.skip(0) =~= rest);
    while j < v.len() && v[j] != '('
        invariant
            start <= j <= v@.len(),
            rest == v@.skip(start as int),
            start + next_paren(rest, (j - start) as int) == start + next_paren(rest, 0),
        decreases v@.len() - j,
    {
        assert(rest[(j - start) as int] == v@[j as int]);
        j = j + 1;
    }
    proof {
        if j < v@.len() {
            assert(rest[(j - start) as int] == v@[j as int]);
        }
    }
    let name = string_of(&v, start, j);
    assert(rest.take(next_paren(rest, 0)) =~= v@.subrange(start as int, j as int));
    Some(name)
}

/// The lines of `s` from position `i` on: the first one ends at the next
/// `'\n'` (at `j`), the rest follow it.
pub proof fn lemma_text_lines_step(s: Seq<char>, i: int, j: int)
    requires
        0 <= i < s.len(),
        j == i + next_newline(s.skip(i), 0),
    ensures
        i <= j <= s.len(),
        j < s.len() ==> s[j] == '\n',
        text_lines(s.skip(i)) == (if j < s.len() {
            seq![strip_cr(s.subrange(i, j))] + text_lines(s.skip(j + 1))
        } else {
            seq![s.subrange(i, j)]
        }),
{
    let rest = s.skip(i);
    lemma_next_newline(rest, 0);
    let k = next_newline(rest, 0);
    if k < rest.len() {
        assert(rest[k] == s[j]);
        assert(rest.take(k) =~= s.subrange(i, j));
        assert(rest.skip(k + 1) =~= s.skip(j + 1));
    } else {
        assert(rest =~= s.subrange(i, j));
        assert(text_lines(rest) =~= seq![rest]);
    }
}

/// End of the line that starts at `i` (the next `'\n'`, or the end).
fn line_end(v: &Vec<char>, i: usize) -> (j: usize)
    requires
        i <= v@.len(),
    ensures
        j == i + next_newline(v@.skip(i as int), 0),
{
    let ghost rest = v@.skip(i as int);
    let mut j = i;
    while j < v.len() && v[j] != '\n'
        invariant
            i <= j <= v@.len(),
            rest == v@.skip(i as int),
            i + next_newline(rest, (j - i) as int) == i + next_newline(rest, 0),
        decreases v@.len() - j,
    {
        assert(rest[(j - i) as int] == v@[j as int]);
        j = j + 1;
    }
    proof {
        if j < v@.len() {
            assert(rest[(j - i) as int] == v@[j as int]);
        }
    }
    j
}

/// Appends the helpers declared in `content`, line by line.
fn collect_helpers(content: &str, out: &mut Vec<String>)
    ensures
        final(out).deep_view() == old(out).deep_view() + helpers_in(content@),
{
    let v = to_chars(content);
    let ghost s = v@;
    let ghost start = out.deep_view();
    let mut i: usize = 0;
    assert(s.skip(0) =~= s);
    while i < v.len()
        invariant
            i <= s.len(),
            s == v@,
            s == content@,
            out.deep_view() + text_lines(s.skip(i as int)).filter_map(helper_of_line_fn()) =~= start
                + helpers_in(content@),
        decreases s.len() - i,
    {
        let j = line_end(&v, i);
        proof {
            lemma_text_lines_step(s, i as int, j as int);
        }
        let mut e = j;
        if j < v.len() && e > i && v[e - 1] == '\r' {
            e = e - 1;
        }
        let line = string_of(&v, i, e);
        let ghost tail = if j < s.len() {
            text_lines(s.skip(j + 1))
        } else {
            Seq::<Seq<char>>::empty()
        };
        proof {
            if j < s.len() {
                assert(strip_cr(s.subrange(i as int, j as int)) =~= line@);
            } else {
                assert(s.subrange(i as int, j as int) =~= line@);
            }
            lemma_filter_map_prepend(tail, line@, helper_of_line_fn());
        }
        let h = helper_of(line.as_str());
        let ghost before = out.deep_view();
        match h {
            Some(x) => {
                out.push(x);
                assert(out.deep_view() =~= before + seq![x@]);
            },
            None => {},
        }
        if j < v.len() {
            i = j + 1;
        } else {
            i = j;
            assert(s.skip(i as int) =~= Seq::<char>::empty());
        }
    }
    assert(s.skip(i as int) =~= Seq::<char>::empty());
}

/// `filter_map` of a sequence with one more element in front.
pub proof fn lemma_filter_map_prepend(s: Seq<Seq<char>>, x: Seq<char>, f: spec_fn(Seq<char>) -> Option<Seq<char>>)
    ensures
        (seq![x] + s).filter_map(f) == (match f(x) {
            Some(y) => seq![y],
            None => Seq::<Seq<char>>::empty(),
        }) + s.filter_map(f),
    decreases s.len(),
{
    let xs = seq![x] + s;
    let head = match f(x) {
        Some(y) => seq![y],
        None => Seq::<Seq<char>>::empty(),
    };
    if s.len() == 0 {
        assert(xs.drop_last() =~= Seq::<Seq<char>>::empty());
        assert(xs.last() == x);
        assert(xs.drop_last().filter_map(f) =~= Seq::<Seq<char>>::empty());
        assert(s.filter_map(f) =~= Seq::<Seq<char>>::empty());
        assert(xs.filter_map(f) =~= head + s.filter_map(f));
    } else {
        lemma_filter_map_prepend(s.drop_last(), x, f);
        assert(xs.drop_last() =~= seq![x] + s.drop_last());
        assert(xs.last() == s.last());
        let tail = match f(s.last()) {
            Some(y) => seq![y],
            None => Seq::<Seq<char>>::empty(),
        };
        assert(xs.filter_map(f) == xs.drop_last().filter_map(f) + tail);
        assert(s.filter_map(f) == s.drop_last().filter_map(f) + tail);
        assert(xs.filter_map(f) =~= head + s.filter_map(f));
    }
}

/// The helper functions declared in the given helper files (the text of
/// `app/helpers.php`, then of each file in `app/helpers/`), in order.
pub fn scan_project_helpers(sources: &Vec<String>) -> (r: Vec<String>)
    ensures
        r.deep_view() == sources.deep_view().flat_map(helpers_in_fn()),
{
    let ghost sv = sources.deep_view();
    let mut r: Vec<String> = Vec::new();
    let mut k: usize = 0;
    assert(sv.take(0).flat_map(helpers_in_fn()) =~= Seq::<Seq<char>>::empty());
    while k < sources.len()
        invariant
            k <= sources@.len(),
            sv == sources.deep_view(),
            r.deep_view() =~= sv.take(k as int).flat_map(helpers_in_fn()),
        decreases sources@.len() - k,
    {
        proof {
            sv.lemma_flat_map_take_append(helpers_in_fn(), k as int);
        }
        collect_helpers(sources[k].as_str(), &mut r);
        k = k + 1;
    }
    assert(sv.take(sources@.len() as int) =~= sv);
    r
}

} // verus!
