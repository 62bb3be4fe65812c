//! The language server's indexer: Blade component tags, controller names,
//! model arrays, routes and class names, computed on file names and texts
//! that the caller read.
use vstd::prelude::*;
use crate::pattern::{all_captures, capture_all, capture_first, first_capture, word_flags};
use crate::php::{
    array_entries, array_key_pattern, array_key_steps, casts_pattern, casts_steps,
    class_decl_pattern, class_decl_steps, fillable_pattern, fillable_steps, guarded_pattern,
    guarded_steps, named_route_pattern, named_route_steps, namespace_decl_pattern,
    namespace_decl_steps, quoted_pattern, quoted_steps, route_uri_pattern, route_uri_steps,
};
use crate::source::{files_view, is_php_name, SourceFile};
use crate::lsp::scanner::is_php_file;
use crate::text::{at_lit, concat3, ends_with, owned, push_char, string_of, to_chars};

verus! {

/// A file under `resources/views/components`: the names of the directories
/// between that directory and the file, outermost first, and its own name.
pub struct BladeFile {
    pub dirs: Vec<String>,
    pub name: String,
}

impl View for BladeFile {
    type V = (Seq<Seq<char>>, Seq<char>);

    open spec fn view(&self) -> (Seq<Seq<char>>, Seq<char>) {
        (self.dirs.deep_view(), self.name@)
    }
}

/// `p.x`, or `x` alone when `p` is empty.
pub open spec fn join_dot(p: Seq<char>, x: Seq<char>) -> Seq<char> {
    if p.len() == 0 {
        x
    } else {
        p + "."@ + x
    }
}

/// The dotted prefix built while descending through `dirs`.
pub open spec fn dotted_prefix(dirs: Seq<Seq<char>>) -> Seq<char>
    decreases dirs.len(),
{
    if dirs.len() == 0 {
        Seq::empty()
    } else {
        join_dot(dotted_prefix(dirs.drop_last()), dirs.last())
    }
}

/// `s` with `p` removed from its end as many times as it occurs there
/// (`trim_end_matches`).
pub open spec fn strip_suffixes(s: Seq<char>, p: Seq<char>) -> Seq<char>
    decreases s.len(),
{
    if p.len() > 0 && ends_with(s, p) {
        strip_suffixes(s.take(s.len() - p.len()), p)
    } else {
        s
    }
}

/// `s` with every `.` turned into `-`.
pub open spec fn dots_to_dashes(s: Seq<char>) -> Seq<char> {
    s.map_values(|c: char| if c == '.' { '-' } else { c })
}

/// The `<x-...  />` tag of a component file, or `None` for other files.
pub open spec fn blade_tag(dirs: Seq<Seq<char>>, name: Seq<char>) -> Option<Seq<char>> {
    if ends_with(name, ".blade.php"@) {
        Some(
            "<x-"@ + dots_to_dashes(join_dot(dotted_prefix(dirs), strip_suffixes(name, ".blade.php"@)))
                + " />"@,
        )
    } else {
        None
    }
}

pub open spec fn blade_tag_fn() -> spec_fn((Seq<Seq<char>>, Seq<char>)) -> Option<Seq<char>> {
    |f: (Seq<Seq<char>>, Seq<char>)| blade_tag(f.0, f.1)
}

pub open spec fn opt_seq(o: Option<Seq<char>>) -> Seq<Seq<char>> {
    match o {
        Some(x) => seq![x],
        None => Seq::empty(),
    }
}

/// The class declared by a PHP file's text (first match).
pub open spec fn class_name_of(s: Seq<char>) -> Option<Seq<char>> {
    first_capture(class_decl_pattern(), s, word_flags(s))
}

pub open spec fn class_names_fn() -> spec_fn((Seq<char>, Seq<char>)) -> Seq<Seq<char>> {
    |f: (Seq<char>, Seq<char>)|
        if is_php_name(f.0) {
            opt_seq(class_name_of(f.1))
        } else {
            Seq::empty()
        }
}

/// The namespace declared by a PHP file's text (first match).
pub open spec fn namespace_of(s: Seq<char>) -> Option<Seq<char>> {
    first_capture(namespace_decl_pattern(), s, word_flags(s))
}

/// `Namespace\Class`, when the text declares both.
pub open spec fn fqn_of(s: Seq<char>) -> Option<Seq<char>> {
    match (namespace_of(s), class_name_of(s)) {
        (Some(n), Some(c)) => Some(n + "\\"@ + c),
        _ => None,
    }
}

fn strip_suffixes_exec(s: &Vec<char>, p: &Vec<char>) -> (r: usize)
    ensures
        r <= s@.len(),
        s@.take(r as int) == strip_suffixes(s@, p@),
{
    let mut e = s.len();
    assert(s@.take(e as int) =~= s@);
    while p.len() > 0 && p.len() <= e && at_lit(s, e - p.len(), p)
        invariant
            e <= s@.len(),
            strip_suffixes(s@.take(e as int), p@) == strip_suffixes(s@, p@),
        decreases e,
    {
        let ghost t = s@.take(e as int);
        assert(t.subrange(e - p@.len(), e as int) =~= s@.subrange(e - p@.len(), e as int));
        assert(ends_with(t, p@));
        assert(t.take(t.len() - p@.len()) =~= s@.take(e - p@.len()));
        e = e - p.len();
    }
    proof {
        let t = s@.take(e as int);
        if p@.len() > 0 && p@.len() <= e {
            assert(t.subrange(e - p@.len(), e as int) =~= s@.subrange(e - p@.len(), e as int));
        }
    }
    e
}

/// The tag of one component file, if it is one.
pub fn blade_tag_of(f: &BladeFile) -> (r: Option<String>)
    ensures
        r.deep_view() == blade_tag(f.dirs.deep_view(), f.name@),
{
    let v = to_chars(f.name.as_str());
    let suffix = to_chars(".blade.php");
    if !(suffix.len() <= v.len() && at_lit(&v, v.len() - suffix.len(), &suffix)) {
        return None;
    }
    // the dotted prefix, built as the directory walk builds it
    let mut prefix = String::new();
    let mut k: usize = 0;
    assert(f.dirs.deep_view().take(0) =~= Seq::<Seq<char>>::empty());
    while k < f.dirs.len()
        invariant
            k <= f.dirs@.len(),
            prefix@ == dotted_prefix(f.dirs.deep_view().take(k as int)),
        decreases f.dirs@.len() - k,
    {
        let ghost dv = f.dirs.deep_view();
        assert(dv.take(k + 1).drop_last() =~= dv.take(k as int));
        assert(dv.take(k + 1).last() == f.dirs@[k as int]@);
        if prefix.as_str().unicode_len() == 0 {
            prefix = owned(f.dirs[k].as_str());
        } else {
            prefix = concat3(prefix.as_str(), ".", f.dirs[k].as_str());
        }
        k = k + 1;
    }
    assert(f.dirs.deep_view().take(f.dirs@.len() as int) =~= f.dirs.deep_view());
    let e = strip_suffixes_exec(&v, &suffix);
    let base = string_of(&v, 0, e);
    assert(v@.subrange(0, e as int) =~= v@.take(e as int));
    let name = if prefix.as_str().unicode_len() == 0 {
        base
    } else {
        concat3(prefix.as_str(), ".", base.as_str())
    };
    let chars = to_chars(name.as_str());
    let mut tag = owned("<x-");
    let ghost head = tag@;
    let mut i: usize = 0;
    while i < chars.len()
        invariant
            i <= chars@.len(),
            tag@ == head + dots_to_dashes(chars@.take(i as int)),
        decreases chars@.len() - i,
    {
        let c = chars[i];
        if c == '.' {
            push_char(&mut tag, '-');
        } else {
            push_char(&mut tag, c);
        }
        assert(dots_to_dashes(chars@.take(i + 1)) =~= dots_to_dashes(chars@.take(i as int)).push(
            if c == '.' {
                '-'
            } else {
                c
            },
        ));
        i = i + 1;
    }
    assert(chars@.take(chars@.len() as int) =~= chars@);
    tag.append(" />");
    Some(tag)
}

/// Tags of the component files, in walk order, as `<x-dir-name />`.
pub fn get_blade_components(files: &Vec<BladeFile>) -> (r: Vec<String>)
    ensures
        r.deep_view() == files@.map_values(|f: BladeFile| f@).filter_map(blade_tag_fn()),
{
    let ghost fv = files@.map_values(|f: BladeFile| f@);
    let mut r: Vec<String> = Vec::new();
    let mut i: usize = 0;
    assert(fv.take(0).filter_map(blade_tag_fn()) =~= Seq::<Seq<char>>::empty());
    while i < files.len()
        invariant
            i <= files@.len(),
            fv == files@.map_values(|f: BladeFile| f@),
            r.deep_view() =~= fv.take(i as int).filter_map(blade_tag_fn()),
        decreases files@.len() - i,
    {
        let t = blade_tag_of(&files[i]);
        proof {
            fv.lemma_filter_map_take_succ(blade_tag_fn(), i as int);
            assert(fv[i as int] == files@[i as int]@);
        }
        let ghost before = r.deep_view();
        match t {
            Some(x) => {
                r.push(x);
                assert(r.deep_view() =~= before + seq![x@]);
            },
            None => {},
        }
        i = i + 1;
    }
    assert(fv.take(files@.len() as int) =~= fv);
    r
}

/// The class declared in each PHP file that declares one, in order.
pub fn get_controllers(files: &Vec<SourceFile>) -> (r: Vec<String>)
    ensures
        r.deep_view() == files_view(files@).flat_map(class_names_fn()),
{
    let ghost fv = files_view(files@);
    let mut r: Vec<String> = Vec::new();
    let mut k: usize = 0;
    assert(fv.take(0).flat_map(class_names_fn()) =~= Seq::<Seq<char>>::empty());
    while k < files.len()
        invariant
            k <= files@.len(),
            fv == files_view(files@),
            r.deep_view() =~= fv.take(k as int).flat_map(class_names_fn()),
        decreases files@.len() - k,
    {
        proof {
            fv.lemma_flat_map_take_append(class_names_fn(), k as int);
            assert(fv[k as int] == files@[k as int]@);
        }
        let ghost before = r.deep_view();
        if is_php_file(files[k].name.as_str()) {
            match extract_class_name(files[k].content.as_str()) {
                Some(c) => {
                    r.push(c);
                    assert(r.deep_view() =~= before + seq![c@]);
                },
                None => {
                    assert(r.deep_view() =~= before + Seq::<Seq<char>>::empty());
                },
            }
        } else {
            assert(r.deep_view() =~= before + Seq::<Seq<char>>::empty());
        }
        k = k + 1;
    }
    assert(fv.take(files@.len() as int) =~= fv);
    r
}

/// Entries of the `$fillable` array. Each is non-empty (see
/// `crate::laws::lemma_quoted_captures_nonempty`).
pub fn extract_fillable(content: &str) -> (r: Vec<String>)
    ensures
        r.deep_view() == array_entries(fillable_pattern(), quoted_pattern(), content@),
{
    match capture_first(&fillable_steps(), content) {
        Some(body) => capture_all(&quoted_steps(), body.as_str()),
        None => {
            let r: Vec<String> = Vec::new();
            assert(r.deep_view() =~= Seq::<Seq<char>>::empty());
            r
        },
    }
}

/// Entries of the `$guarded` array.
pub fn extract_guarded(content: &str) -> (r: Vec<String>)
    ensures
        r.deep_view() == array_entries(guarded_pattern(), quoted_pattern(), content@),
{
    match capture_first(&guarded_steps(), content) {
        Some(body) => capture_all(&quoted_steps(), body.as_str()),
        None => {
            let r: Vec<String> = Vec::new();
            assert(r.deep_view() =~= Seq::<Seq<char>>::empty());
            r
        },
    }
}

/// Keys (`'key' =>`) of the `$casts` array.
pub fn extract_cast_keys(content: &str) -> (r: Vec<String>)
    ensures
        r.deep_view() == array_entries(casts_pattern(), array_key_pattern(), content@),
{
    match capture_first(&casts_steps(), content) {
        Some(body) => capture_all(&array_key_steps(), body.as_str()),
        None => {
            let r: Vec<String> = Vec::new();
            assert(r.deep_view() =~= Seq::<Seq<char>>::empty());
            r
        },
    }
}

/// Route names passed to `->name(...)`.
pub fn extract_routes(content: &str) -> (r: Vec<String>)
    ensures
        r.deep_view() == all_captures(named_route_pattern(), content@, word_flags(content@)),
{
    capture_all(&named_route_steps(), content)
}

/// URIs passed as first argument to `Route::verb(...)`.
pub fn extract_route_uris(content: &str) -> (r: Vec<String>)
    ensures
        r.deep_view() == all_captures(route_uri_pattern(), content@, word_flags(content@)),
{
    capture_all(&route_uri_steps(), content)
}

/// The name in the first `class Name` declaration that opens a line
/// (possibly indented, possibly `abstract` or `final`).
pub fn extract_class_name(content: &str) -> (r: Option<String>)
    ensures
        r.deep_view() == class_name_of(content@),
{
    capture_first(&class_decl_steps(), content)
}

/// The path in the first `namespace A\B;` line.
pub fn extract_namespace(content: &str) -> (r: Option<String>)
    ensures
        r.deep_view() == namespace_of(content@),
{
    capture_first(&namespace_decl_steps(), content)
}

/// The fully qualified class name: namespace, `\`, class name.
pub fn extract_fqn(content: &str) -> (r: Option<String>)
    ensures
        r.deep_view() == fqn_of(content@),
{
    let namespace = extract_namespace(content)?;
    let class = extract_class_name(content)?;
    Some(concat3(namespace.as_str(), "\\", class.as_str()))
}

} // verus!
