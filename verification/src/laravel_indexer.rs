//! Project indexing used inside the editor extension: Blade components,
//! `$fillable` entries, named routes, controllers, `use` imports and view
//! references. Directory walking is the caller's; these functions compute
//! on what it read.
use vstd::prelude::*;
use crate::pattern::{all_captures, capture_all, capture_first, word_flags};
use crate::php::{
    array_entries, controller_class_pattern, controller_class_steps, fillable_pattern,
    fillable_steps, named_route_pattern, named_route_steps, quoted_pattern, quoted_steps,
    use_decl_pattern, use_decl_steps, view_ref_pattern, view_ref_steps,
};
use crate::source::{files_view, is_php_name, SourceFile};
use crate::lsp::scanner::is_php_file;
use crate::lsp::indexer::BladeFile;
use crate::text::{at_lit, concat3, ends_with, has_at, owned, push_char, string_of, to_chars};

verus! {

/// The components directory as read: the names of its own entries, and
/// every file below its sub-directories, at any depth, with the names of the
/// directories that lead to it, in the order the walk found them.
pub struct ComponentListing {
    pub entries: Vec<String>,
    pub nested: Vec<BladeFile>,
}

/// `s` with every occurrence of `p` removed, scanning left to right
/// (`str::replace(p, "")`).
pub open spec fn remove_all(s: Seq<char>, p: Seq<char>) -> Seq<char>
    decreases s.len(),
{
    if s.len() == 0 || p.len() == 0 {
        s
    } else if has_at(s, 0, p) {
        remove_all(s.skip(p.len() as int), p)
    } else {
        seq![s[0]] + remove_all(s.drop_first(), p)
    }
}

/// The tag of a component file directly in the components directory.
pub open spec fn component_tag(name: Seq<char>) -> Option<Seq<char>> {
    if ends_with(name, ".blade.php"@) {
        Some("<x-"@ + remove_all(name, ".blade.php"@) + " />"@)
    } else {
        None
    }
}

/// The parts joined with `-` between them.
pub open spec fn dash_join(parts: Seq<Seq<char>>) -> Seq<char>
    decreases parts.len(),
{
    if parts.len() == 0 {
        Seq::empty()
    } else if parts.len() == 1 {
        parts[0]
    } else {
        dash_join(parts.drop_last()) + "-"@ + parts.last()
    }
}

/// The tag of a component file below the directories `dirs`: the directory
/// names and the component's name joined with `-`.
pub open spec fn nested_component_tag(dirs: Seq<Seq<char>>, name: Seq<char>) -> Option<Seq<char>> {
    if ends_with(name, ".blade.php"@) {
        Some("<x-"@ + dash_join(dirs.push(remove_all(name, ".blade.php"@))) + " />"@)
    } else {
        None
    }
}

pub open spec fn component_tag_fn() -> spec_fn(Seq<char>) -> Option<Seq<char>> {
    |n: Seq<char>| component_tag(n)
}

pub open spec fn nested_tag_fn() -> spec_fn((Seq<Seq<char>>, Seq<char>)) -> Option<Seq<char>> {
    |f: (Seq<Seq<char>>, Seq<char>)| nested_component_tag(f.0, f.1)
}

/// Tags of the top-level component files, then of those further down.
pub open spec fn blade_component_tags(
    entries: Seq<Seq<char>>,
    nested: Seq<(Seq<Seq<char>>, Seq<char>)>,
) -> Seq<Seq<char>> {
    entries.filter_map(component_tag_fn()) + nested.filter_map(nested_tag_fn())
}

/// The text after the last backslash of `s` (all of `s` when it has none):
/// `split('\\').last()`.
pub open spec fn segment_start(s: Seq<char>, j: int) -> int
    decreases j,
{
    if 0 < j <= s.len() && s[j - 1] != '\\' {
        segment_start(s, j - 1)
    } else {
        j
    }
}

pub open spec fn last_segment(s: Seq<char>) -> Seq<char> {
    s.skip(segment_start(s, s.len() as int))
}

pub open spec fn last_segment_fn() -> spec_fn(Seq<char>) -> Seq<char> {
    |s: Seq<char>| last_segment(s)
}

pub open spec fn controllers_in_fn() -> spec_fn((Seq<char>, Seq<char>)) -> Seq<Seq<char>> {
    |f: (Seq<char>, Seq<char>)|
        if is_php_name(f.0) {
            all_captures(controller_class_pattern(), f.1, word_flags(f.1))
        } else {
            Seq::empty()
        }
}

pub proof fn lemma_segment_start(s: Seq<char>, j: int)
    requires
        0 <= j <= s.len(),
    ensures
        0 <= segment_start(s, j) <= j,
    decreases j,
{
    if 0 < j && s[j - 1] != '\\' {
        lemma_segment_start(s, j - 1);
    }
}

/// `s` with every occurrence of `p` removed.
pub fn remove_all_exec(s: &Vec<char>, p: &Vec<char>) -> (r: String)
    ensures
        r@ == remove_all(s@, p@),
{
    let mut r = String::new();
    if p.len() == 0 {
        return string_of(s, 0, s.len());
    }
    let mut i: usize = 0;
    assert(s@.skip(0) =~= s@);
    assert(s@.subrange(0, s@.len() as int) =~= s@);
    while i < s.len()
        invariant
            i <= s@.len(),
            p@.len() > 0,
            r@ + remove_all(s@.skip(i as int), p@) == remove_all(s@, p@),
        decreases s@.len() - i,
    {
        let ghost rest = s@.skip(i as int);
        assert(rest.subrange(0, p@.len() as int) =~= s@.subrange(i as int, i + p@.len()) || i + p@.len()
            > s@.len());
        if at_lit(s, i, p) {
            assert(has_at(rest, 0, p@));
            assert(rest.skip(p@.len() as int) =~= s@.skip(i + p@.len()));
            i = i + p.len();
        } else {
            assert(!has_at(rest, 0, p@));
            assert(rest.drop_first() =~= s@.skip(i + 1));
            let ghost before = r@;
            push_char(&mut r, s[i]);
            assert(r@ + remove_all(s@.skip(i + 1), p@) =~= before + (seq![s@[i as int]] + remove_all(
                rest.drop_first(),
                p@,
            )));
            i = i + 1;
        }
    }
    assert(s@.skip(i as int) =~= Seq::<char>::empty());
    assert(r@ + remove_all(s@.skip(i as int), p@) =~= r@);
    r
}

/// The tag of a top-level component file, if it is one.
pub fn component_tag_of(name: &str) -> (r: Option<String>)
    ensures
        r.deep_view() == component_tag(name@),
{
    let v = to_chars(name);
    let suffix = to_chars(".blade.php");
    if suffix.len() <= v.len() && at_lit(&v, v.len() - suffix.len(), &suffix) {
        let base = remove_all_exec(&v, &suffix);
        Some(concat3("<x-", base.as_str(), " />"))
    } else {
        None
    }
}

/// `dirs` and `last` joined with `-`.
fn dash_join_exec(dirs: &Vec<String>, last: &str) -> (r: String)
    ensures
        r@ == dash_join(dirs.deep_view().push(last@)),
{
    let ghost dv = dirs.deep_view();
    let mut r = String::new();
    let mut k: usize = 0;
    assert(dv.take(0) =~= Seq::<Seq<char>>::empty());
    while k < dirs.len()
        invariant
            k <= dirs@.len(),
            dv == dirs.deep_view(),
            r@ == dash_join(dv.take(k as int)),
        decreases dirs@.len() - k,
    {
        assert(dv.take(k + 1).drop_last() =~= dv.take(k as int));
        assert(dv.take(k + 1).last() == dirs@[k as int]@);
        if k == 0 {
            assert(dv.take(1) =~= seq![dirs@[0]@]);
            r = owned(dirs[0].as_str());
        } else {
            r = concat3(r.as_str(), "-", dirs[k].as_str());
        }
        k = k + 1;
    }
    assert(dv.take(dirs@.len() as int) =~= dv);
    let ghost all = dv.push(last@);
    assert(all.drop_last() =~= dv);
    if dirs.len() == 0 {
        assert(all =~= seq![last@]);
        owned(last)
    } else {
        concat3(r.as_str(), "-", last)
    }
}

/// The tag of a component file further down, if it is one.
pub fn nested_component_tag_of(f: &BladeFile) -> (r: Option<String>)
    ensures
        r.deep_view() == nested_component_tag(f.dirs.deep_view(), f.name@),
{
    let v = to_chars(f.name.as_str());
    let suffix = to_chars(".blade.php");
    if suffix.len() <= v.len() && at_lit(&v, v.len() - suffix.len(), &suffix) {
        let base = remove_all_exec(&v, &suffix);
        let name = dash_join_exec(&f.dirs, base.as_str());
        Some(concat3("<x-", name.as_str(), " />"))
    } else {
        None
    }
}

/// The tags of the top-level entries, in order.
fn top_level_tags(names: &Vec<String>) -> (r: Vec<String>)
    ensures
        r.deep_view() == names.deep_view().filter_map(component_tag_fn()),
{
    let ghost nv = names.deep_view();
    let mut r: Vec<String> = Vec::new();
    let mut i: usize = 0;
    assert(nv.take(0) =~= Seq::<Seq<char>>::empty());
    while i < names.len()
        invariant
            i <= names@.len(),
            nv == names.deep_view(),
            r.deep_view() =~= nv.take(i as int).filter_map(component_tag_fn()),
        decreases names@.len() - i,
    {
        let t = component_tag_of(names[i].as_str());
        proof {
            nv.lemma_filter_map_take_succ(component_tag_fn(), i as int);
            assert(nv[i as int] == names@[i as int]@);
        }
        let ghost before = r.deep_view();
        match t {
            Some(x) => {
                r.push(x);
                assert(r.deep_view() =~= before + seq![x@]);
            },
            None => {},
        }
        i = i + 1;
    }
    assert(nv.take(names@.len() as int) =~= nv);
    r
}

/// Components of the listing as `<x-name />` tags: first the top-level
/// `*.blade.php` entries, then those further down as `<x-dir-sub-name />`.
pub fn get_blade_components(listing: &ComponentListing) -> (r: Vec<String>)
    ensures
        r.deep_view() == blade_component_tags(
            listing.entries.deep_view(),
            listing.nested@.map_values(|f: BladeFile| f@),
        ),
{
    let mut r = top_level_tags(&listing.entries);
    let ghost fv = listing.nested@.map_values(|f: BladeFile| f@);
    let ghost head = r.deep_view();
    let mut k: usize = 0;
    assert(fv.take(0) =~= Seq::<(Seq<Seq<char>>, Seq<char>)>::empty());
    assert(r.deep_view() =~= head + fv.take(0).filter_map(nested_tag_fn()));
    while k < listing.nested.len()
        invariant
            k <= listing.nested@.len(),
            fv == listing.nested@.map_values(|f: BladeFile| f@),
            head == listing.entries.deep_view().filter_map(component_tag_fn()),
            r.deep_view() =~= head + fv.take(k as int).filter_map(nested_tag_fn()),
        decreases listing.nested@.len() - k,
    {
        let t = nested_component_tag_of(&listing.nested[k]);
        proof {
            fv.lemma_filter_map_take_succ(nested_tag_fn(), k as int);
            assert(fv[k as int] == listing.nested@[k as int]@);
        }
        let ghost before = r.deep_view();
        match t {
            Some(x) => {
                r.push(x);
                assert(r.deep_view() =~= before + seq![x@]);
            },
            None => {},
        }
        k = k + 1;
    }
    assert(fv.take(listing.nested@.len() as int) =~= fv);
    r
}

/// Entries of the model's `$fillable` array, single- or double-quoted.
pub fn extract_fillable(content: &str) -> (r: Vec<String>)
    ensures
        r.deep_view() == array_entries(fillable_pattern(), quoted_pattern(), content@),
{
    match capture_first(&fillable_steps(), content) {
        Some(body) => capture_all(&quoted_steps(), body.as_str()),
        None => {
            let r: Vec<String> = Vec::new();
            assert(r.deep_view() =~= Seq::<Seq<char>>::empty());
            r
        },
    }
}

/// Every route name passed to `->name(...)`.
pub fn extract_routes(content: &str) -> (r: Vec<String>)
    ensures
        r.deep_view() == all_captures(named_route_pattern(), content@, word_flags(content@)),
{
    capture_all(&named_route_steps(), content)
}

/// Short class names of `class XxxController` declarations in the given
/// files, taking the PHP files only, in order.
pub fn get_controllers(files: &Vec<SourceFile>) -> (r: Vec<String>)
    ensures
        r.deep_view() == files_view(files@).flat_map(controllers_in_fn()),
{
    let ghost fv = files_view(files@);
    let mut r: Vec<String> = Vec::new();
    let mut k: usize = 0;
    assert(fv.take(0).flat_map(controllers_in_fn()) =~= Seq::<Seq<char>>::empty());
    while k < files.len()
        invariant
            k <= files@.len(),
            fv == files_view(files@),
            r.deep_view() =~= fv.take(k as int).flat_map(controllers_in_fn()),
        decreases files@.len() - k,
    {
        proof {
            fv.lemma_flat_map_take_append(controllers_in_fn(), k as int);
            assert(fv[k as int] == files@[k as int]@);
        }
        if is_php_file(files[k].name.as_str()) {
            let mut found = capture_all(&controller_class_steps(), files[k].content.as_str());
            let ghost before = r.deep_view();
            let ghost extra = found.deep_view();
            r.append(&mut found);
            assert(r.deep_view() =~= before + extra);
        } else {
            assert(controllers_in_fn()(fv[k as int]) =~= Seq::<Seq<char>>::empty());
        }
        k = k + 1;
    }
    assert(fv.take(files@.len() as int) =~= fv);
    r
}

/// The last segment (after the final `\`) of `s`.
pub fn last_segment_of(s: &str) -> (r: String)
    ensures
        r@ == last_segment(s@),
{
    let v = to_chars(s);
    let mut j = v.len();
    while j > 0 && v[j - 1] != '\\'
        invariant
            j <= v@.len(),
            segment_start(v@, j as int) == segment_start(v@, v@.len() as int),
        decreases j,
    {
        j = j - 1;
    }
    string_of(&v, j, v.len())
}

/// Short names of the classes imported by `use A\B\C;` lines.
pub fn extract_use_statements(content: &str) -> (r: Vec<String>)
    ensures
        r.deep_view() == all_captures(use_decl_pattern(), content@, word_flags(content@)).map_values(
            last_segment_fn(),
        ),
{
    let paths = capture_all(&use_decl_steps(), content);
    let ghost pv = paths.deep_view();
    let mut r: Vec<String> = Vec::new();
    let mut k: usize = 0;
    while k < paths.len()
        invariant
            k <= paths@.len(),
            pv == paths.deep_view(),
            r.deep_view() =~= pv.take(k as int).map_values(last_segment_fn()),
        decreases paths@.len() - k,
    {
        let seg = last_segment_of(paths[k].as_str());
        let ghost before = r.deep_view();
        r.push(seg);
        assert(r.deep_view() =~= before.push(seg@));
        assert(pv.take(k + 1) =~= pv.take(k as int).push(pv[k as int]));
        assert(pv[k as int] == paths@[k as int]@);
        assert(pv.take(k + 1).map_values(last_segment_fn()) =~= pv.take(k as int).map_values(
            last_segment_fn(),
        ).push(last_segment(pv[k as int])));
        k = k + 1;
    }
    assert(pv.take(paths@.len() as int) =~= pv);
    r
}

/// View names passed to `view('...')`.
pub fn extract_view_references(content: &str) -> (r: Vec<String>)
    ensures
        r.deep_view() == all_captures(view_ref_pattern(), content@, word_flags(content@)),
{
    capture_all(&view_ref_steps(), content)
}

} // verus!
