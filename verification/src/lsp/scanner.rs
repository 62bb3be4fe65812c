//! The language server's project index, computed from the files that the
//! caller found under `routes/`, `app/Models/`, `app/`,
//! `app/Http/Controllers/` and `resources/views/components/`.
use vstd::prelude::*;
use crate::lsp::indexer::{
    blade_tag_fn, class_names_fn, extract_fillable, extract_guarded, extract_route_uris, extract_routes,
    get_blade_components, get_controllers, BladeFile,
};
use crate::order::{sort_dedup, strictly_sorted};
use crate::pattern::{all_captures, word_flags};
use crate::php::{
    array_entries, fillable_pattern, guarded_pattern, named_route_pattern, quoted_pattern,
    route_uri_pattern,
};
use crate::source::{files_view, is_php_name, SourceFile};
use crate::text::{at_lit, to_chars};

verus! {

/// A snapshot of everything discovered about the Laravel project.
pub struct LaravelIndex {
    /// Blade component tags ready for insertion, e.g. `<x-alert />`
    pub blade_components: Vec<String>,
    /// Named route identifiers, e.g. `"home.index"`
    pub routes: Vec<String>,
    /// Route URIs, e.g. `"/users/{id}"`
    pub route_uris: Vec<String>,
    /// `$fillable` property names across all models
    pub model_properties: Vec<String>,
    /// Short controller class names, e.g. `"UserController"`
    pub controllers: Vec<String>,
}

/// The files of a project, as the directory walk found them.
pub struct ProjectSnapshot {
    /// Files (not directories) under `resources/views/components/`, recursively.
    pub blade_files: Vec<BladeFile>,
    /// Readable entries of `routes/`.
    pub route_files: Vec<SourceFile>,
    /// Readable files under `app/Models/`, recursively.
    pub model_files: Vec<SourceFile>,
    /// Readable files directly in `app/` (older layouts keep models there).
    pub legacy_files: Vec<SourceFile>,
    /// Readable files under `app/Http/Controllers/`, recursively.
    pub controller_files: Vec<SourceFile>,
}

/// What is extracted from the text of one PHP file.
pub enum Extract {
    NamedRoutes,
    RouteUris,
    Fillable,
    Guarded,
}

pub open spec fn extracted(e: Extract, s: Seq<char>) -> Seq<Seq<char>> {
    match e {
        Extract::NamedRoutes => all_captures(named_route_pattern(), s, word_flags(s)),
        Extract::RouteUris => all_captures(route_uri_pattern(), s, word_flags(s)),
        Extract::Fillable => array_entries(fillable_pattern(), quoted_pattern(), s),
        Extract::Guarded => array_entries(guarded_pattern(), quoted_pattern(), s),
    }
}

pub open spec fn php_items_fn(e: Extract) -> spec_fn((Seq<char>, Seq<char>)) -> Seq<Seq<char>> {
    |f: (Seq<char>, Seq<char>)|
        if is_php_name(f.0) {
            extracted(e, f.1)
        } else {
            Seq::empty()
        }
}

/// What `e` extracts from the PHP files among `files`, file after file.
pub open spec fn php_items(e: Extract, files: Seq<SourceFile>) -> Seq<Seq<char>> {
    files_view(files).flat_map(php_items_fn(e))
}

/// `r` lists the distinct values of `items`, in ascending order.
pub open spec fn sorted_distinct(r: Seq<Seq<char>>, items: Seq<Seq<char>>) -> bool {
    &&& strictly_sorted(r)
    &&& forall|x: Seq<char>| r.contains(x) <==> items.contains(x)
}

/// Named routes of the project, in any order, with repeats.
pub open spec fn project_route_names(p: ProjectSnapshot) -> Seq<Seq<char>> {
    php_items(Extract::NamedRoutes, p.route_files@)
}

/// Route URIs of the project, in any order, with repeats.
pub open spec fn project_route_uris(p: ProjectSnapshot) -> Seq<Seq<char>> {
    php_items(Extract::RouteUris, p.route_files@)
}

/// The model properties found in some files: their `$fillable` entries,
/// then their `$guarded` entries.
pub open spec fn model_entries(files: Seq<SourceFile>) -> Seq<Seq<char>> {
    php_items(Extract::Fillable, files) + php_items(Extract::Guarded, files)
}

/// `$fillable` and `$guarded` entries of the models, modern layout then
/// legacy layout.
pub open spec fn project_model_properties(p: ProjectSnapshot) -> Seq<Seq<char>> {
    model_entries(p.model_files@) + model_entries(p.legacy_files@)
}

/// The index that `scan_laravel_project` builds from `p`.
pub open spec fn index_of(p: ProjectSnapshot, idx: LaravelIndex) -> bool {
    &&& idx.blade_components.deep_view() == p.blade_files@.map_values(|f: BladeFile| f@).filter_map(
        blade_tag_fn(),
    )
    &&& sorted_distinct(idx.routes.deep_view(), project_route_names(p))
    &&& sorted_distinct(idx.route_uris.deep_view(), project_route_uris(p))
    &&& sorted_distinct(idx.model_properties.deep_view(), project_model_properties(p))
    &&& idx.controllers.deep_view() == files_view(p.controller_files@).flat_map(class_names_fn())
}

/// Whether a file with this name has the extension `php`.
pub fn is_php_file(name: &str) -> (b: bool)
    ensures
        b == is_php_name(name@),
{
    let v = to_chars(name);
    let suffix = to_chars(".php");
    v.len() > 4 && suffix.len() <= v.len() && at_lit(&v, v.len() - suffix.len(), &suffix)
}

fn extract_from(e: &Extract, content: &str) -> (r: Vec<String>)
    ensures
        r.deep_view() == extracted(*e, content@),
{
    match e {
        Extract::NamedRoutes => extract_routes(content),
        Extract::RouteUris => extract_route_uris(content),
        Extract::Fillable => extract_fillable(content),
        Extract::Guarded => extract_guarded(content),
    }
}

/// Appends to `out` what `e` extracts from the PHP files among `files`.
pub fn extend_from_php_files(files: &Vec<SourceFile>, e: Extract, out: &mut Vec<String>)
    ensures
        final(out).deep_view() == old(out).deep_view() + php_items(e, files@),
{
    let ghost fv = files_view(files@);
    let ghost start = out.deep_view();
    let mut k: usize = 0;
    assert(fv.take(0).flat_map(php_items_fn(e)) =~= Seq::<Seq<char>>::empty());
    assert(out.deep_view() =~= start + fv.take(0).flat_map(php_items_fn(e)));
    while k < files.len()
        invariant
            k <= files@.len(),
            fv == files_view(files@),
            out.deep_view() =~= start + fv.take(k as int).flat_map(php_items_fn(e)),
        decreases files@.len() - k,
    {
        proof {
            fv.lemma_flat_map_take_append(php_items_fn(e), k as int);
            assert(fv[k as int] == files@[k as int]@);
        }
        let ghost before = out.deep_view();
        if is_php_file(files[k].name.as_str()) {
            let mut found = extract_from(&e, files[k].content.as_str());
            let ghost extra = found.deep_view();
            out.append(&mut found);
            assert(out.deep_view() =~= before + extra);
        } else {
            assert(out.deep_view() =~= before + Seq::<Seq<char>>::empty());
        }
        k = k + 1;
    }
    assert(fv.take(files@.len() as int) =~= fv);
}

fn scan_blade_components(files: &Vec<BladeFile>) -> (r: Vec<String>)
    ensures
        r.deep_view() == files@.map_values(|f: BladeFile| f@).filter_map(blade_tag_fn()),
{
    get_blade_components(files)
}

/// Named routes and route URIs of the PHP files in `routes/`, unsorted.
fn scan_routes_dir(route_files: &Vec<SourceFile>, named_out: &mut Vec<String>, uri_out: &mut Vec<String>)
    ensures
        final(named_out).deep_view() == old(named_out).deep_view() + php_items(
            Extract::NamedRoutes,
            route_files@,
        ),
        final(uri_out).deep_view() == old(uri_out).deep_view() + php_items(
            Extract::RouteUris,
            route_files@,
        ),
{
    extend_from_php_files(route_files, Extract::NamedRoutes, named_out);
    extend_from_php_files(route_files, Extract::RouteUris, uri_out);
}

fn scan_named_routes(route_files: &Vec<SourceFile>) -> (r: Vec<String>)
    ensures
        sorted_distinct(r.deep_view(), php_items(Extract::NamedRoutes, route_files@)),
{
    let mut routes: Vec<String> = Vec::new();
    let mut unused: Vec<String> = Vec::new();
    scan_routes_dir(route_files, &mut routes, &mut unused);
    assert(routes.deep_view() =~= php_items(Extract::NamedRoutes, route_files@));
    sort_dedup(routes)
}

fn scan_route_uris(route_files: &Vec<SourceFile>) -> (r: Vec<String>)
    ensures
        sorted_distinct(r.deep_view(), php_items(Extract::RouteUris, route_files@)),
{
    let mut uris: Vec<String> = Vec::new();
    let mut unused: Vec<String> = Vec::new();
    scan_routes_dir(route_files, &mut unused, &mut uris);
    assert(uris.deep_view() =~= php_items(Extract::RouteUris, route_files@));
    sort_dedup(uris)
}

/// Appends the `$fillable`, then the `$guarded` entries of the PHP files
/// found under a models directory.
fn collect_fillable_from_dir(files: &Vec<SourceFile>, out: &mut Vec<String>)
    ensures
        final(out).deep_view() == old(out).deep_view() + model_entries(files@),
{
    let ghost start = out.deep_view();
    extend_from_php_files(files, Extract::Fillable, out);
    extend_from_php_files(files, Extract::Guarded, out);
    assert(out.deep_view() =~= start + model_entries(files@));
}

/// Appends the `$fillable`, then the `$guarded` entries of the PHP files
/// directly in a directory; files without such arrays add nothing.
fn collect_fillable_from_dir_flat(files: &Vec<SourceFile>, out: &mut Vec<String>)
    ensures
        final(out).deep_view() == old(out).deep_view() + model_entries(files@),
{
    let ghost start = out.deep_view();
    extend_from_php_files(files, Extract::Fillable, out);
    extend_from_php_files(files, Extract::Guarded, out);
    assert(out.deep_view() =~= start + model_entries(files@));
}

fn scan_model_properties(model_files: &Vec<SourceFile>, legacy_files: &Vec<SourceFile>) -> (r: Vec<
    String,
>)
    ensures
        sorted_distinct(r.deep_view(), model_entries(model_files@) + model_entries(legacy_files@)),
{
    let mut props: Vec<String> = Vec::new();
    collect_fillable_from_dir(model_files, &mut props);
    collect_fillable_from_dir_flat(legacy_files, &mut props);
    assert(props.deep_view() =~= model_entries(model_files@) + model_entries(legacy_files@));
    sort_dedup(props)
}

/// Builds the index of the project: component tags in walk order; route
/// names, route URIs and model properties sorted without repeats; the
/// controllers' class names in walk order.
pub fn scan_laravel_project(project: &ProjectSnapshot) -> (idx: LaravelIndex)
    ensures
        index_of(*project, idx),
{
    LaravelIndex {
        blade_components: scan_blade_components(&project.blade_files),
        routes: scan_named_routes(&project.route_files),
        route_uris: scan_route_uris(&project.route_files),
        model_properties: scan_model_properties(&project.model_files, &project.legacy_files),
        controllers: get_controllers(&project.controller_files),
    }
}

} // verus!
