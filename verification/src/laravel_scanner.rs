//! The extension's project index: Blade components, named routes and model
//! `$fillable` entries, computed on what the caller read from the project.
use vstd::prelude::*;
use crate::laravel_indexer::{blade_component_tags, get_blade_components, ComponentListing};
use crate::lsp::indexer::BladeFile;
use crate::lsp::scanner::{extend_from_php_files, model_entries, php_items, Extract};
use crate::source::SourceFile;

verus! {

pub struct LaravelIndex {
    pub blade_components: Vec<String>,
    pub routes: Vec<String>,
    pub model_properties: Vec<String>,
}

/// What the scan reads: the components directory, and the entries of
/// `routes/`, of `app/Models/` and of `app/` itself (the older place of
/// models) that could be read.
pub struct ProjectFiles {
    pub components: ComponentListing,
    pub route_files: Vec<SourceFile>,
    pub model_files: Vec<SourceFile>,
    pub legacy_files: Vec<SourceFile>,
}

/// Component tags, the named routes of every PHP file in `routes/`, and the
/// `$fillable`, then `$guarded` entries of each PHP file in `app/Models/`,
/// then of each one in `app/`, in file order.
pub fn scan_laravel_project(project: &ProjectFiles) -> (idx: LaravelIndex)
    ensures
        idx.blade_components.deep_view() == blade_component_tags(
            project.components.entries.deep_view(),
            project.components.nested@.map_values(|f: BladeFile| f@),
        ),
        idx.routes.deep_view() == php_items(Extract::NamedRoutes, project.route_files@),
        idx.model_properties.deep_view() == model_entries(project.model_files@) + model_entries(
            project.legacy_files@,
        ),
{
    let mut routes: Vec<String> = Vec::new();
    let mut model_props: Vec<String> = Vec::new();
    let blade_components = get_blade_components(&project.components);
    extend_from_php_files(&project.route_files, Extract::NamedRoutes, &mut routes);
    extend_from_php_files(&project.model_files, Extract::Fillable, &mut model_props);
    extend_from_php_files(&project.model_files, Extract::Guarded, &mut model_props);
    extend_from_php_files(&project.legacy_files, Extract::Fillable, &mut model_props);
    extend_from_php_files(&project.legacy_files, Extract::Guarded, &mut model_props);
    assert(routes.deep_view() =~= php_items(Extract::NamedRoutes, project.route_files@));
    assert(model_props.deep_view() =~= model_entries(project.model_files@) + model_entries(
        project.legacy_files@,
    ));
    LaravelIndex { blade_components, routes, model_properties: model_props }
}

} // verus!
