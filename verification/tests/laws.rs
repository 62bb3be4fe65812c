//! The library's laws, checked on concrete values.
use zed_laravel::artisan::{artisan_command_list, command_namespace, extract_command};
use zed_laravel::lsp::indexer::{blade_tag_of, extract_fillable, extract_guarded, BladeFile};
use zed_laravel::lsp::scanner::{scan_laravel_project, ProjectSnapshot};
use zed_laravel::lsp::server::{completion_entries, tag_inner_of};
use zed_laravel::source::SourceFile;

fn file(name: &str, content: &str) -> SourceFile {
    SourceFile { name: name.to_string(), content: content.to_string() }
}

#[test]
fn law_namespace_splits_command() {
    for cmd in artisan_command_list() {
        if let Some(ns) = command_namespace(cmd) {
            assert!(!ns.contains(':'));
            assert_eq!(format!("{}:{}", ns, &cmd[ns.len() + 1..]), cmd);
        } else {
            assert!(!cmd.contains(':'));
        }
    }
}

#[test]
fn law_extracted_command_is_trimmed() {
    for input in [" php artisan  x ", "artisan\u{a0}y\u{2003}", "\tz\n", "php artisan \u{85}"] {
        let c = extract_command(input).unwrap();
        assert_eq!(c, c.trim());
        assert!(!c.is_empty());
    }
}

#[test]
fn law_array_entries_are_plain() {
    let php = "$fillable = ['', \"a\", 'b\"c', ' ']; $guarded = ['x', '', 'y'];";
    for e in extract_fillable(php).into_iter().chain(extract_guarded(php)) {
        assert!(!e.is_empty());
        assert!(!e.contains('\'') && !e.contains('"'));
    }
}

#[test]
fn law_index_lists_are_sorted_without_repeats() {
    let p = ProjectSnapshot {
        blade_files: vec![],
        route_files: vec![
            file("b.php", "->name('z') ->name('a') ->name('z')"),
            file("a.php", "->name('m') ->name('a') Route::get('/y') Route::get('/x') Route::get('/y')"),
        ],
        model_files: vec![file("M.php", "$fillable = ['q', 'p', 'q']; $guarded = ['g', 'p'];")],
        legacy_files: vec![file("L.php", "$fillable = ['p', 'o'];")],
        controller_files: vec![],
    };
    let idx = scan_laravel_project(&p);
    assert_eq!(idx.routes, vec!["a", "m", "z"]);
    assert_eq!(idx.route_uris, vec!["/x", "/y"]);
    assert_eq!(idx.model_properties, vec!["g", "o", "p", "q"]);
}

#[test]
fn law_component_tags_have_no_dots_and_round_trip() {
    let files = [
        BladeFile { dirs: vec!["a.b".to_string()], name: "c.d.blade.php".to_string() },
        BladeFile { dirs: vec![], name: "x.blade.php".to_string() },
    ];
    for f in files.iter() {
        let tag = blade_tag_of(f).unwrap();
        assert!(tag.starts_with("<x-") && tag.ends_with(" />"));
        let inner = &tag[3..tag.len() - 3];
        assert!(!inner.contains('.'));
        assert_eq!(tag_inner_of(&tag), inner);
    }
}

#[test]
fn law_completion_items_count() {
    let p = ProjectSnapshot {
        blade_files: vec![BladeFile { dirs: vec![], name: "a.blade.php".to_string() }],
        route_files: vec![file("web.php", "Route::get('/a')->name('a');")],
        model_files: vec![],
        legacy_files: vec![],
        controller_files: vec![file("C.php", "class CController {}")],
    };
    let idx = scan_laravel_project(&p);
    assert_eq!(completion_entries(&idx).len(), 1 + 1 + 1 + 0 + 1 + 63 + 32 + 22);
}

#[test]
fn law_extract_command_round_trip() {
    for (w1, w2, w3) in [("", "", ""), (" \t", "\n", "  "), ("\u{a0}", "\u{3000}", "\u{85}")] {
        for s in ["migrate", "make:model --all", "é"] {
            assert_eq!(extract_command(&format!("{}php artisan {}{}{}", w1, w3, s, w2)), Some(s));
            assert_eq!(extract_command(&format!("{}artisan {}{}{}", w1, w3, s, w2)), Some(s));
            assert_eq!(extract_command(&format!("{}{}{}", w1, s, w2)), Some(s));
        }
        assert_eq!(extract_command(&format!("{}{}", w1, w2)), None);
    }
}
