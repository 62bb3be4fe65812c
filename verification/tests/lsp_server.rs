use zed_laravel::lsp::scanner::LaravelIndex;
use zed_laravel::lsp::server::{
    completion, completion_entries, is_indexable_path, tag_inner_of, EntryFormat, EntryKind,
};

fn index() -> LaravelIndex {
    LaravelIndex {
        blade_components: vec!["<x-forms-input />".to_string()],
        routes: vec!["home.index".to_string()],
        route_uris: vec!["/users/{id}".to_string()],
        model_properties: vec!["email".to_string()],
        controllers: vec!["UserController".to_string()],
    }
}

#[test]
fn items_for_each_index_section_then_builtins() {
    let items = completion_entries(&index());
    assert_eq!(items.len(), 5 + 63 + 32 + 22);
    let r = &items[0];
    assert_eq!(r.label, "home.index");
    assert!(matches!(r.kind, EntryKind::Reference));
    assert_eq!(r.detail, "Named Route");
    assert_eq!(r.insert_text, "home.index");
    assert!(matches!(r.format, EntryFormat::PlainText));
    assert_eq!(r.documentation, "**Named route** `home.index`\n\n```php\nroute('home.index')\n```");
    assert_eq!(items[1].documentation, "**Route URI** `/users/{id}`");
    assert!(matches!(items[1].kind, EntryKind::Value));
    let c = &items[2];
    assert_eq!(c.insert_text, "<x-forms-input ${1} />");
    assert!(matches!(c.format, EntryFormat::Snippet));
    assert_eq!(c.documentation, "**Blade Component**\n\n```blade\n<x-forms-input />\n```");
    assert_eq!(
        items[3].documentation,
        "**Fillable property** `email`\n\nDeclared in a model's `$fillable` array.",
    );
    assert_eq!(items[4].insert_text, "UserController::class");
    assert_eq!(items[4].documentation, "**Laravel Controller** `UserController`");
    let h = &items[5];
    assert_eq!(h.label, "abort");
    assert!(matches!(h.kind, EntryKind::Function));
    assert_eq!(h.insert_text, "abort(${1})");
    assert_eq!(h.documentation, "**Laravel Helper**\n\n```php\nabort(int $code, string $message = '')\n```");
    let f = &items[5 + 63 + 31];
    assert_eq!(f.label, "View");
    assert_eq!(f.documentation, "**Laravel Facade** `View`\n\nAlias for `Illuminate\\View\\Factory`");
}

#[test]
fn completion_always_answers() {
    let empty = LaravelIndex {
        blade_components: vec![],
        routes: vec![],
        route_uris: vec![],
        model_properties: vec![],
        controllers: vec![],
    };
    let items = completion(&empty).expect("built-in items are always offered");
    assert_eq!(items.len(), 117);
    let csrf = items.iter().find(|i| i.label == "@csrf").expect("directives are offered");
    assert!(matches!(csrf.kind, EntryKind::Keyword));
    assert_eq!(csrf.detail, "Blade Directive");
    assert_eq!(csrf.insert_text, "@csrf");
    assert_eq!(csrf.documentation, "**Blade Directive** `@csrf`");
    assert_eq!(items.last().unwrap().label, "@default");
}

#[test]
fn tag_inner_trims_repeated_markers() {
    assert_eq!(tag_inner_of("<x-alert />"), "alert");
    assert_eq!(tag_inner_of("<x-<x-a /> />"), "a");
    assert_eq!(tag_inner_of("plain"), "plain");
}

#[test]
fn indexable_paths() {
    assert!(is_indexable_path("/app/routes/web.php"));
    assert!(is_indexable_path("/app/Models/User.php"));
    assert!(is_indexable_path("/res/views/COMPONENTS/x.php"));
    assert!(is_indexable_path("/res/views/home.BLADE.php"));
    assert!(!is_indexable_path("/app/Http/Controllers/A.php"));
    assert!(!is_indexable_path("routes/web.php"));
}

#[test]
fn indexable_paths_ignore_ascii_case() {
    assert!(is_indexable_path("/srv/APP/MODELS/User.php"));
    assert!(is_indexable_path("/srv/Routes/API.php"));
    assert!(!is_indexable_path("/srv/app/Http/Kernel.PHP"));
}
