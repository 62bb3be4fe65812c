use zed_laravel::lsp::indexer::BladeFile;
use zed_laravel::lsp::scanner::{is_php_file, scan_laravel_project, ProjectSnapshot};
use zed_laravel::source::SourceFile;

fn file(name: &str, content: &str) -> SourceFile {
    SourceFile { name: name.to_string(), content: content.to_string() }
}

fn blade(dirs: &[&str], name: &str) -> BladeFile {
    BladeFile { dirs: dirs.iter().map(|d| d.to_string()).collect(), name: name.to_string() }
}

fn empty() -> ProjectSnapshot {
    ProjectSnapshot {
        blade_files: vec![],
        route_files: vec![],
        model_files: vec![],
        legacy_files: vec![],
        controller_files: vec![],
    }
}

/// A small project, as the directory walk reads it.
fn make_project() -> ProjectSnapshot {
    ProjectSnapshot {
        blade_files: vec![
            blade(&[], "alert.blade.php"),
            blade(&[], "button.blade.php"),
            blade(&["forms"], "input.blade.php"),
        ],
        route_files: vec![
            file(
                "web.php",
                "<?php\n\
                 Route::get('/home', [HomeController::class, 'index'])->name('home.index');\n\
                 Route::post('/login', [AuthController::class, 'login'])->name('auth.login');\n",
            ),
            file(
                "api.php",
                "<?php\n\
                 Route::get('/users', [UserController::class, 'index'])->name('api.users.index');\n",
            ),
        ],
        model_files: vec![
            file(
                "User.php",
                "<?php\nnamespace App\\Models;\n\
                 class User extends Model {\n\
                     protected $fillable = ['name', 'email', 'password'];\n\
                 }",
            ),
            file(
                "Post.php",
                "<?php\nnamespace App\\Models;\n\
                 class Post extends Model {\n\
                     protected $fillable = ['title', 'body', 'published_at'];\n\
                 }",
            ),
        ],
        legacy_files: vec![],
        controller_files: vec![file(
            "UserController.php",
            "<?php\nnamespace App\\Http\\Controllers;\n\
             class UserController extends Controller {}",
        )],
    }
}

#[test]
fn scans_named_routes_from_multiple_files() {
    let index = scan_laravel_project(&make_project());
    assert!(index.routes.contains(&"home.index".to_string()));
    assert!(index.routes.contains(&"auth.login".to_string()));
    assert!(index.routes.contains(&"api.users.index".to_string()));
}

#[test]
fn scans_route_uris() {
    let index = scan_laravel_project(&make_project());
    assert!(index.route_uris.contains(&"/home".to_string()));
    assert!(index.route_uris.contains(&"/login".to_string()));
    assert!(index.route_uris.contains(&"/users".to_string()));
}

#[test]
fn scans_model_fillable_properties() {
    let index = scan_laravel_project(&make_project());
    assert!(index.model_properties.contains(&"name".to_string()));
    assert!(index.model_properties.contains(&"email".to_string()));
    assert!(index.model_properties.contains(&"password".to_string()));
    assert!(index.model_properties.contains(&"title".to_string()));
    assert!(index.model_properties.contains(&"body".to_string()));
    assert!(index.model_properties.contains(&"published_at".to_string()));
}

#[test]
fn scans_blade_components() {
    let index = scan_laravel_project(&make_project());
    assert!(index.blade_components.iter().any(|c| c.contains("alert")));
    assert!(index.blade_components.iter().any(|c| c.contains("button")));
}

#[test]
fn scans_controllers() {
    let index = scan_laravel_project(&make_project());
    assert!(index.controllers.contains(&"UserController".to_string()));
}

#[test]
fn empty_project_returns_empty_index() {
    let index = scan_laravel_project(&empty());
    assert!(index.blade_components.is_empty());
    assert!(index.routes.is_empty());
    assert!(index.route_uris.is_empty());
    assert!(index.model_properties.is_empty());
    assert!(index.controllers.is_empty());
}

#[test]
fn duplicate_routes_are_deduplicated() {
    let mut p = empty();
    p.route_files = vec![
        file("web.php", "Route::get('/a', fn() => '')->name('duplicate');"),
        file("api.php", "Route::get('/b', fn() => '')->name('duplicate');"),
    ];
    let index = scan_laravel_project(&p);
    let count = index.routes.iter().filter(|r| *r == "duplicate").count();
    assert_eq!(count, 1, "duplicate route names should be deduplicated");
}

#[test]
fn index_lists_are_sorted_and_exact() {
    let index = scan_laravel_project(&make_project());
    assert_eq!(index.routes, vec!["api.users.index", "auth.login", "home.index"]);
    assert_eq!(index.route_uris, vec!["/home", "/login", "/users"]);
    assert_eq!(
        index.model_properties,
        vec!["body", "email", "name", "password", "published_at", "title"],
    );
    assert_eq!(index.blade_components, vec!["<x-alert />", "<x-button />", "<x-forms-input />"]);
    assert_eq!(index.controllers, vec!["UserController"]);
}

#[test]
fn legacy_models_and_non_php_files() {
    let mut p = empty();
    p.legacy_files = vec![
        file("Customer.php", "$fillable = ['zip', 'age'];"),
        file("Helper.php", "<?php function x() {}"),
        file("notes.txt", "$fillable = ['ignored'];"),
    ];
    p.model_files = vec![file("Order.php", "$fillable = ['age', 'Total'];")];
    p.route_files = vec![file("web.txt", "->name('ignored')")];
    let index = scan_laravel_project(&p);
    assert_eq!(index.model_properties, vec!["Total", "age", "zip"]);
    assert!(index.routes.is_empty());
}

#[test]
fn php_file_names() {
    assert!(is_php_file("web.php"));
    assert!(is_php_file("a.php"));
    assert!(is_php_file(".x.php"));
    assert!(!is_php_file(".php"));
    assert!(!is_php_file("php"));
    assert!(!is_php_file("web.php.bak"));
    assert!(!is_php_file("web.PHP"));
    assert!(!is_php_file("web.blade"));
}

#[test]
fn guarded_entries_are_indexed() {
    let mut p = empty();
    p.model_files = vec![file(
        "User.php",
        "<?php class User extends Model { protected $fillable = ['name']; protected $guarded = ['is_admin']; }",
    )];
    p.legacy_files = vec![file("Old.php", "$guarded = ['id'];")];
    let index = scan_laravel_project(&p);
    assert_eq!(index.model_properties, vec!["id", "is_admin", "name"]);
}
