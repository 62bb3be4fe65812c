use zed_laravel::laravel_indexer::{
    extract_fillable, extract_routes, extract_use_statements, extract_view_references,
    get_blade_components, get_controllers, ComponentListing,
};
use zed_laravel::laravel_scanner::{scan_laravel_project, ProjectFiles};
use zed_laravel::lsp::indexer::BladeFile;
use zed_laravel::source::SourceFile;

fn file(name: &str, content: &str) -> SourceFile {
    SourceFile { name: name.to_string(), content: content.to_string() }
}

#[test]
fn test_extract_fillable_single_line() {
    let php = r#"
            protected $fillable = ['name', 'email', 'password'];
        "#;
    let fields = extract_fillable(php);
    assert_eq!(fields, vec!["name", "email", "password"]);
}

#[test]
fn test_extract_fillable_multiline() {
    let php = r#"
            protected $fillable = [
                'title',
                'body',
                'published_at',
            ];
        "#;
    let fields = extract_fillable(php);
    assert_eq!(fields, vec!["title", "body", "published_at"]);
}

#[test]
fn test_extract_fillable_empty() {
    assert!(extract_fillable("class Foo {}").is_empty());
}

#[test]
fn test_extract_routes() {
    let php = r#"
            Route::get('/home', [HomeController::class, 'index'])->name('home.index');
            Route::post('/login', [AuthController::class, 'login'])->name('auth.login');
        "#;
    let routes = extract_routes(php);
    assert_eq!(routes, vec!["home.index", "auth.login"]);
}

#[test]
fn test_extract_routes_empty() {
    assert!(extract_routes("Route::get('/', fn() => 'ok');").is_empty());
}

#[test]
fn test_extract_view_references() {
    let php = r#"
            return view('dashboard.index', compact('user'));
            return view("auth.login");
        "#;
    let views = extract_view_references(php);
    assert_eq!(views, vec!["dashboard.index", "auth.login"]);
}

#[test]
fn test_extract_use_statements() {
    let php = r#"
            use App\Models\User;
            use Illuminate\Http\Request;
        "#;
    let imports = extract_use_statements(php);
    assert_eq!(imports, vec!["User", "Request"]);
}

#[test]
fn use_statements_only_at_line_start() {
    let php = "<?php\nuse Foo;\n$x = 1; use Bar\\Baz;\nuse Trailing\\;\n  use  A\\B\\C ;\n";
    assert_eq!(extract_use_statements(php), vec!["Foo", ""]);
}

#[test]
fn fillable_quirks_follow_the_pattern() {
    // the body ends at the first `]`
    assert_eq!(extract_fillable("$fillable = ['a', 'b]', 'c'];"), vec!["a"]);
    // an empty string pair is skipped, the text between the quotes is taken
    assert_eq!(extract_fillable("$fillable=['', 'x']"), vec![", "]);
    // mixed quotes close each other
    assert_eq!(extract_fillable("$fillable = [\"a', 'b\"];"), vec!["a", "b"]);
    // only the first array counts
    assert_eq!(extract_fillable("$fillable = ['a'];\n$fillable = ['b'];"), vec!["a"]);
    assert!(extract_fillable("$fillable = ['a'").is_empty());
    assert!(extract_fillable("$fillable = ;").is_empty());
}

#[test]
fn route_names_need_the_closing_parenthesis() {
    assert_eq!(extract_routes("->name( 'a' ) ->name(\"b\") ->name('c', 1) ->name('')"), vec!["a", "b"]);
}

#[test]
fn view_references_end_with_comma_or_parenthesis() {
    assert_eq!(
        extract_view_references("view('a') view( \"b\" , []) view('c'.$x) preview('d')"),
        vec!["a", "b", "d"],
    );
}

#[test]
fn blade_components_from_listing() {
    let listing = ComponentListing {
        entries: vec!["alert.blade.php".to_string(), "forms".to_string(), "notes.txt".to_string(), "a.blade.php.blade.php".to_string()],
        nested: vec![
            BladeFile { dirs: vec!["forms".to_string()], name: "input.blade.php".to_string() },
            BladeFile { dirs: vec!["forms".to_string()], name: "x.php".to_string() },
            BladeFile {
                dirs: vec!["forms".to_string(), "inputs".to_string()],
                name: "text.blade.php".to_string(),
            },
        ],
    };
    assert_eq!(
        get_blade_components(&listing),
        vec!["<x-alert />", "<x-a />", "<x-forms-input />", "<x-forms-inputs-text />"],
    );
}

#[test]
fn controllers_from_php_files() {
    let files = vec![
        file("UserController.php", "<?php\nclass UserController extends Controller {}\nclass Helper {}"),
        file("notes.txt", "class NoteController {}"),
        file("Two.php", "class AController {} class BControllerController {} class Controller {}"),
        file("Sub.php", "final class ControllerTwoController extends X"),
    ];
    assert_eq!(
        get_controllers(&files),
        vec!["UserController", "AController", "BControllerController", "ControllerTwoController"],
    );
}

#[test]
fn extension_index_takes_guarded_entries() {
    let project = ProjectFiles {
        components: ComponentListing { entries: vec![], nested: vec![] },
        route_files: vec![],
        model_files: vec![file("User.php", "$fillable = ['name']; $guarded = ['is_admin'];")],
        legacy_files: vec![],
    };
    assert_eq!(scan_laravel_project(&project).model_properties, vec!["name", "is_admin"]);
}

#[test]
fn extension_index_reads_models_in_app_too() {
    let project = ProjectFiles {
        components: ComponentListing { entries: vec![], nested: vec![] },
        route_files: vec![file("web.php", "Route::get('/', X::class)->name('home');")],
        model_files: vec![file("Post.php", "$fillable = ['title'];")],
        legacy_files: vec![
            file("User.php", "$guarded = ['id']; $fillable = ['email'];"),
            file("notes.txt", "$fillable = ['ignored'];"),
        ],
    };
    let idx = scan_laravel_project(&project);
    assert_eq!(idx.routes, vec!["home"]);
    assert_eq!(idx.model_properties, vec!["title", "email", "id"]);
}
