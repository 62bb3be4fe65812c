use zed_laravel::lsp::indexer::{
    blade_tag_of, extract_cast_keys, extract_class_name, extract_fillable, extract_fqn,
    extract_guarded, extract_namespace, extract_route_uris, extract_routes, get_blade_components,
    get_controllers, BladeFile,
};
use zed_laravel::source::SourceFile;

fn blade(dirs: &[&str], name: &str) -> BladeFile {
    BladeFile { dirs: dirs.iter().map(|d| d.to_string()).collect(), name: name.to_string() }
}

#[test]
fn extracts_fillable_single_quotes() {
    let php = "protected $fillable = ['name', 'email', 'password'];";
    let result = extract_fillable(php);
    assert_eq!(result, vec!["name", "email", "password"]);
}

#[test]
fn extracts_fillable_double_quotes() {
    let php = r#"protected $fillable = ["title", "body"];"#;
    let result = extract_fillable(php);
    assert_eq!(result, vec!["title", "body"]);
}

#[test]
fn extracts_fillable_multiline() {
    let php = "protected $fillable = [\n    'first_name',\n    'last_name',\n];";
    let result = extract_fillable(php);
    assert_eq!(result, vec!["first_name", "last_name"]);
}

#[test]
fn extracts_named_routes() {
    let php = "Route::get('/dashboard', fn() => '')->name('dashboard');\n\
               Route::get('/profile', fn() => '')->name(\"profile.show\");";
    let result = extract_routes(php);
    assert_eq!(result, vec!["dashboard", "profile.show"]);
}

#[test]
fn extracts_route_uris() {
    let php = "Route::get('/users', [UserController::class, 'index']);\n\
               Route::post('/users/{id}', [UserController::class, 'update']);";
    let result = extract_route_uris(php);
    assert_eq!(result, vec!["/users", "/users/{id}"]);
}

#[test]
fn extracts_class_name() {
    let php = "<?php\n\nnamespace App\\Http\\Controllers;\n\nclass UserController extends Controller\n{";
    assert_eq!(extract_class_name(php), Some("UserController".to_string()));
}

#[test]
fn extracts_namespace() {
    let php = "<?php\n\nnamespace App\\Models;\n\nclass User extends Model {}";
    assert_eq!(extract_namespace(php), Some("App\\Models".to_string()));
}

#[test]
fn extracts_fqn() {
    let php = "<?php\n\nnamespace App\\Models;\n\nclass Post extends Model {}";
    assert_eq!(extract_fqn(php), Some("App\\Models\\Post".to_string()));
}

#[test]
fn empty_fillable_returns_empty() {
    let php = "protected $fillable = [];";
    assert_eq!(extract_fillable(php), Vec::<String>::new());
}

#[test]
fn no_fillable_returns_empty() {
    let php = "class User extends Model {}";
    assert_eq!(extract_fillable(php), Vec::<String>::new());
}

#[test]
fn class_name_with_modifiers_and_indentation() {
    assert_eq!(extract_class_name("<?php\n  abstract  class Base {}"), Some("Base".to_string()));
    assert_eq!(extract_class_name("final class Done"), Some("Done".to_string()));
    assert_eq!(extract_class_name("$x = new class Foo;\nclass Real {}"), Some("Real".to_string()));
    assert_eq!(extract_class_name("abstract final class X"), None);
    assert_eq!(extract_class_name("classy Foo"), None);
    assert_eq!(extract_class_name("class  Ünïcode_9 extends"), Some("Ünïcode_9".to_string()));
}

#[test]
fn namespace_and_fqn_edge_cases() {
    assert_eq!(extract_namespace("  namespace App;"), None);
    assert_eq!(extract_namespace("namespace App\\Http ;"), Some("App\\Http".to_string()));
    assert_eq!(extract_fqn("namespace App;"), None);
    assert_eq!(extract_fqn("class Lonely {}"), None);
}

#[test]
fn guarded_and_cast_keys() {
    let php = "protected $guarded = ['id'];\nprotected $casts = ['born' => 'date', \"flag\"=>'bool', 'x'];";
    assert_eq!(extract_guarded(php), vec!["id"]);
    assert_eq!(extract_cast_keys(php), vec!["born", "flag"]);
    assert!(extract_guarded("$casts = ['a' => 'b'];").is_empty());
}

#[test]
fn route_uris_need_a_verb() {
    assert_eq!(
        extract_route_uris("Route::get( '/a' ) Route::('/b') Route::match_any(\"/c\", x)"),
        vec!["/a", "/c"],
    );
}

#[test]
fn blade_tags_use_dashes_for_every_level() {
    assert_eq!(blade_tag_of(&blade(&[], "alert.blade.php")), Some("<x-alert />".to_string()));
    assert_eq!(blade_tag_of(&blade(&["forms"], "input.blade.php")), Some("<x-forms-input />".to_string()));
    assert_eq!(blade_tag_of(&blade(&["a", "b.c"], "d.e.blade.php")), Some("<x-a-b-c-d-e />".to_string()));
    assert_eq!(blade_tag_of(&blade(&[], "x.blade.php.blade.php")), Some("<x-x />".to_string()));
    assert_eq!(blade_tag_of(&blade(&["forms"], "input.php")), None);
    let files = vec![blade(&[], "alert.blade.php"), blade(&[], "readme.md"), blade(&["forms"], "input.blade.php")];
    assert_eq!(get_blade_components(&files), vec!["<x-alert />", "<x-forms-input />"]);
}

#[test]
fn controllers_are_first_class_of_each_php_file() {
    let files = vec![
        SourceFile { name: "UserController.php".to_string(), content: "<?php\nclass UserController extends Controller {}\nclass Other {}".to_string() },
        SourceFile { name: "Readme.md".to_string(), content: "class Nope {}".to_string() },
        SourceFile { name: "Empty.php".to_string(), content: "<?php".to_string() },
        SourceFile { name: ".php".to_string(), content: "class Hidden {}".to_string() },
        SourceFile { name: "Base.php".to_string(), content: "abstract class BaseController {}".to_string() },
    ];
    assert_eq!(get_controllers(&files), vec!["UserController", "BaseController"]);
}
