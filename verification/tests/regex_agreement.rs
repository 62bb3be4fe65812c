//! The scanners against the regular expressions they stand for, evaluated
//! by the `regex` crate on many generated texts.
use regex::Regex;

fn all_group1(re: &Regex, text: &str) -> Vec<String> {
    re.captures_iter(text).map(|c| c[1].to_string()).collect()
}

fn first_group1(re: &Regex, text: &str) -> Option<String> {
    re.captures(text).map(|c| c[1].to_string())
}

fn re(pattern: &str) -> Regex {
    Regex::new(pattern).unwrap()
}

fn array_entries(array: &Regex, entry: &Regex, text: &str) -> Vec<String> {
    match first_group1(array, text) {
        Some(body) => all_group1(entry, &body),
        None => Vec::new(),
    }
}

const PIECES: &[&str] = &[
    "->name(", "(", ")", "'", "\"", " ", "  ", "\n", "\t", "\r", "a", "b.c", "Route::", "get",
    "view(", "preview(", ",", "$fillable", "$guarded", "$casts", "=", "[", "]", "=>", "class",
    "Controller", "Foo", "abstract", "final", "namespace", "use", "\\", ";", "é", "_", "1", "x-",
    "\u{a0}", "\u{2003}", "\u{85}", "\u{200b}", "\u{feff}", "\u{301}", "Ω", "٣", "‿", "-",
    "{id}", "/", "$",
];

/// Deterministic pseudo-random texts made of the pieces above.
fn corpus() -> Vec<String> {
    let mut state: u64 = 0x9e37_79b9_7f4a_7c15;
    let mut next = move || {
        state = state.wrapping_mul(6364136223846793005).wrapping_add(1442695040888963407);
        (state >> 33) as usize
    };
    let mut out = Vec::new();
    for _ in 0..1500 {
        let n = next() % 24;
        let mut s = String::new();
        for _ in 0..n {
            s.push_str(PIECES[next() % PIECES.len()]);
        }
        out.push(s);
    }
    out.push("Route::get('/home', [HomeController::class, 'index'])->name('home.index');".to_string());
    out.push("protected $fillable = [\n 'a',\n \"b\" ];".to_string());
    out.push("<?php\nnamespace App\\Models;\nabstract class UserController extends Base {}".to_string());
    out
}

#[test]
fn named_routes_agree() {
    let pattern = re(r#"->name\(\s*['"]([^'"]+)['"]\s*\)"#);
    for text in corpus() {
        let expected = all_group1(&pattern, &text);
        assert_eq!(zed_laravel::laravel_indexer::extract_routes(&text), expected, "{:?}", text);
        assert_eq!(zed_laravel::lsp::indexer::extract_routes(&text), expected, "{:?}", text);
    }
}

#[test]
fn route_uris_agree() {
    let pattern = re(r#"Route::\w+\(\s*['"]([^'"]+)['"]"#);
    for text in corpus() {
        let expected = all_group1(&pattern, &text);
        assert_eq!(zed_laravel::lsp::indexer::extract_route_uris(&text), expected, "{:?}", text);
    }
}

#[test]
fn view_references_agree() {
    let pattern = re(r#"view\(\s*['"]([^'"]+)['"]\s*[,\)]"#);
    for text in corpus() {
        let expected = all_group1(&pattern, &text);
        assert_eq!(zed_laravel::laravel_indexer::extract_view_references(&text), expected, "{:?}", text);
    }
}

#[test]
fn array_entries_agree() {
    let quoted = re(r#"['"]([^'"]+)['"]"#);
    let lazy_re = re(r"\$fillable\s*=\s*\[([\s\S]*?)\]");
    let greedy_re = re(r"\$fillable\s*=\s*\[([^\]]*)\]");
    let guarded_re = re(r"\$guarded\s*=\s*\[([^\]]*)\]");
    let casts_re = re(r"\$casts\s*=\s*\[([^\]]*)\]");
    let key_re = re(r#"['"]([^'"]+)['"]\s*=>"#);
    for text in corpus() {
        let lazy = array_entries(&lazy_re, &quoted, &text);
        let greedy = array_entries(&greedy_re, &quoted, &text);
        assert_eq!(lazy, greedy);
        assert_eq!(zed_laravel::laravel_indexer::extract_fillable(&text), lazy, "{:?}", text);
        assert_eq!(zed_laravel::lsp::indexer::extract_fillable(&text), greedy, "{:?}", text);
        assert_eq!(
            zed_laravel::lsp::indexer::extract_guarded(&text),
            array_entries(&guarded_re, &quoted, &text),
            "{:?}",
            text
        );
        assert_eq!(
            zed_laravel::lsp::indexer::extract_cast_keys(&text),
            array_entries(&casts_re, &key_re, &text),
            "{:?}",
            text
        );
    }
}

#[test]
fn class_and_namespace_agree() {
    let class_re = re(r"(?m)^\s*(?:abstract\s+|final\s+)?class\s+(\w+)");
    let namespace_re = re(r"(?m)^namespace\s+([\w\\]+)\s*;");
    for text in corpus() {
        assert_eq!(
            zed_laravel::lsp::indexer::extract_class_name(&text),
            first_group1(&class_re, &text),
            "{:?}",
            text
        );
        assert_eq!(
            zed_laravel::lsp::indexer::extract_namespace(&text),
            first_group1(&namespace_re, &text),
            "{:?}",
            text
        );
    }
}

#[test]
fn controller_classes_agree() {
    let files = |text: &str| {
        vec![zed_laravel::source::SourceFile { name: "A.php".to_string(), content: text.to_string() }]
    };
    let pattern = re(r"class\s+(\w+Controller)");
    for text in corpus() {
        let expected = all_group1(&pattern, &text);
        assert_eq!(zed_laravel::laravel_indexer::get_controllers(&files(&text)), expected, "{:?}", text);
    }
}

#[test]
fn use_imports_agree_with_line_start_pattern() {
    let pattern = re(r"(?m)^\s*use\s+([\w\\]+);");
    for text in corpus() {
        let expected: Vec<String> = all_group1(&pattern, &text)
            .into_iter()
            .map(|p| p.split('\\').last().unwrap().to_string())
            .collect();
        assert_eq!(zed_laravel::laravel_indexer::extract_use_statements(&text), expected, "{:?}", text);
    }
}

#[test]
fn trim_agrees_with_std() {
    for text in corpus() {
        assert_eq!(zed_laravel::text::trim_str(&text), text.trim(), "{:?}", text);
    }
}
