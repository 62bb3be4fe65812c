use zed_laravel::artisan::{
    all_namespaces, artisan_command_list, command_namespace, commands_in_namespace,
    extract_command, is_artisan_command,
};

#[test]
fn known_command_is_recognised() {
    assert!(is_artisan_command("migrate"));
    assert!(is_artisan_command("make:controller"));
    assert!(is_artisan_command("route:list"));
}

#[test]
fn unknown_command_is_rejected() {
    assert!(!is_artisan_command("make:banana"));
    assert!(!is_artisan_command("php artisan migrate"));
}

#[test]
fn extract_command_strips_prefix() {
    assert_eq!(extract_command("php artisan migrate"), Some("migrate"));
    assert_eq!(extract_command("artisan route:list"), Some("route:list"));
    assert_eq!(extract_command("tinker"), Some("tinker"));
    assert_eq!(extract_command("  "), None);
}

#[test]
fn namespace_extraction() {
    assert_eq!(command_namespace("make:controller"), Some("make"));
    assert_eq!(command_namespace("migrate"), None);
}

#[test]
fn commands_in_namespace_returns_subset() {
    let make_cmds = commands_in_namespace("make");
    assert!(make_cmds.contains(&"make:controller"));
    assert!(make_cmds.contains(&"make:model"));
    assert!(!make_cmds.contains(&"migrate"));
}

#[test]
fn every_listed_command_is_recognised() {
    for cmd in artisan_command_list() {
        assert!(is_artisan_command(cmd), "{}", cmd);
    }
    // the list is not sorted; a lookup must still find entries on both ends
    assert!(is_artisan_command("about"));
    assert!(is_artisan_command("view:clear"));
    assert!(is_artisan_command("auth:clear-resets"));
}

#[test]
fn extract_command_trims_around_and_after_prefix() {
    assert_eq!(extract_command("  php artisan   make:model  "), Some("make:model"));
    assert_eq!(extract_command("\tartisan\tqueue:work"), Some("artisan\tqueue:work"));
    assert_eq!(extract_command("php artisan "), Some("php artisan"));
    assert_eq!(extract_command("php artisan    "), Some("php artisan"));
    assert_eq!(extract_command(""), None);
    assert_eq!(extract_command("php  artisan migrate"), Some("php  artisan migrate"));
}

#[test]
fn namespace_is_text_before_first_colon() {
    assert_eq!(command_namespace("a:b:c"), Some("a"));
    assert_eq!(command_namespace(":x"), Some(""));
    assert_eq!(command_namespace(""), None);
}

#[test]
fn commands_in_namespace_keeps_list_order_and_exact_namespace() {
    let cache = commands_in_namespace("cache");
    assert_eq!(cache, vec!["cache:clear", "cache:forget", "cache:prune-stale-tags", "cache:table"]);
    assert!(commands_in_namespace("migrate").iter().all(|c| c.starts_with("migrate:")));
    assert_eq!(commands_in_namespace("migrate").len(), 6);
    assert!(commands_in_namespace("nothing").is_empty());
    assert!(commands_in_namespace("").is_empty());
}

#[test]
fn all_namespaces_are_distinct_and_in_first_appearance_order() {
    let ns = all_namespaces();
    assert_eq!(ns[0], "optimize");
    assert_eq!(ns[1], "auth");
    assert_eq!(ns[2], "cache");
    assert_eq!(*ns.last().unwrap(), "view");
    let mut seen = std::collections::HashSet::new();
    for n in &ns {
        assert!(seen.insert(*n), "repeated namespace {}", n);
        assert!(!commands_in_namespace(n).is_empty());
    }
    assert!(ns.contains(&"make"));
    assert!(!ns.contains(&"migrate:fresh"));
    assert_eq!(ns.len(), 21);
}
