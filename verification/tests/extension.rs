use zed_laravel::completion::{CodeLabelSpan, Completion, CompletionKind};
use zed_laravel::extension::{
    intelephense_missing, needs_install, next_launch_step, InstallAction, InstallEvent,
    LaravelExtension, LaunchAction, LaunchEvent,
};

fn completion(label: &str, kind: Option<CompletionKind>) -> Completion {
    Completion {
        label: label.to_string(),
        label_details: None,
        detail: None,
        kind,
        insert_text_format: None,
    }
}

#[test]
fn artisan_commands_get_an_artisan_label() {
    let ext = LaravelExtension::new();
    let label = ext.label_for_completion(completion("php artisan migrate", Some(CompletionKind::Text))).unwrap();
    assert_eq!(label.code, "// artisan php artisan migrate");
    match &label.spans[..] {
        [CodeLabelSpan::CodeRange(r)] => assert_eq!((r.start, r.end), (11, 30)),
        _ => panic!("one code range expected"),
    }
    assert_eq!((label.filter_range.start, label.filter_range.end), (0, 19));
    assert!(ext.label_for_completion(completion("make:banana", Some(CompletionKind::Text))).is_none());
}

#[test]
fn other_completions_get_the_label_by_kind() {
    let ext = LaravelExtension::new();
    let label = ext.label_for_completion(completion("route", Some(CompletionKind::Function))).unwrap();
    assert_eq!(label.code, "fn route()");
    let label = ext.label_for_completion(completion("@csrf", Some(CompletionKind::Snippet))).unwrap();
    assert_eq!(label.code, "@csrf");
    assert!(ext.label_for_completion(completion("whatever", None)).is_none());
}

#[test]
fn server_path_is_remembered() {
    let mut ext = LaravelExtension::new();
    assert_eq!(ext.cached_server_path(), None);
    ext.remember_server_path("/x/intelephense.js".to_string());
    assert_eq!(ext.cached_server_path(), Some("/x/intelephense.js".to_string()));
}

#[test]
fn launch_steps() {
    match next_launch_step(LaunchEvent::Located(Some("/bin/laravel-lsp".to_string()))) {
        LaunchAction::Run(c) => {
            assert_eq!(c.command, "/bin/laravel-lsp");
            assert_eq!(c.args, vec!["--stdio"]);
        },
        _ => panic!("run expected"),
    }
    assert!(matches!(next_launch_step(LaunchEvent::Located(None)), LaunchAction::EnsureIntelephense));
    match next_launch_step(LaunchEvent::Installed(Ok("/s.js".to_string()))) {
        LaunchAction::FindNode(p) => assert_eq!(p, "/s.js"),
        _ => panic!("node lookup expected"),
    }
    match next_launch_step(LaunchEvent::Installed(Err("offline".to_string()))) {
        LaunchAction::ReportAndRun(m, c) => {
            assert_eq!(m, "offline");
            assert_eq!(c.command, "true");
            assert!(c.args.is_empty());
        },
        _ => panic!("fallback expected"),
    }
    match next_launch_step(LaunchEvent::NodeFound("/usr/bin/node".to_string(), "/s.js".to_string())) {
        LaunchAction::Run(c) => {
            assert_eq!(c.command, "/usr/bin/node");
            assert_eq!(c.args, vec!["/s.js", "--stdio"]);
        },
        _ => panic!("run expected"),
    }
}

#[test]
fn install_decisions() {
    assert!(needs_install(&None, "1.10.0"));
    assert!(needs_install(&Some("1.9.0".to_string()), "1.10.0"));
    assert!(!needs_install(&Some("1.10.0".to_string()), "1.10.0"));
    assert_eq!(intelephense_missing("/a/b.js"), "intelephense not found at '/a/b.js'");
}

fn s(x: &str) -> String {
    x.to_string()
}

#[test]
fn fresh_install_runs_every_step() {
    let mut ext = LaravelExtension::new();
    match ext.next_install_step(InstallEvent::Requested) {
        InstallAction::QueryInstalled(p) => assert_eq!(p, "intelephense"),
        _ => panic!("version query expected"),
    }
    match ext.next_install_step(InstallEvent::InstalledVersion(Ok(None))) {
        InstallAction::QueryLatest(p, v) => {
            assert_eq!(p, "intelephense");
            assert_eq!(v, None);
        },
        _ => panic!("latest version query expected"),
    }
    match ext.next_install_step(InstallEvent::LatestVersion(None, Ok(s("1.12.0")))) {
        InstallAction::Install(p, v) => {
            assert_eq!(p, "intelephense");
            assert_eq!(v, "1.12.0");
        },
        _ => panic!("install expected"),
    }
    match ext.next_install_step(InstallEvent::InstallDone(Ok(()))) {
        InstallAction::LocateServer(p) => assert_eq!(p, "node_modules/intelephense/lib/intelephense.js"),
        _ => panic!("server lookup expected"),
    }
    assert_eq!(ext.cached_server_path(), None);
    match ext.next_install_step(InstallEvent::ServerLocated(s("/w/i.js"), true)) {
        InstallAction::Ready(p) => assert_eq!(p, "/w/i.js"),
        _ => panic!("ready expected"),
    }
    assert_eq!(ext.cached_server_path(), Some(s("/w/i.js")));
}

#[test]
fn latest_version_is_not_installed_again() {
    let mut ext = LaravelExtension::new();
    match ext.next_install_step(InstallEvent::LatestVersion(Some(s("1.12.0")), Ok(s("1.12.0")))) {
        InstallAction::LocateServer(p) => assert_eq!(p, "node_modules/intelephense/lib/intelephense.js"),
        _ => panic!("server lookup expected"),
    }
    match ext.next_install_step(InstallEvent::LatestVersion(Some(s("1.11.0")), Ok(s("1.12.0")))) {
        InstallAction::Install(_, v) => assert_eq!(v, "1.12.0"),
        _ => panic!("install expected"),
    }
}

#[test]
fn remembered_server_is_reused_while_present() {
    let mut ext = LaravelExtension::new();
    ext.remember_server_path(s("/w/i.js"));
    match ext.next_install_step(InstallEvent::Requested) {
        InstallAction::CheckCache(p) => assert_eq!(p, "/w/i.js"),
        _ => panic!("cache check expected"),
    }
    match ext.next_install_step(InstallEvent::CacheChecked(s("/w/i.js"), true)) {
        InstallAction::Reuse(p) => assert_eq!(p, "/w/i.js"),
        _ => panic!("reuse expected"),
    }
    match ext.next_install_step(InstallEvent::CacheChecked(s("/w/i.js"), false)) {
        InstallAction::QueryInstalled(p) => assert_eq!(p, "intelephense"),
        _ => panic!("version query expected"),
    }
}

#[test]
fn install_errors_end_the_installation() {
    let mut ext = LaravelExtension::new();
    match ext.next_install_step(InstallEvent::InstalledVersion(Err(s("npm failed")))) {
        InstallAction::Fail(m) => assert_eq!(m, "npm failed"),
        _ => panic!("failure expected"),
    }
    match ext.next_install_step(InstallEvent::LatestVersion(None, Err(s("offline")))) {
        InstallAction::Fail(m) => assert_eq!(m, "offline"),
        _ => panic!("failure expected"),
    }
    match ext.next_install_step(InstallEvent::InstallDone(Err(s("disk full")))) {
        InstallAction::Fail(m) => assert_eq!(m, "disk full"),
        _ => panic!("failure expected"),
    }
    match ext.next_install_step(InstallEvent::ServerLocated(s("/w/i.js"), false)) {
        InstallAction::Fail(m) => assert_eq!(m, "intelephense not found at '/w/i.js'"),
        _ => panic!("failure expected"),
    }
    assert_eq!(ext.cached_server_path(), None);
}

fn kind(i: usize) -> Option<CompletionKind> {
    match i {
        0 => Some(CompletionKind::Function),
        1 => Some(CompletionKind::Class),
        2 => Some(CompletionKind::Snippet),
        3 => Some(CompletionKind::Property),
        _ => None,
    }
}

#[test]
fn non_artisan_labels_match_the_shared_builder() {
    let ext = LaravelExtension::new();
    for (i, label) in ["route", "Cache", "@foreach", "email", "anything"].iter().enumerate() {
        let a = ext.label_for_completion(completion(label, kind(i)));
        let b = zed_laravel::completion::build_label(&completion(label, kind(i)));
        assert_eq!(a.map(|l| l.code), b.map(|l| l.code));
    }
}
