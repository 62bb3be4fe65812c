//! The editor extension's own state and decisions: which label a completion
//! gets, and how the PHP language server is launched.
use vstd::prelude::*;
use crate::artisan::{command_names, command_text, extract_command, is_artisan_command};
use crate::completion::{
    blade_directive_list, blade_directives, build_label, code_label, laravel_facade_list,
    laravel_facades, laravel_helper_list, laravel_helpers, label_fits, label_view, ranged_label, utf8_len,
    CodeLabel, CodeLabelSpan, Completion, Range, SpanView,
};
use crate::text::{concat2, concat3, owned, str_eq, str_views};

verus! {

/// Name of the custom language server binary looked up on the worktree's path.
pub fn laravel_lsp_id() -> (r: &'static str)
    ensures
        r@ == "laravel-lsp"@,
{
    "laravel-lsp"
}

/// The npm package of the fallback language server.
pub fn intelephense_package() -> (r: &'static str)
    ensures
        r@ == "intelephense"@,
{
    "intelephense"
}

/// Where the npm package keeps the server's entry point.
pub fn intelephense_server_path() -> (r: &'static str)
    ensures
        r@ == "node_modules/intelephense/lib/intelephense.js"@,
{
    "node_modules/intelephense/lib/intelephense.js"
}

/// The extension's state: the server path found earlier, and the names of
/// the helpers, facades and directives it recognises.
pub struct LaravelExtension {
    cached_server_path: Option<String>,
    cached_helpers: Vec<String>,
    cached_facades: Vec<String>,
    cached_blade_directives: Vec<String>,
}

impl LaravelExtension {
    /// The caches hold exactly the built-in lists.
    #[verifier::type_invariant]
    spec fn caches_hold_lists(self) -> bool {
        &&& self.cached_helpers.deep_view() == str_views(laravel_helpers())
        &&& self.cached_facades.deep_view() == str_views(laravel_facades())
        &&& self.cached_blade_directives.deep_view() == str_views(blade_directives())
    }

    /// The server path remembered by the last successful installation check.
    pub closed spec fn server_path(self) -> Option<Seq<char>> {
        match self.cached_server_path {
            Some(p) => Some(p@),
            None => None,
        }
    }
}

/// Copies of the given names.
fn owned_names(v: &Vec<&'static str>) -> (r: Vec<String>)
    ensures
        r.deep_view() == str_views(v@),
{
    let mut r: Vec<String> = Vec::new();
    let mut i: usize = 0;
    while i < v.len()
        invariant
            i <= v@.len(),
            r.deep_view() =~= str_views(v@.take(i as int)),
        decreases v@.len() - i,
    {
        r.push(owned(v[i]));
        assert(str_views(v@.take(i + 1)) =~= str_views(v@.take(i as int)).push(v@[i as int]@));
        i = i + 1;
    }
    assert(v@.take(v@.len() as int) =~= v@);
    r
}

/// Whether one of `v` equals `name`.
fn strings_contain(v: &Vec<String>, name: &str) -> (b: bool)
    ensures
        b == v.deep_view().contains(name@),
{
    let mut i: usize = 0;
    while i < v.len()
        invariant
            i <= v@.len(),
            forall|j: int| 0 <= j < i ==> v.deep_view()[j] != name@,
        decreases v@.len() - i,
    {
        if str_eq(v[i].as_str(), name) {
            assert(v.deep_view()[i as int] == name@);
            return true;
        }
        i = i + 1;
    }
    false
}

/// The label of a completion that names an Artisan command: the code
/// `// artisan <label>` with the label as its one span.
pub open spec fn artisan_label(label: Seq<char>) -> Option<(Seq<char>, Seq<SpanView>, (u32, u32))> {
    let c = command_text(label);
    if c.len() > 0 && command_names().contains(c) {
        Some(ranged_label("// artisan "@ + label, label, 11))
    } else {
        None
    }
}

/// The label the extension gives a completion: the Artisan label when the
/// completion names a known command, otherwise the label by kind.
pub open spec fn completion_label(label: Seq<char>, kind: Option<crate::completion::CompletionKind>) -> Option<
    (Seq<char>, Seq<SpanView>, (u32, u32)),
> {
    match artisan_label(label) {
        Some(l) => Some(l),
        None => code_label(label, kind),
    }
}

/// Whether the byte offsets of the label the extension gives a completion
/// fit in `u32`: `// artisan ` is 11 bytes long; other labels are those by kind.
pub open spec fn completion_fits(label: Seq<char>, kind: Option<crate::completion::CompletionKind>) -> bool {
    match artisan_label(label) {
        Some(_) => utf8_len(label) + 11 <= u32::MAX,
        None => label_fits(label, kind),
    }
}

/// What the launch of the PHP language server learned last.
pub enum LaunchEvent {
    /// The result of looking up the `laravel-lsp` binary on the worktree's path.
    Located(Option<String>),
    /// The result of making sure Intelephense is installed: its server path,
    /// or why it could not be.
    Installed(Result<String, String>),
    /// The node binary to run the installed server with.
    NodeFound(String, String),
}

/// A command that starts a language server (its environment is the default one).
pub struct ServerCommand {
    pub command: String,
    pub args: Vec<String>,
}

/// What the launch does next.
pub enum LaunchAction {
    /// Start this command.
    Run(ServerCommand),
    /// Install or update Intelephense and report its server path.
    EnsureIntelephense,
    /// Find node's binary to run the server at this path.
    FindNode(String),
    /// Tell the user why no server could be installed, then start this
    /// command, which does nothing.
    ReportAndRun(String, ServerCommand),
}

impl View for ServerCommand {
    type V = (Seq<char>, Seq<Seq<char>>);

    open spec fn view(&self) -> (Seq<char>, Seq<Seq<char>>) {
        (self.command@, self.args.deep_view())
    }
}

/// The launch step that follows each event: the custom server with
/// `--stdio` when found; otherwise Intelephense run by node with `--stdio`;
/// when it cannot be installed, the command `true`.
pub open spec fn launch_step(e: LaunchEvent, a: LaunchAction) -> bool {
    match e {
        LaunchEvent::Located(Some(bin)) => a matches LaunchAction::Run(c) && c@ == (bin@, seq!["--stdio"@]),
        LaunchEvent::Located(None) => a is EnsureIntelephense,
        LaunchEvent::Installed(Ok(p)) => a matches LaunchAction::FindNode(q) && q@ == p@,
        LaunchEvent::Installed(Err(m)) => a matches LaunchAction::ReportAndRun(r, c) && r@ == m@ && c@ == (
            "true"@,
            Seq::<Seq<char>>::empty(),
        ),
        LaunchEvent::NodeFound(node, p) => a matches LaunchAction::Run(c) && c@ == (
            node@,
            seq![p@, "--stdio"@],
        ),
    }
}

/// Decides the next step of launching the language server.
pub fn next_launch_step(e: LaunchEvent) -> (a: LaunchAction)
    ensures
        launch_step(e, a),
{
    match e {
        LaunchEvent::Located(Some(bin)) => {
            let args = vec![owned("--stdio")];
            assert(args.deep_view() =~= seq!["--stdio"@]);
            LaunchAction::Run(ServerCommand { command: bin, args })
        },
        LaunchEvent::Located(None) => LaunchAction::EnsureIntelephense,
        LaunchEvent::Installed(Ok(p)) => LaunchAction::FindNode(p),
        LaunchEvent::Installed(Err(m)) => {
            let args: Vec<String> = Vec::new();
            assert(args.deep_view() =~= Seq::<Seq<char>>::empty());
            LaunchAction::ReportAndRun(m, ServerCommand { command: owned("true"), args })
        },
        LaunchEvent::NodeFound(node, p) => {
            let args = vec![p, owned("--stdio")];
            assert(args.deep_view() =~= seq![args@[0]@, "--stdio"@]);
            LaunchAction::Run(ServerCommand { command: node, args })
        },
    }
}

/// Whether the installed Intelephense must be (re)installed: it is missing
/// or is not the latest version.
pub fn needs_install(installed: &Option<String>, latest: &str) -> (b: bool)
    ensures
        b == !(installed matches Some(v) && v@ == latest@),
{
    match installed {
        Some(v) => !str_eq(v.as_str(), latest),
        None => true,
    }
}

/// The error reported when the server is not where the package puts it.
pub fn intelephense_missing(server_path: &str) -> (r: String)
    ensures
        r@ == "intelephense not found at '"@ + server_path@ + "'"@,
{
    concat3("intelephense not found at '", server_path, "'")
}

/// What making sure Intelephense is installed learned last.
pub enum InstallEvent {
    /// The server is needed.
    Requested,
    /// Whether a file is at the server path found earlier.
    CacheChecked(String, bool),
    /// The installed version of the package (none when it is not
    /// installed), or why npm could not tell.
    InstalledVersion(Result<Option<String>, String>),
    /// The installed version again, with the latest version of the package
    /// or why npm could not tell.
    LatestVersion(Option<String>, Result<String, String>),
    /// How installing the package went.
    InstallDone(Result<(), String>),
    /// The server path in the working directory, and whether a file is there.
    ServerLocated(String, bool),
}

/// What making sure Intelephense is installed does next.
pub enum InstallAction {
    /// Check whether a file is at this path.
    CheckCache(String),
    /// Show that updates are being checked for, then ask npm for the
    /// installed version of this package.
    QueryInstalled(String),
    /// Ask npm for the latest version of this package; the installed one
    /// is handed back with the answer.
    QueryLatest(String, Option<String>),
    /// Show that the server is downloading, then install this version of
    /// this package.
    Install(String, String),
    /// Find this path in the working directory (the path itself when that
    /// cannot be read) and check whether a file is there.
    LocateServer(String),
    /// The server found earlier is still there: use it.
    Reuse(String),
    /// Clear the installation status and use the server at this path.
    Ready(String),
    /// The server cannot be had, for this reason.
    Fail(String),
}

/// An optional string as an optional sequence of characters.
pub open spec fn opt_str(o: Option<String>) -> Option<Seq<char>> {
    match o {
        Some(s) => Some(s@),
        None => None,
    }
}

/// The step that follows each event while Intelephense is made ready: a
/// server path found earlier is reused while a file is still there;
/// otherwise the installed and latest versions are asked for, the latest is
/// installed unless it is the installed one, and the server path is checked.
/// Every error ends the installation with that error.
pub open spec fn install_step(cached: Option<Seq<char>>, e: InstallEvent, a: InstallAction) -> bool {
    let package = "intelephense"@;
    match e {
        InstallEvent::Requested => match cached {
            Some(p) => a matches InstallAction::CheckCache(q) && q@ == p,
            None => a matches InstallAction::QueryInstalled(k) && k@ == package,
        },
        InstallEvent::CacheChecked(p, true) => a matches InstallAction::Reuse(q) && q@ == p@,
        InstallEvent::CacheChecked(_, false) => a matches InstallAction::QueryInstalled(k) && k@ == package,
        InstallEvent::InstalledVersion(Err(m)) => a matches InstallAction::Fail(r) && r@ == m@,
        InstallEvent::InstalledVersion(Ok(v)) => a matches InstallAction::QueryLatest(k, w) && k@ == package
            && opt_str(w) == opt_str(v),
        InstallEvent::LatestVersion(_, Err(m)) => a matches InstallAction::Fail(r) && r@ == m@,
        InstallEvent::LatestVersion(v, Ok(latest)) => if opt_str(v) == Some(latest@) {
            a matches InstallAction::LocateServer(q) && q@ == "node_modules/intelephense/lib/intelephense.js"@
        } else {
            a matches InstallAction::Install(k, l) && k@ == package && l@ == latest@
        },
        InstallEvent::InstallDone(Err(m)) => a matches InstallAction::Fail(r) && r@ == m@,
        InstallEvent::InstallDone(Ok(())) => a matches InstallAction::LocateServer(q) && q@
            == "node_modules/intelephense/lib/intelephense.js"@,
        InstallEvent::ServerLocated(p, false) => a matches InstallAction::Fail(r) && r@
            == "intelephense not found at '"@ + p@ + "'"@,
        InstallEvent::ServerLocated(p, true) => a matches InstallAction::Ready(q) && q@ == p@,
    }
}

/// The server path the extension keeps after an event: the one just found
/// to be there, else the one it had.
pub open spec fn kept_path(cached: Option<Seq<char>>, e: InstallEvent) -> Option<Seq<char>> {
    match e {
        InstallEvent::ServerLocated(p, true) => Some(p@),
        _ => cached,
    }
}

impl LaravelExtension {
    /// Decides the next step of making sure Intelephense is installed, and
    /// remembers the server path once it is found.
    pub fn next_install_step(&mut self, e: InstallEvent) -> (a: InstallAction)
        ensures
            install_step(old(self).server_path(), e, a),
            final(self).server_path() == kept_path(old(self).server_path(), e),
    {
        match e {
            InstallEvent::Requested => match self.cached_server_path() {
                Some(p) => InstallAction::CheckCache(p),
                None => InstallAction::QueryInstalled(owned(intelephense_package())),
            },
            InstallEvent::CacheChecked(p, exists) => {
                if exists {
                    InstallAction::Reuse(p)
                } else {
                    InstallAction::QueryInstalled(owned(intelephense_package()))
                }
            },
            InstallEvent::InstalledVersion(Err(m)) => InstallAction::Fail(m),
            InstallEvent::InstalledVersion(Ok(v)) => InstallAction::QueryLatest(owned(intelephense_package()), v),
            InstallEvent::LatestVersion(_, Err(m)) => InstallAction::Fail(m),
            InstallEvent::LatestVersion(v, Ok(latest)) => {
                if needs_install(&v, latest.as_str()) {
                    InstallAction::Install(owned(intelephense_package()), latest)
                } else {
                    InstallAction::LocateServer(owned(intelephense_server_path()))
                }
            },
            InstallEvent::InstallDone(Err(m)) => InstallAction::Fail(m),
            InstallEvent::InstallDone(Ok(())) => InstallAction::LocateServer(owned(intelephense_server_path())),
            InstallEvent::ServerLocated(p, exists) => {
                if exists {
                    self.remember_server_path(p.clone());
                    InstallAction::Ready(p)
                } else {
                    InstallAction::Fail(intelephense_missing(p.as_str()))
                }
            },
        }
    }

    /// A fresh extension: no server path yet, and the built-in lists.
    pub fn new() -> (r: Self)
        ensures
            r.server_path() is None,
    {
        LaravelExtension {
            cached_server_path: None,
            cached_helpers: owned_names(&laravel_helper_list()),
            cached_facades: owned_names(&laravel_facade_list()),
            cached_blade_directives: owned_names(&blade_directive_list()),
        }
    }

    /// The server path found earlier, if any.
    pub fn cached_server_path(&self) -> (r: Option<String>)
        ensures
            match r {
                Some(p) => self.server_path() == Some(p@),
                None => self.server_path() is None,
            },
    {
        match &self.cached_server_path {
            Some(p) => Some(p.clone()),
            None => None,
        }
    }

    /// Remembers the server path of a successful installation.
    pub fn remember_server_path(&mut self, path: String)
        ensures
            final(self).server_path() == Some(path@),
    {
        proof {
            use_type_invariant(&*self);
        }
        self.cached_server_path = Some(path);
    }

    /// The label for a completion: an Artisan command gets
    /// `// artisan <label>`, everything else the label by kind.
    pub fn label_for_completion(&self, completion: Completion) -> (r: Option<CodeLabel>)
        requires
            completion_fits(completion.label@, completion.kind),
        ensures
            label_view(r) == completion_label(completion.label@, completion.kind),
    {
        proof {
            use_type_invariant(self);
        }
        let label = completion.label.as_str();
        if let Some(cmd) = extract_command(label) {
            if is_artisan_command(cmd) {
                let code = concat2("// artisan ", label);
                let start: u32 = 11;
                let end = start + label.len() as u32;
                let mut spans: Vec<CodeLabelSpan> = Vec::new();
                spans.push(CodeLabelSpan::CodeRange(Range { start, end }));
                let r = CodeLabel { code, spans, filter_range: Range { start: 0, end: label.len() as u32 } };
                assert(r.spans@.map_values(|x: CodeLabelSpan| x@) =~= seq![SpanView::CodeRange(start, end)]);
                return Some(r);
            }
        }
        if strings_contain(&self.cached_helpers, label) {
            return build_label(&completion);
        }
        if strings_contain(&self.cached_facades, label) {
            return build_label(&completion);
        }
        if strings_contain(&self.cached_blade_directives, label) {
            return build_label(&completion);
        }
        build_label(&completion)
    }
}

} // verus!
