//! The Artisan commands of a standard Laravel installation, and the parsing
//! of command strings such as `php artisan make:controller`.
use vstd::prelude::*;
use crate::text::{at_str, names_contain, str_views, to_chars, trim, trim_str, starts_with};

verus! {

/// All known Artisan commands shipped with a standard Laravel installation.
pub open spec fn artisan_commands() -> Seq<&'static str> {
    seq![
        "about",
        "completion",
        "down",
        "env",
        "help",
        "inspire",
        "list",
        "migrate",
        "optimize",
        "optimize:clear",
        "serve",
        "test",
        "tinker",
        "up",
        "auth:clear-resets",
        "cache:clear",
        "cache:forget",
        "cache:prune-stale-tags",
        "cache:table",
        "config:cache",
        "config:clear",
        "config:publish",
        "config:show",
        "db",
        "db:monitor",
        "db:seed",
        "db:show",
        "db:table",
        "db:wipe",
        "event:cache",
        "event:clear",
        "event:generate",
        "event:list",
        "key:generate",
        "make:cast",
        "make:channel",
        "make:class",
        "make:command",
        "make:component",
        "make:controller",
        "make:enum",
        "make:event",
        "make:exception",
        "make:factory",
        "make:interface",
        "make:job",
        "make:listener",
        "make:livewire",
        "make:mail",
        "make:middleware",
        "make:migration",
        "make:model",
        "make:notification",
        "make:observer",
        "make:policy",
        "make:provider",
        "make:request",
        "make:resource",
        "make:rule",
        "make:scope",
        "make:seeder",
        "make:test",
        "make:trait",
        "make:view",
        "migrate:fresh",
        "migrate:install",
        "migrate:refresh",
        "migrate:reset",
        "migrate:rollback",
        "migrate:status",
        "model:prune",
        "model:show",
        "notification:table",
        "package:discover",
        "queue:batches-table",
        "queue:clear",
        "queue:failed",
        "queue:failed-table",
        "queue:flush",
        "queue:forget",
        "queue:listen",
        "queue:monitor",
        "queue:prune-batches",
        "queue:prune-failed",
        "queue:restart",
        "queue:retry",
        "queue:retry-batch",
        "queue:table",
        "queue:work",
        "route:cache",
        "route:clear",
        "route:list",
        "schedule:clear-cache",
        "schedule:interrupt",
        "schedule:list",
        "schedule:run",
        "schedule:test",
        "schedule:work",
        "schema:dump",
        "session:table",
        "storage:link",
        "storage:unlink",
        "stub:publish",
        "vendor:publish",
        "view:cache",
        "view:clear",
    ]
}

/// The known commands as character sequences.
pub open spec fn command_names() -> Seq<Seq<char>> {
    str_views(artisan_commands())
}

/// The command part of an input: trimmed, with a leading `php artisan ` or
/// `artisan ` removed and the rest trimmed again.
pub open spec fn command_text(input: Seq<char>) -> Seq<char> {
    let t = trim(input);
    if starts_with(t, "php artisan "@) {
        trim(t.skip("php artisan "@.len() as int))
    } else if starts_with(t, "artisan "@) {
        trim(t.skip("artisan "@.len() as int))
    } else {
        t
    }
}

/// Position of the first `:` at or after `i`, or the end of `s`.
pub open spec fn first_colon(s: Seq<char>, i: int) -> int
    decreases s.len() - i,
{
    if i < 0 || i >= s.len() {
        s.len() as int
    } else if s[i] == ':' {
        i
    } else {
        first_colon(s, i + 1)
    }
}

/// The text before the first `:`, when there is one.
pub open spec fn namespace_of(command: Seq<char>) -> Option<Seq<char>> {
    let k = first_colon(command, 0);
    if k < command.len() {
        Some(command.take(k))
    } else {
        None
    }
}

pub open spec fn in_namespace_fn(ns: Seq<char>) -> spec_fn(&'static str) -> bool {
    |c: &'static str| namespace_of(c@) == Some(ns)
}

/// The distinct namespaces of `cmds`, in order of first appearance.
pub open spec fn namespaces_in(cmds: Seq<&'static str>) -> Seq<Seq<char>>
    decreases cmds.len(),
{
    if cmds.len() == 0 {
        Seq::empty()
    } else {
        let prev = namespaces_in(cmds.drop_last());
        match namespace_of(cmds.last()@) {
            Some(n) => if prev.contains(n) {
                prev
            } else {
                prev.push(n)
            },
            None => prev,
        }
    }
}

pub proof fn lemma_first_colon(s: Seq<char>, i: int)
    requires
        0 <= i <= s.len(),
    ensures
        i <= first_colon(s, i) <= s.len(),
        first_colon(s, i) < s.len() ==> s[first_colon(s, i)] == ':',
        forall|k: int| i <= k < first_colon(s, i) ==> #[trigger] s[k] != ':',
    decreases s.len() - i,
{
    if i < s.len() && s[i] != ':' {
        lemma_first_colon(s, i + 1);
    }
}

/// The known commands, in the order of `artisan_commands`.
pub fn artisan_command_list() -> (v: Vec<&'static str>)
    ensures
        v@ == artisan_commands(),
{
    vec![
        "about",
        "completion",
        "down",
        "env",
        "help",
        "inspire",
        "list",
        "migrate",
        "optimize",
        "optimize:clear",
        "serve",
        "test",
        "tinker",
        "up",
        "auth:clear-resets",
        "cache:clear",
        "cache:forget",
        "cache:prune-stale-tags",
        "cache:table",
        "config:cache",
        "config:clear",
        "config:publish",
        "config:show",
        "db",
        "db:monitor",
        "db:seed",
        "db:show",
        "db:table",
        "db:wipe",
        "event:cache",
        "event:clear",
        "event:generate",
        "event:list",
        "key:generate",
        "make:cast",
        "make:channel",
        "make:class",
        "make:command",
        "make:component",
        "make:controller",
        "make:enum",
        "make:event",
        "make:exception",
        "make:factory",
        "make:interface",
        "make:job",
        "make:listener",
        "make:livewire",
        "make:mail",
        "make:middleware",
        "make:migration",
        "make:model",
        "make:notification",
        "make:observer",
        "make:policy",
        "make:provider",
        "make:request",
        "make:resource",
        "make:rule",
        "make:scope",
        "make:seeder",
        "make:test",
        "make:trait",
        "make:view",
        "migrate:fresh",
        "migrate:install",
        "migrate:refresh",
        "migrate:reset",
        "migrate:rollback",
        "migrate:status",
        "model:prune",
        "model:show",
        "notification:table",
        "package:discover",
        "queue:batches-table",
        "queue:clear",
        "queue:failed",
        "queue:failed-table",
        "queue:flush",
        "queue:forget",
        "queue:listen",
        "queue:monitor",
        "queue:prune-batches",
        "queue:prune-failed",
        "queue:restart",
        "queue:retry",
        "queue:retry-batch",
        "queue:table",
        "queue:work",
        "route:cache",
        "route:clear",
        "route:list",
        "schedule:clear-cache",
        "schedule:interrupt",
        "schedule:list",
        "schedule:run",
        "schedule:test",
        "schedule:work",
        "schema:dump",
        "session:table",
        "storage:link",
        "storage:unlink",
        "stub:publish",
        "vendor:publish",
        "view:cache",
        "view:clear",
    ]
}

/// Returns `true` when `name` exactly matches a known Artisan command.
pub fn is_artisan_command(name: &str) -> (b: bool)
    ensures
        b == command_names().contains(name@),
{
    names_contain(&artisan_command_list(), name)
}

/// Returns the Artisan sub-command portion of a full command string.
///
/// e.g. `"make:controller"` → `Some("make:controller")`,
///      `"php artisan make:controller"` → `Some("make:controller")`
pub fn extract_command(input: &str) -> (r: Option<&str>)
    ensures
        match r {
            Some(c) => c@ == command_text(input@) && c@.len() > 0,
            None => command_text(input@).len() == 0,
        },
{
    let trimmed = trim_str(input);
    let chars = to_chars(trimmed);
    let cmd = if at_str(&chars, 0, "php artisan ") {
        let rest = trimmed.substring_char("php artisan ".unicode_len(), chars.len());
        trim_str(rest)
    } else if at_str(&chars, 0, "artisan ") {
        let rest = trimmed.substring_char("artisan ".unicode_len(), chars.len());
        trim_str(rest)
    } else {
        trimmed
    };
    if cmd.unicode_len() == 0 {
        None
    } else {
        Some(cmd)
    }
}

/// Returns the namespace portion of an Artisan command.
///
/// e.g. `"make:controller"` → `Some("make")`, `"migrate"` → `None`
pub fn command_namespace(command: &str) -> (r: Option<&str>)
    ensures
        match r {
            Some(ns) => namespace_of(command@) == Some(ns@),
            None => namespace_of(command@) is None,
        },
{
    let chars = to_chars(command);
    let mut j: usize = 0;
    while j < chars.len() && chars[j] != ':'
        invariant
            j <= chars@.len(),
            first_colon(chars@, j as int) == first_colon(chars@, 0),
        decreases chars@.len() - j,
    {
        j = j + 1;
    }
    if j < chars.len() {
        Some(command.substring_char(0, j))
    } else {
        None
    }
}

/// Returns all commands that belong to the given namespace, in list order.
pub fn commands_in_namespace(namespace: &str) -> (r: Vec<&'static str>)
    ensures
        r@ == artisan_commands().filter(in_namespace_fn(namespace@)),
{
    let list = artisan_command_list();
    let mut r: Vec<&'static str> = Vec::new();
    let mut i: usize = 0;
    assert(list@.take(0) =~= Seq::<&'static str>::empty());
    proof {
        reveal(Seq::filter);
    }
    while i < list.len()
        invariant
            i <= list@.len(),
            list@ == artisan_commands(),
            r@ == list@.take(i as int).filter(in_namespace_fn(namespace@)),
        decreases list@.len() - i,
    {
        let cmd = list[i];
        proof {
            list@.take(i as int).lemma_filter_push(cmd, in_namespace_fn(namespace@));
            assert(list@.take(i + 1) =~= list@.take(i as int).push(cmd));
        }
        match command_namespace(cmd) {
            Some(ns) => {
                if crate::text::str_eq(ns, namespace) {
                    r.push(cmd);
                }
            },
            None => {},
        }
        i = i + 1;
    }
    assert(list@.take(list@.len() as int) =~= list@);
    r
}

/// Returns all top-level namespaces present in the Artisan command list, each
/// once, in order of first appearance.
pub fn all_namespaces() -> (r: Vec<&'static str>)
    ensures
        str_views(r@) == namespaces_in(artisan_commands()),
{
    let list = artisan_command_list();
    let mut namespaces: Vec<&'static str> = Vec::new();
    let mut i: usize = 0;
    assert(list@.take(0) =~= Seq::<&'static str>::empty());
    while i < list.len()
        invariant
            i <= list@.len(),
            list@ == artisan_commands(),
            str_views(namespaces@) == namespaces_in(list@.take(i as int)),
        decreases list@.len() - i,
    {
        let cmd = list[i];
        assert(list@.take(i + 1).drop_last() =~= list@.take(i as int));
        assert(list@.take(i + 1).last() == cmd);
        match command_namespace(cmd) {
            Some(ns) => {
                if !names_contain(&namespaces, ns) {
                    let ghost before = namespaces@;
                    namespaces.push(ns);
                    assert(str_views(namespaces@) =~= str_views(before).push(ns@));
                }
            },
            None => {},
        }
        i = i + 1;
    }
    assert(list@.take(list@.len() as int) =~= list@);
    namespaces
}

} // verus!
