//! The completions the language server offers: everything in the project
//! index, then the built-in helpers and facades; and which saved or opened
//! documents call for a new scan.
use vstd::prelude::*;
use crate::lsp::indexer::strip_suffixes;
use crate::completion::{blade_directive_list, blade_directives};
use crate::lsp::scanner::LaravelIndex;
use vstd::utf8::is_ascii_chars;
use crate::text::{at_lit, concat2, concat3, contains_at_some, contains_chars, ends_with, has_at, owned, string_of, to_chars};

verus! {

/// Laravel helper functions with their signatures.
pub open spec fn helper_signatures() -> Seq<(&'static str, &'static str)> {
    seq![
        ("abort", "abort(int $code, string $message = '')"),
        ("abort_if", "abort_if(bool $condition, int $code, string $message = '')"),
        ("abort_unless", "abort_unless(bool $condition, int $code, string $message = '')"),
        ("app", "app(string|null $abstract = null): mixed"),
        ("app_path", "app_path(string $path = ''): string"),
        ("asset", "asset(string $path, bool|null $secure = null): string"),
        ("auth", "auth(string|null $guard = null): \\Illuminate\\Auth\\AuthManager"),
        ("back", "back(int $status = 302, array $headers = [], bool $fallback = false): RedirectResponse"),
        ("base_path", "base_path(string $path = ''): string"),
        ("bcrypt", "bcrypt(string $value, array $options = []): string"),
        ("blank", "blank(mixed $value): bool"),
        ("broadcast", "broadcast(mixed $event): PendingBroadcast"),
        ("cache", "cache(array|string|null $key = null, mixed $default = null): mixed"),
        ("config", "config(array|string|null $key = null, mixed $default = null): mixed"),
        ("config_path", "config_path(string $path = ''): string"),
        ("cookie", "cookie(string|null $name = null, mixed $value = null, int $minutes = 0): mixed"),
        ("csrf_field", "csrf_field(): HtmlString"),
        ("csrf_token", "csrf_token(): string"),
        ("database_path", "database_path(string $path = ''): string"),
        ("dd", "dd(mixed ...$vars): never"),
        ("dispatch", "dispatch(mixed $job): mixed"),
        ("dispatch_sync", "dispatch_sync(mixed $job, mixed $handler = null): mixed"),
        ("dump", "dump(mixed ...$vars): void"),
        ("encrypt", "encrypt(mixed $value, bool $serialize = true): string"),
        ("env", "env(string $key, mixed $default = null): mixed"),
        ("event", "event(string|object $event, mixed $payload = [], bool $halt = false): array|null"),
        ("filled", "filled(mixed $value): bool"),
        ("info", "info(string $message, array $context = []): void"),
        ("lang_path", "lang_path(string $path = ''): string"),
        ("logger", "logger(string|null $message = null, array $context = []): mixed"),
        ("method_field", "method_field(string $method): HtmlString"),
        ("mix", "mix(string $path, string $manifestDirectory = ''): HtmlString|string"),
        ("now", "now(DateTimeZone|string|null $tz = null): Illuminate\\Support\\Carbon"),
        ("old", "old(string|null $key = null, mixed $default = null): mixed"),
        ("optional", "optional(mixed $value = null, callable|null $callback = null): mixed"),
        ("policy", "policy(object|string $class): mixed"),
        ("public_path", "public_path(string $path = ''): string"),
        ("redirect", "redirect(string|null $to = null, int $status = 302): mixed"),
        ("report", "report(Throwable|string $exception): void"),
        ("request", "request(array|string|null $key = null, mixed $default = null): mixed"),
        ("rescue", "rescue(callable $callback, mixed $rescue = null, bool $report = true): mixed"),
        ("resolve", "resolve(string $name, array $parameters = []): mixed"),
        ("resource_path", "resource_path(string $path = ''): string"),
        ("response", "response(mixed $content = null, int $status = 200, array $headers = []): mixed"),
        ("retry", "retry(int $times, callable $callback, int $sleep = 0, callable|null $when = null): mixed"),
        ("route", "route(string $name, mixed $parameters = [], bool $absolute = true): string"),
        ("secure_asset", "secure_asset(string $path): string"),
        ("secure_url", "secure_url(string $path, mixed $parameters = []): string"),
        ("session", "session(array|string|null $key = null, mixed $default = null): mixed"),
        ("storage_path", "storage_path(string $path = ''): string"),
        ("str", "str(string|null $string = null): mixed"),
        ("tap", "tap(mixed $value, callable|null $callback = null): mixed"),
        ("throw_if", "throw_if(mixed $condition, Throwable|string $exception, mixed ...$parameters): mixed"),
        ("throw_unless", "throw_unless(mixed $condition, Throwable|string $exception, mixed ...$parameters): mixed"),
        ("today", "today(DateTimeZone|string|null $tz = null): Illuminate\\Support\\Carbon"),
        ("trans", "trans(string|null $key = null, array $replace = [], string|null $locale = null): mixed"),
        ("trans_choice", "trans_choice(string $key, int|float|array $number, array $replace = [], string|null $locale = null): string"),
        ("to_route", "to_route(string $route, mixed $parameters = [], int $status = 302, array $headers = []): RedirectResponse"),
        ("url", "url(string|null $path = null, mixed $parameters = [], bool|null $secure = null): mixed"),
        ("validator", "validator(array $data = [], array $rules = [], array $messages = [], array $attributes = []): mixed"),
        ("value", "value(mixed $value, mixed ...$args): mixed"),
        ("view", "view(string|null $view = null, mixed $data = [], array $mergeData = []): mixed"),
        ("with", "with(mixed $value, callable|null $callback = null): mixed"),
    ]
}

pub fn helper_signature_list() -> (v: Vec<(&'static str, &'static str)>)
    ensures
        v@ == helper_signatures(),
{
    vec![
        ("abort", "abort(int $code, string $message = '')"),
        ("abort_if", "abort_if(bool $condition, int $code, string $message = '')"),
        ("abort_unless", "abort_unless(bool $condition, int $code, string $message = '')"),
        ("app", "app(string|null $abstract = null): mixed"),
        ("app_path", "app_path(string $path = ''): string"),
        ("asset", "asset(string $path, bool|null $secure = null): string"),
        ("auth", "auth(string|null $guard = null): \\Illuminate\\Auth\\AuthManager"),
        ("back", "back(int $status = 302, array $headers = [], bool $fallback = false): RedirectResponse"),
        ("base_path", "base_path(string $path = ''): string"),
        ("bcrypt", "bcrypt(string $value, array $options = []): string"),
        ("blank", "blank(mixed $value): bool"),
        ("broadcast", "broadcast(mixed $event): PendingBroadcast"),
        ("cache", "cache(array|string|null $key = null, mixed $default = null): mixed"),
        ("config", "config(array|string|null $key = null, mixed $default = null): mixed"),
        ("config_path", "config_path(string $path = ''): string"),
        ("cookie", "cookie(string|null $name = null, mixed $value = null, int $minutes = 0): mixed"),
        ("csrf_field", "csrf_field(): HtmlString"),
        ("csrf_token", "csrf_token(): string"),
        ("database_path", "database_path(string $path = ''): string"),
        ("dd", "dd(mixed ...$vars): never"),
        ("dispatch", "dispatch(mixed $job): mixed"),
        ("dispatch_sync", "dispatch_sync(mixed $job, mixed $handler = null): mixed"),
        ("dump", "dump(mixed ...$vars): void"),
        ("encrypt", "encrypt(mixed $value, bool $serialize = true): string"),
        ("env", "env(string $key, mixed $default = null): mixed"),
        ("event", "event(string|object $event, mixed $payload = [], bool $halt = false): array|null"),
        ("filled", "filled(mixed $value): bool"),
        ("info", "info(string $message, array $context = []): void"),
        ("lang_path", "lang_path(string $path = ''): string"),
        ("logger", "logger(string|null $message = null, array $context = []): mixed"),
        ("method_field", "method_field(string $method): HtmlString"),
        ("mix", "mix(string $path, string $manifestDirectory = ''): HtmlString|string"),
        ("now", "now(DateTimeZone|string|null $tz = null): Illuminate\\Support\\Carbon"),
        ("old", "old(string|null $key = null, mixed $default = null): mixed"),
        ("optional", "optional(mixed $value = null, callable|null $callback = null): mixed"),
        ("policy", "policy(object|string $class): mixed"),
        ("public_path", "public_path(string $path = ''): string"),
        ("redirect", "redirect(string|null $to = null, int $status = 302): mixed"),
        ("report", "report(Throwable|string $exception): void"),
        ("request", "request(array|string|null $key = null, mixed $default = null): mixed"),
        ("rescue", "rescue(callable $callback, mixed $rescue = null, bool $report = true): mixed"),
        ("resolve", "resolve(string $name, array $parameters = []): mixed"),
        ("resource_path", "resource_path(string $path = ''): string"),
        ("response", "response(mixed $content = null, int $status = 200, array $headers = []): mixed"),
        ("retry", "retry(int $times, callable $callback, int $sleep = 0, callable|null $when = null): mixed"),
        ("route", "route(string $name, mixed $parameters = [], bool $absolute = true): string"),
        ("secure_asset", "secure_asset(string $path): string"),
        ("secure_url", "secure_url(string $path, mixed $parameters = []): string"),
        ("session", "session(array|string|null $key = null, mixed $default = null): mixed"),
        ("storage_path", "storage_path(string $path = ''): string"),
        ("str", "str(string|null $string = null): mixed"),
        ("tap", "tap(mixed $value, callable|null $callback = null): mixed"),
        ("throw_if", "throw_if(mixed $condition, Throwable|string $exception, mixed ...$parameters): mixed"),
        ("throw_unless", "throw_unless(mixed $condition, Throwable|string $exception, mixed ...$parameters): mixed"),
        ("today", "today(DateTimeZone|string|null $tz = null): Illuminate\\Support\\Carbon"),
        ("trans", "trans(string|null $key = null, array $replace = [], string|null $locale = null): mixed"),
        ("trans_choice", "trans_choice(string $key, int|float|array $number, array $replace = [], string|null $locale = null): string"),
        ("to_route", "to_route(string $route, mixed $parameters = [], int $status = 302, array $headers = []): RedirectResponse"),
        ("url", "url(string|null $path = null, mixed $parameters = [], bool|null $secure = null): mixed"),
        ("validator", "validator(array $data = [], array $rules = [], array $messages = [], array $attributes = []): mixed"),
        ("value", "value(mixed $value, mixed ...$args): mixed"),
        ("view", "view(string|null $view = null, mixed $data = [], array $mergeData = []): mixed"),
        ("with", "with(mixed $value, callable|null $callback = null): mixed"),
    ]
}

/// Laravel facades with the classes they stand for.
pub open spec fn facade_classes() -> Seq<(&'static str, &'static str)> {
    seq![
        ("App", "Illuminate\\Foundation\\Application"),
        ("Artisan", "Illuminate\\Contracts\\Console\\Kernel"),
        ("Auth", "Illuminate\\Auth\\AuthManager"),
        ("Blade", "Illuminate\\View\\Compilers\\BladeCompiler"),
        ("Broadcast", "Illuminate\\Contracts\\Broadcasting\\Factory"),
        ("Bus", "Illuminate\\Contracts\\Bus\\Dispatcher"),
        ("Cache", "Illuminate\\Cache\\CacheManager"),
        ("Config", "Illuminate\\Config\\Repository"),
        ("Cookie", "Illuminate\\Cookie\\CookieJar"),
        ("Crypt", "Illuminate\\Encryption\\Encrypter"),
        ("DB", "Illuminate\\Database\\DatabaseManager"),
        ("Event", "Illuminate\\Events\\Dispatcher"),
        ("File", "Illuminate\\Filesystem\\Filesystem"),
        ("Gate", "Illuminate\\Contracts\\Auth\\Access\\Gate"),
        ("Hash", "Illuminate\\Hashing\\HashManager"),
        ("Http", "Illuminate\\Http\\Client\\Factory"),
        ("Lang", "Illuminate\\Translation\\Translator"),
        ("Log", "Illuminate\\Log\\LogManager"),
        ("Mail", "Illuminate\\Mail\\Mailer"),
        ("Notification", "Illuminate\\Notifications\\ChannelManager"),
        ("Password", "Illuminate\\Auth\\Passwords\\PasswordBrokerManager"),
        ("Queue", "Illuminate\\Queue\\QueueManager"),
        ("Redirect", "Illuminate\\Routing\\Redirector"),
        ("Request", "Illuminate\\Http\\Request"),
        ("Response", "Illuminate\\Contracts\\Routing\\ResponseFactory"),
        ("Route", "Illuminate\\Routing\\Router"),
        ("Schema", "Illuminate\\Database\\Schema\\Builder"),
        ("Session", "Illuminate\\Session\\SessionManager"),
        ("Storage", "Illuminate\\Filesystem\\FilesystemManager"),
        ("URL", "Illuminate\\Routing\\UrlGenerator"),
        ("Validator", "Illuminate\\Validation\\Factory"),
        ("View", "Illuminate\\View\\Factory"),
    ]
}

pub fn facade_class_list() -> (v: Vec<(&'static str, &'static str)>)
    ensures
        v@ == facade_classes(),
{
    vec![
        ("App", "Illuminate\\Foundation\\Application"),
        ("Artisan", "Illuminate\\Contracts\\Console\\Kernel"),
        ("Auth", "Illuminate\\Auth\\AuthManager"),
        ("Blade", "Illuminate\\View\\Compilers\\BladeCompiler"),
        ("Broadcast", "Illuminate\\Contracts\\Broadcasting\\Factory"),
        ("Bus", "Illuminate\\Contracts\\Bus\\Dispatcher"),
        ("Cache", "Illuminate\\Cache\\CacheManager"),
        ("Config", "Illuminate\\Config\\Repository"),
        ("Cookie", "Illuminate\\Cookie\\CookieJar"),
        ("Crypt", "Illuminate\\Encryption\\Encrypter"),
        ("DB", "Illuminate\\Database\\DatabaseManager"),
        ("Event", "Illuminate\\Events\\Dispatcher"),
        ("File", "Illuminate\\Filesystem\\Filesystem"),
        ("Gate", "Illuminate\\Contracts\\Auth\\Access\\Gate"),
        ("Hash", "Illuminate\\Hashing\\HashManager"),
        ("Http", "Illuminate\\Http\\Client\\Factory"),
        ("Lang", "Illuminate\\Translation\\Translator"),
        ("Log", "Illuminate\\Log\\LogManager"),
        ("Mail", "Illuminate\\Mail\\Mailer"),
        ("Notification", "Illuminate\\Notifications\\ChannelManager"),
        ("Password", "Illuminate\\Auth\\Passwords\\PasswordBrokerManager"),
        ("Queue", "Illuminate\\Queue\\QueueManager"),
        ("Redirect", "Illuminate\\Routing\\Redirector"),
        ("Request", "Illuminate\\Http\\Request"),
        ("Response", "Illuminate\\Contracts\\Routing\\ResponseFactory"),
        ("Route", "Illuminate\\Routing\\Router"),
        ("Schema", "Illuminate\\Database\\Schema\\Builder"),
        ("Session", "Illuminate\\Session\\SessionManager"),
        ("Storage", "Illuminate\\Filesystem\\FilesystemManager"),
        ("URL", "Illuminate\\Routing\\UrlGenerator"),
        ("Validator", "Illuminate\\Validation\\Factory"),
        ("View", "Illuminate\\View\\Factory"),
    ]
}

/// The kind shown for a completion item.
pub enum EntryKind {
    Reference,
    Value,
    Class,
    Field,
    Function,
    Keyword,
}

/// How the insert text of a completion item is read.
pub enum EntryFormat {
    PlainText,
    Snippet,
}

/// One completion item: label, kind, detail, text to insert, its format, and
/// Markdown documentation.
pub struct CompletionEntry {
    pub label: String,
    pub kind: EntryKind,
    pub detail: String,
    pub insert_text: String,
    pub format: EntryFormat,
    pub documentation: String,
}

pub type EntryView = (Seq<char>, EntryKind, Seq<char>, Seq<char>, EntryFormat, Seq<char>);

impl View for CompletionEntry {
    type V = (Seq<char>, EntryKind, Seq<char>, Seq<char>, EntryFormat, Seq<char>);

    open spec fn view(&self) -> (Seq<char>, EntryKind, Seq<char>, Seq<char>, EntryFormat, Seq<char>) {
        (self.label@, self.kind, self.detail@, self.insert_text@, self.format, self.documentation@)
    }
}

/// The sections of the project index that become completions.
pub enum Section {
    Route,
    Uri,
    Component,
    Property,
    Controller,
}

/// `s` with `p` removed from its start as many times as it occurs there
/// (`trim_start_matches`).
pub open spec fn strip_prefixes(s: Seq<char>, p: Seq<char>) -> Seq<char>
    decreases s.len(),
{
    if p.len() > 0 && has_at(s, 0, p) {
        strip_prefixes(s.skip(p.len() as int), p)
    } else {
        s
    }
}

/// The name inside a `<x-name />` tag.
pub open spec fn tag_inner(c: Seq<char>) -> Seq<char> {
    strip_suffixes(strip_prefixes(c, "<x-"@), " />"@)
}

/// The completion item for one name of a section of the index.
pub open spec fn section_entry(sec: Section, n: Seq<char>) -> EntryView {
    match sec {
        Section::Route => (
            n,
            EntryKind::Reference,
            "Named Route"@,
            n,
            EntryFormat::PlainText,
            "**Named route** `"@ + n + "`\n\n```php\nroute('"@ + n + "')\n```"@,
        ),
        Section::Uri => (n, EntryKind::Value, "Route URI"@, n, EntryFormat::PlainText, "**Route URI** `"@ + n + "`"@),
        Section::Component => (
            n,
            EntryKind::Class,
            "Blade Component"@,
            "<x-"@ + tag_inner(n) + " ${1} />"@,
            EntryFormat::Snippet,
            "**Blade Component**\n\n```blade\n"@ + n + "\n```"@,
        ),
        Section::Property => (
            n,
            EntryKind::Field,
            "Model Property"@,
            n,
            EntryFormat::PlainText,
            "**Fillable property** `"@ + n + "`\n\nDeclared in a model's `$fillable` array."@,
        ),
        Section::Controller => (
            n,
            EntryKind::Class,
            "Controller"@,
            n + "::class"@,
            EntryFormat::PlainText,
            "**Laravel Controller** `"@ + n + "`"@,
        ),
    }
}

pub open spec fn section_entry_fn(sec: Section) -> spec_fn(Seq<char>) -> EntryView {
    |n: Seq<char>| section_entry(sec, n)
}

/// The completion item of a helper function and its signature.
pub open spec fn helper_entry(h: (&'static str, &'static str)) -> EntryView {
    (
        h.0@,
        EntryKind::Function,
        "Laravel Helper"@,
        h.0@ + "(${1})"@,
        EntryFormat::Snippet,
        "**Laravel Helper**\n\n```php\n"@ + h.1@ + "\n```"@,
    )
}

/// The completion item of a facade and the class behind it.
pub open spec fn facade_entry(f: (&'static str, &'static str)) -> EntryView {
    (
        f.0@,
        EntryKind::Class,
        "Laravel Facade"@,
        f.0@,
        EntryFormat::PlainText,
        "**Laravel Facade** `"@ + f.0@ + "`\n\nAlias for `"@ + f.1@ + "`"@,
    )
}

/// The completion item of a Blade directive.
pub open spec fn directive_entry(d: &'static str) -> EntryView {
    (d@, EntryKind::Keyword, "Blade Directive"@, d@, EntryFormat::PlainText, "**Blade Directive** `"@ + d@ + "`"@)
}

pub open spec fn directive_entry_fn() -> spec_fn(&'static str) -> EntryView {
    |d: &'static str| directive_entry(d)
}

pub open spec fn helper_entry_fn() -> spec_fn((&'static str, &'static str)) -> EntryView {
    |h: (&'static str, &'static str)| helper_entry(h)
}

pub open spec fn facade_entry_fn() -> spec_fn((&'static str, &'static str)) -> EntryView {
    |f: (&'static str, &'static str)| facade_entry(f)
}

pub open spec fn entries_view(v: Seq<CompletionEntry>) -> Seq<EntryView> {
    v.map_values(|e: CompletionEntry| e@)
}

/// Every completion item, in order: named routes, route URIs, Blade
/// components, model properties, controllers, then the built-in helpers,
/// facades and Blade directives.
pub open spec fn all_entries(idx: LaravelIndex) -> Seq<EntryView> {
    idx.routes.deep_view().map_values(section_entry_fn(Section::Route))
        + idx.route_uris.deep_view().map_values(section_entry_fn(Section::Uri))
        + idx.blade_components.deep_view().map_values(section_entry_fn(Section::Component))
        + idx.model_properties.deep_view().map_values(section_entry_fn(Section::Property))
        + idx.controllers.deep_view().map_values(section_entry_fn(Section::Controller))
        + helper_signatures().map_values(helper_entry_fn())
        + facade_classes().map_values(facade_entry_fn())
        + blade_directives().map_values(directive_entry_fn())
}

/// The name inside a `<x-name />` tag.
pub fn tag_inner_of(c: &str) -> (r: String)
    ensures
        r@ == tag_inner(c@),
{
    let v = to_chars(c);
    let open = to_chars("<x-");
    let close = to_chars(" />");
    let mut a: usize = 0;
    let n = v.len();
    assert(v@.skip(0) =~= v@);
    while open.len() > 0 && at_lit(&v, a, &open)
        invariant
            a <= v@.len(),
            v@.len() == n,
            open@ == "<x-"@,
            strip_prefixes(v@.skip(a as int), open@) == strip_prefixes(v@, open@),
        decreases v@.len() - a,
    {
        let ghost rest = v@.skip(a as int);
        assert(rest.subrange(0, open@.len() as int) =~= v@.subrange(a as int, a + open@.len()));
        assert(rest.skip(open@.len() as int) =~= v@.skip(a + open@.len()));
        a = a + open.len();
    }
    proof {
        let rest = v@.skip(a as int);
        if open@.len() > 0 && a + open@.len() <= v@.len() {
            assert(rest.subrange(0, open@.len() as int) =~= v@.subrange(a as int, a + open@.len()));
        }
    }
    let rest = string_of(&v, a, v.len());
    let w = to_chars(rest.as_str());
    assert(w@ =~= v@.skip(a as int));
    let mut e = w.len();
    assert(w@.take(e as int) =~= w@);
    while close.len() > 0 && close.len() <= e && at_lit(&w, e - close.len(), &close)
        invariant
            e <= w@.len(),
            strip_suffixes(w@.take(e as int), close@) == strip_suffixes(w@, close@),
        decreases e,
    {
        let ghost t = w@.take(e as int);
        assert(t.subrange(e - close@.len(), e as int) =~= w@.subrange(e - close@.len(), e as int));
        assert(t.take(t.len() - close@.len()) =~= w@.take(e - close@.len()));
        e = e - close.len();
    }
    proof {
        let t = w@.take(e as int);
        if close@.len() > 0 && close@.len() <= e {
            assert(t.subrange(e - close@.len(), e as int) =~= w@.subrange(e - close@.len(), e as int));
        }
    }
    let r = string_of(&w, 0, e);
    assert(r@ =~= w@.take(e as int));
    r
}

/// The completion item for the name `n` of a section.
pub fn section_entry_of(sec: &Section, n: &str) -> (r: CompletionEntry)
    ensures
        r@ == section_entry(*sec, n@),
{
    match sec {
        Section::Route => {
            let mut doc = concat3("**Named route** `", n, "`\n\n```php\nroute('");
            doc.append(n);
            doc.append("')\n```");
            CompletionEntry {
                label: owned(n),
                kind: EntryKind::Reference,
                detail: owned("Named Route"),
                insert_text: owned(n),
                format: EntryFormat::PlainText,
                documentation: doc,
            }
        },
        Section::Uri => CompletionEntry {
            label: owned(n),
            kind: EntryKind::Value,
            detail: owned("Route URI"),
            insert_text: owned(n),
            format: EntryFormat::PlainText,
            documentation: concat3("**Route URI** `", n, "`"),
        },
        Section::Component => {
            let inner = tag_inner_of(n);
            CompletionEntry {
                label: owned(n),
                kind: EntryKind::Class,
                detail: owned("Blade Component"),
                insert_text: concat3("<x-", inner.as_str(), " ${1} />"),
                format: EntryFormat::Snippet,
                documentation: concat3("**Blade Component**\n\n```blade\n", n, "\n```"),
            }
        },
        Section::Property => CompletionEntry {
            label: owned(n),
            kind: EntryKind::Field,
            detail: owned("Model Property"),
            insert_text: owned(n),
            format: EntryFormat::PlainText,
            documentation: concat3(
                "**Fillable property** `",
                n,
                "`\n\nDeclared in a model's `$fillable` array.",
            ),
        },
        Section::Controller => CompletionEntry {
            label: owned(n),
            kind: EntryKind::Class,
            detail: owned("Controller"),
            insert_text: concat2(n, "::class"),
            format: EntryFormat::PlainText,
            documentation: concat3("**Laravel Controller** `", n, "`"),
        },
    }
}

/// Appends the items for the names of one section of the index.
fn push_section(names: &Vec<String>, sec: Section, out: &mut Vec<CompletionEntry>)
    ensures
        entries_view(final(out)@) == entries_view(old(out)@) + names.deep_view().map_values(
            section_entry_fn(sec),
        ),
{
    let ghost start = entries_view(out@);
    let mut i: usize = 0;
    while i < names.len()
        invariant
            i <= names@.len(),
            entries_view(out@) =~= start + names.deep_view().take(i as int).map_values(
                section_entry_fn(sec),
            ),
        decreases names@.len() - i,
    {
        let e = section_entry_of(&sec, names[i].as_str());
        let ghost before = out@;
        out.push(e);
        assert(entries_view(out@) =~= entries_view(before).push(e@));
        assert(names.deep_view().take(i + 1) =~= names.deep_view().take(i as int).push(
            names@[i as int]@,
        ));
        assert(names.deep_view().take(i + 1).map_values(section_entry_fn(sec)) =~= names.deep_view().take(
            i as int,
        ).map_values(section_entry_fn(sec)).push(section_entry(sec, names@[i as int]@)));
        i = i + 1;
    }
    assert(names.deep_view().take(names@.len() as int) =~= names.deep_view());
}

/// Appends the items of the built-in helpers, then of the built-in facades.
fn push_builtins(out: &mut Vec<CompletionEntry>)
    ensures
        entries_view(final(out)@) == entries_view(old(out)@) + helper_signatures().map_values(
            helper_entry_fn(),
        ) + facade_classes().map_values(facade_entry_fn()),
{
    let helpers = helper_signature_list();
    let ghost start = entries_view(out@);
    let mut i: usize = 0;
    while i < helpers.len()
        invariant
            i <= helpers@.len(),
            helpers@ == helper_signatures(),
            entries_view(out@) =~= start + helpers@.take(i as int).map_values(helper_entry_fn()),
        decreases helpers@.len() - i,
    {
        let (name, signature) = helpers[i];
        let e = CompletionEntry {
            label: owned(name),
            kind: EntryKind::Function,
            detail: owned("Laravel Helper"),
            insert_text: concat2(name, "(${1})"),
            format: EntryFormat::Snippet,
            documentation: concat3("**Laravel Helper**\n\n```php\n", signature, "\n```"),
        };
        let ghost before = out@;
        out.push(e);
        assert(entries_view(out@) =~= entries_view(before).push(e@));
        assert(helpers@.take(i + 1).map_values(helper_entry_fn()) =~= helpers@.take(i as int).map_values(
            helper_entry_fn(),
        ).push(helper_entry(helpers@[i as int])));
        i = i + 1;
    }
    assert(helpers@.take(helpers@.len() as int) =~= helpers@);
    let facades = facade_class_list();
    let ghost mid = entries_view(out@);
    let mut k: usize = 0;
    while k < facades.len()
        invariant
            k <= facades@.len(),
            facades@ == facade_classes(),
            entries_view(out@) =~= mid + facades@.take(k as int).map_values(facade_entry_fn()),
        decreases facades@.len() - k,
    {
        let (facade, fqn) = facades[k];
        let mut doc = concat3("**Laravel Facade** `", facade, "`\n\nAlias for `");
        doc.append(fqn);
        doc.append("`");
        let e = CompletionEntry {
            label: owned(facade),
            kind: EntryKind::Class,
            detail: owned("Laravel Facade"),
            insert_text: owned(facade),
            format: EntryFormat::PlainText,
            documentation: doc,
        };
        let ghost before = out@;
        out.push(e);
        assert(entries_view(out@) =~= entries_view(before).push(e@));
        assert(facades@.take(k + 1).map_values(facade_entry_fn()) =~= facades@.take(k as int).map_values(
            facade_entry_fn(),
        ).push(facade_entry(facades@[k as int])));
        k = k + 1;
    }
    assert(facades@.take(facades@.len() as int) =~= facades@);
}

/// Appends the items of the Blade directives.
fn push_directives(out: &mut Vec<CompletionEntry>)
    ensures
        entries_view(final(out)@) == entries_view(old(out)@) + blade_directives().map_values(
            directive_entry_fn(),
        ),
{
    let directives = blade_directive_list();
    let ghost start = entries_view(out@);
    let mut i: usize = 0;
    while i < directives.len()
        invariant
            i <= directives@.len(),
            directives@ == blade_directives(),
            entries_view(out@) =~= start + directives@.take(i as int).map_values(directive_entry_fn()),
        decreases directives@.len() - i,
    {
        let d = directives[i];
        let e = CompletionEntry {
            label: owned(d),
            kind: EntryKind::Keyword,
            detail: owned("Blade Directive"),
            insert_text: owned(d),
            format: EntryFormat::PlainText,
            documentation: concat3("**Blade Directive** `", d, "`"),
        };
        let ghost before = out@;
        out.push(e);
        assert(entries_view(out@) =~= entries_view(before).push(e@));
        assert(directives@.take(i + 1).map_values(directive_entry_fn()) =~= directives@.take(
            i as int,
        ).map_values(directive_entry_fn()).push(directive_entry(directives@[i as int])));
        i = i + 1;
    }
    assert(directives@.take(directives@.len() as int) =~= directives@);
}

/// Every completion item for the project: routes, route URIs, components,
/// model properties and controllers from the index, then the built-in
/// helpers, facades and Blade directives.
pub fn completion_entries(index: &LaravelIndex) -> (r: Vec<CompletionEntry>)
    ensures
        entries_view(r@) == all_entries(*index),
{
    let mut items: Vec<CompletionEntry> = Vec::new();
    assert(entries_view(items@) =~= Seq::<EntryView>::empty());
    push_section(&index.routes, Section::Route, &mut items);
    push_section(&index.route_uris, Section::Uri, &mut items);
    push_section(&index.blade_components, Section::Component, &mut items);
    push_section(&index.model_properties, Section::Property, &mut items);
    push_section(&index.controllers, Section::Controller, &mut items);
    push_builtins(&mut items);
    push_directives(&mut items);
    assert(entries_view(items@) =~= all_entries(*index));
    items
}

/// The answer to a completion request: every item, or nothing when there
/// are none.
pub fn completion(index: &LaravelIndex) -> (r: Option<Vec<CompletionEntry>>)
    ensures
        match r {
            Some(v) => entries_view(v@) == all_entries(*index) && v@.len() > 0,
            None => all_entries(*index).len() == 0,
        },
{
    let items = completion_entries(index);
    if items.len() == 0 {
        return None;
    }
    Some(items)
}

/// Name for what `str::to_lowercase` returns for `s` (the Unicode lowercase
/// mapping, which can depend on context, as for a final `Σ`).
pub uninterp spec fn lowercase(s: Seq<char>) -> Seq<char>;

/// The ASCII lowercase of a character: `A` to `Z` become `a` to `z`, every
/// other character stays as it is.
pub open spec fn ascii_lower(c: char) -> char {
    if 'A' <= c && c <= 'Z' {
        ((c as u32) + 32) as char
    } else {
        c
    }
}

/// Calls `str::to_lowercase`. Its result is named; of an ASCII string the
/// contract also states it, character by character, as its documentation
/// (that of `to_ascii_lowercase` too) gives it: `A` to `Z` become `a` to
/// `z`, other ASCII characters stay. What it makes of other characters is
/// left to the name.
#[verifier::external_body]
fn to_lowercase(s: &str) -> (r: String)
    ensures
        r@ == lowercase(s@),
        is_ascii_chars(s@) ==> r@ == s@.map_values(|c: char| ascii_lower(c)),
{
    s.to_lowercase()
}

/// Whether a lower-cased document path points into routes, models or
/// components, or at a Blade template.
pub open spec fn indexable(lower: Seq<char>) -> bool {
    ||| contains_at_some(lower, "/routes/"@)
    ||| contains_at_some(lower, "/models/"@)
    ||| contains_at_some(lower, "/components/"@)
    ||| ends_with(lower, ".blade.php"@)
}

/// Whether an already lower-cased path is one whose change calls for a new
/// scan of the project.
pub fn is_indexable_lowercase(lower: &str) -> (b: bool)
    ensures
        b == indexable(lower@),
{
    let v = to_chars(lower);
    let blade = to_chars(".blade.php");
    contains_chars(&v, &to_chars("/routes/")) || contains_chars(&v, &to_chars("/models/"))
        || contains_chars(&v, &to_chars("/components/")) || (blade.len() <= v.len() && at_lit(
        &v,
        v.len() - blade.len(),
        &blade,
    ))
}

/// Whether a document path (of a route, model or Blade component file)
/// likely affects the index.
pub fn is_indexable_path(path: &str) -> (b: bool)
    ensures
        b == indexable(lowercase(path@)),
        is_ascii_chars(path@) ==> b == indexable(path@.map_values(|c: char| ascii_lower(c))),
{
    let lower = to_lowercase(path);
    is_indexable_lowercase(lower.as_str())
}

} // verus!
