//! The built-in slash commands: what each of them asks of the host.
//!
//! A command that takes its arguments as JSON gets them parsed by the host:
//! `json_argument` says which text to parse, and `builtin_action` takes the
//! value that came of it.

use vstd::prelude::*;
use vstd::string::*;
use crate::config::{Config, ConfigView, McpServer, McpServerView, ModelConfigView, SandboxConfigView,
    ShellConfigView, CompactConfigView, absent_config};
use crate::compact::{join_all, joined_all};
use crate::json::{JsonValue, JsonView, json_member, json_text, json_texts, text_at, texts_at};
use crate::strmap::StrMap;
use crate::text::{digits_value, join_words, parse_u64, spaced, split_words, str_eq, trim, trimmed,
    words_of};

verus! {

/// Why a built-in command could not be carried out.
#[derive(Debug, PartialEq, Eq)]
pub enum BuiltinError {
    /// The arguments do not fit the command; `text` says how to call it.
    Usage { text: String },
    /// `/config-set` does not know the path.
    UnsupportedPath { path: String },
    /// The value is neither `true` nor `false`.
    NotABool { value: String },
    /// The arguments are no JSON.
    InvalidJson,
    /// The JSON lacks what the command needs.
    Missing { what: String },
}

pub ghost enum BuiltinErrorView {
    Usage { text: Seq<char> },
    UnsupportedPath { path: Seq<char> },
    NotABool { value: Seq<char> },
    InvalidJson,
    Missing { what: Seq<char> },
}

impl DeepView for BuiltinError {
    type V = BuiltinErrorView;

    open spec fn deep_view(&self) -> BuiltinErrorView {
        match self {
            BuiltinError::Usage { text } => BuiltinErrorView::Usage { text: text@ },
            BuiltinError::UnsupportedPath { path } => BuiltinErrorView::UnsupportedPath {
                path: path@,
            },
            BuiltinError::NotABool { value } => BuiltinErrorView::NotABool { value: value@ },
            BuiltinError::InvalidJson => BuiltinErrorView::InvalidJson,
            BuiltinError::Missing { what } => BuiltinErrorView::Missing { what: what@ },
        }
    }
}

impl BuiltinError {
    pub fn message(&self) -> (r: String)
        ensures
            r@ == match self {
                BuiltinError::Usage { text } => text@,
                BuiltinError::UnsupportedPath { path } => "unsupported path: "@ + path@,
                BuiltinError::NotABool { value } => "not true or false: "@ + value@,
                BuiltinError::InvalidJson => "invalid JSON"@,
                BuiltinError::Missing { what } => what@,
            },
    {
        match self {
            BuiltinError::Usage { text } => text.clone(),
            BuiltinError::UnsupportedPath { path } => {
                let mut s = "unsupported path: ".to_owned();
                s.append(path.as_str());
                s
            },
            BuiltinError::NotABool { value } => {
                let mut s = "not true or false: ".to_owned();
                s.append(value.as_str());
                s
            },
            BuiltinError::InvalidJson => "invalid JSON".to_owned(),
            BuiltinError::Missing { what } => what.clone(),
        }
    }
}

/// What a built-in command asks of the host.
#[derive(Debug)]
pub enum BuiltinAction {
    /// Merge the patch into the runtime overlay and answer with `reply`.
    ApplyOverlay { patch: Config, reply: String },
    /// Write the patch to the workspace scope and answer with `reply`.
    WriteWorkspacePatch { patch: Config, reply: String },
    /// Add a to-do.
    TodoAdd { title: String, description: Option<String>, files: Vec<String>, tags: Vec<String> },
    /// List the to-dos.
    TodoList,
    /// Mark a to-do as done.
    TodoDone { id: String },
    /// Take a to-do out of the store.
    TodoRemove { id: String },
    /// Compact by hand.
    Compact { focus: Option<String>, include_globs: Vec<String>, conversation_tail: String },
    /// Nothing that the library knows: the host echoes the command with its
    /// configured arguments.
    Other,
}

pub ghost enum BuiltinActionView {
    ApplyOverlay { patch: ConfigView, reply: Seq<char> },
    WriteWorkspacePatch { patch: ConfigView, reply: Seq<char> },
    TodoAdd {
        title: Seq<char>,
        description: Option<Seq<char>>,
        files: Seq<Seq<char>>,
        tags: Seq<Seq<char>>,
    },
    TodoList,
    TodoDone { id: Seq<char> },
    TodoRemove { id: Seq<char> },
    Compact {
        focus: Option<Seq<char>>,
        include_globs: Seq<Seq<char>>,
        conversation_tail: Seq<char>,
    },
    Other,
}

impl DeepView for BuiltinAction {
    type V = BuiltinActionView;

    open spec fn deep_view(&self) -> BuiltinActionView {
        match self {
            BuiltinAction::ApplyOverlay { patch, reply } => BuiltinActionView::ApplyOverlay {
                patch: patch@,
                reply: reply@,
            },
            BuiltinAction::WriteWorkspacePatch { patch, reply } => BuiltinActionView::WriteWorkspacePatch {
                patch: patch@,
                reply: reply@,
            },
            BuiltinAction::TodoAdd { title, description, files, tags } => BuiltinActionView::TodoAdd {
                title: title@,
                description: description.deep_view(),
                files: files.deep_view(),
                tags: tags.deep_view(),
            },
            BuiltinAction::TodoList => BuiltinActionView::TodoList,
            BuiltinAction::TodoDone { id } => BuiltinActionView::TodoDone { id: id@ },
            BuiltinAction::TodoRemove { id } => BuiltinActionView::TodoRemove { id: id@ },
            BuiltinAction::Compact { focus, include_globs, conversation_tail } => BuiltinActionView::Compact {
                focus: focus.deep_view(),
                include_globs: include_globs.deep_view(),
                conversation_tail: conversation_tail@,
            },
            BuiltinAction::Other => BuiltinActionView::Other,
        }
    }
}

/// The truth value that a text names.
pub open spec fn bool_of(s: Seq<char>) -> Option<bool> {
    if s == "true"@ {
        Some(true)
    } else if s == "false"@ {
        Some(false)
    } else {
        None
    }
}

/// The text that the host parses as JSON for a command, where the command
/// takes JSON: all the arguments of `mcp-add` and `compact`, and what follows
/// `add` for `todo`.
pub open spec fn json_argument_spec(name: Seq<char>, rest: Seq<char>) -> Option<Seq<char>> {
    let args = trimmed(rest);
    let parts = words_of(args);
    if name == "mcp-add"@ || name == "compact"@ {
        Some(args)
    } else if name == "todo"@ && parts.len() > 0 && parts[0] == "add"@ {
        Some(spaced(parts.skip(1)))
    } else {
        None
    }
}

pub fn json_argument(name: &str, rest: &str) -> (r: Option<String>)
    ensures
        r.deep_view() == json_argument_spec(name@, rest@),
{
    let args = trim(rest);
    if str_eq(name, "mcp-add") || str_eq(name, "compact") {
        return Some(args);
    }
    if str_eq(name, "todo") {
        let parts = split_words(args.as_str());
        if parts.len() > 0 && str_eq(parts[0].as_str(), "add") {
            let tail = skip_first(&parts);
            return Some(join_words(&tail));
        }
    }
    None
}

fn skip_first(words: &Vec<String>) -> (r: Vec<String>)
    requires
        words@.len() > 0,
    ensures
        r.deep_view() == words.deep_view().skip(1),
{
    let mut r: Vec<String> = Vec::new();
    let mut i: usize = 1;
    while i < words.len()
        invariant
            1 <= i <= words.len(),
            r@.len() == i - 1,
            forall|k: int| 0 <= k < r@.len() ==> r@[k]@ == words@[k + 1]@,
        decreases words.len() - i,
    {
        r.push(words[i].clone());
        i += 1;
    }
    assert(r.deep_view() =~= words.deep_view().skip(1));
    r
}

/// The patch of `/config-set`: a configuration that sets the one value.
pub open spec fn config_set_patch(path: Seq<char>, value: Seq<char>) -> Result<
    ConfigView,
    BuiltinErrorView,
> {
    let none = absent_config();
    if path == "model.name"@ {
        Ok(ConfigView { model: ModelConfigView { name: Some(value), ..none.model }, ..none })
    } else if path == "history.persist"@ {
        Ok(ConfigView { history_persist: Some(value), ..none })
    } else if path == "sandbox.mode"@ {
        Ok(ConfigView { sandbox: SandboxConfigView { mode: Some(value), ..none.sandbox }, ..none })
    } else if path == "sandbox.network_access"@ {
        match bool_of(value) {
            Some(b) => Ok(
                ConfigView {
                    sandbox: SandboxConfigView { network_access: Some(b), ..none.sandbox },
                    ..none
                },
            ),
            None => Err(BuiltinErrorView::NotABool { value }),
        }
    } else {
        Err(BuiltinErrorView::UnsupportedPath { path })
    }
}

/// The port that a JSON value names: the number, where it is a whole number
/// that is not negative, cut to sixteen bits.
pub open spec fn port_of(v: Option<JsonView>) -> Option<u16> {
    match v {
        Some(JsonView::Number(text)) => match digits_value(text) {
            Some(n) => Some((n % 65536) as u16),
            None => None,
        },
        _ => None,
    }
}

/// The server that the JSON of `/mcp-add` describes, switched on: one reached
/// over stdio where the JSON has `stdio`, else one reached over tcp where it
/// has `tcp`.
pub open spec fn server_of(v: JsonView) -> Option<McpServerView> {
    let base = McpServerView {
        enabled: true,
        transport: Seq::empty(),
        command: None,
        args: Seq::empty(),
        env: Map::empty(),
        host: None,
        port: None,
        scope: None,
    };
    match json_member(v, "stdio"@) {
        Some(stdio) => Some(
            McpServerView {
                transport: "stdio"@,
                command: json_text(json_member(stdio, "cmd"@)),
                args: json_texts(json_member(stdio, "args"@)),
                ..base
            },
        ),
        None => match json_member(v, "tcp"@) {
            Some(tcp) => Some(
                McpServerView {
                    transport: "tcp"@,
                    host: json_text(json_member(tcp, "host"@)),
                    port: port_of(json_member(tcp, "port"@)),
                    ..base
                },
            ),
            None => None,
        },
    }
}

/// What `/config-set <path> <value>` asks: the one value goes into the
/// runtime overlay. The value is the words after the path, one space between
/// each two.
pub open spec fn config_set_spec(parts: Seq<Seq<char>>) -> Result<BuiltinActionView, BuiltinErrorView> {
    if parts.len() < 2 {
        Err(BuiltinErrorView::Usage { text: "usage: /config-set <path> <value>"@ })
    } else {
        match config_set_patch(parts[0], spaced(parts.skip(1))) {
            Ok(patch) => Ok(
                BuiltinActionView::ApplyOverlay { patch, reply: "runtime overlay applied"@ },
            ),
            Err(e) => Err(e),
        }
    }
}

/// What `/allow <root-binary>` asks: the binary becomes the allow list of
/// the workspace scope.
pub open spec fn allow_spec(args: Seq<char>) -> Result<BuiltinActionView, BuiltinErrorView> {
    let none = absent_config();
    if args.len() == 0 {
        Err(BuiltinErrorView::Usage { text: "usage: /allow <root-binary>"@ })
    } else {
        Ok(
            BuiltinActionView::WriteWorkspacePatch {
                patch: ConfigView {
                    shell: ShellConfigView { allowlist_roots: seq![args], ..none.shell },
                    ..none
                },
                reply: "added to allowlist (workspace): "@ + args,
            },
        )
    }
}

/// What `/mcp-add <json>` asks: the server that the JSON describes is
/// written to the workspace scope under its name.
pub open spec fn mcp_add_spec(json: Option<JsonView>) -> Result<BuiltinActionView, BuiltinErrorView> {
    match json {
        None => Err(BuiltinErrorView::InvalidJson),
        Some(v) => match json_text(json_member(v, "name"@)) {
            None => Err(BuiltinErrorView::Missing { what: "missing name"@ }),
            Some(server_name) => match server_of(v) {
                None => Err(BuiltinErrorView::Missing { what: "expect stdio or tcp"@ }),
                Some(server) => Ok(
                    BuiltinActionView::WriteWorkspacePatch {
                        patch: ConfigView {
                            mcp_servers: Map::<Seq<char>, McpServerView>::empty().insert(
                                server_name,
                                server,
                            ),
                            ..absent_config()
                        },
                        reply: "MCP server added (workspace)"@,
                    },
                ),
            },
        },
    }
}

/// The first word, or the empty text where there is no word.
pub open spec fn first_word(parts: Seq<Seq<char>>) -> Seq<char> {
    if parts.len() > 0 {
        parts[0]
    } else {
        Seq::empty()
    }
}

/// What `/todo add <json>`, `/todo list`, `/todo done <id>` and
/// `/todo rm <id>` ask.
pub open spec fn todo_spec(parts: Seq<Seq<char>>, json: Option<JsonView>, root: Seq<char>) -> Result<
    BuiltinActionView,
    BuiltinErrorView,
> {
    let verb = first_word(parts);
    if verb == "add"@ {
        match json {
            None => Err(BuiltinErrorView::InvalidJson),
            Some(v) => match json_text(json_member(v, "title"@)) {
                None => Err(BuiltinErrorView::Missing { what: "title required"@ }),
                Some(title) => Ok(
                    BuiltinActionView::TodoAdd {
                        title,
                        description: json_text(json_member(v, "description"@)),
                        files: joined_all(root, json_texts(json_member(v, "files"@))),
                        tags: json_texts(json_member(v, "tags"@)),
                    },
                ),
            },
        }
    } else if verb == "list"@ {
        Ok(BuiltinActionView::TodoList)
    } else if verb == "done"@ {
        if parts.len() < 2 {
            Err(BuiltinErrorView::Usage { text: "usage: /todo done <id>"@ })
        } else {
            Ok(BuiltinActionView::TodoDone { id: parts[1] })
        }
    } else if verb == "rm"@ {
        if parts.len() < 2 {
            Err(BuiltinErrorView::Usage { text: "usage: /todo rm <id>"@ })
        } else {
            Ok(BuiltinActionView::TodoRemove { id: parts[1] })
        }
    } else {
        Err(BuiltinErrorView::Usage { text: "usage: /todo [add|list|done|rm] ..."@ })
    }
}

/// What `/compact <json>` asks: a manual compaction with the focus, the
/// patterns and the tail of the conversation that the JSON names.
pub open spec fn compact_spec(json: Option<JsonView>) -> Result<BuiltinActionView, BuiltinErrorView> {
    match json {
        None => Err(BuiltinErrorView::InvalidJson),
        Some(v) => Ok(
            BuiltinActionView::Compact {
                focus: json_text(json_member(v, "focus"@)),
                include_globs: json_texts(json_member(v, "include"@)),
                conversation_tail: match json_text(json_member(v, "conversation_tail"@)) {
                    Some(t) => t,
                    None => Seq::empty(),
                },
            },
        ),
    }
}

/// What `/autocompact on` and `/autocompact off` ask: the switch goes into
/// the runtime overlay.
pub open spec fn autocompact_spec(args: Seq<char>) -> Result<BuiltinActionView, BuiltinErrorView> {
    let none = absent_config();
    if args == "on"@ || args == "off"@ {
        Ok(
            BuiltinActionView::ApplyOverlay {
                patch: ConfigView {
                    compact: CompactConfigView { auto_enable: args == "on"@, ..none.compact },
                    ..none
                },
                reply: "auto-compact "@ + args,
            },
        )
    } else {
        Err(BuiltinErrorView::Usage { text: "usage: /autocompact on|off"@ })
    }
}

/// What a built-in command asks of the host. `rest` is what followed the
/// name in the input; `json` is what the text of `json_argument` parsed to,
/// `None` where it did not parse or no such text was asked for; `root` is
/// the workspace, against which the files of a to-do are resolved.
pub open spec fn builtin_spec(
    name: Seq<char>,
    rest: Seq<char>,
    json: Option<JsonView>,
    root: Seq<char>,
) -> Result<BuiltinActionView, BuiltinErrorView> {
    let args = trimmed(rest);
    let parts = words_of(args);
    if name == "config-set"@ {
        config_set_spec(parts)
    } else if name == "allow"@ {
        allow_spec(args)
    } else if name == "mcp-add"@ {
        mcp_add_spec(json)
    } else if name == "todo"@ {
        todo_spec(parts, json, root)
    } else if name == "compact"@ {
        compact_spec(json)
    } else if name == "autocompact"@ {
        autocompact_spec(args)
    } else {
        Ok(BuiltinActionView::Other)
    }
}

/// Whether an outcome is the one that the rules give.
pub open spec fn agrees(
    r: Result<BuiltinAction, BuiltinError>,
    want: Result<BuiltinActionView, BuiltinErrorView>,
) -> bool {
    match r {
        Ok(a) => want == Ok::<BuiltinActionView, BuiltinErrorView>(a.deep_view()),
        Err(e) => want == Err::<BuiltinActionView, BuiltinErrorView>(e.deep_view()),
    }
}

fn usage(text: &str) -> (r: Result<BuiltinAction, BuiltinError>)
    ensures
        r matches Err(e) && e.deep_view() == (BuiltinErrorView::Usage { text: text@ }),
{
    Err(BuiltinError::Usage { text: text.to_owned() })
}

fn missing(what: &str) -> (r: Result<BuiltinAction, BuiltinError>)
    ensures
        r matches Err(e) && e.deep_view() == (BuiltinErrorView::Missing { what: what@ }),
{
    Err(BuiltinError::Missing { what: what.to_owned() })
}

fn config_set(path: &str, value: String) -> (r: Result<Config, BuiltinError>)
    ensures
        match r {
            Ok(patch) => config_set_patch(path@, value@) == Ok::<ConfigView, BuiltinErrorView>(patch@),
            Err(e) => config_set_patch(path@, value@) == Err::<ConfigView, BuiltinErrorView>(
                e.deep_view(),
            ),
        },
{
    let mut patch = Config::empty();
    if str_eq(path, "model.name") {
        patch.model.name = Some(value);
        Ok(patch)
    } else if str_eq(path, "history.persist") {
        patch.history.persist = Some(value);
        Ok(patch)
    } else if str_eq(path, "sandbox.mode") {
        patch.sandbox.mode = Some(value);
        Ok(patch)
    } else if str_eq(path, "sandbox.network_access") {
        if str_eq(value.as_str(), "true") {
            patch.sandbox.network_access = Some(true);
            Ok(patch)
        } else if str_eq(value.as_str(), "false") {
            patch.sandbox.network_access = Some(false);
            Ok(patch)
        } else {
            Err(BuiltinError::NotABool { value })
        }
    } else {
        Err(BuiltinError::UnsupportedPath { path: path.to_owned() })
    }
}

fn port_in(v: &JsonValue) -> (r: Option<u16>)
    ensures
        r == port_of(json_member(v@, "port"@)),
{
    match v.get("port") {
        Some(JsonValue::Number(text)) => match parse_u64(text.as_str()) {
            Some(n) => Some((n % 65536) as u16),
            None => None,
        },
        _ => None,
    }
}

fn server_in(v: &JsonValue) -> (r: Option<McpServer>)
    ensures
        r.deep_view() == server_of(v@),
{
    let mut m = McpServer::default();
    m.enabled = true;
    match v.get("stdio") {
        Some(stdio) => {
            m.transport = "stdio".to_owned();
            m.command = text_at(stdio, "cmd");
            m.args = texts_at(stdio, "args");
            Some(m)
        },
        None => match v.get("tcp") {
            Some(tcp) => {
                m.transport = "tcp".to_owned();
                m.host = text_at(tcp, "host");
                m.port = port_in(tcp);
                Some(m)
            },
            None => None,
        },
    }
}

fn config_set_action(parts: &Vec<String>) -> (r: Result<BuiltinAction, BuiltinError>)
    ensures
        agrees(r, config_set_spec(parts.deep_view())),
{
    if parts.len() < 2 {
        return usage("usage: /config-set <path> <value>");
    }
    assert(parts.deep_view()[0] == parts@[0]@);
    let value = join_words(&skip_first(parts));
    match config_set(parts[0].as_str(), value) {
        Ok(patch) => Ok(
            BuiltinAction::ApplyOverlay { patch, reply: "runtime overlay applied".to_owned() },
        ),
        Err(e) => Err(e),
    }
}

fn allow_action(args: &String) -> (r: Result<BuiltinAction, BuiltinError>)
    ensures
        agrees(r, allow_spec(args@)),
{
    if args.as_str().unicode_len() == 0 {
        return usage("usage: /allow <root-binary>");
    }
    let mut patch = Config::empty();
    let mut roots: Vec<String> = Vec::new();
    roots.push(args.clone());
    assert(roots.deep_view() =~= seq![args@]);
    patch.shell.allowlist_roots = roots;
    let mut reply = "added to allowlist (workspace): ".to_owned();
    reply.append(args.as_str());
    Ok(BuiltinAction::WriteWorkspacePatch { patch, reply })
}

fn mcp_add_action(json: Option<&JsonValue>) -> (r: Result<BuiltinAction, BuiltinError>)
    ensures
        agrees(r, mcp_add_spec(json.deep_view())),
{
    match json {
        None => Err(BuiltinError::InvalidJson),
        Some(v) => match text_at(v, "name") {
            None => missing("missing name"),
            Some(server_name) => match server_in(v) {
                None => missing("expect stdio or tcp"),
                Some(server) => {
                    let mut patch = Config::empty();
                    patch.mcp.servers.insert(server_name, server);
                    Ok(
                        BuiltinAction::WriteWorkspacePatch {
                            patch,
                            reply: "MCP server added (workspace)".to_owned(),
                        },
                    )
                },
            },
        },
    }
}

fn todo_action(parts: &Vec<String>, json: Option<&JsonValue>, root: &str) -> (r: Result<
    BuiltinAction,
    BuiltinError,
>)
    ensures
        agrees(r, todo_spec(parts.deep_view(), json.deep_view(), root@)),
{
    proof {
        reveal_strlit("add");
        reveal_strlit("list");
        reveal_strlit("done");
        reveal_strlit("rm");
        assert("add"@.len() == 3 && "list"@.len() == 4 && "done"@.len() == 4 && "rm"@.len() == 2);
    }
    if parts.len() == 0 {
        assert(parts.deep_view().len() == 0);
        return usage("usage: /todo [add|list|done|rm] ...");
    }
    assert(parts.deep_view()[0] == parts@[0]@);
    let verb = parts[0].as_str();
    if str_eq(verb, "add") {
        match json {
            None => Err(BuiltinError::InvalidJson),
            Some(v) => match text_at(v, "title") {
                None => missing("title required"),
                Some(title) => Ok(
                    BuiltinAction::TodoAdd {
                        title,
                        description: text_at(v, "description"),
                        files: join_all(root, &texts_at(v, "files")),
                        tags: texts_at(v, "tags"),
                    },
                ),
            },
        }
    } else if str_eq(verb, "list") {
        Ok(BuiltinAction::TodoList)
    } else if str_eq(verb, "done") {
        if parts.len() < 2 {
            return usage("usage: /todo done <id>");
        }
        assert(parts.deep_view()[1] == parts@[1]@);
        Ok(BuiltinAction::TodoDone { id: parts[1].clone() })
    } else if str_eq(verb, "rm") {
        if parts.len() < 2 {
            return usage("usage: /todo rm <id>");
        }
        assert(parts.deep_view()[1] == parts@[1]@);
        Ok(BuiltinAction::TodoRemove { id: parts[1].clone() })
    } else {
        usage("usage: /todo [add|list|done|rm] ...")
    }
}

fn compact_action(json: Option<&JsonValue>) -> (r: Result<BuiltinAction, BuiltinError>)
    ensures
        agrees(r, compact_spec(json.deep_view())),
{
    match json {
        None => Err(BuiltinError::InvalidJson),
        Some(v) => {
            let tail = match text_at(v, "conversation_tail") {
                Some(t) => t,
                None => String::new(),
            };
            Ok(
                BuiltinAction::Compact {
                    focus: text_at(v, "focus"),
                    include_globs: texts_at(v, "include"),
                    conversation_tail: tail,
                },
            )
        },
    }
}

fn autocompact_action(args: &String) -> (r: Result<BuiltinAction, BuiltinError>)
    ensures
        agrees(r, autocompact_spec(args@)),
{
    let on = str_eq(args.as_str(), "on");
    if on || str_eq(args.as_str(), "off") {
        let mut patch = Config::empty();
        patch.compact.auto_enable = on;
        let mut reply = "auto-compact ".to_owned();
        reply.append(args.as_str());
        Ok(BuiltinAction::ApplyOverlay { patch, reply })
    } else {
        usage("usage: /autocompact on|off")
    }
}

/// Works out what a built-in command asks of the host.
pub fn builtin_action(name: &str, rest: &str, json: Option<&JsonValue>, root: &str) -> (r: Result<
    BuiltinAction,
    BuiltinError,
>)
    ensures
        agrees(r, builtin_spec(name@, rest@, json.deep_view(), root@)),
{
    let args = trim(rest);
    if str_eq(name, "config-set") {
        config_set_action(&split_words(args.as_str()))
    } else if str_eq(name, "allow") {
        allow_action(&args)
    } else if str_eq(name, "mcp-add") {
        mcp_add_action(json)
    } else if str_eq(name, "todo") {
        todo_action(&split_words(args.as_str()), json, root)
    } else if str_eq(name, "compact") {
        compact_action(json)
    } else if str_eq(name, "autocompact") {
        autocompact_action(&args)
    } else {
        Ok(BuiltinAction::Other)
    }
}

} // verus!
