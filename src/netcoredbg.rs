//! The netcoredbg debug adapter: its launch command, the translation of the
//! editor's debug configurations into netcoredbg's, and the locator that
//! turns a `dotnet run` task into a build step and a launch request.
use vstd::prelude::*;

use crate::dap::{
    BuildTaskDefinition, BuildTaskDefinitionTemplatePayload, DebugAdapterBinary, DebugConfig,
    DebugRequest, DebugScenario, DebugTaskDefinition, LaunchRequest, ProcessCommand, RequestKind,
    SearchOutput, StartDebuggingRequestArguments, TaskTemplate,
};
use crate::json::{
    find_member, get, get_member, is_string, json_is_str, json_parse, json_text, parse_json,
    string_array, string_items, string_list, to_json_string, Json,
};
use crate::text::{
    after_last, after_last_char, concat, contains, contains_seq, ends_with, find_char,
    first_index_of, has_prefix, has_suffix, last_index_of, lemma_first_index_of_bounds,
    lemma_last_index_of_bounds, owned, pair_views, replace, replace_all,
    rfind_char, seq_views, slice, starts_with, str_eq,
};
use crate::utils::Os;

verus! {

/// The name under which the adapter is registered.
pub const DEBUG_ADAPTER_ID: &'static str = "netcoredbg";

/// Where netcoredbg is looked for when the user names no path.
pub const DEFAULT_ADAPTER_PATH: &'static str = "/home/vbox/.local/opt/netcoredbg/netcoredbg";

/// The token that stands for the worktree's root in a configuration.
pub const WORKSPACE_FOLDER: &'static str = "${workspaceFolder}";

/// The environment variable that relays program arguments from a derived
/// build task to the launch that follows it.
pub const PROGRAM_ARGS_VAR: &'static str = "ZED_DOTNET_PROGRAM_ARGS";

/// The configuration object that an envelope holds: the member `config`
/// where there is one, else the whole value.
pub open spec fn envelope(v: Json) -> Json {
    match get(v, "config"@) {
        Some(inner) => inner,
        None => v,
    }
}

/// `after` is member `before` with `${workspaceFolder}` replaced by `root`
/// where its value is a string.
pub open spec fn substituted_member(before: (String, Json), after: (String, Json), root: Seq<char>) -> bool {
    &&& after.0 == before.0
    &&& match before.1 {
        Json::String(s) => after.1 is String && after.1->String_0@ == replace_all(
            s@,
            WORKSPACE_FOLDER@,
            root,
        ),
        _ => after.1 == before.1,
    }
}

/// `after` is `before` with the token replaced in the strings directly under
/// an object; nothing else changes.
pub open spec fn substituted(before: Json, after: Json, root: Seq<char>) -> bool {
    match before {
        Json::Object(fields) => after is Object && after->Object_0@.len() == fields@.len()
            && forall|i: int|
            0 <= i < fields@.len() ==> #[trigger] substituted_member(
                fields@[i],
                after->Object_0@[i],
                root,
            ),
        _ => after == before,
    }
}

/// The request kind of a normalized configuration: `attach` where it says
/// so, `launch` for anything else.
pub open spec fn lenient_kind(v: Json) -> RequestKind {
    match get(v, "request"@) {
        Some(r) => if is_string(r, "attach"@) {
            RequestKind::Attach
        } else {
            RequestKind::Launch
        },
        None => RequestKind::Launch,
    }
}

/// Member `f` is named `k` and holds the string `v`.
pub open spec fn str_member(f: (String, Json), k: Seq<char>, v: Seq<char>) -> bool {
    f.0@ == k && is_string(f.1, v)
}

/// `obj` is an object whose members are the strings `envs`, in order.
pub open spec fn env_object(obj: Json, envs: Seq<(Seq<char>, Seq<char>)>) -> bool {
    match obj {
        Json::Object(m) => m@.len() == envs.len() && forall|i: int|
            0 <= i < envs.len() ==> #[trigger] str_member(m@[i], envs[i].0, envs[i].1),
        _ => false,
    }
}

/// `obj` is netcoredbg's launch configuration for `program`, run in `cwd`
/// with `args` and `envs`: `type`, `request`, `program`, `cwd`, then `args`
/// and `env` where they are not empty, `stopAtEntry` and `console`.
pub open spec fn launch_object(
    obj: Json,
    program: Seq<char>,
    cwd: Seq<char>,
    args: Seq<Seq<char>>,
    envs: Seq<(Seq<char>, Seq<char>)>,
    stop: bool,
) -> bool {
    match obj {
        Json::Object(f) => {
            let a: int = if args.len() > 0 { 1 } else { 0 };
            let e: int = if envs.len() > 0 { 1 } else { 0 };
            &&& f@.len() == 6 + a + e
            &&& str_member(f@[0], "type"@, DEBUG_ADAPTER_ID@)
            &&& str_member(f@[1], "request"@, "launch"@)
            &&& str_member(f@[2], "program"@, program)
            &&& str_member(f@[3], "cwd"@, cwd)
            &&& args.len() > 0 ==> f@[4].0@ == "args"@ && string_items(f@[4].1) == Some(args)
            &&& envs.len() > 0 ==> f@[4 + a].0@ == "env"@ && env_object(f@[4 + a].1, envs)
            &&& f@[4 + a + e].0@ == "stopAtEntry"@ && f@[4 + a + e].1 == Json::Bool(stop)
            &&& str_member(f@[5 + a + e], "console"@, "integratedTerminal"@)
        },
        _ => false,
    }
}

pub open spec fn is_separator(c: char) -> bool {
    c == '/' || c == '\\'
}

/// `s` without the path separators at its end.
pub open spec fn strip_trailing_separators(s: Seq<char>) -> Seq<char>
    decreases s.len(),
{
    if s.len() > 0 && is_separator(s.last()) {
        strip_trailing_separators(s.drop_last())
    } else {
        s
    }
}

/// The final component of a command path, split at `/` and at `\\`;
/// separators at the end are not a component of their own.
pub open spec fn base_name(cmd: Seq<char>) -> Seq<char> {
    after_last(after_last(strip_trailing_separators(cmd), '/'), '\\')
}

/// The command runs the dotnet CLI.
pub open spec fn is_dotnet(cmd: Seq<char>) -> bool {
    base_name(cmd) == "dotnet"@ || base_name(cmd) == "dotnet.exe"@
}

/// A path that stands on its own: rooted at `/`, or with a drive prefix.
pub open spec fn is_absolute_like(p: Seq<char>) -> bool {
    has_prefix(p, "/"@) || contains_seq(p, ":\\"@)
}

/// `p` appended to directory `dir`, with one separator between them.
pub open spec fn join_path(dir: Seq<char>, p: Seq<char>) -> Seq<char> {
    if dir.len() == 0 {
        p
    } else if dir.last() == '/' {
        dir + p
    } else {
        dir + "/"@ + p
    }
}

/// A project path as the derived build sees it: relative ones are taken
/// from the task's working directory.
pub open spec fn resolve_project(p: Seq<char>, cwd: Seq<char>) -> Seq<char> {
    if is_absolute_like(p) {
        p
    } else {
        join_path(cwd, p)
    }
}

/// The task's working directory, `.` where it has none.
pub open spec fn cwd_or_dot(cwd: Option<String>) -> Seq<char> {
    match cwd {
        Some(c) => c@,
        None => "."@,
    }
}

/// The build arguments kept from the arguments of `dotnet run` after `run`:
/// the project, resolved; `--configuration`/`-c` and its value; other
/// arguments that are not `--` flags. Scanning stops at `--`.
pub open spec fn build_args_rest(rest: Seq<Seq<char>>, cwd: Seq<char>) -> Seq<Seq<char>>
    decreases rest.len(),
{
    if rest.len() == 0 {
        seq![]
    } else if rest[0] == "--"@ {
        seq![]
    } else if rest[0] == "--project"@ {
        if rest.len() >= 2 {
            seq![resolve_project(rest[1], cwd)] + build_args_rest(rest.skip(2), cwd)
        } else {
            seq![]
        }
    } else if rest[0] == "--configuration"@ || rest[0] == "-c"@ {
        if rest.len() >= 2 {
            seq![rest[0], rest[1]] + build_args_rest(rest.skip(2), cwd)
        } else {
            seq![rest[0]]
        }
    } else if !has_prefix(rest[0], "--"@) {
        seq![rest[0]] + build_args_rest(rest.skip(1), cwd)
    } else {
        build_args_rest(rest.skip(1), cwd)
    }
}

/// Position of the first `x` in `s`, or the length of `s`.
pub open spec fn position_of(s: Seq<Seq<char>>, x: Seq<char>) -> int
    decreases s.len(),
{
    if s.len() == 0 {
        0
    } else if s[0] == x {
        0
    } else {
        1 + position_of(s.drop_first(), x)
    }
}

/// The program's own arguments: those after the first `--`.
pub open spec fn program_args(args: Seq<Seq<char>>) -> Seq<Seq<char>> {
    let k = position_of(args, "--"@);
    if k < args.len() {
        args.skip(k + 1)
    } else {
        seq![]
    }
}

/// The build configuration named by the last `--configuration`/`-c` that
/// has a value, `current` where there is none.
pub open spec fn config_scan(args: Seq<Seq<char>>, current: Seq<char>) -> Seq<char>
    decreases args.len(),
{
    if args.len() == 0 {
        current
    } else if args[0] == "--configuration"@ || args[0] == "-c"@ {
        if args.len() >= 2 {
            config_scan(args.skip(2), args[1])
        } else {
            current
        }
    } else {
        config_scan(args.skip(1), current)
    }
}

/// The build configuration of a build task's arguments, `Debug` by default.
pub open spec fn build_configuration(args: Seq<Seq<char>>) -> Seq<char> {
    config_scan(args, "Debug"@)
}

/// The project path of a build task's arguments: the value of the first
/// `--project`, or the first argument ending in `.csproj`, whichever comes
/// first.
pub open spec fn project_arg(args: Seq<Seq<char>>) -> Option<Seq<char>>
    decreases args.len(),
{
    if args.len() == 0 {
        None
    } else if args[0] == "--project"@ {
        if args.len() >= 2 {
            Some(args[1])
        } else {
            None
        }
    } else if has_suffix(args[0], ".csproj"@) {
        Some(args[0])
    } else {
        project_arg(args.skip(1))
    }
}

/// The directory part of a project path; `cwd` for a bare file name.
pub open spec fn project_dir(path: Seq<char>, cwd: Seq<char>) -> Seq<char> {
    let k = last_index_of(path, '/');
    if k >= 0 {
        path.take(k)
    } else {
        cwd
    }
}

/// The project's name and directory, with `${workspaceFolder}` in its path
/// read as `cwd`; none where the arguments name no `.csproj` file.
pub open spec fn project_of(args: Seq<Seq<char>>, cwd: Seq<char>) -> Option<(Seq<char>, Seq<char>)> {
    match project_arg(args) {
        None => None,
        Some(p) => {
            let path = replace_all(p, WORKSPACE_FOLDER@, cwd);
            let file = after_last(path, '/');
            if has_suffix(file, ".csproj"@) {
                Some((file.take(file.len() - ".csproj"@.len()), project_dir(path, cwd)))
            } else {
                None
            }
        },
    }
}

/// The directory searched for the build output.
pub open spec fn output_dir(dir: Seq<char>, configuration: Seq<char>) -> Seq<char> {
    dir + "/bin/"@ + configuration
}

/// The search for `{name}.dll` under the output directory: `find` where it
/// exists, PowerShell on Windows.
pub open spec fn dll_search_spec(os: Os, name: Seq<char>, dir: Seq<char>, configuration: Seq<char>) -> (
    Seq<char>,
    Seq<Seq<char>>,
) {
    if os == Os::Windows {
        (
            "powershell"@,
            seq![
                "-NoProfile"@,
                "-NonInteractive"@,
                "-Command"@,
                "Get-ChildItem -Path '"@ + output_dir(dir, configuration) + "' -Filter '"@ + name
                    + ".dll' -Recurse -File | Select-Object -First 1 -ExpandProperty FullName"@,
            ],
        )
    } else {
        (
            "find"@,
            seq![output_dir(dir, configuration), "-name"@, name + ".dll"@, "-type"@, "f"@],
        )
    }
}

pub open spec fn search_tool_name(os: Os) -> Seq<char> {
    if os == Os::Windows {
        "PowerShell"@
    } else {
        "find"@
    }
}

/// The first line of `s`, as `str::lines` gives it; none for empty text.
pub open spec fn first_line(s: Seq<char>) -> Option<Seq<char>> {
    if s.len() == 0 {
        None
    } else {
        let k = first_index_of(s, '\n');
        let line = s.take(k);
        if k < s.len() && line.len() > 0 && line.last() == '\r' {
            Some(line.drop_last())
        } else {
            Some(line)
        }
    }
}

/// Position of the first entry named `key`, or the length of `env`.
pub open spec fn key_position(env: Seq<(Seq<char>, Seq<char>)>, key: Seq<char>) -> int
    decreases env.len(),
{
    if env.len() == 0 {
        0
    } else if env[0].0 == key {
        0
    } else {
        1 + key_position(env.drop_first(), key)
    }
}

/// The program arguments relayed in `text`: its strings where it is a JSON
/// array of strings, none otherwise.
pub open spec fn relayed_args(text: Seq<char>) -> Seq<Seq<char>> {
    match json_parse(text) {
        Ok(j) => match string_items(j) {
            Some(items) => items,
            None => seq![],
        },
        Err(_) => seq![],
    }
}

/// The adapter holds no state of its own: every call stands alone.
pub struct NetcoreDbg {}

impl NetcoreDbg {
    pub fn new() -> (r: Self) {
        NetcoreDbg {  }
    }

    /// The kind of request that `config` asks for. A null configuration is
    /// one that a locator has yet to produce; a wrapped one is read inside
    /// its `config` member.
    pub fn dap_request_kind(&mut self, adapter_name: String, config: Json) -> (r: Result<
        RequestKind,
        String,
    >)
        ensures
            config is Null ==> (r matches Err(e) && e@
                == "Config is null - awaiting locator resolution"@),
            !(config is Null) ==> match get(envelope(config), "request"@) {
                Some(v) => if is_string(v, "launch"@) {
                    r == Ok::<RequestKind, String>(RequestKind::Launch)
                } else if is_string(v, "attach"@) {
                    r == Ok::<RequestKind, String>(RequestKind::Attach)
                } else {
                    r matches Err(e) && e@
                        == "Unexpected value for `request` key in C# debug adapter configuration: "@
                        + json_text(v)
                },
                None => r matches Err(e) && e@ == "Missing `request` field in debug configuration"@,
            },
    {
        if let Json::Null = config {
            // a locator's scenario, still waiting for its build
            return Err(owned("Config is null - awaiting locator resolution"));
        }
        let cfg = match get_member(&config, "config") {
            Some(inner) => inner,
            None => &config,
        };
        match get_member(cfg, "request") {
            Some(v) => {
                if json_is_str(v, "launch") {
                    Ok(RequestKind::Launch)
                } else if json_is_str(v, "attach") {
                    Ok(RequestKind::Attach)
                } else {
                    let shown = to_json_string(v);
                    Err(
                        concat(
                            "Unexpected value for `request` key in C# debug adapter configuration: ",
                            shown.as_str(),
                        ),
                    )
                }
            },
            None => Err(owned("Missing `request` field in debug configuration")),
        }
    }

    /// The command that starts netcoredbg, and the session's configuration:
    /// the user's path where one is given; the configuration unwrapped from
    /// its envelope, with `${workspaceFolder}` replaced by the worktree's root
    /// in its top-level strings.
    pub fn get_dap_binary(
        &mut self,
        adapter_name: String,
        config: DebugTaskDefinition,
        user_provided_debug_adapter_path: Option<String>,
        workspace_folder: String,
    ) -> (r: Result<DebugAdapterBinary, String>)
        ensures
            r is Err <==> json_parse(config.config@) is Err,
            r matches Err(e) ==> e@ == "Failed to parse debug configuration: "@ + json_parse(
                config.config@,
            )->Err_0,
            r matches Ok(b) ==> {
                &&& b.command matches Some(c) && c@ == match user_provided_debug_adapter_path {
                    Some(p) => p@,
                    None => DEFAULT_ADAPTER_PATH@,
                }
                &&& seq_views(b.arguments@) == seq!["--interpreter=vscode"@]
                &&& b.cwd matches Some(c) && c@ == workspace_folder@
                &&& b.envs@.len() == 0
                &&& exists|w: Json|
                    substituted(envelope(json_parse(config.config@)->Ok_0), w, workspace_folder@)
                        && b.request_args.configuration@ == #[trigger] json_text(w)
                        && b.request_args.request == lenient_kind(w)
            },
    {
        let raw = match parse_json(config.config.as_str()) {
            Ok(v) => v,
            Err(e) => {
                return Err(concat("Failed to parse debug configuration: ", e.as_str()));
            },
        };
        let working = unwrap_envelope(raw);
        let working = substitute_workspace_folder(working, workspace_folder.as_str());
        let request = request_kind_of(&working);
        let configuration = to_json_string(&working);
        let command = match user_provided_debug_adapter_path {
            Some(p) => p,
            None => owned(DEFAULT_ADAPTER_PATH),
        };
        let mut arguments: Vec<String> = Vec::new();
        arguments.push(owned("--interpreter=vscode"));
        assert(seq_views(arguments@) =~= seq!["--interpreter=vscode"@]);
        assert(substituted(envelope(json_parse(config.config@)->Ok_0), working, workspace_folder@));
        Ok(
            DebugAdapterBinary {
                command: Some(command),
                arguments,
                envs: Vec::new(),
                cwd: Some(workspace_folder),
                request_args: StartDebuggingRequestArguments { configuration, request },
            },
        )
    }

    /// Turns a `dotnet run` task into a debug scenario: a `dotnet build` task
    /// that carries the program's arguments in an environment variable, and a
    /// configuration left null until the build has run. Any other task is
    /// declined with `None`.
    pub fn dap_locator_create_scenario(
        &mut self,
        locator_name: String,
        build_task: TaskTemplate,
        resolved_label: String,
        debug_adapter_name: String,
    ) -> (r: Option<DebugScenario>)
        ensures
            r is Some <==> (is_dotnet(build_task.command@) && build_task.args@.len() > 0
                && build_task.args@[0]@ == "run"@),
            r matches Some(s) ==> {
                let args = seq_views(build_task.args@);
                let pargs = program_args(args);
                &&& s.label@ == "Debug "@ + resolved_label@
                &&& s.adapter@ == DEBUG_ADAPTER_ID@
                &&& s.config@ == "null"@
                &&& s.build matches Some(BuildTaskDefinition::Template(p)) && {
                    &&& p.locator_name == Some(locator_name)
                    &&& p.template.label == build_task.label
                    &&& p.template.command == build_task.command
                    &&& p.template.cwd == build_task.cwd
                    &&& seq_views(p.template.args@) == seq!["build"@] + build_args_rest(
                        args.skip(1),
                        cwd_or_dot(build_task.cwd),
                    )
                    &&& pargs.len() == 0 ==> p.template.env@ == build_task.env@
                    &&& pargs.len() > 0 ==> {
                        &&& p.template.env@.len() == build_task.env@.len() + 1
                        &&& p.template.env@.drop_last() == build_task.env@
                        &&& p.template.env@.last().0@ == PROGRAM_ARGS_VAR@
                        &&& exists|j: Json|
                            string_items(j) == Some(pargs) && p.template.env@.last().1@
                                == #[trigger] json_text(j)
                    }
                }
            },
    {
        if !is_dotnet_command(build_task.command.as_str()) {
            return None;
        }
        if build_task.args.len() == 0 {
            return None;
        }
        if !str_eq(build_task.args[0].as_str(), "run") {
            return None;
        }
        let program_args = collect_program_args(&build_task.args);
        let new_args = match &build_task.cwd {
            Some(c) => derive_build_args(&build_task.args, c.as_str()),
            None => derive_build_args(&build_task.args, "."),
        };
        let TaskTemplate { label, command, args: _, env, cwd } = build_task;
        let mut env = env;
        if program_args.len() > 0 {
            let payload = string_array(&program_args);
            let text = to_json_string(&payload);
            env.push((owned(PROGRAM_ARGS_VAR), text));
            assert(env@.drop_last() =~= build_task.env@);
        }
        let template = TaskTemplate { label, command, args: new_args, env, cwd };
        Some(
            DebugScenario {
                label: concat("Debug ", resolved_label.as_str()),
                adapter: owned(DEBUG_ADAPTER_ID),
                build: Some(
                    BuildTaskDefinition::Template(
                        BuildTaskDefinitionTemplatePayload {
                            locator_name: Some(locator_name),
                            template,
                        },
                    ),
                ),
                config: owned("null"),
            },
        )
    }

    /// The search that finds the DLL that a finished build task produced:
    /// `{name}.dll` under `{project dir}/bin/{configuration}`. Fails where
    /// the task has no working directory or names no project.
    pub fn dll_search(&self, build_task: &TaskTemplate, os: Os) -> (r: Result<ProcessCommand, String>)
        ensures
            build_task.cwd is None ==> (r matches Err(e) && e@ == "Build task must have a cwd"@),
            build_task.cwd matches Some(cwd) ==> match project_of(
                seq_views(build_task.args@),
                cwd@,
            ) {
                None => r matches Err(e) && e@
                    == "Could not determine project name from build task args"@,
                Some((name, dir)) => r matches Ok(c) && (c.command@, seq_views(c.args@))
                    == dll_search_spec(os, name, dir, build_configuration(seq_views(build_task.args@))),
            },
    {
        let cwd = match &build_task.cwd {
            Some(c) => c,
            None => return Err(owned("Build task must have a cwd")),
        };
        let configuration = build_configuration_of(&build_task.args);
        let (name, dir) = match project_of_args(&build_task.args, cwd.as_str()) {
            Some(p) => p,
            None => return Err(owned("Could not determine project name from build task args")),
        };
        let d = concat(dir.as_str(), "/bin/");
        let out_dir = concat(d.as_str(), configuration.as_str());
        let mut args: Vec<String> = Vec::new();
        match os {
            Os::Windows => {
                args.push(owned("-NoProfile"));
                args.push(owned("-NonInteractive"));
                args.push(owned("-Command"));
                let c = concat("Get-ChildItem -Path '", out_dir.as_str());
                let c = concat(c.as_str(), "' -Filter '");
                let c = concat(c.as_str(), name.as_str());
                let c = concat(
                    c.as_str(),
                    ".dll' -Recurse -File | Select-Object -First 1 -ExpandProperty FullName",
                );
                args.push(c);
                assert(seq_views(args@) =~= dll_search_spec(os, name@, dir@, configuration@).1);
                Ok(ProcessCommand { command: owned("powershell"), args })
            },
            _ => {
                args.push(out_dir);
                args.push(owned("-name"));
                args.push(concat(name.as_str(), ".dll"));
                args.push(owned("-type"));
                args.push(owned("f"));
                assert(seq_views(args@) =~= dll_search_spec(os, name@, dir@, configuration@).1);
                Ok(ProcessCommand { command: owned("find"), args })
            },
        }
    }

    /// The launch request for a finished build task, given what the search
    /// for its DLL reported: the DLL found, run in the task's working
    /// directory, with the program arguments recovered from the relay
    /// variable, which is taken out of the environment. Arguments that do not
    /// read as a JSON array of strings are dropped.
    pub fn run_dap_locator(
        &mut self,
        locator_name: String,
        build_task: TaskTemplate,
        os: Os,
        search: Result<SearchOutput, String>,
    ) -> (r: Result<DebugRequest, String>)
        ensures
            build_task.cwd is None ==> (r matches Err(e) && e@ == "Build task must have a cwd"@),
            build_task.cwd matches Some(cwd) ==> match project_of(
                seq_views(build_task.args@),
                cwd@,
            ) {
                None => r matches Err(e) && e@
                    == "Could not determine project name from build task args"@,
                Some((name, dir)) => match search {
                    Err(e) => r matches Err(m) && m@ == "Failed to search for DLL: "@ + e@,
                    Ok(out) => if out.status != Some(0i32) {
                        r matches Err(m) && m@ == "Could not locate DLL: "@ + search_tool_name(os)
                            + " command failed: "@ + out.stderr@
                    } else {
                        match first_line(out.stdout@) {
                            None => r matches Err(m) && m@ == "No DLL found for project '"@ + name
                                + "' in "@ + output_dir(
                                dir,
                                build_configuration(seq_views(build_task.args@)),
                            ),
                            Some(line) => r matches Ok(DebugRequest::Launch(l)) && {
                                let env = pair_views(build_task.env@);
                                let k = key_position(env, PROGRAM_ARGS_VAR@);
                                &&& l.program@ == trimmed(line)
                                &&& l.cwd == Some(cwd)
                                &&& k < env.len() ==> seq_views(l.args@) == relayed_args(env[k].1)
                                    && l.envs@ == build_task.env@.remove(k)
                                &&& k == env.len() ==> l.args@.len() == 0 && l.envs@
                                    == build_task.env@
                            },
                        }
                    },
                },
            },
    {
        let searched = self.dll_search(&build_task, os);
        if let Err(e) = searched {
            return Err(e);
        }
        let cwd = match &build_task.cwd {
            Some(c) => c.clone(),
            None => return Err(owned("Build task must have a cwd")),
        };
        let configuration = build_configuration_of(&build_task.args);
        let (name, dir) = match project_of_args(&build_task.args, cwd.as_str()) {
            Some(p) => p,
            None => return Err(owned("Could not determine project name from build task args")),
        };
        let out = match search {
            Ok(out) => out,
            Err(e) => return Err(concat("Failed to search for DLL: ", e.as_str())),
        };
        let succeeded = match out.status {
            Some(c) => c == 0,
            None => false,
        };
        if !succeeded {
            let tool = match os {
                Os::Windows => "PowerShell",
                _ => "find",
            };
            let m = concat("Could not locate DLL: ", tool);
            let m = concat(m.as_str(), " command failed: ");
            return Err(concat(m.as_str(), out.stderr.as_str()));
        }
        let line = match first_line_of(out.stdout.as_str()) {
            Some(l) => l,
            None => {
                let m = concat("No DLL found for project '", name.as_str());
                let m = concat(m.as_str(), "' in ");
                let m = concat(m.as_str(), dir.as_str());
                let m = concat(m.as_str(), "/bin/");
                return Err(concat(m.as_str(), configuration.as_str()));
            },
        };
        let program = trim(line.as_str());
        let mut envs = build_task.env;
        let k = find_key(&envs, PROGRAM_ARGS_VAR);
        let args = if k < envs.len() {
            let a = relayed_args_of(envs[k].1.as_str());
            envs.remove(k);
            a
        } else {
            Vec::new()
        };
        Ok(DebugRequest::Launch(LaunchRequest { program, cwd: Some(cwd), args, envs }))
    }

    /// A ready-to-run scenario for a launch request: netcoredbg's launch
    /// configuration built from the request's fields, labelled after the
    /// program's file name. Attach requests are refused.
    pub fn dap_config_to_scenario(&mut self, config: DebugConfig) -> (r: Result<DebugScenario, String>)
        ensures
            config.request is Attach ==> (r matches Err(e) && e@
                == "Attach is not supported via dap_config_to_scenario"@),
            config.request matches DebugRequest::Launch(l) ==> (r matches Ok(s) && {
                &&& s.label@ == "Debug "@ + after_last(l.program@, '/')
                &&& s.adapter == config.adapter
                &&& s.build is None
                &&& exists|obj: Json|
                    launch_object(
                        obj,
                        l.program@,
                        match l.cwd {
                            Some(c) => c@,
                            None => "."@,
                        },
                        seq_views(l.args@),
                        pair_views(l.envs@),
                        match config.stop_on_entry {
                            Some(b) => b,
                            None => false,
                        },
                    ) && s.config@ == #[trigger] json_text(obj)
            }),
    {
        let launch = match &config.request {
            DebugRequest::Launch(l) => l,
            DebugRequest::Attach(_) => {
                return Err(owned("Attach is not supported via dap_config_to_scenario"));
            },
        };
        let cwd = match &launch.cwd {
            Some(c) => c.clone(),
            None => owned("."),
        };
        let stop = match config.stop_on_entry {
            Some(b) => b,
            None => false,
        };
        let mut fields: Vec<(String, Json)> = Vec::new();
        fields.push(str_json("type", DEBUG_ADAPTER_ID));
        fields.push(str_json("request", "launch"));
        fields.push(str_json("program", launch.program.as_str()));
        fields.push(str_json("cwd", cwd.as_str()));
        if launch.args.len() > 0 {
            fields.push((owned("args"), string_array(&launch.args)));
        }
        let ghost a = fields@.len();
        if launch.envs.len() > 0 {
            fields.push((owned("env"), env_json(&launch.envs)));
        }
        fields.push((owned("stopAtEntry"), Json::Bool(stop)));
        fields.push(str_json("console", "integratedTerminal"));
        let obj = Json::Object(fields);
        assert(launch_object(
            obj,
            launch.program@,
            cwd@,
            seq_views(launch.args@),
            pair_views(launch.envs@),
            stop,
        ));
        let text = to_json_string(&obj);
        let name = after_last_char(launch.program.as_str(), '/');
        let label = concat("Debug ", name.as_str());
        Ok(DebugScenario { label, adapter: config.adapter, build: None, config: text })
    }
}

/// An object whose members are the strings `envs`, in order.
pub fn env_json(envs: &Vec<(String, String)>) -> (r: Json)
    ensures
        env_object(r, pair_views(envs@)),
{
    let mut out: Vec<(String, Json)> = Vec::new();
    let mut i: usize = 0;
    while i < envs.len()
        invariant
            i <= envs@.len(),
            out@.len() == i,
            forall|j: int|
                0 <= j < i ==> #[trigger] str_member(out@[j], envs@[j].0@, envs@[j].1@),
        decreases envs@.len() - i,
    {
        out.push((envs[i].0.clone(), Json::String(envs[i].1.clone())));
        i = i + 1;
    }
    let r = Json::Object(out);
    assert forall|j: int| 0 <= j < envs@.len() implies #[trigger] str_member(
        out@[j],
        pair_views(envs@)[j].0,
        pair_views(envs@)[j].1,
    ) by {
        assert(str_member(out@[j], envs@[j].0@, envs@[j].1@));
    }
    r
}

/// Position of the first `x` in `args`, or the length of `args`.
pub fn find_arg(args: &Vec<String>, x: &str) -> (r: usize)
    ensures
        r as int == position_of(seq_views(args@), x@),
        r <= args@.len(),
{
    let ghost all = seq_views(args@);
    let mut i: usize = 0;
    assert(all.skip(0) =~= all);
    while i < args.len()
        invariant
            all == seq_views(args@),
            i <= args@.len(),
            position_of(all, x@) == i + position_of(all.skip(i as int), x@),
        decreases args@.len() - i,
    {
        if str_eq(args[i].as_str(), x) {
            return i;
        }
        assert(all.skip(i as int).drop_first() =~= all.skip(i + 1));
        i = i + 1;
    }
    i
}

/// Whether `cmd` runs the dotnet CLI.
pub fn is_dotnet_command(cmd: &str) -> (r: bool)
    ensures
        r == is_dotnet(cmd@),
{
    let n = cmd.unicode_len();
    let mut j: usize = n;
    assert(cmd@.subrange(0, n as int) =~= cmd@);
    while j > 0 && (cmd.get_char(j - 1) == '/' || cmd.get_char(j - 1) == '\\')
        invariant
            n == cmd@.len(),
            j <= n,
            strip_trailing_separators(cmd@) == strip_trailing_separators(
                cmd@.subrange(0, j as int),
            ),
        decreases j,
    {
        assert(cmd@.subrange(0, j as int).drop_last() =~= cmd@.subrange(0, j - 1));
        j = j - 1;
    }
    let path = slice(cmd, 0, j);
    assert(strip_trailing_separators(path@) == path@);
    let last = after_last_char(path.as_str(), '/');
    let name = after_last_char(last.as_str(), '\\');
    str_eq(name.as_str(), "dotnet") || str_eq(name.as_str(), "dotnet.exe")
}

/// `p` appended to directory `dir`.
pub fn join(dir: &str, p: &str) -> (r: String)
    ensures
        r@ == join_path(dir@, p@),
{
    let n = dir.unicode_len();
    if n == 0 {
        owned(p)
    } else if dir.get_char(n - 1) == '/' {
        concat(dir, p)
    } else {
        let d = concat(dir, "/");
        concat(d.as_str(), p)
    }
}

/// The project path that the derived build is given.
pub fn resolve_project_path(p: &str, cwd: &str) -> (r: String)
    ensures
        r@ == resolve_project(p@, cwd@),
{
    if starts_with(p, "/") || contains(p, ":\\") {
        owned(p)
    } else {
        join(cwd, p)
    }
}

/// The arguments of the build that stands in for `dotnet run args`.
pub fn derive_build_args(args: &Vec<String>, cwd: &str) -> (r: Vec<String>)
    requires
        args@.len() >= 1,
    ensures
        seq_views(r@) == seq!["build"@] + build_args_rest(seq_views(args@).skip(1), cwd@),
{
    let ghost all = seq_views(args@);
    let n = args.len();
    let mut out: Vec<String> = Vec::new();
    out.push(owned("build"));
    let mut i: usize = 1;
    assert(seq_views(out@) =~= seq!["build"@]);
    while i < n
        invariant
            all == seq_views(args@),
            n == args@.len(),
            1 <= i <= n,
            seq_views(out@) + build_args_rest(all.skip(i as int), cwd@) == seq!["build"@]
                + build_args_rest(all.skip(1), cwd@),
        decreases n - i,
    {
        let ghost rest = all.skip(i as int);
        let ghost before = seq_views(out@);
        assert(rest[0] == args@[i as int]@);
        let a = args[i].as_str();
        if str_eq(a, "--") {
            assert(build_args_rest(rest, cwd@) == Seq::<Seq<char>>::empty());
            assert(all.skip(n as int) =~= Seq::<Seq<char>>::empty());
            i = n;
        } else if str_eq(a, "--project") {
            if i + 1 < n {
                assert(rest[1] == args@[i + 1]@);
                assert(rest.skip(2) =~= all.skip(i + 2));
                out.push(resolve_project_path(args[i + 1].as_str(), cwd));
                i = i + 2;
            } else {
                assert(all.skip(i + 1) =~= Seq::<Seq<char>>::empty());
                i = i + 1;
            }
        } else if str_eq(a, "--configuration") || str_eq(a, "-c") {
            out.push(args[i].clone());
            if i + 1 < n {
                assert(rest[1] == args@[i + 1]@);
                assert(rest.skip(2) =~= all.skip(i + 2));
                out.push(args[i + 1].clone());
                i = i + 2;
            } else {
                assert(all.skip(i + 1) =~= Seq::<Seq<char>>::empty());
                i = i + 1;
            }
        } else if !starts_with(a, "--") {
            assert(rest.skip(1) =~= all.skip(i + 1));
            out.push(args[i].clone());
            i = i + 1;
        } else {
            assert(rest.skip(1) =~= all.skip(i + 1));
            i = i + 1;
        }
        assert(seq_views(out@) + build_args_rest(all.skip(i as int), cwd@) =~= before
            + build_args_rest(rest, cwd@));
    }
    assert(all.skip(n as int) =~= Seq::<Seq<char>>::empty());
    assert(seq_views(out@) =~= seq_views(out@) + build_args_rest(all.skip(i as int), cwd@));
    out
}

/// The arguments after the first `--`, which belong to the program itself.
pub fn collect_program_args(args: &Vec<String>) -> (r: Vec<String>)
    ensures
        seq_views(r@) == program_args(seq_views(args@)),
{
    let k = find_arg(args, "--");
    let mut out: Vec<String> = Vec::new();
    if k == args.len() {
        assert(seq_views(out@) =~= program_args(seq_views(args@)));
        return out;
    }
    let mut i: usize = k + 1;
    while i < args.len()
        invariant
            k < args@.len(),
            k + 1 <= i <= args@.len(),
            seq_views(out@) =~= seq_views(args@).subrange(k + 1, i as int),
        decreases args@.len() - i,
    {
        let ghost prev = out@;
        out.push(args[i].clone());
        assert(seq_views(out@) =~= seq_views(prev).push(args@[i as int]@));
        i = i + 1;
    }
    assert(seq_views(out@) =~= program_args(seq_views(args@)));
    out
}

/// The build configuration that a build task's arguments name.
pub fn build_configuration_of(args: &Vec<String>) -> (r: String)
    ensures
        r@ == build_configuration(seq_views(args@)),
{
    let ghost all = seq_views(args@);
    let n = args.len();
    let mut current = owned("Debug");
    let mut i: usize = 0;
    assert(all.skip(0) =~= all);
    while i < n
        invariant
            all == seq_views(args@),
            n == args@.len(),
            i <= n,
            build_configuration(all) == config_scan(all.skip(i as int), current@),
        decreases n - i,
    {
        let ghost rest = all.skip(i as int);
        assert(rest[0] == args@[i as int]@);
        let a = args[i].as_str();
        if str_eq(a, "--configuration") || str_eq(a, "-c") {
            if i + 1 < n {
                assert(rest[1] == args@[i + 1]@);
                assert(rest.skip(2) =~= all.skip(i + 2));
                current = args[i + 1].clone();
                i = i + 2;
            } else {
                assert(all.skip(n as int) =~= Seq::<Seq<char>>::empty());
                i = n;
            }
        } else {
            assert(rest.skip(1) =~= all.skip(i + 1));
            i = i + 1;
        }
    }
    assert(all.skip(n as int) =~= Seq::<Seq<char>>::empty());
    current
}

/// Position of the argument that holds the project path.
pub fn project_arg_index(args: &Vec<String>) -> (r: Option<usize>)
    ensures
        match r {
            Some(i) => i < args@.len() && project_arg(seq_views(args@)) == Some(args@[i as int]@),
            None => project_arg(seq_views(args@)) is None,
        },
{
    let ghost all = seq_views(args@);
    let n = args.len();
    let mut i: usize = 0;
    assert(all.skip(0) =~= all);
    while i < n
        invariant
            all == seq_views(args@),
            n == args@.len(),
            i <= n,
            project_arg(all) == project_arg(all.skip(i as int)),
        decreases n - i,
    {
        let ghost rest = all.skip(i as int);
        assert(rest[0] == args@[i as int]@);
        let a = args[i].as_str();
        if str_eq(a, "--project") {
            if i + 1 < n {
                assert(rest[1] == args@[i + 1]@);
                return Some(i + 1);
            } else {
                return None;
            }
        } else if ends_with(a, ".csproj") {
            return Some(i);
        }
        assert(rest.skip(1) =~= all.skip(i + 1));
        i = i + 1;
    }
    assert(all.skip(n as int) =~= Seq::<Seq<char>>::empty());
    None
}

/// The project's name and directory, as a build task's arguments give them.
pub fn project_of_args(args: &Vec<String>, cwd: &str) -> (r: Option<(String, String)>)
    ensures
        match r {
            Some((name, dir)) => project_of(seq_views(args@), cwd@) == Some((name@, dir@)),
            None => project_of(seq_views(args@), cwd@) is None,
        },
{
    let i = match project_arg_index(args) {
        Some(i) => i,
        None => return None,
    };
    proof {
        reveal_strlit("${workspaceFolder}");
    }
    let path = replace(args[i].as_str(), WORKSPACE_FOLDER, cwd);
    let file = after_last_char(path.as_str(), '/');
    if !ends_with(file.as_str(), ".csproj") {
        return None;
    }
    let file_len = file.unicode_len();
    let suffix_len = ".csproj".unicode_len();
    let name = slice(file.as_str(), 0, file_len - suffix_len);
    assert(file@.subrange(0, file_len - suffix_len) =~= file@.take(file@.len() - ".csproj"@.len()));
    proof {
        lemma_last_index_of_bounds(path@, '/');
    }
    let dir = match rfind_char(path.as_str(), '/') {
        Some(k) => slice(path.as_str(), 0, k),
        None => owned(cwd),
    };
    Some((name, dir))
}

/// The characters of Unicode's White_Space property, which `str::trim`
/// removes.
pub open spec fn is_white_space(c: char) -> bool {
    ('\u{9}' <= c && c <= '\u{d}') || c == ' ' || c == '\u{85}' || c == '\u{a0}' || c
        == '\u{1680}' || ('\u{2000}' <= c && c <= '\u{200a}') || c == '\u{2028}' || c
        == '\u{2029}' || c == '\u{202f}' || c == '\u{205f}' || c == '\u{3000}'
}

/// `s` without the white space at its start.
pub open spec fn strip_leading(s: Seq<char>) -> Seq<char>
    decreases s.len(),
{
    if s.len() > 0 && is_white_space(s[0]) {
        strip_leading(s.drop_first())
    } else {
        s
    }
}

/// `s` without the white space at its end.
pub open spec fn strip_trailing(s: Seq<char>) -> Seq<char>
    decreases s.len(),
{
    if s.len() > 0 && is_white_space(s.last()) {
        strip_trailing(s.drop_last())
    } else {
        s
    }
}

/// `s` without leading and trailing white space, as `str::trim` gives it.
pub open spec fn trimmed(s: Seq<char>) -> Seq<char> {
    strip_trailing(strip_leading(s))
}

fn white_space(c: char) -> (r: bool)
    ensures
        r == is_white_space(c),
{
    ('\u{9}' <= c && c <= '\u{d}') || c == ' ' || c == '\u{85}' || c == '\u{a0}' || c
        == '\u{1680}' || ('\u{2000}' <= c && c <= '\u{200a}') || c == '\u{2028}' || c
        == '\u{2029}' || c == '\u{202f}' || c == '\u{205f}' || c == '\u{3000}'
}

/// `s` without leading and trailing white space.
pub fn trim(s: &str) -> (r: String)
    ensures
        r@ == trimmed(s@),
{
    let n = s.unicode_len();
    let mut i: usize = 0;
    assert(s@.skip(0) =~= s@);
    while i < n && white_space(s.get_char(i))
        invariant
            n == s@.len(),
            i <= n,
            strip_leading(s@) == strip_leading(s@.skip(i as int)),
        decreases n - i,
    {
        assert(s@.skip(i as int).drop_first() =~= s@.skip(i + 1));
        i = i + 1;
    }
    assert(strip_leading(s@.skip(i as int)) == s@.skip(i as int));
    assert(s@.skip(i as int) =~= s@.subrange(i as int, n as int));
    let mut j: usize = n;
    while j > i && white_space(s.get_char(j - 1))
        invariant
            n == s@.len(),
            i <= j <= n,
            strip_trailing(s@.subrange(i as int, n as int)) == strip_trailing(
                s@.subrange(i as int, j as int),
            ),
        decreases j,
    {
        assert(s@.subrange(i as int, j as int).drop_last() =~= s@.subrange(i as int, j - 1));
        j = j - 1;
    }
    let r = slice(s, i, j);
    assert(strip_trailing(r@) == r@);
    r
}

/// The first line of `s`, as `str::lines` gives it.
pub fn first_line_of(s: &str) -> (r: Option<String>)
    ensures
        match r {
            Some(l) => first_line(s@) == Some(l@),
            None => first_line(s@) is None,
        },
{
    let n = s.unicode_len();
    if n == 0 {
        return None;
    }
    proof {
        lemma_first_index_of_bounds(s@, '\n');
    }
    let k = find_char(s, '\n');
    if k < n && k > 0 && s.get_char(k - 1) == '\r' {
        let l = slice(s, 0, k - 1);
        assert(l@ =~= s@.take(k as int).drop_last());
        Some(l)
    } else {
        let l = slice(s, 0, k);
        assert(l@ =~= s@.take(k as int));
        Some(l)
    }
}

/// Position of the first entry of `env` named `key`, or its length.
pub fn find_key(env: &Vec<(String, String)>, key: &str) -> (r: usize)
    ensures
        r as int == key_position(pair_views(env@), key@),
        r <= env@.len(),
{
    let ghost all = pair_views(env@);
    let mut i: usize = 0;
    assert(all.skip(0) =~= all);
    while i < env.len()
        invariant
            all == pair_views(env@),
            i <= env@.len(),
            key_position(all, key@) == i + key_position(all.skip(i as int), key@),
        decreases env@.len() - i,
    {
        if str_eq(env[i].0.as_str(), key) {
            return i;
        }
        assert(all.skip(i as int).drop_first() =~= all.skip(i + 1));
        i = i + 1;
    }
    i
}

/// The program arguments relayed in `text`; none where it is not a JSON
/// array of strings.
pub fn relayed_args_of(text: &str) -> (r: Vec<String>)
    ensures
        seq_views(r@) == relayed_args(text@),
{
    match parse_json(text) {
        Ok(j) => match string_list(&j) {
            Some(v) => v,
            None => {
                let v: Vec<String> = Vec::new();
                assert(seq_views(v@) =~= Seq::<Seq<char>>::empty());
                v
            },
        },
        Err(_) => {
            let v: Vec<String> = Vec::new();
            assert(seq_views(v@) =~= Seq::<Seq<char>>::empty());
            v
        },
    }
}

fn str_json(k: &str, v: &str) -> (r: (String, Json))
    ensures
        str_member(r, k@, v@),
{
    (owned(k), Json::String(owned(v)))
}

/// The configuration object inside `raw`: its `config` member where it has
/// one, else `raw` itself.
pub fn unwrap_envelope(raw: Json) -> (r: Json)
    ensures
        r == envelope(raw),
{
    match raw {
        Json::Object(fields) => match find_member(&fields, "config") {
            Some(i) => {
                let mut fields = fields;
                fields.remove(i).1
            },
            None => Json::Object(fields),
        },
        other => other,
    }
}

/// Replaces `${workspaceFolder}` by `root` in every string directly under
/// `config`; nested values and non-strings are left as they are.
pub fn substitute_workspace_folder(config: Json, root: &str) -> (r: Json)
    ensures
        substituted(config, r, root@),
{
    match config {
        Json::Object(fields) => {
            let ghost orig = fields@;
            let mut rest = fields;
            let mut out: Vec<(String, Json)> = Vec::new();
            assert(orig.skip(0) =~= orig);
            while rest.len() > 0
                invariant
                    out@.len() + rest@.len() == orig.len(),
                    rest@ == orig.skip(out@.len() as int),
                    forall|i: int|
                        0 <= i < out@.len() ==> #[trigger] substituted_member(orig[i], out@[i], root@),
                decreases rest@.len(),
            {
                let ghost k = out@.len() as int;
                let (name, value) = rest.remove(0);
                assert((name, value) == orig[k]);
                proof {
                    reveal_strlit("${workspaceFolder}");
                }
                let value = match value {
                    Json::String(s) => Json::String(replace(s.as_str(), WORKSPACE_FOLDER, root)),
                    other => other,
                };
                out.push((name, value));
                assert(rest@ =~= orig.skip(out@.len() as int));
                assert(substituted_member(orig[k], out@[k], root@));
            }
            Json::Object(out)
        },
        other => other,
    }
}

/// The request kind that a normalized configuration asks for; anything but
/// `"attach"` launches.
pub fn request_kind_of(config: &Json) -> (r: RequestKind)
    ensures
        r == lenient_kind(*config),
{
    match get_member(config, "request") {
        Some(v) => if json_is_str(v, "attach") {
            RequestKind::Attach
        } else {
            RequestKind::Launch
        },
        None => RequestKind::Launch,
    }
}

} // verus!
