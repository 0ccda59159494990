use zed_csharp::dap::{
    BuildTaskDefinition, DebugConfig, DebugRequest, DebugTaskDefinition, LaunchRequest,
    AttachRequest, RequestKind, SearchOutput, TaskTemplate,
};
use zed_csharp::json::Json;
use zed_csharp::netcoredbg::NetcoreDbg;
use zed_csharp::utils::Os;

fn s(x: &str) -> String {
    x.to_string()
}

fn obj(fields: Vec<(&str, Json)>) -> Json {
    Json::Object(fields.into_iter().map(|(k, v)| (s(k), v)).collect())
}

fn jstr(x: &str) -> Json {
    Json::String(s(x))
}

fn task(command: &str, args: &[&str], cwd: Option<&str>, env: Vec<(&str, &str)>) -> TaskTemplate {
    TaskTemplate {
        label: s("run app"),
        command: s(command),
        args: args.iter().map(|a| s(a)).collect(),
        env: env.into_iter().map(|(k, v)| (s(k), s(v))).collect(),
        cwd: cwd.map(s),
    }
}

fn parsed(text: &str) -> serde_json::Value {
    serde_json::from_str(text).unwrap()
}

#[test]
fn request_kind_of_wrapped_attach() {
    let mut d = NetcoreDbg::new();
    let config = obj(vec![("config", obj(vec![("request", jstr("attach")), ("processId", Json::Null)]))]);
    assert_eq!(d.dap_request_kind(s("netcoredbg"), config), Ok(RequestKind::Attach));
}

#[test]
fn request_kind_of_bare_launch() {
    let mut d = NetcoreDbg::new();
    let config = obj(vec![("request", jstr("launch"))]);
    assert_eq!(d.dap_request_kind(s("netcoredbg"), config), Ok(RequestKind::Launch));
}

#[test]
fn request_kind_of_null_is_not_yet_resolvable() {
    let mut d = NetcoreDbg::new();
    assert_eq!(
        d.dap_request_kind(s("netcoredbg"), Json::Null),
        Err(s("Config is null - awaiting locator resolution"))
    );
}

#[test]
fn request_kind_errors_are_distinct() {
    let mut d = NetcoreDbg::new();
    let unknown = d.dap_request_kind(s("netcoredbg"), obj(vec![("request", jstr("debug"))]));
    let missing = d.dap_request_kind(s("netcoredbg"), obj(vec![]));
    assert_eq!(
        unknown,
        Err(s("Unexpected value for `request` key in C# debug adapter configuration: \"debug\""))
    );
    assert_eq!(missing, Err(s("Missing `request` field in debug configuration")));
    assert_ne!(unknown, missing);
}

#[test]
fn request_kind_of_non_string_request() {
    let mut d = NetcoreDbg::new();
    let r = d.dap_request_kind(s("netcoredbg"), obj(vec![("request", Json::Bool(true))]));
    assert_eq!(r, Err(s("Unexpected value for `request` key in C# debug adapter configuration: true")));
}

fn definition(config: &str) -> DebugTaskDefinition {
    DebugTaskDefinition { label: s("debug"), adapter: s("netcoredbg"), config: s(config) }
}

#[test]
fn workspace_folder_is_substituted() {
    let mut d = NetcoreDbg::new();
    let b = d
        .get_dap_binary(
            s("netcoredbg"),
            definition(r#"{"program": "${workspaceFolder}/bin/app", "port": 5}"#),
            None,
            s("/home/u/proj"),
        )
        .unwrap();
    assert_eq!(
        parsed(&b.request_args.configuration),
        parsed(r#"{"program": "/home/u/proj/bin/app", "port": 5}"#)
    );
    assert_eq!(b.request_args.request, RequestKind::Launch);
    assert_eq!(b.cwd, Some(s("/home/u/proj")));
    assert_eq!(b.arguments, vec![s("--interpreter=vscode")]);
    assert_eq!(b.command, Some(s("/home/vbox/.local/opt/netcoredbg/netcoredbg")));
    assert!(b.envs.is_empty());
}

#[test]
fn substitution_is_shallow_and_repeated() {
    let mut d = NetcoreDbg::new();
    let b = d
        .get_dap_binary(
            s("netcoredbg"),
            definition(
                r#"{"cwd": "${workspaceFolder}:${workspaceFolder}", "args": ["${workspaceFolder}"], "env": {"A": "${workspaceFolder}"}}"#,
            ),
            None,
            s("/w"),
        )
        .unwrap();
    assert_eq!(
        parsed(&b.request_args.configuration),
        parsed(r#"{"cwd": "/w:/w", "args": ["${workspaceFolder}"], "env": {"A": "${workspaceFolder}"}}"#)
    );
}

#[test]
fn envelope_is_unwrapped_and_attach_kept() {
    let mut d = NetcoreDbg::new();
    let b = d
        .get_dap_binary(
            s("netcoredbg"),
            definition(r#"{"config": {"request": "attach", "processId": 42}, "label": "x"}"#),
            Some(s("/opt/netcoredbg")),
            s("/w"),
        )
        .unwrap();
    assert_eq!(parsed(&b.request_args.configuration), parsed(r#"{"request": "attach", "processId": 42}"#));
    assert_eq!(b.request_args.request, RequestKind::Attach);
    assert_eq!(b.command, Some(s("/opt/netcoredbg")));
}

#[test]
fn unknown_request_launches_leniently() {
    let mut d = NetcoreDbg::new();
    let b = d
        .get_dap_binary(s("netcoredbg"), definition(r#"{"request": "debug"}"#), None, s("/w"))
        .unwrap();
    assert_eq!(b.request_args.request, RequestKind::Launch);
}

#[test]
fn malformed_configuration_is_a_parse_error() {
    let mut d = NetcoreDbg::new();
    let r = d.get_dap_binary(s("netcoredbg"), definition("{not json"), None, s("/w"));
    let cause = serde_json::from_str::<serde_json::Value>("{not json").unwrap_err().to_string();
    match r {
        Err(e) => assert_eq!(e, format!("Failed to parse debug configuration: {cause}")),
        Ok(_) => panic!("malformed JSON was accepted"),
    }
}

#[test]
fn run_task_becomes_build_and_scenario() {
    let mut d = NetcoreDbg::new();
    let t = task(
        "dotnet",
        &["run", "--project", "app/app.csproj", "--", "--flag", "x"],
        Some("/w"),
        vec![("A", "1")],
    );
    let sc = d
        .dap_locator_create_scenario(s("dotnet-locator"), t, s("app"), s("netcoredbg"))
        .unwrap();
    assert_eq!(sc.label, "Debug app");
    assert_eq!(sc.adapter, "netcoredbg");
    assert_eq!(sc.config, "null");
    match sc.build {
        Some(BuildTaskDefinition::Template(p)) => {
            assert_eq!(p.locator_name, Some(s("dotnet-locator")));
            assert_eq!(p.template.args, vec![s("build"), s("/w/app/app.csproj")]);
            assert_eq!(p.template.command, "dotnet");
            assert_eq!(p.template.cwd, Some(s("/w")));
            assert_eq!(p.template.env.len(), 2);
            assert_eq!(p.template.env[0], (s("A"), s("1")));
            assert_eq!(p.template.env[1].0, "ZED_DOTNET_PROGRAM_ARGS");
            assert_eq!(parsed(&p.template.env[1].1), parsed(r#"["--flag", "x"]"#));
        }
        _ => panic!("no build template"),
    }
}

#[test]
fn watch_task_is_declined() {
    let mut d = NetcoreDbg::new();
    let t = task("dotnet", &["watch", "--project", "app/app.csproj"], Some("/w"), vec![]);
    assert!(d.dap_locator_create_scenario(s("l"), t, s("app"), s("netcoredbg")).is_none());
}

#[test]
fn other_commands_and_empty_args_are_declined() {
    let mut d = NetcoreDbg::new();
    let t = task("cargo", &["run"], Some("/w"), vec![]);
    assert!(d.dap_locator_create_scenario(s("l"), t, s("app"), s("netcoredbg")).is_none());
    let t = task("dotnet", &[], Some("/w"), vec![]);
    assert!(d.dap_locator_create_scenario(s("l"), t, s("app"), s("netcoredbg")).is_none());
}

#[test]
fn dotnet_exe_path_keeps_configuration_and_plain_args() {
    let mut d = NetcoreDbg::new();
    let t = task(
        "C:\\Program Files\\dotnet\\dotnet.exe",
        &["run", "-c", "Release", "--no-restore", "extra", "--project", "/abs/p.csproj"],
        None,
        vec![],
    );
    let sc = d.dap_locator_create_scenario(s("l"), t, s("p"), s("netcoredbg")).unwrap();
    match sc.build {
        Some(BuildTaskDefinition::Template(p)) => {
            assert_eq!(
                p.template.args,
                vec![s("build"), s("-c"), s("Release"), s("extra"), s("/abs/p.csproj")]
            );
            assert!(p.template.env.is_empty());
        }
        _ => panic!("no build template"),
    }
}

#[test]
fn relative_project_without_cwd_joins_dot() {
    let mut d = NetcoreDbg::new();
    let t = task("/usr/bin/dotnet", &["run", "--project", "a.csproj", "--configuration", "Debug"], None, vec![]);
    let sc = d.dap_locator_create_scenario(s("l"), t, s("p"), s("netcoredbg")).unwrap();
    match sc.build {
        Some(BuildTaskDefinition::Template(p)) => {
            assert_eq!(
                p.template.args,
                vec![s("build"), s("./a.csproj"), s("--configuration"), s("Debug")]
            );
        }
        _ => panic!("no build template"),
    }
}

#[test]
fn launch_config_becomes_scenario() {
    let mut d = NetcoreDbg::new();
    let config = DebugConfig {
        label: s("x"),
        adapter: s("netcoredbg"),
        request: DebugRequest::Launch(LaunchRequest {
            program: s("/w/bin/Debug/app.dll"),
            cwd: None,
            args: vec![s("a")],
            envs: vec![(s("K"), s("V"))],
        }),
        stop_on_entry: Some(true),
    };
    let sc = d.dap_config_to_scenario(config).unwrap();
    assert_eq!(sc.label, "Debug app.dll");
    assert_eq!(sc.adapter, "netcoredbg");
    assert!(sc.build.is_none());
    assert_eq!(
        parsed(&sc.config),
        parsed(
            r#"{"type": "netcoredbg", "request": "launch", "program": "/w/bin/Debug/app.dll", "cwd": ".", "args": ["a"], "env": {"K": "V"}, "stopAtEntry": true, "console": "integratedTerminal"}"#
        )
    );
}

#[test]
fn launch_config_without_args_or_env() {
    let mut d = NetcoreDbg::new();
    let config = DebugConfig {
        label: s("x"),
        adapter: s("netcoredbg"),
        request: DebugRequest::Launch(LaunchRequest {
            program: s("app"),
            cwd: Some(s("/w")),
            args: vec![],
            envs: vec![],
        }),
        stop_on_entry: None,
    };
    let sc = d.dap_config_to_scenario(config).unwrap();
    assert_eq!(sc.label, "Debug app");
    assert_eq!(
        parsed(&sc.config),
        parsed(
            r#"{"type": "netcoredbg", "request": "launch", "program": "app", "cwd": "/w", "stopAtEntry": false, "console": "integratedTerminal"}"#
        )
    );
}

#[test]
fn attach_config_is_refused() {
    let mut d = NetcoreDbg::new();
    let config = DebugConfig {
        label: s("x"),
        adapter: s("netcoredbg"),
        request: DebugRequest::Attach(AttachRequest { process_id: Some(7) }),
        stop_on_entry: None,
    };
    match d.dap_config_to_scenario(config) {
        Err(e) => assert_eq!(e, "Attach is not supported via dap_config_to_scenario"),
        Ok(_) => panic!("attach accepted"),
    }
}

fn found(stdout: &str) -> Result<SearchOutput, String> {
    Ok(SearchOutput { status: Some(0), stdout: s(stdout), stderr: String::new() })
}

#[test]
fn locator_recovers_relayed_args() {
    let mut d = NetcoreDbg::new();
    let t = task(
        "dotnet",
        &["build", "/w/app/app.csproj"],
        Some("/w"),
        vec![("A", "1"), ("ZED_DOTNET_PROGRAM_ARGS", "[\"--x\"]"), ("B", "2")],
    );
    let r = d
        .run_dap_locator(s("l"), t, Os::Linux, found("/w/app/bin/Debug/net8.0/app.dll\n"))
        .unwrap();
    match r {
        DebugRequest::Launch(l) => {
            assert_eq!(l.program, "/w/app/bin/Debug/net8.0/app.dll");
            assert_eq!(l.cwd, Some(s("/w")));
            assert_eq!(l.args, vec![s("--x")]);
            assert_eq!(l.envs, vec![(s("A"), s("1")), (s("B"), s("2"))]);
        }
        _ => panic!("not a launch"),
    }
}

#[test]
fn locator_drops_corrupt_relayed_args() {
    let mut d = NetcoreDbg::new();
    let t = task(
        "dotnet",
        &["build", "/w/app/app.csproj"],
        Some("/w"),
        vec![("ZED_DOTNET_PROGRAM_ARGS", "[not json")],
    );
    let r = d.run_dap_locator(s("l"), t, Os::Linux, found("  /w/app.dll  \r\nsecond\n")).unwrap();
    match r {
        DebugRequest::Launch(l) => {
            assert_eq!(l.program, "/w/app.dll");
            assert!(l.args.is_empty());
            assert!(l.envs.is_empty());
        }
        _ => panic!("not a launch"),
    }
}

#[test]
fn locator_search_for_project_flag() {
    let d = NetcoreDbg::new();
    let t = task(
        "dotnet",
        &["build", "-c", "Release", "--project", "${workspaceFolder}/src/app.csproj"],
        Some("/w"),
        vec![],
    );
    let c = d.dll_search(&t, Os::Linux).unwrap();
    assert_eq!(c.command, "find");
    assert_eq!(
        c.args,
        vec![s("/w/src/bin/Release"), s("-name"), s("app.dll"), s("-type"), s("f")]
    );
    let w = d.dll_search(&t, Os::Windows).unwrap();
    assert_eq!(w.command, "powershell");
    assert_eq!(
        w.args[3],
        "Get-ChildItem -Path '/w/src/bin/Release' -Filter 'app.dll' -Recurse -File | Select-Object -First 1 -ExpandProperty FullName"
    );
}

#[test]
fn locator_bare_project_file_uses_cwd() {
    let d = NetcoreDbg::new();
    let t = task("dotnet", &["build", "app.csproj"], Some("/w"), vec![]);
    let c = d.dll_search(&t, Os::Mac).unwrap();
    assert_eq!(c.args[0], "/w/bin/Debug");
    assert_eq!(c.args[2], "app.dll");
}

#[test]
fn locator_failures() {
    let mut d = NetcoreDbg::new();
    let no_cwd = task("dotnet", &["build", "a.csproj"], None, vec![]);
    assert_eq!(
        d.run_dap_locator(s("l"), no_cwd, Os::Linux, found("x")).err(),
        Some(s("Build task must have a cwd"))
    );
    let no_project = task("dotnet", &["build"], Some("/w"), vec![]);
    assert_eq!(
        d.run_dap_locator(s("l"), no_project, Os::Linux, found("x")).err(),
        Some(s("Could not determine project name from build task args"))
    );
    let t = || task("dotnet", &["build", "/w/a.csproj"], Some("/w"), vec![]);
    let failed = Ok(SearchOutput { status: Some(1), stdout: String::new(), stderr: s("boom") });
    assert_eq!(
        d.run_dap_locator(s("l"), t(), Os::Linux, failed).err(),
        Some(s("Could not locate DLL: find command failed: boom"))
    );
    let failed = Ok(SearchOutput { status: None, stdout: String::new(), stderr: s("gone") });
    assert_eq!(
        d.run_dap_locator(s("l"), t(), Os::Windows, failed).err(),
        Some(s("Could not locate DLL: PowerShell command failed: gone"))
    );
    assert_eq!(
        d.run_dap_locator(s("l"), t(), Os::Linux, found("")).err(),
        Some(s("No DLL found for project 'a' in /w/bin/Debug"))
    );
    assert_eq!(
        d.run_dap_locator(s("l"), t(), Os::Linux, Err(s("no find"))).err(),
        Some(s("Failed to search for DLL: no find"))
    );
}

#[test]
fn scenario_args_round_trip_through_locator() {
    let mut d = NetcoreDbg::new();
    let t = task("dotnet", &["run", "--project", "app.csproj", "--", "a b", "\"q\""], Some("/w"), vec![]);
    let sc = d.dap_locator_create_scenario(s("l"), t, s("app"), s("netcoredbg")).unwrap();
    let build = match sc.build {
        Some(BuildTaskDefinition::Template(p)) => p.template,
        _ => panic!("no build template"),
    };
    let r = d.run_dap_locator(s("l"), build, Os::Linux, found("/w/bin/Debug/app.dll")).unwrap();
    match r {
        DebugRequest::Launch(l) => {
            assert_eq!(l.args, vec![s("a b"), s("\"q\"")]);
            assert!(l.envs.is_empty());
        }
        _ => panic!("not a launch"),
    }
}

#[test]
fn dotnet_with_trailing_separator_is_recognised() {
    let mut d = NetcoreDbg::new();
    let t = task("/usr/bin/dotnet/", &["run", "--project", "a.csproj"], Some("/w"), vec![]);
    assert!(d.dap_locator_create_scenario(s("l"), t, s("a"), s("netcoredbg")).is_some());
}

#[test]
fn dll_path_is_trimmed_of_unicode_white_space() {
    let mut d = NetcoreDbg::new();
    let t = task("dotnet", &["build", "/w/a.csproj"], Some("/w"), vec![]);
    let r = d.run_dap_locator(s("l"), t, Os::Linux, found("\u{3000}\t/w/a.dll\u{a0} \n")).unwrap();
    match r {
        DebugRequest::Launch(l) => assert_eq!(l.program, "/w/a.dll"),
        _ => panic!("not a launch"),
    }
}
