use zed_csharp::feed::{stale_version_dirs, MISSING_PACKAGE_IS_EXPECTED, DirEntry, EntryKind, FeedAction, FeedEvent, PackageFeed};
use zed_csharp::json::Json;
use zed_csharp::model::{NuGetPackage, NuGetPackageVersion, NuGetPackagesResponse};
use zed_csharp::release::{
    ensure_github_release, DownloadedFileType, MISSING_ASSET_IS_EXPECTED, ReleaseAction, ReleaseAsset, ReleaseEvent,
};
use zed_csharp::roslyn::{
    BinarySettings, LspSettings, Roslyn, ServerAction, ServerEvent, ServerStage,
};
use zed_csharp::text::{after_last_char, contains, ends_with, replace, starts_with, str_eq};
use zed_csharp::utils::{
    get_executable, get_nuget_asset_name, get_runtime_identifier, get_version_dir, Architecture,
    Os, Platform,
};

fn s(x: &str) -> String {
    x.to_string()
}

const LINUX: Platform = Platform { os: Os::Linux, arch: Architecture::X8664 };

#[test]
fn runtime_identifiers_follow_the_table() {
    let table = [
        (Os::Mac, Architecture::Aarch64, "osx-arm64"),
        (Os::Mac, Architecture::X86, "osx-x86"),
        (Os::Mac, Architecture::X8664, "osx-x64"),
        (Os::Linux, Architecture::Aarch64, "linux-arm64"),
        (Os::Linux, Architecture::X86, "linux-x86"),
        (Os::Linux, Architecture::X8664, "linux-x64"),
        (Os::Windows, Architecture::Aarch64, "win-arm64"),
        (Os::Windows, Architecture::X86, "win-x86"),
        (Os::Windows, Architecture::X8664, "win-x64"),
    ];
    let mut seen: Vec<String> = Vec::new();
    for (os, arch, id) in table {
        let r = get_runtime_identifier(Platform { os, arch });
        assert_eq!(r, id);
        assert!(!seen.contains(&r));
        seen.push(r);
    }
}

#[test]
fn executable_names() {
    assert_eq!(get_executable("roslynls", Os::Windows), "roslynls.exe");
    assert_eq!(get_executable("roslynls", Os::Linux), "roslynls");
    assert_eq!(get_executable("roslynls", Os::Mac), "roslynls");
}

#[test]
fn version_dirs_and_asset_names() {
    assert_eq!(get_version_dir(s("roslynls"), s("v0.0.2")), "roslynls-v0.0.2");
    assert_eq!(get_version_dir(s("roslynls"), s("v0.0.2")), get_version_dir(s("roslynls"), s("v0.0.2")));
    assert_ne!(get_version_dir(s("a"), s("1")), get_version_dir(s("a"), s("2")));
    assert_ne!(get_version_dir(s("a"), s("1")), get_version_dir(s("b"), s("1")));
    assert_eq!(get_nuget_asset_name(s("Pkg.linux-x64"), s("5.3.0")), "Pkg.linux-x64.5.3.0.nupkg");
}

#[test]
fn text_helpers() {
    assert_eq!(replace("${a}/x/${a}", "${a}", "/r"), "/r/x//r");
    assert_eq!(replace("aaa", "aa", "b"), "ba");
    assert_eq!(replace("none", "${a}", "/r"), "none");
    assert!(str_eq("héllo", "héllo"));
    assert!(!str_eq("héllo", "hello"));
    assert!(starts_with("--flag", "--"));
    assert!(ends_with("app.csproj", ".csproj"));
    assert!(!ends_with("csproj", ".csproj"));
    assert!(contains("C:\\x", ":\\"));
    assert!(!contains("abc", "cd"));
    assert_eq!(after_last_char("a/b/c.dll", '/'), "c.dll");
    assert_eq!(after_last_char("c.dll", '/'), "c.dll");
    assert_eq!(after_last_char("dir/", '/'), "");
}

fn target() -> (zed_csharp::release::GithubRelease, ReleaseAction) {
    ensure_github_release(
        "roslynls",
        "fallenwood/zed-roslynls",
        "v0.0.2",
        s("roslynls-linux-x64"),
        DownloadedFileType::Uncompressed,
        s("/ext"),
    )
}

fn assets() -> Vec<ReleaseAsset> {
    vec![
        ReleaseAsset { name: s("roslynls-win-x64"), download_url: s("https://x/win") },
        ReleaseAsset { name: s("roslynls-linux-x64"), download_url: s("https://x/linux") },
    ]
}

#[test]
fn release_download_then_reuse() {
    let (mut m, a) = target();
    assert!(matches!(a, ReleaseAction::CheckExists(ref p) if p == "roslynls-linux-x64-v0.0.2"));
    let a = m.step(ReleaseEvent::Exists(false));
    assert!(matches!(a, ReleaseAction::FetchRelease(ref r, ref t) if r == "fallenwood/zed-roslynls" && t == "v0.0.2"));
    let a = m.step(ReleaseEvent::Release(Ok(assets())));
    match a {
        ReleaseAction::Download(url, path, kind) => {
            assert_eq!(url, "https://x/linux");
            assert_eq!(path, "roslynls-linux-x64-v0.0.2");
            assert_eq!(kind, DownloadedFileType::Uncompressed);
        }
        _ => panic!("no download"),
    }
    let a = m.step(ReleaseEvent::Downloaded(Ok(())));
    assert!(matches!(a, ReleaseAction::MakeExecutable(ref p) if p == "roslynls-linux-x64-v0.0.2"));
    let first = match m.step(ReleaseEvent::MadeExecutable(Ok(()))) {
        ReleaseAction::Done(Ok(p)) => p,
        _ => panic!("not done"),
    };
    // the second time the directory is there: no request, same path
    let (mut m2, _) = target();
    let second = match m2.step(ReleaseEvent::Exists(true)) {
        ReleaseAction::Done(Ok(p)) => p,
        _ => panic!("network asked for"),
    };
    assert_eq!(first, second);
}

#[test]
fn release_without_asset_falls_back_to_package() {
    let (mut m, _) = target();
    m.step(ReleaseEvent::Exists(false));
    let a = m.step(ReleaseEvent::Release(Ok(vec![])));
    assert!(matches!(a, ReleaseAction::Done(Ok(ref p)) if p == "roslynls"));
    let (mut m, _) = target();
    m.step(ReleaseEvent::Exists(false));
    let a = m.step(ReleaseEvent::Release(Err(s("offline"))));
    assert!(matches!(a, ReleaseAction::Done(Ok(ref p)) if p == "roslynls"));
}

#[test]
fn release_archive_kinds() {
    let (mut m, _) = ensure_github_release("tool", "o/r", "v1", s("tool-linux-x64"), DownloadedFileType::GzipTar, s("/ext"));
    m.step(ReleaseEvent::Exists(false));
    m.step(ReleaseEvent::Release(Ok(vec![ReleaseAsset { name: s("tool-linux-x64"), download_url: s("u") }])));
    let a = m.step(ReleaseEvent::Downloaded(Ok(())));
    assert!(matches!(a, ReleaseAction::MakeExecutable(ref p) if p == "/ext/tool-linux-x64-v1/tool"));
    let a = m.step(ReleaseEvent::MadeExecutable(Ok(())));
    assert!(matches!(a, ReleaseAction::Done(Ok(ref p)) if p == "/ext/tool-linux-x64-v1/tool"));
    let (mut m, _) = ensure_github_release("tool", "o/r", "v1", s("tool-linux-x64"), DownloadedFileType::GzipTar, s("/ext"));
    let a = m.step(ReleaseEvent::Exists(true));
    assert!(matches!(a, ReleaseAction::Done(Ok(ref p)) if p == "/ext/tool-linux-x64-v1/tool"));
    let (mut m, _) = ensure_github_release("tool", "o/r", "v1", s("tool-linux-x64"), DownloadedFileType::Zip, s("/ext"));
    m.step(ReleaseEvent::Exists(false));
    m.step(ReleaseEvent::Release(Ok(vec![ReleaseAsset { name: s("tool-linux-x64"), download_url: s("u") }])));
    let a = m.step(ReleaseEvent::Downloaded(Ok(())));
    assert!(matches!(a, ReleaseAction::Done(Err(ref e)) if e == "Not implemented"));
    let (mut m, _) = target();
    m.step(ReleaseEvent::Exists(false));
    m.step(ReleaseEvent::Release(Ok(assets())));
    let a = m.step(ReleaseEvent::Downloaded(Err(s("503"))));
    assert!(matches!(a, ReleaseAction::Done(Err(ref e)) if e == "Failed to download roslynls: 503"));
}

fn entry(name: &str, kind: EntryKind) -> DirEntry {
    DirEntry { name: s(name), path: format!("./{name}"), kind }
}

#[test]
fn cleanup_removes_only_old_version_dirs() {
    let entries = vec![
        entry("Pkg-v1", EntryKind::Dir),
        entry("Pkg-v2", EntryKind::Dir),
        entry("notes.txt", EntryKind::File),
        entry("roslynls-v0.0.2", EntryKind::Dir),
    ];
    assert_eq!(stale_version_dirs(&entries, "Pkg-v2"), vec![s("./Pkg-v1"), s("./roslynls-v0.0.2")]);
    assert!(stale_version_dirs(&vec![], "Pkg-v2").is_empty());
}

#[test]
fn feed_install_walks_breadth_first() {
    let (mut f, a) = PackageFeed::new(s("https://feed/pkg"), s("Pkg-v2"), s("/ext/Pkg-v2/server"));
    assert!(matches!(a, FeedAction::Download(ref u, ref d, DownloadedFileType::Zip) if u == "https://feed/pkg" && d == "Pkg-v2"));
    let a = f.step(FeedEvent::Downloaded(Ok(())));
    assert!(matches!(a, FeedAction::ListDir(ref p) if p == "."));
    let a = f.step(FeedEvent::Listed(Ok(vec![entry("Pkg-v1", EntryKind::Dir), entry("Pkg-v2", EntryKind::Dir), entry("x.txt", EntryKind::File)])));
    assert!(matches!(a, FeedAction::RemoveDir(ref p) if p == "./Pkg-v1"));
    let a = f.step(FeedEvent::Removed);
    assert!(matches!(a, FeedAction::ListDir(ref p) if p == "Pkg-v2"));
    let a = f.step(FeedEvent::Listed(Ok(vec![
        DirEntry { name: s("content"), path: s("Pkg-v2/content"), kind: EntryKind::Dir },
        DirEntry { name: s("link"), path: s("Pkg-v2/link"), kind: EntryKind::Other },
        DirEntry { name: s("a.nuspec"), path: s("Pkg-v2/a.nuspec"), kind: EntryKind::File },
    ])));
    assert!(matches!(a, FeedAction::ListDir(ref p) if p == "Pkg-v2/content"));
    let a = f.step(FeedEvent::Listed(Ok(vec![
        DirEntry { name: s("server"), path: s("Pkg-v2/content/server"), kind: EntryKind::File },
    ])));
    assert!(matches!(a, FeedAction::MakeExecutable(ref p) if p == "Pkg-v2/a.nuspec"));
    let a = f.step(FeedEvent::MadeExecutable(Ok(())));
    assert!(matches!(a, FeedAction::MakeExecutable(ref p) if p == "Pkg-v2/content/server"));
    let a = f.step(FeedEvent::MadeExecutable(Ok(())));
    assert!(matches!(a, FeedAction::Done(Ok(ref p)) if p == "/ext/Pkg-v2/server"));
}

#[test]
fn feed_failures_are_errors() {
    let (mut f, _) = PackageFeed::new(s("u"), s("d"), s("b"));
    let a = f.step(FeedEvent::Downloaded(Err(s("404"))));
    assert!(matches!(a, FeedAction::Done(Err(ref e)) if e == "failed to download file: 404"));
    let (mut f, _) = PackageFeed::new(s("u"), s("d"), s("b"));
    f.step(FeedEvent::Downloaded(Ok(())));
    let a = f.step(FeedEvent::Listed(Err(s("denied"))));
    assert!(matches!(a, FeedAction::Done(Err(ref e)) if e == "failed to list working directory denied"));
}

fn version(v: &str, latest: bool) -> NuGetPackageVersion {
    NuGetPackageVersion {
        id: s("id"),
        normalized_version: s(v),
        version: s(v),
        is_latest: latest,
        is_listed: true,
        publish_date: s("2025-10-11T02:38:05Z"),
    }
}

fn response(versions: Vec<NuGetPackageVersion>) -> NuGetPackagesResponse {
    NuGetPackagesResponse {
        count: 1,
        value: vec![NuGetPackage {
            id: s("p"),
            normalized_name: s("p"),
            name: s("P"),
            protocol_type: s("NuGet"),
            url: s("https://feed/p"),
            versions,
        }],
    }
}

#[test]
fn latest_version_is_the_flagged_one() {
    let r = response(vec![version("5.2.0", false), version("5.3.0-1.25510.11", true)]);
    assert_eq!(r.latest_version(), Some(s("5.3.0-1.25510.11")));
    assert_eq!(response(vec![version("1", false)]).latest_version(), None);
}

fn settings(path: Option<&str>, args: Option<Vec<&str>>, extra: Option<Json>) -> Option<LspSettings> {
    Some(LspSettings {
        binary: Some(BinarySettings {
            path: path.map(s),
            arguments: args.map(|a| a.into_iter().map(s).collect()),
        }),
        settings: extra,
    })
}

fn roslynls_setting() -> Option<Json> {
    Some(Json::Object(vec![(s("roslynls_path"), Json::String(s("/bin/roslynls")))]))
}

#[test]
fn explicit_path_wins_over_everything() {
    let mut r = Roslyn::new();
    r.cached_language_server_path = Some(s("/cached/server"));
    let (res, a) = r.language_server_cmd(settings(Some("/my/server"), None, roslynls_setting()), s("/w"), LINUX, s("/ext"));
    assert_eq!(res.stage, ServerStage::Finished);
    match a {
        ServerAction::Done(Ok(c)) => {
            assert_eq!(c.command, "/bin/roslynls");
            assert_eq!(c.args, vec![s("--lsp"), s("/my/server"), s("--project-root"), s("/w")]);
            assert!(c.env.is_empty());
        }
        _ => panic!("explicit path not used"),
    }
    assert_eq!(r.cached_roslynls_path, Some(s("/bin/roslynls")));
}

#[test]
fn user_arguments_replace_defaults() {
    let mut r = Roslyn::new();
    let (_, a) = r.language_server_cmd(settings(Some("/my/server"), Some(vec!["--x"]), roslynls_setting()), s("/w"), LINUX, s("/ext"));
    match a {
        ServerAction::Done(Ok(c)) => assert_eq!(c.args, vec![s("--x")]),
        _ => panic!("not done"),
    }
}

#[test]
fn dangling_cache_falls_through_to_search_path() {
    let mut r = Roslyn::new();
    r.cached_language_server_path = Some(s("/gone/server"));
    let (mut res, a) = r.language_server_cmd(settings(None, None, roslynls_setting()), s("/w"), LINUX, s("/ext"));
    assert!(matches!(a, ServerAction::IsFile(ref p) if p == "/gone/server"));
    let a = r.advance(&mut res, ServerEvent::IsFile(false));
    assert!(matches!(a, ServerAction::Which(ref e) if e == "Microsoft.CodeAnalysis.LanguageServer"));
    let a = r.advance(&mut res, ServerEvent::Found(Some(s("/w/.tools/server"))));
    match a {
        ServerAction::Done(Ok(c)) => assert_eq!(c.args[1], "/w/.tools/server"),
        _ => panic!("search path not used"),
    }
}

#[test]
fn live_cache_is_used() {
    let mut r = Roslyn::new();
    r.cached_language_server_path = Some(s("/cached/server"));
    let (mut res, _) = r.language_server_cmd(settings(None, None, roslynls_setting()), s("/w"), LINUX, s("/ext"));
    match r.advance(&mut res, ServerEvent::IsFile(true)) {
        ServerAction::Done(Ok(c)) => assert_eq!(c.args[1], "/cached/server"),
        _ => panic!("cache not used"),
    }
}

#[test]
fn feed_is_the_last_resort() {
    let mut r = Roslyn::new();
    let (mut res, a) = r.language_server_cmd(None, s("/w"), LINUX, s("/ext"));
    assert!(matches!(a, ServerAction::Release(ReleaseAction::CheckExists(ref p)) if p == "roslynls-linux-x64-v0.0.2"));
    let a = r.advance(&mut res, ServerEvent::Release(ReleaseEvent::Exists(true)));
    assert!(matches!(a, ServerAction::Which(_)));
    assert_eq!(r.cached_roslynls_path, Some(s("roslynls-linux-x64-v0.0.2")));
    let a = r.advance(&mut res, ServerEvent::Found(None));
    match a {
        ServerAction::FetchVersions(url) => assert_eq!(
            url,
            "https://feeds.dev.azure.com/azure-public/vside/_apis/packaging/feeds/vs-impl/packages?packageNameQuery=Microsoft.CodeAnalysis.LanguageServer.linux-x64&api-version=6.0-preview.1"
        ),
        _ => panic!("no version query"),
    }
    let a = r.advance(&mut res, ServerEvent::Versions(Ok(response(vec![version("5.3.0", true)]))));
    let installed = "/ext/Microsoft.CodeAnalysis.LanguageServer.linux-x64-5.3.0/content/LanguageServer/linux-x64/Microsoft.CodeAnalysis.LanguageServer";
    assert!(matches!(a, ServerAction::IsFile(ref p) if p == installed));
    let a = r.advance(&mut res, ServerEvent::IsFile(false));
    match a {
        ServerAction::Feed(FeedAction::Download(url, dir, DownloadedFileType::Zip)) => {
            assert_eq!(url, "https://pkgs.dev.azure.com/azure-public/vside/_packaging/vs-impl/nuget/v3/flat2/Microsoft.CodeAnalysis.LanguageServer.linux-x64/5.3.0/Microsoft.CodeAnalysis.LanguageServer.linux-x64.5.3.0.nupkg");
            assert_eq!(dir, "Microsoft.CodeAnalysis.LanguageServer.linux-x64-5.3.0");
        }
        _ => panic!("no download"),
    }
    r.advance(&mut res, ServerEvent::Feed(FeedEvent::Downloaded(Ok(()))));
    r.advance(&mut res, ServerEvent::Feed(FeedEvent::Listed(Ok(vec![]))));
    let a = r.advance(&mut res, ServerEvent::Feed(FeedEvent::Listed(Ok(vec![]))));
    match a {
        ServerAction::Done(Ok(c)) => {
            assert_eq!(c.command, "roslynls-linux-x64-v0.0.2");
            assert_eq!(c.args[1], installed);
        }
        _ => panic!("not installed"),
    }
    assert_eq!(r.cached_language_server_path, Some(s(installed)));
}

#[test]
fn version_query_failure_is_surfaced() {
    let mut r = Roslyn::new();
    r.cached_roslynls_path = Some(s("roslynls"));
    let (mut res, _) = r.language_server_cmd(None, s("/w"), LINUX, s("/ext"));
    r.advance(&mut res, ServerEvent::Found(None));
    let a = r.advance(&mut res, ServerEvent::Versions(Err(s("timeout"))));
    assert!(matches!(a, ServerAction::Done(Err(ref e)) if e == "failed to fetch the versions of Microsoft.CodeAnalysis.LanguageServer.linux-x64 from https://feeds.dev.azure.com/azure-public/vside/_apis/packaging/feeds/vs-impl/packages?packageNameQuery=Microsoft.CodeAnalysis.LanguageServer.linux-x64&api-version=6.0-preview.1: timeout"));
}

#[test]
fn feed_without_latest_version_is_an_error() {
    let mut r = Roslyn::new();
    r.cached_roslynls_path = Some(s("roslynls"));
    let (mut res, _) = r.language_server_cmd(None, s("/w"), LINUX, s("/ext"));
    r.advance(&mut res, ServerEvent::Found(None));
    let a = r.advance(&mut res, ServerEvent::Versions(Ok(response(vec![version("1", false)]))));
    assert!(matches!(a, ServerAction::Done(Err(ref e)) if e == "the package feed names no latest version of Microsoft.CodeAnalysis.LanguageServer.linux-x64"));
    assert!(r.cached_language_server_path.is_none());
}

#[test]
fn settings_are_transformed_for_roslyn() {
    let r = Roslyn::new();
    let nested = Json::Object(vec![(s("enable"), Json::Bool(true)), (s("level"), Json::String(s("all")))]);
    let user = Json::Object(vec![
        (s("roslynls_path"), Json::String(s("/x"))),
        (s("csharp|inlay_hints"), nested),
        (s("dotnet.format.enable"), Json::Bool(false)),
        (s("plain"), Json::Bool(true)),
        (s("csharp|bad"), Json::Bool(true)),
    ]);
    match r.transform_settings_for_roslyn(user) {
        Json::Object(f) => {
            let keys: Vec<&str> = f.iter().map(|(k, _)| k.as_str()).collect();
            assert_eq!(keys, vec!["csharp|inlay_hints.enable", "csharp|inlay_hints.level", "dotnet.format.enable"]);
            assert!(matches!(f[0].1, Json::Bool(true)));
            assert!(matches!(f[2].1, Json::Bool(false)));
        }
        _ => panic!("not an object"),
    }
    assert!(matches!(r.transform_settings_for_roslyn(Json::Null), Json::Object(ref f) if f.is_empty()));
    assert!(r.configuration_options(None).is_none());
    assert!(r.configuration_options(settings(None, None, Some(Json::Null))).is_some());
}

#[test]
fn package_ids_and_paths() {
    assert_eq!(Roslyn::get_langauge_server_package_id(LINUX), "Microsoft.CodeAnalysis.LanguageServer.linux-x64");
    assert_eq!(Roslyn::get_roslynls_package_id(Platform { os: Os::Windows, arch: Architecture::Aarch64 }), "roslynls-win-arm64");
    assert_eq!(
        Roslyn::get_langauge_server_binary_path("/ext", "1.0", Platform { os: Os::Windows, arch: Architecture::X8664 }),
        "/ext/Microsoft.CodeAnalysis.LanguageServer.win-x64-1.0/content/LanguageServer/win-x64/Microsoft.CodeAnalysis.LanguageServer.exe"
    );
}

#[test]
fn strategies_differ_on_missing_artifacts() {
    assert!(MISSING_ASSET_IS_EXPECTED);
    assert!(!MISSING_PACKAGE_IS_EXPECTED);
}

#[test]
fn stale_cache_then_download_keeps_user_arguments() {
    let mut r = Roslyn::new();
    r.cached_language_server_path = Some(s("/gone/server"));
    let (mut res, _) = r.language_server_cmd(settings(None, Some(vec!["--a", "--b"]), None), s("/w"), LINUX, s("/ext"));
    let a = r.advance(&mut res, ServerEvent::Release(ReleaseEvent::Exists(false)));
    assert!(matches!(a, ServerAction::Release(ReleaseAction::FetchRelease(_, _))));
    let a = r.advance(&mut res, ServerEvent::Release(ReleaseEvent::Release(Err(s("offline")))));
    assert!(matches!(a, ServerAction::IsFile(ref p) if p == "/gone/server"));
    r.advance(&mut res, ServerEvent::IsFile(false));
    match r.advance(&mut res, ServerEvent::Found(Some(s("/w/server")))) {
        ServerAction::Done(Ok(c)) => {
            assert_eq!(c.command, "roslynls");
            assert_eq!(c.args, vec![s("--a"), s("--b")]);
        }
        _ => panic!("not done"),
    }
    assert_eq!(r.cached_language_server_path, Some(s("/gone/server")));
}

#[test]
fn failed_install_keeps_the_cache() {
    let mut r = Roslyn::new();
    r.cached_roslynls_path = Some(s("roslynls"));
    let (mut res, _) = r.language_server_cmd(None, s("/w"), LINUX, s("/ext"));
    r.advance(&mut res, ServerEvent::Found(None));
    r.advance(&mut res, ServerEvent::Versions(Ok(response(vec![version("5.3.0", true)]))));
    r.advance(&mut res, ServerEvent::IsFile(false));
    let a = r.advance(&mut res, ServerEvent::Feed(FeedEvent::Downloaded(Err(s("404")))));
    assert!(matches!(a, ServerAction::Done(Err(ref e)) if e == "failed to download file: 404"));
    assert!(r.cached_language_server_path.is_none());
}
