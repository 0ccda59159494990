//! The Roslyn language server: its settings, its command line, and where
//! its executable and the `roslynls` wrapper that starts it come from.
use vstd::prelude::*;

use crate::feed::{feed_step_post, FeedAction, FeedEvent, FeedStage, PackageFeed};
use crate::json::{find_member, get, get_member, Json};
use crate::model::{latest_in_packages, NuGetPackagesResponse};
use crate::release::{
    ensure_github_release, release_start, release_step, ReleaseStage, DownloadedFileType, GithubRelease, ReleaseAction,
    ReleaseActionView, ReleaseEvent,
};
use crate::text::{concat, contains, contains_seq, owned, seq_views, str_eq};
use crate::utils::{
    executable_name, get_executable, get_nuget_asset_name, get_runtime_identifier,
    get_version_dir, nuget_asset_name, runtime_id, version_dir, Platform,
};

verus! {

pub const ORGANIZATION: &'static str = "azure-public";

pub const PROJECT: &'static str = "vside";

pub const FEED: &'static str = "vs-impl";

pub const ROSLYNLS: &'static str = "roslynls";

/// The settings key that names a `roslynls` executable of the user's.
pub const ROSLYNLS_PATH_KEY: &'static str = "roslynls_path";

pub const ROSLYNLS_REPO: &'static str = "fallenwood/zed-roslynls";

pub const ROSLYNLS_TAG: &'static str = "v0.0.2";

pub const LANGUAGE_SERVER: &'static str = "Microsoft.CodeAnalysis.LanguageServer";

/// The name under which the language server is registered.
pub const LANGUAGE_SERVER_ID: &'static str = "roslyn";

/// A process to start: the program, its arguments and extra environment.
pub struct Command {
    pub command: String,
    pub args: Vec<String>,
    pub env: Vec<(String, String)>,
}

/// The `binary` part of the user's language-server settings.
pub struct BinarySettings {
    pub path: Option<String>,
    pub arguments: Option<Vec<String>>,
}

/// The user's settings for a language server.
pub struct LspSettings {
    pub binary: Option<BinarySettings>,
    pub settings: Option<Json>,
}

/// An object's members with their keys as character sequences.
pub open spec fn keys_view(fields: Seq<(String, Json)>) -> Seq<(Seq<char>, Json)> {
    fields.map_values(|f: (String, Json)| (f.0@, f.1))
}

/// Position of the member named `k`, or the number of members.
pub open spec fn key_pos(m: Seq<(Seq<char>, Json)>, k: Seq<char>) -> int
    decreases m.len(),
{
    if m.len() == 0 {
        0
    } else if m[0].0 == k {
        0
    } else {
        1 + key_pos(m.drop_first(), k)
    }
}

/// `m` with `k` set to `v`, as a map's `insert` does: in place where the
/// key is there, at the end where it is new.
pub open spec fn insert_spec(m: Seq<(Seq<char>, Json)>, k: Seq<char>, v: Json) -> Seq<(Seq<char>, Json)> {
    let i = key_pos(m, k);
    if i < m.len() {
        m.update(i, (k, v))
    } else {
        m.push((k, v))
    }
}

/// `acc` with each member of `nested` inserted under `{prefix}.{key}`.
pub open spec fn insert_all(acc: Seq<(Seq<char>, Json)>, prefix: Seq<char>, nested: Seq<(Seq<char>, Json)>) -> Seq<(Seq<char>, Json)>
    decreases nested.len(),
{
    if nested.len() == 0 {
        acc
    } else {
        insert_spec(
            insert_all(acc, prefix, nested.drop_last()),
            prefix + "."@ + nested.last().0,
            nested.last().1,
        )
    }
}

/// One member of the user's settings, taken into Roslyn's: the wrapper's
/// own key is dropped; a `language|category` key contributes each of its
/// members as `language|category.name`; a dotted key is kept as it is;
/// anything else is dropped.
pub open spec fn transform_member(acc: Seq<(Seq<char>, Json)>, f: (Seq<char>, Json)) -> Seq<(Seq<char>, Json)> {
    if f.0 == ROSLYNLS_PATH_KEY@ {
        acc
    } else if contains_seq(f.0, "|"@) {
        match f.1 {
            Json::Object(nested) => insert_all(acc, f.0, keys_view(nested@)),
            _ => acc,
        }
    } else if contains_seq(f.0, "."@) {
        insert_spec(acc, f.0, f.1)
    } else {
        acc
    }
}

/// The user's settings members, taken into Roslyn's in order.
pub open spec fn transform_spec(fields: Seq<(Seq<char>, Json)>) -> Seq<(Seq<char>, Json)>
    decreases fields.len(),
{
    if fields.len() == 0 {
        seq![]
    } else {
        transform_member(transform_spec(fields.drop_last()), fields.last())
    }
}

proof fn lemma_key_pos(m: Seq<(Seq<char>, Json)>, k: Seq<char>, i: int)
    requires
        0 <= i <= m.len(),
        i < m.len() ==> m[i].0 == k,
        forall|j: int| 0 <= j < i ==> m[j].0 != k,
    ensures
        key_pos(m, k) == i,
    decreases m.len(),
{
    if m.len() > 0 && i > 0 {
        lemma_key_pos(m.drop_first(), k, i - 1);
    }
}

/// Sets member `key` of `fields` to `value`.
fn object_insert(fields: &mut Vec<(String, Json)>, key: String, value: Json)
    ensures
        keys_view(final(fields)@) == insert_spec(keys_view(old(fields)@), key@, value),
{
    let ghost m = keys_view(fields@);
    match find_member(fields, key.as_str()) {
        Some(i) => {
            proof {
                lemma_key_pos(m, key@, i as int);
            }
            fields.set(i, (key, value));
            assert(keys_view(fields@) =~= m.update(i as int, (key@, value)));
        },
        None => {
            proof {
                lemma_key_pos(m, key@, m.len() as int);
            }
            fields.push((key, value));
            assert(keys_view(fields@) =~= m.push((key@, value)));
        },
    }
}

/// Inserts each member of `nested` into `out` under `{prefix}.{name}`.
fn insert_nested(out: &mut Vec<(String, Json)>, prefix: &str, nested: Vec<(String, Json)>)
    ensures
        keys_view(final(out)@) == insert_all(keys_view(old(out)@), prefix@, keys_view(nested@)),
{
    let ghost orig = keys_view(nested@);
    let ghost acc = keys_view(out@);
    let mut rest = nested;
    let mut n: usize = 0;
    let total = rest.len();
    assert(orig.skip(0) =~= orig);
    assert(orig.take(0) =~= Seq::<(Seq<char>, Json)>::empty());
    while rest.len() > 0
        invariant
            orig.len() == total,
            n + rest@.len() == orig.len(),
            keys_view(rest@) == orig.skip(n as int),
            keys_view(out@) == insert_all(acc, prefix@, orig.take(n as int)),
        decreases rest@.len(),
    {
        let ghost before = rest@;
        let (name, value) = rest.remove(0);
        assert(orig[n as int] == (name@, value)) by {
            assert(keys_view(before)[0] == orig.skip(n as int)[0]);
        }
        let p = concat(prefix, ".");
        let key = concat(p.as_str(), name.as_str());
        object_insert(out, key, value);
        assert(orig.take(n + 1).drop_last() =~= orig.take(n as int));
        assert(orig.take(n + 1).last() == orig[n as int]);
        n = n + 1;
        assert(keys_view(rest@) =~= keys_view(before).drop_first());
        assert(keys_view(rest@) =~= orig.skip(n as int));
    }
    assert(orig.take(n as int) =~= orig);
}

/// Builds the command that starts `roslynls` on the language server.
pub open spec fn default_args(server: Seq<char>, root: Seq<char>) -> Seq<Seq<char>> {
    seq!["--lsp"@, server, "--project-root"@, root]
}

/// The user's `roslynls_path` setting, where it is a string.
pub open spec fn roslynls_setting(settings: Option<LspSettings>) -> Option<Seq<char>> {
    match settings {
        Some(s) => match s.settings {
            Some(obj) => match get(obj, ROSLYNLS_PATH_KEY@) {
                Some(Json::String(p)) => Some(p@),
                _ => None,
            },
            None => None,
        },
        None => None,
    }
}

/// The language server's package id: `Microsoft.CodeAnalysis.LanguageServer.{rid}`.
pub open spec fn language_server_package_id(platform: Platform) -> Seq<char> {
    LANGUAGE_SERVER@ + "."@ + runtime_id(platform)
}

/// Where a version of the language server lives once installed.
pub open spec fn installed_server_path(
    current_dir: Seq<char>,
    version: Seq<char>,
    platform: Platform,
) -> Seq<char> {
    current_dir + "/"@ + version_dir(language_server_package_id(platform), version)
        + "/content/LanguageServer/"@ + runtime_id(platform) + "/"@ + executable_name(
        LANGUAGE_SERVER@,
        platform.os,
    )
}

/// The feed's query for the versions of the language server's package.
pub open spec fn versions_url(platform: Platform) -> Seq<char> {
    "https://feeds.dev.azure.com/"@ + ORGANIZATION@ + "/"@ + PROJECT@
        + "/_apis/packaging/feeds/"@ + FEED@ + "/packages?packageNameQuery="@
        + language_server_package_id(platform) + "&api-version=6.0-preview.1"@
}

/// The feed's download url for a version of the language server's package.
pub open spec fn download_url(platform: Platform, version: Seq<char>) -> Seq<char> {
    let id = language_server_package_id(platform);
    "https://pkgs.dev.azure.com/"@ + ORGANIZATION@ + "/"@ + PROJECT@ + "/_packaging/"@ + FEED@
        + "/nuget/v3/flat2/"@ + id + "/"@ + version + "/"@ + nuget_asset_name(id, version)
}

/// The language server's state across calls: the paths found before, which
/// are trusted again only once they are seen to be still there.
pub struct Roslyn {
    pub cached_language_server_path: Option<String>,
    pub cached_roslynls_path: Option<String>,
}

impl Roslyn {
    pub fn new() -> (r: Self)
        ensures
            r.cached_language_server_path is None,
            r.cached_roslynls_path is None,
    {
        Roslyn { cached_language_server_path: None, cached_roslynls_path: None }
    }

    /// The command that starts `roslynls` on the language server at
    /// `language_server_path`: the user's arguments where given, in place of
    /// the default ones, never merged with them.
    pub fn cmd(
        roslynls_path: String,
        language_server_path: String,
        project_root: String,
        binary_args: Option<Vec<String>>,
    ) -> (r: Command)
        ensures
            r.command == roslynls_path,
            r.env@.len() == 0,
            match binary_args {
                Some(a) => r.args == a,
                None => seq_views(r.args@) == default_args(language_server_path@, project_root@),
            },
    {
        let args = match binary_args {
            Some(a) => a,
            None => {
                let mut d: Vec<String> = Vec::new();
                d.push(owned("--lsp"));
                d.push(language_server_path);
                d.push(owned("--project-root"));
                d.push(project_root);
                assert(seq_views(d@) =~= default_args(language_server_path@, project_root@));
                d
            },
        };
        Command { command: roslynls_path, args, env: Vec::new() }
    }

    /// The user's settings as Roslyn reads them: see `transform_member`.
    pub fn transform_settings_for_roslyn(&self, settings: Json) -> (r: Json)
        ensures
            r matches Json::Object(f) && keys_view(f@) == match settings {
                Json::Object(s) => transform_spec(keys_view(s@)),
                _ => seq![],
            },
    {
        let mut out: Vec<(String, Json)> = Vec::new();
        let ghost settings_v = settings;
        match settings {
            Json::Object(fields) => {
                let ghost orig = keys_view(fields@);
                let mut rest = fields;
                let mut n: usize = 0;
                let total = rest.len();
                assert(orig.skip(0) =~= orig);
                assert(orig.take(0) =~= Seq::<(Seq<char>, Json)>::empty());
                assert(keys_view(out@) =~= Seq::<(Seq<char>, Json)>::empty());
                while rest.len() > 0
                    invariant
                        orig.len() == total,
                        n + rest@.len() == orig.len(),
                        keys_view(rest@) == orig.skip(n as int),
                        keys_view(out@) == transform_spec(orig.take(n as int)),
                    decreases rest@.len(),
                {
                    let ghost before = rest@;
                    let ghost acc = keys_view(out@);
                    let (key, value) = rest.remove(0);
                    assert(orig[n as int] == (key@, value)) by {
                        assert(keys_view(before)[0] == orig.skip(n as int)[0]);
                    }
                    if str_eq(key.as_str(), ROSLYNLS_PATH_KEY) {
                    } else if contains(key.as_str(), "|") {
                        match value {
                            Json::Object(nested) => insert_nested(&mut out, key.as_str(), nested),
                            _ => {},
                        }
                    } else if contains(key.as_str(), ".") {
                        object_insert(&mut out, key, value);
                    }
                    assert(keys_view(out@) == transform_member(acc, orig[n as int]));
                    assert(orig.take(n + 1).drop_last() =~= orig.take(n as int));
                    assert(orig.take(n + 1).last() == orig[n as int]);
                    n = n + 1;
                    assert(keys_view(rest@) =~= keys_view(before).drop_first());
                    assert(keys_view(rest@) =~= orig.skip(n as int));
                }
                assert(orig.take(n as int) =~= orig);
            },
            _ => {},
        }
        Json::Object(out)
    }

    /// The workspace configuration that Roslyn is sent: the user's settings,
    /// transformed, where there are any.
    pub fn configuration_options(&self, settings: Option<LspSettings>) -> (r: Option<Json>)
        ensures
            r is Some <==> (settings matches Some(s) && s.settings is Some),
            r matches Some(j) ==> j matches Json::Object(f) && keys_view(f@) == match settings->0.settings->0 {
                Json::Object(s) => transform_spec(keys_view(s@)),
                _ => seq![],
            },
    {
        match settings {
            Some(s) => match s.settings {
                Some(v) => Some(self.transform_settings_for_roslyn(v)),
                None => None,
            },
            None => None,
        }
    }

    /// The user's `roslynls_path` setting, where it is a string.
    pub fn roslynls_path_setting(settings: &Option<LspSettings>) -> (r: Option<String>)
        ensures
            match r {
                Some(p) => roslynls_setting(*settings) == Some(p@),
                None => roslynls_setting(*settings) is None,
            },
    {
        match settings {
            Some(s) => match &s.settings {
                Some(obj) => match get_member(obj, ROSLYNLS_PATH_KEY) {
                    Some(Json::String(p)) => Some(p.clone()),
                    _ => None,
                },
                None => None,
            },
            None => None,
        }
    }

    /// `Microsoft.CodeAnalysis.LanguageServer.{rid}`.
    pub fn get_langauge_server_package_id(platform: Platform) -> (r: String)
        ensures
            r@ == language_server_package_id(platform),
    {
        let rid = get_runtime_identifier(platform);
        let p = concat(LANGUAGE_SERVER, ".");
        concat(p.as_str(), rid.as_str())
    }

    /// `roslynls-{rid}`: the name of the release asset for this platform.
    pub fn get_roslynls_package_id(platform: Platform) -> (r: String)
        ensures
            r@ == ROSLYNLS@ + "-"@ + runtime_id(platform),
    {
        let rid = get_runtime_identifier(platform);
        let p = concat(ROSLYNLS, "-");
        concat(p.as_str(), rid.as_str())
    }

    /// Where `version` of the language server lives once installed under
    /// `current_dir`.
    pub fn get_langauge_server_binary_path(
        current_dir: &str,
        version: &str,
        platform: Platform,
    ) -> (r: String)
        ensures
            r@ == installed_server_path(current_dir@, version@, platform),
    {
        let id = Self::get_langauge_server_package_id(platform);
        let dir = get_version_dir(id, owned(version));
        let rid = get_runtime_identifier(platform);
        let exe = get_executable(LANGUAGE_SERVER, platform.os);
        let p = concat(current_dir, "/");
        let p = concat(p.as_str(), dir.as_str());
        let p = concat(p.as_str(), "/content/LanguageServer/");
        let p = concat(p.as_str(), rid.as_str());
        let p = concat(p.as_str(), "/");
        concat(p.as_str(), exe.as_str())
    }

    /// The feed's query for the language server's versions.
    pub fn language_server_versions_url(platform: Platform) -> (r: String)
        ensures
            r@ == versions_url(platform),
    {
        let id = Self::get_langauge_server_package_id(platform);
        let p = concat("https://feeds.dev.azure.com/", ORGANIZATION);
        let p = concat(p.as_str(), "/");
        let p = concat(p.as_str(), PROJECT);
        let p = concat(p.as_str(), "/_apis/packaging/feeds/");
        let p = concat(p.as_str(), FEED);
        let p = concat(p.as_str(), "/packages?packageNameQuery=");
        let p = concat(p.as_str(), id.as_str());
        concat(p.as_str(), "&api-version=6.0-preview.1")
    }

    /// The feed's download url for `version` of the language server.
    pub fn language_server_download_url(platform: Platform, version: &str) -> (r: String)
        ensures
            r@ == download_url(platform, version@),
    {
        let id = Self::get_langauge_server_package_id(platform);
        let asset = get_nuget_asset_name(id.clone(), owned(version));
        let p = concat("https://pkgs.dev.azure.com/", ORGANIZATION);
        let p = concat(p.as_str(), "/");
        let p = concat(p.as_str(), PROJECT);
        let p = concat(p.as_str(), "/_packaging/");
        let p = concat(p.as_str(), FEED);
        let p = concat(p.as_str(), "/nuget/v3/flat2/");
        let p = concat(p.as_str(), id.as_str());
        let p = concat(p.as_str(), "/");
        let p = concat(p.as_str(), version);
        let p = concat(p.as_str(), "/");
        concat(p.as_str(), asset.as_str())
    }
}

/// What the search for the language server asks its caller to do next.
pub enum ServerAction {
    /// A step of fetching `roslynls` from its GitHub release.
    Release(ReleaseAction),
    /// Report whether the path is a regular file on disk.
    IsFile(String),
    /// Look the executable up on the worktree's search path.
    Which(String),
    /// Query the feed at the url for the package's versions.
    FetchVersions(String),
    /// A step of installing the language server from the feed.
    Feed(FeedAction),
    /// The search is over: the command to run, or why there is none.
    Done(Result<Command, String>),
}

/// What the caller found when it did what was asked.
pub enum ServerEvent {
    Release(ReleaseEvent),
    IsFile(bool),
    Found(Option<String>),
    Versions(Result<NuGetPackagesResponse, String>),
    Feed(FeedEvent),
}

#[derive(Clone, Copy, Debug, PartialEq, Eq, Structural)]
pub enum ServerStage {
    Roslynls,
    CheckingCached,
    Searching,
    FetchingVersions,
    CheckingInstalled,
    Installing,
    Finished,
}

/// A search for the language server in progress.
pub struct ServerResolution {
    pub stage: ServerStage,
    pub platform: Platform,
    pub root: String,
    pub current_dir: String,
    /// The path that the user's settings give, which is used as it is.
    pub explicit_path: Option<String>,
    pub binary_args: Option<Vec<String>>,
    pub roslynls_path: String,
    pub release: Option<GithubRelease>,
    pub feed: Option<PackageFeed>,
    /// The path whose presence on disk is being asked about.
    pub candidate: String,
    /// The latest version, once the feed has given it.
    pub version: String,
}

/// The path that the user's settings give for the server's binary.
pub open spec fn explicit_path_of(settings: Option<LspSettings>) -> Option<String> {
    match settings {
        Some(s) => match s.binary {
            Some(b) => b.path,
            None => None,
        },
        None => None,
    }
}

/// The arguments that the user's settings give for the server's binary.
pub open spec fn binary_args_of(settings: Option<LspSettings>) -> Option<Vec<String>> {
    match settings {
        Some(s) => match s.binary {
            Some(b) => b.arguments,
            None => None,
        },
        None => None,
    }
}

/// `r` finishes the search with the command that starts `roslynls` on the
/// server at `server`.
pub open spec fn finishes_with(
    r: ServerAction,
    res: ServerResolution,
    server: Seq<char>,
) -> bool {
    r matches ServerAction::Done(Ok(c)) && c.command == res.roslynls_path && c.env@.len() == 0
        && match res.binary_args {
        Some(a) => c.args == a,
        None => seq_views(c.args@) == default_args(server, res.root@),
    }
}

/// `r` is the first step of the search once `roslynls` is known: the user's
/// path wins outright; else a path found before, if it is still a file;
/// else the worktree's search path.
pub open spec fn begins_search(
    r: ServerAction,
    res: ServerResolution,
    cached: Option<String>,
) -> bool {
    match res.explicit_path {
        Some(p) => finishes_with(r, res, p@) && res.stage == ServerStage::Finished,
        None => match cached {
            Some(c) => r == ServerAction::IsFile(c) && res.stage == ServerStage::CheckingCached
                && res.candidate == c,
            None => (r matches ServerAction::Which(e) && e@ == executable_name(
                LANGUAGE_SERVER@,
                res.platform.os,
            )) && res.stage == ServerStage::Searching,
        },
    }
}

impl Roslyn {
    fn finish(res: &mut ServerResolution, server: String) -> (r: ServerAction)
        ensures
            final(res).stage == ServerStage::Finished,
            *final(res) == (ServerResolution {
                stage: final(res).stage,
                binary_args: final(res).binary_args,
                ..*old(res)
            }),
            finishes_with(r, *old(res), server@),
    {
        res.stage = ServerStage::Finished;
        let args = res.binary_args.take();
        let root = res.root.clone();
        ServerAction::Done(Ok(Self::cmd(res.roslynls_path.clone(), server, root, args)))
    }

    fn search_path(res: &mut ServerResolution) -> (r: ServerAction)
        ensures
            final(res).stage == ServerStage::Searching,
            *final(res) == (ServerResolution { stage: final(res).stage, ..*old(res) }),
            r matches ServerAction::Which(e) && e@ == executable_name(
                LANGUAGE_SERVER@,
                old(res).platform.os,
            ),
    {
        res.stage = ServerStage::Searching;
        ServerAction::Which(get_executable(LANGUAGE_SERVER, res.platform.os))
    }

    /// The first step once `roslynls` is known.
    fn begin_search(&self, res: &mut ServerResolution) -> (r: ServerAction)
        ensures
            *final(res) == (ServerResolution {
                stage: final(res).stage,
                binary_args: final(res).binary_args,
                candidate: final(res).candidate,
                ..*old(res)
            }),
            final(res).stage != ServerStage::Finished ==> final(res).binary_args == old(res).binary_args,
            final(res).stage == ServerStage::CheckingCached ==> Some(final(res).candidate)
                == self.cached_language_server_path,
            begins_search(
                r,
                ServerResolution {
                    stage: final(res).stage,
                    candidate: final(res).candidate,
                    ..*old(res)
                },
                self.cached_language_server_path,
            ),
    {
        match &res.explicit_path {
            Some(p) => {
                let p = p.clone();
                Self::finish(res, p)
            },
            None => match &self.cached_language_server_path {
                Some(c) => {
                    res.stage = ServerStage::CheckingCached;
                    res.candidate = c.clone();
                    ServerAction::IsFile(c.clone())
                },
                None => Self::search_path(res),
            },
        }
    }

    /// Starts the search for the language server's command. `roslynls` is
    /// the user's `roslynls_path`, else the one found before, else fetched
    /// from its GitHub release. Then the server itself: the user's binary
    /// path; else the one found before, if still a file; else one on the
    /// worktree's search path; else the latest version from the feed,
    /// installed unless it already is.
    pub fn language_server_cmd(
        &mut self,
        settings: Option<LspSettings>,
        root: String,
        platform: Platform,
        current_dir: String,
    ) -> (r: (ServerResolution, ServerAction))
        ensures
            final(self).cached_language_server_path == old(self).cached_language_server_path,
            r.0.root == root,
            r.0.platform == platform,
            r.0.current_dir == current_dir,
            r.0.feed is None,
            r.0.explicit_path == explicit_path_of(settings),
            r.0.stage != ServerStage::Finished ==> r.0.binary_args == binary_args_of(settings),
            match roslynls_setting(settings) {
                Some(p) => r.0.roslynls_path@ == p && final(self).cached_roslynls_path == Some(
                    r.0.roslynls_path,
                ) && begins_search(
                    r.1,
                    ServerResolution { binary_args: binary_args_of(settings), ..r.0 },
                    old(self).cached_language_server_path,
                ),
                None => match old(self).cached_roslynls_path {
                    Some(c) => r.0.roslynls_path == c && final(self).cached_roslynls_path
                        == Some(c) && begins_search(
                        r.1,
                        ServerResolution { binary_args: binary_args_of(settings), ..r.0 },
                        old(self).cached_language_server_path,
                    ),
                    None => {
                        &&& r.0.stage == ServerStage::Roslynls
                        &&& final(self).cached_roslynls_path is None
                        &&& r.0.release matches Some(rel) && rel.stage == ReleaseStage::Checking
                            && rel.target.package@ == ROSLYNLS@ && rel.target.repo@
                            == ROSLYNLS_REPO@ && rel.target.tag@ == ROSLYNLS_TAG@
                            && rel.target.package_id@ == ROSLYNLS@ + "-"@ + runtime_id(platform)
                            && rel.target.file_type == DownloadedFileType::Uncompressed
                            && rel.target.current_dir == current_dir
                        &&& r.1 matches ServerAction::Release(a) && a@ == release_start(
                            r.0.release->0.target,
                        ).1
                    },
                },
            },
    {
        let known = match Self::roslynls_path_setting(&settings) {
            Some(p) => Some(p),
            None => match &self.cached_roslynls_path {
                Some(c) => Some(c.clone()),
                None => None,
            },
        };
        let (explicit_path, binary_args) = match settings {
            Some(s) => match s.binary {
                Some(b) => (b.path, b.arguments),
                None => (None, None),
            },
            None => (None, None),
        };
        let mut res = ServerResolution {
            stage: ServerStage::Roslynls,
            platform,
            root,
            current_dir,
            explicit_path,
            binary_args,
            roslynls_path: owned(ROSLYNLS),
            release: None,
            feed: None,
            candidate: String::new(),
            version: String::new(),
        };
        match known {
            Some(p) => {
                self.cached_roslynls_path = Some(p.clone());
                res.roslynls_path = p;
                let a = self.begin_search(&mut res);
                (res, a)
            },
            None => {
                let (release, a) = ensure_github_release(
                    ROSLYNLS,
                    ROSLYNLS_REPO,
                    ROSLYNLS_TAG,
                    Self::get_roslynls_package_id(platform),
                    DownloadedFileType::Uncompressed,
                    res.current_dir.clone(),
                );
                res.release = Some(release);
                (res, ServerAction::Release(a))
            },
        }
    }
}

impl Roslyn {
    /// Takes in what the caller found and says what to do next. Paths found
    /// before are trusted only once they are seen to be files; the installed
    /// path is remembered for later searches.
    pub fn advance(&mut self, res: &mut ServerResolution, event: ServerEvent) -> (r: ServerAction)
        ensures
            old(res).stage == ServerStage::Roslynls ==> match (old(res).release, event) {
                (Some(rel), ServerEvent::Release(e)) => {
                    let (st, a) = release_step(rel.target, rel.stage, e@);
                    &&& final(res).release matches Some(rel2) && rel2.target == rel.target
                        && rel2.stage == st
                    &&& final(self).cached_language_server_path == old(self).cached_language_server_path
                    &&& match a {
                        ReleaseActionView::Done(Ok(p)) => {
                            &&& final(res).roslynls_path@ == p
                            &&& final(self).cached_roslynls_path == Some(final(res).roslynls_path)
                            &&& *final(res) == (ServerResolution {
                                stage: final(res).stage,
                                candidate: final(res).candidate,
                                release: final(res).release,
                                roslynls_path: final(res).roslynls_path,
                                binary_args: final(res).binary_args,
                                ..*old(res)
                            })
                            &&& final(res).stage != ServerStage::Finished ==> final(res).binary_args == old(res).binary_args
                            &&& begins_search(
                                r,
                                ServerResolution {
                                    binary_args: old(res).binary_args,
                                    ..*final(res)
                                },
                                old(self).cached_language_server_path,
                            )
                        },
                        ReleaseActionView::Done(Err(m)) => (r matches ServerAction::Done(Err(x))
                            && x@ == m) && *final(self) == *old(self),
                        _ => (r matches ServerAction::Release(x) && x@ == a) && *final(self)
                            == *old(self) && *final(res) == (ServerResolution {
                            release: final(res).release,
                            ..*old(res)
                        }),
                    }
                },
                _ => r is Done,
            },
            old(res).stage == ServerStage::CheckingCached ==> match event {
                ServerEvent::IsFile(true) => finishes_with(r, *old(res), old(res).candidate@)
                    && *final(self) == *old(self),
                ServerEvent::IsFile(false) => (r matches ServerAction::Which(e) && e@
                    == executable_name(LANGUAGE_SERVER@, old(res).platform.os)) && final(res).stage
                    == ServerStage::Searching && *final(res) == (ServerResolution {
                    stage: final(res).stage,
                    ..*old(res)
                }) && *final(self) == *old(self),
                _ => r is Done,
            },
            old(res).stage == ServerStage::Searching ==> match event {
                ServerEvent::Found(Some(p)) => finishes_with(r, *old(res), p@) && *final(self)
                    == *old(self),
                ServerEvent::Found(None) => (r matches ServerAction::FetchVersions(u) && u@
                    == versions_url(old(res).platform)) && final(res).stage
                    == ServerStage::FetchingVersions && *final(res) == (ServerResolution {
                    stage: final(res).stage,
                    ..*old(res)
                }) && *final(self) == *old(self),
                _ => r is Done,
            },
            old(res).stage == ServerStage::FetchingVersions ==> *final(self) == *old(self)
                && match event {
                ServerEvent::Versions(Err(e)) => r matches ServerAction::Done(Err(m)) && m@
                    == "failed to fetch the versions of "@ + language_server_package_id(
                    old(res).platform,
                ) + " from "@ + versions_url(old(res).platform) + ": "@ + e@,
                ServerEvent::Versions(Ok(resp)) => match latest_in_packages(resp.value@) {
                    Some(v) => r == ServerAction::IsFile(final(res).candidate)
                        && final(res).candidate@ == installed_server_path(
                        old(res).current_dir@,
                        v,
                        old(res).platform,
                    ) && final(res).version@ == v && final(res).stage
                        == ServerStage::CheckingInstalled && *final(res) == (ServerResolution {
                        stage: final(res).stage,
                        candidate: final(res).candidate,
                        version: final(res).version,
                        ..*old(res)
                    }),
                    None => r matches ServerAction::Done(Err(m)) && m@
                        == "the package feed names no latest version of "@
                        + language_server_package_id(old(res).platform),
                },
                _ => r is Done,
            },
            old(res).stage == ServerStage::CheckingInstalled ==> match event {
                ServerEvent::IsFile(true) => finishes_with(r, *old(res), old(res).candidate@)
                    && final(self).cached_language_server_path == Some(old(res).candidate)
                    && final(self).cached_roslynls_path == old(self).cached_roslynls_path,
                ServerEvent::IsFile(false) => (r matches ServerAction::Feed(
                    FeedAction::Download(u, d, k),
                ) && u@ == download_url(old(res).platform, old(res).version@) && d@
                    == version_dir(language_server_package_id(old(res).platform), old(res).version@)
                    && k == DownloadedFileType::Zip) && final(res).stage == ServerStage::Installing
                    && (final(res).feed matches Some(f) && f.binary_path == old(res).candidate
                    && f.url@ == download_url(old(res).platform, old(res).version@)
                    && f.version_dir@ == version_dir(
                    language_server_package_id(old(res).platform),
                    old(res).version@,
                ) && f.stage == FeedStage::Downloading
                    && f.wf()) && *final(res) == (ServerResolution {
                    stage: final(res).stage,
                    feed: final(res).feed,
                    ..*old(res)
                }) && *final(self) == *old(self),
                _ => r is Done,
            },
            old(res).stage == ServerStage::Installing ==> match (old(res).feed, event) {
                (Some(f), ServerEvent::Feed(e)) => exists|g: PackageFeed, a: FeedAction|
                    #[trigger] feed_step_post(f, g, e, a) && final(res).feed == Some(g) && match a {
                        FeedAction::Done(Ok(_)) => finishes_with(r, *old(res), f.binary_path@)
                            && final(self).cached_language_server_path == Some(f.binary_path)
                            && final(self).cached_roslynls_path == old(self).cached_roslynls_path,
                        FeedAction::Done(Err(m)) => r == ServerAction::Done(Err(m))
                            && final(res).stage == ServerStage::Finished && *final(self) == *old(self),
                        _ => r == ServerAction::Feed(a) && *final(res) == (ServerResolution {
                            feed: final(res).feed,
                            ..*old(res)
                        }) && *final(self) == *old(self),
                    },
                _ => r is Done,
            },
            old(res).stage == ServerStage::Finished ==> r is Done,
    {
        match (res.stage, event) {
            (ServerStage::Roslynls, ServerEvent::Release(e)) => {
                let mut release = match res.release.take() {
                    Some(rel) => rel,
                    None => {
                        res.stage = ServerStage::Finished;
                        return ServerAction::Done(Err(owned("roslynls resolution has not started")));
                    },
                };
                let a = release.step(e);
                res.release = Some(release);
                match a {
                    ReleaseAction::Done(Ok(p)) => {
                        self.cached_roslynls_path = Some(p.clone());
                        res.roslynls_path = p;
                        self.begin_search(res)
                    },
                    ReleaseAction::Done(Err(m)) => {
                        res.stage = ServerStage::Finished;
                        ServerAction::Done(Err(m))
                    },
                    other => ServerAction::Release(other),
                }
            },
            (ServerStage::CheckingCached, ServerEvent::IsFile(true)) => {
                let c = res.candidate.clone();
                Self::finish(res, c)
            },
            (ServerStage::CheckingCached, ServerEvent::IsFile(false)) => Self::search_path(res),
            (ServerStage::Searching, ServerEvent::Found(Some(p))) => Self::finish(res, p),
            (ServerStage::Searching, ServerEvent::Found(None)) => {
                res.stage = ServerStage::FetchingVersions;
                ServerAction::FetchVersions(Self::language_server_versions_url(res.platform))
            },
            (ServerStage::FetchingVersions, ServerEvent::Versions(Err(e))) => {
                res.stage = ServerStage::Finished;
                let id = Self::get_langauge_server_package_id(res.platform);
                let url = Self::language_server_versions_url(res.platform);
                let m = concat("failed to fetch the versions of ", id.as_str());
                let m = concat(m.as_str(), " from ");
                let m = concat(m.as_str(), url.as_str());
                let m = concat(m.as_str(), ": ");
                ServerAction::Done(Err(concat(m.as_str(), e.as_str())))
            },
            (ServerStage::FetchingVersions, ServerEvent::Versions(Ok(resp))) => {
                match resp.latest_version() {
                    Some(v) => {
                        res.candidate = Self::get_langauge_server_binary_path(
                            res.current_dir.as_str(),
                            v.as_str(),
                            res.platform,
                        );
                        res.version = v;
                        res.stage = ServerStage::CheckingInstalled;
                        ServerAction::IsFile(res.candidate.clone())
                    },
                    None => {
                        res.stage = ServerStage::Finished;
                        let id = Self::get_langauge_server_package_id(res.platform);
                        ServerAction::Done(
                            Err(concat("the package feed names no latest version of ", id.as_str())),
                        )
                    },
                }
            },
            (ServerStage::CheckingInstalled, ServerEvent::IsFile(true)) => {
                self.cached_language_server_path = Some(res.candidate.clone());
                let c = res.candidate.clone();
                Self::finish(res, c)
            },
            (ServerStage::CheckingInstalled, ServerEvent::IsFile(false)) => {
                let url = Self::language_server_download_url(res.platform, res.version.as_str());
                let dir = get_version_dir(
                    Self::get_langauge_server_package_id(res.platform),
                    res.version.clone(),
                );
                let (feed, a) = PackageFeed::new(url, dir, res.candidate.clone());
                res.feed = Some(feed);
                res.stage = ServerStage::Installing;
                ServerAction::Feed(a)
            },
            (ServerStage::Installing, ServerEvent::Feed(e)) => {
                let mut feed = match res.feed.take() {
                    Some(f) => f,
                    None => {
                        res.stage = ServerStage::Finished;
                        return ServerAction::Done(Err(owned("installation has not started")));
                    },
                };
                let ghost before = feed;
                let ghost ge = e;
                let a = feed.step(e);
                let ghost ga = a;
                let ghost after = feed;
                let path = feed.binary_path.clone();
                res.feed = Some(feed);
                assert(feed_step_post(before, after, ge, ga));
                match a {
                    FeedAction::Done(Ok(_)) => {
                        self.cached_language_server_path = Some(path.clone());
                        Self::finish(res, path)
                    },
                    FeedAction::Done(Err(m)) => {
                        res.stage = ServerStage::Finished;
                        ServerAction::Done(Err(m))
                    },
                    other => ServerAction::Feed(other),
                }
            },
            _ => {
                res.stage = ServerStage::Finished;
                ServerAction::Done(Err(owned("unexpected event while looking for the language server")))
            },
        }
    }
}

} // verus!
