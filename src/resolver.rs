//! Finding, installing and caching the language-server binary.
//!
//! Resolution alternates outside work (a PATH lookup, file checks, the
//! package registry, the package manager, directory cleanup) with decisions.
//! The decisions live here, as a step from the resolver's cache, the stage
//! reached and the event that the host observed, to the next stage and the
//! action the host performs next.

use vstd::prelude::*;
use vstd::string::*;

verus! {

/// Progress reported to the editor while the server is being installed.
#[derive(Clone, Copy, Debug, PartialEq, Eq, Structural)]
pub enum InstallStatus {
    CheckingForUpdate,
    Downloading,
}

/// Why a resolution failed.
#[derive(Debug)]
pub enum ResolveError {
    /// The registry could not say which version is the latest; its message.
    Registry(String),
    /// The package manager failed to install; its message.
    Install(String),
}

pub enum ResolveErrorModel {
    Registry(Seq<char>),
    Install(Seq<char>),
}

impl View for ResolveError {
    type V = ResolveErrorModel;

    open spec fn view(&self) -> ResolveErrorModel {
        match self {
            ResolveError::Registry(m) => ResolveErrorModel::Registry(m@),
            ResolveError::Install(m) => ResolveErrorModel::Install(m@),
        }
    }
}

pub open spec fn install_failure_prefix() -> Seq<char> {
    "Failed to install @likec4/language-server: "@
}

pub open spec fn error_message(e: ResolveErrorModel) -> Seq<char> {
    match e {
        ResolveErrorModel::Registry(m) => m,
        ResolveErrorModel::Install(m) => install_failure_prefix() + m,
    }
}

impl ResolveError {
    /// The text shown to the user: a registry error as it came, an install
    /// error after a sentence naming the package.
    pub fn message(&self) -> (r: String)
        ensures
            r@ == error_message(self@),
    {
        match self {
            ResolveError::Registry(m) => m.clone(),
            ResolveError::Install(m) => {
                let mut s = String::new();
                s.append("Failed to install @likec4/language-server: ");
                s.append(m.as_str());
                s
            },
        }
    }
}

/// Name of the server executable looked up on the PATH.
pub open spec fn server_binary_name() -> Seq<char> {
    "likec4-language-server"@
}

/// Name of the server's package in the registry.
pub open spec fn package_name() -> Seq<char> {
    "@likec4/language-server"@
}

/// Every install directory's name starts with this.
pub open spec fn dir_prefix() -> Seq<char> {
    "likec4-lsp-"@
}

/// The directory that version `v` is installed into.
pub open spec fn package_dir_of(v: Seq<char>) -> Seq<char> {
    dir_prefix() + v
}

/// Where the executable of version `v` lies once installed.
pub open spec fn binary_path_of(v: Seq<char>) -> Seq<char> {
    package_dir_of(v) + "/node_modules/.bin/likec4-language-server"@
}

/// A directory left by another install, removed after a fresh install
/// into `keep`.
pub open spec fn is_stale(name: Seq<char>, keep: Seq<char>) -> bool {
    dir_prefix().is_prefix_of(name) && name != keep
}

pub open spec fn stale_of(names: Seq<Seq<char>>, keep: Seq<char>) -> Seq<Seq<char>> {
    names.filter(|n: Seq<char>| is_stale(n, keep))
}

fn server_binary_name_string() -> (r: String)
    ensures
        r@ == server_binary_name(),
{
    let mut s = String::new();
    s.append("likec4-language-server");
    s
}

fn package_name_string() -> (r: String)
    ensures
        r@ == package_name(),
{
    let mut s = String::new();
    s.append("@likec4/language-server");
    s
}

/// The directory that `version` is installed into: `likec4-lsp-<version>`.
pub fn package_dir(version: &String) -> (r: String)
    ensures
        r@ == package_dir_of(version@),
{
    let mut s = String::new();
    s.append("likec4-lsp-");
    s.append(version.as_str());
    s
}

/// The executable of `version` inside its install directory.
pub fn binary_path(version: &String) -> (r: String)
    ensures
        r@ == binary_path_of(version@),
{
    let mut s = package_dir(version);
    s.append("/node_modules/.bin/likec4-language-server");
    s
}

/// Whether `prefix` begins `s`.
fn has_prefix(s: &str, prefix: &str) -> (r: bool)
    ensures
        r == prefix@.is_prefix_of(s@),
{
    let n = prefix.unicode_len();
    if n > s.unicode_len() {
        return false;
    }
    let mut i: usize = 0;
    while i < n
        invariant
            n == prefix@.len(),
            n <= s@.len(),
            i <= n,
            forall|j: int| 0 <= j < i ==> prefix@[j] == s@[j],
        decreases n - i,
    {
        if prefix.get_char(i) != s.get_char(i) {
            assert(prefix@[i as int] != s@.subrange(0, n as int)[i as int]);
            return false;
        }
        i += 1;
    }
    assert(prefix@ =~= s@.subrange(0, n as int));
    true
}

/// Among the directory names `names`, those of other installs than `keep`,
/// in their order.
pub fn stale_directories(names: &Vec<String>, keep: &String) -> (r: Vec<String>)
    ensures
        r.deep_view() == stale_of(names.deep_view(), keep@),
{
    let mut r: Vec<String> = Vec::new();
    let mut i: usize = 0;
    while i < names.len()
        invariant
            i <= names.len(),
            r.deep_view() == stale_of(names.deep_view().subrange(0, i as int), keep@),
        decreases names.len() - i,
    {
        let name = &names[i];
        let ghost prev = names.deep_view().subrange(0, i as int);
        let ghost next = names.deep_view().subrange(0, i + 1);
        proof {
            reveal(Seq::filter);
            assert(next.drop_last() =~= prev);
            assert(next.last() == name@);
        }
        let stale = has_prefix(name.as_str(), "likec4-lsp-") && *name != *keep;
        if stale {
            let ghost before = r.deep_view();
            r.push(name.clone());
            assert(r.deep_view() =~= before.push(name@));
        }
        assert(r.deep_view() == stale_of(next, keep@));
        i += 1;
    }
    assert(names.deep_view().subrange(0, names.len() as int) =~= names.deep_view());
    r
}

/// How far a resolution has got.
#[derive(Debug)]
pub enum Stage {
    /// Nothing done yet.
    Start,
    /// The PATH is being searched for the server executable.
    AwaitPathLookup,
    /// The cached path is being checked for a regular file.
    AwaitCachedStat { path: String },
    /// The registry is being asked for the latest version.
    AwaitVersion,
    /// The executable of `version` is being looked for on disk.
    AwaitBinaryStat { version: String },
    /// `version` is to be installed; "checking for update" is being reported.
    AwaitCheckingNotice { version: String },
    /// "Downloading" is being reported.
    AwaitDownloadingNotice { version: String },
    /// The package manager is installing `version`.
    AwaitInstall { version: String },
    /// The current directory is being listed for cleanup.
    AwaitListing { version: String },
    /// Directories of other installs are being removed.
    AwaitRemoval { version: String },
    /// The resolution has ended.
    Done,
}

pub enum StageModel {
    Start,
    AwaitPathLookup,
    AwaitCachedStat(Seq<char>),
    AwaitVersion,
    AwaitBinaryStat(Seq<char>),
    AwaitCheckingNotice(Seq<char>),
    AwaitDownloadingNotice(Seq<char>),
    AwaitInstall(Seq<char>),
    AwaitListing(Seq<char>),
    AwaitRemoval(Seq<char>),
    Done,
}

impl View for Stage {
    type V = StageModel;

    open spec fn view(&self) -> StageModel {
        match self {
            Stage::Start => StageModel::Start,
            Stage::AwaitPathLookup => StageModel::AwaitPathLookup,
            Stage::AwaitCachedStat { path } => StageModel::AwaitCachedStat(path@),
            Stage::AwaitVersion => StageModel::AwaitVersion,
            Stage::AwaitBinaryStat { version } => StageModel::AwaitBinaryStat(version@),
            Stage::AwaitCheckingNotice { version } => StageModel::AwaitCheckingNotice(version@),
            Stage::AwaitDownloadingNotice { version } => StageModel::AwaitDownloadingNotice(version@),
            Stage::AwaitInstall { version } => StageModel::AwaitInstall(version@),
            Stage::AwaitListing { version } => StageModel::AwaitListing(version@),
            Stage::AwaitRemoval { version } => StageModel::AwaitRemoval(version@),
            Stage::Done => StageModel::Done,
        }
    }
}

/// What the host observed after performing the last action.
#[derive(Debug)]
pub enum Event {
    /// A resolution is requested.
    Begin,
    /// The PATH lookup's answer.
    PathLookup(Option<String>),
    /// Whether the path checked names an existing regular file; a failed
    /// check counts as `false`.
    IsFile(bool),
    /// A status was reported.
    Notified,
    /// The registry's answer: the latest version, or its error message.
    LatestVersion(Result<String, String>),
    /// The package manager's answer, or its error message.
    Installed(Result<(), String>),
    /// The names in the current directory, or `None` where it could not be read.
    DirectoryListing(Option<Vec<String>>),
    /// The removals were attempted; their failures are ignored.
    Removed,
}

pub enum EventModel {
    Begin,
    PathLookup(Option<Seq<char>>),
    IsFile(bool),
    Notified,
    LatestVersion(Result<Seq<char>, Seq<char>>),
    Installed(Result<(), Seq<char>>),
    DirectoryListing(Option<Seq<Seq<char>>>),
    Removed,
}

impl View for Event {
    type V = EventModel;

    open spec fn view(&self) -> EventModel {
        match self {
            Event::Begin => EventModel::Begin,
            Event::PathLookup(p) => EventModel::PathLookup(
                match p {
                    Some(p) => Some(p@),
                    None => None,
                },
            ),
            Event::IsFile(b) => EventModel::IsFile(*b),
            Event::Notified => EventModel::Notified,
            Event::LatestVersion(r) => EventModel::LatestVersion(
                match r {
                    Ok(v) => Ok(v@),
                    Err(e) => Err(e@),
                },
            ),
            Event::Installed(r) => EventModel::Installed(
                match r {
                    Ok(()) => Ok(()),
                    Err(e) => Err(e@),
                },
            ),
            Event::DirectoryListing(l) => EventModel::DirectoryListing(
                match l {
                    Some(names) => Some(names.deep_view()),
                    None => None,
                },
            ),
            Event::Removed => EventModel::Removed,
        }
    }
}

/// What the host is to do next.
#[derive(Debug)]
pub enum Action {
    /// Search the PATH for this executable name.
    FindInPath(String),
    /// Check whether this path names an existing regular file.
    CheckIsFile(String),
    /// Report this installation status.
    Notify(InstallStatus),
    /// Ask the registry for the latest version of this package.
    FetchLatestVersion(String),
    /// Install this version of this package into the current directory.
    Install { package: String, version: String },
    /// List the names in the current directory.
    ListDirectory,
    /// Remove these directories with all they hold, ignoring failures.
    RemoveDirectories(Vec<String>),
    /// The resolution ends with this path or error.
    Finish(Result<String, ResolveError>),
    /// The event does not belong to this stage; nothing is to be done.
    Ignore,
}

pub enum ActionModel {
    FindInPath(Seq<char>),
    CheckIsFile(Seq<char>),
    Notify(InstallStatus),
    FetchLatestVersion(Seq<char>),
    Install { package: Seq<char>, version: Seq<char> },
    ListDirectory,
    RemoveDirectories(Seq<Seq<char>>),
    Finish(Result<Seq<char>, ResolveErrorModel>),
    Ignore,
}

impl View for Action {
    type V = ActionModel;

    open spec fn view(&self) -> ActionModel {
        match self {
            Action::FindInPath(n) => ActionModel::FindInPath(n@),
            Action::CheckIsFile(p) => ActionModel::CheckIsFile(p@),
            Action::Notify(s) => ActionModel::Notify(*s),
            Action::FetchLatestVersion(p) => ActionModel::FetchLatestVersion(p@),
            Action::Install { package, version } => ActionModel::Install {
                package: package@,
                version: version@,
            },
            Action::ListDirectory => ActionModel::ListDirectory,
            Action::RemoveDirectories(d) => ActionModel::RemoveDirectories(d.deep_view()),
            Action::Finish(r) => ActionModel::Finish(
                match r {
                    Ok(p) => Ok(p@),
                    Err(e) => Err(e@),
                },
            ),
            Action::Ignore => ActionModel::Ignore,
        }
    }
}

/// One step of a resolution: from the cached path, the stage and the event,
/// to the new cached path, the next stage and the action.
///
/// The PATH wins over the cache, and the cache over the registry. A path is
/// cached only once it is known to name a file. Errors end the resolution
/// and leave the cache as it was.
pub open spec fn step(
    cache: Option<Seq<char>>,
    stage: StageModel,
    event: EventModel,
) -> (Option<Seq<char>>, StageModel, ActionModel) {
    let ignored = (cache, stage, ActionModel::Ignore);
    match stage {
        StageModel::Start => match event {
            EventModel::Begin => (
                cache,
                StageModel::AwaitPathLookup,
                ActionModel::FindInPath(server_binary_name()),
            ),
            _ => ignored,
        },
        StageModel::AwaitPathLookup => match event {
            EventModel::PathLookup(Some(p)) => (cache, StageModel::Done, ActionModel::Finish(Ok(p))),
            EventModel::PathLookup(None) => match cache {
                Some(c) => (cache, StageModel::AwaitCachedStat(c), ActionModel::CheckIsFile(c)),
                None => (
                    cache,
                    StageModel::AwaitVersion,
                    ActionModel::FetchLatestVersion(package_name()),
                ),
            },
            _ => ignored,
        },
        StageModel::AwaitCachedStat(c) => match event {
            EventModel::IsFile(true) => (cache, StageModel::Done, ActionModel::Finish(Ok(c))),
            EventModel::IsFile(false) => (
                cache,
                StageModel::AwaitVersion,
                ActionModel::FetchLatestVersion(package_name()),
            ),
            _ => ignored,
        },
        StageModel::AwaitVersion => match event {
            EventModel::LatestVersion(Ok(v)) => (
                cache,
                StageModel::AwaitBinaryStat(v),
                ActionModel::CheckIsFile(binary_path_of(v)),
            ),
            EventModel::LatestVersion(Err(e)) => (
                cache,
                StageModel::Done,
                ActionModel::Finish(Err(ResolveErrorModel::Registry(e))),
            ),
            _ => ignored,
        },
        StageModel::AwaitBinaryStat(v) => match event {
            EventModel::IsFile(true) => (
                Some(binary_path_of(v)),
                StageModel::Done,
                ActionModel::Finish(Ok(binary_path_of(v))),
            ),
            EventModel::IsFile(false) => (
                cache,
                StageModel::AwaitCheckingNotice(v),
                ActionModel::Notify(InstallStatus::CheckingForUpdate),
            ),
            _ => ignored,
        },
        StageModel::AwaitCheckingNotice(v) => match event {
            EventModel::Notified => (
                cache,
                StageModel::AwaitDownloadingNotice(v),
                ActionModel::Notify(InstallStatus::Downloading),
            ),
            _ => ignored,
        },
        StageModel::AwaitDownloadingNotice(v) => match event {
            EventModel::Notified => (
                cache,
                StageModel::AwaitInstall(v),
                ActionModel::Install { package: package_name(), version: v },
            ),
            _ => ignored,
        },
        StageModel::AwaitInstall(v) => match event {
            EventModel::Installed(Ok(())) => (
                cache,
                StageModel::AwaitListing(v),
                ActionModel::ListDirectory,
            ),
            EventModel::Installed(Err(e)) => (
                cache,
                StageModel::Done,
                ActionModel::Finish(Err(ResolveErrorModel::Install(e))),
            ),
            _ => ignored,
        },
        StageModel::AwaitListing(v) => match event {
            EventModel::DirectoryListing(Some(names)) => (
                cache,
                StageModel::AwaitRemoval(v),
                ActionModel::RemoveDirectories(stale_of(names, package_dir_of(v))),
            ),
            EventModel::DirectoryListing(None) => (
                Some(binary_path_of(v)),
                StageModel::Done,
                ActionModel::Finish(Ok(binary_path_of(v))),
            ),
            _ => ignored,
        },
        StageModel::AwaitRemoval(v) => match event {
            EventModel::Removed => (
                Some(binary_path_of(v)),
                StageModel::Done,
                ActionModel::Finish(Ok(binary_path_of(v))),
            ),
            _ => ignored,
        },
        StageModel::Done => ignored,
    }
}

/// The resolver: it remembers the last path it resolved by its own search.
#[derive(Debug)]
pub struct LikeC4Extension {
    cached_binary_path: Option<String>,
}

pub open spec fn path_view(p: Option<String>) -> Option<Seq<char>> {
    match p {
        Some(p) => Some(p@),
        None => None,
    }
}

impl LikeC4Extension {
    /// The path that the last resolution found by its own search, if any.
    pub closed spec fn cache(&self) -> Option<Seq<char>> {
        path_view(self.cached_binary_path)
    }

    /// The cached path.
    pub fn cached_binary_path(&self) -> (r: &Option<String>)
        ensures
            path_view(*r) == self.cache(),
    {
        &self.cached_binary_path
    }

    /// A resolver with nothing cached.
    pub fn new() -> (r: Self)
        ensures
            r.cache() is None,
    {
        LikeC4Extension { cached_binary_path: None }
    }

    /// Takes one step of a resolution, as [`step`] states it, updating the
    /// cached path.
    pub fn resume(&mut self, stage: Stage, event: Event) -> (r: (Stage, Action))
        ensures
            (final(self).cache(), r.0@, r.1@) == step(old(self).cache(), stage@, event@),
    {
        match (stage, event) {
            (Stage::Start, Event::Begin) => (
                Stage::AwaitPathLookup,
                Action::FindInPath(server_binary_name_string()),
            ),
            (Stage::AwaitPathLookup, Event::PathLookup(Some(p))) => (
                Stage::Done,
                Action::Finish(Ok(p)),
            ),
            (Stage::AwaitPathLookup, Event::PathLookup(None)) => match &self.cached_binary_path {
                Some(c) => (
                    Stage::AwaitCachedStat { path: c.clone() },
                    Action::CheckIsFile(c.clone()),
                ),
                None => (Stage::AwaitVersion, Action::FetchLatestVersion(package_name_string())),
            },
            (Stage::AwaitCachedStat { path }, Event::IsFile(true)) => (
                Stage::Done,
                Action::Finish(Ok(path)),
            ),
            (Stage::AwaitCachedStat { .. }, Event::IsFile(false)) => (
                Stage::AwaitVersion,
                Action::FetchLatestVersion(package_name_string()),
            ),
            (Stage::AwaitVersion, Event::LatestVersion(Ok(version))) => {
                let path = binary_path(&version);
                (Stage::AwaitBinaryStat { version }, Action::CheckIsFile(path))
            },
            (Stage::AwaitVersion, Event::LatestVersion(Err(e))) => (
                Stage::Done,
                Action::Finish(Err(ResolveError::Registry(e))),
            ),
            (Stage::AwaitBinaryStat { version }, Event::IsFile(true)) => {
                let path = binary_path(&version);
                self.cached_binary_path = Some(path.clone());
                (Stage::Done, Action::Finish(Ok(path)))
            },
            (Stage::AwaitBinaryStat { version }, Event::IsFile(false)) => (
                Stage::AwaitCheckingNotice { version },
                Action::Notify(InstallStatus::CheckingForUpdate),
            ),
            (Stage::AwaitCheckingNotice { version }, Event::Notified) => (
                Stage::AwaitDownloadingNotice { version },
                Action::Notify(InstallStatus::Downloading),
            ),
            (Stage::AwaitDownloadingNotice { version }, Event::Notified) => {
                let action = Action::Install { package: package_name_string(), version: version.clone() };
                (Stage::AwaitInstall { version }, action)
            },
            (Stage::AwaitInstall { version }, Event::Installed(Ok(()))) => (
                Stage::AwaitListing { version },
                Action::ListDirectory,
            ),
            (Stage::AwaitInstall { .. }, Event::Installed(Err(e))) => (
                Stage::Done,
                Action::Finish(Err(ResolveError::Install(e))),
            ),
            (Stage::AwaitListing { version }, Event::DirectoryListing(Some(names))) => {
                let stale = stale_directories(&names, &package_dir(&version));
                (Stage::AwaitRemoval { version }, Action::RemoveDirectories(stale))
            },
            (Stage::AwaitListing { version }, Event::DirectoryListing(None)) => {
                let path = binary_path(&version);
                self.cached_binary_path = Some(path.clone());
                (Stage::Done, Action::Finish(Ok(path)))
            },
            (Stage::AwaitRemoval { version }, Event::Removed) => {
                let path = binary_path(&version);
                self.cached_binary_path = Some(path.clone());
                (Stage::Done, Action::Finish(Ok(path)))
            },
            (stage, _) => (stage, Action::Ignore),
        }
    }
}

/// How the host starts the server: an executable, its arguments and extra
/// environment variables.
#[derive(Debug)]
pub struct LaunchCommand {
    pub command: String,
    pub args: Vec<String>,
    pub env: Vec<(String, String)>,
}

/// The command that starts the server at `binary_path`, speaking over its
/// standard input and output.
pub fn launch_command(binary_path: String) -> (r: LaunchCommand)
    ensures
        r.command@ == binary_path@,
        r.args.deep_view() == seq!["--stdio"@],
        r.env@.len() == 0,
{
    let mut flag = String::new();
    flag.append("--stdio");
    let mut args: Vec<String> = Vec::new();
    args.push(flag);
    assert(args.deep_view() =~= seq!["--stdio"@]);
    LaunchCommand { command: binary_path, args, env: Vec::new() }
}

/// The cache, stage and actions after feeding `events`, in order, to [`step`].
pub open spec fn run(cache: Option<Seq<char>>, stage: StageModel, events: Seq<EventModel>) -> (
    Option<Seq<char>>,
    StageModel,
    Seq<ActionModel>,
)
    decreases events.len(),
{
    if events.len() == 0 {
        (cache, stage, seq![])
    } else {
        let (c1, s1, a1) = step(cache, stage, events[0]);
        let (c2, s2, rest) = run(c1, s1, events.drop_first());
        (c2, s2, seq![a1] + rest)
    }
}

/// An action that reaches the package registry or the package manager.
pub open spec fn contacts_registry(a: ActionModel) -> bool {
    a is FetchLatestVersion || a is Install
}

/// Once a resolution has ended, nothing more happens in it.
pub proof fn lemma_done_is_final(cache: Option<Seq<char>>, events: Seq<EventModel>)
    ensures
        run(cache, StageModel::Done, events).0 == cache,
        run(cache, StageModel::Done, events).1 == StageModel::Done,
        run(cache, StageModel::Done, events).2.len() == events.len(),
        forall|i: int|
            0 <= i < events.len() ==> #[trigger] run(cache, StageModel::Done, events).2[i]
                == ActionModel::Ignore,
    decreases events.len(),
{
    if events.len() > 0 {
        lemma_done_is_final(cache, events.drop_first());
    }
}

/// When the PATH lookup finds the executable, that path is the result, the
/// cache is untouched, and neither the registry nor the package manager is
/// ever asked, whatever events follow.
pub proof fn lemma_path_hit_never_installs(
    cache: Option<Seq<char>>,
    p: Seq<char>,
    events: Seq<EventModel>,
)
    requires
        events.len() >= 2,
        events[0] == EventModel::Begin,
        events[1] == EventModel::PathLookup(Some(p)),
    ensures
        run(cache, StageModel::Start, events).2[1] == ActionModel::Finish(Ok(p)),
        run(cache, StageModel::Start, events).0 == cache,
        forall|i: int|
            0 <= i < events.len() ==> !contacts_registry(
                #[trigger] run(cache, StageModel::Start, events).2[i],
            ),
{
    let rest = events.drop_first().drop_first();
    lemma_done_is_final(cache, rest);
    reveal_with_fuel(run, 3);
    let acts = run(cache, StageModel::Start, events).2;
    assert(acts =~= seq![ActionModel::FindInPath(server_binary_name())] + (seq![
        ActionModel::Finish(Ok(p)),
    ] + run(cache, StageModel::Done, rest).2));
    assert forall|i: int| 0 <= i < events.len() implies !contacts_registry(#[trigger] acts[i]) by {
        if i >= 2 {
            assert(acts[i] == run(cache, StageModel::Done, rest).2[i - 2]);
        }
    }
}

/// The stage agrees with the cache: a cached path under check is the
/// cached one.
pub open spec fn coherent(cache: Option<Seq<char>>, stage: StageModel) -> bool {
    stage matches StageModel::AwaitCachedStat(c) ==> cache == Some(c)
}

/// Each step keeps the stage in agreement with the cache, so every stage
/// reached from [`StageModel::Start`] agrees with it.
pub proof fn lemma_step_keeps_coherent(
    cache: Option<Seq<char>>,
    stage: StageModel,
    event: EventModel,
)
    requires
        coherent(cache, stage),
    ensures
        coherent(step(cache, stage, event).0, step(cache, stage, event).1),
{
}

/// Every path that a step returns other than from the PATH lookup is the
/// one it leaves in the cache.
pub proof fn lemma_success_is_cached(
    cache: Option<Seq<char>>,
    stage: StageModel,
    event: EventModel,
    p: Seq<char>,
)
    requires
        coherent(cache, stage),
        stage != StageModel::AwaitPathLookup,
        step(cache, stage, event).2 == ActionModel::Finish(Ok(p)),
    ensures
        step(cache, stage, event).0 == Some(p),
{
}

/// With path `c` cached, not on the PATH and still a file, a resolution
/// returns `c` and neither the registry nor the package manager is asked.
pub proof fn lemma_cached_path_reused(c: Seq<char>, events: Seq<EventModel>)
    requires
        events.len() >= 3,
        events[0] == EventModel::Begin,
        events[1] == EventModel::PathLookup(None),
        events[2] == EventModel::IsFile(true),
    ensures
        run(Some(c), StageModel::Start, events).2[2] == ActionModel::Finish(Ok(c)),
        run(Some(c), StageModel::Start, events).0 == Some(c),
        forall|i: int|
            0 <= i < events.len() ==> !contacts_registry(
                #[trigger] run(Some(c), StageModel::Start, events).2[i],
            ),
{
    let rest = events.drop_first().drop_first().drop_first();
    lemma_done_is_final(Some(c), rest);
    reveal_with_fuel(run, 4);
    let acts = run(Some(c), StageModel::Start, events).2;
    assert(acts =~= seq![ActionModel::FindInPath(server_binary_name())] + (seq![
        ActionModel::CheckIsFile(c),
    ] + (seq![ActionModel::Finish(Ok(c))] + run(Some(c), StageModel::Done, rest).2)));
    assert forall|i: int| 0 <= i < events.len() implies !contacts_registry(#[trigger] acts[i]) by {
        if i >= 3 {
            assert(acts[i] == run(Some(c), StageModel::Done, rest).2[i - 3]);
        }
    }
}

/// Past the PATH lookup, a resolution that returns path `p` ends with `p`
/// cached.
pub proof fn lemma_run_caches_success(
    cache: Option<Seq<char>>,
    stage: StageModel,
    events: Seq<EventModel>,
    p: Seq<char>,
)
    requires
        coherent(cache, stage),
        stage != StageModel::Start,
        stage != StageModel::AwaitPathLookup,
        run(cache, stage, events).2.contains(ActionModel::Finish(Ok(p))),
    ensures
        run(cache, stage, events).0 == Some(p),
    decreases events.len(),
{
    let (c1, s1, a1) = step(cache, stage, events[0]);
    let rest = events.drop_first();
    let acts = run(cache, stage, events).2;
    assert(acts == seq![a1] + run(c1, s1, rest).2);
    if a1 == ActionModel::Finish(Ok(p)) {
        lemma_success_is_cached(cache, stage, events[0], p);
        lemma_done_is_final(c1, rest);
    } else {
        let k = choose|k: int| 0 <= k < acts.len() && acts[k] == ActionModel::Finish(Ok(p));
        assert(run(c1, s1, rest).2[k - 1] == ActionModel::Finish(Ok(p)));
        lemma_run_caches_success(c1, s1, rest, p);
    }
}

/// A resolution that, past the PATH lookup, returned `p` leaves `p` cached;
/// when a second resolution on the same resolver again misses the PATH and
/// `p` is still a file, it returns `p` without asking the registry or the
/// package manager.
pub proof fn lemma_second_resolution_reuses_path(
    cache: Option<Seq<char>>,
    first: Seq<EventModel>,
    p: Seq<char>,
    second: Seq<EventModel>,
)
    requires
        first.len() >= 2,
        first[0] == EventModel::Begin,
        first[1] == EventModel::PathLookup(None),
        run(cache, StageModel::Start, first).2.contains(ActionModel::Finish(Ok(p))),
        second.len() >= 3,
        second[0] == EventModel::Begin,
        second[1] == EventModel::PathLookup(None),
        second[2] == EventModel::IsFile(true),
    ensures
        run(cache, StageModel::Start, first).0 == Some(p),
        run(Some(p), StageModel::Start, second).2[2] == ActionModel::Finish(Ok(p)),
        forall|i: int|
            0 <= i < second.len() ==> !contacts_registry(
                #[trigger] run(Some(p), StageModel::Start, second).2[i],
            ),
{
    reveal_with_fuel(run, 3);
    let (c1, s1, a1) = step(cache, StageModel::Start, first[0]);
    let (c2, s2, a2) = step(c1, s1, first[1]);
    let rest = first.drop_first().drop_first();
    let acts = run(cache, StageModel::Start, first).2;
    assert(acts == seq![a1] + (seq![a2] + run(c2, s2, rest).2));
    let k = choose|k: int| 0 <= k < acts.len() && acts[k] == ActionModel::Finish(Ok(p));
    assert(run(c2, s2, rest).2[k - 2] == ActionModel::Finish(Ok(p)));
    lemma_run_caches_success(c2, s2, rest, p);
    lemma_cached_path_reused(p, second);
}

/// When the cached path `c` is no longer a file, the resolution does not
/// return it but goes straight on to ask the registry, reporting no status.
pub proof fn lemma_stale_cache_falls_through(c: Seq<char>)
    ensures
        run(
            Some(c),
            StageModel::Start,
            seq![EventModel::Begin, EventModel::PathLookup(None), EventModel::IsFile(false)],
        ) == (
            Some(c),
            StageModel::AwaitVersion,
            seq![
                ActionModel::FindInPath(server_binary_name()),
                ActionModel::CheckIsFile(c),
                ActionModel::FetchLatestVersion(package_name()),
            ],
        ),
{
    let events = seq![EventModel::Begin, EventModel::PathLookup(None), EventModel::IsFile(false)];
    reveal_with_fuel(run, 4);
    assert(events.drop_first() =~= seq![EventModel::PathLookup(None), EventModel::IsFile(false)]);
    assert(events.drop_first().drop_first() =~= seq![EventModel::IsFile(false)]);
    assert(events.drop_first().drop_first().drop_first() =~= Seq::<EventModel>::empty());
    assert(run(Some(c), StageModel::Start, events).2 =~= seq![
        ActionModel::FindInPath(server_binary_name()),
        ActionModel::CheckIsFile(c),
        ActionModel::FetchLatestVersion(package_name()),
    ]);
}

/// An installation status is reported only once the latest version is known
/// not to be installed: "checking for update" on finding its executable
/// missing, then "downloading".
pub proof fn lemma_status_only_when_installing(
    cache: Option<Seq<char>>,
    stage: StageModel,
    event: EventModel,
    status: InstallStatus,
)
    requires
        step(cache, stage, event).2 == ActionModel::Notify(status),
    ensures
        status == InstallStatus::CheckingForUpdate ==> stage is AwaitBinaryStat && event
            == EventModel::IsFile(false),
        status == InstallStatus::Downloading ==> stage is AwaitCheckingNotice && event
            == EventModel::Notified,
{
}

/// With nothing cached and the latest version `v` already installed, the
/// resolution returns and caches its executable without installing and
/// without reporting any status.
pub proof fn lemma_installed_version_reused(v: Seq<char>)
    ensures
        run(
            None,
            StageModel::Start,
            seq![
                EventModel::Begin,
                EventModel::PathLookup(None),
                EventModel::LatestVersion(Ok(v)),
                EventModel::IsFile(true),
            ],
        ) == (
            Some(binary_path_of(v)),
            StageModel::Done,
            seq![
                ActionModel::FindInPath(server_binary_name()),
                ActionModel::FetchLatestVersion(package_name()),
                ActionModel::CheckIsFile(binary_path_of(v)),
                ActionModel::Finish(Ok(binary_path_of(v))),
            ],
        ),
{
    let events = seq![
        EventModel::Begin,
        EventModel::PathLookup(None),
        EventModel::LatestVersion(Ok(v)),
        EventModel::IsFile(true),
    ];
    reveal_with_fuel(run, 5);
    assert(events.drop_first() =~= seq![
        EventModel::PathLookup(None),
        EventModel::LatestVersion(Ok(v)),
        EventModel::IsFile(true),
    ]);
    assert(events.drop_first().drop_first() =~= seq![
        EventModel::LatestVersion(Ok(v)),
        EventModel::IsFile(true),
    ]);
    assert(events.drop_first().drop_first().drop_first() =~= seq![EventModel::IsFile(true)]);
    assert(events.drop_first().drop_first().drop_first().drop_first() =~= Seq::<EventModel>::empty());
    assert(run(None, StageModel::Start, events).2 =~= seq![
        ActionModel::FindInPath(server_binary_name()),
        ActionModel::FetchLatestVersion(package_name()),
        ActionModel::CheckIsFile(binary_path_of(v)),
        ActionModel::Finish(Ok(binary_path_of(v))),
    ]);
}

/// After a fresh install of version `v`, the cleanup removes every other
/// install directory in the listing and never the new one, so of the
/// directories named with the install prefix only `likec4-lsp-<v>` remains.
pub proof fn lemma_cleanup_keeps_only_new(names: Seq<Seq<char>>, v: Seq<char>)
    ensures
        dir_prefix().is_prefix_of(package_dir_of(v)),
        !stale_of(names, package_dir_of(v)).contains(package_dir_of(v)),
        forall|n: Seq<char>|
            #![trigger names.contains(n)]
            names.contains(n) && dir_prefix().is_prefix_of(n) && !stale_of(
                names,
                package_dir_of(v),
            ).contains(n) ==> n == package_dir_of(v),
        forall|n: Seq<char>|
            #![trigger stale_of(names, package_dir_of(v)).contains(n)]
            stale_of(names, package_dir_of(v)).contains(n) ==> names.contains(n) && n
                != package_dir_of(v),
{
    broadcast use vstd::seq_lib::group_filter_ensures;

    let keep = package_dir_of(v);
    let pred = |n: Seq<char>| is_stale(n, keep);
    assert(dir_prefix().is_prefix_of(keep)) by {
        assert(keep.subrange(0, dir_prefix().len() as int) =~= dir_prefix());
    }
    assert forall|n: Seq<char>|
        names.contains(n) && dir_prefix().is_prefix_of(n) && !stale_of(names, keep).contains(
            n,
        ) implies n == keep by {
        let i = choose|i: int| 0 <= i < names.len() && names[i] == n;
        if n != keep {
            names.lemma_filter_contains(pred, i);
        }
    }
    assert forall|n: Seq<char>| stale_of(names, keep).contains(n) implies names.contains(n) && n
        != keep by {
        names.lemma_filter_contains_rev(pred, n);
        let i = choose|i: int| 0 <= i < names.filter(pred).len() && names.filter(pred)[i] == n;
        names.lemma_filter_pred(pred, i);
    }
}

} // verus!
