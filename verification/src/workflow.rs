//! The installer workflow as an explicit state machine. The library
//! decides every step; the caller performs the requested [`Action`]
//! (a prompt, an existence check, a download, an unpack, a copy, a
//! file edit) and reports what happened as an [`Event`]. The run is
//! strictly linear: Locate -> Resolve -> Fetch -> Unpack -> Place ->
//! Patch -> Cleanup, and every stage's failure ends it.

use vstd::prelude::*;

use crate::manifest::DownloadSpec;
use crate::manifest::cache_file_name;
use crate::manifest::dependency_manifest;
use crate::manifest::dxvk_archive_name;
use crate::manifest::dxvk_unpacked_dir;
use crate::manifest::is_dependency_manifest;
use crate::manifest::is_required_config_lines;
use crate::manifest::moltenvk_archive_name;
use crate::manifest::required_config_lines;
use crate::manifest::settings_file_name;
use crate::pathstr::join_path;
use crate::pathstr::joined;
use crate::resolver::Client;
use crate::resolver::cache_dir;
use crate::resolver::default_host_root;
use crate::resolver::game_exe_name;
use crate::resolver::inner_host_path;
use crate::resolver::installation_path;
use crate::resolver::named_bottle_path;
use crate::resolver::path_flag;
use crate::resolver::path_flag_value;
use crate::resolver::resolve_bottle;
use crate::resolver::spec_cache_dir;
use crate::resolver::spec_installation_path;
use crate::text::is_first_space;
use crate::text::no_space;
use crate::text::starts_with;
use crate::text::trimmed;

verus! {

/// Fixed per-user directories, resolved once by the caller.
pub struct Dirs {
    /// The user's home directory.
    pub home: String,
    /// The user's downloads directory, which holds the scratch directory.
    pub downloads: String,
    /// The user's documents directory, which receives the settings file.
    pub documents: String,
}

/// Everything resolved by the time downloads begin.
pub struct Ctx {
    /// Host application root.
    pub host: String,
    /// Environment ("bottle") directory.
    pub bottle: String,
    /// Selected distribution platform.
    pub client: Client,
    /// The game's installation directory.
    pub install: String,
    /// Scratch directory the assets are staged in.
    pub scratch: String,
}

/// Why a run stopped cleanly before any work was attempted.
#[derive(Clone, Copy, Debug, PartialEq, Eq, Structural)]
pub enum StopReason {
    HostNotFound,
    BottleNotFound,
    NoClientSelected,
    InstallationNotFound,
}

/// Why a run aborted; the carried text names the failing path or
/// operation as the caller reported it.
#[derive(Debug, PartialEq, Eq)]
pub enum Failure {
    /// The environment input used the path flag but named no path.
    PathArgumentMissing,
    /// Creating the scratch directory or downloading an asset failed.
    DownloadFailed(String),
    /// Opening or unpacking an archive failed.
    UnpackFailed(String),
    /// A copy of the placement stage failed.
    CopyFailed(String),
    /// Removing the scratch directory failed.
    CleanupFailed(String),
    /// Creating the generated translation-config file failed.
    ConfigWriteFailed(String),
}

/// How a finished run ended.
#[derive(Debug, PartialEq, Eq)]
pub enum Outcome {
    /// Every stage completed.
    Success,
    /// A clean early stop: reported, but not an error.
    Stopped(StopReason),
    /// A hard abort: the process exits with an error status.
    Failed(Failure),
}

/// The stages of a run. States that await the result of filesystem or
/// network work carry the resolved context.
pub enum State {
    /// Checking that the well-known host root holds the host application.
    CheckingDefaultHost,
    /// The default host root was missing; awaiting an alternate root.
    AwaitingOverrideLine,
    /// Checking the user-supplied host root.
    CheckingOverrideHost { host: String },
    /// Awaiting the environment name or `--path` input.
    AwaitingBottleLine { host: String },
    /// Checking that the environment directory exists.
    CheckingBottle { host: String, bottle: String },
    /// Awaiting the distribution-platform menu choice.
    AwaitingClientChoice { host: String, bottle: String },
    /// Checking that the game executable exists in the installation.
    CheckingExecutable { host: String, bottle: String, client: Client, install: String },
    /// Fetching the dependency manifest into the scratch directory.
    Downloading(Ctx),
    /// Unpacking the plain tar archive.
    UnpackingArchive(Ctx),
    /// Unpacking the gzip-compressed tar archive.
    UnpackingCompressed(Ctx),
    /// Running the placement copy plan.
    Copying(Ctx),
    /// Patching the environment's configuration file.
    Patching(Ctx),
    /// Removing the scratch directory.
    RemovingScratch(Ctx),
    /// Writing the generated translation-config file.
    WritingTranslationConf(Ctx),
    /// The run is over; no further action is requested.
    Finished(Outcome),
}

/// What the caller reports back after performing an action.
pub enum Event {
    /// Answer to a `CheckPath` action: does the path exist?
    Exists(bool),
    /// Answer to a prompt for a line of input.
    Line(String),
    /// Answer to the platform menu: the chosen entry, if any.
    Choice(Option<usize>),
    /// The requested work completed.
    Completed,
    /// The requested work failed; the text names the failing path or
    /// operation.
    Failed(String),
}

/// One element of the placement stage's fixed copy plan.
pub enum CopyStep {
    /// Copy every file directly inside `src_dir` into `dst_dir`,
    /// keeping each file's name. Not recursive.
    DirContents { src_dir: String, dst_dir: String },
    /// Copy the file `src` to `dst_dir` under `dst_name`; when
    /// `create_dst` is set, create `dst_dir` (and its parents) first.
    FileInto { src: String, dst_dir: String, dst_name: String, create_dst: bool },
}

/// What the caller must do next.
pub enum Action {
    /// Report whether this path exists.
    CheckPath(String),
    /// Prompt for an alternate host application root.
    PromptHostOverride,
    /// Prompt for the environment name or `--path` input.
    PromptBottle,
    /// Prompt for the distribution platform.
    PromptClient,
    /// Create `scratch` if missing, then download every file of the
    /// manifest into it as one batch.
    Download { scratch: String, files: Vec<DownloadSpec> },
    /// Unpack `archive` into `dest`, through a gzip filter when `gzip`.
    Unpack { archive: String, gzip: bool, dest: String },
    /// Run the placement copy plan, in order.
    RunCopies(Vec<CopyStep>),
    /// Patch the configuration file at `config`: append each of `lines`
    /// that the current text lacks. A missing file is only warned about,
    /// and the work always counts as completed.
    PatchConfig { config: String, lines: Vec<String> },
    /// Recursively remove this directory.
    RemoveDir(String),
    /// Create or truncate the file at `path` and write `line` to it.
    /// A failure to write the line once the file is open is only warned
    /// about; only a failure to open the file fails this action.
    WriteLineFile { path: String, line: String },
    /// The run is over: report the outcome carried by the state.
    Report,
}

/// Name of the scratch directory, under the downloads directory.
pub open spec fn scratch_dir_name() -> Seq<char> {
    "overwatch_dependencies"@
}

/// Name of the environment's configuration file, inside the environment.
pub open spec fn bottle_config_name() -> Seq<char> {
    "cxbottle.conf"@
}

/// Name of the generated translation-config file, inside the installation.
pub open spec fn translation_conf_name() -> Seq<char> {
    "dxvk.conf"@
}

/// The one line the generated translation-config file holds.
pub open spec fn translation_conf_line() -> Seq<char> {
    "dxvk.hud = compiler"@
}

/// `v` is the placement stage's fixed copy plan for the given
/// destinations: the 32-bit translation libraries into the host, the
/// 64-bit ones into the host and the environment's system directory,
/// the platform-abstraction library into the host, the shader cache
/// into its per-platform directory, and the settings file into the
/// user's documents.
pub open spec fn is_copy_plan(
    v: Seq<CopyStep>,
    host: Seq<char>,
    bottle: Seq<char>,
    client: Client,
    scratch: Seq<char>,
    documents: Seq<char>,
) -> bool {
    let unpacked = joined(scratch, dxvk_unpacked_dir());
    &&& v.len() == 6
    &&& v[0] matches CopyStep::DirContents { src_dir, dst_dir }
        && src_dir@ == joined(unpacked, "x32"@)
        && dst_dir@ == joined(host, "lib/wine/dxvk"@)
    &&& v[1] matches CopyStep::DirContents { src_dir, dst_dir }
        && src_dir@ == joined(unpacked, "x64"@)
        && dst_dir@ == joined(host, "lib64/wine/dxvk"@)
    &&& v[2] matches CopyStep::DirContents { src_dir, dst_dir }
        && src_dir@ == joined(unpacked, "x64"@)
        && dst_dir@ == joined(bottle, "drive_c/windows/system32"@)
    &&& v[3] matches CopyStep::FileInto { src, dst_dir, dst_name, create_dst }
        && src@ == joined(scratch, "MoltenVK/MoltenVK/dylib/macOS/libMoltenVK.dylib"@)
        && dst_dir@ == joined(host, "lib64"@)
        && dst_name@ == "libMoltenVK.dylib"@
        && !create_dst
    &&& v[4] matches CopyStep::FileInto { src, dst_dir, dst_name, create_dst }
        && src@ == joined(scratch, cache_file_name())
        && dst_dir@ == spec_cache_dir(bottle, client)
        && dst_name@ == cache_file_name()
        && create_dst
    &&& v[5] matches CopyStep::FileInto { src, dst_dir, dst_name, create_dst }
        && src@ == joined(scratch, settings_file_name())
        && dst_dir@ == joined(documents, "Overwatch/Settings"@)
        && dst_name@ == settings_file_name()
        && create_dst
}

/// Builds the placement stage's copy plan for the given destinations.
pub fn build_copy_plan(
    host: &str,
    bottle: &str,
    client: Client,
    scratch: &str,
    documents: &str,
) -> (r: Vec<CopyStep>)
    ensures
        is_copy_plan(r@, host@, bottle@, client, scratch@, documents@),
{
    let unpacked = join_path(scratch, "dxvk-macOS-async-v1.10.3-20230402-CrossOver");
    let mut v: Vec<CopyStep> = Vec::new();
    v.push(
        CopyStep::DirContents {
            src_dir: join_path(unpacked.as_str(), "x32"),
            dst_dir: join_path(host, "lib/wine/dxvk"),
        },
    );
    v.push(
        CopyStep::DirContents {
            src_dir: join_path(unpacked.as_str(), "x64"),
            dst_dir: join_path(host, "lib64/wine/dxvk"),
        },
    );
    v.push(
        CopyStep::DirContents {
            src_dir: join_path(unpacked.as_str(), "x64"),
            dst_dir: join_path(bottle, "drive_c/windows/system32"),
        },
    );
    v.push(
        CopyStep::FileInto {
            src: join_path(scratch, "MoltenVK/MoltenVK/dylib/macOS/libMoltenVK.dylib"),
            dst_dir: join_path(host, "lib64"),
            dst_name: "libMoltenVK.dylib".to_owned(),
            create_dst: false,
        },
    );
    v.push(
        CopyStep::FileInto {
            src: join_path(scratch, "Overwatch.dxvk-cache"),
            dst_dir: cache_dir(bottle, client),
            dst_name: "Overwatch.dxvk-cache".to_owned(),
            create_dst: true,
        },
    );
    v.push(
        CopyStep::FileInto {
            src: join_path(scratch, "Settings_v0.ini"),
            dst_dir: join_path(documents, "Overwatch/Settings"),
            dst_name: "Settings_v0.ini".to_owned(),
            create_dst: true,
        },
    );
    v
}

/// The kind of event each state awaits. A finished run awaits nothing.
pub open spec fn awaited(s: State, e: Event) -> bool {
    match s {
        State::CheckingDefaultHost => e is Exists,
        State::AwaitingOverrideLine => e is Line,
        State::CheckingOverrideHost { .. } => e is Exists,
        State::AwaitingBottleLine { .. } => e is Line,
        State::CheckingBottle { .. } => e is Exists,
        State::AwaitingClientChoice { .. } => e is Choice,
        State::CheckingExecutable { .. } => e is Exists,
        State::Downloading(_) => e is Completed || e is Failed,
        State::UnpackingArchive(_) => e is Completed || e is Failed,
        State::UnpackingCompressed(_) => e is Completed || e is Failed,
        State::Copying(_) => e is Completed || e is Failed,
        State::Patching(_) => e is Completed,
        State::RemovingScratch(_) => e is Completed || e is Failed,
        State::WritingTranslationConf(_) => e is Completed || e is Failed,
        State::Finished(_) => false,
    }
}

/// The transition relation of the workflow: what [`step`] returns for
/// each state and awaited event.
pub open spec fn next_ok(s: State, e: Event, dirs: &Dirs, r: (State, Action)) -> bool {
    match s {
        State::CheckingDefaultHost => match e {
            Event::Exists(true) => {
                &&& r.0 matches State::AwaitingBottleLine { host }
                &&& host@ == default_host_root()
                &&& r.1 is PromptBottle
            },
            Event::Exists(false) => r.0 is AwaitingOverrideLine && r.1 is PromptHostOverride,
            _ => false,
        },
        State::AwaitingOverrideLine => match e {
            Event::Line(l) => {
                &&& r.0 matches State::CheckingOverrideHost { host }
                &&& host@ == trimmed(l@)
                &&& r.1 matches Action::CheckPath(p)
                &&& p@ == joined(trimmed(l@), inner_host_path())
            },
            _ => false,
        },
        State::CheckingOverrideHost { host } => match e {
            Event::Exists(true) => r.0 == State::AwaitingBottleLine { host }
                && r.1 is PromptBottle,
            Event::Exists(false) => r.0 == State::Finished(
                Outcome::Stopped(StopReason::HostNotFound),
            ) && r.1 is Report,
            _ => false,
        },
        State::AwaitingBottleLine { host } => match e {
            Event::Line(l) => {
                let t = trimmed(l@);
                if starts_with(t, path_flag()) && no_space(t) {
                    r.0 == State::Finished(Outcome::Failed(Failure::PathArgumentMissing))
                        && r.1 is Report
                } else {
                    &&& r.0 matches State::CheckingBottle { host: h2, bottle }
                    &&& h2 == host
                    &&& if starts_with(t, path_flag()) {
                        exists|i: int| is_first_space(t, i) && bottle@ == path_flag_value(t, i)
                    } else {
                        bottle@ == named_bottle_path(dirs.home@, t)
                    }
                    &&& r.1 matches Action::CheckPath(p)
                    &&& p@ == bottle@
                }
            },
            _ => false,
        },
        State::CheckingBottle { host, bottle } => match e {
            Event::Exists(true) => r.0 == State::AwaitingClientChoice { host, bottle }
                && r.1 is PromptClient,
            Event::Exists(false) => r.0 == State::Finished(
                Outcome::Stopped(StopReason::BottleNotFound),
            ) && r.1 is Report,
            _ => false,
        },
        State::AwaitingClientChoice { host, bottle } => match e {
            Event::Choice(c) => {
                if c == Some(0usize) || c == Some(1usize) {
                    let client = if c == Some(0usize) {
                        Client::BattleNet
                    } else {
                        Client::Steam
                    };
                    &&& r.0 matches State::CheckingExecutable {
                        host: h2,
                        bottle: b2,
                        client: cl2,
                        install,
                    }
                    &&& h2 == host
                    &&& b2 == bottle
                    &&& cl2 == client
                    &&& install@ == spec_installation_path(bottle@, client)
                    &&& r.1 matches Action::CheckPath(p)
                    &&& p@ == joined(spec_installation_path(bottle@, client), game_exe_name())
                } else {
                    r.0 == State::Finished(Outcome::Stopped(StopReason::NoClientSelected))
                        && r.1 is Report
                }
            },
            _ => false,
        },
        State::CheckingExecutable { host, bottle, client, install } => match e {
            Event::Exists(true) => {
                &&& r.0 matches State::Downloading(c)
                &&& c.host == host
                &&& c.bottle == bottle
                &&& c.client == client
                &&& c.install == install
                &&& c.scratch@ == joined(dirs.downloads@, scratch_dir_name())
                &&& r.1 matches Action::Download { scratch, files }
                &&& scratch@ == c.scratch@
                &&& is_dependency_manifest(files@)
            },
            Event::Exists(false) => r.0 == State::Finished(
                Outcome::Stopped(StopReason::InstallationNotFound),
            ) && r.1 is Report,
            _ => false,
        },
        State::Downloading(c) => match e {
            Event::Completed => {
                &&& r.0 == State::UnpackingArchive(c)
                &&& r.1 matches Action::Unpack { archive, gzip, dest }
                &&& archive@ == joined(c.scratch@, moltenvk_archive_name())
                &&& !gzip
                &&& dest@ == c.scratch@
            },
            Event::Failed(d) => r.0 == State::Finished(
                Outcome::Failed(Failure::DownloadFailed(d)),
            ) && r.1 is Report,
            _ => false,
        },
        State::UnpackingArchive(c) => match e {
            Event::Completed => {
                &&& r.0 == State::UnpackingCompressed(c)
                &&& r.1 matches Action::Unpack { archive, gzip, dest }
                &&& archive@ == joined(c.scratch@, dxvk_archive_name())
                &&& gzip
                &&& dest@ == c.scratch@
            },
            Event::Failed(d) => r.0 == State::Finished(Outcome::Failed(Failure::UnpackFailed(d)))
                && r.1 is Report,
            _ => false,
        },
        State::UnpackingCompressed(c) => match e {
            Event::Completed => {
                &&& r.0 == State::Copying(c)
                &&& r.1 matches Action::RunCopies(steps)
                &&& is_copy_plan(
                    steps@,
                    c.host@,
                    c.bottle@,
                    c.client,
                    c.scratch@,
                    dirs.documents@,
                )
            },
            Event::Failed(d) => r.0 == State::Finished(Outcome::Failed(Failure::UnpackFailed(d)))
                && r.1 is Report,
            _ => false,
        },
        State::Copying(c) => match e {
            Event::Completed => {
                &&& r.0 == State::Patching(c)
                &&& r.1 matches Action::PatchConfig { config, lines }
                &&& config@ == joined(c.bottle@, bottle_config_name())
                &&& is_required_config_lines(lines.deep_view())
            },
            Event::Failed(d) => r.0 == State::Finished(Outcome::Failed(Failure::CopyFailed(d)))
                && r.1 is Report,
            _ => false,
        },
        State::Patching(c) => match e {
            Event::Completed => {
                &&& r.0 == State::RemovingScratch(c)
                &&& r.1 matches Action::RemoveDir(p)
                &&& p@ == c.scratch@
            },
            _ => false,
        },
        State::RemovingScratch(c) => match e {
            Event::Completed => {
                &&& r.0 == State::WritingTranslationConf(c)
                &&& r.1 matches Action::WriteLineFile { path, line }
                &&& path@ == joined(c.install@, translation_conf_name())
                &&& line@ == translation_conf_line()
            },
            Event::Failed(d) => r.0 == State::Finished(Outcome::Failed(Failure::CleanupFailed(d)))
                && r.1 is Report,
            _ => false,
        },
        State::WritingTranslationConf(_) => match e {
            Event::Completed => r.0 == State::Finished(Outcome::Success) && r.1 is Report,
            Event::Failed(d) => r.0 == State::Finished(
                Outcome::Failed(Failure::ConfigWriteFailed(d)),
            ) && r.1 is Report,
            _ => false,
        },
        State::Finished(_) => false,
    }
}

/// The first state of a run, and the first action: check that the
/// well-known host root holds the host application.
pub fn initial() -> (r: (State, Action))
    ensures
        r.0 is CheckingDefaultHost,
        r.1 matches Action::CheckPath(p) && p@ == joined(default_host_root(), inner_host_path()),
{
    (
        State::CheckingDefaultHost,
        Action::CheckPath(join_path("/Applications/CrossOver.app", "Contents/SharedSupport/CrossOver")),
    )
}

/// Advances the workflow by one step: consumes the state and the event
/// the caller reports, and returns the next state with the next action.
pub fn step(s: State, e: Event, dirs: &Dirs) -> (r: (State, Action))
    requires
        awaited(s, e),
    ensures
        next_ok(s, e, dirs, r),
{
    match s {
        State::CheckingDefaultHost => match e {
            Event::Exists(true) => (
                State::AwaitingBottleLine { host: "/Applications/CrossOver.app".to_owned() },
                Action::PromptBottle,
            ),
            Event::Exists(false) => (State::AwaitingOverrideLine, Action::PromptHostOverride),
            _ => {
                proof {
                    assert(false);
                }
                (State::Finished(Outcome::Success), Action::Report)
            },
        },
        State::AwaitingOverrideLine => match e {
            Event::Line(l) => {
                let t = crate::text::trim_str(l.as_str());
                let p = join_path(t.as_str(), "Contents/SharedSupport/CrossOver");
                (State::CheckingOverrideHost { host: t }, Action::CheckPath(p))
            },
            _ => {
                proof {
                    assert(false);
                }
                (State::Finished(Outcome::Success), Action::Report)
            },
        },
        State::CheckingOverrideHost { host } => match e {
            Event::Exists(true) => (State::AwaitingBottleLine { host }, Action::PromptBottle),
            Event::Exists(false) => (
                State::Finished(Outcome::Stopped(StopReason::HostNotFound)),
                Action::Report,
            ),
            _ => {
                proof {
                    assert(false);
                }
                (State::Finished(Outcome::Success), Action::Report)
            },
        },
        State::AwaitingBottleLine { host } => match e {
            Event::Line(l) => match resolve_bottle(dirs.home.as_str(), l.as_str()) {
                None => (
                    State::Finished(Outcome::Failed(Failure::PathArgumentMissing)),
                    Action::Report,
                ),
                Some(bottle) => {
                    let p = bottle.clone();
                    (State::CheckingBottle { host, bottle }, Action::CheckPath(p))
                },
            },
            _ => {
                proof {
                    assert(false);
                }
                (State::Finished(Outcome::Success), Action::Report)
            },
        },
        State::CheckingBottle { host, bottle } => match e {
            Event::Exists(true) => (
                State::AwaitingClientChoice { host, bottle },
                Action::PromptClient,
            ),
            Event::Exists(false) => (
                State::Finished(Outcome::Stopped(StopReason::BottleNotFound)),
                Action::Report,
            ),
            _ => {
                proof {
                    assert(false);
                }
                (State::Finished(Outcome::Success), Action::Report)
            },
        },
        State::AwaitingClientChoice { host, bottle } => match e {
            Event::Choice(c) => {
                let client_opt: Option<Client> = match c {
                    Some(0usize) => Some(Client::BattleNet),
                    Some(1usize) => Some(Client::Steam),
                    _ => None,
                };
                match client_opt {
                    Some(client) => {
                        let install = installation_path(bottle.as_str(), client);
                        let p = join_path(install.as_str(), "Overwatch.exe");
                        (
                            State::CheckingExecutable { host, bottle, client, install },
                            Action::CheckPath(p),
                        )
                    },
                    None => (
                        State::Finished(Outcome::Stopped(StopReason::NoClientSelected)),
                        Action::Report,
                    ),
                }
            },
            _ => {
                proof {
                    assert(false);
                }
                (State::Finished(Outcome::Success), Action::Report)
            },
        },
        State::CheckingExecutable { host, bottle, client, install } => match e {
            Event::Exists(true) => {
                let scratch = join_path(dirs.downloads.as_str(), "overwatch_dependencies");
                let sc = scratch.clone();
                (
                    State::Downloading(Ctx { host, bottle, client, install, scratch }),
                    Action::Download { scratch: sc, files: dependency_manifest() },
                )
            },
            Event::Exists(false) => (
                State::Finished(Outcome::Stopped(StopReason::InstallationNotFound)),
                Action::Report,
            ),
            _ => {
                proof {
                    assert(false);
                }
                (State::Finished(Outcome::Success), Action::Report)
            },
        },
        State::Downloading(c) => match e {
            Event::Completed => {
                let archive = join_path(c.scratch.as_str(), "MoltenVK-macos.tar");
                let dest = c.scratch.clone();
                (
                    State::UnpackingArchive(c),
                    Action::Unpack { archive, gzip: false, dest },
                )
            },
            Event::Failed(d) => (
                State::Finished(Outcome::Failed(Failure::DownloadFailed(d))),
                Action::Report,
            ),
            _ => {
                proof {
                    assert(false);
                }
                (State::Finished(Outcome::Success), Action::Report)
            },
        },
        State::UnpackingArchive(c) => match e {
            Event::Completed => {
                let archive = join_path(
                    c.scratch.as_str(),
                    "dxvk-macOS-async-v1.10.3-20230402-CrossOver.tar.gz",
                );
                let dest = c.scratch.clone();
                (
                    State::UnpackingCompressed(c),
                    Action::Unpack { archive, gzip: true, dest },
                )
            },
            Event::Failed(d) => (
                State::Finished(Outcome::Failed(Failure::UnpackFailed(d))),
                Action::Report,
            ),
            _ => {
                proof {
                    assert(false);
                }
                (State::Finished(Outcome::Success), Action::Report)
            },
        },
        State::UnpackingCompressed(c) => match e {
            Event::Completed => {
                let steps = build_copy_plan(
                    c.host.as_str(),
                    c.bottle.as_str(),
                    c.client,
                    c.scratch.as_str(),
                    dirs.documents.as_str(),
                );
                (State::Copying(c), Action::RunCopies(steps))
            },
            Event::Failed(d) => (
                State::Finished(Outcome::Failed(Failure::UnpackFailed(d))),
                Action::Report,
            ),
            _ => {
                proof {
                    assert(false);
                }
                (State::Finished(Outcome::Success), Action::Report)
            },
        },
        State::Copying(c) => match e {
            Event::Completed => {
                let config = join_path(c.bottle.as_str(), "cxbottle.conf");
                (
                    State::Patching(c),
                    Action::PatchConfig { config, lines: required_config_lines() },
                )
            },
            Event::Failed(d) => (
                State::Finished(Outcome::Failed(Failure::CopyFailed(d))),
                Action::Report,
            ),
            _ => {
                proof {
                    assert(false);
                }
                (State::Finished(Outcome::Success), Action::Report)
            },
        },
        State::Patching(c) => match e {
            Event::Completed => {
                let p = c.scratch.clone();
                (State::RemovingScratch(c), Action::RemoveDir(p))
            },
            _ => {
                proof {
                    assert(false);
                }
                (State::Finished(Outcome::Success), Action::Report)
            },
        },
        State::RemovingScratch(c) => match e {
            Event::Completed => {
                let path = join_path(c.install.as_str(), "dxvk.conf");
                (
                    State::WritingTranslationConf(c),
                    Action::WriteLineFile { path, line: "dxvk.hud = compiler".to_owned() },
                )
            },
            Event::Failed(d) => (
                State::Finished(Outcome::Failed(Failure::CleanupFailed(d))),
                Action::Report,
            ),
            _ => {
                proof {
                    assert(false);
                }
                (State::Finished(Outcome::Success), Action::Report)
            },
        },
        State::WritingTranslationConf(_) => match e {
            Event::Completed => (State::Finished(Outcome::Success), Action::Report),
            Event::Failed(d) => (
                State::Finished(Outcome::Failed(Failure::ConfigWriteFailed(d))),
                Action::Report,
            ),
            _ => {
                proof {
                    assert(false);
                }
                (State::Finished(Outcome::Success), Action::Report)
            },
        },
        State::Finished(_) => {
            proof {
                assert(false);
            }
            (State::Finished(Outcome::Success), Action::Report)
        },
    }
}

/// Whether a finished run's outcome makes the process exit with an
/// error status: only a hard abort does; clean early stops do not.
pub fn outcome_is_error(o: &Outcome) -> (r: bool)
    ensures
        r == (*o is Failed),
{
    match o {
        Outcome::Failed(_) => true,
        _ => false,
    }
}

/// A finished run awaits nothing: once an early stop or a failure is
/// reported, no later stage runs.
pub proof fn lemma_finished_is_terminal(o: Outcome, e: Event)
    ensures
        !awaited(State::Finished(o), e),
{
}

/// A download is requested only upon seeing the installation's
/// executable exist; in particular, the scratch directory (created only
/// as part of the download action) is never touched before then.
pub proof fn lemma_download_needs_executable(s: State, e: Event, dirs: &Dirs, r: (State, Action))
    requires
        next_ok(s, e, dirs, r),
        r.1 is Download,
    ensures
        s is CheckingExecutable,
        e == Event::Exists(true),
{
}

/// The scratch directory's removal is requested only after the patch
/// stage completes.
pub proof fn lemma_remove_only_after_patching(s: State, e: Event, dirs: &Dirs, r: (State, Action))
    requires
        next_ok(s, e, dirs, r),
        r.1 is RemoveDir,
    ensures
        s is Patching,
        e == Event::Completed,
{
}

/// Any failure reported while fetching, unpacking, placing files,
/// removing the scratch directory or creating the translation-config
/// file aborts the run at once with an error outcome: there is no
/// retry, and no later stage is requested.
pub proof fn lemma_work_failure_aborts(s: State, d: String, dirs: &Dirs, r: (State, Action))
    requires
        awaited(s, Event::Failed(d)),
        next_ok(s, Event::Failed(d), dirs, r),
    ensures
        r.0 matches State::Finished(o) && o is Failed,
        r.1 is Report,
{
}

/// When the default host root is missing and the override the user
/// supplies fails the same check, the run stops cleanly: the outcome is
/// not an error, and no step of the run requested a download, so the
/// scratch directory was never created.
pub proof fn lemma_host_missing_stops_cleanly(
    l: String,
    dirs: &Dirs,
    r0: (State, Action),
    r1: (State, Action),
    r2: (State, Action),
)
    requires
        next_ok(State::CheckingDefaultHost, Event::Exists(false), dirs, r0),
        next_ok(r0.0, Event::Line(l), dirs, r1),
        next_ok(r1.0, Event::Exists(false), dirs, r2),
    ensures
        r2.0 == State::Finished(Outcome::Stopped(StopReason::HostNotFound)),
        !(r0.1 is Download),
        !(r1.1 is Download),
        !(r2.1 is Download),
{
}

/// When the environment directory does not exist, the run stops cleanly
/// at once: the resulting state is final, so no download (and hence no
/// network call) is ever requested.
pub proof fn lemma_bottle_missing_stops_cleanly(
    host: String,
    bottle: String,
    dirs: &Dirs,
    r: (State, Action),
)
    requires
        next_ok(State::CheckingBottle { host, bottle }, Event::Exists(false), dirs, r),
    ensures
        r.0 == State::Finished(Outcome::Stopped(StopReason::BottleNotFound)),
        r.1 is Report,
        !(r.1 is Download),
{
}

/// A failed download aborts the run with an error outcome at once: the
/// resulting state is final, so no unpack, copy, patch or
/// scratch-removal is ever requested after it.
pub proof fn lemma_download_failure_aborts(c: Ctx, d: String, dirs: &Dirs, r: (State, Action))
    requires
        next_ok(State::Downloading(c), Event::Failed(d), dirs, r),
    ensures
        r.0 == State::Finished(Outcome::Failed(Failure::DownloadFailed(d))),
        r.1 is Report,
{
}

/// A failed copy aborts the run with an error outcome that carries,
/// verbatim, the destination the caller reported as failing.
pub proof fn lemma_copy_failure_names_destination(
    c: Ctx,
    dest: String,
    dirs: &Dirs,
    r: (State, Action),
)
    requires
        next_ok(State::Copying(c), Event::Failed(dest), dirs, r),
    ensures
        r.0 == State::Finished(Outcome::Failed(Failure::CopyFailed(dest))),
        r.1 is Report,
{
}

} // verus!
