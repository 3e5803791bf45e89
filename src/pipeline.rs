//! The order of the checks around the rename, as a state machine: the
//! caller performs each action it returns (an existence query, the build,
//! the rename) and hands back what happened.
use crate::cli::{Cli, Options};
use vstd::prelude::*;
use vstd::string::*;

verus! {

/// The environment of one run, injected by the caller.
#[derive(Debug)]
pub struct Config {
    /// The package whose release binary is renamed; a run cannot locate
    /// the binary without it.
    pub pkg_name: Option<String>,
    /// The package version, if known.
    pub version: Option<String>,
    /// The identifier of the running platform (`linux`, `macos`, ...).
    pub os: String,
    /// The working directory, as shown in error messages.
    pub current_dir: String,
}

/// A `Config` as plain sequences.
pub struct ConfigView {
    pub pkg_name: Option<Seq<char>>,
    pub version: Option<Seq<char>>,
    pub os: Seq<char>,
    pub current_dir: Seq<char>,
}

/// The characters of an optional string.
pub open spec fn opt_chars(o: Option<String>) -> Option<Seq<char>> {
    match o {
        Some(s) => Some(s@),
        None => None,
    }
}

impl View for Config {
    type V = ConfigView;

    open spec fn view(&self) -> ConfigView {
        ConfigView {
            pkg_name: opt_chars(self.pkg_name),
            version: opt_chars(self.version),
            os: self.os@,
            current_dir: self.current_dir@,
        }
    }
}

/// Why a run stopped before the rename.
#[derive(Debug)]
pub enum InitCheckError {
    /// The project marker file is not in the working directory.
    MissingCargoToml { dir: String },
    /// The release output directory does not exist.
    MissingReleaseDir { dir: String },
    /// The release binary does not exist.
    MissingReleaseBinary { bin_path: String },
    /// The package name was not supplied.
    MissingPackageName,
}

/// An `InitCheckError` as plain sequences.
pub enum InitFault {
    MissingCargoToml { dir: Seq<char> },
    MissingReleaseDir { dir: Seq<char> },
    MissingReleaseBinary { bin_path: Seq<char> },
    MissingPackageName,
}

impl View for InitCheckError {
    type V = InitFault;

    open spec fn view(&self) -> InitFault {
        match self {
            InitCheckError::MissingCargoToml { dir } => InitFault::MissingCargoToml { dir: dir@ },
            InitCheckError::MissingReleaseDir { dir } => InitFault::MissingReleaseDir { dir: dir@ },
            InitCheckError::MissingReleaseBinary { bin_path } => InitFault::MissingReleaseBinary {
                bin_path: bin_path@,
            },
            InitCheckError::MissingPackageName => InitFault::MissingPackageName,
        }
    }
}

/// The project marker file, relative to the working directory.
pub open spec fn marker_path() -> Seq<char> {
    "./Cargo.toml"@
}

/// The release output directory, relative to the working directory.
pub open spec fn release_dir() -> Seq<char> {
    "./target/release"@
}

/// `leaf` inside `dir`: one separator between them.
pub open spec fn join_path(dir: Seq<char>, leaf: Seq<char>) -> Seq<char> {
    if dir.len() > 0 && dir.last() == '/' {
        dir + leaf
    } else {
        dir + "/"@ + leaf
    }
}

/// The version to embed: the one supplied, else `?.?.?`.
pub open spec fn version_or_unknown(v: Option<Seq<char>>) -> Seq<char> {
    match v {
        Some(s) => s,
        None => "?.?.?"@,
    }
}

/// The new file name: `{name}-{os}-{version}`.
pub open spec fn release_name(name: Seq<char>, os: Seq<char>, version: Seq<char>) -> Seq<char> {
    name + "-"@ + os + "-"@ + version
}

/// Where the release binary of package `pkg` is expected.
pub open spec fn binary_path(pkg: Seq<char>) -> Seq<char> {
    join_path(release_dir(), pkg)
}

/// Where the release binary goes.
pub open spec fn renamed_path(o: Options, c: ConfigView) -> Seq<char> {
    join_path(release_dir(), release_name(o.name, c.os, version_or_unknown(c.version)))
}

/// The directory named when the release directory is missing.
pub open spec fn target_dir(c: ConfigView) -> Seq<char> {
    join_path(c.current_dir, "target"@)
}

/// `leaf` inside `dir`, with one separator between them.
pub fn join(dir: &str, leaf: &str) -> (r: String)
    ensures
        r@ == join_path(dir@, leaf@),
{
    let mut r = dir.to_owned();
    let n = dir.unicode_len();
    if !(n > 0 && dir.get_char(n - 1) == '/') {
        r.append("/");
    }
    r.append(leaf);
    r
}

/// The new file name, `{name}-{os}-{version}`, with `?.?.?` for an unknown
/// version.
pub fn new_bin_name(name: &str, os: &str, version: &Option<String>) -> (r: String)
    ensures
        r@ == release_name(name@, os@, version_or_unknown(opt_chars(*version))),
{
    let mut r = name.to_owned();
    r.append("-");
    r.append(os);
    r.append("-");
    match version {
        Some(v) => r.append(v.as_str()),
        None => r.append("?.?.?"),
    }
    r
}

/// Where a run stands: what it waits for next.
#[derive(Clone, Copy, PartialEq, Eq, Structural, Debug)]
pub enum Stage {
    Begin,
    AwaitMarker,
    AwaitBuild,
    AwaitReleaseDir,
    AwaitBinary,
    AwaitRename,
    Done,
}

/// What the caller reports back after performing an action.
#[derive(Clone, Copy, PartialEq, Eq, Structural, Debug)]
pub enum Event {
    /// The run is starting.
    Start,
    /// The path asked about exists or not.
    Exists { present: bool },
    /// The build has run to its end.
    BuildFinished,
    /// The rename was performed.
    Renamed,
}

/// What the caller is to do next.
#[derive(Debug)]
pub enum Action {
    /// Tell whether `path` exists.
    CheckExists { path: String },
    /// Run the release build, forwarding its output.
    RunBuild,
    /// Rename the file at `from` to `to`.
    Rename { from: String, to: String },
    /// The run is over: the binary at `from` now stands at `to`.
    Succeeded { from: String, to: String },
    /// The run is over: a check failed.
    Failed { error: InitCheckError },
    /// The run is already over, or the event did not fit the stage.
    Halt,
}

/// An `Action` as plain sequences.
pub enum ActionView {
    CheckExists { path: Seq<char> },
    RunBuild,
    Rename { from: Seq<char>, to: Seq<char> },
    Succeeded { from: Seq<char>, to: Seq<char> },
    Failed { error: InitFault },
    Halt,
}

impl View for Action {
    type V = ActionView;

    open spec fn view(&self) -> ActionView {
        match self {
            Action::CheckExists { path } => ActionView::CheckExists { path: path@ },
            Action::RunBuild => ActionView::RunBuild,
            Action::Rename { from, to } => ActionView::Rename { from: from@, to: to@ },
            Action::Succeeded { from, to } => ActionView::Succeeded { from: from@, to: to@ },
            Action::Failed { error } => ActionView::Failed { error: error@ },
            Action::Halt => ActionView::Halt,
        }
    }
}

/// One run: its options, its environment and its stage.
#[derive(Debug)]
pub struct Session {
    pub stage: Stage,
    pub cli: Cli,
    pub config: Config,
}

/// A `Session` as plain values.
pub struct SessionView {
    pub stage: Stage,
    pub cli: Options,
    pub config: ConfigView,
}

impl View for Session {
    type V = SessionView;

    open spec fn view(&self) -> SessionView {
        SessionView { stage: self.stage, cli: self.cli@, config: self.config@ }
    }
}

/// The next stage and action, given the current session and an event.
pub open spec fn next(s: SessionView, ev: Event) -> (Stage, ActionView) {
    match (s.stage, ev) {
        (Stage::Begin, Event::Start) => (
            Stage::AwaitMarker,
            ActionView::CheckExists { path: marker_path() },
        ),
        (Stage::AwaitMarker, Event::Exists { present }) => if !present {
            (
                Stage::Done,
                ActionView::Failed {
                    error: InitFault::MissingCargoToml { dir: s.config.current_dir },
                },
            )
        } else if s.cli.build {
            (Stage::AwaitBuild, ActionView::RunBuild)
        } else {
            (Stage::AwaitReleaseDir, ActionView::CheckExists { path: release_dir() })
        },
        (Stage::AwaitBuild, Event::BuildFinished) => (
            Stage::AwaitReleaseDir,
            ActionView::CheckExists { path: release_dir() },
        ),
        (Stage::AwaitReleaseDir, Event::Exists { present }) => if !present {
            (
                Stage::Done,
                ActionView::Failed {
                    error: InitFault::MissingReleaseDir { dir: target_dir(s.config) },
                },
            )
        } else {
            match s.config.pkg_name {
                Some(p) => (Stage::AwaitBinary, ActionView::CheckExists { path: binary_path(p) }),
                None => (Stage::Done, ActionView::Failed { error: InitFault::MissingPackageName }),
            }
        },
        (Stage::AwaitBinary, Event::Exists { present }) => match s.config.pkg_name {
            Some(p) => if !present {
                (
                    Stage::Done,
                    ActionView::Failed {
                        error: InitFault::MissingReleaseBinary { bin_path: binary_path(p) },
                    },
                )
            } else {
                (
                    Stage::AwaitRename,
                    ActionView::Rename { from: binary_path(p), to: renamed_path(s.cli, s.config) },
                )
            },
            None => (Stage::Done, ActionView::Failed { error: InitFault::MissingPackageName }),
        },
        (Stage::AwaitRename, Event::Renamed) => match s.config.pkg_name {
            Some(p) => (
                Stage::Done,
                ActionView::Succeeded { from: binary_path(p), to: renamed_path(s.cli, s.config) },
            ),
            None => (Stage::Done, ActionView::Failed { error: InitFault::MissingPackageName }),
        },
        _ => (Stage::Done, ActionView::Halt),
    }
}

impl Session {
    /// A run that has not started yet.
    pub fn new(cli: Cli, config: Config) -> (r: Session)
        ensures
            r@ == (SessionView { stage: Stage::Begin, cli: cli@, config: config@ }),
    {
        Session { stage: Stage::Begin, cli, config }
    }

    /// The release output directory.
    fn release_dir_path() -> (r: String)
        ensures
            r@ == release_dir(),
    {
        "./target/release".to_owned()
    }

    /// Where the release binary of `pkg` is expected.
    fn bin_path(pkg: &str) -> (r: String)
        ensures
            r@ == binary_path(pkg@),
    {
        join(Self::release_dir_path().as_str(), pkg)
    }

    /// Where the release binary goes.
    fn new_path(&self) -> (r: String)
        ensures
            r@ == renamed_path(self.cli@, self.config@),
    {
        let rd = Self::release_dir_path();
        let name = new_bin_name(self.cli.name.as_str(), self.config.os.as_str(), &self.config.version);
        join(rd.as_str(), name.as_str())
    }

    /// Advances the run by one event and returns what the caller does next.
    /// Only the stage changes.
    pub fn step(&mut self, ev: Event) -> (act: Action)
        ensures
            final(self).cli == old(self).cli,
            final(self).config == old(self).config,
            (final(self).stage, act@) == next(old(self)@, ev),
    {
        match (self.stage, ev) {
            (Stage::Begin, Event::Start) => {
                self.stage = Stage::AwaitMarker;
                Action::CheckExists { path: "./Cargo.toml".to_owned() }
            },
            (Stage::AwaitMarker, Event::Exists { present }) => {
                if !present {
                    self.stage = Stage::Done;
                    Action::Failed {
                        error: InitCheckError::MissingCargoToml { dir: self.config.current_dir.clone() },
                    }
                } else if self.cli.build {
                    self.stage = Stage::AwaitBuild;
                    Action::RunBuild
                } else {
                    self.stage = Stage::AwaitReleaseDir;
                    Action::CheckExists { path: Self::release_dir_path() }
                }
            },
            (Stage::AwaitBuild, Event::BuildFinished) => {
                self.stage = Stage::AwaitReleaseDir;
                Action::CheckExists { path: Self::release_dir_path() }
            },
            (Stage::AwaitReleaseDir, Event::Exists { present }) => {
                if !present {
                    self.stage = Stage::Done;
                    Action::Failed {
                        error: InitCheckError::MissingReleaseDir {
                            dir: join(self.config.current_dir.as_str(), "target"),
                        },
                    }
                } else {
                    match &self.config.pkg_name {
                        Some(p) => {
                            self.stage = Stage::AwaitBinary;
                            Action::CheckExists { path: Self::bin_path(p.as_str()) }
                        },
                        None => {
                            self.stage = Stage::Done;
                            Action::Failed { error: InitCheckError::MissingPackageName }
                        },
                    }
                }
            },
            (Stage::AwaitBinary, Event::Exists { present }) => {
                self.stage = Stage::Done;
                match &self.config.pkg_name {
                    Some(p) => {
                        let bin = Self::bin_path(p.as_str());
                        if !present {
                            Action::Failed {
                                error: InitCheckError::MissingReleaseBinary { bin_path: bin },
                            }
                        } else {
                            self.stage = Stage::AwaitRename;
                            Action::Rename { from: bin, to: self.new_path() }
                        }
                    },
                    None => Action::Failed { error: InitCheckError::MissingPackageName },
                }
            },
            (Stage::AwaitRename, Event::Renamed) => {
                self.stage = Stage::Done;
                match &self.config.pkg_name {
                    Some(p) => Action::Succeeded { from: Self::bin_path(p.as_str()), to: self.new_path() },
                    None => Action::Failed { error: InitCheckError::MissingPackageName },
                }
            },
            _ => {
                self.stage = Stage::Done;
                Action::Halt
            },
        }
    }
}

/// A run driven against a model filesystem, `fs` being the set of paths
/// that exist and `built` the set that exists once the build has run.
/// Gives the actions taken, in order, the last one ending the run, and the
/// paths that exist afterwards. `fuel` bounds the number of steps.
pub open spec fn drive(
    s: SessionView,
    ev: Event,
    fs: Set<Seq<char>>,
    built: Set<Seq<char>>,
    fuel: nat,
) -> (Seq<ActionView>, Set<Seq<char>>)
    decreases fuel,
{
    let act = next(s, ev).1;
    let s2 = SessionView { stage: next(s, ev).0, cli: s.cli, config: s.config };
    if fuel == 0 {
        (seq![act], fs)
    } else {
        match act {
            ActionView::CheckExists { path } => {
                let rest = drive(s2, Event::Exists { present: fs.contains(path) }, fs, built, (fuel - 1) as nat);
                (seq![act] + rest.0, rest.1)
            },
            ActionView::RunBuild => {
                let rest = drive(s2, Event::BuildFinished, built, built, (fuel - 1) as nat);
                (seq![act] + rest.0, rest.1)
            },
            ActionView::Rename { from, to } => {
                let rest = drive(s2, Event::Renamed, fs.remove(from).insert(to), built, (fuel - 1) as nat);
                (seq![act] + rest.0, rest.1)
            },
            _ => (seq![act], fs),
        }
    }
}

/// A whole run from the start, against a model filesystem (see `drive`).
pub open spec fn run(o: Options, c: ConfigView, fs: Set<Seq<char>>, built: Set<Seq<char>>) -> (
    Seq<ActionView>,
    Set<Seq<char>>,
) {
    drive(SessionView { stage: Stage::Begin, cli: o, config: c }, Event::Start, fs, built, 6)
}

/// The same directory gives the same path only for the same leaf.
proof fn lemma_join_injective(dir: Seq<char>, a: Seq<char>, b: Seq<char>)
    requires
        join_path(dir, a) == join_path(dir, b),
    ensures
        a == b,
{
    let pre = if dir.len() > 0 && dir.last() == '/' {
        dir
    } else {
        dir + "/"@
    };
    assert(join_path(dir, a) == pre + a);
    assert(join_path(dir, b) == pre + b);
    assert(a =~= (pre + a).subrange(pre.len() as int, (pre + a).len() as int));
    assert(b =~= (pre + b).subrange(pre.len() as int, (pre + b).len() as int));
}

/// The marker file, the release directory and a binary in it are three
/// distinct paths.
proof fn lemma_paths_distinct(p: Seq<char>)
    ensures
        marker_path() != binary_path(p),
        release_dir() != binary_path(p),
        marker_path() != release_dir(),
{
    reveal_strlit("./Cargo.toml");
    reveal_strlit("./target/release");
    reveal_strlit("/");
    assert(binary_path(p) == release_dir() + "/"@ + p);
    assert(marker_path()[2] != binary_path(p)[2]);
    assert(release_dir().len() < binary_path(p).len());
}

/// Without the marker file a run checks that file, fails naming the working
/// directory, and does nothing else: no build, no other query, no rename.
pub proof fn law_missing_marker_stops_first(
    o: Options,
    c: ConfigView,
    fs: Set<Seq<char>>,
    built: Set<Seq<char>>,
)
    requires
        !fs.contains(marker_path()),
    ensures
        run(o, c, fs, built).0 == seq![
            ActionView::CheckExists { path: marker_path() },
            ActionView::Failed { error: InitFault::MissingCargoToml { dir: c.current_dir } },
        ],
        run(o, c, fs, built).1 == fs,
{
    reveal_with_fuel(drive, 3);
}

/// With the marker file, the release directory and the binary present and
/// no build asked for, a run moves the binary to `{name}-{os}-{version}` in
/// the release directory and reports that, provided the package name is not
/// that new name itself.
pub proof fn law_rename_moves_binary(
    o: Options,
    c: ConfigView,
    fs: Set<Seq<char>>,
    built: Set<Seq<char>>,
    p: Seq<char>,
)
    requires
        !o.build,
        c.pkg_name == Some(p),
        p != release_name(o.name, c.os, version_or_unknown(c.version)),
        fs.contains(marker_path()),
        fs.contains(release_dir()),
        fs.contains(binary_path(p)),
    ensures
        run(o, c, fs, built).0.last() == (ActionView::Succeeded {
            from: binary_path(p),
            to: join_path(release_dir(), release_name(o.name, c.os, version_or_unknown(c.version))),
        }),
        run(o, c, fs, built).1 == fs.remove(binary_path(p)).insert(renamed_path(o, c)),
        run(o, c, fs, built).1.contains(renamed_path(o, c)),
        !run(o, c, fs, built).1.contains(binary_path(p)),
{
    reveal_with_fuel(drive, 7);
    if binary_path(p) == renamed_path(o, c) {
        lemma_join_injective(release_dir(), p, release_name(o.name, c.os, version_or_unknown(c.version)));
    }
}

/// When the binary is missing at the time it is sought (the marker file
/// present, and the release directory present after the build, if any), a
/// run fails naming the binary's path, renames nothing and changes nothing.
pub proof fn law_missing_binary_no_rename(
    o: Options,
    c: ConfigView,
    fs: Set<Seq<char>>,
    built: Set<Seq<char>>,
    p: Seq<char>,
)
    requires
        c.pkg_name == Some(p),
        fs.contains(marker_path()),
        (if o.build { built } else { fs }).contains(release_dir()),
        !(if o.build { built } else { fs }).contains(binary_path(p)),
    ensures
        run(o, c, fs, built).0.last() == (ActionView::Failed {
            error: InitFault::MissingReleaseBinary { bin_path: binary_path(p) },
        }),
        forall|k: int| 0 <= k < run(o, c, fs, built).0.len() ==> !(run(o, c, fs, built).0[k] is Rename),
        run(o, c, fs, built).1 == (if o.build { built } else { fs }),
{
    reveal_with_fuel(drive, 7);
}

/// Running twice on the same inputs without a build: the second run finds
/// the binary gone and fails naming its path, rather than succeeding
/// silently.
pub proof fn law_second_rename_fails(
    o: Options,
    c: ConfigView,
    fs: Set<Seq<char>>,
    built: Set<Seq<char>>,
    p: Seq<char>,
)
    requires
        !o.build,
        c.pkg_name == Some(p),
        p != release_name(o.name, c.os, version_or_unknown(c.version)),
        fs.contains(marker_path()),
        fs.contains(release_dir()),
        fs.contains(binary_path(p)),
    ensures
        run(o, c, run(o, c, fs, built).1, built).0.last() == (ActionView::Failed {
            error: InitFault::MissingReleaseBinary { bin_path: binary_path(p) },
        }),
{
    law_rename_moves_binary(o, c, fs, built, p);
    lemma_paths_distinct(p);
    let after = run(o, c, fs, built).1;
    assert(after.contains(marker_path()));
    assert(after.contains(release_dir()));
    law_missing_binary_no_rename(o, c, after, built, p);
}

} // verus!
