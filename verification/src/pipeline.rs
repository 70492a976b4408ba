//! The build orchestrator as a state machine. The machine decides; a driver
//! performs the filesystem and process work and reports each outcome back.
//! One run walks the phases in a fixed order, and any failure is terminal:
//! nothing is retried and nothing is rolled back.

use vstd::prelude::*;

use crate::errors::BuildError;
use crate::ids::{flatpak_id_for_game, spec_flatpak_id};
use crate::manifest::{manifest_to_yaml, spec_manifest_yaml, spec_synthesized, synthesize_manifest};
use crate::paths::{join_path, spec_join};
use crate::resolve::{name_views, resolve_entry_point, spec_resolve};
use vstd::pervasive::unreached;

verus! {

/// Where a run stands: which answer it is waiting for, or how it ended.
#[derive(Clone, Copy, Debug, PartialEq, Eq, Structural)]
pub enum Phase {
    Start,
    AwaitingListing,
    AwaitingPermissions,
    AwaitingManifestWrite,
    AwaitingCompiler,
    AwaitingBundler,
    Done,
    Failed,
}

/// What the machine asks the driver to do next.
#[derive(Debug)]
pub enum Action {
    /// List the names of the directory's regular files, in iteration order.
    ListDir { path: String },
    /// Set the file's permission bits to `mode`.
    SetPermissions { path: String, mode: u32 },
    /// Write `contents` to the file, replacing any prior content.
    WriteFile { path: String, contents: String },
    /// Spawn the program with the arguments, inherit stdio, wait for exit.
    RunProcess { program: String, args: Vec<String> },
    /// The run succeeded; the bundle lies at `bundle_path`.
    Report { bundle_path: String },
    /// Nothing more to do: the run is over or the event fit no phase.
    Stop,
}

/// What the driver reports back after performing an action.
#[derive(Debug)]
pub enum Event {
    /// Begin the run; fits only the start phase.
    Started,
    /// The directory listing, file names in iteration order.
    DirListed { names: Vec<String> },
    /// The permission bits were written.
    PermissionsSet,
    /// The file was written.
    FileWritten,
    /// The spawned process exited; `ok` says whether it reported success.
    ProcessExited { ok: bool },
    /// The filesystem operation or the spawn failed.
    IoFailed,
}

/// The mathematical value of an action.
#[verifier::ext_equal]
pub ghost enum ActionView {
    ListDir { path: Seq<char> },
    SetPermissions { path: Seq<char>, mode: u32 },
    WriteFile { path: Seq<char>, contents: Seq<char> },
    RunProcess { program: Seq<char>, args: Seq<Seq<char>> },
    Report { bundle_path: Seq<char> },
    Stop,
}

/// The mathematical value of an event.
#[verifier::ext_equal]
pub ghost enum EventView {
    Started,
    DirListed { names: Seq<Seq<char>> },
    PermissionsSet,
    FileWritten,
    ProcessExited { ok: bool },
    IoFailed,
}

/// The mathematical value of a run's state.
#[verifier::ext_equal]
pub ghost struct PipelineView {
    pub game_id: Seq<char>,
    pub game_dir: Seq<char>,
    pub executable: Option<Seq<char>>,
    pub phase: Phase,
    pub error: Option<BuildError>,
}

impl View for Action {
    type V = ActionView;

    open spec fn view(&self) -> ActionView {
        match self {
            Action::ListDir { path } => ActionView::ListDir { path: path@ },
            Action::SetPermissions { path, mode } => ActionView::SetPermissions {
                path: path@,
                mode: *mode,
            },
            Action::WriteFile { path, contents } => ActionView::WriteFile {
                path: path@,
                contents: contents@,
            },
            Action::RunProcess { program, args } => ActionView::RunProcess {
                program: program@,
                args: args@.map_values(|s: String| s@),
            },
            Action::Report { bundle_path } => ActionView::Report { bundle_path: bundle_path@ },
            Action::Stop => ActionView::Stop,
        }
    }
}

impl View for Event {
    type V = EventView;

    open spec fn view(&self) -> EventView {
        match self {
            Event::Started => EventView::Started,
            Event::DirListed { names } => EventView::DirListed { names: name_views(names@) },
            Event::PermissionsSet => EventView::PermissionsSet,
            Event::FileWritten => EventView::FileWritten,
            Event::ProcessExited { ok } => EventView::ProcessExited { ok: *ok },
            Event::IoFailed => EventView::IoFailed,
        }
    }
}

/// One build run. It holds no state beyond the run: a new value starts a
/// new run from the beginning.
#[derive(Debug)]
pub struct Pipeline {
    pub game_id: String,
    pub game_dir: String,
    pub executable: Option<String>,
    pub phase: Phase,
    pub error: Option<BuildError>,
}

impl View for Pipeline {
    type V = PipelineView;

    open spec fn view(&self) -> PipelineView {
        PipelineView {
            game_id: self.game_id@,
            game_dir: self.game_dir@,
            executable: match self.executable {
                Option::Some(ref s) => Option::Some(s@),
                Option::None => Option::None,
            },
            phase: self.phase,
            error: self.error,
        }
    }
}

/// The arguments of the manifest-to-build-tree compiler, in the exact order
/// the tool expects: state directory, repo output, force-clean, user scope,
/// the build-tree directory, and the manifest file.
pub open spec fn spec_compiler_args(game_dir: Seq<char>) -> Seq<Seq<char>> {
    seq![
        "--state-dir="@ + spec_join(game_dir, "state-dir"@),
        "--repo="@ + spec_join(game_dir, "repo"@),
        "--force-clean"@,
        "--user"@,
        spec_join(game_dir, "build"@),
        spec_join(game_dir, "flatpak.yml"@),
    ]
}

/// The arguments of the bundler, in the exact order the tool expects: the
/// subcommand, the repo, the bundle output path, and the application id.
pub open spec fn spec_bundler_args(game_dir: Seq<char>, app_id: Seq<char>) -> Seq<Seq<char>> {
    seq![
        "build-bundle"@,
        spec_join(game_dir, "repo"@),
        spec_join(game_dir, "bundle.flatpak"@),
        app_id,
    ]
}

/// Builds the compiler invocation for a run under `game_dir`.
pub fn compiler_invocation(game_dir: &str) -> (r: (String, Vec<String>))
    ensures
        r.0@ == "flatpak-builder"@,
        r.1@.map_values(|s: String| s@) == spec_compiler_args(game_dir@),
{
    let mut args: Vec<String> = Vec::new();
    let mut state_arg = String::from_str("--state-dir=");
    let state_dir = join_path(game_dir, "state-dir");
    state_arg.append(state_dir.as_str());
    args.push(state_arg);
    let mut repo_arg = String::from_str("--repo=");
    let repo_dir = join_path(game_dir, "repo");
    repo_arg.append(repo_dir.as_str());
    args.push(repo_arg);
    args.push(String::from_str("--force-clean"));
    args.push(String::from_str("--user"));
    args.push(join_path(game_dir, "build"));
    args.push(join_path(game_dir, "flatpak.yml"));
    proof {
        assert(args@.map_values(|s: String| s@) =~= spec_compiler_args(game_dir@));
    }
    (String::from_str("flatpak-builder"), args)
}

/// Builds the bundler invocation for a run under `game_dir` with the given
/// application id.
pub fn bundler_invocation(game_dir: &str, app_id: &str) -> (r: (String, Vec<String>))
    ensures
        r.0@ == "flatpak"@,
        r.1@.map_values(|s: String| s@) == spec_bundler_args(game_dir@, app_id@),
{
    let mut args: Vec<String> = Vec::new();
    args.push(String::from_str("build-bundle"));
    args.push(join_path(game_dir, "repo"));
    args.push(join_path(game_dir, "bundle.flatpak"));
    args.push(String::from_str(app_id));
    proof {
        assert(args@.map_values(|s: String| s@) =~= spec_bundler_args(game_dir@, app_id@));
    }
    (String::from_str("flatpak"), args)
}

/// The run halts and the state does not move.
pub open spec fn halted(pre: PipelineView, post: PipelineView, action: ActionView) -> bool {
    post == pre && action == ActionView::Stop
}

/// The run fails terminally with `e`.
pub open spec fn failed_with(
    pre: PipelineView,
    post: PipelineView,
    action: ActionView,
    e: BuildError,
) -> bool {
    post == (PipelineView { phase: Phase::Failed, error: Some(e), ..pre }) && action
        == ActionView::Stop
}

/// The whole transition relation of a run: what each event does to the
/// state in each phase, and which action the driver is asked to perform
/// next. An event that fits no phase halts the run without moving it.
pub open spec fn step_spec(
    pre: PipelineView,
    event: EventView,
    post: PipelineView,
    action: ActionView,
) -> bool {
    match (pre.phase, event) {
        (Phase::Start, EventView::Started) => post == (PipelineView {
            phase: Phase::AwaitingListing,
            ..pre
        }) && action == (ActionView::ListDir { path: spec_join(pre.game_dir, "publish"@) }),
        (Phase::AwaitingListing, EventView::DirListed { names }) => match spec_resolve(names) {
            Some(exe) => post == (PipelineView {
                phase: Phase::AwaitingPermissions,
                executable: Some(exe),
                ..pre
            }) && action == (ActionView::SetPermissions {
                path: spec_join(spec_join(pre.game_dir, "publish"@), exe),
                mode: 0o755u32,
            }),
            None => failed_with(pre, post, action, BuildError::UnsupportedInference),
        },
        (Phase::AwaitingPermissions, EventView::PermissionsSet) => post == (PipelineView {
            phase: Phase::AwaitingManifestWrite,
            ..pre
        }) && action == (ActionView::WriteFile {
            path: spec_join(pre.game_dir, "flatpak.yml"@),
            contents: spec_manifest_yaml(
                spec_synthesized(pre.game_id, pre.executable.unwrap()),
            ),
        }),
        (Phase::AwaitingManifestWrite, EventView::FileWritten) => post == (PipelineView {
            phase: Phase::AwaitingCompiler,
            ..pre
        }) && action == (ActionView::RunProcess {
            program: "flatpak-builder"@,
            args: spec_compiler_args(pre.game_dir),
        }),
        (Phase::AwaitingCompiler, EventView::ProcessExited { ok }) => if ok {
            post == (PipelineView { phase: Phase::AwaitingBundler, ..pre }) && action
                == (ActionView::RunProcess {
                program: "flatpak"@,
                args: spec_bundler_args(pre.game_dir, spec_flatpak_id(pre.game_id)),
            })
        } else {
            failed_with(pre, post, action, BuildError::CompilerFailed)
        },
        (Phase::AwaitingBundler, EventView::ProcessExited { ok }) => if ok {
            post == (PipelineView { phase: Phase::Done, ..pre }) && action
                == (ActionView::Report {
                bundle_path: spec_join(pre.game_dir, "bundle.flatpak"@),
            })
        } else {
            failed_with(pre, post, action, BuildError::BundlerFailed)
        },
        (Phase::AwaitingListing, EventView::IoFailed) => failed_with(
            pre,
            post,
            action,
            BuildError::Io,
        ),
        (Phase::AwaitingPermissions, EventView::IoFailed) => failed_with(
            pre,
            post,
            action,
            BuildError::Io,
        ),
        (Phase::AwaitingManifestWrite, EventView::IoFailed) => failed_with(
            pre,
            post,
            action,
            BuildError::Io,
        ),
        (Phase::AwaitingCompiler, EventView::IoFailed) => failed_with(
            pre,
            post,
            action,
            BuildError::Io,
        ),
        (Phase::AwaitingBundler, EventView::IoFailed) => failed_with(
            pre,
            post,
            action,
            BuildError::Io,
        ),
        _ => halted(pre, post, action),
    }
}

impl Pipeline {
    /// A state the machine keeps: once past resolution the executable is
    /// known, and the error is set exactly in the failed phase.
    pub open spec fn wf(self) -> bool {
        &&& match self@.phase {
            Phase::AwaitingPermissions
            | Phase::AwaitingManifestWrite
            | Phase::AwaitingCompiler
            | Phase::AwaitingBundler
            | Phase::Done => self@.executable is Some,
            _ => true,
        }
        &&& (self@.phase == Phase::Failed <==> self@.error is Some)
    }

    /// Starts a fresh run for `game_id` under `game_dir`. The new run
    /// carries nothing over from any earlier one.
    pub fn new(game_id: String, game_dir: String) -> (p: Pipeline)
        ensures
            p.wf(),
            p@.phase == Phase::Start,
            p@.game_id == game_id@,
            p@.game_dir == game_dir@,
            p@.executable is None,
            p@.error is None,
    {
        Pipeline { game_id, game_dir, executable: None, phase: Phase::Start, error: None }
    }

    /// Feeds the driver's report into the machine and returns the next
    /// action, exactly as the transition relation states.
    pub fn on_event(&mut self, event: Event) -> (action: Action)
        requires
            old(self).wf(),
        ensures
            final(self).wf(),
            step_spec(old(self)@, event@, final(self)@, action@),
    {
        let phase = self.phase;
        match (phase, event) {
            (Phase::Start, Event::Started) => {
                let path = join_path(self.game_dir.as_str(), "publish");
                self.phase = Phase::AwaitingListing;
                Action::ListDir { path }
            },
            (Phase::AwaitingListing, Event::DirListed { names }) => {
                match resolve_entry_point(&names) {
                    Ok(exe) => {
                        let publish = join_path(self.game_dir.as_str(), "publish");
                        let path = join_path(publish.as_str(), exe.as_str());
                        self.executable = Some(exe);
                        self.phase = Phase::AwaitingPermissions;
                        Action::SetPermissions { path, mode: 0o755 }
                    },
                    Err(e) => {
                        self.phase = Phase::Failed;
                        self.error = Some(e);
                        Action::Stop
                    },
                }
            },
            (Phase::AwaitingPermissions, Event::PermissionsSet) => {
                match &self.executable {
                    Some(exe) => {
                        let m = synthesize_manifest(self.game_id.as_str(), exe.as_str());
                        let contents = manifest_to_yaml(&m);
                        let path = join_path(self.game_dir.as_str(), "flatpak.yml");
                        self.phase = Phase::AwaitingManifestWrite;
                        Action::WriteFile { path, contents }
                    },
                    None => unreached(),
                }
            },
            (Phase::AwaitingManifestWrite, Event::FileWritten) => {
                let (program, args) = compiler_invocation(self.game_dir.as_str());
                self.phase = Phase::AwaitingCompiler;
                Action::RunProcess { program, args }
            },
            (Phase::AwaitingCompiler, Event::ProcessExited { ok }) => {
                if ok {
                    let app_id = flatpak_id_for_game(self.game_id.as_str());
                    let (program, args) = bundler_invocation(
                        self.game_dir.as_str(),
                        app_id.as_str(),
                    );
                    self.phase = Phase::AwaitingBundler;
                    Action::RunProcess { program, args }
                } else {
                    self.phase = Phase::Failed;
                    self.error = Some(BuildError::CompilerFailed);
                    Action::Stop
                }
            },
            (Phase::AwaitingBundler, Event::ProcessExited { ok }) => {
                if ok {
                    let bundle_path = join_path(self.game_dir.as_str(), "bundle.flatpak");
                    self.phase = Phase::Done;
                    Action::Report { bundle_path }
                } else {
                    self.phase = Phase::Failed;
                    self.error = Some(BuildError::BundlerFailed);
                    Action::Stop
                }
            },
            (Phase::AwaitingListing, Event::IoFailed) => {
                self.phase = Phase::Failed;
                self.error = Some(BuildError::Io);
                Action::Stop
            },
            (Phase::AwaitingPermissions, Event::IoFailed) => {
                self.phase = Phase::Failed;
                self.error = Some(BuildError::Io);
                Action::Stop
            },
            (Phase::AwaitingManifestWrite, Event::IoFailed) => {
                self.phase = Phase::Failed;
                self.error = Some(BuildError::Io);
                Action::Stop
            },
            (Phase::AwaitingCompiler, Event::IoFailed) => {
                self.phase = Phase::Failed;
                self.error = Some(BuildError::Io);
                Action::Stop
            },
            (Phase::AwaitingBundler, Event::IoFailed) => {
                self.phase = Phase::Failed;
                self.error = Some(BuildError::Io);
                Action::Stop
            },
            (_, _) => Action::Stop,
        }
    }
}

/// One whole successful run, chained through the transition relation: from
/// the start, with a listing that resolves to `exe` and tools that report
/// success, the machine demands exactly the ordered steps of a build — list
/// the publish directory, fix the executable's permissions, write the
/// manifest, run the compiler, run the bundler — and ends done, reporting
/// the bundle path.
pub proof fn lemma_successful_run(
    p0: PipelineView,
    names: Seq<Seq<char>>,
    exe: Seq<char>,
    p1: PipelineView,
    a1: ActionView,
    p2: PipelineView,
    a2: ActionView,
    p3: PipelineView,
    a3: ActionView,
    p4: PipelineView,
    a4: ActionView,
    p5: PipelineView,
    a5: ActionView,
    p6: PipelineView,
    a6: ActionView,
)
    requires
        p0.phase == Phase::Start,
        spec_resolve(names) == Some(exe),
        step_spec(p0, EventView::Started, p1, a1),
        step_spec(p1, EventView::DirListed { names }, p2, a2),
        step_spec(p2, EventView::PermissionsSet, p3, a3),
        step_spec(p3, EventView::FileWritten, p4, a4),
        step_spec(p4, EventView::ProcessExited { ok: true }, p5, a5),
        step_spec(p5, EventView::ProcessExited { ok: true }, p6, a6),
    ensures
        a1 == (ActionView::ListDir { path: spec_join(p0.game_dir, "publish"@) }),
        a2 == (ActionView::SetPermissions {
            path: spec_join(spec_join(p0.game_dir, "publish"@), exe),
            mode: 0o755u32,
        }),
        a3 == (ActionView::WriteFile {
            path: spec_join(p0.game_dir, "flatpak.yml"@),
            contents: spec_manifest_yaml(spec_synthesized(p0.game_id, exe)),
        }),
        a4 == (ActionView::RunProcess {
            program: "flatpak-builder"@,
            args: spec_compiler_args(p0.game_dir),
        }),
        a5 == (ActionView::RunProcess {
            program: "flatpak"@,
            args: spec_bundler_args(p0.game_dir, spec_flatpak_id(p0.game_id)),
        }),
        a6 == (ActionView::Report { bundle_path: spec_join(p0.game_dir, "bundle.flatpak"@) }),
        p6.phase == Phase::Done,
        p6.executable == Some(exe),
        p6.error == p0.error,
{
}

/// The machine has no hidden state: from one state and one event it moves
/// to exactly one state and demands exactly one action. Two runs driven
/// with the same inputs and the same answers repeat the same sequence.
pub proof fn lemma_step_deterministic(
    pre: PipelineView,
    event: EventView,
    post1: PipelineView,
    post2: PipelineView,
    a1: ActionView,
    a2: ActionView,
)
    requires
        step_spec(pre, event, post1, a1),
        step_spec(pre, event, post2, a2),
    ensures
        post1 == post2,
        a1 == a2,
{
}

} // verus!
