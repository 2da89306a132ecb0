//! Resolving one build artifact per target.
//!
//! In local mode the host's target is built with `cargo`. The decisions are
//! made here, one step at a time: which command the caller runs next, which
//! file it checks for once the commands have succeeded, and what the outcome
//! is. In cross mode every target must come with a pre-built artifact;
//! nothing is built for a foreign platform.

use vstd::prelude::*;
use vstd::string::*;
use crate::platform::{Action, CrossTarget, Profile, Target, target_cross};
use crate::text::{join2, join3};

verus! {

/// The output of a build: the artifact and the target it was built for.
#[derive(Debug)]
pub struct CargoBuildOutput {
    pub path: String,
    pub target: Target,
}

/// Why resolving the build artifacts failed.
#[derive(Debug)]
pub enum CargoBuildError {
    /// `cargo` could not be run.
    Io(std::io::Error),
    /// `cargo` ran and reported a failure.
    Run,
    /// No target was left to package.
    NoValidTargets,
    /// The build reported success but its artifact is not where expected.
    MissingOutput { path: String },
    /// A foreign target was requested without a pre-built artifact.
    UnsupportedCrossBuild,
}

/// The folder under `target` that a profile builds into.
pub open spec fn profile_dir(p: Profile) -> Seq<char> {
    match p {
        Profile::Debug => "debug"@,
        Profile::Release => "release"@,
    }
}

/// The file extension of a native library on a platform.
pub open spec fn lib_extension(t: CrossTarget) -> Seq<char> {
    match t {
        CrossTarget::Windows(_) => "dll"@,
        CrossTarget::Linux(_) => "so"@,
        CrossTarget::MacOS(_) => "dylib"@,
    }
}

/// The file-name prefix of a native library on a platform: `lib` on
/// Unix-like platforms, none on Windows.
pub open spec fn lib_prefix(t: CrossTarget) -> Seq<char> {
    match t {
        CrossTarget::Windows(_) => Seq::empty(),
        CrossTarget::Linux(_) => "lib"@,
        CrossTarget::MacOS(_) => "lib"@,
    }
}

/// Where a local build leaves its artifact:
/// `{work_dir}/target/{profile}/{prefix}{name}.{extension}`.
pub open spec fn artifact_path(
    work_dir: Seq<char>,
    profile: Profile,
    name: Seq<char>,
    t: CrossTarget,
) -> Seq<char> {
    work_dir + "/target/"@ + profile_dir(profile) + "/"@ + lib_prefix(t) + name + "."@
        + lib_extension(t)
}

/// The commands a local build runs, in order: a test run is always followed
/// by a build, since testing alone need not leave the artifact.
pub open spec fn local_commands(action: Action) -> Seq<Action> {
    match action {
        Action::Build => seq![Action::Build],
        Action::Test => seq![Action::Test, Action::Build],
    }
}

impl Profile {
    /// The folder under `target` that this profile builds into.
    pub fn path(&self) -> (r: &'static str)
        ensures
            r@ == profile_dir(*self),
    {
        match *self {
            Profile::Debug => "debug",
            Profile::Release => "release",
        }
    }
}

impl CrossTarget {
    /// The file extension of a native library on this platform.
    pub fn extension(&self) -> (r: &'static str)
        ensures
            r@ == lib_extension(*self),
    {
        match *self {
            CrossTarget::Windows(_) => "dll",
            CrossTarget::Linux(_) => "so",
            CrossTarget::MacOS(_) => "dylib",
        }
    }

    /// The file-name prefix of a native library on this platform, if any.
    pub fn prefix(&self) -> (r: Option<&'static str>)
        ensures
            match r {
                Some(p) => p@ == lib_prefix(*self) && p@.len() > 0,
                None => lib_prefix(*self).len() == 0,
            },
    {
        proof {
            reveal_strlit("lib");
        }
        match *self {
            CrossTarget::Windows(_) => None,
            CrossTarget::Linux(_) => Some("lib"),
            CrossTarget::MacOS(_) => Some("lib"),
        }
    }
}

/// What a local build is asked to do.
#[derive(Debug)]
pub struct CargoLocalBuildArgs {
    pub work_dir: String,
    pub output_name: String,
    pub quiet: bool,
    pub action: Action,
    pub profile: Profile,
}

/// Where the artifact of a local build for `target` is expected.
pub fn output_path(args: &CargoLocalBuildArgs, target: CrossTarget) -> (r: String)
    ensures
        r@ == artifact_path(args.work_dir@, args.profile, args.output_name@, target),
{
    let mut name = match target.prefix() {
        Some(prefix) => join2(prefix, args.output_name.as_str()),
        None => String::from_str(args.output_name.as_str()),
    };
    name.append(".");
    name.append(target.extension());
    let mut r = join3(args.work_dir.as_str(), "/target/", args.profile.path());
    r.append("/");
    r.append(name.as_str());
    proof {
        assert(r@ =~= artifact_path(args.work_dir@, args.profile, args.output_name@, target));
    }
    r
}

/// A `cargo` command for the caller to run.
#[derive(Debug)]
pub struct CargoCommand {
    pub work_dir: String,
    pub action: Action,
    pub profile: Profile,
    pub quiet: bool,
}

/// How a `cargo` command went.
#[derive(Debug)]
pub enum CommandOutcome {
    Succeeded,
    Failed,
    Io(std::io::Error),
}

/// What the caller reports back to a local build.
#[derive(Debug)]
pub enum LocalBuildEvent {
    /// The command of the last `Run` step finished.
    CommandRan(CommandOutcome),
    /// The file of the last `CheckOutput` step was looked for.
    OutputChecked(bool),
}

/// What a local build asks of the caller next.
#[derive(Debug)]
pub enum LocalBuildStep {
    /// Run this command, then report how it went.
    Run(CargoCommand),
    /// Check whether a file exists at this path, then report it.
    CheckOutput(String),
    /// The build is over, with this outcome.
    Done(Result<CargoBuildOutput, CargoBuildError>),
}

/// A local build in progress: the commands run so far all succeeded.
#[derive(Debug)]
pub struct LocalBuild {
    pub args: CargoLocalBuildArgs,
    /// The supported pair of the host, if the host is supported.
    pub local: Option<CrossTarget>,
    /// How many of the build's commands have succeeded.
    pub completed: usize,
}

impl LocalBuild {
    /// The commands this build runs, in order.
    pub open spec fn commands(self) -> Seq<Action> {
        local_commands(self.args.action)
    }

    /// Whether a command is still to run.
    pub open spec fn running(self) -> bool {
        self.completed < self.commands().len()
    }

    /// Whether `s` is the step this build asks for in its present state: the
    /// next command while one is left; then the check for the artifact of the
    /// host's target, or failure where the host is not supported.
    pub open spec fn is_next(self, s: LocalBuildStep) -> bool {
        match s {
            LocalBuildStep::Run(cmd) => self.running() && cmd.work_dir@ == self.args.work_dir@
                && cmd.action == self.commands()[self.completed as int] && cmd.profile
                == self.args.profile && cmd.quiet == self.args.quiet,
            LocalBuildStep::CheckOutput(path) => !self.running() && (self.local matches Some(t)
                && path@ == artifact_path(
                self.args.work_dir@,
                self.args.profile,
                self.args.output_name@,
                t,
            )),
            LocalBuildStep::Done(r) => !self.running() && self.local is None && r matches Err(
                CargoBuildError::NoValidTargets,
            ),
        }
    }

    /// Whether `r` is the outcome once the artifact was looked for: the
    /// artifact for the host's target where it exists, else a missing-output
    /// failure naming the path.
    pub open spec fn is_outcome(self, exists: bool, r: Result<CargoBuildOutput, CargoBuildError>) -> bool {
        self.local matches Some(t) && {
            let path = artifact_path(
                self.args.work_dir@,
                self.args.profile,
                self.args.output_name@,
                t,
            );
            if exists {
                r matches Ok(o) && o.path@ == path && o.target == Target::Cross(t)
            } else {
                r matches Err(CargoBuildError::MissingOutput { path: p }) && p@ == path
            }
        }
    }

    /// The step the build asks for now.
    pub fn next_step(&self) -> (s: LocalBuildStep)
        ensures
            self.is_next(s),
    {
        let n: usize = match self.args.action {
            Action::Build => 1,
            Action::Test => 2,
        };
        if self.completed < n {
            let action = if self.completed == 0 {
                self.args.action
            } else {
                Action::Build
            };
            LocalBuildStep::Run(
                CargoCommand {
                    work_dir: self.args.work_dir.clone(),
                    action,
                    profile: self.args.profile,
                    quiet: self.args.quiet,
                },
            )
        } else {
            match self.local {
                Some(target) => LocalBuildStep::CheckOutput(output_path(&self.args, target)),
                None => LocalBuildStep::Done(Err(CargoBuildError::NoValidTargets)),
            }
        }
    }

    /// Takes in what the caller reports and gives the next step. A command
    /// that failed, or could not be run, ends the build with that failure;
    /// once the artifact was looked for, the build ends with the artifact or
    /// with a missing-output failure. A report that answers no step asked
    /// for changes nothing.
    pub fn resume(&mut self, event: LocalBuildEvent) -> (s: LocalBuildStep)
        ensures
            match event {
                LocalBuildEvent::CommandRan(outcome) => if old(self).running() {
                    match outcome {
                        CommandOutcome::Succeeded => final(self).args == old(self).args
                            && final(self).local == old(self).local && final(self).completed
                            == old(self).completed + 1 && final(self).is_next(s),
                        CommandOutcome::Failed => *final(self) == *old(self) && s matches LocalBuildStep::Done(
                            Err(CargoBuildError::Run),
                        ),
                        CommandOutcome::Io(e) => *final(self) == *old(self) && (s matches LocalBuildStep::Done(
                            Err(CargoBuildError::Io(e2)),
                        ) && e2 == e),
                    }
                } else {
                    *final(self) == *old(self) && old(self).is_next(s)
                },
                LocalBuildEvent::OutputChecked(exists) => if !old(self).running()
                    && old(self).local is Some {
                    *final(self) == *old(self) && (s matches LocalBuildStep::Done(r)
                        && old(self).is_outcome(exists, r))
                } else {
                    *final(self) == *old(self) && old(self).is_next(s)
                },
            },
    {
        let n: usize = match self.args.action {
            Action::Build => 1,
            Action::Test => 2,
        };
        match event {
            LocalBuildEvent::CommandRan(outcome) => {
                if self.completed < n {
                    match outcome {
                        CommandOutcome::Succeeded => {
                            self.completed = self.completed + 1;
                            self.next_step()
                        },
                        CommandOutcome::Failed => LocalBuildStep::Done(Err(CargoBuildError::Run)),
                        CommandOutcome::Io(e) => LocalBuildStep::Done(Err(CargoBuildError::Io(e))),
                    }
                } else {
                    self.next_step()
                }
            },
            LocalBuildEvent::OutputChecked(exists) => {
                if self.completed >= n {
                    match self.local {
                        Some(target) => {
                            let path = output_path(&self.args, target);
                            if exists {
                                LocalBuildStep::Done(
                                    Ok(CargoBuildOutput { path, target: Target::Cross(target) }),
                                )
                            } else {
                                LocalBuildStep::Done(Err(CargoBuildError::MissingOutput { path }))
                            }
                        },
                        None => self.next_step(),
                    }
                } else {
                    self.next_step()
                }
            },
        }
    }
}

/// Starts a local build of the host's target; `local` is the supported pair
/// of the host, if any. The caller then follows `next_step` and `resume`.
pub fn build_local(args: CargoLocalBuildArgs, local: Option<CrossTarget>) -> (b: LocalBuild)
    ensures
        b.args == args,
        b.local == local,
        b.completed == 0,
{
    LocalBuild { args, local, completed: 0 }
}

/// How a target of a cross build is to be had.
#[derive(Debug)]
pub enum CargoCrossTarget {
    /// Build it: never done for a foreign platform.
    Build { action: Action, profile: Profile, output_name: String },
    /// Take the pre-built artifact at `path`; `exists` tells whether a file
    /// is there.
    Path { path: String, exists: bool },
}

/// What a cross build is asked to do: one entry per requested target.
#[derive(Debug)]
pub struct CargoCrossBuildArgs {
    pub work_dir: String,
    pub quiet: bool,
    pub targets: Vec<(CrossTarget, CargoCrossTarget)>,
}

/// Whether a target is asked to be built rather than supplied.
pub open spec fn asks_build(c: CargoCrossTarget) -> bool {
    c is Build
}

/// Whether a target comes with an artifact that exists.
pub open spec fn supplied(c: CargoCrossTarget) -> bool {
    c matches CargoCrossTarget::Path { exists, .. } && exists
}

/// Whether `o` is the build output of a supplied target.
pub open spec fn output_of(entry: (CrossTarget, CargoCrossTarget), o: CargoBuildOutput) -> bool {
    entry.1 matches CargoCrossTarget::Path { path, .. } && o.path@ == path@ && o.target
        == Target::Cross(entry.0)
}

/// Resolves a cross build. Any target without a supplied artifact makes it
/// fail as an unsupported cross build; otherwise the first supplied path
/// where no file exists makes it fail with that path; otherwise it fails
/// where no target was requested, and gives one output per target, in
/// order.
pub fn build_cross(args: CargoCrossBuildArgs) -> (r: Result<Vec<CargoBuildOutput>, CargoBuildError>)
    ensures
        (exists|i: int| 0 <= i < args.targets@.len() && asks_build(#[trigger] args.targets@[i].1))
            <==> r matches Err(CargoBuildError::UnsupportedCrossBuild),
        args.targets@.len() == 0 <==> r matches Err(CargoBuildError::NoValidTargets),
        r is Ok <==> args.targets@.len() > 0 && forall|i: int|
            0 <= i < args.targets@.len() ==> supplied(#[trigger] args.targets@[i].1),
        r matches Ok(v) ==> v@.len() == args.targets@.len() && forall|i: int|
            0 <= i < v@.len() ==> output_of(#[trigger] args.targets@[i], v@[i]),
        r matches Err(CargoBuildError::MissingOutput { path }) ==> exists|k: int|
            0 <= k < args.targets@.len() && (forall|i: int|
                0 <= i < k ==> supplied(#[trigger] args.targets@[i].1)) && (
            #[trigger] args.targets@[k].1 matches CargoCrossTarget::Path { path: p, exists }
                && !exists && p@ == path@),
        r matches Err(e) ==> (e is UnsupportedCrossBuild || e is MissingOutput || e is NoValidTargets),
{
    let n = args.targets.len();
    let mut i: usize = 0;
    while i < n
        invariant
            n == args.targets@.len(),
            i <= n,
            forall|j: int| 0 <= j < i ==> !asks_build(#[trigger] args.targets@[j].1),
        decreases n - i,
    {
        if let CargoCrossTarget::Build { .. } = &args.targets[i].1 {
            return Err(CargoBuildError::UnsupportedCrossBuild);
        }
        i = i + 1;
    }
    let mut builds: Vec<CargoBuildOutput> = Vec::new();
    let mut i: usize = 0;
    while i < n
        invariant
            n == args.targets@.len(),
            i <= n,
            forall|j: int| 0 <= j < n ==> !asks_build(#[trigger] args.targets@[j].1),
            builds@.len() == i,
            forall|j: int| 0 <= j < i ==> supplied(#[trigger] args.targets@[j].1),
            forall|j: int| 0 <= j < i ==> output_of(#[trigger] args.targets@[j], builds@[j]),
        decreases n - i,
    {
        let entry = &args.targets[i];
        match &entry.1 {
            CargoCrossTarget::Path { path, exists } => {
                if !*exists {
                    return Err(CargoBuildError::MissingOutput { path: path.clone() });
                }
                builds.push(CargoBuildOutput { path: path.clone(), target: Target::Cross(entry.0) });
            },
            CargoCrossTarget::Build { .. } => {
                return Err(CargoBuildError::UnsupportedCrossBuild);
            },
        }
        i = i + 1;
    }
    if builds.len() == 0 {
        return Err(CargoBuildError::NoValidTargets);
    }
    Ok(builds)
}

} // verus!
