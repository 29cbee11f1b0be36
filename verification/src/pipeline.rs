//! The install pipeline state machine.
//!
//! One install runs the seven manifest stages in a fixed order, with
//! dependency verification between the declaration stages and the first
//! stage that performs side effects. The machine holds the decisions; a
//! driver performs the outside work each state asks for (compiling the
//! manifest, acquiring and releasing the sandbox, calling a stage function,
//! listing the executables on the search path) and hands the outcome back as
//! an event. A failure in any state skips all remaining stages, and once the
//! sandbox is live every path to a terminal state passes through `Cleanup`,
//! whose action releases the sandbox: restores the working directory to the
//! application directory and deletes the sandbox directory.

use vstd::prelude::*;

use crate::deps::VerifyError;
use crate::deps::VerifyErrorV;
use crate::deps::spec_verify_result;
use crate::deps::verify_dependencies;
use crate::manifest::Stage;

verus! {

/// The states of one install run, in pipeline order. `Done` and `Failed` are
/// terminal.
#[derive(PartialEq, Eq, Structural, Clone, Copy, Debug)]
pub enum PipelineState {
    /// The manifest is being compiled and validated.
    Compile,
    /// The sandbox directory is being acquired.
    AcquireSandbox,
    /// The `version` stage is running.
    Version,
    /// The `conflicts` stage is running.
    Conflicts,
    /// The `bote_dependencies` stage is running.
    BoteDependencies,
    /// The `installed_program_dependencies` stage is running.
    DependencyDeclaration,
    /// The declared dependency specs are being verified against the host.
    DependencyVerification,
    /// The `prepare` stage is running.
    Prepare,
    /// The `download` stage is running.
    Download,
    /// The `install` stage is running.
    Install,
    /// The sandbox is being released.
    Cleanup,
    /// The install succeeded.
    Done,
    /// The install failed; the run's failure says why.
    Failed,
}

/// What the driver must do in a state and report back as an event.
#[derive(PartialEq, Eq, Structural, Clone, Copy, Debug)]
pub enum PipelineAction {
    /// Compile the manifest and check its stage functions.
    CompileManifest,
    /// Create the sandbox directory and bind the working directory to it.
    AcquireSandbox,
    /// Call the given stage function of the manifest.
    CallStage(Stage),
    /// List the executable names resolvable on the host's search path.
    ListExecutables,
    /// Restore the working directory to the application directory and delete
    /// the sandbox directory.
    ReleaseSandbox,
    /// The run is over; report the outcome.
    Report,
}

/// Why an install run failed.
#[derive(Debug)]
pub enum PipelineFailure {
    /// The manifest did not compile or misses a stage function.
    CompileFailed { message: String },
    /// The sandbox directory could not be acquired.
    SandboxFailed { message: String },
    /// A stage function raised an error or returned a malformed value.
    StageFailed { stage: Stage, message: String },
    /// No installed executable matches this dependency spec.
    MissingDependency { pattern: String },
    /// A dependency spec is not a valid regular expression.
    InvalidDependencyPattern { pattern: String },
    /// The sandbox could not be released after an otherwise successful run.
    ReleaseFailed { message: String },
}

/// The mathematical model of a [`PipelineFailure`].
pub enum PipelineFailureV {
    CompileFailed { message: Seq<char> },
    SandboxFailed { message: Seq<char> },
    StageFailed { stage: Stage, message: Seq<char> },
    MissingDependency { pattern: Seq<char> },
    InvalidDependencyPattern { pattern: Seq<char> },
    ReleaseFailed { message: Seq<char> },
}

impl View for PipelineFailure {
    type V = PipelineFailureV;

    open spec fn view(&self) -> PipelineFailureV {
        match self {
            PipelineFailure::CompileFailed { message } => PipelineFailureV::CompileFailed {
                message: message@,
            },
            PipelineFailure::SandboxFailed { message } => PipelineFailureV::SandboxFailed {
                message: message@,
            },
            PipelineFailure::StageFailed { stage, message } => PipelineFailureV::StageFailed {
                stage: *stage,
                message: message@,
            },
            PipelineFailure::MissingDependency { pattern } => PipelineFailureV::MissingDependency {
                pattern: pattern@,
            },
            PipelineFailure::InvalidDependencyPattern { pattern } => (
            PipelineFailureV::InvalidDependencyPattern { pattern: pattern@ }),
            PipelineFailure::ReleaseFailed { message } => PipelineFailureV::ReleaseFailed {
                message: message@,
            },
        }
    }
}

/// The user-visible message of a [`PipelineFailure`]: the specific missing
/// dependency, or the originating error's own message.
pub open spec fn spec_failure_message(f: PipelineFailureV) -> Seq<char> {
    match f {
        PipelineFailureV::CompileFailed { message } => "failed to compile the build manifest: "@
            + message,
        PipelineFailureV::SandboxFailed { message } => "failed to acquire the sandbox directory: "@
            + message,
        PipelineFailureV::StageFailed { stage, message } => "the "@ + crate::manifest::spec_stage_name(
            stage,
        ) + " stage failed: "@ + message,
        PipelineFailureV::MissingDependency { pattern } => pattern + " does not exist"@,
        PipelineFailureV::InvalidDependencyPattern { pattern } => "invalid dependency pattern: "@
            + pattern,
        PipelineFailureV::ReleaseFailed { message } => "failed to release the sandbox directory: "@
            + message,
    }
}

impl PipelineFailure {
    /// Renders this failure as the message reported to the user.
    pub fn message(&self) -> (r: String)
        ensures
            r@ == spec_failure_message(self@),
    {
        match self {
            PipelineFailure::CompileFailed { message } => String::from_str(
                "failed to compile the build manifest: ",
            ).concat(message.as_str()),
            PipelineFailure::SandboxFailed { message } => String::from_str(
                "failed to acquire the sandbox directory: ",
            ).concat(message.as_str()),
            PipelineFailure::StageFailed { stage, message } => String::from_str("the ").concat(
                stage.name().as_str(),
            ).concat(" stage failed: ").concat(message.as_str()),
            PipelineFailure::MissingDependency { pattern } => String::from_str(
                pattern.as_str(),
            ).concat(" does not exist"),
            PipelineFailure::InvalidDependencyPattern { pattern } => String::from_str(
                "invalid dependency pattern: ",
            ).concat(pattern.as_str()),
            PipelineFailure::ReleaseFailed { message } => String::from_str(
                "failed to release the sandbox directory: ",
            ).concat(message.as_str()),
        }
    }
}

/// What the outside work of a state reported back.
pub enum PipelineEvent {
    /// The manifest compiled and defines all stage functions.
    CompileOk,
    /// The manifest failed to compile or misses a stage function.
    CompileFailed { message: String },
    /// The sandbox directory is live and the working directory points at it.
    SandboxReady,
    /// The sandbox directory could not be acquired.
    SandboxFailed { message: String },
    /// The `version` stage returned the package version.
    VersionReturned { version: String },
    /// A list-valued stage returned its list.
    ListReturned { items: Vec<String> },
    /// A side-effecting stage returned without error.
    StageDone,
    /// A stage raised an error or returned a malformed value.
    StageFailed { message: String },
    /// The executable names resolvable on the host's search path.
    Executables { names: Vec<String> },
    /// The sandbox was released.
    Released,
    /// Releasing the sandbox failed.
    ReleaseFailed { message: String },
}

/// The mathematical model of a [`PipelineEvent`].
pub enum PipelineEventV {
    CompileOk,
    CompileFailed { message: Seq<char> },
    SandboxReady,
    SandboxFailed { message: Seq<char> },
    VersionReturned { version: Seq<char> },
    ListReturned { items: Seq<Seq<char>> },
    StageDone,
    StageFailed { message: Seq<char> },
    Executables { names: Seq<Seq<char>> },
    Released,
    ReleaseFailed { message: Seq<char> },
}

impl View for PipelineEvent {
    type V = PipelineEventV;

    open spec fn view(&self) -> PipelineEventV {
        match self {
            PipelineEvent::CompileOk => PipelineEventV::CompileOk,
            PipelineEvent::CompileFailed { message } => PipelineEventV::CompileFailed {
                message: message@,
            },
            PipelineEvent::SandboxReady => PipelineEventV::SandboxReady,
            PipelineEvent::SandboxFailed { message } => PipelineEventV::SandboxFailed {
                message: message@,
            },
            PipelineEvent::VersionReturned { version } => PipelineEventV::VersionReturned {
                version: version@,
            },
            PipelineEvent::ListReturned { items } => PipelineEventV::ListReturned {
                items: items.deep_view(),
            },
            PipelineEvent::StageDone => PipelineEventV::StageDone,
            PipelineEvent::StageFailed { message } => PipelineEventV::StageFailed {
                message: message@,
            },
            PipelineEvent::Executables { names } => PipelineEventV::Executables {
                names: names.deep_view(),
            },
            PipelineEvent::Released => PipelineEventV::Released,
            PipelineEvent::ReleaseFailed { message } => PipelineEventV::ReleaseFailed {
                message: message@,
            },
        }
    }
}

/// One install run: its control state and what the manifest declared so far.
pub struct PipelineRun {
    pub state: PipelineState,
    pub version: Option<String>,
    pub conflicts: Vec<String>,
    pub bote_dependencies: Vec<String>,
    pub dependency_specs: Vec<String>,
    pub failure: Option<PipelineFailure>,
}

/// The mathematical model of a [`PipelineRun`].
pub struct RunV {
    pub state: PipelineState,
    pub version: Option<Seq<char>>,
    pub conflicts: Seq<Seq<char>>,
    pub bote_dependencies: Seq<Seq<char>>,
    pub dependency_specs: Seq<Seq<char>>,
    pub failure: Option<PipelineFailureV>,
}

impl View for PipelineRun {
    type V = RunV;

    open spec fn view(&self) -> RunV {
        RunV {
            state: self.state,
            version: match self.version {
                Option::Some(v) => Option::Some(v@),
                Option::None => Option::None,
            },
            conflicts: self.conflicts.deep_view(),
            bote_dependencies: self.bote_dependencies.deep_view(),
            dependency_specs: self.dependency_specs.deep_view(),
            failure: match self.failure {
                Option::Some(f) => Option::Some(f@),
                Option::None => Option::None,
            },
        }
    }
}

/// Whether a state is terminal.
pub open spec fn spec_terminal(s: PipelineState) -> bool {
    s == PipelineState::Done || s == PipelineState::Failed
}

/// Whether the sandbox is live in a state: acquired and not yet released.
pub open spec fn spec_sandbox_live(s: PipelineState) -> bool {
    match s {
        PipelineState::Version => true,
        PipelineState::Conflicts => true,
        PipelineState::BoteDependencies => true,
        PipelineState::DependencyDeclaration => true,
        PipelineState::DependencyVerification => true,
        PipelineState::Prepare => true,
        PipelineState::Download => true,
        PipelineState::Install => true,
        PipelineState::Cleanup => true,
        _ => false,
    }
}

/// The outside work a state asks its driver for.
pub open spec fn spec_action_of(s: PipelineState) -> PipelineAction {
    match s {
        PipelineState::Compile => PipelineAction::CompileManifest,
        PipelineState::AcquireSandbox => PipelineAction::AcquireSandbox,
        PipelineState::Version => PipelineAction::CallStage(Stage::Version),
        PipelineState::Conflicts => PipelineAction::CallStage(Stage::Conflicts),
        PipelineState::BoteDependencies => PipelineAction::CallStage(Stage::BoteDependencies),
        PipelineState::DependencyDeclaration => PipelineAction::CallStage(
            Stage::InstalledProgramDependencies,
        ),
        PipelineState::DependencyVerification => PipelineAction::ListExecutables,
        PipelineState::Prepare => PipelineAction::CallStage(Stage::Prepare),
        PipelineState::Download => PipelineAction::CallStage(Stage::Download),
        PipelineState::Install => PipelineAction::CallStage(Stage::Install),
        PipelineState::Cleanup => PipelineAction::ReleaseSandbox,
        PipelineState::Done => PipelineAction::Report,
        PipelineState::Failed => PipelineAction::Report,
    }
}

/// Whether an event can answer the outside work of a state. No event fits a
/// terminal state.
pub open spec fn spec_event_fits(s: PipelineState, e: PipelineEventV) -> bool {
    match (s, e) {
        (PipelineState::Compile, PipelineEventV::CompileOk) => true,
        (PipelineState::Compile, PipelineEventV::CompileFailed { .. }) => true,
        (PipelineState::AcquireSandbox, PipelineEventV::SandboxReady) => true,
        (PipelineState::AcquireSandbox, PipelineEventV::SandboxFailed { .. }) => true,
        (PipelineState::Version, PipelineEventV::VersionReturned { .. }) => true,
        (PipelineState::Version, PipelineEventV::StageFailed { .. }) => true,
        (PipelineState::Conflicts, PipelineEventV::ListReturned { .. }) => true,
        (PipelineState::Conflicts, PipelineEventV::StageFailed { .. }) => true,
        (PipelineState::BoteDependencies, PipelineEventV::ListReturned { .. }) => true,
        (PipelineState::BoteDependencies, PipelineEventV::StageFailed { .. }) => true,
        (PipelineState::DependencyDeclaration, PipelineEventV::ListReturned { .. }) => true,
        (PipelineState::DependencyDeclaration, PipelineEventV::StageFailed { .. }) => true,
        (PipelineState::DependencyVerification, PipelineEventV::Executables { .. }) => true,
        (PipelineState::Prepare, PipelineEventV::StageDone) => true,
        (PipelineState::Prepare, PipelineEventV::StageFailed { .. }) => true,
        (PipelineState::Download, PipelineEventV::StageDone) => true,
        (PipelineState::Download, PipelineEventV::StageFailed { .. }) => true,
        (PipelineState::Install, PipelineEventV::StageDone) => true,
        (PipelineState::Install, PipelineEventV::StageFailed { .. }) => true,
        (PipelineState::Cleanup, PipelineEventV::Released) => true,
        (PipelineState::Cleanup, PipelineEventV::ReleaseFailed { .. }) => true,
        _ => false,
    }
}

/// The failure a dependency-verification outcome turns into.
pub open spec fn spec_verify_failure(f: VerifyErrorV) -> PipelineFailureV {
    match f {
        VerifyErrorV::InvalidPattern { pattern } => PipelineFailureV::InvalidDependencyPattern {
            pattern,
        },
        VerifyErrorV::Missing { pattern } => PipelineFailureV::MissingDependency { pattern },
    }
}

/// The transition function of the install pipeline: from a state and the
/// event answering its outside work to the next state. Defined for fitting
/// events.
pub open spec fn spec_step(v: RunV, e: PipelineEventV) -> RunV {
    match (v.state, e) {
        (PipelineState::Compile, PipelineEventV::CompileOk) => RunV {
            state: PipelineState::AcquireSandbox,
            ..v
        },
        (PipelineState::Compile, PipelineEventV::CompileFailed { message }) => RunV {
            state: PipelineState::Failed,
            failure: Option::Some(PipelineFailureV::CompileFailed { message }),
            ..v
        },
        (PipelineState::AcquireSandbox, PipelineEventV::SandboxReady) => RunV {
            state: PipelineState::Version,
            ..v
        },
        (PipelineState::AcquireSandbox, PipelineEventV::SandboxFailed { message }) => RunV {
            state: PipelineState::Failed,
            failure: Option::Some(PipelineFailureV::SandboxFailed { message }),
            ..v
        },
        (PipelineState::Version, PipelineEventV::VersionReturned { version }) => RunV {
            state: PipelineState::Conflicts,
            version: Option::Some(version),
            ..v
        },
        (PipelineState::Version, PipelineEventV::StageFailed { message }) => RunV {
            state: PipelineState::Cleanup,
            failure: Option::Some(
                PipelineFailureV::StageFailed { stage: Stage::Version, message },
            ),
            ..v
        },
        (PipelineState::Conflicts, PipelineEventV::ListReturned { items }) => RunV {
            state: PipelineState::BoteDependencies,
            conflicts: items,
            ..v
        },
        (PipelineState::Conflicts, PipelineEventV::StageFailed { message }) => RunV {
            state: PipelineState::Cleanup,
            failure: Option::Some(
                PipelineFailureV::StageFailed { stage: Stage::Conflicts, message },
            ),
            ..v
        },
        (PipelineState::BoteDependencies, PipelineEventV::ListReturned { items }) => RunV {
            state: PipelineState::DependencyDeclaration,
            bote_dependencies: items,
            ..v
        },
        (PipelineState::BoteDependencies, PipelineEventV::StageFailed { message }) => RunV {
            state: PipelineState::Cleanup,
            failure: Option::Some(
                PipelineFailureV::StageFailed { stage: Stage::BoteDependencies, message },
            ),
            ..v
        },
        (PipelineState::DependencyDeclaration, PipelineEventV::ListReturned { items }) => RunV {
            state: PipelineState::DependencyVerification,
            dependency_specs: items,
            ..v
        },
        (PipelineState::DependencyDeclaration, PipelineEventV::StageFailed { message }) => RunV {
            state: PipelineState::Cleanup,
            failure: Option::Some(
                PipelineFailureV::StageFailed {
                    stage: Stage::InstalledProgramDependencies,
                    message,
                },
            ),
            ..v
        },
        (PipelineState::DependencyVerification, PipelineEventV::Executables { names }) => match
        spec_verify_result(v.dependency_specs, names) {
            Option::None => RunV { state: PipelineState::Prepare, ..v },
            Option::Some(f) => RunV {
                state: PipelineState::Cleanup,
                failure: Option::Some(spec_verify_failure(f)),
                ..v
            },
        },
        (PipelineState::Prepare, PipelineEventV::StageDone) => RunV {
            state: PipelineState::Download,
            ..v
        },
        (PipelineState::Prepare, PipelineEventV::StageFailed { message }) => RunV {
            state: PipelineState::Cleanup,
            failure: Option::Some(
                PipelineFailureV::StageFailed { stage: Stage::Prepare, message },
            ),
            ..v
        },
        (PipelineState::Download, PipelineEventV::StageDone) => RunV {
            state: PipelineState::Install,
            ..v
        },
        (PipelineState::Download, PipelineEventV::StageFailed { message }) => RunV {
            state: PipelineState::Cleanup,
            failure: Option::Some(
                PipelineFailureV::StageFailed { stage: Stage::Download, message },
            ),
            ..v
        },
        (PipelineState::Install, PipelineEventV::StageDone) => RunV {
            state: PipelineState::Cleanup,
            ..v
        },
        (PipelineState::Install, PipelineEventV::StageFailed { message }) => RunV {
            state: PipelineState::Cleanup,
            failure: Option::Some(
                PipelineFailureV::StageFailed { stage: Stage::Install, message },
            ),
            ..v
        },
        (PipelineState::Cleanup, PipelineEventV::Released) => RunV {
            state: if v.failure is None {
                PipelineState::Done
            } else {
                PipelineState::Failed
            },
            ..v
        },
        (PipelineState::Cleanup, PipelineEventV::ReleaseFailed { message }) => RunV {
            state: PipelineState::Failed,
            failure: if v.failure is None {
                Option::Some(PipelineFailureV::ReleaseFailed { message })
            } else {
                v.failure
            },
            ..v
        },
        _ => v,
    }
}

/// The run an install starts in.
pub open spec fn spec_initial() -> RunV {
    RunV {
        state: PipelineState::Compile,
        version: Option::None,
        conflicts: Seq::empty(),
        bote_dependencies: Seq::empty(),
        dependency_specs: Seq::empty(),
        failure: Option::None,
    }
}

impl PipelineRun {
    /// Starts a new install run, about to compile the manifest.
    pub fn new() -> (r: PipelineRun)
        ensures
            r@ == spec_initial(),
    {
        let r = PipelineRun {
            state: PipelineState::Compile,
            version: None,
            conflicts: Vec::new(),
            bote_dependencies: Vec::new(),
            dependency_specs: Vec::new(),
            failure: None,
        };
        proof {
            assert(r.conflicts.deep_view() =~= Seq::<Seq<char>>::empty());
            assert(r.bote_dependencies.deep_view() =~= Seq::<Seq<char>>::empty());
            assert(r.dependency_specs.deep_view() =~= Seq::<Seq<char>>::empty());
        }
        r
    }

    /// The outside work the driver must perform in the current state.
    pub fn next_action(&self) -> (a: PipelineAction)
        ensures
            a == spec_action_of(self@.state),
    {
        match self.state {
            PipelineState::Compile => PipelineAction::CompileManifest,
            PipelineState::AcquireSandbox => PipelineAction::AcquireSandbox,
            PipelineState::Version => PipelineAction::CallStage(Stage::Version),
            PipelineState::Conflicts => PipelineAction::CallStage(Stage::Conflicts),
            PipelineState::BoteDependencies => PipelineAction::CallStage(Stage::BoteDependencies),
            PipelineState::DependencyDeclaration => PipelineAction::CallStage(
                Stage::InstalledProgramDependencies,
            ),
            PipelineState::DependencyVerification => PipelineAction::ListExecutables,
            PipelineState::Prepare => PipelineAction::CallStage(Stage::Prepare),
            PipelineState::Download => PipelineAction::CallStage(Stage::Download),
            PipelineState::Install => PipelineAction::CallStage(Stage::Install),
            PipelineState::Cleanup => PipelineAction::ReleaseSandbox,
            PipelineState::Done => PipelineAction::Report,
            PipelineState::Failed => PipelineAction::Report,
        }
    }

    /// Feeds the outcome of the current state's outside work into the
    /// machine and returns the next state's action. The dependency
    /// verification state decides here, by checking every declared spec
    /// against the reported executable names.
    pub fn step(&mut self, event: PipelineEvent) -> (a: PipelineAction)
        requires
            spec_event_fits(old(self)@.state, event@),
        ensures
            final(self)@ == spec_step(old(self)@, event@),
            a == spec_action_of(final(self)@.state),
    {
        match event {
            PipelineEvent::CompileOk => {
                self.state = PipelineState::AcquireSandbox;
            },
            PipelineEvent::CompileFailed { message } => {
                self.state = PipelineState::Failed;
                self.failure = Some(PipelineFailure::CompileFailed { message });
            },
            PipelineEvent::SandboxReady => {
                self.state = PipelineState::Version;
            },
            PipelineEvent::SandboxFailed { message } => {
                self.state = PipelineState::Failed;
                self.failure = Some(PipelineFailure::SandboxFailed { message });
            },
            PipelineEvent::VersionReturned { version } => {
                self.state = PipelineState::Conflicts;
                self.version = Some(version);
            },
            PipelineEvent::ListReturned { items } => {
                match self.state {
                    PipelineState::Conflicts => {
                        self.state = PipelineState::BoteDependencies;
                        self.conflicts = items;
                    },
                    PipelineState::BoteDependencies => {
                        self.state = PipelineState::DependencyDeclaration;
                        self.bote_dependencies = items;
                    },
                    _ => {
                        self.state = PipelineState::DependencyVerification;
                        self.dependency_specs = items;
                    },
                }
            },
            PipelineEvent::StageDone => {
                match self.state {
                    PipelineState::Prepare => {
                        self.state = PipelineState::Download;
                    },
                    PipelineState::Download => {
                        self.state = PipelineState::Install;
                    },
                    _ => {
                        self.state = PipelineState::Cleanup;
                    },
                }
            },
            PipelineEvent::StageFailed { message } => {
                let stage = match self.state {
                    PipelineState::Version => Stage::Version,
                    PipelineState::Conflicts => Stage::Conflicts,
                    PipelineState::BoteDependencies => Stage::BoteDependencies,
                    PipelineState::DependencyDeclaration => Stage::InstalledProgramDependencies,
                    PipelineState::Prepare => Stage::Prepare,
                    PipelineState::Download => Stage::Download,
                    _ => Stage::Install,
                };
                self.state = PipelineState::Cleanup;
                self.failure = Some(PipelineFailure::StageFailed { stage, message });
            },
            PipelineEvent::Executables { names } => {
                match verify_dependencies(&self.dependency_specs, &names) {
                    Ok(()) => {
                        self.state = PipelineState::Prepare;
                    },
                    Err(VerifyError::InvalidPattern { pattern }) => {
                        self.state = PipelineState::Cleanup;
                        self.failure = Some(
                            PipelineFailure::InvalidDependencyPattern { pattern },
                        );
                    },
                    Err(VerifyError::Missing { pattern }) => {
                        self.state = PipelineState::Cleanup;
                        self.failure = Some(PipelineFailure::MissingDependency { pattern });
                    },
                }
            },
            PipelineEvent::Released => {
                self.state = match self.failure {
                    Option::None => PipelineState::Done,
                    Option::Some(_) => PipelineState::Failed,
                };
            },
            PipelineEvent::ReleaseFailed { message } => {
                if self.failure.is_none() {
                    self.failure = Some(PipelineFailure::ReleaseFailed { message });
                }
                self.state = PipelineState::Failed;
            },
        }
        self.next_action()
    }
}

/// The run after feeding a sequence of events, stopping at the first event
/// that does not fit (no event fits a terminal state).
pub open spec fn spec_run(v: RunV, evs: Seq<PipelineEventV>) -> RunV
    decreases evs.len(),
{
    if evs.len() == 0 {
        v
    } else if !spec_event_fits(v.state, evs[0]) {
        v
    } else {
        spec_run(spec_step(v, evs[0]), evs.drop_first())
    }
}

/// The actions a run hands its driver while feeding a sequence of events:
/// one per step taken, each the action of the state just entered.
pub open spec fn spec_run_actions(v: RunV, evs: Seq<PipelineEventV>) -> Seq<PipelineAction>
    decreases evs.len(),
{
    if evs.len() == 0 {
        Seq::empty()
    } else if !spec_event_fits(v.state, evs[0]) {
        Seq::empty()
    } else {
        seq![spec_action_of(spec_step(v, evs[0]).state)] + spec_run_actions(
            spec_step(v, evs[0]),
            evs.drop_first(),
        )
    }
}

/// Each state is strictly later in pipeline order than the one before it, so
/// no state — and no stage call — can ever repeat within one run.
pub open spec fn spec_rank(s: PipelineState) -> nat {
    match s {
        PipelineState::Compile => 0,
        PipelineState::AcquireSandbox => 1,
        PipelineState::Version => 2,
        PipelineState::Conflicts => 3,
        PipelineState::BoteDependencies => 4,
        PipelineState::DependencyDeclaration => 5,
        PipelineState::DependencyVerification => 6,
        PipelineState::Prepare => 7,
        PipelineState::Download => 8,
        PipelineState::Install => 9,
        PipelineState::Cleanup => 10,
        PipelineState::Done => 11,
        PipelineState::Failed => 12,
    }
}

/// Every transition moves strictly forward in pipeline order: no state is
/// entered twice, so each stage is invoked at most once per run.
pub proof fn lemma_step_moves_forward(v: RunV, e: PipelineEventV)
    requires
        spec_event_fits(v.state, e),
    ensures
        spec_rank(spec_step(v, e).state) > spec_rank(v.state),
{
}

/// The pipeline reaches `Done` only from a `Cleanup` state without a
/// recorded failure, answered by a successful release: success is reported
/// only after the sandbox was released.
pub proof fn lemma_done_needs_clean_release(v: RunV, e: PipelineEventV)
    requires
        spec_event_fits(v.state, e),
    ensures
        spec_step(v, e).state == PipelineState::Done ==> (v.state == PipelineState::Cleanup
            && v.failure is None && e is Released),
{
}

/// A terminal state is reached only from `Cleanup` — after the release of
/// the sandbox — or from the two states before any sandbox exists.
pub proof fn lemma_terminal_needs_release_or_no_sandbox(v: RunV, e: PipelineEventV)
    requires
        spec_event_fits(v.state, e),
    ensures
        spec_terminal(spec_step(v, e).state) ==> (v.state == PipelineState::Cleanup || v.state
            == PipelineState::Compile || v.state == PipelineState::AcquireSandbox),
{
}

/// While the sandbox is live and not yet being released, every transition
/// keeps it live: the machine can only leave the live states through
/// `Cleanup`.
pub proof fn lemma_sandbox_stays_live(v: RunV, e: PipelineEventV)
    requires
        spec_event_fits(v.state, e),
        spec_sandbox_live(v.state),
        v.state != PipelineState::Cleanup,
    ensures
        spec_sandbox_live(spec_step(v, e).state),
        !spec_terminal(spec_step(v, e).state),
{
}

/// The `prepare` stage is entered only from dependency verification, on an
/// executable listing against which every declared dependency spec is
/// satisfied.
pub proof fn lemma_prepare_needs_verification(v: RunV, e: PipelineEventV)
    requires
        spec_event_fits(v.state, e),
    ensures
        spec_step(v, e).state == PipelineState::Prepare ==> ({
            &&& v.state == PipelineState::DependencyVerification
            &&& e matches PipelineEventV::Executables { names } && spec_verify_result(
                v.dependency_specs,
                names,
            ) is None
        }),
{
}

/// When any declared dependency spec fails against the host's executables,
/// dependency verification fails the whole run: the machine moves to
/// `Cleanup` carrying the failure of the first bad spec, and its next action
/// releases the sandbox rather than calling `prepare`.
pub proof fn lemma_failed_verification_stops_pipeline(v: RunV, names: Seq<Seq<char>>)
    requires
        v.state == PipelineState::DependencyVerification,
        spec_verify_result(v.dependency_specs, names) is Some,
    ensures
        ({
            let next = spec_step(v, PipelineEventV::Executables { names });
            &&& next.state == PipelineState::Cleanup
            &&& next.failure == Option::Some(
                spec_verify_failure(spec_verify_result(v.dependency_specs, names)->0),
            )
            &&& spec_action_of(next.state) == PipelineAction::ReleaseSandbox
        }),
{
}

/// From a terminal state a run takes no step: the machine stays put and
/// hands its driver no further action.
pub proof fn lemma_terminal_run_stalls(v: RunV, evs: Seq<PipelineEventV>)
    requires
        spec_terminal(v.state),
    ensures
        spec_run(v, evs) == v,
        spec_run_actions(v, evs) =~= Seq::<PipelineAction>::empty(),
{
    if evs.len() != 0 {
        assert(!spec_event_fits(v.state, evs[0]));
    }
}

/// Once the sandbox is live, no run terminates without the release action:
/// every path to `Done` or `Failed` either starts at `Cleanup` — whose own
/// action is the release — or hands the driver `ReleaseSandbox` along the
/// way.
pub proof fn lemma_live_sandbox_released_before_terminal(v: RunV, evs: Seq<PipelineEventV>)
    requires
        spec_sandbox_live(v.state),
    ensures
        spec_terminal(spec_run(v, evs).state) ==> (v.state == PipelineState::Cleanup
            || spec_run_actions(v, evs).contains(PipelineAction::ReleaseSandbox)),
    decreases evs.len(),
{
    if evs.len() == 0 {
    } else if !spec_event_fits(v.state, evs[0]) {
    } else {
        let v1 = spec_step(v, evs[0]);
        let rest = evs.drop_first();
        let acts = spec_run_actions(v, evs);
        if spec_terminal(spec_run(v, evs).state) {
            if spec_terminal(v1.state) {
                lemma_terminal_needs_release_or_no_sandbox(v, evs[0]);
            } else {
                if v.state == PipelineState::Cleanup {
                    assert(spec_terminal(v1.state));
                } else {
                    lemma_sandbox_stays_live(v, evs[0]);
                    lemma_live_sandbox_released_before_terminal(v1, rest);
                    if v1.state == PipelineState::Cleanup {
                        assert(acts[0] == PipelineAction::ReleaseSandbox);
                        assert(acts.contains(PipelineAction::ReleaseSandbox));
                    } else {
                        let tail = spec_run_actions(v1, rest);
                        let i = choose|i: int|
                            0 <= i < tail.len() && tail[i] == PipelineAction::ReleaseSandbox;
                        assert(acts[i + 1] == PipelineAction::ReleaseSandbox);
                        assert(acts.contains(PipelineAction::ReleaseSandbox));
                    }
                }
            }
        }
    }
}

/// Every action a run emits belongs to a state strictly later in pipeline
/// order than where the run started.
pub proof fn lemma_actions_come_from_later_states(
    v: RunV,
    evs: Seq<PipelineEventV>,
    a: PipelineAction,
)
    requires
        spec_run_actions(v, evs).contains(a),
    ensures
        exists|s: PipelineState| spec_action_of(s) == a && spec_rank(s) > spec_rank(v.state),
    decreases evs.len(),
{
    let acts = spec_run_actions(v, evs);
    let v1 = spec_step(v, evs[0]);
    let rest = evs.drop_first();
    let i = choose|i: int| 0 <= i < acts.len() && acts[i] == a;
    if i == 0 {
        lemma_step_moves_forward(v, evs[0]);
        assert(spec_action_of(v1.state) == a && spec_rank(v1.state) > spec_rank(v.state));
    } else {
        assert(spec_run_actions(v1, rest)[i - 1] == a);
        assert(spec_run_actions(v1, rest).contains(a));
        lemma_actions_come_from_later_states(v1, rest, a);
        lemma_step_moves_forward(v, evs[0]);
        let s = choose|s: PipelineState|
            spec_action_of(s) == a && spec_rank(s) > spec_rank(v1.state);
        assert(spec_action_of(s) == a && spec_rank(s) > spec_rank(v.state));
    }
}

/// After dependency verification fails, no later step of the same run calls
/// `prepare`, `download` or `install`: nothing is downloaded or installed
/// when a dependency is missing or its pattern invalid.
pub proof fn lemma_failed_verification_never_installs(
    v: RunV,
    names: Seq<Seq<char>>,
    rest: Seq<PipelineEventV>,
)
    requires
        v.state == PipelineState::DependencyVerification,
        spec_verify_result(v.dependency_specs, names) is Some,
    ensures
        ({
            let evs = seq![(PipelineEventV::Executables { names })] + rest;
            &&& !spec_run_actions(v, evs).contains(PipelineAction::CallStage(Stage::Prepare))
            &&& !spec_run_actions(v, evs).contains(PipelineAction::CallStage(Stage::Download))
            &&& !spec_run_actions(v, evs).contains(PipelineAction::CallStage(Stage::Install))
        }),
{
    let e0 = PipelineEventV::Executables { names };
    let evs = seq![e0] + rest;
    let v1 = spec_step(v, e0);
    lemma_failed_verification_stops_pipeline(v, names);
    assert(evs[0] == e0);
    assert(evs.drop_first() =~= rest);
    let acts = spec_run_actions(v, evs);
    let tail = spec_run_actions(v1, rest);
    assert(acts =~= seq![spec_action_of(v1.state)] + tail);
    assert forall|st: Stage| !acts.contains(PipelineAction::CallStage(st)) by {
        if acts.contains(PipelineAction::CallStage(st)) {
            let i = choose|i: int|
                0 <= i < acts.len() && acts[i] == PipelineAction::CallStage(st);
            assert(i != 0);
            assert(tail[i - 1] == PipelineAction::CallStage(st));
            assert(tail.contains(PipelineAction::CallStage(st)));
            lemma_actions_come_from_later_states(v1, rest, PipelineAction::CallStage(st));
            let s = choose|s: PipelineState|
                spec_action_of(s) == PipelineAction::CallStage(st) && spec_rank(s) > spec_rank(
                    v1.state,
                );
            assert(spec_rank(s) > 10);
            assert(false);
        }
    }
}

/// The state whose outside work is calling the given stage.
pub open spec fn spec_stage_state(st: Stage) -> PipelineState {
    match st {
        Stage::Version => PipelineState::Version,
        Stage::Conflicts => PipelineState::Conflicts,
        Stage::BoteDependencies => PipelineState::BoteDependencies,
        Stage::InstalledProgramDependencies => PipelineState::DependencyDeclaration,
        Stage::Prepare => PipelineState::Prepare,
        Stage::Download => PipelineState::Download,
        Stage::Install => PipelineState::Install,
    }
}

/// How many times an action occurs in a run's action sequence.
pub open spec fn spec_count_actions(acts: Seq<PipelineAction>, a: PipelineAction) -> nat
    decreases acts.len(),
{
    if acts.len() == 0 {
        0
    } else {
        (if acts[0] == a {
            1nat
        } else {
            0nat
        }) + spec_count_actions(acts.drop_first(), a)
    }
}

/// An action that only one state emits occurs at most once in any run, and
/// never in a run starting at or past that state: states move strictly
/// forward, so no state is entered twice.
proof fn lemma_unique_action_count(
    v: RunV,
    evs: Seq<PipelineEventV>,
    a: PipelineAction,
    s: PipelineState,
)
    requires
        forall|t: PipelineState| spec_action_of(t) == a <==> t == s,
    ensures
        spec_count_actions(spec_run_actions(v, evs), a) <= 1,
        spec_rank(s) <= spec_rank(v.state) ==> spec_count_actions(spec_run_actions(v, evs), a)
            == 0,
    decreases evs.len(),
{
    let acts = spec_run_actions(v, evs);
    if evs.len() == 0 || !spec_event_fits(v.state, evs[0]) {
    } else {
        let v1 = spec_step(v, evs[0]);
        let rest = evs.drop_first();
        let tail = spec_run_actions(v1, rest);
        lemma_step_moves_forward(v, evs[0]);
        lemma_unique_action_count(v1, rest, a, s);
        assert(acts.drop_first() =~= tail);
        if spec_action_of(v1.state) == a {
            assert(v1.state == s);
            assert(spec_count_actions(tail, a) == 0);
        }
    }
}

/// Each stage is invoked at most once per pipeline run: however a run goes,
/// its action sequence asks for any one stage's call at most one time.
pub proof fn lemma_each_stage_called_at_most_once(evs: Seq<PipelineEventV>, st: Stage)
    ensures
        spec_count_actions(
            spec_run_actions(spec_initial(), evs),
            PipelineAction::CallStage(st),
        ) <= 1,
{
    lemma_unique_action_count(spec_initial(), evs, PipelineAction::CallStage(st), spec_stage_state(st));
}

/// The sandbox is released at most once per run; together with the law that
/// no run with a live sandbox terminates without the release action, it is
/// released exactly once on every exit path.
pub proof fn lemma_sandbox_released_at_most_once(evs: Seq<PipelineEventV>)
    ensures
        spec_count_actions(
            spec_run_actions(spec_initial(), evs),
            PipelineAction::ReleaseSandbox,
        ) <= 1,
{
    lemma_unique_action_count(
        spec_initial(),
        evs,
        PipelineAction::ReleaseSandbox,
        PipelineState::Cleanup,
    );
}

/// A stage function is called only while the sandbox is live: the working
/// directory at every stage call is the sandbox, never the application's
/// permanent directory.
pub proof fn lemma_stages_run_inside_the_sandbox(v: RunV, e: PipelineEventV)
    requires
        spec_event_fits(v.state, e),
    ensures
        (spec_action_of(spec_step(v, e).state) matches PipelineAction::CallStage(st))
            ==> spec_sandbox_live(spec_step(v, e).state),
{
}

/// The run an install starts in, followed by the events of a run in which
/// every outside step succeeds.
pub open spec fn spec_success_events(
    version: Seq<char>,
    conflicts: Seq<Seq<char>>,
    bote: Seq<Seq<char>>,
    specs: Seq<Seq<char>>,
    names: Seq<Seq<char>>,
) -> Seq<PipelineEventV> {
    seq![
        PipelineEventV::CompileOk,
        PipelineEventV::SandboxReady,
        (PipelineEventV::VersionReturned { version }),
        (PipelineEventV::ListReturned { items: conflicts }),
        (PipelineEventV::ListReturned { items: bote }),
        (PipelineEventV::ListReturned { items: specs }),
        (PipelineEventV::Executables { names }),
        PipelineEventV::StageDone,
        PipelineEventV::StageDone,
        PipelineEventV::StageDone,
        PipelineEventV::Released,
    ]
}

/// For any manifest whose stages all succeed and whose dependency specs are
/// all satisfied, the pipeline reaches `Done` with no failure, having asked
/// its driver for each stage in order exactly once and released the sandbox
/// before reporting.
#[verifier::rlimit(60)]
pub proof fn lemma_all_stages_succeeding_reaches_done(
    version: Seq<char>,
    conflicts: Seq<Seq<char>>,
    bote: Seq<Seq<char>>,
    specs: Seq<Seq<char>>,
    names: Seq<Seq<char>>,
)
    requires
        spec_verify_result(specs, names) is None,
    ensures
        ({
            let end = spec_run(spec_initial(), spec_success_events(version, conflicts, bote, specs, names));
            &&& end.state == PipelineState::Done
            &&& end.failure is None
            &&& end.version == Option::Some(version)
            &&& end.conflicts == conflicts
            &&& end.bote_dependencies == bote
            &&& end.dependency_specs == specs
        }),
        spec_run_actions(spec_initial(), spec_success_events(version, conflicts, bote, specs, names))
            =~= seq![
            PipelineAction::AcquireSandbox,
            PipelineAction::CallStage(Stage::Version),
            PipelineAction::CallStage(Stage::Conflicts),
            PipelineAction::CallStage(Stage::BoteDependencies),
            PipelineAction::CallStage(Stage::InstalledProgramDependencies),
            PipelineAction::ListExecutables,
            PipelineAction::CallStage(Stage::Prepare),
            PipelineAction::CallStage(Stage::Download),
            PipelineAction::CallStage(Stage::Install),
            PipelineAction::ReleaseSandbox,
            PipelineAction::Report,
        ],
{
    reveal_with_fuel(spec_run, 13);
    reveal_with_fuel(spec_run_actions, 13);
    let evs0 = spec_success_events(version, conflicts, bote, specs, names);
    let v0 = spec_initial();
    let v1 = spec_step(v0, evs0[0]);
    let evs1 = evs0.drop_first();
    let v2 = spec_step(v1, evs1[0]);
    let evs2 = evs1.drop_first();
    let v3 = spec_step(v2, evs2[0]);
    let evs3 = evs2.drop_first();
    let v4 = spec_step(v3, evs3[0]);
    let evs4 = evs3.drop_first();
    let v5 = spec_step(v4, evs4[0]);
    let evs5 = evs4.drop_first();
    let v6 = spec_step(v5, evs5[0]);
    let evs6 = evs5.drop_first();
    let v7 = spec_step(v6, evs6[0]);
    let evs7 = evs6.drop_first();
    let v8 = spec_step(v7, evs7[0]);
    let evs8 = evs7.drop_first();
    let v9 = spec_step(v8, evs8[0]);
    let evs9 = evs8.drop_first();
    let v10 = spec_step(v9, evs9[0]);
    let evs10 = evs9.drop_first();
    let v11 = spec_step(v10, evs10[0]);
    let evs11 = evs10.drop_first();
    assert(evs11.len() == 0);
    assert(v7.state == PipelineState::Prepare);
    assert(v11.state == PipelineState::Done);
    assert(spec_run(v0, evs0) == v11);
    assert(spec_run_actions(v0, evs0) =~= seq![
        spec_action_of(v1.state),
        spec_action_of(v2.state),
        spec_action_of(v3.state),
        spec_action_of(v4.state),
        spec_action_of(v5.state),
        spec_action_of(v6.state),
        spec_action_of(v7.state),
        spec_action_of(v8.state),
        spec_action_of(v9.state),
        spec_action_of(v10.state),
        spec_action_of(v11.state),
    ]);
}

/// For a manifest that fails to compile — in particular one missing a
/// required stage function — the run goes straight to `Failed` carrying the
/// compile failure, and no stage, sandbox or intrinsic action is ever handed
/// to the driver: the only action is to report.
pub proof fn lemma_failing_compile_runs_nothing(message: Seq<char>, rest: Seq<PipelineEventV>)
    ensures
        ({
            let evs = seq![(PipelineEventV::CompileFailed { message })] + rest;
            &&& spec_run(spec_initial(), evs).state == PipelineState::Failed
            &&& spec_run(spec_initial(), evs).failure == Option::Some(
                PipelineFailureV::CompileFailed { message },
            )
            &&& spec_run_actions(spec_initial(), evs) =~= seq![PipelineAction::Report]
        }),
{
    let e0 = PipelineEventV::CompileFailed { message };
    let evs = seq![e0] + rest;
    let v0 = spec_initial();
    let v1 = spec_step(v0, e0);
    assert(evs[0] == e0);
    assert(evs.drop_first() =~= rest);
    lemma_terminal_run_stalls(v1, rest);
    assert(spec_run_actions(v0, evs) =~= seq![spec_action_of(v1.state)] + spec_run_actions(
        v1,
        rest,
    ));
}

} // verus!
