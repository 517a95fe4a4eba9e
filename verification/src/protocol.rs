//! The model of a run: its states, what each state waits for, and how an
//! answer moves it on.
//!
//! A state names one pending [`Action`]. The driver performs the action and
//! answers with one `bool`: found, confirmed, exited with success, created,
//! written. The functions here say, over views, which state and which
//! notices follow. The executable [`crate::session::Session`] is proved
//! against them.

use crate::kind::{Kind, Tool};
use crate::outcome::{AbortReason, Error, ErrorView, ExecutionOutcome, verdict_view};
use crate::request::InvocationView;
use crate::scaffold::{FileEntry, FileEntryView, ScaffoldView, spec_join, spec_scaffold};
use vstd::prelude::*;

verus! {

/// How the project came to exist.
#[derive(Clone, Copy, Debug, PartialEq, Eq, Structural)]
pub enum Route {
    Tool,
    Fallback,
}

/// Why a run is over. Indices point into the layout of the run's kind.
#[derive(Clone, Copy, Debug, PartialEq, Eq, Structural)]
pub enum Ending {
    Generated(Route),
    Declined,
    MissingDependency,
    GeneratorFailed(Tool),
    DirectoryFailed(usize),
    FileFailed(usize),
}

/// Where a run stands: the question whose answer it waits for.
#[derive(Clone, Copy, Debug, PartialEq, Eq, Structural)]
pub enum Phase {
    /// Is the generator on the search path?
    ProbingGenerator(Tool),
    /// Does the user accept the fallback in place of the missing generator?
    Confirming(Tool),
    /// Did the generator exit with success?
    RunningGenerator(Tool),
    /// Was the directory at this index created?
    CreatingDirectory(usize),
    /// Was the file at this index written?
    WritingFile(usize),
    /// Is the interpreter resolvable under its primary name?
    ProbingInterpreter(Route),
    /// Is it resolvable under its alias?
    ProbingAlias(Route),
    /// Did the interpreter provision the environment?
    Provisioning(Route, Tool),
    /// Nothing: the run is over.
    Finished(Ending),
}

/// A status line owed to the user. The wording is the driver's.
#[derive(Clone, Copy, Debug, PartialEq, Eq, Structural)]
pub enum Notice {
    Starting,
    /// The generator is on the search path and will be used.
    GeneratorFound(Tool),
    /// The generator is not on the search path.
    GeneratorMissing(Tool),
    /// Nothing was generated: how to get the missing generator.
    InstallGuidance(Tool),
    ProjectGenerated,
    ScaffoldCreated,
    ProvisioningEnvironment,
    EnvironmentReady,
    EnvironmentFailed,
}

/// A subprocess to spawn and wait for.
#[derive(Debug, PartialEq, Eq)]
pub struct Command {
    pub program: Tool,
    pub arguments: Vec<String>,
}

pub struct CommandView {
    pub program: Tool,
    pub arguments: Seq<Seq<char>>,
}

impl View for Command {
    type V = CommandView;

    open spec fn view(&self) -> CommandView {
        CommandView {
            program: self.program,
            arguments: Seq::new(self.arguments@.len(), |i: int| self.arguments@[i]@),
        }
    }
}

/// What the driver is to do next.
#[derive(Debug, PartialEq, Eq)]
pub enum Action {
    /// Look the tool up on the search path. Answer: found.
    Probe(Tool),
    /// Ask whether to build the layout by hand, this tool being absent.
    /// Answer: confirmed.
    Confirm(Tool),
    /// Spawn the command and wait. Answer: it ran and exited with success.
    Run(Command),
    /// Create the directory and its missing ancestors; one that exists is
    /// no failure. Answer: it is there.
    CreateDir(String),
    /// Write the file, replacing what is there. Answer: written.
    WriteFile(FileEntry),
    /// Stop: this is the result. An answer changes nothing.
    Finish(Result<ExecutionOutcome, Error>),
}

pub enum ActionView {
    Probe(Tool),
    Confirm(Tool),
    Run(CommandView),
    CreateDir(Seq<char>),
    WriteFile(FileEntryView),
    Finish(Result<ExecutionOutcome, ErrorView>),
}

impl View for Action {
    type V = ActionView;

    open spec fn view(&self) -> ActionView {
        match *self {
            Action::Probe(tool) => ActionView::Probe(tool),
            Action::Confirm(tool) => ActionView::Confirm(tool),
            Action::Run(command) => ActionView::Run(command@),
            Action::CreateDir(path) => ActionView::CreateDir(path@),
            Action::WriteFile(entry) => ActionView::WriteFile(entry@),
            Action::Finish(verdict) => ActionView::Finish(verdict_view(verdict)),
        }
    }
}

/// One move of the session: what to tell the user, then what to do.
#[derive(Debug, PartialEq, Eq)]
pub struct Turn {
    pub notices: Vec<Notice>,
    pub action: Action,
}

pub struct TurnView {
    pub notices: Seq<Notice>,
    pub action: ActionView,
}

impl View for Turn {
    type V = TurnView;

    open spec fn view(&self) -> TurnView {
        TurnView { notices: self.notices@, action: self.action@ }
    }
}

/// The state of a run: what was asked for, and where the run stands.
pub struct SessionView {
    pub request: InvocationView,
    pub phase: Phase,
}

impl SessionView {
    /// The layout that the fallback of this run builds.
    pub open spec fn scaffold(self) -> ScaffoldView {
        spec_scaffold(self.request.kind, self.request.project_name)
    }

    pub open spec fn finished(self) -> bool {
        self.phase is Finished
    }
}

/// A run opens with the probe for its generator, or with the layout where
/// the kind has no generator.
pub open spec fn spec_opening_phase(kind: Kind) -> Phase {
    match kind.spec_generator() {
        Some(tool) => Phase::ProbingGenerator(tool),
        None => Phase::CreatingDirectory(0),
    }
}

pub open spec fn spec_begin(request: InvocationView) -> SessionView {
    SessionView { request, phase: spec_opening_phase(request.kind) }
}

/// Once the project exists: provision the environment where the kind wants
/// one, else stop.
pub open spec fn spec_settled_phase(kind: Kind, route: Route) -> Phase {
    if kind.spec_wants_environment() {
        Phase::ProbingInterpreter(route)
    } else {
        Phase::Finished(Ending::Generated(route))
    }
}

/// The phase that follows `state` on `answer`.
pub open spec fn spec_next_phase(state: SessionView, answer: bool) -> Phase {
    let kind = state.request.kind;
    let layout = state.scaffold();
    match state.phase {
        Phase::ProbingGenerator(tool) => if answer {
            Phase::RunningGenerator(tool)
        } else if !kind.spec_has_fallback() {
            Phase::Finished(Ending::MissingDependency)
        } else if state.request.non_interactive {
            Phase::CreatingDirectory(0)
        } else {
            Phase::Confirming(tool)
        },
        Phase::Confirming(_) => if answer {
            Phase::CreatingDirectory(0)
        } else {
            Phase::Finished(Ending::Declined)
        },
        Phase::RunningGenerator(tool) => if answer {
            spec_settled_phase(kind, Route::Tool)
        } else {
            Phase::Finished(Ending::GeneratorFailed(tool))
        },
        Phase::CreatingDirectory(index) => if !answer {
            Phase::Finished(Ending::DirectoryFailed(index))
        } else if index + 1 < layout.directories.len() {
            Phase::CreatingDirectory((index + 1) as usize)
        } else {
            Phase::WritingFile(0)
        },
        Phase::WritingFile(index) => if !answer {
            Phase::Finished(Ending::FileFailed(index))
        } else if index + 1 < layout.files.len() {
            Phase::WritingFile((index + 1) as usize)
        } else {
            spec_settled_phase(kind, Route::Fallback)
        },
        Phase::ProbingInterpreter(route) => if answer {
            Phase::Provisioning(route, Tool::Interpreter)
        } else {
            Phase::ProbingAlias(route)
        },
        Phase::ProbingAlias(route) => if answer {
            Phase::Provisioning(route, Tool::InterpreterAlias)
        } else {
            Phase::Finished(Ending::Generated(route))
        },
        Phase::Provisioning(route, _) => Phase::Finished(Ending::Generated(route)),
        Phase::Finished(ending) => Phase::Finished(ending),
    }
}

/// The state that follows `state` on `answer`.
pub open spec fn spec_step(state: SessionView, answer: bool) -> SessionView {
    SessionView { request: state.request, phase: spec_next_phase(state, answer) }
}

/// The notice that announces the environment setup, where the kind has one.
pub open spec fn spec_environment_notice(kind: Kind) -> Seq<Notice> {
    if kind.spec_wants_environment() {
        seq![Notice::ProvisioningEnvironment]
    } else {
        seq![]
    }
}

/// The status lines owed when `state` receives `answer`.
pub open spec fn spec_notices(state: SessionView, answer: bool) -> Seq<Notice> {
    let kind = state.request.kind;
    match state.phase {
        Phase::ProbingGenerator(tool) => if answer {
            seq![Notice::GeneratorFound(tool)]
        } else if !kind.spec_has_fallback() {
            seq![Notice::InstallGuidance(tool)]
        } else {
            seq![Notice::GeneratorMissing(tool)]
        },
        Phase::Confirming(tool) => if answer {
            seq![]
        } else {
            seq![Notice::InstallGuidance(tool)]
        },
        Phase::RunningGenerator(_) => if answer {
            seq![Notice::ProjectGenerated] + spec_environment_notice(kind)
        } else {
            seq![]
        },
        Phase::CreatingDirectory(_) => seq![],
        Phase::WritingFile(index) => if answer && index + 1 >= state.scaffold().files.len() {
            seq![Notice::ScaffoldCreated] + spec_environment_notice(kind)
        } else {
            seq![]
        },
        Phase::ProbingInterpreter(_) => seq![],
        Phase::ProbingAlias(_) => if answer {
            seq![]
        } else {
            seq![Notice::EnvironmentFailed]
        },
        Phase::Provisioning(_, _) => if answer {
            seq![Notice::EnvironmentReady]
        } else {
            seq![Notice::EnvironmentFailed]
        },
        Phase::Finished(_) => seq![],
    }
}

/// The result that an ending stands for.
pub open spec fn spec_verdict(state: SessionView, ending: Ending) -> Result<
    ExecutionOutcome,
    ErrorView,
> {
    match ending {
        Ending::Generated(Route::Tool) => Ok(ExecutionOutcome::GeneratedViaTool),
        Ending::Generated(Route::Fallback) => Ok(ExecutionOutcome::GeneratedViaFallback),
        Ending::Declined => Ok(ExecutionOutcome::Aborted(AbortReason::Declined)),
        Ending::MissingDependency => Ok(
            ExecutionOutcome::Aborted(AbortReason::MissingDependency),
        ),
        Ending::GeneratorFailed(tool) => Err(ErrorView::ToolExecution(tool)),
        Ending::DirectoryFailed(index) => Err(
            ErrorView::Io(state.scaffold().directories[index as int]),
        ),
        Ending::FileFailed(index) => Err(ErrorView::Io(state.scaffold().files[index as int].path)),
    }
}

/// The arguments handed to a kind's generator. The full-stack generator
/// takes the project name twice: as the project and as its package.
pub open spec fn spec_generator_arguments(kind: Kind, project: Seq<char>) -> Seq<Seq<char>> {
    if kind == Kind::PyFull {
        seq!["startproject"@, project, project]
    } else {
        seq!["new"@, project]
    }
}

/// The arguments that make an interpreter provision the environment of the
/// project.
pub open spec fn spec_provision_arguments(project: Seq<char>) -> Seq<Seq<char>> {
    seq!["-m"@, "venv"@, spec_join(project, "venv"@)]
}

/// The action whose answer `state` waits for.
pub open spec fn spec_pending(state: SessionView) -> ActionView {
    let kind = state.request.kind;
    let project = state.request.project_name;
    match state.phase {
        Phase::ProbingGenerator(tool) => ActionView::Probe(tool),
        Phase::Confirming(tool) => ActionView::Confirm(tool),
        Phase::RunningGenerator(tool) => ActionView::Run(
            CommandView { program: tool, arguments: spec_generator_arguments(kind, project) },
        ),
        Phase::CreatingDirectory(index) => ActionView::CreateDir(
            state.scaffold().directories[index as int],
        ),
        Phase::WritingFile(index) => ActionView::WriteFile(state.scaffold().files[index as int]),
        Phase::ProbingInterpreter(_) => ActionView::Probe(Tool::Interpreter),
        Phase::ProbingAlias(_) => ActionView::Probe(Tool::InterpreterAlias),
        Phase::Provisioning(_, tool) => ActionView::Run(
            CommandView { program: tool, arguments: spec_provision_arguments(project) },
        ),
        Phase::Finished(ending) => ActionView::Finish(spec_verdict(state, ending)),
    }
}

/// The first turn of a run.
pub open spec fn spec_opening_turn(request: InvocationView) -> TurnView {
    TurnView { notices: seq![Notice::Starting], action: spec_pending(spec_begin(request)) }
}

/// The turn that answers `answer` in `state`.
pub open spec fn spec_turn(state: SessionView, answer: bool) -> TurnView {
    TurnView {
        notices: spec_notices(state, answer),
        action: spec_pending(spec_step(state, answer)),
    }
}

/// Whether a route is open to a kind.
pub open spec fn spec_route_open(kind: Kind, route: Route) -> bool {
    match route {
        Route::Tool => kind.spec_generator() is Some,
        Route::Fallback => kind.spec_has_fallback(),
    }
}

/// The states that a run can be in. Every state that a run reaches from
/// its opening is one of them.
pub open spec fn spec_valid(state: SessionView) -> bool {
    let kind = state.request.kind;
    let layout = state.scaffold();
    match state.phase {
        Phase::ProbingGenerator(tool) => kind.spec_generator() == Some(tool),
        Phase::Confirming(tool) => {
            &&& kind.spec_generator() == Some(tool)
            &&& kind.spec_has_fallback()
            &&& !state.request.non_interactive
        },
        Phase::RunningGenerator(tool) => kind.spec_generator() == Some(tool),
        Phase::CreatingDirectory(index) => {
            &&& kind.spec_has_fallback()
            &&& index < layout.directories.len()
        },
        Phase::WritingFile(index) => {
            &&& kind.spec_has_fallback()
            &&& index < layout.files.len()
        },
        Phase::ProbingInterpreter(route) => {
            &&& kind.spec_wants_environment()
            &&& spec_route_open(kind, route)
        },
        Phase::ProbingAlias(route) => {
            &&& kind.spec_wants_environment()
            &&& spec_route_open(kind, route)
        },
        Phase::Provisioning(route, tool) => {
            &&& kind.spec_wants_environment()
            &&& spec_route_open(kind, route)
            &&& (tool == Tool::Interpreter || tool == Tool::InterpreterAlias)
        },
        Phase::Finished(ending) => match ending {
            Ending::Generated(route) => spec_route_open(kind, route),
            Ending::Declined => {
                &&& kind.spec_generator() is Some
                &&& kind.spec_has_fallback()
                &&& !state.request.non_interactive
            },
            Ending::MissingDependency => {
                &&& kind.spec_generator() is Some
                &&& !kind.spec_has_fallback()
            },
            Ending::GeneratorFailed(tool) => kind.spec_generator() == Some(tool),
            Ending::DirectoryFailed(index) => {
                &&& kind.spec_has_fallback()
                &&& index < layout.directories.len()
            },
            Ending::FileFailed(index) => {
                &&& kind.spec_has_fallback()
                &&& index < layout.files.len()
            },
        },
    }
}

/// The state reached from `state` by answering, in order, with `answers`.
pub open spec fn spec_replay(state: SessionView, answers: Seq<bool>) -> SessionView
    decreases answers.len(),
{
    if answers.len() == 0 {
        state
    } else {
        spec_step(spec_replay(state, answers.drop_last()), answers.last())
    }
}

/// The status lines owed along that way, in order.
pub open spec fn spec_replay_notices(state: SessionView, answers: Seq<bool>) -> Seq<Notice>
    decreases answers.len(),
{
    if answers.len() == 0 {
        seq![]
    } else {
        spec_replay_notices(state, answers.drop_last()) + spec_notices(
            spec_replay(state, answers.drop_last()),
            answers.last(),
        )
    }
}

/// `findings` are answers to probes and to nothing else: on the way from
/// `state` every state passed waits on a probe, and the state reached does
/// not.
pub open spec fn spec_probes_answered(state: SessionView, findings: Seq<bool>) -> bool {
    &&& forall|k: int|
        0 <= k < findings.len() ==> spec_pending(
            spec_replay(state, #[trigger] findings.take(k)),
        ) is Probe
    &&& !(spec_pending(spec_replay(state, findings)) is Probe)
}

/// `settled` and `turn` are what comes of `state`, after `notices` were
/// already owed, once `findings` have answered its probes.
pub open spec fn spec_settles(
    state: SessionView,
    notices: Seq<Notice>,
    findings: Seq<bool>,
    settled: SessionView,
    turn: TurnView,
) -> bool {
    &&& spec_probes_answered(state, findings)
    &&& settled == spec_replay(state, findings)
    &&& turn.notices == notices + spec_replay_notices(state, findings)
    &&& turn.action == spec_pending(settled)
}

/// An upper bound on the answers that `state` can still take before the
/// run is over.
pub open spec fn spec_remaining(state: SessionView) -> nat {
    let layout = state.scaffold();
    match state.phase {
        Phase::ProbingGenerator(_) => layout.directories.len() + layout.files.len() + 5,
        Phase::Confirming(_) => layout.directories.len() + layout.files.len() + 4,
        Phase::RunningGenerator(_) => 4,
        Phase::CreatingDirectory(index) => (layout.directories.len() - index + layout.files.len()
            + 3) as nat,
        Phase::WritingFile(index) => (layout.files.len() - index + 3) as nat,
        Phase::ProbingInterpreter(_) => 3,
        Phase::ProbingAlias(_) => 2,
        Phase::Provisioning(_, _) => 1,
        Phase::Finished(_) => 0,
    }
}

} // verus!
