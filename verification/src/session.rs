//! The executable run.

use crate::kind::{Kind, Tool};
use crate::laws::{lemma_layout_populated, lemma_opening_valid, lemma_step_progress, lemma_step_valid};
use crate::outcome::{AbortReason, Error, ExecutionOutcome, verdict_view};
use crate::probe::command_exists;
use crate::protocol::{
    Action, Command, Ending, Notice, Phase, Route, SessionView, Turn, spec_begin,
    spec_environment_notice, spec_generator_arguments, spec_notices,
    spec_opening_turn, spec_pending, spec_provision_arguments, spec_remaining, spec_replay,
    spec_replay_notices, spec_settled_phase, spec_settles, spec_step, spec_turn, spec_valid,
    spec_verdict,
};
use crate::request::Invocation;
use crate::scaffold::{FallbackScaffold, FileEntry, build_scaffold, join};
use vstd::prelude::*;
use vstd::string::*;

verus! {

/// One run, from its request to its result.
#[derive(Debug)]
pub struct Session {
    request: Invocation,
    scaffold: FallbackScaffold,
    phase: Phase,
}

impl View for Session {
    type V = SessionView;

    closed spec fn view(&self) -> SessionView {
        SessionView { request: self.request@, phase: self.phase }
    }
}

fn generator_arguments(kind: Kind, project: &str) -> (arguments: Vec<String>)
    ensures
        arguments.deep_view() == spec_generator_arguments(kind, project@),
{
    let mut arguments: Vec<String> = Vec::new();
    match kind {
        Kind::PyFull => {
            arguments.push(String::from_str("startproject"));
            arguments.push(String::from_str(project));
            arguments.push(String::from_str(project));
        },
        _ => {
            arguments.push(String::from_str("new"));
            arguments.push(String::from_str(project));
        },
    }
    assert(arguments.deep_view() =~= spec_generator_arguments(kind, project@));
    arguments
}

fn provision_arguments(project: &str) -> (arguments: Vec<String>)
    ensures
        arguments.deep_view() == spec_provision_arguments(project@),
{
    let mut arguments: Vec<String> = Vec::new();
    arguments.push(String::from_str("-m"));
    arguments.push(String::from_str("venv"));
    arguments.push(join(project, "venv"));
    assert(arguments.deep_view() =~= spec_provision_arguments(project@));
    arguments
}

/// The phase once the project exists, and the notice that goes with it.
fn settled_phase(kind: Kind, route: Route, notices: &mut Vec<Notice>) -> (phase: Phase)
    ensures
        phase == spec_settled_phase(kind, route),
        final(notices)@ == old(notices)@ + spec_environment_notice(kind),
{
    if kind.wants_environment() {
        notices.push(Notice::ProvisioningEnvironment);
        Phase::ProbingInterpreter(route)
    } else {
        Phase::Finished(Ending::Generated(route))
    }
}

impl Session {
    #[verifier::type_invariant]
    spec fn sound(self) -> bool {
        &&& self.scaffold@ == self@.scaffold()
        &&& spec_valid(self@)
    }

    /// Opens the run for `request`: the first turn, with nothing answered
    /// yet.
    pub fn begin(request: Invocation) -> (opened: (Session, Turn))
        ensures
            opened.0@ == spec_begin(request@),
            opened.1@ == spec_opening_turn(request@),
            spec_valid(opened.0@),
    {
        let scaffold = build_scaffold(request.kind(), request.project_name());
        let phase = match request.kind().generator() {
            Some(tool) => Phase::ProbingGenerator(tool),
            None => Phase::CreatingDirectory(0),
        };
        proof {
            lemma_opening_valid(request@);
        }
        let session = Session { request, scaffold, phase };
        let action = session.pending();
        let mut notices: Vec<Notice> = Vec::new();
        notices.push(Notice::Starting);
        (session, Turn { notices, action })
    }

    /// The result that `ending` stands for.
    fn verdict(&self, ending: Ending) -> (verdict: Result<ExecutionOutcome, Error>)
        requires
            self.phase == Phase::Finished(ending),
        ensures
            verdict_view(verdict) == spec_verdict(self@, ending),
    {
        proof {
            use_type_invariant(self);
        }
        match ending {
            Ending::Generated(Route::Tool) => Ok(ExecutionOutcome::GeneratedViaTool),
            Ending::Generated(Route::Fallback) => Ok(ExecutionOutcome::GeneratedViaFallback),
            Ending::Declined => Ok(ExecutionOutcome::Aborted(AbortReason::Declined)),
            Ending::MissingDependency => Ok(
                ExecutionOutcome::Aborted(AbortReason::MissingDependency),
            ),
            Ending::GeneratorFailed(tool) => Err(Error::ToolExecution(tool)),
            Ending::DirectoryFailed(index) => Err(
                Error::Io(self.scaffold.directories[index].clone()),
            ),
            Ending::FileFailed(index) => Err(Error::Io(self.scaffold.files[index].path.clone())),
        }
    }

    /// The action whose answer the run waits for.
    pub fn pending(&self) -> (action: Action)
        ensures
            action@ == spec_pending(self@),
            spec_valid(self@),
    {
        proof {
            use_type_invariant(self);
        }
        match self.phase {
            Phase::ProbingGenerator(tool) => Action::Probe(tool),
            Phase::Confirming(tool) => Action::Confirm(tool),
            Phase::RunningGenerator(tool) => {
                let arguments = generator_arguments(
                    self.request.kind(),
                    self.request.project_name(),
                );
                let command = Command { program: tool, arguments };
                assert(command@.arguments =~= command.arguments.deep_view());
                Action::Run(command)
            },
            Phase::CreatingDirectory(index) => Action::CreateDir(
                self.scaffold.directories[index].clone(),
            ),
            Phase::WritingFile(index) => {
                let entry = &self.scaffold.files[index];
                Action::WriteFile(
                    FileEntry { path: entry.path.clone(), content: entry.content.clone() },
                )
            },
            Phase::ProbingInterpreter(_) => Action::Probe(Tool::Interpreter),
            Phase::ProbingAlias(_) => Action::Probe(Tool::InterpreterAlias),
            Phase::Provisioning(_, tool) => {
                let arguments = provision_arguments(self.request.project_name());
                let command = Command { program: tool, arguments };
                assert(command@.arguments =~= command.arguments.deep_view());
                Action::Run(command)
            },
            Phase::Finished(ending) => Action::Finish(self.verdict(ending)),
        }
    }

    /// Whether the run is over.
    pub fn is_finished(&self) -> (over: bool)
        ensures
            over == self@.finished(),
    {
        match self.phase {
            Phase::Finished(_) => true,
            _ => false,
        }
    }

    /// Takes the answer to the pending action and moves on: `true` where
    /// the tool was found, the user agreed, the subprocess exited with
    /// success, the directory or file is in place.
    pub fn step(&mut self, answer: bool) -> (turn: Turn)
        ensures
            final(self)@ == spec_step(old(self)@, answer),
            turn@ == spec_turn(old(self)@, answer),
            spec_valid(final(self)@),
    {
        proof {
            use_type_invariant(&*self);
            lemma_step_valid(self@, answer);
            lemma_layout_populated(self@.request.kind, self@.request.project_name);
        }
        let kind = self.request.kind();
        let mut notices: Vec<Notice> = Vec::new();
        let next = match self.phase {
            Phase::ProbingGenerator(tool) => {
                if answer {
                    notices.push(Notice::GeneratorFound(tool));
                    Phase::RunningGenerator(tool)
                } else if !kind.has_fallback() {
                    notices.push(Notice::InstallGuidance(tool));
                    Phase::Finished(Ending::MissingDependency)
                } else {
                    notices.push(Notice::GeneratorMissing(tool));
                    if self.request.non_interactive() {
                        Phase::CreatingDirectory(0)
                    } else {
                        Phase::Confirming(tool)
                    }
                }
            },
            Phase::Confirming(tool) => {
                if answer {
                    Phase::CreatingDirectory(0)
                } else {
                    notices.push(Notice::InstallGuidance(tool));
                    Phase::Finished(Ending::Declined)
                }
            },
            Phase::RunningGenerator(tool) => {
                if answer {
                    notices.push(Notice::ProjectGenerated);
                    settled_phase(kind, Route::Tool, &mut notices)
                } else {
                    Phase::Finished(Ending::GeneratorFailed(tool))
                }
            },
            Phase::CreatingDirectory(index) => {
                if !answer {
                    Phase::Finished(Ending::DirectoryFailed(index))
                } else if index + 1 < self.scaffold.directories.len() {
                    Phase::CreatingDirectory(index + 1)
                } else {
                    Phase::WritingFile(0)
                }
            },
            Phase::WritingFile(index) => {
                if !answer {
                    Phase::Finished(Ending::FileFailed(index))
                } else if index + 1 < self.scaffold.files.len() {
                    Phase::WritingFile(index + 1)
                } else {
                    notices.push(Notice::ScaffoldCreated);
                    settled_phase(kind, Route::Fallback, &mut notices)
                }
            },
            Phase::ProbingInterpreter(route) => {
                if answer {
                    Phase::Provisioning(route, Tool::Interpreter)
                } else {
                    Phase::ProbingAlias(route)
                }
            },
            Phase::ProbingAlias(route) => {
                if answer {
                    Phase::Provisioning(route, Tool::InterpreterAlias)
                } else {
                    notices.push(Notice::EnvironmentFailed);
                    Phase::Finished(Ending::Generated(route))
                }
            },
            Phase::Provisioning(route, _) => {
                if answer {
                    notices.push(Notice::EnvironmentReady);
                } else {
                    notices.push(Notice::EnvironmentFailed);
                }
                Phase::Finished(Ending::Generated(route))
            },
            Phase::Finished(ending) => Phase::Finished(ending),
        };
        self.phase = next;
        let action = self.pending();
        Turn { notices, action }
    }

    /// Answers the probes that stand between the run and its next question
    /// to the driver, each by a lookup on the search path.
    fn settle(&mut self, turn: Turn) -> (settled: Turn)
        requires
            turn.action@ == spec_pending(old(self)@),
        ensures
            exists|findings: Seq<bool>|
                spec_settles(old(self)@, turn.notices@, findings, final(self)@, settled@),
            spec_valid(final(self)@),
    {
        let ghost start = self@;
        let ghost owed = turn.notices@;
        let ghost mut findings: Seq<bool> = Seq::empty();
        let mut notices = turn.notices;
        let mut action = turn.action;
        proof {
            use_type_invariant(&*self);
            assert(notices@ =~= owed + spec_replay_notices(start, findings));
        }
        loop
            invariant
                start == old(self)@,
                owed == turn.notices@,
                action@ == spec_pending(self@),
                self@ == spec_replay(start, findings),
                notices@ == owed + spec_replay_notices(start, findings),
                forall|k: int|
                    0 <= k < findings.len() ==> spec_pending(
                        spec_replay(start, #[trigger] findings.take(k)),
                    ) is Probe,
                spec_valid(self@),
            decreases spec_remaining(self@),
        {
            let probing: Option<Tool> = match &action {
                Action::Probe(tool) => Some(*tool),
                _ => None,
            };
            match probing {
                None => {
                    let settled = Turn { notices, action };
                    assert(spec_settles(start, owed, findings, self@, settled@));
                    return settled;
                },
                Some(tool) => {
                    let found = command_exists(tool.name());
                    proof {
                        lemma_step_progress(self@, found);
                    }
                    let mut next = self.step(found);
                    notices.append(&mut next.notices);
                    action = next.action;
                    proof {
                        let grown = findings.push(found);
                        assert(grown.drop_last() =~= findings);
                        assert forall|k: int| 0 <= k < grown.len() implies spec_pending(
                            spec_replay(start, #[trigger] grown.take(k)),
                        ) is Probe by {
                            if k < findings.len() {
                                assert(grown.take(k) =~= findings.take(k));
                            } else {
                                assert(grown.take(k) =~= findings);
                            }
                        }
                        assert(notices@ =~= owed + spec_replay_notices(start, grown));
                        findings = grown;
                    }
                },
            }
        }
    }

    /// Opens the run for `request` and answers its opening probes by
    /// lookups on the search path: the turn handed back asks for something
    /// else.
    ///
    /// What the lookups find is not known beforehand. The session and the
    /// turn are those that [`Session::begin`] and [`Session::step`] give
    /// for some findings.
    pub fn launch(request: Invocation) -> (opened: (Session, Turn))
        ensures
            exists|findings: Seq<bool>|
                spec_settles(
                    spec_begin(request@),
                    seq![Notice::Starting],
                    findings,
                    opened.0@,
                    opened.1@,
                ),
            spec_valid(opened.0@),
    {
        let (mut session, turn) = Session::begin(request);
        let ghost owed = turn.notices@;
        let settled = session.settle(turn);
        let opened = (session, settled);
        proof {
            let findings = choose|findings: Seq<bool>|
                spec_settles(spec_begin(request@), owed, findings, opened.0@, opened.1@);
            assert(spec_settles(
                spec_begin(request@),
                seq![Notice::Starting],
                findings,
                opened.0@,
                opened.1@,
            ));
        }
        opened
    }

    /// Takes the answer to the pending action, as [`Session::step`] does,
    /// and then answers the probes that follow by lookups on the search
    /// path: the turn handed back asks for something else.
    pub fn advance(&mut self, answer: bool) -> (turn: Turn)
        ensures
            exists|findings: Seq<bool>|
                spec_settles(
                    spec_step(old(self)@, answer),
                    spec_notices(old(self)@, answer),
                    findings,
                    final(self)@,
                    turn@,
                ),
            spec_valid(final(self)@),
    {
        let turn = self.step(answer);
        self.settle(turn)
    }
}

} // verus!
