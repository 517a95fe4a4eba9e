use project_generator::kind::{Kind, Tool};
use project_generator::outcome::{exit_code, AbortReason, Error, ExecutionOutcome};
use project_generator::protocol::{Action, Command, Notice, Turn};
use project_generator::request::Invocation;
use project_generator::scaffold::{FileEntry, ENTRY_SCRIPT, MICRO_APPLICATION, SETTINGS_MODULE};
use project_generator::session::Session;

fn open(kind: Kind, name: &str, non_interactive: bool) -> (Session, Turn) {
    Session::begin(Invocation::new(kind, name, non_interactive).unwrap())
}

fn words(list: &[&str]) -> Vec<String> {
    list.iter().map(|word| word.to_string()).collect()
}

fn verdict(turn: Turn) -> Result<ExecutionOutcome, Error> {
    match turn.action {
        Action::Finish(verdict) => verdict,
        other => panic!("the run is not over: {:?}", other),
    }
}

#[test]
fn empty_project_name_is_a_usage_error() {
    let made = Invocation::new(Kind::PyMicro, "", false);
    assert_eq!(made, Err(Error::Usage));
    assert_eq!(exit_code(&Err(Error::Usage)), 1);
}

#[test]
fn invocation_keeps_what_it_was_given() {
    let request = Invocation::new(Kind::PyFull, "demo", true).unwrap();
    assert_eq!(request.kind(), Kind::PyFull);
    assert_eq!(request.project_name(), "demo");
    assert!(request.non_interactive());
    let other = Invocation::new(Kind::SysPackage, "x", false).unwrap();
    assert_eq!(other.kind(), Kind::SysPackage);
    assert_eq!(other.project_name(), "x");
    assert!(!other.non_interactive());
}

#[test]
fn exit_codes() {
    assert_eq!(exit_code(&Ok(ExecutionOutcome::GeneratedViaTool)), 0);
    assert_eq!(exit_code(&Ok(ExecutionOutcome::GeneratedViaFallback)), 0);
    assert_eq!(exit_code(&Ok(ExecutionOutcome::Aborted(AbortReason::Declined))), 1);
    assert_eq!(exit_code(&Ok(ExecutionOutcome::Aborted(AbortReason::MissingDependency))), 1);
    assert_eq!(exit_code(&Err(Error::ToolExecution(Tool::PackageManager))), 1);
    assert_eq!(exit_code(&Err(Error::Io("demo/app".to_string()))), 1);
}

#[test]
fn micro_demo_non_interactive_builds_the_layout() {
    let (mut session, turn) = open(Kind::PyMicro, "demo", true);
    assert_eq!(turn.notices, vec![Notice::Starting]);
    assert_eq!(turn.action, Action::CreateDir("demo/app".to_string()));
    assert_eq!(session.step(true).action, Action::CreateDir("demo/venv".to_string()));
    assert_eq!(session.step(true).action, Action::CreateDir("demo/static".to_string()));
    assert_eq!(session.step(true).action, Action::CreateDir("demo/templates".to_string()));
    let turn = session.step(true);
    assert!(turn.notices.is_empty());
    assert_eq!(
        turn.action,
        Action::WriteFile(FileEntry {
            path: "demo/app/app.py".to_string(),
            content: MICRO_APPLICATION.to_string(),
        })
    );
    let turn = session.step(true);
    assert_eq!(turn.notices, vec![Notice::ScaffoldCreated, Notice::ProvisioningEnvironment]);
    assert_eq!(turn.action, Action::Probe(Tool::Interpreter));
    let turn = session.step(true);
    assert!(turn.notices.is_empty());
    assert_eq!(
        turn.action,
        Action::Run(Command {
            program: Tool::Interpreter,
            arguments: words(&["-m", "venv", "demo/venv"]),
        })
    );
    assert!(!session.is_finished());
    let turn = session.step(true);
    assert_eq!(turn.notices, vec![Notice::EnvironmentReady]);
    assert!(session.is_finished());
    let result = verdict(turn);
    assert_eq!(result, Ok(ExecutionOutcome::GeneratedViaFallback));
    assert_eq!(exit_code(&result), 0);
}

#[test]
fn micro_demo_succeeds_even_if_provisioning_fails() {
    let (mut session, _) = open(Kind::PyMicro, "demo", true);
    for _ in 0..5 {
        session.step(true);
    }
    assert_eq!(session.pending(), Action::Probe(Tool::Interpreter));
    session.step(true);
    let turn = session.step(false);
    assert_eq!(turn.notices, vec![Notice::EnvironmentFailed]);
    let result = verdict(turn);
    assert_eq!(result, Ok(ExecutionOutcome::GeneratedViaFallback));
    assert_eq!(exit_code(&result), 0);
}

#[test]
fn micro_demo_succeeds_even_if_no_interpreter_is_found() {
    let (mut session, _) = open(Kind::PyMicro, "demo", true);
    for _ in 0..5 {
        session.step(true);
    }
    let turn = session.step(false);
    assert!(turn.notices.is_empty());
    assert_eq!(turn.action, Action::Probe(Tool::InterpreterAlias));
    let turn = session.step(false);
    assert_eq!(turn.notices, vec![Notice::EnvironmentFailed]);
    let result = verdict(turn);
    assert_eq!(result, Ok(ExecutionOutcome::GeneratedViaFallback));
    assert_eq!(exit_code(&result), 0);
}

#[test]
fn interpreter_alias_is_used_when_the_primary_name_is_absent() {
    let (mut session, _) = open(Kind::PyMicro, "demo", false);
    for _ in 0..5 {
        session.step(true);
    }
    session.step(false);
    let turn = session.step(true);
    assert_eq!(
        turn.action,
        Action::Run(Command {
            program: Tool::InterpreterAlias,
            arguments: words(&["-m", "venv", "demo/venv"]),
        })
    );
    assert_eq!(verdict(session.step(true)), Ok(ExecutionOutcome::GeneratedViaFallback));
}

#[test]
fn package_manager_absent_aborts_and_touches_nothing() {
    for non_interactive in [false, true] {
        let (mut session, turn) = open(Kind::SysPackage, "demo", non_interactive);
        assert_eq!(turn.action, Action::Probe(Tool::PackageManager));
        let turn = session.step(false);
        assert_eq!(turn.notices, vec![Notice::InstallGuidance(Tool::PackageManager)]);
        assert!(session.is_finished());
        let result = verdict(turn);
        assert_eq!(result, Ok(ExecutionOutcome::Aborted(AbortReason::MissingDependency)));
        assert_eq!(exit_code(&result), 1);
    }
}

#[test]
fn package_manager_present_generates_via_tool() {
    let (mut session, _) = open(Kind::SysPackage, "demo", false);
    let turn = session.step(true);
    assert_eq!(turn.notices, vec![Notice::GeneratorFound(Tool::PackageManager)]);
    assert_eq!(
        turn.action,
        Action::Run(Command { program: Tool::PackageManager, arguments: words(&["new", "demo"]) })
    );
    let turn = session.step(true);
    assert_eq!(turn.notices, vec![Notice::ProjectGenerated]);
    let result = verdict(turn);
    assert_eq!(result, Ok(ExecutionOutcome::GeneratedViaTool));
    assert_eq!(exit_code(&result), 0);
}

#[test]
fn package_manager_failure_is_a_tool_execution_error() {
    let (mut session, _) = open(Kind::SysPackage, "demo", true);
    session.step(true);
    let result = verdict(session.step(false));
    assert_eq!(result, Err(Error::ToolExecution(Tool::PackageManager)));
    assert_eq!(exit_code(&result), 1);
}

#[test]
fn php_cli_failure_is_terminal_without_fallback() {
    let (mut session, turn) = open(Kind::PhpFramework, "demo", false);
    assert_eq!(turn.action, Action::Probe(Tool::FrameworkCli));
    let turn = session.step(true);
    assert_eq!(
        turn.action,
        Action::Run(Command { program: Tool::FrameworkCli, arguments: words(&["new", "demo"]) })
    );
    let turn = session.step(false);
    assert!(turn.notices.is_empty());
    let result = verdict(turn);
    assert_eq!(result, Err(Error::ToolExecution(Tool::FrameworkCli)));
    assert_eq!(exit_code(&result), 1);
    assert!(session.is_finished());
    assert_eq!(session.pending(), Action::Finish(Err(Error::ToolExecution(Tool::FrameworkCli))));
}

#[test]
fn php_cli_success_needs_no_environment() {
    let (mut session, _) = open(Kind::PhpFramework, "demo", false);
    session.step(true);
    let turn = session.step(true);
    assert_eq!(turn.notices, vec![Notice::ProjectGenerated]);
    assert_eq!(verdict(turn), Ok(ExecutionOutcome::GeneratedViaTool));
}

#[test]
fn full_declined_fallback_aborts_and_touches_nothing() {
    let (mut session, turn) = open(Kind::PyFull, "demo", false);
    assert_eq!(turn.action, Action::Probe(Tool::AdminCli));
    let turn = session.step(false);
    assert_eq!(turn.notices, vec![Notice::GeneratorMissing(Tool::AdminCli)]);
    assert_eq!(turn.action, Action::Confirm(Tool::AdminCli));
    let turn = session.step(false);
    assert_eq!(turn.notices, vec![Notice::InstallGuidance(Tool::AdminCli)]);
    let result = verdict(turn);
    assert_eq!(result, Ok(ExecutionOutcome::Aborted(AbortReason::Declined)));
    assert_eq!(exit_code(&result), 1);
}

#[test]
fn full_confirmed_fallback_builds_the_layout() {
    let (mut session, _) = open(Kind::PyFull, "demo", false);
    session.step(false);
    let turn = session.step(true);
    assert!(turn.notices.is_empty());
    assert_eq!(turn.action, Action::CreateDir("demo/project".to_string()));
    assert_eq!(session.step(true).action, Action::CreateDir("demo/app".to_string()));
    assert_eq!(session.step(true).action, Action::CreateDir("demo/venv".to_string()));
    assert_eq!(
        session.step(true).action,
        Action::WriteFile(FileEntry {
            path: "demo/manage.py".to_string(),
            content: ENTRY_SCRIPT.to_string(),
        })
    );
    assert_eq!(
        session.step(true).action,
        Action::WriteFile(FileEntry {
            path: "demo/project/settings.py".to_string(),
            content: SETTINGS_MODULE.to_string(),
        })
    );
    let turn = session.step(true);
    assert_eq!(turn.notices, vec![Notice::ScaffoldCreated, Notice::ProvisioningEnvironment]);
    assert_eq!(turn.action, Action::Probe(Tool::Interpreter));
    session.step(true);
    assert_eq!(verdict(session.step(true)), Ok(ExecutionOutcome::GeneratedViaFallback));
}

#[test]
fn full_generator_takes_the_name_twice_and_then_provisions() {
    let (mut session, _) = open(Kind::PyFull, "demo", true);
    let turn = session.step(true);
    assert_eq!(
        turn.action,
        Action::Run(Command {
            program: Tool::AdminCli,
            arguments: words(&["startproject", "demo", "demo"]),
        })
    );
    let turn = session.step(true);
    assert_eq!(turn.notices, vec![Notice::ProjectGenerated, Notice::ProvisioningEnvironment]);
    assert_eq!(turn.action, Action::Probe(Tool::Interpreter));
    session.step(false);
    let turn = session.step(false);
    assert_eq!(turn.notices, vec![Notice::EnvironmentFailed]);
    assert_eq!(verdict(turn), Ok(ExecutionOutcome::GeneratedViaTool));
}

#[test]
fn non_interactive_never_prompts_and_falls_back() {
    for kind in [Kind::PhpFramework, Kind::PyFull] {
        let (mut session, turn) = open(kind, "demo", true);
        assert!(matches!(turn.action, Action::Probe(_)));
        let mut turn = session.step(false);
        assert_eq!(turn.notices, vec![Notice::GeneratorMissing(kind.generator().unwrap())]);
        assert!(matches!(turn.action, Action::CreateDir(_)));
        let mut steps = 0;
        while !session.is_finished() {
            assert!(!matches!(turn.action, Action::Confirm(_)));
            turn = session.step(true);
            steps += 1;
            assert!(steps < 20);
        }
        assert_eq!(verdict(turn), Ok(ExecutionOutcome::GeneratedViaFallback));
    }
}

#[test]
fn directory_failure_names_the_path_and_stops() {
    let (mut session, _) = open(Kind::PhpFramework, "demo", true);
    session.step(false);
    session.step(true);
    assert_eq!(session.pending(), Action::CreateDir("demo/public".to_string()));
    let turn = session.step(false);
    assert!(turn.notices.is_empty());
    let result = verdict(turn);
    assert_eq!(result, Err(Error::Io("demo/public".to_string())));
    assert_eq!(exit_code(&result), 1);
    assert!(session.is_finished());
}

#[test]
fn file_failure_names_the_path_and_stops() {
    let (mut session, _) = open(Kind::PyFull, "demo", true);
    session.step(false);
    for _ in 0..4 {
        session.step(true);
    }
    assert!(matches!(session.pending(), Action::WriteFile(entry) if entry.path == "demo/project/settings.py"));
    let result = verdict(session.step(false));
    assert_eq!(result, Err(Error::Io("demo/project/settings.py".to_string())));
    assert_eq!(exit_code(&result), 1);
}

#[test]
fn a_finished_run_stays_finished() {
    let (mut session, _) = open(Kind::SysPackage, "demo", false);
    session.step(false);
    for answer in [true, false, true] {
        let turn = session.step(answer);
        assert!(turn.notices.is_empty());
        assert_eq!(
            turn.action,
            Action::Finish(Ok(ExecutionOutcome::Aborted(AbortReason::MissingDependency)))
        );
        assert!(session.is_finished());
    }
}

#[test]
fn every_run_ends_whatever_the_answers() {
    for kind in [Kind::PhpFramework, Kind::PyMicro, Kind::PyFull, Kind::SysPackage] {
        for pattern in 0u32..64 {
            let (mut session, _) = open(kind, "demo", pattern % 2 == 0);
            let mut steps = 0;
            while !session.is_finished() {
                let answer = (pattern >> (steps % 6)) & 1 == 1 || steps >= 6;
                session.step(answer);
                steps += 1;
                assert!(steps <= 14);
            }
        }
    }
}

#[test]
fn launch_of_the_micro_kind_asks_for_the_first_directory() {
    let request = Invocation::new(Kind::PyMicro, "demo", true).unwrap();
    let (session, turn) = Session::launch(request);
    assert_eq!(turn.notices, vec![Notice::Starting]);
    assert_eq!(turn.action, Action::CreateDir("demo/app".to_string()));
    assert!(!session.is_finished());
}

#[test]
fn launch_and_advance_never_hand_out_a_probe() {
    for kind in [Kind::PhpFramework, Kind::PyMicro, Kind::PyFull, Kind::SysPackage] {
        let request = Invocation::new(kind, "demo", true).unwrap();
        let (mut session, mut turn) = Session::launch(request);
        assert_eq!(turn.notices[0], Notice::Starting);
        let mut steps = 0;
        while !session.is_finished() {
            assert!(!matches!(turn.action, Action::Probe(_)));
            assert!(!matches!(turn.action, Action::Confirm(_)));
            turn = session.advance(true);
            steps += 1;
            assert!(steps < 20);
        }
        assert!(matches!(turn.action, Action::Finish(_)));
    }
}

#[test]
fn advance_settles_the_environment_of_the_micro_kind() {
    let request = Invocation::new(Kind::PyMicro, "demo", true).unwrap();
    let (mut session, _) = Session::launch(request);
    for _ in 0..4 {
        session.advance(true);
    }
    let turn = session.advance(true);
    assert_eq!(turn.notices[0], Notice::ScaffoldCreated);
    assert_eq!(turn.notices[1], Notice::ProvisioningEnvironment);
    let result = match turn.action {
        Action::Run(command) => {
            assert!(command.program == Tool::Interpreter || command.program == Tool::InterpreterAlias);
            assert_eq!(command.arguments, words(&["-m", "venv", "demo/venv"]));
            verdict(session.advance(false))
        }
        Action::Finish(result) => {
            assert_eq!(turn.notices.last(), Some(&Notice::EnvironmentFailed));
            result
        }
        other => panic!("neither a command nor the end: {:?}", other),
    };
    assert_eq!(result, Ok(ExecutionOutcome::GeneratedViaFallback));
}
