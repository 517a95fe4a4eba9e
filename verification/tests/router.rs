use project_generator::kind::Kind;
use project_generator::outcome::Error;
use project_generator::request::Invocation;
use project_generator::router::{kind_named, parse_arguments, NON_INTERACTIVE_SWITCH};

fn line(words: &[&str]) -> Vec<String> {
    words.iter().map(|word| word.to_string()).collect()
}

fn asked(kind: Kind, name: &str, non_interactive: bool) -> Result<Invocation, Error> {
    Invocation::new(kind, name, non_interactive)
}

#[test]
fn the_switch_is_spelled_no_prompt() {
    assert_eq!(NON_INTERACTIVE_SWITCH, "--no-prompt");
}

#[test]
fn kinds_by_subcommand() {
    assert_eq!(kind_named("php-framework"), Some(Kind::PhpFramework));
    assert_eq!(kind_named("py-micro"), Some(Kind::PyMicro));
    assert_eq!(kind_named("py-full"), Some(Kind::PyFull));
    assert_eq!(kind_named("sys-package"), Some(Kind::SysPackage));
    assert_eq!(kind_named("py"), None);
    assert_eq!(kind_named(""), None);
    assert_eq!(kind_named("PY-FULL"), None);
    for kind in [Kind::PhpFramework, Kind::PyMicro, Kind::PyFull, Kind::SysPackage] {
        assert_eq!(kind_named(kind.subcommand()), Some(kind));
    }
}

#[test]
fn subcommand_and_name() {
    assert_eq!(parse_arguments(&line(&["py-micro", "demo"])), asked(Kind::PyMicro, "demo", false));
    assert_eq!(
        parse_arguments(&line(&["php-framework", "shop"])),
        asked(Kind::PhpFramework, "shop", false)
    );
    assert_eq!(parse_arguments(&line(&["py-full", "site"])), asked(Kind::PyFull, "site", false));
    assert_eq!(
        parse_arguments(&line(&["sys-package", "tool"])),
        asked(Kind::SysPackage, "tool", false)
    );
}

#[test]
fn the_switch_may_stand_anywhere() {
    let wanted = asked(Kind::PyFull, "demo", true);
    assert!(wanted.is_ok());
    assert_eq!(parse_arguments(&line(&["--no-prompt", "py-full", "demo"])), wanted);
    assert_eq!(parse_arguments(&line(&["py-full", "--no-prompt", "demo"])), wanted);
    assert_eq!(parse_arguments(&line(&["py-full", "demo", "--no-prompt"])), wanted);
    assert_eq!(parse_arguments(&line(&["--no-prompt", "py-full", "demo", "--no-prompt"])), wanted);
}

#[test]
fn no_subcommand_is_a_usage_error() {
    assert_eq!(parse_arguments(&line(&[])), Err(Error::Usage));
    assert_eq!(parse_arguments(&line(&["--no-prompt"])), Err(Error::Usage));
}

#[test]
fn unknown_subcommand_is_a_usage_error() {
    assert_eq!(parse_arguments(&line(&["ruby", "demo"])), Err(Error::Usage));
    assert_eq!(parse_arguments(&line(&["demo", "py-micro"])), Err(Error::Usage));
}

#[test]
fn missing_project_name_is_a_usage_error() {
    assert_eq!(parse_arguments(&line(&["py-micro"])), Err(Error::Usage));
    assert_eq!(parse_arguments(&line(&["py-micro", "--no-prompt"])), Err(Error::Usage));
}

#[test]
fn empty_project_name_on_the_command_line_is_a_usage_error() {
    assert_eq!(parse_arguments(&line(&["py-micro", ""])), Err(Error::Usage));
}

#[test]
fn a_second_subcommand_is_a_usage_error() {
    assert_eq!(parse_arguments(&line(&["py-micro", "py-full", "demo"])), Err(Error::Usage));
    assert_eq!(parse_arguments(&line(&["py-micro", "demo", "sys-package", "demo"])), Err(Error::Usage));
    assert_eq!(parse_arguments(&line(&["py-micro", "demo", "extra"])), Err(Error::Usage));
}

#[test]
fn a_project_may_be_named_like_a_subcommand() {
    assert_eq!(
        parse_arguments(&line(&["py-micro", "py-full"])),
        asked(Kind::PyMicro, "py-full", false)
    );
}
