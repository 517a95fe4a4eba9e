use project_generator::kind::{Kind, Tool};

#[test]
fn tool_names() {
    assert_eq!(Tool::FrameworkCli.name(), "symfony");
    assert_eq!(Tool::AdminCli.name(), "django-admin");
    assert_eq!(Tool::PackageManager.name(), "cargo");
    assert_eq!(Tool::Interpreter.name(), "python");
    assert_eq!(Tool::InterpreterAlias.name(), "python3");
}

#[test]
fn generators_by_kind() {
    assert_eq!(Kind::PhpFramework.generator(), Some(Tool::FrameworkCli));
    assert_eq!(Kind::PyMicro.generator(), None);
    assert_eq!(Kind::PyFull.generator(), Some(Tool::AdminCli));
    assert_eq!(Kind::SysPackage.generator(), Some(Tool::PackageManager));
}

#[test]
fn fallback_by_kind() {
    assert!(Kind::PhpFramework.has_fallback());
    assert!(Kind::PyMicro.has_fallback());
    assert!(Kind::PyFull.has_fallback());
    assert!(!Kind::SysPackage.has_fallback());
}

#[test]
fn environment_by_kind() {
    assert!(!Kind::PhpFramework.wants_environment());
    assert!(Kind::PyMicro.wants_environment());
    assert!(Kind::PyFull.wants_environment());
    assert!(!Kind::SysPackage.wants_environment());
}

#[test]
fn subcommands() {
    assert_eq!(Kind::PhpFramework.subcommand(), "php-framework");
    assert_eq!(Kind::PyMicro.subcommand(), "py-micro");
    assert_eq!(Kind::PyFull.subcommand(), "py-full");
    assert_eq!(Kind::SysPackage.subcommand(), "sys-package");
}
