//! The project kinds and the executables they rely on.

use vstd::prelude::*;

verus! {

/// An executable that a run may look for on the search path and spawn.
#[derive(Clone, Copy, Debug, PartialEq, Eq, Structural)]
pub enum Tool {
    /// The PHP framework's command-line generator.
    FrameworkCli,
    /// The Python full-stack framework's start-project command.
    AdminCli,
    /// The systems language's package manager.
    PackageManager,
    /// The Python interpreter under its primary name.
    Interpreter,
    /// The Python interpreter under its versioned alias.
    InterpreterAlias,
}

impl Tool {
    /// The name by which the executable is searched for and spawned.
    pub open spec fn spec_name(self) -> Seq<char> {
        match self {
            Tool::FrameworkCli => "symfony"@,
            Tool::AdminCli => "django-admin"@,
            Tool::PackageManager => "cargo"@,
            Tool::Interpreter => "python"@,
            Tool::InterpreterAlias => "python3"@,
        }
    }

    pub fn name(self) -> (name: &'static str)
        ensures
            name@ == self.spec_name(),
    {
        match self {
            Tool::FrameworkCli => "symfony",
            Tool::AdminCli => "django-admin",
            Tool::PackageManager => "cargo",
            Tool::Interpreter => "python",
            Tool::InterpreterAlias => "python3",
        }
    }
}

/// What is to be scaffolded.
#[derive(Clone, Copy, Debug, PartialEq, Eq, Structural)]
pub enum Kind {
    PhpFramework,
    PyMicro,
    PyFull,
    SysPackage,
}

impl Kind {
    /// The official generator of the kind's ecosystem, where it has one.
    pub open spec fn spec_generator(self) -> Option<Tool> {
        match self {
            Kind::PhpFramework => Some(Tool::FrameworkCli),
            Kind::PyMicro => None,
            Kind::PyFull => Some(Tool::AdminCli),
            Kind::SysPackage => Some(Tool::PackageManager),
        }
    }

    /// Whether a hand-written layout can stand in for the generator.
    pub open spec fn spec_has_fallback(self) -> bool {
        self != Kind::SysPackage
    }

    /// Whether an isolated interpreter environment is provisioned once the
    /// project exists.
    pub open spec fn spec_wants_environment(self) -> bool {
        self == Kind::PyMicro || self == Kind::PyFull
    }

    /// The subcommand that selects the kind on the command line.
    pub open spec fn spec_subcommand(self) -> Seq<char> {
        match self {
            Kind::PhpFramework => "php-framework"@,
            Kind::PyMicro => "py-micro"@,
            Kind::PyFull => "py-full"@,
            Kind::SysPackage => "sys-package"@,
        }
    }

    pub fn generator(self) -> (tool: Option<Tool>)
        ensures
            tool == self.spec_generator(),
    {
        match self {
            Kind::PhpFramework => Some(Tool::FrameworkCli),
            Kind::PyMicro => None,
            Kind::PyFull => Some(Tool::AdminCli),
            Kind::SysPackage => Some(Tool::PackageManager),
        }
    }

    pub fn has_fallback(self) -> (yes: bool)
        ensures
            yes == self.spec_has_fallback(),
    {
        match self {
            Kind::SysPackage => false,
            _ => true,
        }
    }

    pub fn wants_environment(self) -> (yes: bool)
        ensures
            yes == self.spec_wants_environment(),
    {
        match self {
            Kind::PyMicro | Kind::PyFull => true,
            _ => false,
        }
    }

    pub fn subcommand(self) -> (name: &'static str)
        ensures
            name@ == self.spec_subcommand(),
    {
        match self {
            Kind::PhpFramework => "php-framework",
            Kind::PyMicro => "py-micro",
            Kind::PyFull => "py-full",
            Kind::SysPackage => "sys-package",
        }
    }
}

} // verus!
