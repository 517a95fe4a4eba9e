//! The words in which a run is reported: status lines, the question put to
//! the user, and the message of a failure.

use crate::kind::{Kind, Tool};
use crate::outcome::{Error, ErrorView};
use crate::protocol::Notice;
use vstd::prelude::*;
use vstd::string::*;

verus! {

/// Where a tool is to be had.
pub open spec fn spec_install_source(tool: Tool) -> Seq<char> {
    match tool {
        Tool::FrameworkCli => "https://symfony.com/download"@,
        Tool::AdminCli => "pip install Django"@,
        Tool::PackageManager => "https://rustup.rs"@,
        Tool::Interpreter => "https://www.python.org/downloads"@,
        Tool::InterpreterAlias => "https://www.python.org/downloads"@,
    }
}

pub fn install_source(tool: Tool) -> (source: &'static str)
    ensures
        source@ == spec_install_source(tool),
{
    match tool {
        Tool::FrameworkCli => "https://symfony.com/download",
        Tool::AdminCli => "pip install Django",
        Tool::PackageManager => "https://rustup.rs",
        Tool::Interpreter => "https://www.python.org/downloads",
        Tool::InterpreterAlias => "https://www.python.org/downloads",
    }
}

/// The question that offers the fallback in place of an absent tool.
pub open spec fn spec_question(tool: Tool) -> Seq<char> {
    tool.spec_name() + " is missing. Create a minimal structure manually instead?"@
}

pub fn question(tool: Tool) -> (text: String)
    ensures
        text@ == spec_question(tool),
{
    String::from_str(tool.name()).concat(
        " is missing. Create a minimal structure manually instead?",
    )
}

/// The guidance given where a tool is absent and nothing was generated:
/// it names the tool and where to get it.
pub open spec fn spec_guidance(tool: Tool) -> Seq<char> {
    "Please install "@ + tool.spec_name() + " ("@ + spec_install_source(tool)
        + ") and try again."@
}

pub fn guidance(tool: Tool) -> (text: String)
    ensures
        text@ == spec_guidance(tool),
{
    String::from_str("Please install ").concat(tool.name()).concat(" (").concat(
        install_source(tool),
    ).concat(") and try again.")
}

/// The message of a hard failure. A failed generator is named; a failed
/// directory or file is named by its exact path.
pub open spec fn spec_error_message(error: ErrorView) -> Seq<char> {
    match error {
        ErrorView::Usage => "A project name is required."@,
        ErrorView::ToolExecution(tool) => "Failed to create the project: "@ + tool.spec_name()
            + " exited with a failure status."@,
        ErrorView::Io(path) => "Failed to create "@ + path,
    }
}

pub fn error_message(error: &Error) -> (text: String)
    ensures
        text@ == spec_error_message(error@),
{
    match error {
        Error::Usage => String::from_str("A project name is required."),
        Error::ToolExecution(tool) => String::from_str("Failed to create the project: ").concat(
            tool.name(),
        ).concat(" exited with a failure status."),
        Error::Io(path) => String::from_str("Failed to create ").concat(path.as_str()),
    }
}

/// The status line of a notice, in a run of `kind` for `project`.
pub open spec fn spec_status_line(kind: Kind, project: Seq<char>, notice: Notice) -> Seq<char> {
    match notice {
        Notice::Starting => "Creating "@ + kind.spec_subcommand() + " project for: "@ + project,
        Notice::GeneratorFound(tool) => "Found "@ + tool.spec_name() + "."@,
        Notice::GeneratorMissing(tool) => tool.spec_name() + " not found."@,
        Notice::InstallGuidance(tool) => spec_guidance(tool),
        Notice::ProjectGenerated => "Project created successfully!"@,
        Notice::ScaffoldCreated => "Fallback project structure created successfully!"@,
        Notice::ProvisioningEnvironment =>
            "Setting up Python virtual environment (ensure Python is installed)..."@,
        Notice::EnvironmentReady => "Virtual environment created successfully!"@,
        Notice::EnvironmentFailed =>
            "Failed to create virtual environment. Please create it manually using 'python -m venv venv' in your project directory."@,
    }
}

pub fn status_line(kind: Kind, project: &str, notice: Notice) -> (text: String)
    ensures
        text@ == spec_status_line(kind, project@, notice),
{
    match notice {
        Notice::Starting => String::from_str("Creating ").concat(kind.subcommand()).concat(
            " project for: ",
        ).concat(project),
        Notice::GeneratorFound(tool) => String::from_str("Found ").concat(tool.name()).concat("."),
        Notice::GeneratorMissing(tool) => String::from_str(tool.name()).concat(" not found."),
        Notice::InstallGuidance(tool) => guidance(tool),
        Notice::ProjectGenerated => String::from_str("Project created successfully!"),
        Notice::ScaffoldCreated => String::from_str(
            "Fallback project structure created successfully!",
        ),
        Notice::ProvisioningEnvironment => String::from_str(
            "Setting up Python virtual environment (ensure Python is installed)...",
        ),
        Notice::EnvironmentReady => String::from_str("Virtual environment created successfully!"),
        Notice::EnvironmentFailed => String::from_str(
            "Failed to create virtual environment. Please create it manually using 'python -m venv venv' in your project directory.",
        ),
    }
}

} // verus!
