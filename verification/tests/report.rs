use project_generator::kind::{Kind, Tool};
use project_generator::outcome::Error;
use project_generator::protocol::Notice;
use project_generator::report::{error_message, guidance, install_source, question, status_line};

#[test]
fn install_sources() {
    assert_eq!(install_source(Tool::FrameworkCli), "https://symfony.com/download");
    assert_eq!(install_source(Tool::AdminCli), "pip install Django");
    assert_eq!(install_source(Tool::PackageManager), "https://rustup.rs");
    assert_eq!(install_source(Tool::Interpreter), "https://www.python.org/downloads");
    assert_eq!(install_source(Tool::InterpreterAlias), "https://www.python.org/downloads");
}

#[test]
fn question_names_the_missing_tool() {
    assert_eq!(
        question(Tool::AdminCli),
        "django-admin is missing. Create a minimal structure manually instead?"
    );
    assert_eq!(
        question(Tool::FrameworkCli),
        "symfony is missing. Create a minimal structure manually instead?"
    );
}

#[test]
fn guidance_names_the_tool_and_its_source() {
    assert_eq!(
        guidance(Tool::PackageManager),
        "Please install cargo (https://rustup.rs) and try again."
    );
    assert_eq!(
        guidance(Tool::AdminCli),
        "Please install django-admin (pip install Django) and try again."
    );
}

#[test]
fn error_messages() {
    assert_eq!(error_message(&Error::Usage), "A project name is required.");
    assert_eq!(
        error_message(&Error::ToolExecution(Tool::FrameworkCli)),
        "Failed to create the project: symfony exited with a failure status."
    );
    assert_eq!(
        error_message(&Error::Io("demo/public/index.php".to_string())),
        "Failed to create demo/public/index.php"
    );
}

#[test]
fn status_lines() {
    let line = |notice| status_line(Kind::PyFull, "demo", notice);
    assert_eq!(line(Notice::Starting), "Creating py-full project for: demo");
    assert_eq!(line(Notice::GeneratorFound(Tool::AdminCli)), "Found django-admin.");
    assert_eq!(line(Notice::GeneratorMissing(Tool::AdminCli)), "django-admin not found.");
    assert_eq!(
        line(Notice::InstallGuidance(Tool::AdminCli)),
        "Please install django-admin (pip install Django) and try again."
    );
    assert_eq!(line(Notice::ProjectGenerated), "Project created successfully!");
    assert_eq!(line(Notice::ScaffoldCreated), "Fallback project structure created successfully!");
    assert_eq!(
        line(Notice::ProvisioningEnvironment),
        "Setting up Python virtual environment (ensure Python is installed)..."
    );
    assert_eq!(line(Notice::EnvironmentReady), "Virtual environment created successfully!");
    assert_eq!(
        line(Notice::EnvironmentFailed),
        "Failed to create virtual environment. Please create it manually using 'python -m venv venv' in your project directory."
    );
    assert_eq!(
        status_line(Kind::SysPackage, "x", Notice::Starting),
        "Creating sys-package project for: x"
    );
}
