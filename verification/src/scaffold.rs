//! The hand-written layout that stands in for a missing generator.

use crate::kind::Kind;
use vstd::prelude::*;
use vstd::string::*;

verus! {

/// Placeholder front controller of the PHP layout.
pub const FRONT_CONTROLLER: &'static str = "<?php\n// Symfony front controller placeholder\n";

/// Minimal application of the Python micro-framework layout: one route.
pub const MICRO_APPLICATION: &'static str =
    "from flask import Flask\n\napp = Flask(__name__)\n\n@app.route('/')\ndef hello():\n    return \"Here we go again!\"\n\nif __name__ == '__main__':\n    app.run(debug=True)\n";

/// Entry-point script of the Python full-stack layout.
pub const ENTRY_SCRIPT: &'static str =
    "#!/usr/bin/env python\nimport os\nimport sys\n\nif __name__ == '__main__':\n    os.environ.setdefault('DJANGO_SETTINGS_MODULE', 'project.settings')\n    try:\n        from django.core.management import execute_from_command_line\n    except ImportError as exc:\n        raise ImportError(\"Couldn't import Django.\") from exc\n    execute_from_command_line(sys.argv)\n";

/// Minimal settings module of the Python full-stack layout.
pub const SETTINGS_MODULE: &'static str =
    "SECRET_KEY = 'your-secret-key'\nDEBUG = True\nALLOWED_HOSTS = []\nINSTALLED_APPS = [\n    'django.contrib.admin',\n    'django.contrib.auth',\n    'django.contrib.contenttypes',\n    'django.contrib.sessions',\n    'django.contrib.messages',\n    'django.contrib.staticfiles',\n    'app',\n]\nMIDDLEWARE = [\n    'django.middleware.security.SecurityMiddleware',\n    'django.contrib.sessions.middleware.SessionMiddleware',\n    'django.middleware.common.CommonMiddleware',\n]\nROOT_URLCONF = 'project.urls'\n";

/// A file to write: where, and what.
#[derive(Debug, PartialEq, Eq)]
pub struct FileEntry {
    pub path: String,
    pub content: String,
}

pub struct FileEntryView {
    pub path: Seq<char>,
    pub content: Seq<char>,
}

impl View for FileEntry {
    type V = FileEntryView;

    open spec fn view(&self) -> FileEntryView {
        FileEntryView { path: self.path@, content: self.content@ }
    }
}

/// Directories to create, in order, then files to write, in order.
#[derive(Debug, PartialEq, Eq)]
pub struct FallbackScaffold {
    pub directories: Vec<String>,
    pub files: Vec<FileEntry>,
}

pub struct ScaffoldView {
    pub directories: Seq<Seq<char>>,
    pub files: Seq<FileEntryView>,
}

impl View for FallbackScaffold {
    type V = ScaffoldView;

    open spec fn view(&self) -> ScaffoldView {
        ScaffoldView {
            directories: Seq::new(self.directories@.len(), |i: int| self.directories@[i]@),
            files: Seq::new(self.files@.len(), |i: int| self.files@[i]@),
        }
    }
}

/// `leaf` below `base`.
pub open spec fn spec_join(base: Seq<char>, leaf: Seq<char>) -> Seq<char> {
    base + "/"@ + leaf
}

/// The directories of a kind's layout, relative to the project directory.
pub open spec fn spec_directory_names(kind: Kind) -> Seq<Seq<char>> {
    match kind {
        Kind::PhpFramework => seq![
            "config"@,
            "public"@,
            "src"@,
            "templates"@,
            "var"@,
            "vendor"@,
        ],
        Kind::PyMicro => seq!["app"@, "venv"@, "static"@, "templates"@],
        Kind::PyFull => seq!["project"@, "app"@, "venv"@],
        Kind::SysPackage => seq![],
    }
}

/// The files of a kind's layout, their paths relative to the project
/// directory.
pub open spec fn spec_file_templates(kind: Kind) -> Seq<FileEntryView> {
    match kind {
        Kind::PhpFramework => seq![
            FileEntryView { path: "public/index.php"@, content: FRONT_CONTROLLER@ },
        ],
        Kind::PyMicro => seq![
            FileEntryView { path: "app/app.py"@, content: MICRO_APPLICATION@ },
        ],
        Kind::PyFull => seq![
            FileEntryView { path: "manage.py"@, content: ENTRY_SCRIPT@ },
            FileEntryView { path: "project/settings.py"@, content: SETTINGS_MODULE@ },
        ],
        Kind::SysPackage => seq![],
    }
}

/// The layout of `kind` for a project directory named `project`.
pub open spec fn spec_scaffold(kind: Kind, project: Seq<char>) -> ScaffoldView {
    let names = spec_directory_names(kind);
    let templates = spec_file_templates(kind);
    ScaffoldView {
        directories: Seq::new(names.len(), |i: int| spec_join(project, names[i])),
        files: Seq::new(
            templates.len(),
            |i: int|
                FileEntryView {
                    path: spec_join(project, templates[i].path),
                    content: templates[i].content,
                },
        ),
    }
}

/// Joins two path components with the separator.
pub fn join(base: &str, leaf: &str) -> (path: String)
    ensures
        path@ == spec_join(base@, leaf@),
{
    String::from_str(base).concat("/").concat(leaf)
}

fn directory_names(kind: Kind) -> (names: Vec<&'static str>)
    ensures
        names@.len() == spec_directory_names(kind).len(),
        forall|i: int| 0 <= i < names@.len() ==> names@[i]@ == spec_directory_names(kind)[i],
{
    match kind {
        Kind::PhpFramework => vec!["config", "public", "src", "templates", "var", "vendor"],
        Kind::PyMicro => vec!["app", "venv", "static", "templates"],
        Kind::PyFull => vec!["project", "app", "venv"],
        Kind::SysPackage => vec![],
    }
}

fn file_templates(kind: Kind) -> (templates: Vec<(&'static str, &'static str)>)
    ensures
        templates@.len() == spec_file_templates(kind).len(),
        forall|i: int|
            0 <= i < templates@.len() ==> {
                &&& (#[trigger] templates@[i]).0@ == spec_file_templates(kind)[i].path
                &&& templates@[i].1@ == spec_file_templates(kind)[i].content
            },
{
    match kind {
        Kind::PhpFramework => vec![("public/index.php", FRONT_CONTROLLER)],
        Kind::PyMicro => vec![("app/app.py", MICRO_APPLICATION)],
        Kind::PyFull => vec![("manage.py", ENTRY_SCRIPT), ("project/settings.py", SETTINGS_MODULE)],
        Kind::SysPackage => vec![],
    }
}

/// Builds the layout of `kind` below the directory `project_name`.
///
/// The result is a function of the two arguments alone: nothing is read
/// and nothing is written.
pub fn build_scaffold(kind: Kind, project_name: &str) -> (scaffold: FallbackScaffold)
    ensures
        scaffold@ == spec_scaffold(kind, project_name@),
        scaffold@.well_formed(),
{
    let names = directory_names(kind);
    let mut directories: Vec<String> = Vec::new();
    let mut i: usize = 0;
    while i < names.len()
        invariant
            i <= names@.len(),
            names@.len() == spec_directory_names(kind).len(),
            forall|k: int| 0 <= k < names@.len() ==> names@[k]@ == spec_directory_names(kind)[k],
            directories@.len() == i,
            forall|k: int|
                0 <= k < i ==> (#[trigger] directories@[k])@ == spec_join(
                    project_name@,
                    spec_directory_names(kind)[k],
                ),
        decreases names@.len() - i,
    {
        directories.push(join(project_name, names[i]));
        i = i + 1;
    }
    let templates = file_templates(kind);
    let mut files: Vec<FileEntry> = Vec::new();
    let mut j: usize = 0;
    while j < templates.len()
        invariant
            j <= templates@.len(),
            templates@.len() == spec_file_templates(kind).len(),
            forall|k: int|
                0 <= k < templates@.len() ==> {
                    &&& (#[trigger] templates@[k]).0@ == spec_file_templates(kind)[k].path
                    &&& templates@[k].1@ == spec_file_templates(kind)[k].content
                },
            files@.len() == j,
            forall|k: int|
                0 <= k < j ==> (#[trigger] files@[k])@ == (FileEntryView {
                    path: spec_join(project_name@, spec_file_templates(kind)[k].path),
                    content: spec_file_templates(kind)[k].content,
                }),
        decreases templates@.len() - j,
    {
        let template = templates[j];
        files.push(FileEntry { path: join(project_name, template.0), content: String::from_str(template.1) });
        j = j + 1;
    }
    let scaffold = FallbackScaffold { directories, files };
    assert(scaffold@.directories =~= spec_scaffold(kind, project_name@).directories);
    assert(scaffold@.files =~= spec_scaffold(kind, project_name@).files);
    proof {
        lemma_scaffold_well_formed(kind, project_name@);
    }
    scaffold
}

/// Building is a function of the kind and the name: two layouts built for
/// the same kind and the same name agree in every directory, every path
/// and every content.
pub proof fn lemma_scaffold_deterministic(
    first: FallbackScaffold,
    second: FallbackScaffold,
    kind: Kind,
    project: Seq<char>,
)
    requires
        first@ == spec_scaffold(kind, project),
        second@ == spec_scaffold(kind, project),
    ensures
        first.directories@.len() == second.directories@.len(),
        forall|i: int|
            0 <= i < first.directories@.len() ==> first.directories@[i]@ == second.directories@[i]@,
        first.files@.len() == second.files@.len(),
        forall|j: int|
            0 <= j < first.files@.len() ==> first.files@[j].path@ == second.files@[j].path@
                && first.files@[j].content@ == second.files@[j].content@,
{
    assert(first@.directories.len() == first.directories@.len());
    assert(second@.directories.len() == second.directories@.len());
    assert(first@.files.len() == first.files@.len());
    assert(second@.files.len() == second.files@.len());
    assert forall|i: int| 0 <= i < first.directories@.len() implies first.directories@[i]@
        == second.directories@[i]@ by {
        assert(first@.directories[i] == second@.directories[i]);
    }
    assert forall|j: int| 0 <= j < first.files@.len() implies first.files@[j].path@
        == second.files@[j].path@ && first.files@[j].content@ == second.files@[j].content@ by {
        assert(first@.files[j] == first.files@[j]@);
        assert(second@.files[j] == second.files@[j]@);
    }
}

/// `ancestor` names a directory on the way down to `path`.
pub open spec fn spec_is_ancestor(ancestor: Seq<char>, path: Seq<char>) -> bool {
    &&& ancestor.len() < path.len()
    &&& path.subrange(0, ancestor.len() as int) == ancestor
    &&& path[ancestor.len() as int] == '/'
}

/// Creating `directory` together with its missing ancestors leaves
/// `wanted` in place.
pub open spec fn spec_provides(directory: Seq<char>, wanted: Seq<char>) -> bool {
    directory == wanted || spec_is_ancestor(wanted, directory)
}

impl ScaffoldView {
    /// Every directory on the way down to a file of the layout is one of
    /// the layout's directories, or an ancestor of one: once the
    /// directories are created, each file has a place to go.
    pub open spec fn well_formed(self) -> bool {
        forall|j: int, ancestor: Seq<char>|
            0 <= j < self.files.len() && #[trigger] spec_is_ancestor(ancestor, self.files[j].path)
                ==> exists|i: int|
                0 <= i < self.directories.len() && #[trigger] spec_provides(
                    self.directories[i],
                    ancestor,
                )
    }
}

/// What lies on the way down to `project/leaf`, where `leaf` holds the
/// separator at `cut` and nowhere else, also lies on the way down to
/// `project/directory`, where `directory` is `leaf` up to `cut`.
proof fn lemma_nested_file_is_housed(
    project: Seq<char>,
    directory: Seq<char>,
    leaf: Seq<char>,
    cut: int,
    ancestor: Seq<char>,
)
    requires
        0 <= cut < leaf.len(),
        directory == leaf.subrange(0, cut),
        forall|i: int| 0 <= i < leaf.len() ==> (leaf[i] == '/' <==> i == cut),
        spec_is_ancestor(ancestor, spec_join(project, leaf)),
    ensures
        spec_provides(spec_join(project, directory), ancestor),
{
    reveal_strlit("/");
    let path = spec_join(project, leaf);
    let home = spec_join(project, directory);
    let depth = ancestor.len() as int;
    assert(path[depth] == '/');
    if depth <= project.len() {
        assert(home.subrange(0, depth) =~= path.subrange(0, depth));
        assert(home[depth] == path[depth]);
    } else {
        assert(path[depth] == leaf[depth - project.len() - 1]);
        assert(depth == project.len() + 1 + cut);
        assert(home =~= path.subrange(0, depth));
    }
}

/// What lies on the way down to `project/leaf`, where `leaf` holds no
/// separator, also lies on the way down to any `project/directory`.
proof fn lemma_top_file_is_housed(
    project: Seq<char>,
    directory: Seq<char>,
    leaf: Seq<char>,
    ancestor: Seq<char>,
)
    requires
        forall|i: int| 0 <= i < leaf.len() ==> leaf[i] != '/',
        spec_is_ancestor(ancestor, spec_join(project, leaf)),
    ensures
        spec_provides(spec_join(project, directory), ancestor),
{
    reveal_strlit("/");
    let path = spec_join(project, leaf);
    let home = spec_join(project, directory);
    let depth = ancestor.len() as int;
    assert(path[depth] == '/');
    if depth <= project.len() {
        assert(home.subrange(0, depth) =~= path.subrange(0, depth));
        assert(home[depth] == path[depth]);
    } else {
        assert(path[depth] == leaf[depth - project.len() - 1]);
    }
}

/// The layout of every kind, for every project name, is well formed.
pub proof fn lemma_scaffold_well_formed(kind: Kind, project: Seq<char>)
    ensures
        spec_scaffold(kind, project).well_formed(),
{
    let layout = spec_scaffold(kind, project);
    assert forall|j: int, ancestor: Seq<char>|
        0 <= j < layout.files.len() && #[trigger] spec_is_ancestor(
            ancestor,
            layout.files[j].path,
        ) implies exists|i: int|
        0 <= i < layout.directories.len() && #[trigger] spec_provides(
            layout.directories[i],
            ancestor,
        ) by {
        match kind {
            Kind::PhpFramework => {
                reveal_strlit("public/index.php");
                reveal_strlit("public");
                assert("public"@ =~= "public/index.php"@.subrange(0, 6));
                lemma_nested_file_is_housed(project, "public"@, "public/index.php"@, 6, ancestor);
                assert(spec_provides(layout.directories[1], ancestor));
            },
            Kind::PyMicro => {
                reveal_strlit("app/app.py");
                reveal_strlit("app");
                assert("app"@ =~= "app/app.py"@.subrange(0, 3));
                lemma_nested_file_is_housed(project, "app"@, "app/app.py"@, 3, ancestor);
                assert(spec_provides(layout.directories[0], ancestor));
            },
            Kind::PyFull => {
                if j == 0 {
                    reveal_strlit("manage.py");
                    lemma_top_file_is_housed(project, "project"@, "manage.py"@, ancestor);
                } else {
                    reveal_strlit("project/settings.py");
                    reveal_strlit("project");
                    assert("project"@ =~= "project/settings.py"@.subrange(0, 7));
                    lemma_nested_file_is_housed(
                        project,
                        "project"@,
                        "project/settings.py"@,
                        7,
                        ancestor,
                    );
                }
                assert(spec_provides(layout.directories[0], ancestor));
            },
            Kind::SysPackage => {},
        }
    }
}

} // verus!
