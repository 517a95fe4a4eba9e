//! What was asked for: the validated invocation.

use crate::kind::Kind;
use crate::outcome::{Error, ErrorView};
use vstd::prelude::*;
use vstd::string::*;

verus! {

/// A request to scaffold one project. Its name is never empty.
#[derive(Debug, PartialEq, Eq)]
pub struct Invocation {
    kind: Kind,
    project_name: String,
    non_interactive: bool,
}

pub struct InvocationView {
    pub kind: Kind,
    pub project_name: Seq<char>,
    pub non_interactive: bool,
}

impl View for Invocation {
    type V = InvocationView;

    closed spec fn view(&self) -> InvocationView {
        InvocationView {
            kind: self.kind,
            project_name: self.project_name@,
            non_interactive: self.non_interactive,
        }
    }
}

impl Invocation {
    #[verifier::type_invariant]
    spec fn named(self) -> bool {
        self.project_name@.len() > 0
    }

    /// Accepts the request unless the project name is empty.
    pub fn new(kind: Kind, project_name: &str, non_interactive: bool) -> (made: Result<
        Invocation,
        Error,
    >)
        ensures
            match made {
                Ok(invocation) => project_name@.len() > 0 && invocation@ == (InvocationView {
                    kind,
                    project_name: project_name@,
                    non_interactive,
                }),
                Err(error) => project_name@.len() == 0 && error@ == ErrorView::Usage,
            },
    {
        if project_name.is_empty() {
            Err(Error::Usage)
        } else {
            Ok(Invocation { kind, project_name: String::from_str(project_name), non_interactive })
        }
    }

    pub fn kind(&self) -> (kind: Kind)
        ensures
            kind == self@.kind,
    {
        self.kind
    }

    pub fn project_name(&self) -> (name: &str)
        ensures
            name@ == self@.project_name,
            name@.len() > 0,
    {
        proof {
            use_type_invariant(self);
        }
        self.project_name.as_str()
    }

    pub fn non_interactive(&self) -> (flag: bool)
        ensures
            flag == self@.non_interactive,
    {
        self.non_interactive
    }
}

} // verus!
