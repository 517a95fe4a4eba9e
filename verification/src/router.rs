//! The command line: one subcommand that selects the kind, one project
//! name, and a switch that may stand anywhere.

use crate::kind::Kind;
use crate::outcome::{Error, ErrorView};
use crate::request::{Invocation, InvocationView};
use vstd::prelude::*;
use vstd::string::*;

verus! {

/// The switch of non-interactive mode: every confirmation is taken as
/// given, and none is asked for.
pub const NON_INTERACTIVE_SWITCH: &'static str = "--no-prompt";

/// The kind that a subcommand selects.
pub open spec fn spec_kind_named(name: Seq<char>) -> Option<Kind> {
    if name == Kind::PhpFramework.spec_subcommand() {
        Some(Kind::PhpFramework)
    } else if name == Kind::PyMicro.spec_subcommand() {
        Some(Kind::PyMicro)
    } else if name == Kind::PyFull.spec_subcommand() {
        Some(Kind::PyFull)
    } else if name == Kind::SysPackage.spec_subcommand() {
        Some(Kind::SysPackage)
    } else {
        None
    }
}

/// The arguments that are not the switch, in their order.
pub open spec fn spec_positionals(arguments: Seq<Seq<char>>) -> Seq<Seq<char>>
    decreases arguments.len(),
{
    if arguments.len() == 0 {
        seq![]
    } else if arguments.last() == NON_INTERACTIVE_SWITCH@ {
        spec_positionals(arguments.drop_last())
    } else {
        spec_positionals(arguments.drop_last()).push(arguments.last())
    }
}

/// What a command line asks for. It is well formed where, the switch set
/// aside, exactly two arguments are left: the subcommand of a kind, then a
/// project name that is not empty.
pub open spec fn spec_parse(arguments: Seq<Seq<char>>) -> Result<InvocationView, ErrorView> {
    let positionals = spec_positionals(arguments);
    if positionals.len() != 2 {
        Err(ErrorView::Usage)
    } else {
        match spec_kind_named(positionals[0]) {
            None => Err(ErrorView::Usage),
            Some(kind) => if positionals[1].len() == 0 {
                Err(ErrorView::Usage)
            } else {
                Ok(
                    InvocationView {
                        kind,
                        project_name: positionals[1],
                        non_interactive: arguments.contains(NON_INTERACTIVE_SWITCH@),
                    },
                )
            },
        }
    }
}

fn same(left: &str, right: &str) -> (equal: bool)
    ensures
        equal == (left@ == right@),
{
    String::from_str(left) == String::from_str(right)
}

/// Looks a subcommand up among the kinds.
pub fn kind_named(name: &str) -> (kind: Option<Kind>)
    ensures
        kind == spec_kind_named(name@),
{
    if same(name, Kind::PhpFramework.subcommand()) {
        Some(Kind::PhpFramework)
    } else if same(name, Kind::PyMicro.subcommand()) {
        Some(Kind::PyMicro)
    } else if same(name, Kind::PyFull.subcommand()) {
        Some(Kind::PyFull)
    } else if same(name, Kind::SysPackage.subcommand()) {
        Some(Kind::SysPackage)
    } else {
        None
    }
}

/// Reads the arguments of the process, the program's own name left out.
pub fn parse_arguments(arguments: &Vec<String>) -> (parsed: Result<Invocation, Error>)
    ensures
        match parsed {
            Ok(invocation) => spec_parse(arguments.deep_view()) == Ok::<
                InvocationView,
                ErrorView,
            >(invocation@),
            Err(error) => spec_parse(arguments.deep_view()) == Err::<InvocationView, ErrorView>(
                error@,
            ),
        },
{
    let ghost all = arguments.deep_view();
    let mut positionals: Vec<&str> = Vec::new();
    let mut non_interactive = false;
    let mut i: usize = 0;
    proof {
        assert(all.take(0) =~= Seq::<Seq<char>>::empty());
    }
    while i < arguments.len()
        invariant
            i <= arguments@.len(),
            all == arguments.deep_view(),
            positionals@.len() == spec_positionals(all.take(i as int)).len(),
            forall|k: int|
                0 <= k < positionals@.len() ==> (#[trigger] positionals@[k])@ == spec_positionals(
                    all.take(i as int),
                )[k],
            non_interactive == all.take(i as int).contains(NON_INTERACTIVE_SWITCH@),
        decreases arguments@.len() - i,
    {
        let argument = arguments[i].as_str();
        proof {
            assert(all.take(i + 1).drop_last() =~= all.take(i as int));
            assert(all.take(i + 1).last() == argument@);
        }
        if same(argument, NON_INTERACTIVE_SWITCH) {
            non_interactive = true;
            proof {
                assert(all.take(i + 1)[i as int] == NON_INTERACTIVE_SWITCH@);
            }
        } else {
            positionals.push(argument);
            proof {
                let earlier = all.take(i as int);
                let later = all.take(i + 1);
                if later.contains(NON_INTERACTIVE_SWITCH@) {
                    let at = choose|at: int|
                        0 <= at < later.len() && #[trigger] later[at] == NON_INTERACTIVE_SWITCH@;
                    assert(earlier[at] == NON_INTERACTIVE_SWITCH@);
                }
                if earlier.contains(NON_INTERACTIVE_SWITCH@) {
                    let at = choose|at: int|
                        0 <= at < earlier.len() && #[trigger] earlier[at]
                            == NON_INTERACTIVE_SWITCH@;
                    assert(later[at] == NON_INTERACTIVE_SWITCH@);
                }
            }
        }
        i = i + 1;
    }
    proof {
        assert(all.take(i as int) =~= all);
    }
    if positionals.len() != 2 {
        return Err(Error::Usage);
    }
    match kind_named(positionals[0]) {
        None => Err(Error::Usage),
        Some(kind) => Invocation::new(kind, positionals[1], non_interactive),
    }
}

} // verus!
