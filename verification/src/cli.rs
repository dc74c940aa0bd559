//! The dispatch of one invocation: an empty argument list only warns; a
//! help flag anywhere among the arguments takes priority over generation;
//! one argument alone names a full default project; more arguments go
//! through the parser.

use vstd::prelude::*;
use crate::options::default_inputs;
use crate::options::parse_args;
use crate::options::parsed_inputs;
use crate::options::parsed_warnings;
use crate::options::Inputs;
use crate::options::Warning;
use crate::text::str_eq;

verus! {

/// What one invocation does.
pub enum RunPlan {
    /// No arguments: warn that a name is required; nothing is created.
    WarnEmpty,
    /// A help flag was present: print the usage text; nothing is created.
    Help,
    /// Generate a project from the parsed options, after reporting the
    /// parser's warnings.
    Run { inputs: Inputs, warnings: Vec<Warning> },
}

/// A help flag stands somewhere in the argument list.
pub open spec fn contains_help(args: Seq<Seq<char>>) -> bool {
    exists|i: int| 0 <= i < args.len() && args[i] == "--help"@
}

/// Whether the argument list holds a help flag.
fn has_help_flag(args: &Vec<String>) -> (r: bool)
    ensures
        r == contains_help(args.deep_view()),
{
    let mut i: usize = 0;
    while i < args.len()
        invariant
            i <= args@.len(),
            forall|j: int| 0 <= j < i ==> args.deep_view()[j] != "--help"@,
        decreases args@.len() - i,
    {
        if str_eq(args[i].as_str(), "--help") {
            proof {
                assert(args.deep_view()[i as int] == "--help"@);
            }
            return true;
        }
        i += 1;
    }
    false
}

/// Decides what one invocation does. An empty list yields only a warning;
/// a help flag anywhere yields only the usage text; otherwise the first
/// argument names the project and the rest are parsed, a single argument
/// meaning a full default project.
pub fn plan_run(args: &Vec<String>) -> (r: RunPlan)
    ensures
        args@.len() == 0 ==> r is WarnEmpty,
        args@.len() > 0 && contains_help(args.deep_view()) ==> r is Help,
        args@.len() > 0 && !contains_help(args.deep_view()) ==> {
            &&& r matches RunPlan::Run { inputs, warnings }
            &&& inputs@ == parsed_inputs(args.deep_view())
            &&& warnings.deep_view() == parsed_warnings(args.deep_view())
        },
{
    if args.len() == 0 {
        RunPlan::WarnEmpty
    } else if has_help_flag(args) {
        RunPlan::Help
    } else if args.len() == 1 {
        let inputs = Inputs {
            name: args[0].clone(),
            config: true,
            opt: true,
            lib: false,
            template_dir: None,
        };
        let warnings: Vec<Warning> = Vec::new();
        proof {
            assert(inputs@ =~= default_inputs(args.deep_view()[0]));
            assert(warnings.deep_view() =~= parsed_warnings(args.deep_view()));
        }
        RunPlan::Run { inputs, warnings }
    } else {
        let (inputs, warnings) = parse_args(args);
        RunPlan::Run { inputs, warnings }
    }
}

} // verus!
