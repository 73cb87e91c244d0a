//! The usage guard: decide from the command line whether to print a
//! usage message and exit cleanly, or to run a child command.

use vstd::prelude::*;

verus! {

/// What the harness does with its command line: with no command
/// argument it prints a usage message and exits cleanly, spawning
/// nothing and touching no log file; otherwise it runs the named
/// command with the trailing arguments.
pub enum RunPlan {
    Usage,
    Run { command: String, command_args: Vec<String> },
}

/// Decide the plan from the argument list (the program name first, as
/// the process received it). Exactly when a command name is present,
/// the plan is to run it, with the arguments after it passed along
/// unchanged and in order.
pub fn plan_invocation(args: Vec<String>) -> (r: RunPlan)
    ensures
        args@.len() < 2 ==> r is Usage,
        args@.len() >= 2 ==> (r matches RunPlan::Run { command, command_args }
            && command == args@[1] && command_args@ == args@.skip(2)),
{
    if args.len() < 2 {
        RunPlan::Usage
    } else {
        let mut rest = args;
        let _program = rest.remove(0);
        let command = rest.remove(0);
        proof {
            assert(rest@ =~= args@.skip(2));
        }
        RunPlan::Run { command, command_args: rest }
    }
}

} // verus!
