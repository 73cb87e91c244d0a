use tty_relay::args::{plan_invocation, RunPlan};

#[test]
fn missing_command_yields_usage() {
    let args = vec![String::from("harness")];
    match plan_invocation(args) {
        RunPlan::Usage => {}
        RunPlan::Run { .. } => panic!("a missing command must yield the usage plan"),
    }
}

#[test]
fn empty_argument_list_yields_usage() {
    let args: Vec<String> = vec![];
    match plan_invocation(args) {
        RunPlan::Usage => {}
        RunPlan::Run { .. } => panic!("an empty argument list must yield the usage plan"),
    }
}

#[test]
fn command_without_arguments_runs_it() {
    let args = vec![String::from("harness"), String::from("cat")];
    match plan_invocation(args) {
        RunPlan::Run { command, command_args } => {
            assert_eq!(command, "cat");
            assert!(command_args.is_empty());
        }
        RunPlan::Usage => panic!("a present command must be run"),
    }
}

#[test]
fn trailing_arguments_pass_along_in_order() {
    let args = vec![
        String::from("harness"),
        String::from("grep"),
        String::from("-n"),
        String::from("needle"),
    ];
    match plan_invocation(args) {
        RunPlan::Run { command, command_args } => {
            assert_eq!(command, "grep");
            assert_eq!(command_args, vec![String::from("-n"), String::from("needle")]);
        }
        RunPlan::Usage => panic!("a present command must be run"),
    }
}
