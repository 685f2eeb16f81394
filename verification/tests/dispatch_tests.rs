use cargo_ci::dispatch::{build_command, render_command, CommandSpec};
use cargo_ci::report::{
    bail, missing_subcommand_message, running_message, signal_termination_message,
    spawn_failure_message, FATAL_EXIT_CODE, NOOP_EXIT_CODE,
};

#[test]
fn managed_subcommand_runs_through_the_manager() {
    let spec = build_command(
        "cargo",
        String::from("build"),
        vec![String::from("--release")],
        true,
    );
    assert_eq!(spec.program, "cargo");
    assert_eq!(spec.arguments, vec![String::from("build"), String::from("--release")]);
}

#[test]
fn unmanaged_subcommand_runs_directly() {
    let spec = build_command("cargo", String::from("echo"), vec![String::from("hi")], false);
    assert_eq!(spec.program, "echo");
    assert_eq!(spec.arguments, vec![String::from("hi")]);
}

#[test]
fn managed_subcommand_without_trailing_args() {
    let spec = build_command("cargo", String::from("test"), Vec::new(), true);
    assert_eq!(spec.program, "cargo");
    assert_eq!(spec.arguments, vec![String::from("test")]);
}

#[test]
fn rendering_joins_program_and_arguments_with_spaces() {
    let spec = CommandSpec {
        program: String::from("cargo"),
        arguments: vec![String::from("build"), String::from("--release")],
    };
    assert_eq!(render_command(&spec), "cargo build --release");
}

#[test]
fn rendering_a_bare_program_adds_nothing() {
    let spec = CommandSpec { program: String::from("true"), arguments: Vec::new() };
    assert_eq!(render_command(&spec), "true");
}

#[test]
fn bail_attaches_the_cause() {
    assert_eq!(
        bail("failed to run `cargo --list`.", "No such file or directory (os error 2)"),
        "failed to run `cargo --list`.\n            due to: No such file or directory (os error 2)"
    );
}

#[test]
fn fatal_messages_have_the_fixed_wording() {
    assert_eq!(missing_subcommand_message(), "a subcommand is required.");
    assert_eq!(signal_termination_message(), "command terminated by signal.");
    assert_eq!(spawn_failure_message("cargo --list"), "failed to run `cargo --list`.");
    assert_eq!(running_message("cargo build"), "running `cargo build`.");
}

#[test]
fn reserved_exit_codes() {
    assert_eq!(FATAL_EXIT_CODE, 255);
    assert_eq!(NOOP_EXIT_CODE, 0);
}
