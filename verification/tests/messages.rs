use restartutil::exit_code::{ExitCode, EXIT_SUCCESS};
use restartutil::messages::{
    launch_failed_line, malformed_args_line, no_process_line, restarted_line,
    termination_failed_line, terminator_spawn_failed_line, usage_line,
};

#[test]
fn exit_codes_have_their_documented_values() {
    assert_eq!(EXIT_SUCCESS, 0);
    assert_eq!(ExitCode::MalformedArgs.code(), 1);
    assert_eq!(ExitCode::NoProcess.code(), 2);
    assert_eq!(ExitCode::ChildSpawnFailed.code(), 3);
}

#[test]
fn usage_line_names_the_tool_as_invoked() {
    assert_eq!(usage_line("restartutil"), "restartutil <process_name> [process_args]");
    assert_eq!(usage_line("./bin/rs"), "./bin/rs <process_name> [process_args]");
    assert_eq!(usage_line(""), " <process_name> [process_args]");
}

#[test]
fn argument_errors_carry_the_error_tag() {
    assert_eq!(malformed_args_line(), "ERROR: CLI arguments are malformed.");
    assert_eq!(no_process_line(), "ERROR: No process provided to restart!");
}

#[test]
fn terminator_spawn_failure_quotes_the_system_message() {
    assert_eq!(
        terminator_spawn_failed_line("No such file or directory (os error 2)"),
        "ERROR: Failed to spawn pkill child: No such file or directory (os error 2)"
    );
}

#[test]
fn termination_failure_is_a_warning() {
    assert_eq!(
        termination_failed_line(),
        "WARNING: Failed to kill process. Attempting to start new process anyways"
    );
}

#[test]
fn launch_failure_names_the_process_and_the_reason() {
    assert_eq!(
        launch_failed_line("webapp", "Permission denied (os error 13)"),
        "ERROR: Failed to spawn webapp: Permission denied (os error 13)"
    );
}

#[test]
fn confirmation_names_the_process() {
    assert_eq!(restarted_line("webapp"), "webapp restarted successfully!");
}
