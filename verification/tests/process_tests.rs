use devnet::poller::PollConfig;
use devnet::process::{
    arguments, checkout_root, invocation, judge, step_failure, CaptureMode, Failure,
    ProcessInvocation, ProcessOutcome, RunResult, Settings, Tool, ToolCommand, CHECKOUT_DIR_NAME,
    COMPOSE_FILE, DEFAULT_MAX_DURATION, DEFAULT_POLL_INTERVAL, METADATA_DIR_NAME, REMOTE_URL,
};

fn settings() -> Settings {
    Settings::standard("/home/u/.tool-repo".to_string())
}

fn words(items: &[&str]) -> Vec<String> {
    items.iter().map(|s| s.to_string()).collect()
}

fn exited(success: bool, stdout: &[u8], stderr: &[u8]) -> RunResult {
    RunResult::Exited(ProcessOutcome { success, stdout: stdout.to_vec(), stderr: stderr.to_vec() })
}

#[test]
fn standard_settings_name_the_fixed_remote_and_compose_file() {
    let s = settings();
    assert_eq!(s.root, "/home/u/.tool-repo");
    assert_eq!(s.remote_url, "https://github.com/zippiehq/cartesi-coprocessor");
    assert_eq!(s.remote_url, REMOTE_URL);
    assert_eq!(s.compose_file, "docker-compose-devnet.yaml");
    assert_eq!(s.compose_file, COMPOSE_FILE);
    assert_eq!(s.poll_interval, 5);
    assert_eq!(s.max_duration, 30000);
    assert_eq!(DEFAULT_POLL_INTERVAL, 5);
    assert_eq!(DEFAULT_MAX_DURATION, 30000);
    assert_eq!(METADATA_DIR_NAME, ".git");
    assert_eq!(s.poll_config(), PollConfig { interval: 5, max_duration: 30000 });
}

#[test]
fn checkout_root_joins_the_directory_name_to_the_home() {
    assert_eq!(checkout_root("/home/u"), "/home/u/.cartesi-coprocessor-repo");
    assert_eq!(checkout_root("/home/u/"), "/home/u/.cartesi-coprocessor-repo");
    assert_eq!(checkout_root("/"), "/.cartesi-coprocessor-repo");
    assert_eq!(checkout_root(""), ".cartesi-coprocessor-repo");
    assert_eq!(checkout_root("/home/\u{00e9}"), "/home/\u{00e9}/.cartesi-coprocessor-repo");
    assert_eq!(CHECKOUT_DIR_NAME, ".cartesi-coprocessor-repo");
}

#[test]
fn clone_names_remote_and_target_and_runs_where_the_caller_stands() {
    let inv = invocation(&settings(), ToolCommand::Clone);
    assert_eq!(
        inv,
        ProcessInvocation {
            program: "git".to_string(),
            args: words(&[
                "clone",
                "https://github.com/zippiehq/cartesi-coprocessor",
                "/home/u/.tool-repo"
            ]),
            cwd: None,
            mode: CaptureMode::Buffered,
        }
    );
}

#[test]
fn version_control_commands_run_inside_the_checkout() {
    let s = settings();
    let status = invocation(&s, ToolCommand::Status);
    assert_eq!(status.program, "git");
    assert_eq!(status.args, words(&["status"]));
    assert_eq!(status.cwd, Some("/home/u/.tool-repo".to_string()));
    assert_eq!(status.mode, CaptureMode::Buffered);

    let pull = invocation(&s, ToolCommand::Pull);
    assert_eq!(pull.program, "git");
    assert_eq!(pull.args, words(&["pull", "origin", "main"]));
    assert_eq!(pull.cwd, Some("/home/u/.tool-repo".to_string()));
    assert_eq!(pull.mode, CaptureMode::Buffered);
}

#[test]
fn submodule_update_is_recursive_and_streamed() {
    let inv = invocation(&settings(), ToolCommand::UpdateSubmodules);
    assert_eq!(inv.program, "git");
    assert_eq!(inv.args, words(&["submodule", "update", "--init", "--recursive"]));
    assert_eq!(inv.cwd, Some("/home/u/.tool-repo".to_string()));
    assert_eq!(inv.mode, CaptureMode::Streamed);
}

#[test]
fn container_commands_address_the_compose_file() {
    let s = settings();
    let build = invocation(&s, ToolCommand::ComposeBuild);
    assert_eq!(build.program, "docker");
    assert_eq!(build.args, words(&["compose", "-f", "docker-compose-devnet.yaml", "build"]));
    assert_eq!(build.cwd, Some("/home/u/.tool-repo".to_string()));
    assert_eq!(build.mode, CaptureMode::Buffered);

    let pull = invocation(&s, ToolCommand::ComposePull);
    assert_eq!(pull.program, "docker");
    assert_eq!(pull.args, words(&["compose", "-f", "docker-compose-devnet.yaml", "pull"]));

    let up = invocation(&s, ToolCommand::ComposeUp);
    assert_eq!(up.program, "docker");
    assert_eq!(up.args, words(&["compose", "-f", "docker-compose-devnet.yaml", "up", "--wait", "-d"]));
    assert_eq!(up.cwd, Some("/home/u/.tool-repo".to_string()));

    let down = invocation(&s, ToolCommand::ComposeDown);
    assert_eq!(down.program, "docker");
    assert_eq!(down.args, words(&["compose", "-f", "docker-compose-devnet.yaml", "down", "-v"]));
    assert_eq!(down.cwd, Some("/home/u/.tool-repo".to_string()));
}

#[test]
fn settings_of_a_fixture_are_rendered_as_given() {
    let s = Settings {
        root: "/tmp/fixture".to_string(),
        remote_url: "file:///srv/fixture.git".to_string(),
        compose_file: "compose.yaml".to_string(),
        poll_interval: 1,
        max_duration: 3,
    };
    assert_eq!(
        arguments(&s, ToolCommand::Clone),
        words(&["clone", "file:///srv/fixture.git", "/tmp/fixture"])
    );
    assert_eq!(
        arguments(&s, ToolCommand::ComposeDown),
        words(&["compose", "-f", "compose.yaml", "down", "-v"])
    );
    assert_eq!(invocation(&s, ToolCommand::Status).cwd, Some("/tmp/fixture".to_string()));
}

#[test]
fn commands_belong_to_their_tools() {
    assert_eq!(ToolCommand::Clone.tool(), Tool::VersionControl);
    assert_eq!(ToolCommand::Status.tool(), Tool::VersionControl);
    assert_eq!(ToolCommand::Pull.tool(), Tool::VersionControl);
    assert_eq!(ToolCommand::UpdateSubmodules.tool(), Tool::VersionControl);
    assert_eq!(ToolCommand::ComposeBuild.tool(), Tool::Container);
    assert_eq!(ToolCommand::ComposePull.tool(), Tool::Container);
    assert_eq!(ToolCommand::ComposeUp.tool(), Tool::Container);
    assert_eq!(ToolCommand::ComposeDown.tool(), Tool::Container);
    assert_eq!(ToolCommand::UpdateSubmodules.mode(), CaptureMode::Streamed);
    assert_eq!(ToolCommand::Clone.mode(), CaptureMode::Buffered);
    assert_eq!(ToolCommand::ComposeUp.mode(), CaptureMode::Buffered);
}

#[test]
fn successful_exit_is_handed_on_with_its_output() {
    let verdict = judge(ToolCommand::Status, exited(true, b"out", b"err"));
    assert_eq!(
        verdict,
        Ok(ProcessOutcome { success: true, stdout: b"out".to_vec(), stderr: b"err".to_vec() })
    );
}

#[test]
fn failed_version_control_command_is_a_sync_error_with_its_stderr() {
    let verdict = judge(ToolCommand::Clone, exited(false, b"ignored", b"fatal: repository not found"));
    assert_eq!(
        verdict,
        Err(Failure::Sync {
            command: ToolCommand::Clone,
            stderr: b"fatal: repository not found".to_vec()
        })
    );
}

#[test]
fn failed_container_command_is_a_lifecycle_step_error_with_its_stderr() {
    let verdict = judge(ToolCommand::ComposeDown, exited(false, b"", b"network not found"));
    assert_eq!(
        verdict,
        Err(Failure::LifecycleStep {
            command: ToolCommand::ComposeDown,
            stderr: b"network not found".to_vec()
        })
    );
    assert_eq!(
        step_failure(ToolCommand::ComposeBuild, b"no space".to_vec()),
        Failure::LifecycleStep { command: ToolCommand::ComposeBuild, stderr: b"no space".to_vec() }
    );
    assert_eq!(
        step_failure(ToolCommand::Pull, b"conflict".to_vec()),
        Failure::Sync { command: ToolCommand::Pull, stderr: b"conflict".to_vec() }
    );
}

#[test]
fn launch_wait_and_timeout_keep_their_kind() {
    assert_eq!(
        judge(ToolCommand::ComposeUp, RunResult::LaunchFailed(b"No such file or directory".to_vec())),
        Err(Failure::Launch {
            command: ToolCommand::ComposeUp,
            detail: b"No such file or directory".to_vec()
        })
    );
    assert_eq!(
        judge(ToolCommand::Pull, RunResult::WaitFailed(b"interrupted".to_vec())),
        Err(Failure::Execution { command: ToolCommand::Pull, detail: b"interrupted".to_vec() })
    );
    assert_eq!(
        judge(ToolCommand::UpdateSubmodules, RunResult::TimedOut),
        Err(Failure::TimedOut { command: ToolCommand::UpdateSubmodules })
    );
}

#[test]
fn failure_gives_its_diagnostic_and_its_command() {
    let launch = Failure::Launch { command: ToolCommand::Clone, detail: b"a".to_vec() };
    let exec = Failure::Execution { command: ToolCommand::Status, detail: b"b".to_vec() };
    let fs = Failure::Filesystem { detail: b"c".to_vec() };
    let sync = Failure::Sync { command: ToolCommand::Pull, stderr: b"d".to_vec() };
    let step = Failure::LifecycleStep { command: ToolCommand::ComposeUp, stderr: b"e".to_vec() };
    let timed = Failure::TimedOut { command: ToolCommand::UpdateSubmodules };
    assert_eq!(launch.diagnostic(), b"a");
    assert_eq!(exec.diagnostic(), b"b");
    assert_eq!(fs.diagnostic(), b"c");
    assert_eq!(sync.diagnostic(), b"d");
    assert_eq!(step.diagnostic(), b"e");
    assert_eq!(timed.diagnostic(), b"");
    assert_eq!(launch.command(), Some(ToolCommand::Clone));
    assert_eq!(exec.command(), Some(ToolCommand::Status));
    assert_eq!(fs.command(), None);
    assert_eq!(sync.command(), Some(ToolCommand::Pull));
    assert_eq!(step.command(), Some(ToolCommand::ComposeUp));
    assert_eq!(timed.command(), Some(ToolCommand::UpdateSubmodules));
}
