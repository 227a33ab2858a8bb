//! Invocations of the external tools and the way their results are judged.

use vstd::prelude::*;
use crate::poller::PollConfig;
use vstd::string::{StrSliceExecFns, StringExecFns};

verus! {

/// The program that performs version-control operations.
pub const VCS_PROGRAM: &'static str = "git";

/// The program that builds and runs containers.
pub const CONTAINER_PROGRAM: &'static str = "docker";

/// The repository that the local checkout mirrors.
pub const REMOTE_URL: &'static str = "https://github.com/zippiehq/cartesi-coprocessor";

/// The compose file, inside the checkout, that describes the network.
pub const COMPOSE_FILE: &'static str = "docker-compose-devnet.yaml";

/// The directory, under the user's home, that holds the checkout.
pub const CHECKOUT_DIR_NAME: &'static str = ".cartesi-coprocessor-repo";

/// The directory, inside the checkout, that holds version-control metadata.
pub const METADATA_DIR_NAME: &'static str = ".git";

/// How far apart two completion checks of a supervised process are, in seconds.
pub const DEFAULT_POLL_INTERVAL: u64 = 5;

/// How long a supervised process may run before it is given up, in seconds.
pub const DEFAULT_MAX_DURATION: u64 = 30000;

/// How the output of a process is taken.
#[derive(Clone, Copy, Debug, PartialEq, Eq, Structural)]
pub enum CaptureMode {
    /// The output is collected and returned when the process has exited.
    Buffered,
    /// The output is relayed line by line while the process runs.
    Streamed,
}

/// One of the two external tools.
#[derive(Clone, Copy, Debug, PartialEq, Eq, Structural)]
pub enum Tool {
    VersionControl,
    Container,
}

/// The operations that are asked of the external tools.
#[derive(Clone, Copy, Debug, PartialEq, Eq, Structural)]
pub enum ToolCommand {
    /// Copy the remote repository into the checkout root.
    Clone,
    /// Report how the local branch stands against its upstream.
    Status,
    /// Bring the tracked branch up to date.
    Pull,
    /// Initialise and update nested submodules, recursively.
    UpdateSubmodules,
    /// Build the container images.
    ComposeBuild,
    /// Refresh the container images from their registries.
    ComposePull,
    /// Bring the containers up, detached, and wait until they are healthy.
    ComposeUp,
    /// Tear the containers down and remove their volumes.
    ComposeDown,
}

/// Where the checkout lives and what it mirrors.
#[derive(Clone, Debug, PartialEq, Eq)]
pub struct Settings {
    /// The checkout root.
    pub root: String,
    /// The remote repository.
    pub remote_url: String,
    /// The compose file's name, relative to the checkout root.
    pub compose_file: String,
    /// Seconds between two completion checks of a supervised process.
    pub poll_interval: u64,
    /// Seconds after which a supervised process is given up.
    pub max_duration: u64,
}

/// A request to run one external program.
#[derive(Clone, Debug, PartialEq, Eq)]
pub struct ProcessInvocation {
    pub program: String,
    pub args: Vec<String>,
    /// The directory to run in; `None` leaves the caller's own.
    pub cwd: Option<String>,
    pub mode: CaptureMode,
}

/// A `ProcessInvocation` as mathematical text.
pub struct InvocationView {
    pub program: Seq<char>,
    pub args: Seq<Seq<char>>,
    pub cwd: Option<Seq<char>>,
    pub mode: CaptureMode,
}

/// The texts of a list of strings.
pub open spec fn texts(items: Seq<String>) -> Seq<Seq<char>> {
    Seq::new(items.len(), |i: int| items[i]@)
}

impl View for ProcessInvocation {
    type V = InvocationView;

    open spec fn view(&self) -> InvocationView {
        InvocationView {
            program: self.program@,
            args: texts(self.args@),
            cwd: match self.cwd {
                Some(dir) => Some(dir@),
                None => None,
            },
            mode: self.mode,
        }
    }
}

/// What a process left behind when it exited.
#[derive(Clone, Debug, PartialEq, Eq)]
pub struct ProcessOutcome {
    /// Whether the exit status reported success.
    pub success: bool,
    /// Everything written to standard output, unless it was streamed.
    pub stdout: Vec<u8>,
    /// Everything written to standard error.
    pub stderr: Vec<u8>,
}

/// How an attempt to run a process ended.
#[derive(Clone, Debug, PartialEq, Eq)]
pub enum RunResult {
    /// The process ran and exited.
    Exited(ProcessOutcome),
    /// The process was supervised and did not exit in the time allowed.
    TimedOut,
    /// The program could not be started.
    LaunchFailed(Vec<u8>),
    /// The process was started but could not be waited on.
    WaitFailed(Vec<u8>),
}

/// Why an action did not succeed.
#[derive(Clone, Debug, PartialEq, Eq)]
pub enum Failure {
    /// The external program could not be started.
    Launch { command: ToolCommand, detail: Vec<u8> },
    /// The process could not be waited on or polled.
    Execution { command: ToolCommand, detail: Vec<u8> },
    /// A directory could not be created or deleted.
    Filesystem { detail: Vec<u8> },
    /// A version-control step failed; `stderr` is the tool's own diagnostic.
    Sync { command: ToolCommand, stderr: Vec<u8> },
    /// A container step failed; `stderr` is the tool's own diagnostic.
    LifecycleStep { command: ToolCommand, stderr: Vec<u8> },
    /// A supervised process outlived the time allowed.
    TimedOut { command: ToolCommand },
}

impl ToolCommand {
    /// The tool that carries a command out.
    pub open spec fn spec_tool(self) -> Tool {
        match self {
            ToolCommand::Clone
            | ToolCommand::Status
            | ToolCommand::Pull
            | ToolCommand::UpdateSubmodules => Tool::VersionControl,
            ToolCommand::ComposeBuild
            | ToolCommand::ComposePull
            | ToolCommand::ComposeUp
            | ToolCommand::ComposeDown => Tool::Container,
        }
    }

    /// The tool that carries a command out.
    #[verifier::when_used_as_spec(spec_tool)]
    pub fn tool(self) -> (tool: Tool)
        ensures
            tool == self.spec_tool(),
    {
        match self {
            ToolCommand::Clone
            | ToolCommand::Status
            | ToolCommand::Pull
            | ToolCommand::UpdateSubmodules => Tool::VersionControl,
            ToolCommand::ComposeBuild
            | ToolCommand::ComposePull
            | ToolCommand::ComposeUp
            | ToolCommand::ComposeDown => Tool::Container,
        }
    }

    /// Only the submodule update is streamed and supervised; every other
    /// command is waited for.
    pub open spec fn spec_mode(self) -> CaptureMode {
        if self == ToolCommand::UpdateSubmodules {
            CaptureMode::Streamed
        } else {
            CaptureMode::Buffered
        }
    }

    /// How the output of a command is taken.
    #[verifier::when_used_as_spec(spec_mode)]
    pub fn mode(self) -> (mode: CaptureMode)
        ensures
            mode == self.spec_mode(),
    {
        match self {
            ToolCommand::UpdateSubmodules => CaptureMode::Streamed,
            _ => CaptureMode::Buffered,
        }
    }
}

/// The failure that a command's non-zero exit stands for: a synchronisation
/// error for the version-control tool, a lifecycle step error for the
/// container tool, each with the tool's diagnostic.
pub open spec fn spec_step_failure(command: ToolCommand, stderr: Vec<u8>) -> Failure {
    match command.spec_tool() {
        Tool::VersionControl => Failure::Sync { command, stderr },
        Tool::Container => Failure::LifecycleStep { command, stderr },
    }
}

/// What the result of running `command` means for the step that asked for it:
/// the outcome of a process that exited with success, otherwise the failure.
pub open spec fn spec_judge(command: ToolCommand, result: RunResult) -> Result<
    ProcessOutcome,
    Failure,
> {
    match result {
        RunResult::Exited(outcome) => if outcome.success {
            Ok(outcome)
        } else {
            Err(spec_step_failure(command, outcome.stderr))
        },
        RunResult::TimedOut => Err(Failure::TimedOut { command }),
        RunResult::LaunchFailed(detail) => Err(Failure::Launch { command, detail }),
        RunResult::WaitFailed(detail) => Err(Failure::Execution { command, detail }),
    }
}

/// Tags the diagnostic of a command that exited without success.
pub fn step_failure(command: ToolCommand, stderr: Vec<u8>) -> (failure: Failure)
    ensures
        failure == spec_step_failure(command, stderr),
{
    match command.tool() {
        Tool::VersionControl => Failure::Sync { command, stderr },
        Tool::Container => Failure::LifecycleStep { command, stderr },
    }
}

/// Judges the result of running `command`. Nothing is retried and nothing is
/// dropped: a failure keeps the text that came with it.
pub fn judge(command: ToolCommand, result: RunResult) -> (verdict: Result<ProcessOutcome, Failure>)
    ensures
        verdict == spec_judge(command, result),
        verdict is Ok <==> (result matches RunResult::Exited(outcome) && outcome.success),
{
    match result {
        RunResult::Exited(outcome) => {
            if outcome.success {
                Ok(outcome)
            } else {
                Err(step_failure(command, outcome.stderr))
            }
        },
        RunResult::TimedOut => Err(Failure::TimedOut { command }),
        RunResult::LaunchFailed(detail) => Err(Failure::Launch { command, detail }),
        RunResult::WaitFailed(detail) => Err(Failure::Execution { command, detail }),
    }
}

impl Settings {
    /// How a supervised process is polled under these settings.
    pub fn poll_config(&self) -> (config: PollConfig)
        ensures
            config.interval == self.poll_interval,
            config.max_duration == self.max_duration,
    {
        PollConfig { interval: self.poll_interval, max_duration: self.max_duration }
    }

    /// The settings of the standard network, for a checkout at `root`.
    pub fn standard(root: String) -> (settings: Settings)
        ensures
            settings.root == root,
            settings.remote_url@ == REMOTE_URL@,
            settings.compose_file@ == COMPOSE_FILE@,
            settings.poll_interval == DEFAULT_POLL_INTERVAL,
            settings.max_duration == DEFAULT_MAX_DURATION,
    {
        Settings {
            root,
            remote_url: String::from_str(REMOTE_URL),
            compose_file: String::from_str(COMPOSE_FILE),
            poll_interval: DEFAULT_POLL_INTERVAL,
            max_duration: DEFAULT_MAX_DURATION,
        }
    }
}

/// The checkout root for a user whose home directory is `home`: the
/// checkout directory's name joined to it as a path, with a separator unless
/// `home` is empty or ends with one.
pub open spec fn spec_checkout_root(home: Seq<char>) -> Seq<char> {
    if home.len() == 0 || home.last() == '/' {
        home + CHECKOUT_DIR_NAME@
    } else {
        home + "/"@ + CHECKOUT_DIR_NAME@
    }
}

/// The checkout root for a user whose home directory is `home`.
pub fn checkout_root(home: &str) -> (root: String)
    ensures
        root@ == spec_checkout_root(home@),
{
    let n = home.unicode_len();
    let mut root = String::from_str(home);
    if n > 0 && home.get_char(n - 1) != '/' {
        root.append("/");
    }
    root.append(CHECKOUT_DIR_NAME);
    root
}

/// The words that follow the program's name when `command` is run.
pub open spec fn spec_arguments(settings: Settings, command: ToolCommand) -> Seq<Seq<char>> {
    match command {
        ToolCommand::Clone => seq!["clone"@, settings.remote_url@, settings.root@],
        ToolCommand::Status => seq!["status"@],
        ToolCommand::Pull => seq!["pull"@, "origin"@, "main"@],
        ToolCommand::UpdateSubmodules => seq![
            "submodule"@,
            "update"@,
            "--init"@,
            "--recursive"@,
        ],
        ToolCommand::ComposeBuild => seq!["compose"@, "-f"@, settings.compose_file@, "build"@],
        ToolCommand::ComposePull => seq!["compose"@, "-f"@, settings.compose_file@, "pull"@],
        ToolCommand::ComposeUp => seq![
            "compose"@,
            "-f"@,
            settings.compose_file@,
            "up"@,
            "--wait"@,
            "-d"@,
        ],
        ToolCommand::ComposeDown => seq![
            "compose"@,
            "-f"@,
            settings.compose_file@,
            "down"@,
            "-v"@,
        ],
    }
}

/// The invocation that carries `command` out. A clone names its target and
/// runs where the caller stands; every other command runs inside the checkout.
pub open spec fn spec_invocation(settings: Settings, command: ToolCommand) -> InvocationView {
    InvocationView {
        program: match command.spec_tool() {
            Tool::VersionControl => VCS_PROGRAM@,
            Tool::Container => CONTAINER_PROGRAM@,
        },
        args: spec_arguments(settings, command),
        cwd: if command == ToolCommand::Clone {
            None
        } else {
            Some(settings.root@)
        },
        mode: command.spec_mode(),
    }
}

/// Appends the words that address the compose file.
fn push_compose_prefix(args: &mut Vec<String>, settings: &Settings)
    requires
        old(args)@.len() == 0,
    ensures
        texts(final(args)@) == seq!["compose"@, "-f"@, settings.compose_file@],
{
    args.push(String::from_str("compose"));
    args.push(String::from_str("-f"));
    args.push(settings.compose_file.clone());
    assert(texts(args@) =~= seq!["compose"@, "-f"@, settings.compose_file@]);
}

/// Appends one literal word.
fn push_word(args: &mut Vec<String>, word: &str)
    ensures
        texts(final(args)@) == texts(old(args)@).push(word@),
{
    args.push(String::from_str(word));
    assert(texts(args@) =~= texts(old(args)@).push(word@));
}

/// The words that follow the program's name when `command` is run.
pub fn arguments(settings: &Settings, command: ToolCommand) -> (args: Vec<String>)
    ensures
        texts(args@) == spec_arguments(*settings, command),
{
    let mut args: Vec<String> = Vec::new();
    match command {
        ToolCommand::Clone => {
            args.push(String::from_str("clone"));
            args.push(settings.remote_url.clone());
            args.push(settings.root.clone());
        },
        ToolCommand::Status => {
            push_word(&mut args, "status");
        },
        ToolCommand::Pull => {
            push_word(&mut args, "pull");
            push_word(&mut args, "origin");
            push_word(&mut args, "main");
        },
        ToolCommand::UpdateSubmodules => {
            push_word(&mut args, "submodule");
            push_word(&mut args, "update");
            push_word(&mut args, "--init");
            push_word(&mut args, "--recursive");
        },
        ToolCommand::ComposeBuild => {
            push_compose_prefix(&mut args, settings);
            push_word(&mut args, "build");
        },
        ToolCommand::ComposePull => {
            push_compose_prefix(&mut args, settings);
            push_word(&mut args, "pull");
        },
        ToolCommand::ComposeUp => {
            push_compose_prefix(&mut args, settings);
            push_word(&mut args, "up");
            push_word(&mut args, "--wait");
            push_word(&mut args, "-d");
        },
        ToolCommand::ComposeDown => {
            push_compose_prefix(&mut args, settings);
            push_word(&mut args, "down");
            push_word(&mut args, "-v");
        },
    }
    assert(texts(args@) =~= spec_arguments(*settings, command));
    args
}

/// Renders `command` as the invocation that the process runner carries out.
pub fn invocation(settings: &Settings, command: ToolCommand) -> (inv: ProcessInvocation)
    ensures
        inv@ == spec_invocation(*settings, command),
{
    let program = match command.tool() {
        Tool::VersionControl => String::from_str(VCS_PROGRAM),
        Tool::Container => String::from_str(CONTAINER_PROGRAM),
    };
    let cwd = match command {
        ToolCommand::Clone => None,
        _ => Some(settings.root.clone()),
    };
    ProcessInvocation { program, args: arguments(settings, command), cwd, mode: command.mode() }
}

impl Failure {
    /// The text that came with a failure; empty for a timeout.
    pub open spec fn spec_diagnostic(self) -> Seq<u8> {
        match self {
            Failure::Launch { detail, .. } => detail@,
            Failure::Execution { detail, .. } => detail@,
            Failure::Filesystem { detail } => detail@,
            Failure::Sync { stderr, .. } => stderr@,
            Failure::LifecycleStep { stderr, .. } => stderr@,
            Failure::TimedOut { .. } => Seq::empty(),
        }
    }

    /// The text that came with a failure, as the tool or the system gave it.
    pub fn diagnostic(&self) -> (text: &[u8])
        ensures
            text@ == self.spec_diagnostic(),
    {
        match self {
            Failure::Launch { detail, .. } => detail.as_slice(),
            Failure::Execution { detail, .. } => detail.as_slice(),
            Failure::Filesystem { detail } => detail.as_slice(),
            Failure::Sync { stderr, .. } => stderr.as_slice(),
            Failure::LifecycleStep { stderr, .. } => stderr.as_slice(),
            Failure::TimedOut { .. } => &[],
        }
    }

    /// The command that failed; none where the file system did.
    pub open spec fn spec_command(self) -> Option<ToolCommand> {
        match self {
            Failure::Launch { command, .. } => Some(command),
            Failure::Execution { command, .. } => Some(command),
            Failure::Filesystem { .. } => None,
            Failure::Sync { command, .. } => Some(command),
            Failure::LifecycleStep { command, .. } => Some(command),
            Failure::TimedOut { command } => Some(command),
        }
    }

    /// The command that failed; none where the file system did.
    pub fn command(&self) -> (command: Option<ToolCommand>)
        ensures
            command == self.spec_command(),
    {
        match self {
            Failure::Launch { command, .. } => Some(*command),
            Failure::Execution { command, .. } => Some(*command),
            Failure::Filesystem { .. } => None,
            Failure::Sync { command, .. } => Some(*command),
            Failure::LifecycleStep { command, .. } => Some(*command),
            Failure::TimedOut { command } => Some(*command),
        }
    }
}

} // verus!
