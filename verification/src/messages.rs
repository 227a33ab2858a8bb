//! The words in which the steps of an action are announced and reported.

use vstd::prelude::*;
use crate::process::{Tool, ToolCommand};

verus! {

/// What is shown while a command runs; nothing for the commands that run
/// unannounced.
pub open spec fn spec_progress_message(command: ToolCommand) -> Option<Seq<char>> {
    match command {
        ToolCommand::Clone => Some("Cloning Cartesi-Coprocessor repository..."@),
        ToolCommand::Status => None,
        ToolCommand::Pull => Some("Updates are available. Pulling latest changes..."@),
        ToolCommand::UpdateSubmodules => None,
        ToolCommand::ComposeBuild => Some("Building devnet containers..."@),
        ToolCommand::ComposePull => Some("Pulling changes to devnet containers..."@),
        ToolCommand::ComposeUp => Some("Starting devnet containers..."@),
        ToolCommand::ComposeDown => Some("Stoping devnet containers..."@),
    }
}

/// The confirmation that follows a command that succeeded; for the status
/// query, the words for a checkout that needs no pull.
pub open spec fn spec_success_message(command: ToolCommand) -> Seq<char> {
    match command {
        ToolCommand::Clone => "Successfully cloned Cartesi-Coprocessor repository"@,
        ToolCommand::Status => "Cartesi-Coprocessor repository is up to date"@,
        ToolCommand::Pull => "Successfully pulled latest changes from the 'origin/main' branch."@,
        ToolCommand::UpdateSubmodules => "Successfully updated submodules."@,
        ToolCommand::ComposeBuild => "Successfully built Devnet containers."@,
        ToolCommand::ComposePull => "Successfully pulled changes to Devnet containers."@,
        ToolCommand::ComposeUp => "Cartesi-Coprocessor devnet environment started."@,
        ToolCommand::ComposeDown => "Cartesi-Coprocessor devnet environment stoped."@,
    }
}

/// The words that name the step that failed.
pub open spec fn spec_failure_message(command: ToolCommand) -> Seq<char> {
    match command {
        ToolCommand::Clone => "Failed to clone Cartesi-Coprocessor repository."@,
        ToolCommand::Status => "Failed to check repository status:"@,
        ToolCommand::Pull => "Failed to pull latest changes from the 'origin/main' branch."@,
        ToolCommand::UpdateSubmodules => "Failed to update submodules."@,
        ToolCommand::ComposeBuild => "Failed to build containers."@,
        ToolCommand::ComposePull => "Failed to pull changes to containers."@,
        ToolCommand::ComposeUp => "Failed to start devnet containers:"@,
        ToolCommand::ComposeDown => "Failed to stop devnet containers:"@,
    }
}

/// The words that open the diagnostic of a tool when it is shown.
pub open spec fn spec_response_tag(tool: Tool) -> Seq<char> {
    match tool {
        Tool::VersionControl => "GIT::RESPONSE::"@,
        Tool::Container => "DOCKER::RESPONSE::"@,
    }
}

/// What is shown while a command runs, if anything.
pub fn progress_message(command: ToolCommand) -> (words: Option<&'static str>)
    ensures
        words is Some <==> spec_progress_message(command) is Some,
        words matches Some(w) ==> Some(w@) == spec_progress_message(command),
{
    match command {
        ToolCommand::Clone => Some("Cloning Cartesi-Coprocessor repository..."),
        ToolCommand::Status => None,
        ToolCommand::Pull => Some("Updates are available. Pulling latest changes..."),
        ToolCommand::UpdateSubmodules => None,
        ToolCommand::ComposeBuild => Some("Building devnet containers..."),
        ToolCommand::ComposePull => Some("Pulling changes to devnet containers..."),
        ToolCommand::ComposeUp => Some("Starting devnet containers..."),
        ToolCommand::ComposeDown => Some("Stoping devnet containers..."),
    }
}

/// The confirmation that follows a command that succeeded.
pub fn success_message(command: ToolCommand) -> (words: &'static str)
    ensures
        words@ == spec_success_message(command),
{
    match command {
        ToolCommand::Clone => "Successfully cloned Cartesi-Coprocessor repository",
        ToolCommand::Status => "Cartesi-Coprocessor repository is up to date",
        ToolCommand::Pull => "Successfully pulled latest changes from the 'origin/main' branch.",
        ToolCommand::UpdateSubmodules => "Successfully updated submodules.",
        ToolCommand::ComposeBuild => "Successfully built Devnet containers.",
        ToolCommand::ComposePull => "Successfully pulled changes to Devnet containers.",
        ToolCommand::ComposeUp => "Cartesi-Coprocessor devnet environment started.",
        ToolCommand::ComposeDown => "Cartesi-Coprocessor devnet environment stoped.",
    }
}

/// The words that name the step that failed.
pub fn failure_message(command: ToolCommand) -> (words: &'static str)
    ensures
        words@ == spec_failure_message(command),
{
    match command {
        ToolCommand::Clone => "Failed to clone Cartesi-Coprocessor repository.",
        ToolCommand::Status => "Failed to check repository status:",
        ToolCommand::Pull => "Failed to pull latest changes from the 'origin/main' branch.",
        ToolCommand::UpdateSubmodules => "Failed to update submodules.",
        ToolCommand::ComposeBuild => "Failed to build containers.",
        ToolCommand::ComposePull => "Failed to pull changes to containers.",
        ToolCommand::ComposeUp => "Failed to start devnet containers:",
        ToolCommand::ComposeDown => "Failed to stop devnet containers:",
    }
}

/// The words that open the diagnostic of a tool when it is shown.
pub fn response_tag(tool: Tool) -> (words: &'static str)
    ensures
        words@ == spec_response_tag(tool),
{
    match tool {
        Tool::VersionControl => "GIT::RESPONSE::",
        Tool::Container => "DOCKER::RESPONSE::",
    }
}

} // verus!
