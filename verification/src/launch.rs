//! Process launching: the command of each variant and the fallback chain.

use crate::command::{CommandLine, CommandModel};
use crate::mode::{alternate, alternate_spec, LaunchMode};
use crate::readiness::{timeout_message_spec, ReadinessTimeout};
use crate::reaper::Platform;
use crate::text::{decimal, push_decimal};
use vstd::prelude::*;
use vstd::string::StringExecFns;

verus! {

/// The interpreter that runs the script variant.
pub open spec fn interpreter_spec(platform: Platform) -> Seq<char> {
    match platform {
        Platform::Windows => "python"@,
        Platform::Unix => "python3"@,
    }
}

/// The command of a variant. Both get `--port` and the port; the script
/// variant runs under its interpreter, with the script's path in front and
/// the text encoding of the interpreter fixed to UTF-8.
pub open spec fn launch_plan_spec(
    mode: LaunchMode,
    platform: Platform,
    binary_path: Seq<char>,
    script_path: Seq<char>,
    port: u16,
) -> CommandModel {
    match mode {
        LaunchMode::CompiledBinary => CommandModel {
            program: binary_path,
            args: seq!["--port"@, decimal(port as nat)],
            env: Seq::empty(),
        },
        LaunchMode::InterpretedScript => CommandModel {
            program: interpreter_spec(platform),
            args: seq![script_path, "--port"@, decimal(port as nat)],
            env: seq![("PYTHONIOENCODING"@, "utf-8"@), ("PYTHONUTF8"@, "1"@)],
        },
    }
}

/// Builds the command that spawns the variant `mode`. `binary_path` is
/// the compiled variant as the caller's way of spawning names it, and
/// `script_path` the script; each is read only for its own variant.
pub fn launch_plan(
    mode: LaunchMode,
    platform: Platform,
    binary_path: &str,
    script_path: &str,
    port: u16,
) -> (command: CommandLine)
    ensures
        command@ == launch_plan_spec(mode, platform, binary_path@, script_path@, port),
{
    let mut port_text = String::new();
    push_decimal(&mut port_text, port as u64);
    assert(port_text@ =~= decimal(port as nat));
    let mut args: Vec<String> = Vec::new();
    let mut env: Vec<(String, String)> = Vec::new();
    let program = match mode {
        LaunchMode::CompiledBinary => {
            args.push("--port".to_owned());
            args.push(port_text);
            binary_path.to_owned()
        },
        LaunchMode::InterpretedScript => {
            args.push(script_path.to_owned());
            args.push("--port".to_owned());
            args.push(port_text);
            env.push(("PYTHONIOENCODING".to_owned(), "utf-8".to_owned()));
            env.push(("PYTHONUTF8".to_owned(), "1".to_owned()));
            match platform {
                Platform::Windows => "python".to_owned(),
                Platform::Unix => "python3".to_owned(),
            }
        },
    };
    let command = CommandLine { program, args, env };
    proof {
        let want = launch_plan_spec(mode, platform, binary_path@, script_path@, port);
        assert(command@.args =~= want.args);
        assert(command@.env =~= want.env);
    }
    command
}

/// What the operating system answered to a spawn.
#[derive(Debug, PartialEq, Eq)]
pub enum SpawnResult {
    /// A process was created; this is its identifier.
    Spawned(u32),
    /// No process was created; this is the cause.
    Failed(String),
}

/// Neither variant could be spawned.
#[derive(Debug, PartialEq, Eq)]
pub struct SpawnError {
    /// Why the variant tried first failed.
    pub primary: String,
    /// Why the other variant failed.
    pub fallback: String,
}

/// A start attempt's place in the fallback chain.
#[derive(Debug, PartialEq, Eq)]
pub struct LaunchAttempt {
    /// The variant tried first.
    pub primary: LaunchMode,
    /// Why it failed, once it has.
    pub primary_failure: Option<String>,
}

/// How the chain goes on after a spawn.
#[derive(Debug, PartialEq, Eq)]
pub enum LaunchStep {
    /// The first variant failed: spawn the other one.
    Retry(LaunchAttempt),
    /// A process runs, launched as `mode`.
    Launched { child: u32, mode: LaunchMode },
    /// Both variants failed.
    Failed(SpawnError),
}

impl LaunchAttempt {
    /// The variant to spawn now: the first choice, or the other one once
    /// the first has failed.
    pub open spec fn mode_spec(self) -> LaunchMode {
        if self.primary_failure is Some {
            alternate_spec(self.primary)
        } else {
            self.primary
        }
    }

    /// The chain: a spawned process ends it with the variant that was
    /// tried; the first failure leads to one try of the other variant; the
    /// second failure ends it with both causes.
    pub open spec fn advance_spec(self, result: SpawnResult) -> LaunchStep {
        match result {
            SpawnResult::Spawned(child) => LaunchStep::Launched { child, mode: self.mode_spec() },
            SpawnResult::Failed(cause) => match self.primary_failure {
                None => LaunchStep::Retry(
                    LaunchAttempt { primary: self.primary, primary_failure: Some(cause) },
                ),
                Some(first) => LaunchStep::Failed(SpawnError { primary: first, fallback: cause }),
            },
        }
    }

    /// Begins the chain with `primary`.
    pub fn new(primary: LaunchMode) -> (attempt: LaunchAttempt)
        ensures
            attempt == (LaunchAttempt { primary, primary_failure: None }),
    {
        LaunchAttempt { primary, primary_failure: None }
    }

    /// The variant to spawn now.
    pub fn mode(&self) -> (mode: LaunchMode)
        ensures
            mode == self.mode_spec(),
    {
        if self.primary_failure.is_some() {
            alternate(self.primary)
        } else {
            self.primary
        }
    }

    /// Takes the answer to the spawn of `self.mode()` and says how the
    /// chain goes on.
    pub fn advance(self, result: SpawnResult) -> (step: LaunchStep)
        ensures
            step == self.advance_spec(result),
    {
        match result {
            SpawnResult::Spawned(child) => {
                let mode = self.mode();
                LaunchStep::Launched { child, mode }
            },
            SpawnResult::Failed(cause) => match self.primary_failure {
                None => LaunchStep::Retry(
                    LaunchAttempt { primary: self.primary, primary_failure: Some(cause) },
                ),
                Some(first) => LaunchStep::Failed(SpawnError { primary: first, fallback: cause }),
            },
        }
    }
}

/// The text of a spawn failure: it names both causes.
pub open spec fn spawn_message_spec(primary: Seq<char>, fallback: Seq<char>) -> Seq<char> {
    "Failed to spawn sidecar: "@ + primary + "; fallback also failed: "@ + fallback
}

impl SpawnError {
    /// The message shown for this failure.
    pub fn message(&self) -> (text: String)
        ensures
            text@ == spawn_message_spec(self.primary@, self.fallback@),
    {
        let mut text = "Failed to spawn sidecar: ".to_owned();
        text.append(self.primary.as_str());
        text.append("; fallback also failed: ");
        text.append(self.fallback.as_str());
        text
    }
}

/// Why a start attempt failed.
#[derive(Debug, PartialEq, Eq)]
pub enum StartError {
    /// Neither variant could be spawned.
    Spawn(SpawnError),
    /// A process was spawned but did not open the port in time.
    ReadinessTimeout(ReadinessTimeout),
}

impl StartError {
    /// The text of the failure.
    pub open spec fn message_spec(self) -> Seq<char> {
        match self {
            StartError::Spawn(error) => spawn_message_spec(error.primary@, error.fallback@),
            StartError::ReadinessTimeout(timeout) => timeout_message_spec(timeout),
        }
    }

    /// The message shown for this failure.
    pub fn message(&self) -> (text: String)
        ensures
            text@ == self.message_spec(),
    {
        match self {
            StartError::Spawn(error) => error.message(),
            StartError::ReadinessTimeout(timeout) => timeout.message(),
        }
    }
}

} // verus!
