use vstd::prelude::*;

use crate::command::{Invocation, InvocationView};
use crate::directory::StreamDirectory;
use crate::entry::{EntryView, Mode, StreamEntry};

verus! {

/// Whether the caller waits for the player to end.
#[derive(Debug, Clone, Copy, PartialEq, Eq, Structural)]
pub enum WaitPolicy {
    /// Block until the player process has exited.
    UntilExit,
    /// Return as soon as the player has started; it keeps running.
    Detach,
}

/// How to start the player for one entry, and whether to wait for it.
#[derive(Debug, Clone)]
pub struct LaunchPlan {
    pub invocation: Invocation,
    pub wait: WaitPolicy,
}

/// What came of starting the player.
#[derive(Debug, Clone, Copy, PartialEq, Eq, Structural)]
pub enum LaunchOutcome {
    /// The player could not be found or started.
    Failed,
    /// The player ran and ended with this exit code (absent when ended by a
    /// signal); only a waited-for launch ends this way.
    Exited { code: Option<i32> },
    /// The player started and was left running.
    Running,
}

/// Why playback could not happen.
#[derive(Debug, Clone, Copy, PartialEq, Eq, Structural)]
pub enum DispatchError {
    LaunchFailed,
}

/// What to do for a request to play a stream by name.
#[derive(Debug, Clone)]
pub enum PlayDecision {
    /// No entry has that name; nothing is launched.
    NotFound,
    /// Start the player as the plan says.
    Launch(LaunchPlan),
}

/// The player invocation for an entry: the url and, for sound alone, the
/// flag that turns video off.
pub open spec fn player_invocation(e: EntryView) -> InvocationView {
    match e.mode {
        Mode::AudioOnly => InvocationView { program: "mpv"@, args: seq![e.url, "--no-video"@] },
        Mode::AudioVideo => InvocationView { program: "mpv"@, args: seq![e.url] },
    }
}

/// Sound alone is a foreground session that the caller waits out; sound with
/// video opens its own window and is left running.
pub open spec fn wait_policy(m: Mode) -> WaitPolicy {
    match m {
        Mode::AudioOnly => WaitPolicy::UntilExit,
        Mode::AudioVideo => WaitPolicy::Detach,
    }
}

/// Plans and settles the playback of stream entries through the media player.
pub struct PlaybackDispatcher;

impl PlaybackDispatcher {
    /// How to play `entry`. The caller starts the program with these
    /// arguments and, when `wait` says so, waits for it to exit.
    pub fn plan(entry: &StreamEntry) -> (r: LaunchPlan)
        ensures
            r.invocation@ == player_invocation(entry@),
            r.wait == wait_policy(entry@.mode),
    {
        let mut args: Vec<String> = Vec::new();
        args.push(entry.url().clone());
        let wait = match entry.mode() {
            Mode::AudioOnly => {
                args.push(String::from_str("--no-video"));
                WaitPolicy::UntilExit
            },
            Mode::AudioVideo => WaitPolicy::Detach,
        };
        let r = LaunchPlan { invocation: Invocation { program: String::from_str("mpv"), args }, wait };
        assert(r.invocation@.args =~= player_invocation(entry@).args);
        r
    }

    /// The result of a play request once the player was started: an error
    /// only when it could not be started. A non-zero exit is not an error;
    /// judging it is left to the caller.
    pub fn finish(outcome: LaunchOutcome) -> (r: Result<(), DispatchError>)
        ensures
            r is Err <==> outcome == LaunchOutcome::Failed,
            r matches Err(x) ==> x == DispatchError::LaunchFailed,
    {
        match outcome {
            LaunchOutcome::Failed => Err(DispatchError::LaunchFailed),
            _ => Ok(()),
        }
    }

    /// What to do for a request to play the stream called `name`: nothing
    /// when no entry has that exact name, else the plan for that entry.
    pub fn decide(directory: &StreamDirectory, name: &str) -> (r: PlayDecision)
        ensures
            r is NotFound <==> forall|i: int|
                0 <= i < directory@.entries.len() ==> directory@.entries[i].name != name@,
            r matches PlayDecision::Launch(plan) ==> exists|i: int|
                0 <= i < directory@.entries.len() && directory@.entries[i].name == name@
                    && plan.invocation@ == player_invocation(directory@.entries[i])
                    && plan.wait == wait_policy(directory@.entries[i].mode),
    {
        match directory.find(name) {
            Some(entry) => PlayDecision::Launch(PlaybackDispatcher::plan(entry)),
            None => PlayDecision::NotFound,
        }
    }
}

} // verus!
