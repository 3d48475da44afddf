//! Decisions of the process supervisor: wait for the application's entry
//! script, start it, restart it after it exits, and terminate it on shutdown.
//!
//! The caller runs the loop: it performs each action (sleep, check, spawn,
//! wait, kill) and reports what happened as the next event.
use vstd::prelude::*;
use crate::text::texts;

verus! {

/// Seconds between checks for a missing entry script.
pub const SCRIPT_POLL_SECS: u64 = 10;

/// Seconds to wait before starting again after an exit or a failed spawn.
pub const RESTART_DELAY_SECS: u64 = 5;

#[derive(Clone, Copy, Debug, PartialEq, Eq, Structural)]
pub enum SupervisorState {
    /// No child; the entry script is to be checked for.
    WaitingForScript,
    /// No child yet; one is being spawned.
    Starting,
    /// One child runs.
    Running,
    /// Shut down; nothing more happens.
    Stopped,
}

#[derive(Clone, Copy, Debug, PartialEq, Eq, Structural)]
pub enum SupervisorEvent {
    /// The entry script was looked for: whether it exists.
    ScriptChecked(bool),
    /// The child process started.
    Spawned,
    /// The child process could not be started.
    SpawnFailed,
    /// The child process exited by itself.
    ChildExited,
    /// Shutdown was requested.
    ShutdownRequested,
}

#[derive(Clone, Copy, Debug, PartialEq, Eq, Structural)]
pub enum SupervisorAction {
    /// Sleep this many seconds, then check for the entry script.
    CheckScript(u64),
    /// Start the child process.
    Spawn,
    /// Wait for the child to exit or for a shutdown request.
    Watch,
    /// Ask the child to terminate and wait for it; the supervisor is done.
    Terminate,
    /// Nothing is left to do.
    Done,
}

/// The supervisor's transition table.
pub open spec fn supervise(s: SupervisorState, e: SupervisorEvent) -> (SupervisorState, SupervisorAction) {
    match (s, e) {
        (SupervisorState::Stopped, _) => (SupervisorState::Stopped, SupervisorAction::Done),
        (SupervisorState::Running, SupervisorEvent::ShutdownRequested) => (SupervisorState::Stopped, SupervisorAction::Terminate),
        (_, SupervisorEvent::ShutdownRequested) => (SupervisorState::Stopped, SupervisorAction::Done),
        (SupervisorState::WaitingForScript, SupervisorEvent::ScriptChecked(true)) => (SupervisorState::Starting, SupervisorAction::Spawn),
        (SupervisorState::WaitingForScript, SupervisorEvent::ScriptChecked(false)) => (SupervisorState::WaitingForScript, SupervisorAction::CheckScript(SCRIPT_POLL_SECS)),
        (SupervisorState::Starting, SupervisorEvent::Spawned) => (SupervisorState::Running, SupervisorAction::Watch),
        (SupervisorState::Starting, SupervisorEvent::SpawnFailed) => (SupervisorState::WaitingForScript, SupervisorAction::CheckScript(RESTART_DELAY_SECS)),
        (SupervisorState::Running, SupervisorEvent::ChildExited) => (SupervisorState::WaitingForScript, SupervisorAction::CheckScript(RESTART_DELAY_SECS)),
        (_, _) => (s, waiting_action(s)),
    }
}

/// What a state waits on, repeated when an event does not concern it.
pub open spec fn waiting_action(s: SupervisorState) -> SupervisorAction {
    match s {
        SupervisorState::WaitingForScript => SupervisorAction::CheckScript(SCRIPT_POLL_SECS),
        SupervisorState::Starting => SupervisorAction::Spawn,
        SupervisorState::Running => SupervisorAction::Watch,
        SupervisorState::Stopped => SupervisorAction::Done,
    }
}

/// The supervisor of one external application.
pub struct Supervisor {
    pub state: SupervisorState,
}

impl Supervisor {
    /// A supervisor about to look for the entry script, without delay.
    pub fn new() -> (r: (Self, SupervisorAction))
        ensures
            r.0.state == SupervisorState::WaitingForScript,
            r.1 == SupervisorAction::CheckScript(0),
    {
        (Supervisor { state: SupervisorState::WaitingForScript }, SupervisorAction::CheckScript(0))
    }

    /// Takes in what happened and returns what to do next.
    pub fn step(&mut self, event: SupervisorEvent) -> (r: SupervisorAction)
        ensures
            (final(self).state, r) == supervise(old(self).state, event),
    {
        let (next, action) = match (self.state, event) {
            (SupervisorState::Stopped, _) => (SupervisorState::Stopped, SupervisorAction::Done),
            (SupervisorState::Running, SupervisorEvent::ShutdownRequested) => (SupervisorState::Stopped, SupervisorAction::Terminate),
            (_, SupervisorEvent::ShutdownRequested) => (SupervisorState::Stopped, SupervisorAction::Done),
            (SupervisorState::WaitingForScript, SupervisorEvent::ScriptChecked(true)) => (SupervisorState::Starting, SupervisorAction::Spawn),
            (SupervisorState::WaitingForScript, SupervisorEvent::ScriptChecked(false)) => (SupervisorState::WaitingForScript, SupervisorAction::CheckScript(SCRIPT_POLL_SECS)),
            (SupervisorState::Starting, SupervisorEvent::Spawned) => (SupervisorState::Running, SupervisorAction::Watch),
            (SupervisorState::Starting, SupervisorEvent::SpawnFailed) => (SupervisorState::WaitingForScript, SupervisorAction::CheckScript(RESTART_DELAY_SECS)),
            (SupervisorState::Running, SupervisorEvent::ChildExited) => (SupervisorState::WaitingForScript, SupervisorAction::CheckScript(RESTART_DELAY_SECS)),
            (s, _) => (s, Self::waiting_action(s)),
        };
        self.state = next;
        action
    }

    fn waiting_action(s: SupervisorState) -> (r: SupervisorAction)
        ensures
            r == waiting_action(s),
    {
        match s {
            SupervisorState::WaitingForScript => SupervisorAction::CheckScript(SCRIPT_POLL_SECS),
            SupervisorState::Starting => SupervisorAction::Spawn,
            SupervisorState::Running => SupervisorAction::Watch,
            SupervisorState::Stopped => SupervisorAction::Done,
        }
    }
}

/// A shutdown while the child runs terminates it and ends supervision; after
/// that no event leads to another spawn.
pub proof fn law_shutdown_terminates(e: SupervisorEvent)
    ensures
        supervise(SupervisorState::Running, SupervisorEvent::ShutdownRequested) == (
            SupervisorState::Stopped,
            SupervisorAction::Terminate,
        ),
        supervise(SupervisorState::Stopped, e) == (SupervisorState::Stopped, SupervisorAction::Done),
{
}

/// When the child exits by itself and no shutdown comes, the supervisor waits
/// the fixed restart delay, and then spawns exactly one new child: once the
/// spawn succeeded it watches that child, and spawns no other.
pub proof fn law_exit_respawns_once(e: SupervisorEvent)
    requires
        e != SupervisorEvent::ShutdownRequested,
        e != SupervisorEvent::ChildExited,
    ensures
        supervise(SupervisorState::Running, SupervisorEvent::ChildExited) == (
            SupervisorState::WaitingForScript,
            SupervisorAction::CheckScript(RESTART_DELAY_SECS),
        ),
        supervise(SupervisorState::WaitingForScript, SupervisorEvent::ScriptChecked(true)) == (
            SupervisorState::Starting,
            SupervisorAction::Spawn,
        ),
        supervise(SupervisorState::Starting, SupervisorEvent::Spawned) == (
            SupervisorState::Running,
            SupervisorAction::Watch,
        ),
        supervise(SupervisorState::Running, e) == (SupervisorState::Running, SupervisorAction::Watch),
{
}

/// A spawn is only ever asked for while no child runs.
pub proof fn law_one_child_at_a_time(s: SupervisorState, e: SupervisorEvent)
    ensures
        supervise(s, e).1 == SupervisorAction::Spawn ==> s != SupervisorState::Running && supervise(
            s,
            e,
        ).0 == SupervisorState::Starting,
{
}

/// The command line that starts the application: `npx --yes node <script>`
/// followed by its arguments.
pub open spec fn launch_line(script: Seq<char>, args: Seq<Seq<char>>) -> Seq<Seq<char>> {
    seq!["npx"@, "--yes"@, "node"@, script] + args
}

pub fn launch_command(script: &str, args: &Vec<String>) -> (r: Vec<String>)
    ensures
        texts(r@) == launch_line(script@, texts(args@)),
{
    let mut r: Vec<String> = Vec::new();
    r.push("npx".to_owned());
    r.push("--yes".to_owned());
    r.push("node".to_owned());
    r.push(script.to_owned());
    let mut i: usize = 0;
    while i < args.len()
        invariant
            i <= args@.len(),
            r@.len() == 4 + i,
            r@[0]@ == "npx"@,
            r@[1]@ == "--yes"@,
            r@[2]@ == "node"@,
            r@[3]@ == script@,
            forall|k: int| 0 <= k < i ==> #[trigger] r@[4 + k]@ == args@[k]@,
        decreases args@.len() - i,
    {
        r.push(args[i].clone());
        i += 1;
    }
    let ghost line = launch_line(script@, texts(args@));
    assert forall|k: int| 0 <= k < r@.len() implies #[trigger] texts(r@)[k] == line[k] by {
        if k >= 4 {
            assert(r@[4 + (k - 4)]@ == args@[k - 4]@);
        }
    }
    assert(texts(r@) =~= line);
    r
}

} // verus!
