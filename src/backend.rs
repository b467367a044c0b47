use vstd::prelude::*;
use vstd::string::{StrSliceExecFns, StringExecFns};

use crate::env;
use crate::launcher::{XunleiLauncher, entries_view, backend_env};

verus! {

/// A signal the supervisor waits on, as it matters to it.
#[derive(PartialEq, Eq, Structural, Debug, Clone, Copy)]
pub enum Signal {
    Interrupt,
    Hangup,
    Terminate,
    /// Any other signal.
    Other,
}

/// Where the supervisor stands.
#[derive(PartialEq, Eq, Structural, Debug, Clone, Copy)]
pub enum SupervisorState {
    /// The bind mount is being made.
    Starting,
    /// The daemon is being spawned.
    Spawning,
    /// The daemon runs; the supervisor waits for a signal.
    Running { pid: i32 },
    /// A stop signal was sent to the daemon; `forced` once the terminate
    /// signal followed a failed interrupt.
    Stopping { pid: i32, forced: bool },
    /// The daemon is stopped; the bind mount is being removed.
    Stopped,
    /// Nothing is left to do.
    Done,
    /// A fatal error ended the supervisor.
    Failed,
}

/// What the outside world reports back.
#[derive(PartialEq, Eq, Structural, Debug, Clone, Copy)]
pub enum Event {
    /// The bind mount was made (true) or not.
    Mounted(bool),
    /// The daemon was spawned with this PID, or could not be.
    Spawned(Option<i32>),
    /// A signal arrived.
    Received(Signal),
    /// The last kill signal reached the daemon (true) or not.
    KillSent(bool),
    /// The bind mount was removed (true) or not.
    Unmounted(bool),
}

/// Why the supervisor gave up.
#[derive(PartialEq, Eq, Structural, Debug, Clone, Copy)]
pub enum Fatal {
    MountFailed,
    SpawnFailed,
    KillFailed,
}

/// What the supervisor asks the outside world to do next.
#[derive(PartialEq, Eq, Structural, Debug, Clone, Copy)]
pub enum Action {
    /// Remove any old mount at the target, then bind the download directory there.
    Mount,
    /// Spawn the daemon.
    Spawn,
    /// Wait for the next signal.
    WaitSignal,
    /// Send an interrupt signal to this PID.
    SendInterrupt(i32),
    /// Send a terminate signal to this PID.
    SendTerminate(i32),
    /// Remove the bind mount.
    Unmount,
    /// Stop with this error.
    Abort(Fatal),
    /// Stop; all went as it should.
    Finish,
    /// The event does not fit the state: nothing changes.
    Ignore,
}

pub open spec fn is_stop_signal(s: Signal) -> bool {
    s == Signal::Interrupt || s == Signal::Hangup || s == Signal::Terminate
}

/// One step of the supervisor.
pub open spec fn next(state: SupervisorState, event: Event) -> (SupervisorState, Action) {
    match (state, event) {
        (SupervisorState::Starting, Event::Mounted(true)) => (SupervisorState::Spawning, Action::Spawn),
        (SupervisorState::Starting, Event::Mounted(false)) => (SupervisorState::Failed, Action::Abort(Fatal::MountFailed)),
        (SupervisorState::Spawning, Event::Spawned(Some(pid))) => (SupervisorState::Running { pid }, Action::WaitSignal),
        (SupervisorState::Spawning, Event::Spawned(None)) => (SupervisorState::Failed, Action::Abort(Fatal::SpawnFailed)),
        (SupervisorState::Running { pid }, Event::Received(s)) => if is_stop_signal(s) {
            (SupervisorState::Stopping { pid, forced: false }, Action::SendInterrupt(pid))
        } else {
            (state, Action::WaitSignal)
        },
        (SupervisorState::Stopping { pid, forced }, Event::KillSent(ok)) => if ok {
            (SupervisorState::Stopped, Action::Unmount)
        } else if !forced {
            (SupervisorState::Stopping { pid, forced: true }, Action::SendTerminate(pid))
        } else {
            (SupervisorState::Failed, Action::Abort(Fatal::KillFailed))
        },
        (SupervisorState::Stopped, Event::Unmounted(_)) => (SupervisorState::Done, Action::Finish),
        _ => (state, Action::Ignore),
    }
}

/// The actions taken from `state` on `events`, in order.
pub open spec fn trace(state: SupervisorState, events: Seq<Event>) -> Seq<Action>
    decreases events.len(),
{
    if events.len() == 0 {
        Seq::empty()
    } else {
        let (s, a) = next(state, events[0]);
        seq![a] + trace(s, events.drop_first())
    }
}

impl SupervisorState {
    /// The state the supervisor starts in, with the action it starts with.
    pub fn start() -> (r: (SupervisorState, Action))
        ensures
            r == (SupervisorState::Starting, Action::Mount),
    {
        (SupervisorState::Starting, Action::Mount)
    }

    /// The next state and action after `event`.
    pub fn step(self, event: Event) -> (r: (SupervisorState, Action))
        ensures
            r == next(self, event),
    {
        match (self, event) {
            (SupervisorState::Starting, Event::Mounted(ok)) => if ok {
                (SupervisorState::Spawning, Action::Spawn)
            } else {
                (SupervisorState::Failed, Action::Abort(Fatal::MountFailed))
            },
            (SupervisorState::Spawning, Event::Spawned(p)) => match p {
                Some(pid) => (SupervisorState::Running { pid }, Action::WaitSignal),
                None => (SupervisorState::Failed, Action::Abort(Fatal::SpawnFailed)),
            },
            (SupervisorState::Running { pid }, Event::Received(s)) => match s {
                Signal::Other => (self, Action::WaitSignal),
                _ => (SupervisorState::Stopping { pid, forced: false }, Action::SendInterrupt(pid)),
            },
            (SupervisorState::Stopping { pid, forced }, Event::KillSent(ok)) => if ok {
                (SupervisorState::Stopped, Action::Unmount)
            } else if !forced {
                (SupervisorState::Stopping { pid, forced: true }, Action::SendTerminate(pid))
            } else {
                (SupervisorState::Failed, Action::Abort(Fatal::KillFailed))
            },
            (SupervisorState::Stopped, Event::Unmounted(_)) => (SupervisorState::Done, Action::Finish),
            _ => (self, Action::Ignore),
        }
    }
}

/// On an interrupt the running daemon gets exactly one interrupt signal, and
/// the bind mount is removed next, whether that signal was delivered or not,
/// as long as the terminate signal that follows a failed one is delivered.
pub proof fn lemma_interrupt_then_unmount(pid: i32, first_ok: bool, second_ok: bool)
    requires
        first_ok || second_ok,
    ensures
        first_ok ==> trace(
            SupervisorState::Running { pid },
            seq![Event::Received(Signal::Interrupt), Event::KillSent(true)],
        ) == seq![Action::SendInterrupt(pid), Action::Unmount],
        !first_ok ==> trace(
            SupervisorState::Running { pid },
            seq![Event::Received(Signal::Interrupt), Event::KillSent(false), Event::KillSent(second_ok)],
        ) == seq![Action::SendInterrupt(pid), Action::SendTerminate(pid), Action::Unmount],
{
    let s0 = SupervisorState::Running { pid };
    let s1 = SupervisorState::Stopping { pid, forced: false };
    let s2 = SupervisorState::Stopping { pid, forced: true };
    let e1 = seq![Event::Received(Signal::Interrupt), Event::KillSent(true)];
    assert(e1.drop_first() =~= seq![Event::KillSent(true)]);
    assert(e1.drop_first().drop_first() =~= Seq::<Event>::empty());
    assert(trace(SupervisorState::Stopped, Seq::<Event>::empty()) == Seq::<Action>::empty());
    assert(trace(s1, seq![Event::KillSent(true)]) =~= seq![Action::Unmount]);
    assert(trace(s0, e1) =~= seq![Action::SendInterrupt(pid), Action::Unmount]);
    if !first_ok {
        let e2 = seq![Event::Received(Signal::Interrupt), Event::KillSent(false), Event::KillSent(second_ok)];
        let t2 = seq![Event::KillSent(false), Event::KillSent(second_ok)];
        assert(e2.drop_first() =~= t2);
        assert(t2.drop_first() =~= seq![Event::KillSent(true)]);
        assert(trace(s2, seq![Event::KillSent(true)]) =~= seq![Action::Unmount]);
        assert(trace(s1, t2) =~= seq![Action::SendTerminate(pid), Action::Unmount]);
        assert(trace(s0, e2) =~= seq![Action::SendInterrupt(pid), Action::SendTerminate(pid), Action::Unmount]);
    }
}

/// The daemon was already told to stop, or nothing runs any more.
pub open spec fn past_running(s: SupervisorState) -> bool {
    s is Stopping || s is Stopped || s is Done || s is Failed
}

proof fn lemma_no_interrupt_after(s: SupervisorState, events: Seq<Event>)
    requires
        past_running(s),
    ensures
        forall|i: int| 0 <= i < trace(s, events).len() ==> !(#[trigger] trace(s, events)[i] is SendInterrupt),
    decreases events.len(),
{
    if events.len() > 0 {
        let (s1, a) = next(s, events[0]);
        lemma_no_interrupt_after(s1, events.drop_first());
        assert(trace(s, events) == seq![a] + trace(s1, events.drop_first()));
        assert forall|i: int| 0 <= i < trace(s, events).len() implies !(#[trigger] trace(s, events)[i] is SendInterrupt) by {
            if i > 0 {
                assert(trace(s, events)[i] == trace(s1, events.drop_first())[i - 1]);
            }
        }
    }
}

/// Whatever follows a stop signal to the running daemon, it is sent exactly
/// one interrupt, and that is the first action.
pub proof fn lemma_interrupt_once(pid: i32, stop: Signal, events: Seq<Event>)
    requires
        is_stop_signal(stop),
    ensures
        trace(SupervisorState::Running { pid }, seq![Event::Received(stop)] + events)[0] == Action::SendInterrupt(pid),
        forall|i: int| 0 < i < trace(SupervisorState::Running { pid }, seq![Event::Received(stop)] + events).len()
            ==> !(#[trigger] trace(SupervisorState::Running { pid }, seq![Event::Received(stop)] + events)[i] is SendInterrupt),
{
    let all = seq![Event::Received(stop)] + events;
    let s1 = SupervisorState::Stopping { pid, forced: false };
    assert(all.drop_first() =~= events);
    assert(all[0] == Event::Received(stop));
    lemma_no_interrupt_after(s1, events);
    let t = trace(SupervisorState::Running { pid }, all);
    assert(t == seq![Action::SendInterrupt(pid)] + trace(s1, events));
    assert forall|i: int| 0 < i < t.len() implies !(#[trigger] t[i] is SendInterrupt) by {
        assert(t[i] == trace(s1, events)[i - 1]);
    }
}

/// What the backend supervisor needs of the launcher's settings.
pub struct XunleiBackendServer {
    pub download_path: String,
    pub mount_bind_download_path: String,
    pub envs: Vec<(String, String)>,
    pub debug: bool,
    pub uid: u32,
    pub gid: u32,
}

fn flag(name: &str, value: &str) -> (r: String)
    ensures
        r@ == name@ + value@,
{
    let mut s = String::from_str(name);
    s.append(value);
    s
}

impl XunleiBackendServer {
    pub fn from(launcher: XunleiLauncher) -> (r: Self)
        ensures
            r.download_path == launcher.download_path,
            r.mount_bind_download_path == launcher.mount_bind_download_path,
            entries_view(r.envs@) == backend_env(launcher.config_path@, launcher.mount_bind_download_path@),
            r.debug == launcher.debug,
            r.uid == launcher.uid,
            r.gid == launcher.gid,
    {
        let envs = launcher.envs();
        XunleiBackendServer {
            download_path: launcher.download_path,
            mount_bind_download_path: launcher.mount_bind_download_path,
            envs,
            debug: launcher.debug,
            uid: launcher.uid,
            gid: launcher.gid,
        }
    }

    /// The daemon's command line: its listen socket, PID file and log file.
    pub fn args(&self) -> (r: Vec<String>)
        ensures
            r@.len() == 3,
            r@[0]@ == "-launcher_listen="@ + env::LAUNCHER_SOCK@,
            r@[1]@ == "-pid="@ + env::PID_FILE@,
            r@[2]@ == "-logfile="@ + env::LAUNCH_LOG_FILE@,
    {
        let mut r: Vec<String> = Vec::new();
        r.push(flag("-launcher_listen=", env::LAUNCHER_SOCK));
        r.push(flag("-pid=", env::PID_FILE));
        r.push(flag("-logfile=", env::LAUNCH_LOG_FILE));
        r
    }
}

} // verus!
