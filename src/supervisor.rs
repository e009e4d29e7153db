//! The child supervisor: what happens when the supervised process exits, and
//! what every spawned instance is handed so that it can serve on the socket
//! that the supervisor bound once.

use vstd::prelude::*;

use crate::coordinator::{occurrences, phase_after, Phase};
use crate::event::Event;

verus! {

/// Exit code of the supervisor when the child's own code is unavailable (it
/// was terminated by a signal).
pub const DEFAULT_EXIT_CODE: i32 = 1;

/// Environment variable that carries the inherited socket's descriptor.
pub const LISTEN_FD_VAR: &'static str = "LISTEN_FD";

/// Environment variable that marks a process as running under supervision.
pub const SUPERVISED_VAR: &'static str = "CARGO_DEVSERVER";

/// Value of the supervision marker.
pub const SUPERVISED_VALUE: &'static str = "true";

/// The character for a decimal digit.
pub open spec fn digit_char(d: nat) -> char {
    if d == 0 {
        '0'
    } else if d == 1 {
        '1'
    } else if d == 2 {
        '2'
    } else if d == 3 {
        '3'
    } else if d == 4 {
        '4'
    } else if d == 5 {
        '5'
    } else if d == 6 {
        '6'
    } else if d == 7 {
        '7'
    } else if d == 8 {
        '8'
    } else {
        '9'
    }
}

/// The decimal digits of `n`, most significant first, without leading zeros.
pub open spec fn digits_of(n: nat) -> Seq<char>
    decreases n,
{
    if n < 10 {
        seq![digit_char(n)]
    } else {
        digits_of(n / 10).push(digit_char(n % 10))
    }
}

/// The decimal text of an integer, with a minus sign when it is negative.
pub open spec fn decimal_of(n: int) -> Seq<char> {
    if n < 0 {
        seq!['-'] + digits_of((-n) as nat)
    } else {
        digits_of(n as nat)
    }
}

/// Relies on `<i32 as ToString>::to_string`, which formats through `Display`:
/// the decimal text of the number.
#[verifier::external_body]
fn decimal_text(n: i32) -> (r: String)
    ensures
        r@ == decimal_of(n as int),
{
    n.to_string()
}

/// The environment that every child instance is started with: the number of
/// the inherited listening socket, and the supervision marker.
pub open spec fn child_env_of(socket_fd: i32) -> Seq<(Seq<char>, Seq<char>)> {
    seq![(LISTEN_FD_VAR@, decimal_of(socket_fd as int)), (SUPERVISED_VAR@, SUPERVISED_VALUE@)]
}

/// The view of a list of environment entries.
pub open spec fn env_view(env: Seq<(String, String)>) -> Seq<(Seq<char>, Seq<char>)> {
    env.map_values(|kv: (String, String)| (kv.0@, kv.1@))
}

/// The environment to start a child instance with, given the listening socket.
pub fn child_env(socket_fd: i32) -> (env: Vec<(String, String)>)
    ensures
        env_view(env@) == child_env_of(socket_fd),
{
    let mut env: Vec<(String, String)> = Vec::new();
    env.push((LISTEN_FD_VAR.to_string(), decimal_text(socket_fd)));
    env.push((SUPERVISED_VAR.to_string(), SUPERVISED_VALUE.to_string()));
    assert(env_view(env@) =~= child_env_of(socket_fd));
    env
}

/// What the exit-watcher does when the child exits.
#[derive(Debug, Clone, Copy, PartialEq, Eq, Structural)]
pub enum ExitDecision {
    /// End the whole program with this exit code.
    Terminate { code: i32 },
    /// Start the child again, on the same socket.
    Respawn,
}

/// The exit code to end the program with, given the child's own.
pub open spec fn exit_code_of(code: Option<i32>) -> i32 {
    match code {
        Some(c) => c,
        None => DEFAULT_EXIT_CODE,
    }
}

/// On exit the child is respawned unless shutdown was requested, in which
/// case the program ends with the child's exit code.
pub open spec fn exit_decision_of(shutdown: bool, code: Option<i32>) -> ExitDecision {
    if shutdown {
        ExitDecision::Terminate { code: exit_code_of(code) }
    } else {
        ExitDecision::Respawn
    }
}

/// Decides what to do about an exit of the child; `shutdown` is the shared
/// shutdown flag as read at that moment.
pub fn decide_on_exit(shutdown: bool, code: Option<i32>) -> (d: ExitDecision)
    ensures
        d == exit_decision_of(shutdown, code),
{
    if shutdown {
        let c = match code {
            Some(c) => c,
            None => DEFAULT_EXIT_CODE,
        };
        ExitDecision::Terminate { code: c }
    } else {
        ExitDecision::Respawn
    }
}

/// Where the supervised process is in its lifecycle.
#[derive(Debug, Clone, Copy, PartialEq, Eq, Structural)]
pub enum ChildState {
    /// A child is running with the recorded pid.
    Live,
    /// The child exited and is to be started again.
    AwaitingRespawn,
    /// The child exited after shutdown was requested; the handle is no longer valid.
    Terminated,
}

/// The supervisor's record of the child process.
pub struct ChildSupervisor {
    socket_fd: i32,
    pid: u32,
    state: ChildState,
}

/// What a child supervisor is, seen from outside.
pub struct SupervisorView {
    /// The listening socket handed to every instance.
    pub socket_fd: i32,
    /// The pid of the current (or last) instance.
    pub pid: u32,
    pub state: ChildState,
}

impl View for ChildSupervisor {
    type V = SupervisorView;

    closed spec fn view(&self) -> SupervisorView {
        SupervisorView { socket_fd: self.socket_fd, pid: self.pid, state: self.state }
    }
}

/// The record after the child exited and the exit-watcher decided.
pub open spec fn exited(v: SupervisorView, shutdown: bool, code: Option<i32>) -> SupervisorView {
    SupervisorView {
        state: if shutdown {
            ChildState::Terminated
        } else {
            ChildState::AwaitingRespawn
        },
        ..v
    }
}

/// The record after a new instance was started with pid `pid`.
pub open spec fn respawned(v: SupervisorView, pid: u32) -> SupervisorView {
    SupervisorView { pid, state: ChildState::Live, ..v }
}

/// The record after the child crashed and was restarted once for each pid of
/// `pids`, in order.
pub open spec fn restarted(v: SupervisorView, pids: Seq<u32>) -> SupervisorView
    decreases pids.len(),
{
    if pids.len() == 0 {
        v
    } else {
        respawned(exited(restarted(v, pids.drop_last()), false, None), pids.last())
    }
}

impl ChildSupervisor {
    /// The record of a first instance `pid`, started with the socket `socket_fd`.
    pub fn new(socket_fd: i32, pid: u32) -> (s: ChildSupervisor)
        ensures
            s@ == (SupervisorView { socket_fd, pid, state: ChildState::Live }),
    {
        ChildSupervisor { socket_fd, pid, state: ChildState::Live }
    }

    pub fn socket_fd(&self) -> (fd: i32)
        ensures
            fd == self@.socket_fd,
    {
        self.socket_fd
    }

    pub fn pid(&self) -> (pid: u32)
        ensures
            pid == self@.pid,
    {
        self.pid
    }

    pub fn state(&self) -> (st: ChildState)
        ensures
            st == self@.state,
    {
        self.state
    }

    /// The environment to start an instance with.
    pub fn child_env(&self) -> (env: Vec<(String, String)>)
        ensures
            env_view(env@) == child_env_of(self@.socket_fd),
    {
        child_env(self.socket_fd)
    }

    /// Records an exit of the running child, seen with the shutdown flag
    /// `shutdown`, and says whether to respawn it or end the program.
    pub fn on_exit(&mut self, shutdown: bool, code: Option<i32>) -> (d: ExitDecision)
        requires
            old(self)@.state == ChildState::Live,
        ensures
            d == exit_decision_of(shutdown, code),
            final(self)@ == exited(old(self)@, shutdown, code),
    {
        if shutdown {
            self.state = ChildState::Terminated;
        } else {
            self.state = ChildState::AwaitingRespawn;
        }
        decide_on_exit(shutdown, code)
    }

    /// Records that a new instance `pid` was started after a crash.
    pub fn on_respawn(&mut self, pid: u32)
        requires
            old(self)@.state == ChildState::AwaitingRespawn,
        ensures
            final(self)@ == respawned(old(self)@, pid),
    {
        self.pid = pid;
        self.state = ChildState::Live;
    }
}

/// However many times the child is restarted, every instance is handed the
/// same listening socket, in the same environment.
pub proof fn lemma_socket_survives_restarts(v: SupervisorView, pids: Seq<u32>)
    ensures
        restarted(v, pids).socket_fd == v.socket_fd,
        child_env_of(restarted(v, pids).socket_fd) == child_env_of(v.socket_fd),
    decreases pids.len(),
{
    if pids.len() > 0 {
        lemma_socket_survives_restarts(v, pids.drop_last());
    }
}

/// Once a `Shutdown` event has been processed, so that the shutdown flag is
/// set, the child's next exit ends the program with the child's exit code,
/// whatever the exit's cause and whatever events came after: no respawn follows.
pub proof fn lemma_no_respawn_after_shutdown(
    events: Seq<Event>,
    later: Seq<Event>,
    v: SupervisorView,
    code: Option<i32>,
)
    requires
        occurrences(events, Event::Shutdown) > 0,
        v.state == ChildState::Live,
    ensures
        ({
            let shutdown = phase_after(Phase::Running, events + later) == Phase::ShuttingDown;
            &&& exit_decision_of(shutdown, code) == (ExitDecision::Terminate { code: exit_code_of(code) })
            &&& exited(v, shutdown, code).state == ChildState::Terminated
        }),
{
    crate::coordinator::lemma_shutdown_is_final(Phase::Running, events, later);
}

} // verus!
