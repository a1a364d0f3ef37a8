//! Lifecycle of the backend process and the relay of its output lines.
//!
//! The host performs the I/O (spawning, reading the event channel, writing
//! lines to the log) and reports what happened; every lifecycle decision is
//! made here. There is exactly one lifecycle per supervisor: once the process
//! has exited or failed, nothing restarts it.

use vstd::prelude::*;
use vstd::string::*;
use crate::paths::DataDirError;

verus! {

/// Logical name under which the packaging system bundles the backend binary.
pub const SIDECAR_NAME: &'static str = "main";

/// Subcommand that runs the backend in server mode.
pub const SERVE_SUBCOMMAND: &'static str = "serve";

/// Flag that names the backend's data directory.
pub const DIR_FLAG: &'static str = "--dir";

/// Why the backend is not available.
#[derive(Debug, Clone, PartialEq, Eq)]
pub enum Failure {
    /// The data directory could not be resolved or created.
    DataDir(DataDirError),
    /// The OS refused to create the process, or the binary was not found.
    Spawn(String),
    /// Reading the process's output failed: it is taken to have died.
    StreamRead(String),
    /// The process ended without an exit code (killed by a signal).
    NoExitCode,
    /// The output channel closed before the process's end was reported.
    OutputClosed,
}

/// Lifecycle of the supervised process.
#[derive(Debug, Clone, PartialEq, Eq)]
pub enum SidecarState {
    NotStarted,
    Spawning,
    Running,
    Exited(i32),
    Failed(Failure),
}

/// Which output stream a line came from.
#[derive(Debug, Clone, Copy, PartialEq, Eq, Structural)]
pub enum StreamOrigin {
    Stdout,
    Stderr,
}

/// One line of the process's output, tagged with its stream.
#[derive(Debug, Clone, PartialEq, Eq)]
pub struct OutputLine {
    pub origin: StreamOrigin,
    pub text: String,
}

/// What the host's event channel reports about the running process.
#[derive(Debug, Clone, PartialEq, Eq)]
pub enum ChildEvent {
    Stdout(String),
    Stderr(String),
    /// A read error on the process's output.
    Error(String),
    /// The process ended, with its exit code when it has one.
    Terminated(Option<i32>),
    /// The channel closed; no further events will come.
    Closed,
}

/// The process to launch: the bundled binary's logical name and its arguments.
#[derive(Debug, Clone, PartialEq, Eq)]
pub struct SpawnRequest {
    pub program: String,
    pub args: Vec<String>,
}

pub open spec fn is_terminal(s: SidecarState) -> bool {
    s is Exited || s is Failed
}

/// The arguments the backend is started with: `serve --dir <data_dir>`.
pub open spec fn sidecar_args_spec(data_dir: Seq<char>) -> Seq<Seq<char>> {
    seq![SERVE_SUBCOMMAND@, DIR_FLAG@, data_dir]
}

/// The line an event delivers to the log, if it carries one.
pub open spec fn line_of(e: ChildEvent) -> Option<OutputLine> {
    match e {
        ChildEvent::Stdout(t) => Some(OutputLine { origin: StreamOrigin::Stdout, text: t }),
        ChildEvent::Stderr(t) => Some(OutputLine { origin: StreamOrigin::Stderr, text: t }),
        _ => None,
    }
}

/// The state after the host reports an event. Only a running process
/// changes state: its end gives `Exited`, a read error gives `Failed`.
pub open spec fn after_event(s: SidecarState, e: ChildEvent) -> SidecarState {
    if s is Running {
        match e {
            ChildEvent::Terminated(Some(code)) => SidecarState::Exited(code),
            ChildEvent::Terminated(None) => SidecarState::Failed(Failure::NoExitCode),
            ChildEvent::Error(m) => SidecarState::Failed(Failure::StreamRead(m)),
            ChildEvent::Closed => SidecarState::Failed(Failure::OutputClosed),
            _ => s,
        }
    } else {
        s
    }
}

/// The state after the host reports that the process could not be created.
pub open spec fn after_spawn_failure(s: SidecarState, reason: String) -> SidecarState {
    if s is Spawning {
        SidecarState::Failed(Failure::Spawn(reason))
    } else {
        s
    }
}

/// The state after a sequence of events, reported in order.
pub open spec fn after_events(s: SidecarState, events: Seq<ChildEvent>) -> SidecarState
    decreases events.len(),
{
    if events.len() == 0 {
        s
    } else {
        after_event(after_events(s, events.drop_last()), events.last())
    }
}

/// The lines delivered for a sequence of events, in order.
pub open spec fn delivered(events: Seq<ChildEvent>) -> Seq<OutputLine>
    decreases events.len(),
{
    if events.len() == 0 {
        Seq::empty()
    } else {
        match line_of(events.last()) {
            Some(l) => delivered(events.drop_last()).push(l),
            None => delivered(events.drop_last()),
        }
    }
}

/// The texts that the process wrote on one stream, in the order written.
pub open spec fn written_on(events: Seq<ChildEvent>, origin: StreamOrigin) -> Seq<String>
    decreases events.len(),
{
    if events.len() == 0 {
        Seq::empty()
    } else {
        let prev = written_on(events.drop_last(), origin);
        match events.last() {
            ChildEvent::Stdout(t) => if origin == StreamOrigin::Stdout {
                prev.push(t)
            } else {
                prev
            },
            ChildEvent::Stderr(t) => if origin == StreamOrigin::Stderr {
                prev.push(t)
            } else {
                prev
            },
            _ => prev,
        }
    }
}

/// The texts of the delivered lines that are tagged with one stream.
pub open spec fn tagged(lines: Seq<OutputLine>, origin: StreamOrigin) -> Seq<String>
    decreases lines.len(),
{
    if lines.len() == 0 {
        Seq::empty()
    } else if lines.last().origin == origin {
        tagged(lines.drop_last(), origin).push(lines.last().text)
    } else {
        tagged(lines.drop_last(), origin)
    }
}

/// Builds the backend's argument list for a data directory.
pub fn sidecar_args(data_dir: &str) -> (r: Vec<String>)
    ensures
        r@.map_values(|a: String| a@) == sidecar_args_spec(data_dir@),
{
    let mut r: Vec<String> = Vec::new();
    r.push(String::from_str(SERVE_SUBCOMMAND));
    r.push(String::from_str(DIR_FLAG));
    r.push(String::from_str(data_dir));
    assert(r@.map_values(|a: String| a@) =~= sidecar_args_spec(data_dir@));
    r
}

fn copy_event(e: &ChildEvent) -> (r: ChildEvent)
    ensures
        r == *e,
{
    match e {
        ChildEvent::Stdout(t) => ChildEvent::Stdout(t.clone()),
        ChildEvent::Stderr(t) => ChildEvent::Stderr(t.clone()),
        ChildEvent::Error(m) => ChildEvent::Error(m.clone()),
        ChildEvent::Terminated(c) => ChildEvent::Terminated(*c),
        ChildEvent::Closed => ChildEvent::Closed,
    }
}

/// Owns the lifecycle of one backend process.
pub struct Supervisor {
    state: SidecarState,
}

impl View for Supervisor {
    type V = SidecarState;

    closed spec fn view(&self) -> SidecarState {
        self.state
    }
}

impl Supervisor {
    /// A supervisor whose process has not been started.
    pub fn new() -> (r: Supervisor)
        ensures
            r@ == SidecarState::NotStarted,
    {
        Supervisor { state: SidecarState::NotStarted }
    }

    /// The current lifecycle state.
    pub fn state(&self) -> (r: &SidecarState)
        ensures
            *r == self@,
    {
        &self.state
    }

    /// The process has exited or failed; nothing further will happen.
    pub fn is_terminal(&self) -> (r: bool)
        ensures
            r == is_terminal(self@),
    {
        match &self.state {
            SidecarState::Exited(_) | SidecarState::Failed(_) => true,
            _ => false,
        }
    }

    /// The relay keeps reading output only while the process runs; once this
    /// is false the host drops its end of the output channel.
    pub fn wants_output(&self) -> (r: bool)
        ensures
            r == (self@ is Running),
    {
        match &self.state {
            SidecarState::Running => true,
            _ => false,
        }
    }

    /// Starts the one lifecycle of this supervisor. With a data directory it
    /// moves to `Spawning` and returns the process to launch; when the data
    /// directory is unavailable it fails at once. Once started, it never
    /// starts again.
    pub fn begin_spawn(&mut self, data_dir: Result<String, DataDirError>) -> (r: Option<SpawnRequest>)
        ensures
            old(self)@ is NotStarted && data_dir is Ok ==> {
                &&& final(self)@ == SidecarState::Spawning
                &&& r is Some
                &&& r->Some_0.program@ == SIDECAR_NAME@
                &&& r->Some_0.args@.map_values(|a: String| a@) == sidecar_args_spec(data_dir->Ok_0@)
            },
            old(self)@ is NotStarted && data_dir is Err ==> {
                &&& final(self)@ == SidecarState::Failed(Failure::DataDir(data_dir->Err_0))
                &&& r is None
            },
            !(old(self)@ is NotStarted) ==> final(self)@ == old(self)@ && r is None,
    {
        match &self.state {
            SidecarState::NotStarted => {},
            _ => return None,
        }
        match data_dir {
            Ok(dir) => {
                self.state = SidecarState::Spawning;
                Some(SpawnRequest { program: String::from_str(SIDECAR_NAME), args: sidecar_args(dir.as_str()) })
            },
            Err(e) => {
                self.state = SidecarState::Failed(Failure::DataDir(e));
                None
            },
        }
    }

    /// The OS confirmed the process and its output channel: `Spawning` becomes
    /// `Running`. In any other state nothing changes.
    pub fn spawned(&mut self)
        ensures
            old(self)@ is Spawning ==> final(self)@ == SidecarState::Running,
            !(old(self)@ is Spawning) ==> final(self)@ == old(self)@,
    {
        if let SidecarState::Spawning = &self.state {
            self.state = SidecarState::Running;
        }
    }

    /// The binary could not be located or the OS refused to create the
    /// process: `Spawning` becomes `Failed`. In any other state nothing changes.
    pub fn spawn_failed(&mut self, reason: String)
        ensures
            final(self)@ == after_spawn_failure(old(self)@, reason),
    {
        if let SidecarState::Spawning = &self.state {
            self.state = SidecarState::Failed(Failure::Spawn(reason));
        }
    }

    /// Takes one event from the process's channel: returns the line to hand
    /// to the log, if the event carries one, and applies the lifecycle change.
    pub fn on_event(&mut self, event: ChildEvent) -> (r: Option<OutputLine>)
        ensures
            r == line_of(event),
            final(self)@ == after_event(old(self)@, event),
    {
        let running = match &self.state {
            SidecarState::Running => true,
            _ => false,
        };
        match event {
            ChildEvent::Stdout(t) => Some(OutputLine { origin: StreamOrigin::Stdout, text: t }),
            ChildEvent::Stderr(t) => Some(OutputLine { origin: StreamOrigin::Stderr, text: t }),
            ChildEvent::Error(m) => {
                if running {
                    self.state = SidecarState::Failed(Failure::StreamRead(m));
                }
                None
            },
            ChildEvent::Terminated(code) => {
                if running {
                    self.state = match code {
                        Some(c) => SidecarState::Exited(c),
                        None => SidecarState::Failed(Failure::NoExitCode),
                    };
                }
                None
            },
            ChildEvent::Closed => {
                if running {
                    self.state = SidecarState::Failed(Failure::OutputClosed);
                }
                None
            },
        }
    }

    /// Takes a batch of events in order: returns the lines to hand to the log,
    /// in order, and applies every lifecycle change.
    pub fn relay(&mut self, events: &Vec<ChildEvent>) -> (r: Vec<OutputLine>)
        ensures
            r@ == delivered(events@),
            final(self)@ == after_events(old(self)@, events@),
    {
        let mut out: Vec<OutputLine> = Vec::new();
        let mut i: usize = 0;
        while i < events.len()
            invariant
                i <= events@.len(),
                out@ == delivered(events@.subrange(0, i as int)),
                self@ == after_events(old(self)@, events@.subrange(0, i as int)),
            decreases events@.len() - i,
        {
            let ghost done = events@.subrange(0, i as int);
            let ghost next = events@.subrange(0, i + 1);
            assert(next.drop_last() =~= done);
            assert(next.last() == events@[i as int]);
            let e = copy_event(&events[i]);
            if let Some(line) = self.on_event(e) {
                out.push(line);
            }
            i = i + 1;
        }
        assert(events@.subrange(0, events@.len() as int) =~= events@);
        out
    }
}

/// Within each stream, the delivered lines are exactly the lines the process
/// wrote there: none lost, none repeated, none reordered.
pub proof fn law_relay_keeps_each_stream(events: Seq<ChildEvent>, origin: StreamOrigin)
    ensures
        tagged(delivered(events), origin) == written_on(events, origin),
    decreases events.len(),
{
    if events.len() > 0 {
        law_relay_keeps_each_stream(events.drop_last(), origin);
        let prev = delivered(events.drop_last());
        match line_of(events.last()) {
            Some(l) => {
                assert(prev.push(l).drop_last() =~= prev);
            },
            None => {},
        }
    }
}

/// An exited or failed process stays so whatever the channel still reports,
/// and the relay no longer reads: no respawn, no relay left running.
pub proof fn law_terminal_is_final(s: SidecarState, events: Seq<ChildEvent>)
    requires
        is_terminal(s),
    ensures
        after_events(s, events) == s,
        !(after_events(s, events) is Running),
    decreases events.len(),
{
    if events.len() > 0 {
        law_terminal_is_final(s, events.drop_last());
    }
}

/// The end of the process, a read error on its output or the channel's end
/// ends the relay:
/// the supervisor leaves `Running` for a terminal state.
pub proof fn law_exit_ends_relay(e: ChildEvent)
    requires
        e is Terminated || e is Error || e is Closed,
    ensures
        is_terminal(after_event(SidecarState::Running, e)),
        match e {
            ChildEvent::Terminated(Some(code)) => after_event(SidecarState::Running, e)
                == SidecarState::Exited(code),
            _ => after_event(SidecarState::Running, e) is Failed,
        },
{
}

/// A failed spawn is a terminal `Failed` state that later events cannot leave.
pub proof fn law_spawn_failure_is_final(reason: String, events: Seq<ChildEvent>)
    ensures
        is_terminal(after_spawn_failure(SidecarState::Spawning, reason)),
        after_events(after_spawn_failure(SidecarState::Spawning, reason), events)
            == SidecarState::Failed(Failure::Spawn(reason)),
{
    law_terminal_is_final(SidecarState::Failed(Failure::Spawn(reason)), events);
}

/// Once started, a supervisor never returns to `NotStarted`, so it never
/// launches a second process.
pub proof fn law_single_lifecycle(s: SidecarState, events: Seq<ChildEvent>)
    requires
        !(s is NotStarted),
    ensures
        !(after_events(s, events) is NotStarted),
    decreases events.len(),
{
    if events.len() > 0 {
        law_single_lifecycle(s, events.drop_last());
    }
}

} // verus!
