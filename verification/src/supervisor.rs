//! Decisions of the subprocess supervisor loop. The loop itself — spawning
//! the server, reading its two output pipes, waiting on shutdown or exit —
//! runs outside the library and feeds each occurrence in as a
//! [`SupervisorEvent`]; the returned [`SupervisorAction`] says what the loop
//! must do: report readiness, run the one cleanup pass, or nothing.
//!
//! Teardown is triggered by whichever of "shutdown requested" and "process
//! exited" comes first; the other becomes a no-op, so cleanup runs exactly
//! once per supervisor lifetime.

use vstd::prelude::*;

use crate::readiness::contains_marker;
use crate::readiness::line_is_ready;

verus! {

/// One occurrence the supervisor loop can wake up on. No source has
/// priority over another; the loop hands them in in whatever order they
/// resolve.
pub enum SupervisorEvent {
    /// A full line read from the subprocess's standard output.
    StdoutLine(Vec<u8>),
    /// A full line read from the subprocess's standard error.
    StderrLine(Vec<u8>),
    /// End of stream on standard output; the source stops contributing.
    StdoutClosed,
    /// End of stream on standard error; the source stops contributing.
    StderrClosed,
    /// An external shutdown request was observed.
    ShutdownRequested,
    /// The subprocess exited on its own.
    ProcessExited,
}

/// What the loop must do in reaction to one event.
pub enum SupervisorAction {
    /// Nothing; keep waiting.
    Ignore,
    /// The line proves the server is ready; emit the readiness event.
    ReportReady,
    /// Leave the loop and run the single best-effort kill-by-name cleanup.
    RunCleanup,
}

/// The supervisor's own state: the readiness marker it scans for, whether
/// its loop is still live (teardown not yet begun), and whether readiness
/// was ever reported.
pub struct Supervisor {
    /// Marker whose presence in an output line proves readiness.
    pub marker: Vec<u8>,
    /// Teardown has not yet begun.
    pub live: bool,
    /// Some line contained the marker while the loop was live.
    pub ready_seen: bool,
}

/// The event ends the loop: a shutdown request or the subprocess's own exit.
pub open spec fn is_terminal_event(e: SupervisorEvent) -> bool {
    e is ShutdownRequested || e is ProcessExited
}

/// The line carried by an output event, if any.
pub open spec fn event_line(e: SupervisorEvent) -> Option<Seq<u8>> {
    match e {
        SupervisorEvent::StdoutLine(l) => Some(l@),
        SupervisorEvent::StderrLine(l) => Some(l@),
        _ => None,
    }
}

impl Supervisor {
    /// The action the supervisor takes on `e`: cleanup exactly on the first
    /// terminal event, readiness exactly on a live line that contains the
    /// marker, nothing otherwise.
    pub open spec fn spec_action(self, e: SupervisorEvent) -> SupervisorAction {
        if !self.live {
            SupervisorAction::Ignore
        } else if is_terminal_event(e) {
            SupervisorAction::RunCleanup
        } else {
            match event_line(e) {
                Some(l) => if contains_marker(l, self.marker@) {
                    SupervisorAction::ReportReady
                } else {
                    SupervisorAction::Ignore
                },
                None => SupervisorAction::Ignore,
            }
        }
    }

    /// The supervisor's state after `e`.
    pub open spec fn spec_next(self, e: SupervisorEvent) -> Supervisor {
        Supervisor {
            marker: self.marker,
            live: self.live && !is_terminal_event(e),
            ready_seen: self.ready_seen
                || self.spec_action(e) is ReportReady,
        }
    }

    /// A fresh supervisor scanning for `marker`, with its loop live.
    pub fn new(marker: Vec<u8>) -> (s: Self)
        ensures
            s.marker@ == marker@,
            s.live,
            !s.ready_seen,
    {
        Supervisor { marker, live: true, ready_seen: false }
    }

    /// React to one event.
    pub fn step(&mut self, event: &SupervisorEvent) -> (a: SupervisorAction)
        ensures
            a == old(self).spec_action(*event),
            *final(self) == old(self).spec_next(*event),
    {
        if !self.live {
            return SupervisorAction::Ignore;
        }
        match event {
            SupervisorEvent::StdoutLine(line) => {
                if line_is_ready(line, &self.marker) {
                    self.ready_seen = true;
                    SupervisorAction::ReportReady
                } else {
                    SupervisorAction::Ignore
                }
            },
            SupervisorEvent::StderrLine(line) => {
                if line_is_ready(line, &self.marker) {
                    self.ready_seen = true;
                    SupervisorAction::ReportReady
                } else {
                    SupervisorAction::Ignore
                }
            },
            SupervisorEvent::StdoutClosed => SupervisorAction::Ignore,
            SupervisorEvent::StderrClosed => SupervisorAction::Ignore,
            SupervisorEvent::ShutdownRequested => {
                self.live = false;
                SupervisorAction::RunCleanup
            },
            SupervisorEvent::ProcessExited => {
                self.live = false;
                SupervisorAction::RunCleanup
            },
        }
    }
}

/// The marker line fragment proving the server has bound its listening
/// socket: `Listening on 127.0.0.1:11434`.
pub open spec fn default_marker_spec() -> Seq<u8> {
    seq![
        76u8, 105u8, 115u8, 116u8, 101u8, 110u8, 105u8, 110u8, 103u8, 32u8,
        111u8, 110u8, 32u8, 49u8, 50u8, 55u8, 46u8, 48u8, 46u8, 48u8, 46u8,
        49u8, 58u8, 49u8, 49u8, 52u8, 51u8, 52u8,
    ]
}

/// The default readiness marker, as the supervisor scans for it.
pub fn default_marker() -> (r: Vec<u8>)
    ensures
        r@ == default_marker_spec(),
{
    let mut v: Vec<u8> = Vec::new();
    v.push(76);
    v.push(105);
    v.push(115);
    v.push(116);
    v.push(101);
    v.push(110);
    v.push(105);
    v.push(110);
    v.push(103);
    v.push(32);
    v.push(111);
    v.push(110);
    v.push(32);
    v.push(49);
    v.push(50);
    v.push(55);
    v.push(46);
    v.push(48);
    v.push(46);
    v.push(48);
    v.push(46);
    v.push(49);
    v.push(58);
    v.push(49);
    v.push(49);
    v.push(52);
    v.push(51);
    v.push(52);
    proof {
        assert(v@ =~= default_marker_spec());
    }
    v
}

/// The server executable, at its fixed relative path.
pub fn server_program() -> (r: &'static str)
    ensures
        r@ == "ollama_files/bin/ollama"@,
{
    "ollama_files/bin/ollama"
}

/// The single fixed subcommand the server is started with.
pub fn server_subcommand() -> (r: &'static str)
    ensures
        r@ == "serve"@,
{
    "serve"
}

/// The name the best-effort cleanup kills by: every process whose name
/// contains it is terminated forcefully, because the server forks a worker
/// that outlives the tracked child.
pub fn kill_target_name() -> (r: &'static str)
    ensures
        r@ == "ollama"@,
{
    "ollama"
}

/// How many cleanup actions the supervisor emits over a whole event history.
pub open spec fn spec_cleanup_count(s: Supervisor, events: Seq<SupervisorEvent>) -> nat
    decreases events.len(),
{
    if events.len() == 0 {
        0
    } else {
        (if s.spec_action(events[0]) is RunCleanup { 1nat } else { 0nat })
            + spec_cleanup_count(s.spec_next(events[0]), events.drop_first())
    }
}

/// Some event in the history ends the loop.
pub open spec fn has_terminal_event(events: Seq<SupervisorEvent>) -> bool {
    exists|i: int| 0 <= i < events.len() && is_terminal_event(events[i])
}

/// Law: over any event history, a live supervisor emits the cleanup action
/// exactly once if the history holds a terminal event — whichever of the two
/// terminal kinds comes first — and never otherwise; a supervisor whose
/// teardown has begun never emits it again.
pub proof fn lemma_cleanup_exactly_once(s: Supervisor, events: Seq<SupervisorEvent>)
    ensures
        !s.live ==> spec_cleanup_count(s, events) == 0,
        s.live ==> spec_cleanup_count(s, events)
            == if has_terminal_event(events) { 1nat } else { 0nat },
    decreases events.len(),
{
    if events.len() == 0 {
        assert(!has_terminal_event(events));
    } else {
        let e = events[0];
        let rest = events.drop_first();
        lemma_cleanup_exactly_once(s.spec_next(e), rest);
        assert(has_terminal_event(events)
            == (is_terminal_event(e) || has_terminal_event(rest))) by {
            if is_terminal_event(e) {
                assert(has_terminal_event(events));
            }
            if has_terminal_event(rest) {
                let i = choose|i: int|
                    0 <= i < rest.len() && is_terminal_event(rest[i]);
                assert(rest[i] == events[i + 1]);
                assert(has_terminal_event(events));
            }
            if has_terminal_event(events) && !is_terminal_event(e) {
                let i = choose|i: int|
                    0 <= i < events.len() && is_terminal_event(events[i]);
                assert(i != 0);
                assert(rest[i - 1] == events[i]);
                assert(has_terminal_event(rest));
            }
        }
    }
}

} // verus!
