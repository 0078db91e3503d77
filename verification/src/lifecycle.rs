//! The life of the runtime: what it does, step by step, from start to exit.
//!
//! Removing a stale socket, binding the listener, serving and waiting for an interrupt are the
//! runtime's work. This module decides, for each thing that the runtime reports, what the
//! runtime does next.

use vstd::prelude::*;
use crate::error::NeboError;

verus! {

/// Where the runtime stands.
#[derive(Clone, Copy, Debug, PartialEq, Eq, Structural)]
pub enum Phase {
    /// Not started yet.
    Created,
    /// Removing what may be left at the socket's path.
    Clearing,
    /// Binding the listener.
    Binding,
    /// Serving calls.
    Serving,
    /// Interrupted: no new connections, calls in flight may finish.
    Draining,
    /// Over, cleanly or not. The runtime does not start again.
    Finished,
}

/// What the runtime reports.
#[derive(Debug, Clone, PartialEq)]
pub enum LifecycleEvent {
    /// The application asked the runtime to run.
    Start,
    /// A file was at the socket's path and has been removed.
    StaleRemoved,
    /// Nothing was at the socket's path.
    StaleAbsent,
    /// What is at the socket's path could not be removed; the text says why.
    StaleStuck(String),
    /// The listener is bound.
    Bound,
    /// The listener could not be bound; the text says why.
    BindFailed(String),
    /// The process was interrupted.
    Interrupted,
    /// Serving has ended and every accepted connection is done.
    Served,
    /// Serving has failed; the text says why.
    ServeFailed(String),
}

/// What the runtime does next.
#[derive(Debug, Clone, PartialEq)]
pub enum LifecycleAction {
    /// Remove the file at this path, if there is one.
    RemoveStale(String),
    /// Bind the listener to this path.
    Bind(String),
    /// Print this line, then serve the registered capabilities until interrupted.
    Serve(String),
    /// Stop accepting connections and let the calls in flight finish.
    StopAccepting,
    /// Exit cleanly.
    Exit,
    /// Give up with this failure.
    Fail(NeboError),
    /// Nothing: the report does not concern the runtime as it stands.
    Stay,
}

/// A `LifecycleAction` with its texts as plain text.
pub enum ActionView {
    RemoveStale(Seq<char>),
    Bind(Seq<char>),
    Serve(Seq<char>),
    StopAccepting,
    Exit,
    Fail(NeboError),
    Stay,
}

impl View for LifecycleAction {
    type V = ActionView;

    open spec fn view(&self) -> ActionView {
        match self {
            LifecycleAction::RemoveStale(path) => ActionView::RemoveStale(path@),
            LifecycleAction::Bind(path) => ActionView::Bind(path@),
            LifecycleAction::Serve(line) => ActionView::Serve(line@),
            LifecycleAction::StopAccepting => ActionView::StopAccepting,
            LifecycleAction::Exit => ActionView::Exit,
            LifecycleAction::Fail(failure) => ActionView::Fail(*failure),
            LifecycleAction::Stay => ActionView::Stay,
        }
    }
}

/// The line that announces a listening runtime: its name in brackets, then where it listens.
pub open spec fn banner(name: Seq<char>, sock_path: Seq<char>) -> Seq<char> {
    "["@ + name + "] listening on "@ + sock_path
}

/// The runtime's life.
#[derive(Debug)]
pub struct Lifecycle {
    phase: Phase,
    ready: bool,
    name: String,
    sock_path: String,
}

/// What a `Lifecycle` holds.
pub struct LifecycleView {
    pub phase: Phase,
    /// Whether at least one capability is registered.
    pub ready: bool,
    /// The name that the runtime announces itself under.
    pub name: Seq<char>,
    /// The path of the socket to listen on.
    pub sock_path: Seq<char>,
}

impl LifecycleView {
    /// Where the runtime stands after a report.
    pub open spec fn next(self, event: LifecycleEvent) -> LifecycleView {
        LifecycleView { phase: self.next_phase(event), ..self }
    }

    /// The phase after a report.
    pub open spec fn next_phase(self, event: LifecycleEvent) -> Phase {
        match (self.phase, event) {
            (Phase::Created, LifecycleEvent::Start) => if self.ready {
                Phase::Clearing
            } else {
                Phase::Finished
            },
            (Phase::Clearing, LifecycleEvent::StaleRemoved) => Phase::Binding,
            (Phase::Clearing, LifecycleEvent::StaleAbsent) => Phase::Binding,
            (Phase::Clearing, LifecycleEvent::StaleStuck(_)) => Phase::Finished,
            (Phase::Binding, LifecycleEvent::Bound) => Phase::Serving,
            (Phase::Binding, LifecycleEvent::BindFailed(_)) => Phase::Finished,
            (Phase::Serving, LifecycleEvent::Interrupted) => Phase::Draining,
            (Phase::Serving, LifecycleEvent::Served) => Phase::Finished,
            (Phase::Serving, LifecycleEvent::ServeFailed(_)) => Phase::Finished,
            (Phase::Draining, LifecycleEvent::Served) => Phase::Finished,
            (Phase::Draining, LifecycleEvent::ServeFailed(_)) => Phase::Finished,
            (phase, _) => phase,
        }
    }

    /// What the runtime is told to do for a report.
    pub open spec fn answer(self, event: LifecycleEvent) -> ActionView {
        match (self.phase, event) {
            (Phase::Created, LifecycleEvent::Start) => if self.ready {
                ActionView::RemoveStale(self.sock_path)
            } else {
                ActionView::Fail(NeboError::NoHandlers)
            },
            (Phase::Clearing, LifecycleEvent::StaleRemoved) => ActionView::Bind(self.sock_path),
            (Phase::Clearing, LifecycleEvent::StaleAbsent) => ActionView::Bind(self.sock_path),
            (Phase::Clearing, LifecycleEvent::StaleStuck(why)) => ActionView::Fail(
                NeboError::Io(why),
            ),
            (Phase::Binding, LifecycleEvent::Bound) => ActionView::Serve(
                banner(self.name, self.sock_path),
            ),
            (Phase::Binding, LifecycleEvent::BindFailed(why)) => ActionView::Fail(
                NeboError::Io(why),
            ),
            (Phase::Serving, LifecycleEvent::Interrupted) => ActionView::StopAccepting,
            (Phase::Serving, LifecycleEvent::Served) => ActionView::Exit,
            (Phase::Serving, LifecycleEvent::ServeFailed(why)) => ActionView::Fail(
                NeboError::Transport(why),
            ),
            (Phase::Draining, LifecycleEvent::Served) => ActionView::Exit,
            (Phase::Draining, LifecycleEvent::ServeFailed(why)) => ActionView::Fail(
                NeboError::Transport(why),
            ),
            _ => ActionView::Stay,
        }
    }

    /// Where the runtime stands after a run of reports.
    pub open spec fn after(self, events: Seq<LifecycleEvent>) -> LifecycleView
        decreases events.len(),
    {
        if events.len() == 0 {
            self
        } else {
            self.after(events.drop_last()).next(events.last())
        }
    }

    /// What the runtime was told to do for the last of a run of reports.
    pub open spec fn last_answer(self, events: Seq<LifecycleEvent>) -> ActionView
        recommends
            events.len() > 0,
    {
        self.after(events.drop_last()).answer(events.last())
    }
}

/// Whether an action touches the socket's path or the listener.
pub open spec fn touches_transport(action: ActionView) -> bool {
    action is RemoveStale || action is Bind || action is Serve
}

impl View for Lifecycle {
    type V = LifecycleView;

    closed spec fn view(&self) -> LifecycleView {
        LifecycleView {
            phase: self.phase,
            ready: self.ready,
            name: self.name@,
            sock_path: self.sock_path@,
        }
    }
}

impl Lifecycle {
    /// The life of a runtime that has not started, for an application with the given name and
    /// socket path; `ready` says whether the application registered any capability.
    pub fn new(ready: bool, name: String, sock_path: String) -> (life: Self)
        ensures
            life@ == (LifecycleView {
                phase: Phase::Created,
                ready,
                name: name@,
                sock_path: sock_path@,
            }),
    {
        Lifecycle { phase: Phase::Created, ready, name, sock_path }
    }

    /// Where the runtime stands.
    pub fn phase(&self) -> (phase: Phase)
        ensures
            phase == self@.phase,
    {
        self.phase
    }

    /// The line that announces the runtime.
    fn announce(&self) -> (line: String)
        ensures
            line@ == banner(self@.name, self@.sock_path),
    {
        let mut line = String::from_str("[");
        line.append(self.name.as_str());
        line.append("] listening on ");
        line.append(self.sock_path.as_str());
        line
    }

    /// Takes a report from the runtime and says what the runtime does next.
    ///
    /// A runtime without capabilities gives up at once. Otherwise it clears the socket's path,
    /// binds only if the path is clear, announces itself and serves; an interrupt makes it
    /// stop accepting, and the end of serving makes it exit. A report that does not fit where
    /// the runtime stands changes nothing.
    pub fn step(&mut self, event: LifecycleEvent) -> (action: LifecycleAction)
        ensures
            final(self)@ == old(self)@.next(event),
            action@ == old(self)@.answer(event),
    {
        match (self.phase, event) {
            (Phase::Created, LifecycleEvent::Start) => {
                if self.ready {
                    self.phase = Phase::Clearing;
                    LifecycleAction::RemoveStale(self.sock_path.clone())
                } else {
                    self.phase = Phase::Finished;
                    LifecycleAction::Fail(NeboError::NoHandlers)
                }
            },
            (Phase::Clearing, LifecycleEvent::StaleRemoved) => {
                self.phase = Phase::Binding;
                LifecycleAction::Bind(self.sock_path.clone())
            },
            (Phase::Clearing, LifecycleEvent::StaleAbsent) => {
                self.phase = Phase::Binding;
                LifecycleAction::Bind(self.sock_path.clone())
            },
            (Phase::Clearing, LifecycleEvent::StaleStuck(why)) => {
                self.phase = Phase::Finished;
                LifecycleAction::Fail(NeboError::Io(why))
            },
            (Phase::Binding, LifecycleEvent::Bound) => {
                self.phase = Phase::Serving;
                LifecycleAction::Serve(self.announce())
            },
            (Phase::Binding, LifecycleEvent::BindFailed(why)) => {
                self.phase = Phase::Finished;
                LifecycleAction::Fail(NeboError::Io(why))
            },
            (Phase::Serving, LifecycleEvent::Interrupted) => {
                self.phase = Phase::Draining;
                LifecycleAction::StopAccepting
            },
            (Phase::Serving, LifecycleEvent::Served) => {
                self.phase = Phase::Finished;
                LifecycleAction::Exit
            },
            (Phase::Serving, LifecycleEvent::ServeFailed(why)) => {
                self.phase = Phase::Finished;
                LifecycleAction::Fail(NeboError::Transport(why))
            },
            (Phase::Draining, LifecycleEvent::Served) => {
                self.phase = Phase::Finished;
                LifecycleAction::Exit
            },
            (Phase::Draining, LifecycleEvent::ServeFailed(why)) => {
                self.phase = Phase::Finished;
                LifecycleAction::Fail(NeboError::Transport(why))
            },
            _ => LifecycleAction::Stay,
        }
    }
}

/// A finished runtime stays finished and does nothing, whatever is reported.
pub proof fn lemma_finished_is_final(life: LifecycleView, events: Seq<LifecycleEvent>)
    requires
        life.phase is Finished,
    ensures
        life.after(events) == life,
        events.len() > 0 ==> life.last_answer(events) is Stay,
    decreases events.len(),
{
    if events.len() > 0 {
        lemma_finished_is_final(life, events.drop_last());
        if events.len() > 1 {
            lemma_finished_is_final(life, events.drop_last().drop_last());
        }
    }
}

/// Fail fast: a runtime without capabilities answers the request to run with the failure that
/// says so, and whatever is reported, before or after, it never removes a file, binds or
/// serves.
pub proof fn lemma_without_handlers_nothing_is_bound(
    life: LifecycleView,
    events: Seq<LifecycleEvent>,
)
    requires
        life.phase is Created,
        !life.ready,
        events.len() > 0,
    ensures
        life.answer(LifecycleEvent::Start) == ActionView::Fail(NeboError::NoHandlers),
        NeboError::NoHandlers.is_configuration(),
        life.next(LifecycleEvent::Start).phase is Finished,
        !touches_transport(life.last_answer(events)),
        life.after(events).phase is Created || life.after(events).phase is Finished,
    decreases events.len(),
{
    lemma_idle_or_finished(life, events.drop_last());
    lemma_idle_or_finished(life, events);
}

/// A runtime without capabilities is never anywhere but at its start or at its end.
proof fn lemma_idle_or_finished(life: LifecycleView, events: Seq<LifecycleEvent>)
    requires
        life.phase is Created,
        !life.ready,
    ensures
        life.after(events).phase is Created || life.after(events).phase is Finished,
        life.after(events).ready == life.ready,
    decreases events.len(),
{
    if events.len() > 0 {
        lemma_idle_or_finished(life, events.drop_last());
    }
}

/// Stale-socket recovery: the runtime binds only in answer to the report that the socket's
/// path is clear, because a file was removed or because none was there. When what is at the
/// path cannot be removed, the runtime gives up with that failure and is finished.
pub proof fn lemma_binds_only_when_clear(life: LifecycleView, event: LifecycleEvent)
    ensures
        life.answer(event) is Bind ==> life.phase is Clearing && (event is StaleRemoved
            || event is StaleAbsent) && life.answer(event) == ActionView::Bind(life.sock_path),
        life.phase is Clearing && (event is StaleRemoved || event is StaleAbsent)
            ==> life.answer(event) == ActionView::Bind(life.sock_path),
        life.phase is Clearing && event is StaleStuck ==> life.answer(event) == ActionView::Fail(
            NeboError::Io(event->StaleStuck_0),
        ) && life.next(event).phase is Finished,
{
}

/// How far along its life the runtime is in a phase.
pub open spec fn progress(phase: Phase) -> nat {
    match phase {
        Phase::Created => 0,
        Phase::Clearing => 1,
        Phase::Binding => 2,
        Phase::Serving => 3,
        Phase::Draining => 4,
        Phase::Finished => 5,
    }
}

/// The runtime never goes back: whatever is reported, it stays where it stands or moves on,
/// and it moves on exactly when it has something to do.
pub proof fn lemma_never_goes_back(life: LifecycleView, event: LifecycleEvent)
    ensures
        progress(life.phase) <= progress(life.next(event).phase),
        life.answer(event) is Stay <==> life.next(event) == life,
{
}

/// Over any run of reports the runtime only moves on. So it does not start again once it has
/// started, and once it is finished it stays finished.
pub proof fn lemma_runs_forward(life: LifecycleView, events: Seq<LifecycleEvent>)
    ensures
        progress(life.phase) <= progress(life.after(events).phase),
    decreases events.len(),
{
    if events.len() > 0 {
        lemma_runs_forward(life, events.drop_last());
        lemma_never_goes_back(life.after(events.drop_last()), events.last());
    }
}

/// The listener is bound before anything is served: the runtime serves only in answer to the
/// report that the listener is bound, and announces itself under its name and socket path.
pub proof fn lemma_serves_only_when_bound(life: LifecycleView, event: LifecycleEvent)
    ensures
        life.answer(event) is Serve <==> life.phase is Binding && event is Bound,
        life.answer(event) is Serve ==> life.answer(event) == ActionView::Serve(
            banner(life.name, life.sock_path),
        ),
        life.answer(event) is StopAccepting <==> life.phase is Serving && event is Interrupted,
        life.answer(event) is Exit <==> (life.phase is Serving || life.phase is Draining)
            && event is Served,
{
}

/// The runtime runs once: a request to run that comes after the first changes nothing.
pub proof fn lemma_runs_once(life: LifecycleView)
    requires
        !(life.phase is Created),
    ensures
        life.answer(LifecycleEvent::Start) is Stay,
        life.next(LifecycleEvent::Start) == life,
{
}

} // verus!
