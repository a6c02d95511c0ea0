//! The coordinator: one state machine that takes the events of the
//! application's life, of its streaming and of the interface's link, and
//! decides what is done to the interface.
//!
//! Events are handled one at a time, in the order in which they arrive. Each
//! handler returns the actions to carry out, in order. The coordinator never
//! learns whether bringing the interface down or allowing it up succeeded:
//! its state records what was intended, and a later link event has the
//! intent asserted again.

use crate::interface::InterfaceError;
use crate::interface_monitor::InterfaceEvent;
use crate::process_monitor::{ProcessEvent, ProcessEventKind, ProcessEventView};
use vstd::prelude::*;

verus! {

/// The one instance of the target application that is tracked.
#[derive(Debug, Clone, PartialEq, Eq)]
pub struct TargetProcess {
    /// The instance's process identifier.
    pub pid: i32,
    /// The application's bundle identifier.
    pub bundle_id: String,
}

/// The state of the coordinator.
#[derive(Debug, Clone, PartialEq, Eq)]
pub enum CoordinatorState {
    /// No instance of the target application is tracked.
    Idle,
    /// An instance runs; `streaming` says whether it streams, which is while
    /// the interface is kept down.
    Running { process: TargetProcess, streaming: bool },
}

/// A [`CoordinatorState`] as a plain value.
pub enum StateView {
    Idle,
    Running { pid: i32, bundle_id: Seq<char>, streaming: bool },
}

impl View for CoordinatorState {
    type V = StateView;

    open spec fn view(&self) -> StateView {
        match *self {
            CoordinatorState::Idle => StateView::Idle,
            CoordinatorState::Running { process, streaming } => StateView::Running {
                pid: process.pid,
                bundle_id: process.bundle_id@,
                streaming,
            },
        }
    }
}

impl StateView {
    /// The interface is being kept down: an instance runs and streams.
    pub open spec fn is_streaming(self) -> bool {
        self matches StateView::Running { streaming, .. } && streaming
    }

    /// The instance with process identifier `pid` is the tracked one.
    pub open spec fn tracks(self, pid: i32) -> bool {
        self matches StateView::Running { pid: running, .. } && running == pid
    }

    /// The state with the streaming flag set to `streaming`; `Idle` has no
    /// such flag and stays as it is.
    pub open spec fn with_streaming(self, streaming: bool) -> StateView {
        match self {
            StateView::Idle => StateView::Idle,
            StateView::Running { pid, bundle_id, .. } => StateView::Running {
                pid,
                bundle_id,
                streaming,
            },
        }
    }
}

/// What the coordinator asks to be done.
#[derive(Clone, Copy, Debug, PartialEq, Eq, Structural)]
pub enum Action {
    /// Start sampling the process `pid` for fullscreen windows.
    StartDetector { pid: i32 },
    /// Stop sampling.
    StopDetector,
    /// Bring the managed interface down.
    BringDown,
    /// Allow the managed interface up.
    AllowUp,
    /// Ask whether the managed interface is up, and hand the answer to
    /// [`Coordinator::handle_link_status`].
    QueryLink,
}

/// A transition: the state that follows and the actions to carry out, in
/// order.
pub struct Step {
    pub next: StateView,
    pub actions: Seq<Action>,
}

/// The transition on an event of the application's life or streaming.
///
/// - `Launched` makes the launched instance the tracked one and has its
///   sampling started. An instance tracked before is replaced; what was
///   believed of streaming stays.
/// - `Terminated` of the tracked instance has sampling stopped and, where
///   the instance streamed, the interface allowed up; the coordinator falls
///   idle. `Terminated` of any other instance is stale and ignored.
/// - `StreamStarted` while an instance runs has the interface brought down.
/// - `StreamEnded` while an instance runs has the interface allowed up.
/// - An idle coordinator ignores the streaming events.
pub open spec fn process_step(state: StateView, event: ProcessEventView) -> Step {
    match event.kind {
        ProcessEventKind::Launched => Step {
            next: StateView::Running {
                pid: event.pid,
                bundle_id: event.bundle_id,
                streaming: state.is_streaming(),
            },
            actions: seq![Action::StartDetector { pid: event.pid }],
        },
        ProcessEventKind::Terminated => if state.tracks(event.pid) {
            Step {
                next: StateView::Idle,
                actions: if state.is_streaming() {
                    seq![Action::StopDetector, Action::AllowUp]
                } else {
                    seq![Action::StopDetector]
                },
            }
        } else {
            Step { next: state, actions: seq![] }
        },
        ProcessEventKind::StreamStarted => match state {
            StateView::Idle => Step { next: state, actions: seq![] },
            StateView::Running { .. } => Step {
                next: state.with_streaming(true),
                actions: seq![Action::BringDown],
            },
        },
        ProcessEventKind::StreamEnded => match state {
            StateView::Idle => Step { next: state, actions: seq![] },
            StateView::Running { .. } => Step {
                next: state.with_streaming(false),
                actions: seq![Action::AllowUp],
            },
        },
    }
}

/// What a change of the interface's link asks for: while the interface is
/// kept down, the question whether it came up; otherwise nothing.
pub open spec fn link_change_actions(state: StateView) -> Seq<Action> {
    if state.is_streaming() {
        seq![Action::QueryLink]
    } else {
        seq![]
    }
}

/// What the answer to that question asks for: the interface is brought down
/// again where it is up although it is still to be kept down. An interface
/// that is down, a question that failed, and an answer that comes when the
/// interface is no longer kept down ask for nothing.
pub open spec fn link_status_actions(state: StateView, status: Result<bool, InterfaceError>) -> Seq<
    Action,
> {
    if state.is_streaming() && status == Ok::<bool, InterfaceError>(true) {
        seq![Action::BringDown]
    } else {
        seq![]
    }
}

/// What shutting down asks for: an interface that is kept down is allowed
/// up, once.
pub open spec fn shutdown_actions(state: StateView) -> Seq<Action> {
    if state.is_streaming() {
        seq![Action::AllowUp]
    } else {
        seq![]
    }
}

/// The coordinator.
#[derive(Debug)]
pub struct Coordinator {
    state: CoordinatorState,
}

impl View for Coordinator {
    type V = StateView;

    closed spec fn view(&self) -> StateView {
        self.state@
    }
}

impl Coordinator {
    /// A coordinator that tracks nothing yet.
    pub fn new() -> (coordinator: Self)
        ensures
            coordinator@ == StateView::Idle,
    {
        Coordinator { state: CoordinatorState::Idle }
    }

    /// The state.
    pub fn state(&self) -> (state: &CoordinatorState)
        ensures
            state@ == self@,
    {
        &self.state
    }

    /// Whether the interface is being kept down.
    pub fn is_streaming(&self) -> (streaming: bool)
        ensures
            streaming == self@.is_streaming(),
    {
        match &self.state {
            CoordinatorState::Idle => false,
            CoordinatorState::Running { streaming, .. } => *streaming,
        }
    }

    /// The pid of the tracked instance, if there is one.
    pub fn tracked_pid(&self) -> (pid: Option<i32>)
        ensures
            match pid {
                Some(p) => self@.tracks(p),
                None => self@ == StateView::Idle,
            },
    {
        match &self.state {
            CoordinatorState::Idle => None,
            CoordinatorState::Running { process, .. } => Some(process.pid),
        }
    }

    /// Handles an event of the application's life or streaming, as
    /// [`process_step`] lays down, and returns the actions to carry out.
    pub fn handle_process_event(&mut self, event: &ProcessEvent) -> (actions: Vec<Action>)
        ensures
            final(self)@ == process_step(old(self)@, event@).next,
            actions@ == process_step(old(self)@, event@).actions,
    {
        match event {
            ProcessEvent::Launched { bundle_id, pid } => {
                let streaming = self.is_streaming();
                self.state = CoordinatorState::Running {
                    process: TargetProcess { pid: *pid, bundle_id: bundle_id.clone() },
                    streaming,
                };
                vec![Action::StartDetector { pid: *pid }]
            },
            ProcessEvent::Terminated { pid, .. } => {
                let ours = match &self.state {
                    CoordinatorState::Idle => false,
                    CoordinatorState::Running { process, .. } => process.pid == *pid,
                };
                if !ours {
                    return vec![];
                }
                let streaming = self.is_streaming();
                self.state = CoordinatorState::Idle;
                if streaming {
                    vec![Action::StopDetector, Action::AllowUp]
                } else {
                    vec![Action::StopDetector]
                }
            },
            ProcessEvent::StreamStarted { .. } => self.set_streaming(true),
            ProcessEvent::StreamEnded { .. } => self.set_streaming(false),
        }
    }

    /// Records that streaming started or ended and returns the actuation
    /// that goes with it; an idle coordinator records nothing and asks for
    /// nothing.
    fn set_streaming(&mut self, streaming: bool) -> (actions: Vec<Action>)
        ensures
            final(self)@ == old(self)@.with_streaming(streaming),
            actions@ == if old(self)@ is Idle {
                seq![]
            } else if streaming {
                seq![Action::BringDown]
            } else {
                seq![Action::AllowUp]
            },
    {
        match &mut self.state {
            CoordinatorState::Idle => vec![],
            CoordinatorState::Running { streaming: flag, .. } => {
                *flag = streaming;
                if streaming {
                    vec![Action::BringDown]
                } else {
                    vec![Action::AllowUp]
                }
            },
        }
    }

    /// Handles a change of the interface's link state, as
    /// [`link_change_actions`] lays down. The state stays as it is.
    pub fn handle_interface_event(&self, event: &InterfaceEvent) -> (actions: Vec<Action>)
        ensures
            actions@ == link_change_actions(self@),
    {
        if self.is_streaming() {
            vec![Action::QueryLink]
        } else {
            vec![]
        }
    }

    /// Handles the answer to [`Action::QueryLink`], as
    /// [`link_status_actions`] lays down. The state stays as it is.
    pub fn handle_link_status(&self, status: &Result<bool, InterfaceError>) -> (actions: Vec<
        Action,
    >)
        ensures
            actions@ == link_status_actions(self@, *status),
    {
        let up = match status {
            Ok(up) => *up,
            Err(_) => false,
        };
        if self.is_streaming() && up {
            vec![Action::BringDown]
        } else {
            vec![]
        }
    }

    /// Handles a tick of the main loop: the same question as on a change of
    /// the link, so that an interface that came up unnoticed does not stay
    /// up while it is to be kept down.
    pub fn handle_tick(&self) -> (actions: Vec<Action>)
        ensures
            actions@ == link_change_actions(self@),
    {
        if self.is_streaming() {
            vec![Action::QueryLink]
        } else {
            vec![]
        }
    }

    /// Ends the coordinator's work, as [`shutdown_actions`] lays down.
    pub fn shutdown(self) -> (actions: Vec<Action>)
        ensures
            actions@ == shutdown_actions(self@),
    {
        if self.is_streaming() {
            vec![Action::AllowUp]
        } else {
            vec![]
        }
    }
}

/// Race correction: while the interface is kept down, a change of its link
/// has the coordinator ask whether it is up. The answer "up" has it brought
/// down again, exactly once; the answer "down" and a failed question have
/// nothing done.
pub proof fn lemma_race_correction(state: StateView, status: Result<bool, InterfaceError>)
    requires
        state.is_streaming(),
    ensures
        link_change_actions(state) == seq![Action::QueryLink],
        status == Ok::<bool, InterfaceError>(true) ==> link_status_actions(state, status)
            == seq![Action::BringDown],
        status != Ok::<bool, InterfaceError>(true) ==> link_status_actions(state, status)
            == Seq::<Action>::empty(),
{
}

/// While the interface is not kept down, neither a change of its link nor
/// any answer about it has anything done.
pub proof fn lemma_link_ignored_unless_streaming(
    state: StateView,
    status: Result<bool, InterfaceError>,
)
    requires
        !state.is_streaming(),
    ensures
        link_change_actions(state) == Seq::<Action>::empty(),
        link_status_actions(state, status) == Seq::<Action>::empty(),
{
}

/// Stale-event immunity: the termination of an instance that is not the
/// one being followed changes nothing and has nothing done.
pub proof fn lemma_stale_termination_ignored(state: StateView, event: ProcessEventView)
    requires
        event.kind == ProcessEventKind::Terminated,
        !state.tracks(event.pid),
    ensures
        process_step(state, event).next == state,
        process_step(state, event).actions == Seq::<Action>::empty(),
{
}

/// Shutdown while streaming allows the interface up exactly once; shutdown
/// in any other state has nothing done.
pub proof fn lemma_shutdown_releases_once(state: StateView)
    ensures
        state.is_streaming() ==> shutdown_actions(state) == seq![Action::AllowUp],
        !state.is_streaming() ==> shutdown_actions(state) == Seq::<Action>::empty(),
{
}

/// The interface is never left down behind the coordinator's back: a step
/// asks for it to be brought down only if the step ends in streaming, and a
/// step that leaves streaming asks, last of all, for it to be allowed up.
pub proof fn lemma_down_only_while_streaming(state: StateView, event: ProcessEventView)
    ensures
        ({
            let step = process_step(state, event);
            &&& step.actions.contains(Action::BringDown) ==> step.next.is_streaming()
            &&& state.is_streaming() && !step.next.is_streaming() ==> step.actions.len() > 0
                && step.actions.last() == Action::AllowUp
        }),
{
    let step = process_step(state, event);
    if step.actions.contains(Action::BringDown) {
        let i = choose|i: int| 0 <= i < step.actions.len() && step.actions[i] == Action::BringDown;
        assert(step.actions[i] == Action::BringDown);
    }
}

} // verus!
