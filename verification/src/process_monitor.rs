//! Watching the target application: its launch and termination, as the
//! workspace reports them, and whether it is streaming, as sampled from its
//! windows.
//!
//! Nothing here waits, sleeps or talks to the system. The lifecycle monitor
//! turns what a notification holds into an event; the streaming detector
//! turns one fullscreen sample after another into edge events. Whoever runs
//! them delivers the notifications and takes the samples.

use std::sync::Arc;
use vstd::prelude::*;

verus! {

/// Seconds between two fullscreen samples while the target is alive.
pub const POLL_INTERVAL_SECS: u64 = 5;

/// The bundle identifier watched for when none is configured.
pub open spec fn default_bundle_id() -> Seq<char> {
    "com.nvidia.gfnpc.mall"@
}

/// Errors of process monitoring.
#[derive(Debug)]
pub enum MonitorError {
    /// The monitor was started away from the main thread.
    NotMainThread,
}

impl MonitorError {
    /// The message of the error.
    pub fn to_string(&self) -> (text: String)
        ensures
            text@ == "not running on main thread"@,
    {
        match self {
            MonitorError::NotMainThread => "not running on main thread".to_owned(),
        }
    }
}

/// Events of the target application's life.
#[derive(Debug, Clone, PartialEq, Eq)]
pub enum ProcessEvent {
    /// The target application was launched.
    Launched { bundle_id: String, pid: i32 },
    /// The target application was terminated.
    Terminated { bundle_id: String, pid: i32 },
    /// The target application entered fullscreen (streaming started).
    StreamStarted { bundle_id: String, pid: i32 },
    /// The target application left fullscreen (streaming stopped).
    StreamEnded { bundle_id: String, pid: i32 },
}

/// The four kinds of [`ProcessEvent`].
#[derive(Clone, Copy, Debug, PartialEq, Eq, Structural)]
pub enum ProcessEventKind {
    Launched,
    Terminated,
    StreamStarted,
    StreamEnded,
}

/// A [`ProcessEvent`] as a plain value: its kind, the bundle identifier as a
/// sequence of characters, and the pid.
pub struct ProcessEventView {
    pub kind: ProcessEventKind,
    pub bundle_id: Seq<char>,
    pub pid: i32,
}

impl View for ProcessEvent {
    type V = ProcessEventView;

    open spec fn view(&self) -> ProcessEventView {
        match *self {
            ProcessEvent::Launched { bundle_id, pid } => ProcessEventView {
                kind: ProcessEventKind::Launched,
                bundle_id: bundle_id@,
                pid,
            },
            ProcessEvent::Terminated { bundle_id, pid } => ProcessEventView {
                kind: ProcessEventKind::Terminated,
                bundle_id: bundle_id@,
                pid,
            },
            ProcessEvent::StreamStarted { bundle_id, pid } => ProcessEventView {
                kind: ProcessEventKind::StreamStarted,
                bundle_id: bundle_id@,
                pid,
            },
            ProcessEvent::StreamEnded { bundle_id, pid } => ProcessEventView {
                kind: ProcessEventKind::StreamEnded,
                bundle_id: bundle_id@,
                pid,
            },
        }
    }
}

impl ProcessEvent {
    /// The kind of the event.
    pub fn kind(&self) -> (kind: ProcessEventKind)
        ensures
            kind == self@.kind,
    {
        match self {
            ProcessEvent::Launched { .. } => ProcessEventKind::Launched,
            ProcessEvent::Terminated { .. } => ProcessEventKind::Terminated,
            ProcessEvent::StreamStarted { .. } => ProcessEventKind::StreamStarted,
            ProcessEvent::StreamEnded { .. } => ProcessEventKind::StreamEnded,
        }
    }

    /// The pid of the process the event is about.
    pub fn pid(&self) -> (pid: i32)
        ensures
            pid == self@.pid,
    {
        match self {
            ProcessEvent::Launched { pid, .. } => *pid,
            ProcessEvent::Terminated { pid, .. } => *pid,
            ProcessEvent::StreamStarted { pid, .. } => *pid,
            ProcessEvent::StreamEnded { pid, .. } => *pid,
        }
    }
}

/// A handler of process events.
pub type EventCallback = Arc<dyn Fn(ProcessEvent) + Send + Sync>;

/// Which application to watch.
#[derive(Debug, Clone)]
pub struct MonitorConfig {
    /// The bundle identifier to watch for.
    pub target_bundle_id: String,
}

impl Default for MonitorConfig {
    fn default() -> (config: Self)
        ensures
            config.target_bundle_id@ == default_bundle_id(),
    {
        MonitorConfig { target_bundle_id: "com.nvidia.gfnpc.mall".to_owned() }
    }
}

/// A running application, as the workspace lists it.
#[derive(Debug, Clone)]
pub struct RunningApplication {
    /// The application's bundle identifier, where it has one.
    pub bundle_id: Option<String>,
    /// The application's process identifier.
    pub pid: i32,
}

impl RunningApplication {
    /// The application carries the bundle identifier `target`.
    pub open spec fn has_bundle_id(self, target: Seq<char>) -> bool {
        match self.bundle_id {
            Some(id) => id@ == target,
            None => false,
        }
    }

    /// Executable form of [`RunningApplication::has_bundle_id`].
    pub fn is_target(&self, target: &String) -> (yes: bool)
        ensures
            yes == self.has_bundle_id(target@),
    {
        match &self.bundle_id {
            Some(id) => *id == *target,
            None => false,
        }
    }
}

/// A launch or termination notification of the workspace.
#[derive(Debug, Clone)]
pub struct WorkspaceNotification {
    /// The application the notification is about; `None` where the
    /// notification does not say.
    pub application: Option<RunningApplication>,
}

impl WorkspaceNotification {
    /// The notification is about an application with bundle identifier
    /// `target`.
    pub open spec fn concerns(self, target: Seq<char>) -> bool {
        match self.application {
            Some(app) => app.has_bundle_id(target),
            None => false,
        }
    }
}

/// `index` is the place of the first application in `apps` that carries the
/// bundle identifier `target`.
pub open spec fn is_first_target(
    apps: Seq<RunningApplication>,
    target: Seq<char>,
    index: int,
) -> bool {
    &&& 0 <= index < apps.len()
    &&& apps[index].has_bundle_id(target)
    &&& forall|j: int| 0 <= j < index ==> !(#[trigger] apps[j]).has_bundle_id(target)
}

/// No application in `apps` carries the bundle identifier `target`.
pub open spec fn no_target(apps: Seq<RunningApplication>, target: Seq<char>) -> bool {
    forall|j: int| 0 <= j < apps.len() ==> !(#[trigger] apps[j]).has_bundle_id(target)
}

/// The event with the given kind and content.
pub open spec fn event_view(kind: ProcessEventKind, bundle_id: Seq<char>, pid: i32)
    -> ProcessEventView {
    ProcessEventView { kind, bundle_id, pid }
}

/// The lifecycle monitor as a plain value.
pub struct ProcessMonitorView {
    /// The bundle identifier watched for.
    pub target: Seq<char>,
    /// The pid of the running target application, 0 while none is known.
    pub current_pid: i32,
}

impl ProcessMonitorView {
    /// Reconciling the monitor with the running applications `apps` reports
    /// `found` and leaves the monitor as `after`: the first application with
    /// the target's bundle identifier is reported as launched and its pid
    /// kept; without such an application nothing is reported and nothing
    /// changes.
    pub open spec fn reconciles(
        self,
        apps: Seq<RunningApplication>,
        found: Option<ProcessEvent>,
        after: ProcessMonitorView,
    ) -> bool {
        &&& after.target == self.target
        &&& match found {
            Some(event) => exists|i: int|
                {
                    &&& is_first_target(apps, self.target, i)
                    &&& event@ == event_view(
                        ProcessEventKind::Launched,
                        self.target,
                        (#[trigger] apps[i]).pid,
                    )
                    &&& after.current_pid == apps[i].pid
                },
            None => no_target(apps, self.target) && after == self,
        }
    }

    /// Whether a notification is acted upon: it is about the target, and it
    /// is a launch or the termination of the tracked instance.
    pub open spec fn heeds(self, notification: WorkspaceNotification, is_launch: bool) -> bool {
        notification.concerns(self.target) && (is_launch || notification.application->0.pid
            == self.current_pid)
    }

    /// The event that a notification is answered with, if any: `Launched`
    /// for a launch of the target, `Terminated` for the termination of the
    /// tracked instance, nothing for every other notification.
    pub open spec fn notification_event(self, notification: WorkspaceNotification, is_launch: bool)
        -> Option<ProcessEventView> {
        if self.heeds(notification, is_launch) {
            Some(
                event_view(
                    if is_launch {
                        ProcessEventKind::Launched
                    } else {
                        ProcessEventKind::Terminated
                    },
                    self.target,
                    notification.application->0.pid,
                ),
            )
        } else {
            None
        }
    }

    /// The monitor after a notification: a launch of the target makes its
    /// pid the tracked one, the termination of the tracked instance clears
    /// the tracked pid, and every other notification leaves the monitor as
    /// it is.
    pub open spec fn after_notification(self, notification: WorkspaceNotification, is_launch: bool)
        -> ProcessMonitorView {
        if self.heeds(notification, is_launch) {
            ProcessMonitorView {
                current_pid: if is_launch {
                    notification.application->0.pid
                } else {
                    0
                },
                ..self
            }
        } else {
            self
        }
    }
}

/// Turns the workspace's reports into [`ProcessEvent`]s for one target
/// application and remembers the pid of the instance that runs.
pub struct ProcessMonitor {
    config: MonitorConfig,
    current_pid: i32,
}

impl View for ProcessMonitor {
    type V = ProcessMonitorView;

    closed spec fn view(&self) -> ProcessMonitorView {
        ProcessMonitorView { target: self.config.target_bundle_id@, current_pid: self.current_pid }
    }
}

impl ProcessMonitor {
    /// A monitor for the application `config` names, with no instance known.
    pub fn new(config: MonitorConfig) -> (monitor: Self)
        ensures
            monitor@.target == config.target_bundle_id@,
            monitor@.current_pid == 0,
    {
        ProcessMonitor { config, current_pid: 0 }
    }

    /// The bundle identifier watched for.
    pub fn target_bundle_id(&self) -> (target: &String)
        ensures
            target@ == self@.target,
    {
        &self.config.target_bundle_id
    }

    /// The pid of the running target application, 0 while none is known.
    pub fn current_pid(&self) -> (pid: i32)
        ensures
            pid == self@.current_pid,
    {
        self.current_pid
    }

    /// Starts the monitor: `on_main_thread` says whether the caller is on the
    /// main thread, `apps` lists the applications that run. Away from the main
    /// thread the monitor refuses and nothing changes. On it, the monitor is
    /// reconciled with `apps` as [`ProcessMonitor::check_running_applications`]
    /// says, before any notification is subscribed to.
    pub fn start(&mut self, on_main_thread: bool, apps: &Vec<RunningApplication>) -> (started:
        Result<Option<ProcessEvent>, MonitorError>)
        ensures
            match started {
                Ok(found) => on_main_thread && old(self)@.reconciles(apps@, found, final(self)@),
                Err(error) => !on_main_thread && error is NotMainThread && final(self)@ == old(
                    self,
                )@,
            },
    {
        if !on_main_thread {
            return Err(MonitorError::NotMainThread);
        }
        Ok(self.check_running_applications(apps))
    }

    /// Reconciles the monitor with the applications that run already: the
    /// first one with the target's bundle identifier becomes the tracked
    /// instance and is reported as launched. Without one, nothing changes.
    pub fn check_running_applications(&mut self, apps: &Vec<RunningApplication>) -> (found: Option<
        ProcessEvent,
    >)
        ensures
            old(self)@.reconciles(apps@, found, final(self)@),
    {
        let mut i: usize = 0;
        while i < apps.len()
            invariant
                i <= apps.len(),
                *self == *old(self),
                forall|j: int| 0 <= j < i ==> !(#[trigger] apps@[j]).has_bundle_id(self@.target),
            decreases apps.len() - i,
        {
            if apps[i].is_target(&self.config.target_bundle_id) {
                let pid = apps[i].pid;
                let bundle_id = self.config.target_bundle_id.clone();
                self.current_pid = pid;
                let event = ProcessEvent::Launched { bundle_id, pid };
                assert(is_first_target(apps@, old(self)@.target, i as int));
                return Some(event);
            }
            i = i + 1;
        }
        None
    }

    /// Handles one workspace notification: a launch where `is_launch` holds,
    /// a termination otherwise.
    ///
    /// A notification that names no application, an application without a
    /// bundle identifier, or another application than the target is ignored.
    /// A launch of the target makes its pid the tracked one and is reported
    /// as `Launched`. A termination of the tracked instance clears the
    /// tracked pid and is reported as `Terminated`; a termination of any
    /// other instance of the target is stale: it changes nothing and is not
    /// reported.
    pub fn handle_notification(&mut self, notification: &WorkspaceNotification, is_launch: bool)
        -> (event: Option<ProcessEvent>)
        ensures
            final(self)@ == old(self)@.after_notification(*notification, is_launch),
            match event {
                Some(e) => old(self)@.notification_event(*notification, is_launch) == Some(e@),
                None => old(self)@.notification_event(*notification, is_launch) is None,
            },
    {
        let app = match &notification.application {
            Some(app) => app,
            None => {
                return None;
            },
        };
        if !app.is_target(&self.config.target_bundle_id) {
            return None;
        }
        let pid = app.pid;
        if is_launch {
            self.current_pid = pid;
            Some(ProcessEvent::Launched { bundle_id: self.config.target_bundle_id.clone(), pid })
        } else if pid == self.current_pid {
            self.current_pid = 0;
            Some(ProcessEvent::Terminated { bundle_id: self.config.target_bundle_id.clone(), pid })
        } else {
            None
        }
    }
}

/// Stale-event immunity of the monitor: the termination of an instance of
/// the target that is not the tracked one changes nothing and is not
/// reported, so that the monitor never forgets an instance that still runs.
pub proof fn lemma_stale_termination_leaves_monitor(
    monitor: ProcessMonitorView,
    notification: WorkspaceNotification,
)
    requires
        notification.concerns(monitor.target),
        notification.application->0.pid != monitor.current_pid,
    ensures
        monitor.notification_event(notification, false) is None,
        monitor.after_notification(notification, false) == monitor,
{
}

/// The streaming detector as a plain value.
pub struct DetectorView {
    /// The bundle identifier of the sampled application.
    pub bundle_id: Seq<char>,
    /// The pid of the sampled process.
    pub pid: i32,
    /// Whether sampling goes on.
    pub active: bool,
    /// Whether the last sample found the process fullscreen.
    pub streaming: bool,
}

impl DetectorView {
    /// The event that one sample gives rise to: an edge, or nothing.
    pub open spec fn sample_event(self, fullscreen: bool) -> Option<ProcessEventView> {
        if self.active && fullscreen && !self.streaming {
            Some(event_view(ProcessEventKind::StreamStarted, self.bundle_id, self.pid))
        } else if self.active && !fullscreen && self.streaming {
            Some(event_view(ProcessEventKind::StreamEnded, self.bundle_id, self.pid))
        } else {
            None
        }
    }

    /// The detector after one sample.
    pub open spec fn after_sample(self, fullscreen: bool) -> DetectorView {
        if self.active {
            DetectorView { streaming: fullscreen, ..self }
        } else {
            self
        }
    }

    /// The events that a run of samples gives rise to, in order.
    pub open spec fn events_of(self, samples: Seq<bool>) -> Seq<ProcessEventView>
        decreases samples.len(),
    {
        if samples.len() == 0 {
            Seq::empty()
        } else {
            let rest = self.after_sample(samples[0]).events_of(samples.drop_first());
            match self.sample_event(samples[0]) {
                Some(event) => seq![event] + rest,
                None => rest,
            }
        }
    }

    /// The detector after a run of samples.
    pub open spec fn after_samples(self, samples: Seq<bool>) -> DetectorView
        decreases samples.len(),
    {
        if samples.len() == 0 {
            self
        } else {
            self.after_sample(samples[0]).after_samples(samples.drop_first())
        }
    }

    /// The event that stopping gives rise to.
    pub open spec fn stop_event(self) -> Option<ProcessEventView> {
        if self.streaming {
            Some(event_view(ProcessEventKind::StreamEnded, self.bundle_id, self.pid))
        } else {
            None
        }
    }
}

/// The views of a list of events, in order.
pub open spec fn event_views(events: Seq<ProcessEvent>) -> Seq<ProcessEventView> {
    events.map_values(|event: ProcessEvent| event@)
}

/// Turns fullscreen samples of one process into `StreamStarted` and
/// `StreamEnded`, one event per edge: repeated samples of the same kind give
/// no event. Streaming is only ever believed while sampling goes on.
pub struct StreamingDetector {
    bundle_id: String,
    pid: i32,
    active: bool,
    streaming: bool,
}

impl View for StreamingDetector {
    type V = DetectorView;

    closed spec fn view(&self) -> DetectorView {
        DetectorView {
            bundle_id: self.bundle_id@,
            pid: self.pid,
            active: self.active,
            streaming: self.streaming,
        }
    }
}

impl StreamingDetector {
    #[verifier::type_invariant]
    spec fn streaming_only_while_active(self) -> bool {
        self.streaming ==> self.active
    }

    /// A detector that samples nothing yet.
    pub fn new() -> (detector: Self)
        ensures
            detector@ == (DetectorView {
                bundle_id: Seq::empty(),
                pid: 0,
                active: false,
                streaming: false,
            }),
    {
        StreamingDetector { bundle_id: String::new(), pid: 0, active: false, streaming: false }
    }

    /// Whether sampling goes on.
    pub fn is_active(&self) -> (active: bool)
        ensures
            active == self@.active,
    {
        self.active
    }

    /// Whether sampling goes on for the process `pid`. A sampler of that
    /// process goes on exactly while this holds: it ends once sampling is
    /// halted or has turned to another process.
    pub fn follows(&self, pid: i32) -> (yes: bool)
        ensures
            yes == (self@.active && self@.pid == pid),
    {
        self.active && self.pid == pid
    }

    /// Whether the sampled process is believed to stream. It never is while
    /// sampling is halted.
    pub fn is_streaming(&self) -> (streaming: bool)
        ensures
            streaming == self@.streaming,
            streaming ==> self@.active,
    {
        proof {
            use_type_invariant(self);
        }
        self.streaming
    }

    /// The pid of the sampled process.
    pub fn pid(&self) -> (pid: i32)
        ensures
            pid == self@.pid,
    {
        self.pid
    }

    /// Begins sampling process `pid` of application `bundle_id`. What was
    /// believed of streaming before stays believed until the next sample.
    pub fn start(&mut self, pid: i32, bundle_id: String)
        ensures
            final(self)@ == (DetectorView {
                bundle_id: bundle_id@,
                pid,
                active: true,
                streaming: old(self)@.streaming,
            }),
    {
        self.active = true;
        self.pid = pid;
        self.bundle_id = bundle_id;
    }

    /// Takes one sample: `fullscreen` says whether the process owns a
    /// fullscreen window now. Returns `StreamStarted` on entering fullscreen,
    /// `StreamEnded` on leaving it, and nothing otherwise. A halted detector
    /// ignores the sample.
    pub fn sample(&mut self, fullscreen: bool) -> (event: Option<ProcessEvent>)
        ensures
            final(self)@ == old(self)@.after_sample(fullscreen),
            match event {
                Some(e) => old(self)@.sample_event(fullscreen) == Some(e@),
                None => old(self)@.sample_event(fullscreen) is None,
            },
    {
        if !self.active {
            return None;
        }
        let was_streaming = self.streaming;
        self.streaming = fullscreen;
        if fullscreen && !was_streaming {
            Some(ProcessEvent::StreamStarted { bundle_id: self.bundle_id.clone(), pid: self.pid })
        } else if !fullscreen && was_streaming {
            Some(ProcessEvent::StreamEnded { bundle_id: self.bundle_id.clone(), pid: self.pid })
        } else {
            None
        }
    }

    /// Takes a run of samples, one after the other, and returns the events
    /// they give rise to, in order.
    pub fn feed(&mut self, samples: &Vec<bool>) -> (events: Vec<ProcessEvent>)
        ensures
            final(self)@ == old(self)@.after_samples(samples@),
            event_views(events@) == old(self)@.events_of(samples@),
    {
        let mut events: Vec<ProcessEvent> = Vec::new();
        let mut i: usize = 0;
        assert(samples@.skip(0) == samples@);
        while i < samples.len()
            invariant
                i <= samples.len(),
                self@.after_samples(samples@.skip(i as int)) == old(self)@.after_samples(samples@),
                event_views(events@) + self@.events_of(samples@.skip(i as int)) == old(
                    self,
                )@.events_of(samples@),
            decreases samples.len() - i,
        {
            let ghost before = self@;
            let ghost seen = events@;
            let ghost rest = samples@.skip(i as int);
            assert(rest.len() > 0 && rest[0] == samples@[i as int]);
            assert(rest.drop_first() == samples@.skip(i + 1));
            match self.sample(samples[i]) {
                Some(event) => {
                    events.push(event);
                    assert(event_views(events@) == event_views(seen) + seq![event@]);
                },
                None => {},
            }
            assert(event_views(seen) + before.events_of(rest) == event_views(events@)
                + self@.events_of(rest.drop_first()));
            i = i + 1;
        }
        assert(samples@.skip(samples@.len() as int).len() == 0);
        events
    }

    /// Halts sampling. Where the process was believed to stream, streaming is
    /// over and `StreamEnded` is returned: after `stop` nobody is left
    /// believing in a stream.
    pub fn stop(&mut self) -> (event: Option<ProcessEvent>)
        ensures
            final(self)@ == (DetectorView { active: false, streaming: false, ..old(self)@ }),
            match event {
                Some(e) => old(self)@.stop_event() == Some(e@),
                None => old(self)@.stop_event() is None,
            },
    {
        let was_streaming = self.streaming;
        self.streaming = false;
        self.active = false;
        if was_streaming {
            Some(ProcessEvent::StreamEnded { bundle_id: self.bundle_id.clone(), pid: self.pid })
        } else {
            None
        }
    }
}

/// Every sample in the run found the process fullscreen.
pub open spec fn all_fullscreen(samples: Seq<bool>) -> bool {
    forall|i: int| 0 <= i < samples.len() ==> #[trigger] samples[i]
}

/// The kinds of the events alternate, beginning with `StreamEnded` where
/// `streaming` holds and with `StreamStarted` where it does not.
pub open spec fn edges_alternate(events: Seq<ProcessEventView>, streaming: bool) -> bool
    decreases events.len(),
{
    if events.len() == 0 {
        true
    } else {
        &&& events[0].kind == if streaming {
            ProcessEventKind::StreamEnded
        } else {
            ProcessEventKind::StreamStarted
        }
        &&& edges_alternate(events.drop_first(), !streaming)
    }
}

/// While the process is believed to stream, further fullscreen samples give
/// no event and change nothing.
pub proof fn lemma_fullscreen_while_streaming_is_silent(detector: DetectorView, samples: Seq<bool>)
    requires
        detector.streaming,
        all_fullscreen(samples),
    ensures
        detector.events_of(samples) == Seq::<ProcessEventView>::empty(),
        detector.after_samples(samples) == detector,
    decreases samples.len(),
{
    if samples.len() > 0 {
        assert(samples[0]);
        assert(detector.after_sample(samples[0]) == detector);
        lemma_fullscreen_while_streaming_is_silent(detector, samples.drop_first());
    }
}

/// Edge-triggering: a sampling detector that does not believe in a stream
/// answers a run of one or more fullscreen samples with exactly one event,
/// `StreamStarted`, however long the run is, and believes in a stream
/// afterwards.
pub proof fn lemma_fullscreen_run_starts_once(detector: DetectorView, samples: Seq<bool>)
    requires
        detector.active,
        !detector.streaming,
        samples.len() >= 1,
        all_fullscreen(samples),
    ensures
        detector.events_of(samples) == seq![
            event_view(ProcessEventKind::StreamStarted, detector.bundle_id, detector.pid),
        ],
        detector.after_samples(samples) == (DetectorView { streaming: true, ..detector }),
{
    assert(samples[0]);
    let next = detector.after_sample(samples[0]);
    lemma_fullscreen_while_streaming_is_silent(next, samples.drop_first());
    assert(seq![event_view(ProcessEventKind::StreamStarted, detector.bundle_id, detector.pid)]
        + Seq::<ProcessEventView>::empty() == seq![
        event_view(ProcessEventKind::StreamStarted, detector.bundle_id, detector.pid),
    ]);
}

/// Whatever the samples are, the events of a run are edges that alternate:
/// never two `StreamStarted` without a `StreamEnded` between them, nor the
/// other way round, and the first one is the opposite of what was believed
/// before.
pub proof fn lemma_edges_alternate(detector: DetectorView, samples: Seq<bool>)
    ensures
        edges_alternate(detector.events_of(samples), detector.streaming),
    decreases samples.len(),
{
    if samples.len() > 0 {
        let next = detector.after_sample(samples[0]);
        let rest = next.events_of(samples.drop_first());
        lemma_edges_alternate(next, samples.drop_first());
        match detector.sample_event(samples[0]) {
            Some(event) => {
                assert((seq![event] + rest).drop_first() == rest);
                assert(next.streaming == !detector.streaming);
            },
            None => {
                if detector.active {
                    assert(next.streaming == detector.streaming);
                }
            },
        }
    }
}

/// A halted detector gives no events, whatever it is fed.
pub proof fn lemma_halted_detector_is_silent(detector: DetectorView, samples: Seq<bool>)
    requires
        !detector.active,
    ensures
        detector.events_of(samples) == Seq::<ProcessEventView>::empty(),
        detector.after_samples(samples) == detector,
    decreases samples.len(),
{
    if samples.len() > 0 {
        lemma_halted_detector_is_silent(detector, samples.drop_first());
    }
}

} // verus!
