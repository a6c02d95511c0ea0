//! Lifecycle-only monitoring: launch and termination of the target
//! application, without the streaming refinement of
//! [`crate::process_monitor`].

use crate::process_monitor::{
    default_bundle_id, event_view, is_first_target, no_target, ProcessEventKind, ProcessEventView,
    RunningApplication, WorkspaceNotification,
};
use std::sync::Arc;
use vstd::prelude::*;

verus! {

/// Errors of process monitoring.
#[derive(Debug)]
pub enum MonitorError {
    /// The workspace could not be reached.
    WorkspaceInit,
    /// The monitor was started away from the main thread.
    NotMainThread,
    /// A notification observer could not be registered.
    ObserverRegistration,
}

impl MonitorError {
    /// The message that belongs to the error.
    pub open spec fn message(self) -> Seq<char> {
        match self {
            MonitorError::WorkspaceInit => "failed to initialize NSWorkspace"@,
            MonitorError::NotMainThread => "not running on main thread"@,
            MonitorError::ObserverRegistration => "failed to register notification observer"@,
        }
    }

    /// The message of the error.
    pub fn to_string(&self) -> (text: String)
        ensures
            text@ == self.message(),
    {
        match self {
            MonitorError::WorkspaceInit => "failed to initialize NSWorkspace".to_owned(),
            MonitorError::NotMainThread => "not running on main thread".to_owned(),
            MonitorError::ObserverRegistration => {
                "failed to register notification observer".to_owned()
            },
        }
    }
}

/// Events of the target application's life.
#[derive(Debug, Clone, PartialEq, Eq)]
pub enum ProcessEvent {
    /// The target application was launched.
    Launched { bundle_id: String, pid: i32 },
    /// The target application was terminated.
    Terminated { bundle_id: String, pid: i32 },
}

impl View for ProcessEvent {
    type V = ProcessEventView;

    open spec fn view(&self) -> ProcessEventView {
        match *self {
            ProcessEvent::Launched { bundle_id, pid } => event_view(
                ProcessEventKind::Launched,
                bundle_id@,
                pid,
            ),
            ProcessEvent::Terminated { bundle_id, pid } => event_view(
                ProcessEventKind::Terminated,
                bundle_id@,
                pid,
            ),
        }
    }
}

/// A handler of process events.
pub type EventCallback = Arc<dyn Fn(ProcessEvent) + Send + Sync>;

/// Which application to watch.
#[derive(Debug, Clone)]
pub struct MonitorConfig {
    /// The bundle identifier to watch for.
    pub target_bundle_id: String,
}

impl Default for MonitorConfig {
    fn default() -> (config: Self)
        ensures
            config.target_bundle_id@ == default_bundle_id(),
    {
        MonitorConfig { target_bundle_id: "com.nvidia.gfnpc.mall".to_owned() }
    }
}

/// Looking through the running applications `apps` for the bundle
/// identifier `target` reports `found`: the first application that carries it,
/// as launched, or nothing where none carries it.
pub open spec fn reports_first_target(
    target: Seq<char>,
    apps: Seq<RunningApplication>,
    found: Option<ProcessEvent>,
) -> bool {
    match found {
        Some(event) => exists|i: int|
            is_first_target(apps, target, i) && event@ == event_view(
                ProcessEventKind::Launched,
                target,
                (#[trigger] apps[i]).pid,
            ),
        None => no_target(apps, target),
    }
}

/// Turns the workspace's reports into [`ProcessEvent`]s for one target
/// application.
pub struct ProcessMonitor {
    config: MonitorConfig,
}

impl View for ProcessMonitor {
    type V = Seq<char>;

    /// The bundle identifier watched for.
    closed spec fn view(&self) -> Seq<char> {
        self.config.target_bundle_id@
    }
}

impl ProcessMonitor {
    /// A monitor for the application `config` names.
    pub fn new(config: MonitorConfig) -> (monitor: Self)
        ensures
            monitor@ == config.target_bundle_id@,
    {
        ProcessMonitor { config }
    }

    /// The bundle identifier watched for.
    pub fn target_bundle_id(&self) -> (target: &String)
        ensures
            target@ == self@,
    {
        &self.config.target_bundle_id
    }

    /// Starts the monitor: `on_main_thread` says whether the caller is on the
    /// main thread, `apps` lists the applications that run. Away from the main
    /// thread the monitor refuses. On it, the first application with the
    /// target's bundle identifier is reported as launched, before any
    /// notification is subscribed to.
    pub fn start(&self, on_main_thread: bool, apps: &Vec<RunningApplication>) -> (started: Result<
        Option<ProcessEvent>,
        MonitorError,
    >)
        ensures
            match started {
                Ok(found) => on_main_thread && reports_first_target(self@, apps@, found),
                Err(error) => !on_main_thread && error is NotMainThread,
            },
    {
        if !on_main_thread {
            return Err(MonitorError::NotMainThread);
        }
        Ok(self.check_running_applications(apps))
    }

    /// Looks for the target among the applications that run already: the
    /// first one with the target's bundle identifier is reported as launched.
    pub fn check_running_applications(&self, apps: &Vec<RunningApplication>) -> (found: Option<
        ProcessEvent,
    >)
        ensures
            reports_first_target(self@, apps@, found),
    {
        let mut i: usize = 0;
        while i < apps.len()
            invariant
                i <= apps.len(),
                forall|j: int| 0 <= j < i ==> !(#[trigger] apps@[j]).has_bundle_id(self@),
            decreases apps.len() - i,
        {
            if apps[i].is_target(&self.config.target_bundle_id) {
                let event = ProcessEvent::Launched {
                    bundle_id: self.config.target_bundle_id.clone(),
                    pid: apps[i].pid,
                };
                assert(is_first_target(apps@, self@, i as int));
                return Some(event);
            }
            i = i + 1;
        }
        None
    }

    /// Whether the target application runs: `apps` lists the applications
    /// that run. Away from the main thread the workspace cannot be asked, and
    /// the answer is no.
    pub fn is_target_running(&self, on_main_thread: bool, apps: &Vec<RunningApplication>) -> (running:
        bool)
        ensures
            running == (on_main_thread && !no_target(apps@, self@)),
    {
        if !on_main_thread {
            return false;
        }
        let mut i: usize = 0;
        while i < apps.len()
            invariant
                on_main_thread,
                i <= apps.len(),
                forall|j: int| 0 <= j < i ==> !(#[trigger] apps@[j]).has_bundle_id(self@),
            decreases apps.len() - i,
        {
            if apps[i].is_target(&self.config.target_bundle_id) {
                assert(apps@[i as int].has_bundle_id(self@));
                return true;
            }
            i = i + 1;
        }
        false
    }

    /// Handles one workspace notification: a launch where `is_launch` holds,
    /// a termination otherwise.
    ///
    /// A notification that names no application, an application without a
    /// bundle identifier, or another application than the target is ignored.
    /// A launch of the target is reported as `Launched`, a termination as
    /// `Terminated`.
    pub fn handle_notification(&self, notification: &WorkspaceNotification, is_launch: bool)
        -> (event: Option<ProcessEvent>)
        ensures
            !notification.concerns(self@) ==> event is None,
            notification.concerns(self@) ==> event is Some && event->0@ == event_view(
                if is_launch {
                    ProcessEventKind::Launched
                } else {
                    ProcessEventKind::Terminated
                },
                self@,
                notification.application->0.pid,
            ),
    {
        let app = match &notification.application {
            Some(app) => app,
            None => {
                return None;
            },
        };
        if !app.is_target(&self.config.target_bundle_id) {
            return None;
        }
        let pid = app.pid;
        let bundle_id = self.config.target_bundle_id.clone();
        if is_launch {
            Some(ProcessEvent::Launched { bundle_id, pid })
        } else {
            Some(ProcessEvent::Terminated { bundle_id, pid })
        }
    }
}

} // verus!
