//! Watching the managed interface's link state in the system's dynamic
//! store.
//!
//! The store is subscribed to elsewhere. This module says which key to watch
//! and turns the keys that the store reports as changed into events.

use crate::text::{contains, text_contains};
use std::sync::Arc;
use vstd::prelude::*;
use vstd::string::StringExecFns;

verus! {

/// Errors of interface monitoring.
#[derive(Debug)]
pub enum InterfaceMonitorError {
    /// The dynamic store could not be created.
    StoreCreation,
    /// The store refused the keys to notify about.
    SetNotificationKeys,
    /// No run loop source could be made for the store.
    RunLoopSource,
}

impl InterfaceMonitorError {
    /// The message that belongs to the error.
    pub open spec fn message(self) -> Seq<char> {
        match self {
            InterfaceMonitorError::StoreCreation => "failed to create dynamic store"@,
            InterfaceMonitorError::SetNotificationKeys => "failed to set notification keys"@,
            InterfaceMonitorError::RunLoopSource => "failed to create run loop source"@,
        }
    }

    /// The message of the error.
    pub fn to_string(&self) -> (text: String)
        ensures
            text@ == self.message(),
    {
        match self {
            InterfaceMonitorError::StoreCreation => "failed to create dynamic store".to_owned(),
            InterfaceMonitorError::SetNotificationKeys => {
                "failed to set notification keys".to_owned()
            },
            InterfaceMonitorError::RunLoopSource => "failed to create run loop source".to_owned(),
        }
    }
}

/// Events of the managed interface.
#[derive(Debug, Clone, PartialEq, Eq)]
pub enum InterfaceEvent {
    /// The interface's state changed: it may have come up or gone down.
    StateChanged { interface: String },
}

/// A handler of interface events.
pub type InterfaceEventCallback = Arc<dyn Fn(InterfaceEvent) + Send + Sync>;

/// An [`InterfaceEvent`] as a plain value.
pub struct InterfaceEventView {
    /// The name of the interface whose state changed.
    pub interface: Seq<char>,
}

impl View for InterfaceEvent {
    type V = InterfaceEventView;

    open spec fn view(&self) -> InterfaceEventView {
        match *self {
            InterfaceEvent::StateChanged { interface } => InterfaceEventView {
                interface: interface@,
            },
        }
    }
}

/// The dynamic store key that holds the link state of `interface`.
pub open spec fn link_key_of(interface: Seq<char>) -> Seq<char> {
    "State:/Network/Interface/"@ + interface + "/Link"@
}

/// How many of `keys` concern `interface`, that is, hold its name.
pub open spec fn concerned_keys(keys: Seq<String>, interface: Seq<char>) -> nat
    decreases keys.len(),
{
    if keys.len() == 0 {
        0
    } else {
        concerned_keys(keys.drop_last(), interface) + if text_contains(keys.last()@, interface) {
            1nat
        } else {
            0nat
        }
    }
}

/// Watches one interface for changes of its link state.
pub struct InterfaceStateMonitor {
    interface: String,
}

impl View for InterfaceStateMonitor {
    type V = Seq<char>;

    /// The name of the watched interface.
    closed spec fn view(&self) -> Seq<char> {
        self.interface@
    }
}

impl InterfaceStateMonitor {
    /// A monitor for the interface called `interface`.
    pub fn new(interface: &str) -> (monitor: Self)
        ensures
            monitor@ == interface@,
    {
        InterfaceStateMonitor { interface: interface.to_owned() }
    }

    /// The name of the watched interface.
    pub fn interface(&self) -> (name: &String)
        ensures
            name@ == self@,
    {
        &self.interface
    }

    /// The dynamic store key to be notified about: the one that holds the
    /// watched interface's link state.
    pub fn link_key(&self) -> (key: String)
        ensures
            key@ == link_key_of(self@),
    {
        let key = "State:/Network/Interface/".to_owned();
        let key = key.concat(self.interface.as_str());
        key.concat("/Link")
    }

    /// Handles one report of the dynamic store: `changed_keys` are the keys
    /// whose values changed. Each key that holds the watched interface's
    /// name gives one `StateChanged` event for that interface; the other keys
    /// give none.
    pub fn dynamic_store_callback(&self, changed_keys: &Vec<String>) -> (events: Vec<
        InterfaceEvent,
    >)
        ensures
            events@.len() == concerned_keys(changed_keys@, self@),
            forall|i: int| 0 <= i < events@.len() ==> (#[trigger] events@[i])@.interface == self@,
    {
        let mut events: Vec<InterfaceEvent> = Vec::new();
        let mut i: usize = 0;
        while i < changed_keys.len()
            invariant
                i <= changed_keys.len(),
                events@.len() == concerned_keys(changed_keys@.take(i as int), self@),
                forall|j: int|
                    0 <= j < events@.len() ==> (#[trigger] events@[j])@.interface == self@,
            decreases changed_keys.len() - i,
        {
            assert(changed_keys@.take(i + 1).drop_last() == changed_keys@.take(i as int));
            if contains(changed_keys[i].as_str(), self.interface.as_str()) {
                events.push(InterfaceEvent::StateChanged { interface: self.interface.clone() });
            }
            i = i + 1;
        }
        assert(changed_keys@.take(changed_keys@.len() as int) == changed_keys@);
        events
    }
}

} // verus!
