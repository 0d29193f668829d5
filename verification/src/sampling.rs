//! The sampling loop, as the decisions it takes within one tick.
//!
//! The loop itself performs the outside work: it asks whether the network is
//! up, drives the LED, samples the sensor, converts the sample and hands
//! bytes to the transport. After each of these it reports what happened as a
//! `TickEvent`, and `SamplingLoop::step` answers with what to do next.

use crate::mqtt::be_value;
use crate::mqtt::decide_spec;
use crate::mqtt::publish_to_topic;
use crate::mqtt::GateState;
use vstd::prelude::*;

verus! {

/// Seconds between two ticks.
pub const TICK_PERIOD_SECS: u64 = 5;

/// A condition that ends the run.
#[derive(Clone, Copy, Debug, PartialEq, Eq, Structural)]
pub enum Fatal {
    /// The network is down.
    ConnectivityLost,
    /// The transport refused a report.
    TransportError,
}

/// What the loop has just learned.
#[derive(Clone, Copy, Debug, PartialEq, Eq)]
pub enum TickEvent {
    /// A tick begins, and the network is up or down.
    Connectivity(bool),
    /// The raw sample of the sensor, or none where sampling failed.
    Sample(Option<u16>),
    /// The converted sample, and the threshold in force.
    Reading { reading: u32, threshold: u32 },
    /// The transport has accepted or refused the report.
    Enqueued(bool),
}

/// What the loop is to do next.
#[derive(Clone, Copy, Debug, PartialEq, Eq)]
pub enum TickAction {
    /// Show that the node is connected, then sample the sensor.
    Sample,
    /// Convert this raw sample to a reading.
    Convert(u16),
    /// Hand these bytes to the transport.
    Publish([u8; 4]),
    /// The tick is over: sleep until the next.
    Sleep,
    /// Stop the run. Where connectivity is lost, show the error first.
    Terminate(Fatal),
}

/// Whether `action`, with the publish gate left in state `after`, is the
/// loop's answer to `event` with the publish gate in state `before`.
///
/// Only a reading can move the publish gate. A sample of zero ends the tick
/// before any reading exists, and so does a sample that could not be taken.
pub open spec fn is_step(
    before: GateState,
    event: TickEvent,
    after: GateState,
    action: TickAction,
) -> bool {
    match event {
        TickEvent::Connectivity(up) => after == before && if up {
            action == TickAction::Sample
        } else {
            action == TickAction::Terminate(Fatal::ConnectivityLost)
        },
        TickEvent::Sample(None) => after == before && action == TickAction::Sleep,
        TickEvent::Sample(Some(raw)) => after == before && if raw > 0 {
            action == TickAction::Convert(raw)
        } else {
            action == TickAction::Sleep
        },
        TickEvent::Reading { reading, threshold } => {
            let d = decide_spec(reading, threshold, before);
            after == d.new_state && if d.should_publish {
                action matches TickAction::Publish(bytes) && be_value(bytes@) == reading
            } else {
                action == TickAction::Sleep
            }
        },
        TickEvent::Enqueued(accepted) => after == before && if accepted {
            action == TickAction::Sleep
        } else {
            action == TickAction::Terminate(Fatal::TransportError)
        },
    }
}

/// The state that the sampling loop keeps from one tick to the next: the
/// memory of the publish gate, which nothing else can touch.
pub struct SamplingLoop {
    gate: GateState,
}

impl View for SamplingLoop {
    type V = GateState;

    closed spec fn view(&self) -> GateState {
        self.gate
    }
}

impl SamplingLoop {
    /// A loop whose gate is closed.
    pub fn new() -> (fresh: SamplingLoop)
        ensures
            fresh@ == GateState::Below,
    {
        SamplingLoop { gate: GateState::Below }
    }

    /// The state of the publish gate.
    pub fn gate(&self) -> (state: GateState)
        ensures
            state == self@,
    {
        self.gate
    }

    /// Answers one event of a tick.
    pub fn step(&mut self, event: TickEvent) -> (action: TickAction)
        ensures
            is_step(old(self)@, event, final(self)@, action),
            old(self)@ == GateState::Above ==> final(self)@ == GateState::Above,
    {
        match event {
            TickEvent::Connectivity(up) => {
                if up {
                    TickAction::Sample
                } else {
                    TickAction::Terminate(Fatal::ConnectivityLost)
                }
            },
            TickEvent::Sample(None) => TickAction::Sleep,
            TickEvent::Sample(Some(raw)) => {
                if raw > 0 {
                    TickAction::Convert(raw)
                } else {
                    TickAction::Sleep
                }
            },
            TickEvent::Reading { reading, threshold } => {
                let publication = publish_to_topic(reading, threshold, self.gate);
                self.gate = publication.new_state;
                match publication.payload {
                    Some(bytes) => TickAction::Publish(bytes),
                    None => TickAction::Sleep,
                }
            },
            TickEvent::Enqueued(accepted) => {
                if accepted {
                    TickAction::Sleep
                } else {
                    TickAction::Terminate(Fatal::TransportError)
                }
            },
        }
    }
}

} // verus!
