//! The threshold store: the one value that the inbound listener writes and
//! the sampling loop reads.

use crate::mqtt::threshold_update;
use crate::mqtt::threshold_update_spec;
use crate::mqtt::topic_view;
use crate::mqtt::ParseError;
use vstd::prelude::*;

verus! {

/// The threshold in force until the broker sends another.
pub const DEFAULT_THRESHOLD: u32 = 10;

/// A mailbox for the current threshold.
///
/// A write overwrites unconditionally: there is no history, no validation
/// and no merging. A read returns the value of the latest write, or the
/// default if there was none. Writing takes exclusive access, which is what
/// lets a read be related to the write before it; execution contexts that
/// share one store serialise their accesses around it.
pub struct ThresholdStore {
    value: u32,
}

impl View for ThresholdStore {
    type V = u32;

    closed spec fn view(&self) -> u32 {
        self.value
    }
}

impl ThresholdStore {
    /// A store that holds the default threshold.
    pub fn new() -> (store: ThresholdStore)
        ensures
            store@ == DEFAULT_THRESHOLD,
    {
        ThresholdStore { value: DEFAULT_THRESHOLD }
    }

    /// Overwrites the threshold. Any value is accepted as it is.
    pub fn set(&mut self, value: u32)
        ensures
            final(self)@ == value,
    {
        self.value = value;
    }

    /// The threshold most recently written, or the default if none was.
    pub fn get(&self) -> (value: u32)
        ensures
            value == self@,
    {
        self.value
    }

    /// Takes one inbound broker message. A well-formed update on the
    /// threshold topic overwrites the threshold and is returned; a message
    /// on another topic changes nothing; a malformed update changes nothing
    /// and is reported.
    pub fn on_message(&mut self, topic: Option<&str>, payload: &[u8]) -> (result: Result<
        Option<u32>,
        ParseError,
    >)
        ensures
            result == threshold_update_spec(topic_view(topic), payload@),
            result matches Ok(Some(value)) ==> final(self)@ == value,
            !(result matches Ok(Some(_))) ==> final(self)@ == old(self)@,
    {
        match threshold_update(topic, payload) {
            Ok(Some(value)) => {
                self.set(value);
                Ok(Some(value))
            },
            Ok(None) => Ok(None),
            Err(e) => Err(e),
        }
    }
}

} // verus!
