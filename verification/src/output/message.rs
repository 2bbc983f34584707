//! A service message as it is shown.

use crate::service_message::{ServiceMessage, ServiceMessageView};
use crate::value::Value;
use vstd::prelude::*;

verus! {

/// A service message with its three parts under their names.
#[derive(Debug)]
pub struct OutputServiceMessage {
    pub address: String,
    pub id: String,
    pub value: Value,
}

impl View for OutputServiceMessage {
    type V = ServiceMessageView;

    open spec fn view(&self) -> ServiceMessageView {
        ServiceMessageView { address: self.address@, id: self.id@, value: self.value@ }
    }
}

impl DeepView for OutputServiceMessage {
    type V = ServiceMessageView;

    open spec fn deep_view(&self) -> ServiceMessageView {
        self@
    }
}

impl OutputServiceMessage {
    /// Names the three parts of a service message; they stay what they are.
    pub fn from(value: ServiceMessage) -> (out: OutputServiceMessage)
        ensures
            out@ == value@,
    {
        OutputServiceMessage { address: value.0, id: value.1, value: value.2 }
    }

    /// What is shown of a list of service messages: each of them, in order.
    pub fn from_list(messages: Vec<ServiceMessage>) -> (out: Vec<OutputServiceMessage>)
        ensures
            out.deep_view() == messages.deep_view(),
    {
        let ghost all = messages.deep_view();
        let mut messages = messages;
        let mut reversed: Vec<OutputServiceMessage> = Vec::new();
        while messages.len() > 0
            invariant
                messages.len() <= all.len(),
                reversed.len() == all.len() - messages.len(),
                forall|j: int| 0 <= j < messages.len() ==> (#[trigger] messages[j])@ == all[j],
                forall|j: int|
                    0 <= j < reversed.len() ==> (#[trigger] reversed[j])@ == all[all.len() - 1
                        - j],
            decreases messages.len(),
        {
            let message = messages.pop().unwrap();
            reversed.push(OutputServiceMessage::from(message));
        }
        let mut out: Vec<OutputServiceMessage> = Vec::new();
        while reversed.len() > 0
            invariant
                reversed.len() <= all.len(),
                out.len() == all.len() - reversed.len(),
                forall|j: int|
                    0 <= j < reversed.len() ==> (#[trigger] reversed[j])@ == all[all.len() - 1
                        - j],
                forall|j: int| 0 <= j < out.len() ==> (#[trigger] out[j])@ == all[j],
            decreases reversed.len(),
        {
            let message = reversed.pop().unwrap();
            out.push(message);
        }
        assert(out.deep_view() =~= all);
        out
    }
}

} // verus!
