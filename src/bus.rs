use vstd::prelude::*;

verus! {

/// The states a pipeline element moves through.
#[derive(Clone, Copy, Debug, PartialEq, Eq, Structural)]
pub enum ElementState {
    VoidPending,
    Null,
    Ready,
    Paused,
    Playing,
}

/// A message read from the pipeline's bus, reduced to what the drain loop uses.
#[derive(Debug)]
pub enum BusMessage {
    StateChanged { element: String, old: ElementState, new: ElementState },
    Error { element: String, message: String },
    Eos,
    Other { element: String, kind: String },
}

/// What the drain loop does with one message.
#[derive(Clone, Copy, Debug, PartialEq, Eq, Structural)]
pub enum DrainStep {
    /// Report a state change and read on.
    LogStateChange,
    /// Report the error and stop reading.
    StopOnError,
    /// The stream ended: stop reading.
    StopOnEos,
    /// Report the message's type and read on.
    LogOther,
}

/// An error or the end of the stream ends the drain loop.
pub open spec fn is_terminal(m: BusMessage) -> bool {
    m is Error || m is Eos
}

impl DrainStep {
    pub open spec fn stops(self) -> bool {
        self is StopOnError || self is StopOnEos
    }

    /// Whether the drain loop ends after this step.
    pub fn is_stop(&self) -> (r: bool)
        ensures
            r == self.stops(),
    {
        match self {
            DrainStep::StopOnError | DrainStep::StopOnEos => true,
            _ => false,
        }
    }
}

/// The drain loop's decision on one bus message.
pub fn on_bus_message(msg: &BusMessage) -> (r: DrainStep)
    ensures
        r.stops() == is_terminal(*msg),
        (msg is StateChanged) == (r == DrainStep::LogStateChange),
        (msg is Error) == (r == DrainStep::StopOnError),
        (msg is Eos) == (r == DrainStep::StopOnEos),
        (msg is Other) == (r == DrainStep::LogOther),
{
    match msg {
        BusMessage::StateChanged { .. } => DrainStep::LogStateChange,
        BusMessage::Error { .. } => DrainStep::StopOnError,
        BusMessage::Eos => DrainStep::StopOnEos,
        BusMessage::Other { .. } => DrainStep::LogOther,
    }
}

/// Runs the drain loop over messages already on the bus and returns how many it
/// read: everything up to and including the first error or end of stream, or
/// all of them if neither comes.
pub fn drain(messages: &Vec<BusMessage>) -> (n: usize)
    ensures
        n <= messages@.len(),
        forall|i: int| 0 <= i < n - 1 ==> !is_terminal(#[trigger] messages@[i]),
        n == messages@.len() || (n > 0 && is_terminal(messages@[n - 1])),
{
    let mut i: usize = 0;
    while i < messages.len()
        invariant
            i <= messages@.len(),
            forall|j: int| 0 <= j < i ==> !is_terminal(#[trigger] messages@[j]),
        decreases messages@.len() - i,
    {
        let step = on_bus_message(&messages[i]);
        if step.is_stop() {
            return i + 1;
        }
        i = i + 1;
    }
    i
}

} // verus!
