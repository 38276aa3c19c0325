use vstd::prelude::*;

use crate::channel::{recv_step, Channel, Receiver, RecvOutcome};
use crate::message::is_payload_of;

verus! {

/// What a subscription stream does next.
pub enum StreamStep {
    /// Push one event to the client carrying these (field name, value) pairs.
    Emit(Vec<(String, String)>),
    /// Messages were lost to lag: push nothing for them and read again.
    Skip,
    /// Nothing to read yet: wait for a publish or for shutdown.
    Wait,
    /// End the stream.
    Finish,
}

/// The step that a stream takes on the outcome of a read.
pub open spec fn step_for(outcome: RecvOutcome, step: StreamStep) -> bool {
    match outcome {
        RecvOutcome::Delivered(m) => match step {
            StreamStep::Emit(fields) => is_payload_of(fields@, m),
            _ => false,
        },
        RecvOutcome::Lagged(_) => step is Skip,
        RecvOutcome::Empty => step is Wait,
        RecvOutcome::Closed => step is Finish,
    }
}

impl StreamStep {
    /// Whether the stream ends here.
    pub fn is_finish(&self) -> (r: bool)
        ensures
            r == (*self is Finish),
    {
        match self {
            StreamStep::Finish => true,
            _ => false,
        }
    }
}

/// Turns the outcome of a read into the stream's next step: a message becomes an
/// event carrying its payload, lag is skipped silently, closure ends the stream.
pub fn on_outcome(outcome: RecvOutcome) -> (r: StreamStep)
    ensures
        step_for(outcome, r),
{
    match outcome {
        RecvOutcome::Delivered(m) => StreamStep::Emit(m.payload()),
        RecvOutcome::Lagged(_) => StreamStep::Skip,
        RecvOutcome::Empty => StreamStep::Wait,
        RecvOutcome::Closed => StreamStep::Finish,
    }
}

/// One step of a subscription stream. Shutdown wins: once `shutdown` is set the
/// stream finishes at once, without reading, whatever the channel holds. Otherwise
/// it reads once on `rx` and acts on the outcome.
pub fn next_step(queue: &Channel, rx: &mut Receiver, shutdown: bool) -> (r: StreamStep)
    requires
        queue.wf(),
        old(rx).cursor() <= queue.history().len(),
    ensures
        shutdown ==> r is Finish && *final(rx) == *old(rx),
        !shutdown ==> {
            let (outcome, next) = recv_step(
                queue.history(),
                queue.cap(),
                queue.is_closed(),
                old(rx).cursor(),
            );
            step_for(outcome, r) && final(rx).cursor() == next
        },
        final(rx).cursor() <= queue.history().len(),
{
    if shutdown {
        StreamStep::Finish
    } else {
        let outcome = queue.recv(rx);
        on_outcome(outcome)
    }
}

} // verus!
