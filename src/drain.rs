use vstd::prelude::*;
use futures::channel::oneshot::{Canceled, Receiver};

verus! {

#[verifier::external_type_specification]
#[verifier::external_body]
pub struct ExCanceled(Canceled);

#[verifier::external_type_specification]
#[verifier::external_body]
#[verifier::reject_recursive_types(T)]
pub struct ExReceiver<T>(Receiver<T>);

/// What the drain loop does after a read, once it has looked at its
/// cancellation signal. There is no step that writes: the drain phase only
/// reads and discards.
#[derive(Debug)]
pub enum DrainStep {
    /// No signal yet: read again and discard what comes.
    KeepReading,
    /// The signal came: stop, and hand the socket back to the caller.
    HandBack,
    /// The sending end went away without a signal: a fatal error.
    Abort(Canceled),
}

/// Relies on `futures::channel::oneshot::Receiver::try_recv`, which never
/// waits: `Ok(Some(_))` once the signal was sent, `Ok(None)` while it has not
/// been, `Err(Canceled)` when the sender was dropped without sending. Which of
/// these comes depends on the other thread, so nothing is promised here.
#[verifier::external_body]
fn try_receive(signal: &mut Receiver<()>) -> (r: Result<Option<()>, Canceled>) {
    signal.try_recv()
}

/// The step that follows one look at the cancellation signal.
pub open spec fn drain_outcome(polled: Result<Option<()>, Canceled>) -> DrainStep {
    match polled {
        Ok(Some(_)) => DrainStep::HandBack,
        Ok(None) => DrainStep::KeepReading,
        Err(e) => DrainStep::Abort(e),
    }
}

/// The decision that follows one look at the cancellation signal. A signal
/// that was sent ends the drain at once.
pub fn drain_decision(polled: Result<Option<()>, Canceled>) -> (r: DrainStep)
    ensures
        r == drain_outcome(polled),
        polled matches Ok(Some(_)) <==> r is HandBack,
        polled matches Ok(None) <==> r is KeepReading,
        polled is Err <==> r is Abort,
{
    match polled {
        Ok(Some(())) => DrainStep::HandBack,
        Ok(None) => DrainStep::KeepReading,
        Err(e) => DrainStep::Abort(e),
    }
}

/// Looks at the cancellation signal once, without waiting, and says what the
/// drain loop does next (see [`drain_decision`]). Which step comes depends
/// on the thread that holds the sending end.
pub fn check_cancellation(signal: &mut Receiver<()>) -> DrainStep {
    drain_decision(try_receive(signal))
}

/// Over the looks at the signal that follow the drain's reads, in order:
/// while no signal has come the drain reads again, and the first look that
/// sees the signal ends it, so the socket is handed back after that one read
/// cycle. No step of the drain writes.
pub proof fn lemma_drain_stops_at_signal(polls: Seq<Result<Option<()>, Canceled>>, k: int)
    requires
        0 <= k < polls.len(),
        forall|i: int| 0 <= i < k ==> polls[i] == Ok::<Option<()>, Canceled>(None),
        polls[k] matches Ok(Some(_)),
    ensures
        forall|i: int| 0 <= i < k ==> #[trigger] drain_outcome(polls[i]) == DrainStep::KeepReading,
        drain_outcome(polls[k]) == DrainStep::HandBack,
{
}

} // verus!
