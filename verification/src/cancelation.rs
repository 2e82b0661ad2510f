//! Cooperative cancellation of a stream of messages.
//!
//! A token is a flag and the note that somebody waits. The side that reads
//! the stream asks the token before each poll; the side that wants the stream
//! to end cancels the token and is told whether to wake the reader. The token
//! here is the plain state; the program around it shares it between the two
//! sides and does the waking.

use vstd::prelude::*;

verus! {

/// The state of a cancellation token.
#[derive(Debug, Clone, Copy, PartialEq, Eq, Structural)]
pub struct CancelationToken {
    /// Whether the stream has been asked to end.
    pub canceled: bool,
    /// Whether the reader of the stream is on record as the one to wake.
    pub parked: bool,
}

/// What a poll of a cancelable stream does.
#[derive(Debug, Clone, Copy, PartialEq, Eq, Structural)]
pub enum PollStep {
    /// The stream is over; the source behind it is not asked.
    Finished,
    /// The source behind the stream is polled. `park` says whether the
    /// reader is to be put on record first, which is so the first time only.
    Delegate { park: bool },
}

/// What a poll of a stream gives.
#[derive(Debug, PartialEq, Eq)]
pub enum Polled<T, E> {
    /// The next item.
    Item(T),
    /// No item yet; the reader is woken when there may be one.
    Pending,
    /// The end of the stream.
    End,
    /// The source has failed.
    Failed(E),
}

impl CancelationToken {
    /// The token after a poll, and what the poll does.
    pub open spec fn spec_poll(self) -> (CancelationToken, PollStep) {
        if self.canceled {
            (self, PollStep::Finished)
        } else {
            (
                CancelationToken { canceled: false, parked: true },
                PollStep::Delegate { park: !self.parked },
            )
        }
    }

    /// The token after it is canceled, and whether a reader is to be woken.
    pub open spec fn spec_cancel(self) -> (CancelationToken, bool) {
        (CancelationToken { canceled: true, parked: self.parked }, self.parked)
    }

    /// Whether the stream has been asked to end.
    pub fn is_canceled(&self) -> (r: bool)
        ensures
            r == self.canceled,
    {
        self.canceled
    }

    /// One poll of the stream: over at once if the token is canceled, and
    /// else a poll of the source, with the reader on record from now on.
    pub fn poll(self) -> (r: (CancelationToken, PollStep))
        ensures
            r == self.spec_poll(),
    {
        if self.canceled {
            (self, PollStep::Finished)
        } else {
            (
                CancelationToken { canceled: false, parked: true },
                PollStep::Delegate { park: !self.parked },
            )
        }
    }

    /// Cancels the token. The flag says whether a reader is on record and is
    /// to be woken, so that it polls again and finds the stream over.
    pub fn cancel(self) -> (r: (CancelationToken, bool))
        ensures
            r == self.spec_cancel(),
    {
        (CancelationToken { canceled: true, parked: self.parked }, self.parked)
    }
}

/// A token that is not canceled and has no reader on record, such as a
/// dispatch loop makes when it starts.
pub fn cancelation_token() -> (r: CancelationToken)
    ensures
        r == (CancelationToken { canceled: false, parked: false }),
{
    CancelationToken { canceled: false, parked: false }
}

/// One poll of a cancelable stream over `source`. A canceled token ends the
/// stream at once, whatever the source holds, and the source is not asked;
/// else the answer is the source's, its failure included.
pub fn poll_cancelable<T, E, F: FnOnce() -> Polled<T, E>>(
    token: CancelationToken,
    source: F,
) -> (r: (CancelationToken, Polled<T, E>))
    requires
        source.requires(()),
    ensures
        r.0 == token.spec_poll().0,
        token.canceled ==> r.1 == Polled::<T, E>::End,
        !token.canceled ==> source.ensures((), r.1),
{
    let (next, step) = token.poll();
    match step {
        PollStep::Finished => (next, Polled::End),
        PollStep::Delegate { .. } => (next, source()),
    }
}

/// Cancellation latency bound. When a token with a reader on record is
/// canceled, the reader is woken, and the poll that follows finds the stream
/// over without asking the source: no further message is needed to end it.
/// A canceled token stays canceled, so every later poll ends the same way.
pub proof fn law_cancel_ends_stream(token: CancelationToken)
    ensures
        token.parked ==> token.spec_cancel().1,
        token.spec_cancel().0.spec_poll().1 == PollStep::Finished,
        token.spec_cancel().0.spec_poll().0 == token.spec_cancel().0,
        token.spec_cancel().0.spec_cancel().0 == token.spec_cancel().0,
{
}

/// A reader is put on record by its first poll and only then: after a poll
/// of a token that is not canceled a reader is on record, and a second poll
/// does not ask for it again.
pub proof fn law_parked_once(token: CancelationToken)
    requires
        !token.canceled,
    ensures
        token.spec_poll().0.parked,
        token.spec_poll().1 == (PollStep::Delegate { park: !token.parked }),
        token.spec_poll().0.spec_poll().1 == (PollStep::Delegate { park: false }),
{
}

} // verus!
