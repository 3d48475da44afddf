//! The one-shot slot through which the pipeline asks the web server to stop.
use vstd::prelude::*;
use tokio::sync::oneshot;

verus! {

#[verifier::external_type_specification]
#[verifier::external_body]
#[verifier::reject_recursive_types(T)]
pub struct ExOneshotSender<T>(oneshot::Sender<T>);

/// Relies on tokio::sync::oneshot::Sender::send, which consumes the sender and
/// never blocks; an error only says that the receiving side is gone.
#[verifier::external_body]
fn deliver(tx: oneshot::Sender<()>) -> (r: bool) {
    tx.send(()).is_ok()
}

/// What firing a slot does, in terms of whether it is armed: it reports whether
/// it held the signal, and is empty afterwards.
pub open spec fn fire_outcome(armed: bool) -> (bool, bool) {
    (armed, false)
}

/// Holds at most one shutdown sender. Firing takes it out and sends on it; once
/// taken it is gone, so a later firing does nothing.
pub struct ShutdownSlot {
    sender: Option<oneshot::Sender<()>>,
}

impl ShutdownSlot {
    pub closed spec fn is_armed(&self) -> bool {
        self.sender is Some
    }

    pub fn new(tx: oneshot::Sender<()>) -> (r: Self)
        ensures
            r.is_armed(),
    {
        ShutdownSlot { sender: Some(tx) }
    }

    /// A slot that holds nothing, as one that was already fired.
    pub fn empty() -> (r: Self)
        ensures
            !r.is_armed(),
    {
        ShutdownSlot { sender: None }
    }

    pub fn is_pending(&self) -> (r: bool)
        ensures
            r == self.is_armed(),
    {
        self.sender.is_some()
    }

    /// Takes the sender out, if one is there, and sends the signal on it.
    /// Returns whether a sender was taken; a receiver that is gone is no error.
    pub fn fire(&mut self) -> (r: bool)
        ensures
            (r, final(self).is_armed()) == fire_outcome(old(self).is_armed()),
            !old(self).is_armed() ==> *final(self) == *old(self),
    {
        match self.sender.take() {
            Some(tx) => {
                let _ = deliver(tx);
                true
            },
            None => false,
        }
    }
}

/// The signal goes out at most once: firing a slot a second time reports that
/// nothing was sent and leaves it empty.
pub proof fn law_fire_once(armed: bool)
    ensures
        !fire_outcome(fire_outcome(armed).1).0,
        !fire_outcome(fire_outcome(armed).1).1,
{
}

} // verus!
