//! One-shot hand-off of a single value between the two event loops.
use futures_channel::oneshot;
use vstd::prelude::*;

verus! {

#[verifier::external_type_specification]
#[verifier::external_body]
#[verifier::reject_recursive_types(T)]
pub struct ExOneshotSender<T>(oneshot::Sender<T>);

#[verifier::external_type_specification]
#[verifier::external_body]
pub struct ExCanceled(oneshot::Canceled);

/// Calls `futures_channel::oneshot::Sender::send`. The crate documents that the
/// value is either enqueued (`Ok(())`) or, when the receiving end is gone,
/// handed back unchanged as `Err(value)`. Which of the two happens depends on
/// the receiver's state, so the contract leaves it open.
#[verifier::external_body]
fn oneshot_send<T>(tx: oneshot::Sender<T>, value: T) -> (res: Result<(), T>)
    ensures
        res matches Err(back) ==> back == value,
{
    tx.send(value)
}

/// What became of a value offered to a [`Completer`].
pub enum Delivery<T> {
    /// The value was enqueued for the receiving side.
    Delivered,
    /// The receiving side was already gone; the value comes back.
    ReceiverGone(T),
    /// The completer had already been used; nothing was sent.
    AlreadyUsed(T),
}

/// The sending half of a one-shot channel that may be used at most once.
#[verifier::reject_recursive_types(T)]
pub struct Completer<T> {
    tx: Option<oneshot::Sender<T>>,
    offered: Ghost<bool>,
}

impl<T> Completer<T> {
    /// True while the completer still holds its sender.
    pub closed spec fn is_armed(&self) -> bool {
        self.tx is Some
    }

    /// True once this completer has offered a value to its channel.
    pub closed spec fn was_offered(&self) -> bool {
        self.offered@
    }

    /// A completer that holds the given sender.
    pub fn new(tx: oneshot::Sender<T>) -> (c: Self)
        ensures
            c.is_armed(),
            !c.was_offered(),
    {
        Completer { tx: Some(tx), offered: Ghost(false) }
    }

    /// Whether the sender is still held.
    pub fn armed(&self) -> (b: bool)
        ensures
            b == self.is_armed(),
    {
        self.tx.is_some()
    }

    /// Moves the sender out into a new completer, leaving this one spent.
    pub fn hand_over(&mut self) -> (moved: Self)
        ensures
            moved.is_armed() == old(self).is_armed(),
            !moved.was_offered(),
            !final(self).is_armed(),
            final(self).was_offered() == old(self).was_offered(),
    {
        Completer { tx: self.tx.take(), offered: Ghost(false) }
    }

    /// Sends `value` if the sender is still held; the sender is used up either way.
    pub fn complete(&mut self, value: T) -> (d: Delivery<T>)
        ensures
            complete_post(*old(self), value, d, *final(self)),
    {
        match self.tx.take() {
            Some(tx) => {
                proof {
                    self.offered = Ghost(true);
                }
                match oneshot_send(tx, value) {
                    Ok(()) => Delivery::Delivered,
                    Err(back) => Delivery::ReceiverGone(back),
                }
            },
            None => Delivery::AlreadyUsed(value),
        }
    }
}

/// What `complete(value)` does to a completer that was `before`, returning `d`
/// and leaving it `after`: an armed completer offers the value to its channel
/// (which either takes it or, when the receiver is gone, hands it back), a
/// spent one hands the value back unsent; either way it is spent afterwards.
pub open spec fn complete_post<T>(before: Completer<T>, value: T, d: Delivery<T>, after: Completer<
    T,
>) -> bool {
    &&& !after.is_armed()
    &&& after.was_offered() == (before.was_offered() || before.is_armed())
    &&& before.is_armed() <==> !(d is AlreadyUsed)
    &&& (d matches Delivery::AlreadyUsed(v) ==> v == value)
    &&& (d matches Delivery::ReceiverGone(v) ==> v == value)
}

/// A completer hands on at most one value: after a first `complete`, a
/// second one offers nothing and gives its value back.
pub proof fn lemma_completes_once<T>(
    c0: Completer<T>,
    v1: T,
    d1: Delivery<T>,
    c1: Completer<T>,
    v2: T,
    d2: Delivery<T>,
    c2: Completer<T>,
)
    requires
        complete_post(c0, v1, d1, c1),
        complete_post(c1, v2, d2, c2),
    ensures
        d2 == Delivery::<T>::AlreadyUsed(v2),
        c2.was_offered() == c1.was_offered(),
        !c2.is_armed(),
{
}

/// How the receiving side of a hand-off ended.
pub enum Settled<T, E> {
    /// The other side produced a value.
    Value(T),
    /// The other side produced an error.
    Raised(E),
    /// The sender was dropped without sending anything.
    Abandoned,
}

/// Interprets what the receiving end of a one-shot channel carrying a
/// `Result` obtained.
pub fn settle<T, E>(received: Result<Result<T, E>, oneshot::Canceled>) -> (s: Settled<T, E>)
    ensures
        match received {
            Ok(Ok(v)) => s == Settled::<T, E>::Value(v),
            Ok(Err(e)) => s == Settled::<T, E>::Raised(e),
            Err(_) => s is Abandoned,
        },
{
    match received {
        Ok(Ok(v)) => Settled::Value(v),
        Ok(Err(e)) => Settled::Raised(e),
        Err(_) => Settled::Abandoned,
    }
}

} // verus!
