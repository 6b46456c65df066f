use vstd::prelude::*;

use futures::channel::oneshot::{Canceled, Receiver, Sender};

verus! {

/// `futures::channel::oneshot::Sender`, held until its farm may start plotting.
#[verifier::external_type_specification]
#[verifier::external_body]
#[verifier::reject_recursive_types(T)]
pub struct ExOneshotSender<T>(Sender<T>);

/// `futures::channel::oneshot::Receiver`, handed to the farm that waits on it.
#[verifier::external_type_specification]
#[verifier::external_body]
#[verifier::reject_recursive_types(T)]
pub struct ExOneshotReceiver<T>(Receiver<T>);

/// `futures::channel::oneshot::Canceled`, the error of a receiver whose sender is gone;
/// declared because the receiver's `Future` impl names it.
#[verifier::external_type_specification]
#[verifier::external_body]
pub struct ExOneshotCanceled(Canceled);

/// Relies on `futures::channel::oneshot::channel`: a connected sender and receiver.
pub assume_specification<T>[ futures::channel::oneshot::channel::<T> ]() -> (Sender<T>, Receiver<T>);

/// Holds every farm's plotting until the piece cache reports sync progress for the
/// first time. That first report hands out every held sender at once, for the caller to
/// send the start signal on; later reports hand out nothing.
pub struct PlottingDelays {
    senders: Vec<Sender<()>>,
    farms_count: usize,
    opened: bool,
}

impl PlottingDelays {
    /// Number of farms whose plotting the latch was made to hold.
    pub closed spec fn farms_count(&self) -> nat {
        self.farms_count as nat
    }

    /// The senders still held, one per farm not yet released, in farm index order.
    pub closed spec fn held(&self) -> Seq<Sender<()>> {
        self.senders@
    }

    /// Number of farms still held.
    pub open spec fn pending(&self) -> nat {
        self.held().len()
    }

    /// Whether the latch has opened.
    pub closed spec fn opened(&self) -> bool {
        self.opened
    }

    /// Before opening, every farm is held; once open, none is.
    pub open spec fn wf(&self) -> bool {
        &&& !self.opened() ==> self.pending() == self.farms_count()
        &&& self.opened() ==> self.pending() == 0
    }

    /// A closed latch for `farms_count` farms, and the receiver that each farm waits on,
    /// in farm index order.
    pub fn new(farms_count: usize) -> (r: (Self, Vec<Receiver<()>>))
        ensures
            r.0.wf(),
            r.0.farms_count() == farms_count,
            r.0.pending() == farms_count,
            !r.0.opened(),
            r.1.len() == farms_count,
    {
        let mut senders: Vec<Sender<()>> = Vec::with_capacity(farms_count);
        let mut receivers: Vec<Receiver<()>> = Vec::with_capacity(farms_count);
        let mut i: usize = 0;
        while i < farms_count
            invariant
                i <= farms_count,
                senders.len() == i,
                receivers.len() == i,
            decreases farms_count - i,
        {
            let (sender, receiver) = futures::channel::oneshot::channel::<()>();
            senders.push(sender);
            receivers.push(receiver);
            i = i + 1;
        }
        let delays = PlottingDelays { senders, farms_count, opened: false };
        (delays, receivers)
    }

    /// Whether the latch has opened.
    pub fn is_open(&self) -> (r: bool)
        ensures
            r == self.opened(),
    {
        self.opened
    }

    /// Handles a sync progress report of the piece cache, whatever its value. The first
    /// one opens the latch and returns every held sender, one per farm in farm index
    /// order, for the caller to send the start signal on and then stop listening. Later
    /// ones change nothing and return no sender.
    pub fn on_sync_progress(&mut self) -> (released: Vec<Sender<()>>)
        requires
            old(self).wf(),
        ensures
            final(self).wf(),
            final(self).opened(),
            final(self).farms_count() == old(self).farms_count(),
            final(self).pending() == 0,
            released@ == old(self).held(),
            !old(self).opened() ==> released.len() == old(self).farms_count(),
            old(self).opened() ==> released.len() == 0,
    {
        let mut released: Vec<Sender<()>> = Vec::new();
        std::mem::swap(&mut released, &mut self.senders);
        self.opened = true;
        released
    }
}

} // verus!
