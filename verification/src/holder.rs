//! The holder of the one instance that a process shares.
//!
//! A holder starts empty. The first caller that asks for the instance is
//! told to construct it; while it does so, the holder is constructing and
//! other callers are told to wait. A construction that succeeds populates
//! the holder for good. One that fails leaves it empty, and the next caller
//! constructs again.

use crate::error::{BrokerError, ErrorView};
use vstd::prelude::*;

verus! {

/// What a caller that asks for the instance does next.
#[derive(Clone, Copy, Debug, PartialEq, Eq, Structural)]
pub enum Access {
    /// The instance exists: use it.
    Ready,
    /// There is no instance: construct one and report how that ended.
    Construct,
    /// Another caller is constructing the instance: wait for its outcome.
    Wait,
}

/// What a `Holder` is in contracts.
pub enum HolderView<T> {
    Empty,
    Constructing,
    Populated(T),
}

impl<T> HolderView<T> {
    /// The instance, once the holder is populated.
    pub open spec fn instance(self) -> Option<T> {
        match self {
            HolderView::Populated(instance) => Some(instance),
            _ => None,
        }
    }

    /// The holder after a caller asked for the instance, and what the caller
    /// is told.
    pub open spec fn request(self) -> (HolderView<T>, Access) {
        match self {
            HolderView::Empty => (HolderView::Constructing, Access::Construct),
            HolderView::Constructing => (HolderView::Constructing, Access::Wait),
            HolderView::Populated(_) => (self, Access::Ready),
        }
    }

    /// The holder after the construction that was under way ended with
    /// `outcome`.
    pub open spec fn complete(self, outcome: Result<T, ErrorView>) -> HolderView<T>
        recommends
            self is Constructing,
    {
        match outcome {
            Ok(instance) => HolderView::Populated(instance),
            Err(_) => HolderView::Empty,
        }
    }
}

/// How a construction ended, in contracts.
pub open spec fn construction_view<T>(outcome: Result<T, BrokerError>) -> Result<T, ErrorView> {
    match outcome {
        Ok(instance) => Ok(instance),
        Err(e) => Err(e@),
    }
}

/// The state of a holder.
enum Slot<T> {
    Empty,
    Constructing,
    Populated(T),
}

/// Holds at most one instance of `T`, constructed on first use.
pub struct Holder<T> {
    slot: Slot<T>,
}

impl<T> Holder<T> {
    pub closed spec fn view(&self) -> HolderView<T> {
        match self.slot {
            Slot::Empty => HolderView::Empty,
            Slot::Constructing => HolderView::Constructing,
            Slot::Populated(instance) => HolderView::Populated(instance),
        }
    }

    /// An empty holder.
    pub fn new() -> (holder: Holder<T>)
        ensures
            holder@ == HolderView::<T>::Empty,
    {
        Holder { slot: Slot::Empty }
    }

    /// Asks for the instance. An empty holder becomes constructing and the
    /// caller is told to construct; otherwise the holder stays as it is.
    pub fn request(&mut self) -> (access: Access)
        ensures
            (final(self)@, access) == old(self)@.request(),
    {
        match &self.slot {
            Slot::Empty => {
                self.slot = Slot::Constructing;
                Access::Construct
            },
            Slot::Constructing => Access::Wait,
            Slot::Populated(_) => Access::Ready,
        }
    }

    /// Reports how the construction that `request` asked for ended. A
    /// success populates the holder. A failure empties it and is handed
    /// back, so that the next `request` asks for a construction again.
    pub fn complete(&mut self, outcome: Result<T, BrokerError>) -> (r: Result<(), BrokerError>)
        requires
            old(self)@ is Constructing,
        ensures
            final(self)@ == old(self)@.complete(construction_view(outcome)),
            match outcome {
                Ok(_) => r is Ok,
                Err(e) => r == Err::<(), BrokerError>(e),
            },
    {
        match outcome {
            Ok(instance) => {
                self.slot = Slot::Populated(instance);
                Ok(())
            },
            Err(e) => {
                self.slot = Slot::Empty;
                Err(e)
            },
        }
    }

    /// The instance, once the holder is populated.
    pub fn instance(&self) -> (instance: Option<&T>)
        ensures
            match instance {
                Some(found) => self@.instance() == Some(*found),
                None => self@.instance() is None,
            },
    {
        match &self.slot {
            Slot::Populated(instance) => Some(instance),
            _ => None,
        }
    }
}

/// A populated holder stays as it is: whoever asks is told that the instance
/// is ready, the instance is the same one, and no construction is ever asked
/// for again.
pub proof fn lemma_populated_holder_is_final<T>(holder: HolderView<T>)
    requires
        holder is Populated,
    ensures
        holder.request() == (holder, Access::Ready),
{
}

/// After a first construction that succeeds, two further callers in a row
/// find the instance that was constructed, and neither is told to construct.
pub proof fn lemma_instance_is_constructed_once<T>(instance: T)
    ensures
        ({
            let first = HolderView::<T>::Empty.request();
            let populated = first.0.complete(Ok(instance));
            let second = populated.request();
            let third = second.0.request();
            &&& first.1 == Access::Construct
            &&& second.1 == Access::Ready
            &&& second.0.instance() == Some(instance)
            &&& third.1 == Access::Ready
            &&& third.0.instance() == Some(instance)
        }),
{
}

/// A construction that fails leaves the holder empty, and the next caller
/// is told to construct again: the failure is not kept.
pub proof fn lemma_failed_construction_is_retried<T>(failure: ErrorView)
    ensures
        ({
            let first = HolderView::<T>::Empty.request();
            let after = first.0.complete(Err(failure));
            &&& first.1 == Access::Construct
            &&& after == HolderView::<T>::Empty
            &&& after.request() == (HolderView::<T>::Constructing, Access::Construct)
        }),
{
}

/// While a construction is under way no second one is asked for: every
/// other caller is told to wait.
pub proof fn lemma_one_construction_at_a_time<T>(holder: HolderView<T>)
    requires
        holder is Constructing,
    ensures
        holder.request() == (holder, Access::Wait),
{
}

} // verus!
