//! One send, step by step.
//!
//! A send first hands the message to the handler registered for its type,
//! if there is one, and then offers it to every enabled backend in order.
//! No failure stops the chain. The send fails when any step failed, and
//! reports the first failure. A `Dispatch` says which step is next; whoever
//! drives it performs the step and reports the outcome.

use crate::config::BackendKind;
use crate::error::{BrokerError, ErrorView};
use vstd::prelude::*;

verus! {

/// An enabled backend: the family it belongs to and the client that
/// publishes to it.
pub struct Backend<B> {
    pub kind: BackendKind,
    pub client: B,
}

/// What the driver of a send does next.
pub enum Action<'a, H, B> {
    /// Invoke this handler with the message and report how it ended.
    Handle(&'a H),
    /// Publish the message to this backend and report how it ended.
    Publish(&'a Backend<B>),
    /// Nothing is left to do: this is what the send returns.
    Done(Result<(), BrokerError>),
}

/// What an `Action` is in contracts.
pub enum ActionView<H, B> {
    Handle(H),
    Publish(Backend<B>),
    Done(Result<(), ErrorView>),
}

/// How a step ended, in contracts.
pub open spec fn outcome_view(outcome: Result<(), BrokerError>) -> Result<(), ErrorView> {
    match outcome {
        Ok(_) => Ok(()),
        Err(e) => Err(e@),
    }
}

/// The first failure among the outcomes of the steps taken, if any failed.
pub open spec fn first_failure(outcomes: Seq<Result<(), ErrorView>>) -> Option<ErrorView>
    decreases outcomes.len(),
{
    if outcomes.len() == 0 {
        None
    } else {
        match outcomes.first() {
            Err(e) => Some(e),
            Ok(_) => first_failure(outcomes.drop_first()),
        }
    }
}

/// What a send returns when its steps ended with `outcomes`: success when
/// every step succeeded, else a send failure that wraps the first failure.
pub open spec fn send_result(outcomes: Seq<Result<(), ErrorView>>) -> Result<(), ErrorView> {
    match first_failure(outcomes) {
        Some(e) => Err(e.wrapped()),
        None => Ok(()),
    }
}

impl<'a, H, B> View for Action<'a, H, B> {
    type V = ActionView<H, B>;

    open spec fn view(&self) -> ActionView<H, B> {
        match self {
            Action::Handle(handler) => ActionView::Handle(**handler),
            Action::Publish(backend) => ActionView::Publish(**backend),
            Action::Done(result) => ActionView::Done(outcome_view(*result)),
        }
    }
}

/// What a `Dispatch` is in contracts: the handler found for the
/// message, the enabled backends in order, the number of steps whose
/// outcome was reported, and the first failure among them.
pub struct DispatchView<H, B> {
    pub handler: Option<H>,
    pub backends: Seq<Backend<B>>,
    pub completed: nat,
    pub failure: Option<ErrorView>,
}

impl<H, B> DispatchView<H, B> {
    /// A send that has taken no step yet.
    pub open spec fn start(handler: Option<H>, backends: Seq<Backend<B>>) -> DispatchView<H, B> {
        DispatchView { handler, backends, completed: 0, failure: None }
    }

    /// The number of steps that the handler accounts for: one or none.
    pub open spec fn handler_steps(self) -> nat {
        if self.handler is Some {
            1
        } else {
            0
        }
    }

    /// The number of steps of the whole send.
    pub open spec fn steps(self) -> nat {
        self.handler_steps() + self.backends.len()
    }

    /// Whether every step was taken.
    pub open spec fn done(self) -> bool {
        self.completed >= self.steps()
    }

    /// What the send returns once every step was taken.
    pub open spec fn result(self) -> Result<(), ErrorView> {
        match self.failure {
            Some(e) => Err(e.wrapped()),
            None => Ok(()),
        }
    }

    /// The next action: the handler first, then each backend in order, then
    /// the result.
    pub open spec fn action(self) -> ActionView<H, B> {
        if self.completed < self.handler_steps() {
            ActionView::Handle(self.handler->0)
        } else if self.completed < self.steps() {
            ActionView::Publish(self.backends[self.completed - self.handler_steps()])
        } else {
            ActionView::Done(self.result())
        }
    }

    /// The send after the pending step ended with `outcome`. The first
    /// failure is kept; a later one is dropped. Once every step was taken,
    /// a further outcome changes nothing.
    pub open spec fn record(self, outcome: Result<(), ErrorView>) -> DispatchView<H, B> {
        if self.done() {
            self
        } else {
            DispatchView {
                completed: self.completed + 1,
                failure: match (self.failure, outcome) {
                    (None, Err(e)) => Some(e),
                    _ => self.failure,
                },
                ..self
            }
        }
    }

    /// The send after its next steps ended with `outcomes`, in order.
    pub open spec fn run(self, outcomes: Seq<Result<(), ErrorView>>) -> DispatchView<H, B>
        decreases outcomes.len(),
    {
        if outcomes.len() == 0 {
            self
        } else {
            self.record(outcomes.first()).run(outcomes.drop_first())
        }
    }
}

/// The handler that an optional reference stands for.
pub open spec fn handler_view<H>(handler: Option<&H>) -> Option<H> {
    match handler {
        Some(h) => Some(*h),
        None => None,
    }
}

/// The failure that an optional error stands for.
pub open spec fn failure_view(failure: Option<BrokerError>) -> Option<ErrorView> {
    match failure {
        Some(e) => Some(e@),
        None => None,
    }
}

/// The progress of one send.
pub struct Dispatch<'a, H, B> {
    handler: Option<&'a H>,
    backends: &'a Vec<Backend<B>>,
    /// No handler step is pending: there is no handler, or its outcome was
    /// reported.
    handled: bool,
    /// The number of backends whose outcome was reported.
    published: usize,
    failure: Option<BrokerError>,
}

impl<'a, H, B> Dispatch<'a, H, B> {
    #[verifier::type_invariant]
    spec fn well_formed(self) -> bool {
        &&& self.published <= self.backends@.len()
        &&& self.handler is None ==> self.handled
        &&& !self.handled ==> self.published == 0
    }

    pub closed spec fn view(&self) -> DispatchView<H, B> {
        DispatchView {
            handler: handler_view(self.handler),
            backends: self.backends@,
            completed: if self.handler is Some && self.handled {
                (self.published + 1) as nat
            } else {
                self.published as nat
            },
            failure: failure_view(self.failure),
        }
    }

    /// Begins a send to `handler`, if there is one, and then to `backends`
    /// in order.
    pub fn start(handler: Option<&'a H>, backends: &'a Vec<Backend<B>>) -> (dispatch: Dispatch<
        'a,
        H,
        B,
    >)
        ensures
            dispatch@ == DispatchView::start(handler_view(handler), backends@),
    {
        let handled = handler.is_none();
        Dispatch { handler, backends, handled, published: 0, failure: None }
    }

    /// Whether every step was taken.
    pub fn is_done(&self) -> (done: bool)
        ensures
            done == self@.done(),
    {
        proof {
            use_type_invariant(self);
        }
        self.handled && self.published == self.backends.len()
    }

    /// The next action of the send. It stays the same until the outcome of
    /// the step it asks for is reported with `record`.
    pub fn action(&self) -> (action: Action<'a, H, B>)
        ensures
            action@ == self@.action(),
    {
        proof {
            use_type_invariant(self);
        }
        match self.handler {
            Some(handler) if !self.handled => Action::Handle(handler),
            _ => {
                if self.published < self.backends.len() {
                    Action::Publish(&self.backends[self.published])
                } else {
                    match &self.failure {
                        Some(e) => Action::Done(Err(BrokerError::send_failure(e))),
                        None => Action::Done(Ok(())),
                    }
                }
            },
        }
    }

    /// Reports how the pending step ended, and moves on to the next step
    /// whether it failed or not. Of all failures reported the first is kept.
    /// An outcome reported when no step is pending is dropped.
    pub fn record(&mut self, outcome: Result<(), BrokerError>)
        ensures
            final(self)@ == old(self)@.record(outcome_view(outcome)),
    {
        proof {
            use_type_invariant(&*self);
        }
        let backends: usize = self.backends.len();
        if self.handled && self.published == backends {
            return ;
        }
        if !self.handled {
            self.handled = true;
        } else {
            self.published = self.published + 1;
        }
        if self.failure.is_none() {
            match outcome {
                Err(e) => {
                    self.failure = Some(e);
                },
                Ok(_) => {},
            }
        }
    }
}

/// After `outcomes`, reported to a send that has steps left for all of them,
/// as many more steps are taken, and the first failure is the one the send
/// had before or, if it had none, the first among `outcomes`.
pub proof fn lemma_run<H, B>(dispatch: DispatchView<H, B>, outcomes: Seq<Result<(), ErrorView>>)
    requires
        dispatch.completed + outcomes.len() <= dispatch.steps(),
    ensures
        dispatch.run(outcomes).completed == dispatch.completed + outcomes.len(),
        dispatch.run(outcomes).handler == dispatch.handler,
        dispatch.run(outcomes).backends == dispatch.backends,
        dispatch.run(outcomes).failure == match dispatch.failure {
            Some(e) => Some(e),
            None => first_failure(outcomes),
        },
    decreases outcomes.len(),
{
    if outcomes.len() > 0 {
        lemma_run(dispatch.record(outcomes.first()), outcomes.drop_first());
    }
}

/// A send whose steps ended with `outcomes`, one for each step, has nothing
/// left to do and returns success when every step succeeded, and else a send
/// failure that wraps the first failure: that of the handler if it failed,
/// else that of the first backend that failed.
pub proof fn lemma_send_reports_first_failure<H, B>(
    handler: Option<H>,
    backends: Seq<Backend<B>>,
    outcomes: Seq<Result<(), ErrorView>>,
)
    requires
        outcomes.len() == DispatchView::start(handler, backends).steps(),
    ensures
        DispatchView::start(handler, backends).run(outcomes).action() == ActionView::<
            H,
            B,
        >::Done(send_result(outcomes)),
{
    lemma_run(DispatchView::start(handler, backends), outcomes);
}

/// Whatever the outcomes of the steps taken so far, the next step is the
/// handler when nothing was reported yet and a handler was found, and else
/// the next backend in order: no failure ends a send early, the handler
/// comes before every backend, and the backends come in their fixed order.
pub proof fn lemma_steps_follow_the_chain<H, B>(
    handler: Option<H>,
    backends: Seq<Backend<B>>,
    outcomes: Seq<Result<(), ErrorView>>,
)
    requires
        outcomes.len() < DispatchView::start(handler, backends).steps(),
    ensures
        DispatchView::start(handler, backends).run(outcomes).action() == (if handler is Some
            && outcomes.len() == 0 {
            ActionView::<H, B>::Handle(handler->0)
        } else if handler is Some {
            ActionView::<H, B>::Publish(backends[outcomes.len() - 1])
        } else {
            ActionView::<H, B>::Publish(backends[outcomes.len() as int])
        }),
{
    lemma_run(DispatchView::start(handler, backends), outcomes);
}

/// The status that the foreign boundary reports for the result of a send:
/// zero for success, minus one for any failure.
pub fn status_code(result: &Result<(), BrokerError>) -> (code: i32)
    ensures
        code == (if result is Ok {
            0i32
        } else {
            -1i32
        }),
{
    match result {
        Ok(_) => 0,
        Err(_) => -1,
    }
}

} // verus!
