//! The broker: the handlers registered for each message type, the enabled
//! backends, and the configuration that selected them.

use crate::config::{BackendKind, Config, ConfigView};
use crate::dispatch::{ActionView, Backend, Dispatch, DispatchView};
use crate::error::{BrokerError, ErrorKind, ErrorView};
use crate::message::TypeKey;
use crate::registry::Registry;
use vstd::prelude::*;

verus! {

/// The families of the given backends, in order.
pub open spec fn kinds_of<B>(backends: Seq<Backend<B>>) -> Seq<BackendKind> {
    backends.map_values(|backend: Backend<B>| backend.kind)
}

/// The failure of `Broker::new` when the backends it is given are not those
/// that the configuration enables.
pub open spec fn backend_mismatch() -> ErrorView {
    ErrorView {
        kind: ErrorKind::Config,
        detail: "Backends do not match the configuration"@,
    }
}

/// What a `Broker` is in contracts.
pub struct BrokerView<H, B> {
    /// The handler registered for each message type.
    pub handlers: Map<TypeKey, H>,
    /// The enabled backends, in the order in which a message is offered to
    /// them.
    pub backends: Seq<Backend<B>>,
    pub config: ConfigView,
}

impl<H, B> BrokerView<H, B> {
    /// The broker after `handler` is registered for `key`.
    pub open spec fn register(self, key: TypeKey, handler: H) -> BrokerView<H, B> {
        BrokerView { handlers: self.handlers.insert(key, handler), ..self }
    }

    /// The send of a message whose type has the key `key`, before its first
    /// step.
    pub open spec fn send(self, key: TypeKey) -> DispatchView<H, B> {
        DispatchView::start(self.handlers.get(key), self.backends)
    }
}

/// A message broker. `H` is the type of its handlers and `B` that of the
/// clients of its backends; the broker holds them and says when each is
/// due, and never calls them itself.
pub struct Broker<H, B> {
    handlers: Registry<H>,
    backends: Vec<Backend<B>>,
    config: Config,
}

impl<H, B> Broker<H, B> {
    /// The backends are those that the configuration enables, in order.
    #[verifier::type_invariant]
    spec fn well_formed(self) -> bool {
        kinds_of(self.backends@) == self.config@.enabled_backends()
    }

    pub closed spec fn view(&self) -> BrokerView<H, B> {
        BrokerView { handlers: self.handlers@, backends: self.backends@, config: self.config@ }
    }

    /// A broker holds handlers for finitely many message types.
    pub proof fn lemma_handlers_finite(&self)
        ensures
            self@.handlers.dom().finite(),
    {
        self.handlers.lemma_finite();
    }

    /// A broker without handlers, for `config` and the backends that were
    /// connected for it. It is refused unless `backends` holds one backend
    /// of each family that `config` enables and no other, in the order of
    /// `Config::enabled_backends`.
    pub fn new(config: Config, backends: Vec<Backend<B>>) -> (r: Result<Broker<H, B>, BrokerError>)
        ensures
            match r {
                Ok(broker) => kinds_of(backends@) == config@.enabled_backends() && broker@
                    == (BrokerView {
                    handlers: Map::<TypeKey, H>::empty(),
                    backends: backends@,
                    config: config@,
                }) && broker@.handlers.dom().finite(),
                Err(e) => kinds_of(backends@) != config@.enabled_backends() && e@
                    == backend_mismatch(),
            },
    {
        let expected = config.enabled_backends();
        let n: usize = expected.len();
        if backends.len() != n {
            assert(kinds_of(backends@).len() != config@.enabled_backends().len());
            return Err(mismatch());
        }
        let mut i: usize = 0;
        while i < n
            invariant
                i <= n,
                n == expected.len(),
                n == backends.len(),
                expected@ == config@.enabled_backends(),
                forall|j: int| 0 <= j < i ==> backends[j].kind == expected[j],
            decreases n - i,
        {
            if backends[i].kind != expected[i] {
                assert(kinds_of(backends@)[i as int] != config@.enabled_backends()[i as int]);
                return Err(mismatch());
            }
            i += 1;
        }
        assert(kinds_of(backends@) =~= config@.enabled_backends());
        Ok(Broker { handlers: Registry::new(), backends, config })
    }

    /// Installs `handler` for the message type with the key `key`. A handler
    /// that was registered for that type before is replaced and dropped.
    pub fn register(&mut self, key: TypeKey, handler: H)
        ensures
            final(self)@ == old(self)@.register(key, handler),
            final(self)@.handlers.dom().finite(),
    {
        proof {
            use_type_invariant(&*self);
        }
        let mut handlers: Registry<H> = Registry::new();
        std::mem::swap(&mut handlers, &mut self.handlers);
        handlers.register(key, handler);
        self.handlers = handlers;
    }

    /// Begins the send of a message whose type has the key `key`: the
    /// handler registered for it, if any, comes first, and then every
    /// enabled backend in order. The call itself invokes nothing and leaves
    /// the broker as it is; the `Dispatch` it returns leads through the
    /// steps and gives the result of the send.
    pub fn send<'a>(&'a self, key: TypeKey) -> (dispatch: Dispatch<'a, H, B>)
        ensures
            dispatch@ == self@.send(key),
    {
        Dispatch::start(self.handlers.lookup(key), &self.backends)
    }

    /// The configuration the broker was built from.
    pub fn config(&self) -> (config: &Config)
        ensures
            config@ == self@.config,
    {
        &self.config
    }

    /// The families of the enabled backends, in order: those that the
    /// configuration enables.
    pub fn backend_kinds(&self) -> (kinds: Vec<BackendKind>)
        ensures
            kinds@ == kinds_of(self@.backends),
            kinds@ == self@.config.enabled_backends(),
    {
        proof {
            use_type_invariant(self);
        }
        self.config.enabled_backends()
    }
}

/// The failure for backends that do not match the configuration.
fn mismatch() -> (e: BrokerError)
    ensures
        e@ == backend_mismatch(),
{
    BrokerError::ConfigError(String::from_str("Backends do not match the configuration"))
}

/// Registering a handler for one message type changes no send of a message
/// of another type: such a send reaches the same handler as before, or none
/// as before, and the same backends.
pub proof fn lemma_register_leaves_other_types<H, B>(
    broker: BrokerView<H, B>,
    key: TypeKey,
    handler: H,
    other: TypeKey,
)
    requires
        key != other,
    ensures
        broker.register(key, handler).send(other) == broker.send(other),
{
}

/// Registering a handler changes neither the enabled backends nor the
/// configuration: they stay as they were when the broker was built.
pub proof fn lemma_backends_are_fixed<H, B>(broker: BrokerView<H, B>, key: TypeKey, handler: H)
    ensures
        broker.register(key, handler).backends == broker.backends,
        broker.register(key, handler).config == broker.config,
{
}

/// Registering a second handler for a message type replaces the first
/// one: the broker is as if only the second had been registered, and a send
/// of a message of that type reaches the second handler.
pub proof fn lemma_register_replaces<H, B>(
    broker: BrokerView<H, B>,
    key: TypeKey,
    first: H,
    second: H,
)
    ensures
        broker.register(key, first).register(key, second) == broker.register(key, second),
        broker.register(key, first).register(key, second).send(key).handler == Some(second),
        broker.register(key, first).register(key, second).send(key).action() == ActionView::<
            H,
            B,
        >::Handle(second),
{
    assert(broker.handlers.insert(key, first).insert(key, second) =~= broker.handlers.insert(
        key,
        second,
    ));
}

/// A send of a message for whose type no handler is registered, through a
/// broker without enabled backends, asks for no step and succeeds.
pub proof fn lemma_send_without_sink_succeeds<H, B>(broker: BrokerView<H, B>, key: TypeKey)
    requires
        !broker.handlers.contains_key(key),
        broker.backends.len() == 0,
    ensures
        broker.send(key).action() == ActionView::<H, B>::Done(Ok(())),
{
}

} // verus!
