//! Messages and the identity of their types.

use std::any::TypeId;
use vstd::prelude::*;

verus! {

/// `std::any::TypeId`, the identifier that std gives to each type. Its inside
/// is hidden: two identifiers can only be compared.
#[verifier::external_type_specification]
#[verifier::external_body]
pub struct ExTypeId(TypeId);

/// `serde_json::Value`, a JSON document. It is carried, never read.
#[verifier::external_type_specification]
#[verifier::external_body]
pub struct ExJsonValue(serde_json::Value);

/// `TypeId::of`, which gives the identifier of the type `T`. Nothing is
/// claimed of the identifier it returns.
pub assume_specification<T: ?Sized + 'static>[ TypeId::of::<T> ]() -> TypeId
;

/// `==` on `TypeId`: it answers `true` exactly when the two identifiers are
/// the same identifier.
pub assume_specification[ <TypeId as PartialEq>::eq ](a: &TypeId, b: &TypeId) -> (same: bool)
    ensures
        same == (*a == *b),
;

/// `clone` on `serde_json::Value`: the copy is the same document.
pub assume_specification[ <serde_json::Value as Clone>::clone ](value: &serde_json::Value) -> (copy:
    serde_json::Value)
    ensures
        copy == *value,
;

/// A value that can be sent through a broker.
pub trait Message: Send + Sync + 'static {}

/// A message that carries plain text.
#[derive(Clone, Debug, PartialEq, Eq)]
pub struct TextMessage(pub String);

impl Message for TextMessage {}

/// A message that carries a JSON document.
#[derive(Debug)]
pub struct JsonMessage(pub serde_json::Value);

impl Message for JsonMessage {}

impl Clone for JsonMessage {
    /// A message with the same document.
    fn clone(&self) -> (copy: JsonMessage)
        ensures
            copy == *self,
    {
        JsonMessage(self.0.clone())
    }
}

/// The identity of a message type. Handlers are registered and found by it.
#[derive(Clone, Copy, Debug, PartialEq, Eq, Hash)]
pub struct TypeKey {
    id: TypeId,
}

impl TypeKey {
    /// The key of the message type `M`. Which key that is cannot be said in
    /// a contract: std promises one identifier for each type and different
    /// identifiers for different types, and tells no more of them.
    pub fn of<M: Message>() -> TypeKey {
        TypeKey { id: TypeId::of::<M>() }
    }

    /// Whether two keys identify the same message type.
    pub fn same(&self, other: &TypeKey) -> (same: bool)
        ensures
            same == (*self == *other),
    {
        self.id == other.id
    }
}

} // verus!
