//! Serialization within one isolate: plain values stay as they are, and the
//! bytes of the others are V8's alone, without an envelope.

use vstd::prelude::*;

use crate::serialization::deserialize::{
    deserialization_start, DeserializationStage, StructuredDeserialization,
};
use crate::serialization::error::{CloneError, Failure};
use crate::serialization::serialize::{
    serialization_start, SerializationStage, StructuredSerialization,
    StructuredSerializeWithTransferResult,
};
use crate::value::ValueKind;

verus! {

/// A serialized value.
#[derive(Debug, PartialEq, Eq)]
pub enum SerializedValue<V> {
    /// A plain value, as it is.
    Primitive(V),
    /// What V8 wrote.
    V8(Vec<u8>),
}

/// A serialization under way.
pub enum WebSerialization<V, B, T, E> {
    Primitive(V),
    Graph(StructuredSerialization<B, T, E>),
}

/// A deserialization under way.
pub enum WebDeserialization<V, B, T, E> {
    Primitive(V),
    Graph(StructuredDeserialization<B, T, V, E>),
}

/// Starts the serialization of a value of the given kind.
pub fn structured_serialize_internal<V, B, T, E>(value: V, kind: ValueKind) -> (start:
    WebSerialization<V, B, T, E>)
    ensures
        if kind.spec_is_plain() {
            start == WebSerialization::<V, B, T, E>::Primitive(value)
        } else {
            start matches WebSerialization::Graph(graph) && graph.wf() && graph@
                == serialization_start::<B, T, E>(kind, 0, None, 0)
        },
{
    if kind.is_plain() {
        WebSerialization::Primitive(value)
    } else {
        WebSerialization::Graph(StructuredSerialization::new(kind, 0, None, 0))
    }
}

impl<V, B, T, E> WebSerialization<V, B, T, E> {
    /// The outcome of a serialization that needs nothing more.
    pub fn finish(self) -> (outcome: Result<SerializedValue<V>, Failure<E>>)
        requires
            self matches WebSerialization::Graph(graph) ==> graph.wf() && (graph@.stage is Finished
                || graph@.stage is Failed),
        ensures
            match self {
                WebSerialization::Primitive(value) => outcome == Ok::<
                    SerializedValue<V>,
                    Failure<E>,
                >(SerializedValue::Primitive(value)),
                WebSerialization::Graph(graph) => match graph@.stage {
                    SerializationStage::Failed(failure) => outcome == Err::<
                        SerializedValue<V>,
                        Failure<E>,
                    >(failure),
                    _ => outcome matches Ok(SerializedValue::V8(bytes)) && bytes@
                        == graph@.serialized,
                },
            },
    {
        match self {
            WebSerialization::Primitive(value) => Ok(SerializedValue::Primitive(value)),
            WebSerialization::Graph(graph) => match graph.finish() {
                Ok(result) => Ok(SerializedValue::V8(result.serialized)),
                Err(failure) => Err(failure),
            },
        }
    }
}

/// Starts the deserialization of a value.
pub fn structured_deserialize<V, B, T, E>(serialized: SerializedValue<V>) -> (start:
    WebDeserialization<V, B, T, E>)
    ensures
        match serialized {
            SerializedValue::Primitive(value) => {
                start == WebDeserialization::<V, B, T, E>::Primitive(value)
            },
            SerializedValue::V8(bytes) => start matches WebDeserialization::Graph(graph)
                && graph.wf() && graph@ == deserialization_start::<B, T, V, E>(
                bytes@,
                Seq::empty(),
                None,
                0,
            ),
        },
{
    match serialized {
        SerializedValue::Primitive(value) => WebDeserialization::Primitive(value),
        SerializedValue::V8(bytes) => WebDeserialization::Graph(
            StructuredDeserialization::new(
                StructuredSerializeWithTransferResult {
                    serialized: bytes,
                    transfer_data_holders: Vec::new(),
                },
                None,
                0,
            ),
        ),
    }
}

impl<V, B, T, E> WebDeserialization<V, B, T, E> {
    /// The outcome of a deserialization that needs nothing more.
    pub fn finish(self) -> (outcome: Result<V, Failure<E>>)
        requires
            self matches WebDeserialization::Graph(graph) ==> graph@.stage is Finished
                || graph@.stage is Failed,
        ensures
            match self {
                WebDeserialization::Primitive(value) => outcome == Ok::<V, Failure<E>>(value),
                WebDeserialization::Graph(graph) => match graph@.stage {
                    DeserializationStage::Finished(value) => outcome == Ok::<V, Failure<E>>(value),
                    DeserializationStage::Failed(failure) => outcome == Err::<V, Failure<E>>(
                        failure,
                    ),
                    _ => false,
                },
            },
    {
        match self {
            WebDeserialization::Primitive(value) => Ok(value),
            WebDeserialization::Graph(graph) => match graph.finish() {
                Ok(result) => Ok(result.deserialized),
                Err(failure) => Err(failure),
            },
        }
    }
}

/// A value of one of the six plain kinds is serialized as it is, and a deserialization
/// gives it back. A symbol has no serialized form. For an object V8 writes the bytes.
pub proof fn lemma_serialized_form<V, B, T, E>(
    value: V,
    kind: ValueKind,
    start: WebSerialization<V, B, T, E>,
)
    requires
        call_ensures(structured_serialize_internal::<V, B, T, E>, (value, kind), start),
    ensures
        match start {
            WebSerialization::Primitive(same) => {
                &&& same == value
                &&& kind is Undefined || kind is Null || kind is Boolean || kind is Number
                    || kind is BigInt || kind is String
            },
            WebSerialization::Graph(graph) => {
                &&& graph.wf()
                &&& graph@.envelope is None
                &&& graph@.transfer_count == 0
                &&& kind is Object && graph@.kind is Object && graph@.stage is Graph || kind is Symbol
                    && graph@.stage == SerializationStage::Failed(
                    Failure::<E>::Clone(CloneError::Symbol),
                )
            },
        },
{
}

/// What a serialization came to is what it gives: the plain value, V8's bytes, or the
/// failure.
pub proof fn lemma_serialized_outcome<V, B, T, E>(
    serialization: WebSerialization<V, B, T, E>,
    outcome: Result<SerializedValue<V>, Failure<E>>,
)
    requires
        serialization matches WebSerialization::Graph(graph) ==> graph.wf() && (
        graph@.stage is Finished || graph@.stage is Failed),
        call_ensures(WebSerialization::<V, B, T, E>::finish, (serialization,), outcome),
    ensures
        match outcome {
            Ok(SerializedValue::Primitive(value)) => serialization
                == WebSerialization::<V, B, T, E>::Primitive(value),
            Ok(SerializedValue::V8(bytes)) => serialization matches WebSerialization::Graph(graph)
                && graph@.stage is Finished && graph@.serialized == bytes@,
            Err(failure) => serialization matches WebSerialization::Graph(graph) && graph@.stage
                == SerializationStage::Failed(failure),
        },
{
}

/// A deserialization of a plain value gives it back, and one of bytes hands all of
/// them to V8.
pub proof fn lemma_deserialized_form<V, B, T, E>(
    serialized: SerializedValue<V>,
    start: WebDeserialization<V, B, T, E>,
)
    requires
        call_ensures(structured_deserialize::<V, B, T, E>, (serialized,), start),
    ensures
        match serialized {
            SerializedValue::Primitive(value) => start
                == WebDeserialization::<V, B, T, E>::Primitive(value),
            SerializedValue::V8(bytes) => start matches WebDeserialization::Graph(graph)
                && graph.wf() && graph@.stage is Header && graph@.pending.len() == 0
                && forall|payload: &[u8]| #[trigger]
                call_ensures(StructuredDeserialization::<B, T, V, E>::payload, (&graph,), payload)
                    ==> payload@ == bytes@,
        },
{
    if let SerializedValue::V8(bytes) = serialized {
        assert(bytes@.skip(0) == bytes@);
    }
}

/// What a deserialization came to is what it gives.
pub proof fn lemma_deserialized_outcome<V, B, T, E>(
    deserialization: WebDeserialization<V, B, T, E>,
    outcome: Result<V, Failure<E>>,
)
    requires
        deserialization matches WebDeserialization::Graph(graph) ==> graph@.stage is Finished
            || graph@.stage is Failed,
        call_ensures(WebDeserialization::<V, B, T, E>::finish, (deserialization,), outcome),
    ensures
        match outcome {
            Ok(value) => match deserialization {
                WebDeserialization::Primitive(plain) => value == plain,
                WebDeserialization::Graph(graph) => graph@.stage == DeserializationStage::<
                    V,
                    E,
                >::Finished(value),
            },
            Err(failure) => deserialization matches WebDeserialization::Graph(graph) && graph@.stage
                == DeserializationStage::<V, E>::Failed(failure),
        },
{
}

} // verus!
