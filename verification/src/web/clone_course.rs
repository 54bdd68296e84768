//! What the clone of a value comes to, from its start on.

use vstd::prelude::*;

use crate::serialization::course::{acts, is_course, is_exchange, lemma_symbol, Exchange};
use crate::serialization::envelope::EnvelopeFormat;
use crate::serialization::error::{CloneError, Failure};
use crate::serialization::options::StructuredSerializeOptions;
use crate::serialization::serialize::{
    serialization_start, SerializationStage, SerializationView, StructuredSerialization,
};
use crate::value::ValueKind;
use crate::web::structured_clone::{
    op_native_structured_clone, resume_clone, structured_clone, CloneStep, StructuredClone,
};

verus! {

/// Plain are the values of six kinds, and no symbol and no object.
pub proof fn lemma_plain_kinds(kind: ValueKind, plain: bool)
    requires
        call_ensures(ValueKind::is_plain, (kind,), plain),
    ensures
        plain <==> kind is Undefined || kind is Null || kind is Boolean || kind is Number
            || kind is BigInt || kind is String,
{
}

/// Whether a clone starts as it should. A value of one of the six plain kinds is its
/// own clone where nothing is transferred. Every other clone starts with a
/// serialization, at the transfer list if there is one.
pub open spec fn starts_clone<V, B, T, E>(
    start: StructuredClone<V, B, T, E>,
    value: V,
    kind: ValueKind,
    count: nat,
    format: EnvelopeFormat,
) -> bool {
    let plain = kind is Undefined || kind is Null || kind is Boolean || kind is Number
        || kind is BigInt || kind is String;
    match start {
        StructuredClone::Same(same) => count == 0 && plain && same == value,
        StructuredClone::Serialize(serialization) => {
            let state = serialization@;
            &&& count > 0 || !plain
            &&& serialization.wf()
            &&& state.kind == kind
            &&& state.transfer_count == count
            &&& state.envelope == Some(format)
            &&& state.version == 1
            &&& state.prepared.len() == 0
            &&& state.serialized.len() == 0
            &&& state.holders.len() == 0
            &&& count > 0 ==> state.stage is LookUp
            &&& count == 0 && kind is Object ==> state.stage is Graph
            &&& count == 0 && kind is Symbol ==> state.stage == SerializationStage::Failed(
                Failure::<E>::Clone(CloneError::Symbol),
            )
        },
    }
}

/// `structured_clone` gives back the value itself only for a plain one without a
/// transfer list, and serializes every other to data with the magic bytes.
pub proof fn lemma_clone_starts<V, B, T, E>(
    value: V,
    kind: ValueKind,
    options: StructuredSerializeOptions<V>,
    start: StructuredClone<V, B, T, E>,
)
    requires
        call_ensures(structured_clone::<V, B, T, E>, (value, kind, &options), start),
    ensures
        starts_clone(start, value, kind, options.transfer@.len(), EnvelopeFormat::Magic),
{
}

/// The native clone starts in the same way, to data with the marker byte.
pub proof fn lemma_native_clone_starts<V, B, T, E>(
    value: V,
    kind: ValueKind,
    options: StructuredSerializeOptions<V>,
    start: StructuredClone<V, B, T, E>,
)
    requires
        call_ensures(op_native_structured_clone::<V, B, T, E>, (value, kind, &options), start),
    ensures
        starts_clone(start, value, kind, options.transfer@.len(), EnvelopeFormat::Tagged),
{
}

/// Whether a start leads to a failure, whatever the embedder replies, without a
/// change to any object of the transfer list; to the failure of a symbol where the
/// list is empty.
pub open spec fn only_fails<V, B, T, E>(
    start: StructuredClone<V, B, T, E>,
    course: Seq<Exchange<B, T, E>>,
    end: SerializationView<B, T, E>,
) -> bool {
    start matches StructuredClone::Serialize(serialization) && (is_course(
        course,
        serialization@,
        end,
    ) && (end.stage is Finished || end.stage is Failed) ==> {
        &&& end.stage is Failed
        &&& end.serialized.len() == 0
        &&& end.holders.len() == 0
        &&& forall|i: int| 0 <= i < course.len() ==> !acts((#[trigger] course[i]).request)
        &&& serialization@.transfer_count == 0 ==> end.stage == SerializationStage::Failed(
            Failure::<E>::Clone(CloneError::Symbol),
        )
    })
}

/// A symbol is never cloned, by either function and with any transfer list.
pub proof fn lemma_symbol_is_not_cloned<V, B, T, E>(
    value: V,
    kind: ValueKind,
    options: StructuredSerializeOptions<V>,
    start: StructuredClone<V, B, T, E>,
    course: Seq<Exchange<B, T, E>>,
    end: SerializationView<B, T, E>,
)
    requires
        kind is Symbol,
        call_ensures(structured_clone::<V, B, T, E>, (value, kind, &options), start)
            || call_ensures(
            op_native_structured_clone::<V, B, T, E>,
            (value, kind, &options),
            start,
        ),
    ensures
        only_fails(start, course, end),
{
    if let StructuredClone::Serialize(serialization) = start {
        let state = serialization@;
        if is_course(course, state, end) && (end.stage is Finished || end.stage is Failed) {
            let count = options.transfer@.len();
            assert(state == serialization_start::<B, T, E>(
                kind,
                count,
                state.envelope,
                state.version,
            ));
            lemma_symbol(kind, count, state.envelope, state.version, course, end);
            if count == 0 && course.len() > 0 {
                assert(is_exchange(course, end, 0));
            }
        }
    }
}

/// A clone goes on after the serialization with exactly what that came to: with its
/// failure, with its bytes and the data of its entries, or not at all where there are
/// no bytes.
pub proof fn lemma_clone_goes_on<V, B, T, E>(
    serialization: StructuredSerialization<B, T, E>,
    res: Result<CloneStep<B, T, V, E>, Failure<E>>,
)
    requires
        serialization.wf(),
        serialization@.stage is Finished || serialization@.stage is Failed,
        call_ensures(resume_clone::<V, B, T, E>, (serialization,), res),
    ensures
        match res {
            Err(failure) => serialization@.stage == SerializationStage::Failed(failure),
            Ok(CloneStep::Raised) => serialization@.stage is Finished
                && serialization@.serialized.len() == 0,
            Ok(CloneStep::Deserialize(deserialization)) => {
                &&& serialization@.stage is Finished
                &&& serialization@.serialized.len() > 0
                &&& deserialization.wf()
                &&& deserialization@.serialized == serialization@.serialized
                &&& deserialization@.pending == serialization@.holders
                &&& deserialization@.envelope == serialization@.envelope
                &&& deserialization@.current == serialization@.version
                &&& deserialization@.values.len() == 0
                &&& deserialization@.received.len() == 0
                &&& serialization@.holders.len() > 0 ==> deserialization@.stage is TakeUp
                &&& serialization@.holders.len() == 0 ==> deserialization@.stage is Header
                    || deserialization@.stage is Failed
            },
        },
{
}

} // verus!
