//! `structuredClone`.

use vstd::prelude::*;

use crate::serialization::deserialize::{deserialization_start, StructuredDeserialization};
use crate::serialization::envelope::{EnvelopeFormat, STRUCTURED_CLONE_WIRE_FORMAT_VERSION};
use crate::serialization::error::Failure;
use crate::serialization::options::StructuredSerializeOptions;
use crate::serialization::outcome::{
    deserialized, ending, lemma_deserialization_result, lemma_serialization_result, received, run,
    DeserializationAnswers, SerializationAnswers,
};
use crate::serialization::serialize::{
    serialization_start, SerializationStage, StructuredSerialization,
};
use crate::value::ValueKind;
use crate::web::registry::WEB_STRUCTURED_CLONE_WIRE_FORMAT_VERSION;

verus! {

/// How a value is cloned.
pub enum StructuredClone<V, B, T, E> {
    /// It is its own clone.
    Same(V),
    /// It is serialized first.
    Serialize(StructuredSerialization<B, T, E>),
}

/// Whether `start` is the start of a clone. A plain value is its own clone, but
/// only if nothing is transferred: a transfer list is validated and processed
/// whatever the value is.
pub open spec fn is_clone_start<V, B, T, E>(
    start: StructuredClone<V, B, T, E>,
    value: V,
    kind: ValueKind,
    transfer: Seq<V>,
    format: EnvelopeFormat,
    version: u32,
) -> bool {
    if transfer.len() == 0 && kind.spec_is_plain() {
        start == StructuredClone::<V, B, T, E>::Same(value)
    } else {
        start matches StructuredClone::Serialize(serialization) && serialization.wf()
            && serialization@ == serialization_start::<B, T, E>(
            kind,
            transfer.len(),
            Some(format),
            version,
        )
    }
}

fn start_clone<V, B, T, E>(
    value: V,
    kind: ValueKind,
    options: &StructuredSerializeOptions<V>,
    format: EnvelopeFormat,
    version: u32,
) -> (start: StructuredClone<V, B, T, E>)
    ensures
        is_clone_start(start, value, kind, options.transfer@, format, version),
{
    if options.transfer.len() == 0 && kind.is_plain() {
        StructuredClone::Same(value)
    } else {
        StructuredClone::Serialize(
            StructuredSerialization::new(kind, options.transfer.len(), Some(format), version),
        )
    }
}

/// Starts the clone of a value of the given kind, by way of data with the magic
/// bytes.
pub fn structured_clone<V, B, T, E>(
    value: V,
    kind: ValueKind,
    options: &StructuredSerializeOptions<V>,
) -> (start: StructuredClone<V, B, T, E>)
    ensures
        is_clone_start(
            start,
            value,
            kind,
            options.transfer@,
            EnvelopeFormat::Magic,
            WEB_STRUCTURED_CLONE_WIRE_FORMAT_VERSION,
        ),
{
    start_clone(
        value,
        kind,
        options,
        EnvelopeFormat::Magic,
        WEB_STRUCTURED_CLONE_WIRE_FORMAT_VERSION,
    )
}

/// Starts the clone of a value of the given kind, by way of data with the marker
/// byte. The marker byte is what the stored samples of the native clone start
/// with; all other functions that serialize write the magic bytes.
pub fn op_native_structured_clone<V, B, T, E>(
    value: V,
    kind: ValueKind,
    options: &StructuredSerializeOptions<V>,
) -> (start: StructuredClone<V, B, T, E>)
    ensures
        is_clone_start(
            start,
            value,
            kind,
            options.transfer@,
            EnvelopeFormat::Tagged,
            STRUCTURED_CLONE_WIRE_FORMAT_VERSION,
        ),
{
    start_clone(
        value,
        kind,
        options,
        EnvelopeFormat::Tagged,
        STRUCTURED_CLONE_WIRE_FORMAT_VERSION,
    )
}

/// How a clone goes on after the serialization.
pub enum CloneStep<B, T, V, E> {
    /// What the serialization came to is deserialized.
    Deserialize(StructuredDeserialization<B, T, V, E>),
    /// There is no clone: V8 left an exception, which the script sees.
    Raised,
}

/// Goes on with the clone when the serialization needs nothing more: starts the
/// deserialization of what it came to. An empty result stands for an exception
/// that V8 left for the script, and is not deserialized.
pub fn resume_clone<V, B, T, E>(serialization: StructuredSerialization<B, T, E>) -> (res: Result<
    CloneStep<B, T, V, E>,
    Failure<E>,
>)
    requires
        serialization.wf(),
        serialization@.stage is Finished || serialization@.stage is Failed,
    ensures
        match serialization@.stage {
            SerializationStage::Failed(failure) => res matches Err(found) && found == failure,
            _ => if serialization@.serialized.len() == 0 {
                res matches Ok(CloneStep::Raised)
            } else {
                res matches Ok(CloneStep::Deserialize(deserialization)) && deserialization.wf()
                    && deserialization@ == deserialization_start::<B, T, V, E>(
                    serialization@.serialized,
                    serialization@.holders,
                    serialization@.envelope,
                    serialization@.version,
                )
            },
        },
{
    let envelope: Option<EnvelopeFormat> = serialization.envelope();
    let version: u32 = serialization.wire_format_version();
    match serialization.finish() {
        Ok(result) => if result.serialized.len() == 0 {
            Ok(CloneStep::Raised)
        } else {
            Ok(CloneStep::Deserialize(StructuredDeserialization::new(result, envelope, version)))
        },
        Err(failure) => Err(failure),
    }
}

/// What a clone by serialization comes to.
pub ghost enum CloneOutcome<V, E> {
    /// A clone.
    Cloned(V),
    /// The exception that V8 left for the script, and no other error.
    Raised,
    /// A failure.
    Failed(Failure<E>),
}

/// What a clone by serialization comes to.
pub open spec fn clone_outcome<V, B, T, E>(
    kind: ValueKind,
    count: nat,
    written: SerializationAnswers<B, T, E>,
    read: DeserializationAnswers<V, E>,
    format: EnvelopeFormat,
    version: u32,
) -> CloneOutcome<V, E> {
    match written.result(kind, count) {
        Err(failure) => CloneOutcome::Failed(failure),
        Ok((bytes, holders)) => if bytes.len() == 0 {
            CloneOutcome::Raised
        } else {
            match read.result(bytes, holders.len(), Some(format), version) {
                Err(failure) => CloneOutcome::Failed(failure),
                Ok((value, _)) => CloneOutcome::Cloned(value),
            }
        },
    }
}

/// A clone by serialization fails as its serialization does, and otherwise comes
/// to what deserializing the outcome comes to, if there is one. A symbol is never
/// cloned, and then nothing is detached.
pub proof fn lemma_clone_outcome<V, B, T, E>(
    kind: ValueKind,
    count: nat,
    written: SerializationAnswers<B, T, E>,
    read: DeserializationAnswers<V, E>,
    format: EnvelopeFormat,
    version: u32,
)
    ensures
        ({
            let envelope = Some(format);
            let course = run(
                serialization_start::<B, T, E>(kind, count, envelope, version),
                written,
            );
            let outcome = clone_outcome(kind, count, written, read, format, version);
            &&& match ending(course.end) {
                Err(failure) => outcome == CloneOutcome::<V, E>::Failed(failure),
                Ok((bytes, holders)) => if bytes.len() == 0 {
                    outcome is Raised
                } else {
                    let end = deserialized(
                        deserialization_start::<B, T, V, E>(bytes, holders, envelope, version),
                        read,
                    );
                    match received(end) {
                        Some(Ok((value, _))) => outcome == CloneOutcome::<V, E>::Cloned(value),
                        Some(Err(failure)) => outcome == CloneOutcome::<V, E>::Failed(failure),
                        None => false,
                    }
                },
            }
            &&& kind is Symbol ==> outcome is Failed && course.touched.len() == 0
        }),
{
    let envelope = Some(format);
    lemma_serialization_result(kind, count, envelope, version, written);
    if let Ok((bytes, holders)) = written.result(kind, count) {
        lemma_deserialization_result(bytes, holders, envelope, version, read);
    }
}

/// An exception that V8 raised while it serialized reaches the script: unless
/// something was refused before, the clone ends as raised, with no error of its
/// own, and nothing has been detached. Where V8's bytes are not empty, as they
/// never are behind an envelope, a clone ends as raised in no other way.
pub proof fn lemma_exception_reaches_the_script<V, B, T, E>(
    kind: ValueKind,
    count: nat,
    written: SerializationAnswers<B, T, E>,
    read: DeserializationAnswers<V, E>,
    format: EnvelopeFormat,
    version: u32,
)
    ensures
        ({
            let course = run(
                serialization_start::<B, T, E>(kind, count, Some(format), version),
                written,
            );
            let outcome = clone_outcome(kind, count, written, read, format, version);
            let exception = written.raised() && written.serialization_refusal(kind, count) is None;
            &&& exception ==> outcome is Raised && course.touched.len() == 0
            &&& outcome is Raised && written.bytes@.len() > 0 ==> exception
        }),
{
    lemma_serialization_result(kind, count, Some(format), version, written);
}

} // verus!
