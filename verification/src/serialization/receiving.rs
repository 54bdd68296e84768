//! What an embedder sees of a deserialization: what it is asked for, one thing after
//! the other, and where that leads, told by nothing but its replies.

use vstd::prelude::*;

use crate::serialization::course::{
    favourable_until, is_course, is_object_entry, lemma_favourable_end, lemma_places_of_objects,
    objects_before, Exchange,
};
use crate::serialization::deserialize::{
    deserialization_start, opened_data, structured_deserialize,
    structured_deserialize_with_transfer, DeserializationReply, DeserializationRequest,
    DeserializationStage, DeserializationView, StructuredDeserialization,
    StructuredDeserializeWithTransferResult,
};
use crate::serialization::envelope::EnvelopeFormat;
use crate::serialization::error::{CloneError, Failure};
use crate::serialization::serialize::{
    serialization_start, PreparedTransfer, SerializationView, StructuredCloneTransferData,
    StructuredSerializeWithTransferResult,
};
use crate::value::ValueKind;

verus! {

/// A step of a deserialization: the reply that it took, or `None` where data was
/// taken up.
pub ghost struct Step<B, T, V, E> {
    pub state: DeserializationView<B, T, V, E>,
    pub reply: Option<DeserializationReply<V, E>>,
}

/// The deserialization before the step at `index`, or after the last.
pub open spec fn stands_at<B, T, V, E>(
    course: Seq<Step<B, T, V, E>>,
    end: DeserializationView<B, T, V, E>,
    index: int,
) -> DeserializationView<B, T, V, E> {
    if index < course.len() {
        course[index].state
    } else {
        end
    }
}

/// Whether the step at `index` is one that the deserialization takes, and what it
/// makes of it comes next.
pub open spec fn is_step<B, T, V, E>(
    course: Seq<Step<B, T, V, E>>,
    end: DeserializationView<B, T, V, E>,
    index: int,
) -> bool {
    let state = course[index].state;
    match course[index].reply {
        None => state.stage is TakeUp && stands_at(course, end, index + 1) == state.take_up(),
        Some(reply) => state.accepts(reply) && stands_at(course, end, index + 1) == state.after(
            reply,
        ),
    }
}

/// Whether the steps lead from `start` to `end`.
pub open spec fn is_receiving<B, T, V, E>(
    course: Seq<Step<B, T, V, E>>,
    start: DeserializationView<B, T, V, E>,
    end: DeserializationView<B, T, V, E>,
) -> bool {
    &&& stands_at(course, end, 0) == start
    &&& forall|i: int| 0 <= i < course.len() ==> #[trigger] is_step(course, end, i)
}

/// Whether a step lets the deserialization go on.
pub open spec fn goes_on<V, E>(reply: Option<DeserializationReply<V, E>>) -> bool {
    match reply {
        None => true,
        Some(DeserializationReply::Received(value)) => value is Ok,
        Some(DeserializationReply::Header(valid)) => valid == Some(true),
        Some(DeserializationReply::Value(value)) => value is Some,
    }
}

/// Whether the first `count` steps all let the deserialization go on.
pub open spec fn goes_on_until<B, T, V, E>(course: Seq<Step<B, T, V, E>>, count: int) -> bool {
    forall|i: int| 0 <= i < count ==> goes_on((#[trigger] course[i]).reply)
}

/// Whether the objects are those that the embedder made, one after each data that it
/// took up, and of the sorts of the data.
pub open spec fn are_made<B, T, V, E>(
    course: Seq<Step<B, T, V, E>>,
    holders: Seq<StructuredCloneTransferData<B, T>>,
    state: DeserializationView<B, T, V, E>,
) -> bool {
    &&& state.received.len() == state.values.len()
    &&& forall|e: int|
        #![trigger state.values[e]]
        #![trigger state.received[e]]
        0 <= e < state.values.len() ==> {
            &&& course[2 * e + 1].reply == Some(
                DeserializationReply::<V, E>::Received(Ok(state.values[e])),
            )
            &&& state.received[e] is ArrayBuffer <==> holders[e] is ArrayBuffer
        }
}

spec fn is_expected<B, T, V, E>(
    course: Seq<Step<B, T, V, E>>,
    serialized: Seq<u8>,
    holders: Seq<StructuredCloneTransferData<B, T>>,
    envelope: Option<EnvelopeFormat>,
    current: u32,
    state: DeserializationView<B, T, V, E>,
    index: int,
) -> bool {
    let count = holders.len();
    let entry = if index < 2 * count {
        index / 2
    } else {
        count as int
    };
    &&& state.serialized == serialized
    &&& state.envelope == envelope
    &&& state.current == current
    &&& state.values.len() == entry
    &&& are_made(course, holders, state)
    &&& if index < 2 * count {
        if index % 2 == 0 {
            state.stage is TakeUp && state.pending == holders.skip(entry)
        } else {
            &&& state.pending == holders.skip(entry + 1)
            &&& state.stage == if holders[entry] is ArrayBuffer {
                DeserializationStage::<V, E>::Receive(PreparedTransfer::ArrayBuffer)
            } else {
                DeserializationStage::<V, E>::Receive(PreparedTransfer::HostObject)
            }
        }
    } else {
        match opened_data(envelope, current, serialized) {
            Err(error) => index == 2 * count && state.stage == DeserializationStage::<V, E>::Failed(
                Failure::Clone(error),
            ),
            Ok(_) => if index == 2 * count {
                state.stage is Header
            } else if index == 2 * count + 1 {
                state.stage is Value
            } else {
                &&& index == 2 * count + 2
                &&& course[index - 1].reply matches Some(DeserializationReply::Value(Some(value)))
                    && state.stage == DeserializationStage::<V, E>::Finished(value)
            },
        }
    }
}

proof fn lemma_expected<B, T, V, E>(
    serialized: Seq<u8>,
    holders: Seq<StructuredCloneTransferData<B, T>>,
    envelope: Option<EnvelopeFormat>,
    current: u32,
    course: Seq<Step<B, T, V, E>>,
    end: DeserializationView<B, T, V, E>,
    index: int,
)
    requires
        is_receiving(course, deserialization_start(serialized, holders, envelope, current), end),
        0 <= index <= course.len(),
        goes_on_until(course, index),
    ensures
        is_expected(
            course,
            serialized,
            holders,
            envelope,
            current,
            stands_at(course, end, index),
            index,
        ),
    decreases index,
{
    let count = holders.len();
    if index == 0 {
        assert(holders.skip(0) == holders);
    } else {
        lemma_expected(serialized, holders, envelope, current, course, end, index - 1);
        assert(is_step(course, end, index - 1));
        let state = course[index - 1].state;
        assert(goes_on(course[index - 1].reply));
        if index - 1 < 2 * count {
            let entry = (index - 1) / 2;
            if (index - 1) % 2 == 0 {
                assert(holders.skip(entry).skip(1) == holders.skip(entry + 1));
                assert(holders.skip(entry)[0] == holders[entry]);
                assert(index / 2 == entry && index % 2 == 1);
            } else {
                assert(index == 2 * (entry + 1));
                let next = stands_at(course, end, index);
                assert(next.values.len() == entry + 1);
                assert forall|e: int|
                    #![trigger next.values[e]]
                    #![trigger next.received[e]]
                    0 <= e < next.values.len() implies {
                    &&& course[2 * e + 1].reply == Some(
                        DeserializationReply::<V, E>::Received(Ok(next.values[e])),
                    )
                    &&& next.received[e] is ArrayBuffer <==> holders[e] is ArrayBuffer
                } by {
                    if e < entry {
                        assert(next.values[e] == state.values[e]);
                        assert(next.received[e] == state.received[e]);
                    } else {
                        assert(2 * e + 1 == index - 1);
                    }
                }
                assert(are_made(course, holders, next));
            }
        } else {
            let next = stands_at(course, end, index);
            assert(next.values == state.values && next.received == state.received);
        }
    }
}

/// The embedder is handed the data of the transferred objects one after the other,
/// and makes the object of each before it gets the next. Only then is V8's header
/// read, and after that the value.
pub proof fn lemma_receiving<B, T, V, E>(
    serialized: Seq<u8>,
    holders: Seq<StructuredCloneTransferData<B, T>>,
    envelope: Option<EnvelopeFormat>,
    current: u32,
    course: Seq<Step<B, T, V, E>>,
    end: DeserializationView<B, T, V, E>,
    index: int,
)
    requires
        is_receiving(course, deserialization_start(serialized, holders, envelope, current), end),
        0 <= index < course.len(),
        goes_on_until(course, index),
    ensures
        ({
            let count = holders.len();
            let state = course[index].state;
            &&& state.serialized == serialized
            &&& state.envelope == envelope
            &&& state.current == current
            &&& are_made(course, holders, state)
            &&& if index < 2 * count {
                &&& state.values.len() == index / 2
                &&& if index % 2 == 0 {
                    &&& state.stage is TakeUp
                    &&& state.pending.len() > 0
                    &&& state.pending[0] == holders[index / 2]
                    &&& course[index].reply is None
                } else {
                    &&& state.stage is Receive
                    &&& course[index].reply matches Some(DeserializationReply::Received(_))
                }
            } else {
                &&& state.values.len() == count
                &&& opened_data(envelope, current, serialized) is Ok
                &&& if index == 2 * count {
                    &&& state.stage is Header
                    &&& course[index].reply matches Some(DeserializationReply::Header(_))
                } else {
                    &&& index == 2 * count + 1
                    &&& state.stage is Value
                    &&& course[index].reply matches Some(DeserializationReply::Value(_))
                }
            }
        }),
{
    lemma_expected(serialized, holders, envelope, current, course, end, index);
    assert(is_step(course, end, index));
}

/// A step that does not let the deserialization go on is the last, and gives the
/// error. Otherwise the deserialization fails only where the data cannot be opened,
/// and comes to the value that V8 read and the objects that were made, one of the
/// data of each entry, in order.
pub proof fn lemma_received<B, T, V, E>(
    serialized: Seq<u8>,
    holders: Seq<StructuredCloneTransferData<B, T>>,
    envelope: Option<EnvelopeFormat>,
    current: u32,
    course: Seq<Step<B, T, V, E>>,
    end: DeserializationView<B, T, V, E>,
)
    requires
        is_receiving(course, deserialization_start(serialized, holders, envelope, current), end),
        end.stage is Finished || end.stage is Failed,
    ensures
        goes_on_until(course, course.len() - 1),
        course.len() > 0 && !goes_on(course.last().reply) ==> end.stage
            == DeserializationStage::<V, E>::Failed(
            match course.last().reply {
                Some(DeserializationReply::Received(Err(error))) => Failure::Host(error),
                Some(DeserializationReply::Header(_)) => Failure::Clone(
                    CloneError::InvalidValueHeader,
                ),
                _ => Failure::Clone(CloneError::InvalidValue),
            },
        ),
        goes_on_until(course, course.len() as int) ==> {
            &&& end.values.len() == holders.len()
            &&& are_made(course, holders, end)
            &&& match opened_data(envelope, current, serialized) {
                Err(error) => course.len() == 2 * holders.len() && end.stage
                    == DeserializationStage::<V, E>::Failed(Failure::Clone(error)),
                Ok(_) => {
                    &&& course.len() == 2 * holders.len() + 2
                    &&& course.last().reply matches Some(DeserializationReply::Value(Some(value)))
                        && end.stage == DeserializationStage::<V, E>::Finished(value)
                },
            }
        },
{
    lemma_goes_on_until(serialized, holders, envelope, current, course, end, course.len() - 1);
    if goes_on_until(course, course.len() as int) {
        lemma_expected(serialized, holders, envelope, current, course, end, course.len() as int);
    } else {
        let index = course.len() - 1;
        lemma_expected(serialized, holders, envelope, current, course, end, index);
        assert(is_step(course, end, index));
    }
}

proof fn lemma_goes_on_until<B, T, V, E>(
    serialized: Seq<u8>,
    holders: Seq<StructuredCloneTransferData<B, T>>,
    envelope: Option<EnvelopeFormat>,
    current: u32,
    course: Seq<Step<B, T, V, E>>,
    end: DeserializationView<B, T, V, E>,
    index: int,
)
    requires
        is_receiving(course, deserialization_start(serialized, holders, envelope, current), end),
        index < course.len(),
    ensures
        goes_on_until(course, index),
    decreases index,
{
    if index > 0 {
        lemma_goes_on_until(serialized, holders, envelope, current, course, end, index - 1);
        lemma_expected(serialized, holders, envelope, current, course, end, index - 1);
        assert(is_step(course, end, index - 1));
        assert(is_step(course, end, index));
    }
}

/// What a deserialization makes of a reply is a step more in its course.
pub proof fn lemma_receiving_resumes<B, T, V, E>(
    course: Seq<Step<B, T, V, E>>,
    start: DeserializationView<B, T, V, E>,
    deserialization: &mut StructuredDeserialization<B, T, V, E>,
    reply: DeserializationReply<V, E>,
)
    requires
        old(deserialization).wf(),
        is_receiving(course, start, old(deserialization)@),
        old(deserialization)@.accepts(reply),
        call_ensures(
            StructuredDeserialization::<B, T, V, E>::resume,
            (deserialization, reply),
            (),
        ),
    ensures
        final(deserialization).wf(),
        is_receiving(
            course.push(Step { state: old(deserialization)@, reply: Some(reply) }),
            start,
            final(deserialization)@,
        ),
{
    let longer = course.push(Step { state: old(deserialization)@, reply: Some(reply) });
    assert forall|i: int| 0 <= i < longer.len() implies #[trigger] is_step(
        longer,
        final(deserialization)@,
        i,
    ) by {
        if i < course.len() {
            assert(is_step(course, old(deserialization)@, i));
        }
    }
}

/// Taking up data is a step more in the course of a deserialization.
pub proof fn lemma_receiving_takes_up<B, T, V, E>(
    course: Seq<Step<B, T, V, E>>,
    start: DeserializationView<B, T, V, E>,
    deserialization: &mut StructuredDeserialization<B, T, V, E>,
    data: StructuredCloneTransferData<B, T>,
)
    requires
        old(deserialization).wf(),
        is_receiving(course, start, old(deserialization)@),
        old(deserialization)@.stage is TakeUp,
        call_ensures(
            StructuredDeserialization::<B, T, V, E>::take_up,
            (deserialization,),
            data,
        ),
    ensures
        final(deserialization).wf(),
        is_receiving(
            course.push(Step { state: old(deserialization)@, reply: None }),
            start,
            final(deserialization)@,
        ),
{
    let longer = course.push(Step { state: old(deserialization)@, reply: None });
    assert forall|i: int| 0 <= i < longer.len() implies #[trigger] is_step(
        longer,
        final(deserialization)@,
        i,
    ) by {
        if i < course.len() {
            assert(is_step(course, old(deserialization)@, i));
        }
    }
}

/// A deserialization starts with an empty course.
pub proof fn lemma_receiving_starts<B, T, V, E>(
    result: StructuredSerializeWithTransferResult<B, T>,
    current: u32,
    deserialization: StructuredDeserialization<B, T, V, E>,
)
    requires
        call_ensures(
            structured_deserialize_with_transfer::<B, T, V, E>,
            (result, current),
            deserialization,
        ),
    ensures
        deserialization.wf(),
        is_receiving::<B, T, V, E>(
            Seq::empty(),
            deserialization_start(
                result.serialized@,
                result.transfer_data_holders@,
                Some(EnvelopeFormat::Magic),
                current,
            ),
            deserialization@,
        ),
        result.transfer_data_holders@.len() > 0 ==> deserialization@.stage is TakeUp,
{
}

/// Bytes that nothing was transferred with are read at once.
pub proof fn lemma_stored_receiving_starts<B, T, V, E>(
    serialized: Vec<u8>,
    current: u32,
    deserialization: StructuredDeserialization<B, T, V, E>,
)
    requires
        call_ensures(
            structured_deserialize::<B, T, V, E>,
            (serialized, current),
            deserialization,
        ),
    ensures
        deserialization.wf(),
        is_receiving::<B, T, V, E>(
            Seq::empty(),
            deserialization_start(
                serialized@,
                Seq::empty(),
                Some(EnvelopeFormat::Magic),
                current,
            ),
            deserialization@,
        ),
        deserialization@.stage is Header || deserialization@.stage is Failed,
{
}

/// The entries of the transfer list arrive as what they were when they were sent, so
/// that both sides count the same `ArrayBuffer`s and the same host objects.
pub proof fn lemma_entries_arrive<B, T, E, V, F>(
    kind: ValueKind,
    count: nat,
    envelope: Option<EnvelopeFormat>,
    version: u32,
    sent: Seq<Exchange<B, T, E>>,
    done: SerializationView<B, T, E>,
    current: u32,
    course: Seq<Step<B, T, V, F>>,
    state: DeserializationView<B, T, V, F>,
)
    requires
        is_course(sent, serialization_start(kind, count, envelope, version), done),
        done.stage is Finished,
        favourable_until(sent, sent.len() as int),
        is_receiving(
            course,
            deserialization_start(done.serialized, done.holders, envelope, current),
            state,
        ),
        goes_on_until(course, course.len() as int),
        state.stage is Value || state.stage is Finished,
    ensures
        state.values.len() == count,
        state.received.len() == count,
        state.received == done.prepared,
        forall|e: int|
            0 <= e < count ==> (#[trigger] state.received[e] is HostObject <==> is_object_entry(
                sent,
                e,
            )),
{
    lemma_favourable_end(kind, count, envelope, version, sent, done);
    lemma_expected(
        done.serialized,
        done.holders,
        envelope,
        current,
        course,
        state,
        course.len() as int,
    );
    assert forall|e: int| 0 <= e < count implies #[trigger] state.received[e]
        == done.prepared[e] by {
        let _ = done.holders[e];
        let _ = state.values[e];
    }
    assert(state.received =~= done.prepared);
}

/// What is asked for, step by step.
pub proof fn lemma_asked_for<B, T, V, E>(
    deserialization: StructuredDeserialization<B, T, V, E>,
    request: DeserializationRequest,
)
    requires
        call_ensures(
            StructuredDeserialization::<B, T, V, E>::request,
            (&deserialization,),
            request,
        ),
    ensures
        request is TakeUp <==> deserialization@.stage is TakeUp,
        request is Receive <==> deserialization@.stage is Receive,
        request is ReadHeader <==> deserialization@.stage is Header,
        request is ReadValue <==> deserialization@.stage is Value,
        request is Finished <==> deserialization@.stage is Finished
            || deserialization@.stage is Failed,
{
}

/// What is taken up is the first data that is left, and it is left no longer.
pub proof fn lemma_taken_up<B, T, V, E>(
    deserialization: &mut StructuredDeserialization<B, T, V, E>,
    data: StructuredCloneTransferData<B, T>,
)
    requires
        old(deserialization)@.pending.len() > 0,
        call_ensures(
            StructuredDeserialization::<B, T, V, E>::take_up,
            (deserialization,),
            data,
        ),
    ensures
        old(deserialization)@.pending == seq![data] + final(deserialization)@.pending,
        final(deserialization)@.values == old(deserialization)@.values,
{
    assert(old(deserialization)@.pending =~= seq![data] + final(deserialization)@.pending);
}

/// The result holds the value and the objects, or is the failure.
pub proof fn lemma_outcome<B, T, V, E>(
    deserialization: StructuredDeserialization<B, T, V, E>,
    outcome: Result<StructuredDeserializeWithTransferResult<V>, Failure<E>>,
)
    requires
        deserialization@.stage is Finished || deserialization@.stage is Failed,
        call_ensures(
            StructuredDeserialization::<B, T, V, E>::finish,
            (deserialization,),
            outcome,
        ),
    ensures
        match outcome {
            Ok(result) => deserialization@.stage == DeserializationStage::<V, E>::Finished(
                result.deserialized,
            ) && result.transferred_values@ == deserialization@.values,
            Err(failure) => deserialization@.stage == DeserializationStage::<V, E>::Failed(failure),
        },
{
}

/// What is asked for is answered by a reply of its own kind, and by no other.
pub proof fn lemma_received_replies<B, T, V, E>(
    state: DeserializationView<B, T, V, E>,
    reply: DeserializationReply<V, E>,
)
    ensures
        state.accepts(reply) <==> match reply {
            DeserializationReply::Received(_) => state.stage is Receive,
            DeserializationReply::Header(_) => state.stage is Header,
            DeserializationReply::Value(_) => state.stage is Value,
        },
{
}

/// A host object is found by the number that it was given when it was sent: the number
/// of an entry stands for the object that was made of the data of that entry.
pub proof fn lemma_host_numbers_stand_for_entries<B, T, E, V, F>(
    kind: ValueKind,
    count: nat,
    envelope: Option<EnvelopeFormat>,
    version: u32,
    sent: Seq<Exchange<B, T, E>>,
    done: SerializationView<B, T, E>,
    current: u32,
    course: Seq<Step<B, T, V, F>>,
    deserialization: StructuredDeserialization<B, T, V, F>,
    objects: &[usize],
    entry: nat,
)
    requires
        is_course(sent, serialization_start(kind, count, envelope, version), done),
        done.stage is Finished,
        favourable_until(sent, sent.len() as int),
        deserialization.wf(),
        is_receiving(
            course,
            deserialization_start(done.serialized, done.holders, envelope, current),
            deserialization@,
        ),
        goes_on_until(course, course.len() as int),
        deserialization@.stage is Value || deserialization@.stage is Finished,
        call_ensures(
            StructuredDeserialization::<B, T, V, F>::host_objects,
            (&deserialization,),
            objects,
        ),
        entry < count,
        is_object_entry(sent, entry as int),
    ensures
        objects@.len() == objects_before(sent, count),
        objects_before(sent, entry) < objects@.len(),
        objects@[objects_before(sent, entry) as int] == entry,
{
    lemma_entries_arrive(
        kind,
        count,
        envelope,
        version,
        sent,
        done,
        current,
        course,
        deserialization@,
    );
    lemma_places_of_objects(sent, deserialization@.received, entry);
}

} // verus!
