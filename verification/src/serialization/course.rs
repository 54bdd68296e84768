//! What an embedder sees of a serialization: the requests that it gets, one after
//! the other, and where they lead, told by nothing but its replies.

use vstd::prelude::*;

use crate::serialization::envelope::EnvelopeFormat;
use crate::serialization::error::{CloneError, Failure};
use crate::serialization::serialize::{
    places, request_of, serialization_start, structured_serialize_internal,
    structured_serialize_with_transfer, PreparedTransfer, SerializationReply,
    SerializationRequest, SerializationStage, SerializationView, StructuredCloneTransferData,
    StructuredSerialization, StructuredSerializeWithTransferResult, TransferKind,
};
use crate::value::ValueKind;

verus! {

/// A request and the reply to it, with the serialization that made the request.
pub ghost struct Exchange<B, T, E> {
    pub state: SerializationView<B, T, E>,
    pub request: SerializationRequest,
    pub reply: SerializationReply<B, T, E>,
}

/// The serialization before the exchange at `index`, or after the last.
pub open spec fn state_at<B, T, E>(
    course: Seq<Exchange<B, T, E>>,
    end: SerializationView<B, T, E>,
    index: int,
) -> SerializationView<B, T, E> {
    if index < course.len() {
        course[index].state
    } else {
        end
    }
}

/// Whether the exchange at `index` holds a request that the serialization makes, a
/// reply that it takes, and what the reply makes of it comes next.
pub open spec fn is_exchange<B, T, E>(
    course: Seq<Exchange<B, T, E>>,
    end: SerializationView<B, T, E>,
    index: int,
) -> bool {
    let exchange = course[index];
    &&& request_of(exchange.state, exchange.request)
    &&& exchange.state.accepts(exchange.reply)
    &&& state_at(course, end, index + 1) == exchange.state.after(exchange.reply)
}

/// Whether the exchanges lead from `start` to `end`.
pub open spec fn is_course<B, T, E>(
    course: Seq<Exchange<B, T, E>>,
    start: SerializationView<B, T, E>,
    end: SerializationView<B, T, E>,
) -> bool {
    &&& state_at(course, end, 0) == start
    &&& forall|i: int| 0 <= i < course.len() ==> #[trigger] is_exchange(course, end, i)
}

/// Whether a reply lets the serialization go on.
pub open spec fn is_favourable<B, T, E>(reply: SerializationReply<B, T, E>) -> bool {
    match reply {
        SerializationReply::Seen(seen) => seen != Some(true),
        SerializationReply::Added(added) => added,
        SerializationReply::Kind(kind) => kind != TransferKind::Other,
        SerializationReply::Detached(detached) => !detached,
        SerializationReply::Validated(valid) => valid == Ok::<bool, E>(true),
        SerializationReply::Numbered(numbered) => numbered,
        SerializationReply::Written(outcome) => !outcome.caught && !outcome.terminated
            && outcome.written == Some(true),
        SerializationReply::Released(bytes) => bytes@.len() > 0,
        SerializationReply::DetachState { detached, detachable } => !detached && detachable,
        SerializationReply::BackingStore { store, detached } => detached == Some(true),
        SerializationReply::Transferred(data) => data is Ok,
    }
}

/// Whether the first `count` replies all let the serialization go on.
pub open spec fn favourable_until<B, T, E>(course: Seq<Exchange<B, T, E>>, count: int) -> bool {
    forall|i: int| 0 <= i < count ==> is_favourable((#[trigger] course[i]).reply)
}

/// Whether the embedder called the entry an object that is no `ArrayBuffer`.
pub open spec fn is_object_entry<B, T, E>(course: Seq<Exchange<B, T, E>>, entry: int) -> bool {
    course[4 * entry + 2].reply == SerializationReply::<B, T, E>::Kind(TransferKind::Object)
}

/// How many of the entries before `entry` are such objects.
pub open spec fn objects_before<B, T, E>(course: Seq<Exchange<B, T, E>>, entry: nat) -> nat
    decreases entry,
{
    if entry == 0 {
        0
    } else {
        objects_before(course, (entry - 1) as nat) + if is_object_entry(course, entry - 1) {
            1nat
        } else {
            0nat
        }
    }
}

/// Where the transfers start in a favourable course of `count` entries: behind four
/// exchanges for each entry, the numbers, the value and the bytes.
pub open spec fn transfers_from<B, T, E>(course: Seq<Exchange<B, T, E>>, count: nat) -> int {
    (4 * count + objects_before(course, count) + 2) as int
}

spec fn course_sorts<B, T, E>(course: Seq<Exchange<B, T, E>>, count: nat) -> Seq<
    PreparedTransfer,
> {
    Seq::new(
        count,
        |e: int|
            if is_object_entry(course, e) {
                PreparedTransfer::HostObject
            } else {
                PreparedTransfer::ArrayBuffer
            },
    )
}

spec fn data_of<B, T, E>(reply: SerializationReply<B, T, E>) -> StructuredCloneTransferData<B, T> {
    match reply {
        SerializationReply::BackingStore { store, .. } => {
            StructuredCloneTransferData::ArrayBuffer(store)
        },
        SerializationReply::Transferred(data) => StructuredCloneTransferData::HostObject(
            data->Ok_0,
        ),
        _ => arbitrary(),
    }
}

spec fn course_holders<B, T, E>(
    course: Seq<Exchange<B, T, E>>,
    count: nat,
    done: nat,
) -> Seq<StructuredCloneTransferData<B, T>> {
    Seq::new(done, |e: int| data_of(course[transfers_from(course, count) + 2 * e + 1].reply))
}

/// Where a favourable course stands at `index`.
spec fn expected_state<B, T, E>(
    course: Seq<Exchange<B, T, E>>,
    fresh: SerializationView<B, T, E>,
    index: int,
) -> SerializationView<B, T, E> {
    let count = fresh.transfer_count;
    let objects = objects_before(course, count);
    let all = SerializationView { prepared: course_sorts(course, count), ..fresh };
    if index < 4 * count {
        let entry = index / 4;
        let entered = SerializationView {
            prepared: course_sorts(course, entry as nat),
            ..fresh
        };
        if index % 4 == 0 {
            entered.at(SerializationStage::LookUp)
        } else if index % 4 == 1 {
            entered.at(SerializationStage::Add)
        } else if index % 4 == 2 {
            entered.at(SerializationStage::Classify)
        } else if is_object_entry(course, entry) {
            entered.at(SerializationStage::HostObject)
        } else {
            entered.at(SerializationStage::ArrayBuffer)
        }
    } else if index == 4 * count && fresh.kind is Symbol {
        all.at(SerializationStage::Failed(Failure::Clone(CloneError::Symbol)))
    } else if index < 4 * count + objects {
        let number = index - 4 * count;
        if number <= u32::MAX {
            all.at(SerializationStage::Number(number as usize))
        } else {
            all.at(SerializationStage::Failed(Failure::Clone(CloneError::TooManyHostObjects)))
        }
    } else if index == 4 * count + objects {
        all.at(SerializationStage::Graph)
    } else if index == 4 * count + objects + 1 {
        all.at(SerializationStage::Release)
    } else {
        let step = index - transfers_from(course, count);
        let entry = step / 2;
        let released = SerializationView {
            serialized: course[transfers_from(course, count) - 1].reply->Released_0@,
            holders: course_holders(course, count, entry as nat),
            ..all
        };
        if entry >= count {
            released.at(SerializationStage::Finished)
        } else if is_object_entry(course, entry) {
            if step % 2 == 0 {
                released.at(SerializationStage::RecheckHostObject)
            } else {
                released.at(SerializationStage::Transfer)
            }
        } else {
            if step % 2 == 0 {
                released.at(SerializationStage::RecheckArrayBuffer)
            } else {
                released.at(SerializationStage::Detach)
            }
        }
    }
}

spec fn fresh_state<B, T, E>(
    kind: ValueKind,
    count: nat,
    envelope: Option<EnvelopeFormat>,
    version: u32,
) -> SerializationView<B, T, E> {
    SerializationView {
        transfer_count: count,
        kind,
        envelope,
        version,
        prepared: Seq::empty(),
        serialized: Seq::empty(),
        holders: Seq::empty(),
        stage: SerializationStage::LookUp,
    }
}

proof fn lemma_object_places<B, T, E>(course: Seq<Exchange<B, T, E>>, count: nat)
    ensures
        ({
            let found = places(course_sorts(course, count), PreparedTransfer::HostObject);
            &&& found.len() == objects_before(course, count)
            &&& forall|k: int|
                0 <= k < found.len() ==> (#[trigger] found[k]) < count && is_object_entry(
                    course,
                    found[k] as int,
                ) && objects_before(course, found[k]) == k
        }),
    decreases count,
{
    if count > 0 {
        lemma_object_places(course, (count - 1) as nat);
        let sorts = course_sorts(course, count);
        assert(sorts.drop_last() == course_sorts(course, (count - 1) as nat));
        assert(sorts.last() == sorts[count - 1]);
    }
}

#[verifier::rlimit(40)]
proof fn lemma_entry_step<B, T, E>(
    course: Seq<Exchange<B, T, E>>,
    fresh: SerializationView<B, T, E>,
    end: SerializationView<B, T, E>,
    index: int,
)
    requires
        is_course(course, fresh.next_entry(), end),
        fresh.prepared == Seq::<PreparedTransfer>::empty(),
        fresh.serialized == Seq::<u8>::empty(),
        fresh.holders == Seq::<StructuredCloneTransferData<B, T>>::empty(),
        0 <= index < course.len(),
        index < 4 * fresh.transfer_count,
        favourable_until(course, index + 1),
        course[index].state == expected_state(course, fresh, index),
    ensures
        state_at(course, end, index + 1) == expected_state(course, fresh, index + 1),
{
    let count = fresh.transfer_count;
    let entry = index / 4;
    let state = course[index].state;
    let reply = course[index].reply;
    assert(is_favourable(reply));
    assert(is_exchange(course, end, index));
    assert(state_at(course, end, index + 1) == state.after(reply));
    assert(index == 4 * entry + index % 4);
    if index % 4 == 2 {
        assert(course[4 * entry + 2].reply == reply);
        assert(is_object_entry(course, entry) <==> reply == SerializationReply::<B, T, E>::Kind(
            TransferKind::Object,
        ));
    } else if index % 4 == 3 {
        let sort = if is_object_entry(course, entry) {
            PreparedTransfer::HostObject
        } else {
            PreparedTransfer::ArrayBuffer
        };
        let sorts = course_sorts(course, entry as nat);
        assert(sorts.push(sort) == course_sorts(course, (entry + 1) as nat));
        assert(state.after(reply) == state.accept(sort));
        assert((index + 1) / 4 == entry + 1 && (index + 1) % 4 == 0);
        if entry + 1 == count {
            lemma_object_places(course, count);
        }
    }
}

#[verifier::rlimit(40)]
proof fn lemma_later_step<B, T, E>(
    course: Seq<Exchange<B, T, E>>,
    fresh: SerializationView<B, T, E>,
    end: SerializationView<B, T, E>,
    index: int,
)
    requires
        is_course(course, fresh.next_entry(), end),
        fresh.prepared == Seq::<PreparedTransfer>::empty(),
        fresh.serialized == Seq::<u8>::empty(),
        fresh.holders == Seq::<StructuredCloneTransferData<B, T>>::empty(),
        0 <= index < course.len(),
        index >= 4 * fresh.transfer_count,
        favourable_until(course, index + 1),
        course[index].state == expected_state(course, fresh, index),
    ensures
        state_at(course, end, index + 1) == expected_state(course, fresh, index + 1),
{
    let count = fresh.transfer_count;
    let objects = objects_before(course, count);
    let state = course[index].state;
    let reply = course[index].reply;
    assert(is_favourable(reply));
    assert(is_exchange(course, end, index));
    assert(state.accepts(reply));
    assert(state_at(course, end, index + 1) == state.after(reply));
    lemma_object_places(course, count);
    let first = transfers_from(course, count);
    if index == first - 1 {
        assert(state.stage is Release);
        assert(course_holders(course, count, 0) == Seq::<
            StructuredCloneTransferData<B, T>,
        >::empty());
        if count > 0 {
            assert(course_sorts(course, count)[0] == if is_object_entry(course, 0) {
                PreparedTransfer::HostObject
            } else {
                PreparedTransfer::ArrayBuffer
            });
        }
    } else if index >= first {
        let step = index - first;
        let entry = step / 2;
        assert(entry < count);
        if step % 2 == 1 {
            assert(step == 2 * entry + 1);
            assert((step + 1) / 2 == entry + 1 && (step + 1) % 2 == 0);
            let holders = course_holders(course, count, entry as nat);
            let more = course_holders(course, count, (entry + 1) as nat);
            assert(course[first + 2 * entry + 1].reply == reply);
            assert(holders.push(data_of(reply)) == more);
            assert(state.after(reply) == state.receive(data_of(reply)));
            if entry + 1 < count {
                assert(course_sorts(course, count)[entry + 1] == if is_object_entry(
                    course,
                    entry + 1,
                ) {
                    PreparedTransfer::HostObject
                } else {
                    PreparedTransfer::ArrayBuffer
                });
            }
        } else {
            assert((step + 1) / 2 == entry && (step + 1) % 2 == 1);
        }
    }
}

#[verifier::rlimit(40)]
proof fn lemma_state<B, T, E>(
    course: Seq<Exchange<B, T, E>>,
    fresh: SerializationView<B, T, E>,
    end: SerializationView<B, T, E>,
    index: int,
)
    requires
        is_course(course, fresh.next_entry(), end),
        fresh.prepared == Seq::<PreparedTransfer>::empty(),
        fresh.serialized == Seq::<u8>::empty(),
        fresh.holders == Seq::<StructuredCloneTransferData<B, T>>::empty(),
        0 <= index <= course.len(),
        favourable_until(course, index),
    ensures
        state_at(course, end, index) == expected_state(course, fresh, index),
    decreases index,
{
    if index == 0 {
        assert(course_sorts(course, 0) == Seq::<PreparedTransfer>::empty());
        lemma_object_places(course, fresh.transfer_count);
    } else {
        lemma_state(course, fresh, end, index - 1);
        if index - 1 < 4 * fresh.transfer_count {
            lemma_entry_step(course, fresh, end, index - 1);
        } else {
            lemma_later_step(course, fresh, end, index - 1);
        }
    }
}

/// The embedder is led through a transfer list entry by entry. Each entry is looked
/// up among those seen before, added to them, classified and tried. Then the objects
/// that are no `ArrayBuffer` are numbered from zero in the order of the list, the
/// value is written and its bytes are released, and the entries are tried once more
/// and transferred, entry by entry. A symbol gets no further than the list.
#[verifier::rlimit(40)]
pub proof fn lemma_requests<B, T, E>(
    kind: ValueKind,
    count: nat,
    envelope: Option<EnvelopeFormat>,
    version: u32,
    course: Seq<Exchange<B, T, E>>,
    end: SerializationView<B, T, E>,
    index: int,
)
    requires
        is_course(course, serialization_start(kind, count, envelope, version), end),
        0 <= index < course.len(),
        favourable_until(course, index),
    ensures
        course[index].state.envelope == envelope,
        course[index].state.version == version,
        index >= 4 * count ==> {
            let prepared = course[index].state.prepared;
            &&& prepared.len() == count
            &&& forall|e: int|
                0 <= e < count ==> (#[trigger] prepared[e] is HostObject <==> is_object_entry(
                    course,
                    e,
                ))
        },
        ({
            let request = course[index].request;
            let numbering = 4 * count;
            let writing = numbering + objects_before(course, count);
            let transferring = writing + 2;
            let step = index - transferring;
            if index < numbering {
                if index % 4 == 0 {
                    request matches SerializationRequest::HasSeen { entry } && entry == index / 4
                } else if index % 4 == 1 {
                    request matches SerializationRequest::AddSeen { entry } && entry == index / 4
                } else if index % 4 == 2 {
                    request matches SerializationRequest::Classify { entry } && entry == index / 4
                } else if course[index - 1].reply == SerializationReply::<B, T, E>::Kind(
                    TransferKind::ArrayBuffer,
                ) {
                    request matches SerializationRequest::WasDetached { entry } && entry == index
                        / 4
                } else {
                    request matches SerializationRequest::ValidateHostObject { entry } && entry
                        == index / 4
                }
            } else {
                &&& !(kind is Symbol)
                &&& index < transferring + 2 * count
                &&& if index < writing {
                    request matches SerializationRequest::NumberHostObject { entry, transfer_id }
                        && transfer_id == index - numbering && entry < count && is_object_entry(
                        course,
                        entry as int,
                    ) && objects_before(course, entry as nat) == index - numbering
                } else if index == writing {
                    request is WriteGraph
                } else if index == writing + 1 {
                    request is Release
                } else if is_object_entry(course, step / 2) {
                    if step % 2 == 0 {
                        request matches SerializationRequest::ValidateHostObject { entry } && entry
                            == step / 2
                    } else {
                        request matches SerializationRequest::TransferHostObject { entry } && entry
                            == step / 2
                    }
                } else {
                    if step % 2 == 0 {
                        request matches SerializationRequest::DetachState { entry } && entry
                            == step / 2
                    } else {
                        request matches SerializationRequest::Detach { entry } && entry == step / 2
                    }
                }
            }
        }),
{
    let fresh = fresh_state::<B, T, E>(kind, count, envelope, version);
    assert(serialization_start::<B, T, E>(kind, count, envelope, version) == fresh.next_entry());
    lemma_state(course, fresh, end, index);
    assert(is_exchange(course, end, index));
    lemma_object_places(course, count);
    if index < 4 * count && index % 4 == 3 {
        assert(index - 1 == 4 * (index / 4) + 2);
        lemma_state(course, fresh, end, index - 1);
        assert(is_exchange(course, end, index - 1));
        assert(is_favourable(course[index - 1].reply));
    } else if index >= 4 * count {
        lemma_state(course, fresh, end, 4 * count as int);
        assert(is_exchange(course, end, 4 * count as int));
        if index < 4 * count + objects_before(course, count) {
            let found = places(course_sorts(course, count), PreparedTransfer::HostObject);
            assert(found[index - 4 * count] < count);
        }
    }
}

/// A reply that does not let the serialization go on ends it, with the error that
/// belongs to the request. An exception while the value is written, or no bytes,
/// ends it without an error and without a result.
#[verifier::rlimit(40)]
pub proof fn lemma_end<B, T, E>(
    kind: ValueKind,
    count: nat,
    envelope: Option<EnvelopeFormat>,
    version: u32,
    course: Seq<Exchange<B, T, E>>,
    end: SerializationView<B, T, E>,
)
    requires
        is_course(course, serialization_start(kind, count, envelope, version), end),
        end.stage is Finished || end.stage is Failed,
    ensures
        favourable_until(course, course.len() - 1),
        course.len() > 0 && !is_favourable(course.last().reply) ==> {
            let failed = |error: CloneError| end.stage == SerializationStage::Failed(
                Failure::<E>::Clone(error),
            );
            let ended_empty = end.stage is Finished && end.serialized.len() == 0
                && end.holders.len() == 0;
            match (course.last().request, course.last().reply) {
                (SerializationRequest::HasSeen { .. }, _) => failed(CloneError::DuplicateTransfer),
                (SerializationRequest::AddSeen { .. }, _) => failed(
                    CloneError::UnindexedTransferList,
                ),
                (SerializationRequest::Classify { .. }, _) => failed(CloneError::NotTransferable),
                (SerializationRequest::WasDetached { .. }, _) => failed(
                    CloneError::DetachedArrayBuffer,
                ),
                (
                    SerializationRequest::ValidateHostObject { .. },
                    SerializationReply::Validated(valid),
                ) => match valid {
                    Err(error) => end.stage == SerializationStage::Failed(Failure::Host(error)),
                    Ok(_) => if course.len() <= 4 * count {
                        failed(CloneError::NotTransferable)
                    } else {
                        failed(CloneError::HostObjectChanged)
                    },
                },
                (SerializationRequest::NumberHostObject { .. }, _) => failed(
                    CloneError::UnindexedHostObject,
                ),
                (SerializationRequest::WriteGraph, SerializationReply::Written(outcome)) => {
                    if outcome.caught || outcome.terminated {
                        ended_empty
                    } else {
                        failed(CloneError::SerializationFailed)
                    }
                },
                (SerializationRequest::Release, _) => ended_empty,
                (SerializationRequest::DetachState { .. }, _) => failed(
                    CloneError::ArrayBufferChanged,
                ),
                (SerializationRequest::Detach { .. }, _) => failed(
                    CloneError::ArrayBufferNotDetached,
                ),
                (
                    SerializationRequest::TransferHostObject { .. },
                    SerializationReply::Transferred(data),
                ) => data matches Err(error) && end.stage == SerializationStage::Failed(
                    Failure::Host(error),
                ),
                _ => false,
            }
        },
{
    let fresh = fresh_state::<B, T, E>(kind, count, envelope, version);
    assert(serialization_start::<B, T, E>(kind, count, envelope, version) == fresh.next_entry());
    lemma_goes_on(fresh, course, end, course.len() - 1);
    if course.len() > 0 {
        let index = course.len() - 1;
        lemma_state(course, fresh, end, index);
        assert(is_exchange(course, end, index));
    }
}

/// Replies that all let the serialization go on lead to the bytes that were released
/// and to what became of each entry; only a symbol, or more objects than can be
/// numbered, fails nevertheless.
#[verifier::rlimit(40)]
pub proof fn lemma_favourable_end<B, T, E>(
    kind: ValueKind,
    count: nat,
    envelope: Option<EnvelopeFormat>,
    version: u32,
    course: Seq<Exchange<B, T, E>>,
    end: SerializationView<B, T, E>,
)
    requires
        is_course(course, serialization_start(kind, count, envelope, version), end),
        end.stage is Finished || end.stage is Failed,
        favourable_until(course, course.len() as int),
    ensures
        ({
            let objects = objects_before(course, count);
            let released = 4 * count + objects + 1;
            if kind is Symbol {
                &&& end.stage == SerializationStage::Failed(Failure::<E>::Clone(CloneError::Symbol))
                &&& course.len() == 4 * count
            } else if objects > 0x1_0000_0000 {
                &&& end.stage == SerializationStage::Failed(
                    Failure::<E>::Clone(CloneError::TooManyHostObjects),
                )
                &&& course.len() == 4 * count + 0x1_0000_0000
            } else {
                &&& end.stage is Finished
                &&& course.len() == released + 1 + 2 * count
                &&& course[released as int].reply matches SerializationReply::Released(bytes)
                    && end.serialized == bytes@
                &&& end.prepared.len() == count
                &&& forall|e: int|
                    0 <= e < count ==> (#[trigger] end.prepared[e] is HostObject
                        <==> is_object_entry(course, e))
                &&& end.holders.len() == count
                &&& forall|e: int|
                    #![trigger end.holders[e]]
                    0 <= e < count ==> match course[released + 2 * e + 2].reply {
                        SerializationReply::BackingStore { store, .. } => {
                            &&& !is_object_entry(course, e)
                            &&& end.holders[e]
                                == StructuredCloneTransferData::<B, T>::ArrayBuffer(store)
                        },
                        SerializationReply::Transferred(Ok(data)) => {
                            &&& is_object_entry(course, e)
                            &&& end.holders[e] == StructuredCloneTransferData::<B, T>::HostObject(
                                data,
                            )
                        },
                        _ => false,
                    }
            }
        }),
{
    let fresh = fresh_state::<B, T, E>(kind, count, envelope, version);
    assert(serialization_start::<B, T, E>(kind, count, envelope, version) == fresh.next_entry());
    lemma_state(course, fresh, end, course.len() as int);
    let stops = 4 * count + if kind is Symbol {
        0int
    } else {
        0x1_0000_0000
    };
    if course.len() > stops {
        lemma_state(course, fresh, end, stops);
        assert(is_exchange(course, end, stops));
    }
    if end.stage is Finished {
        let first = transfers_from(course, count);
        assert(course.len() >= first);
        lemma_state(course, fresh, end, first - 1);
        assert(is_exchange(course, end, first - 1));
        if course.len() > first + 2 * count {
            lemma_state(course, fresh, end, first + 2 * count);
            assert(is_exchange(course, end, first + 2 * count));
        }
        assert forall|e: int|
            #![trigger end.holders[e]]
            0 <= e < count implies match course[first + 2 * e + 1].reply {
            SerializationReply::BackingStore { store, .. } => !is_object_entry(course, e)
                && end.holders[e] == StructuredCloneTransferData::<B, T>::ArrayBuffer(store),
            SerializationReply::Transferred(Ok(data)) => is_object_entry(course, e)
                && end.holders[e] == StructuredCloneTransferData::<B, T>::HostObject(data),
            _ => false,
        } by {
            let index = first + 2 * e + 1;
            lemma_state(course, fresh, end, index);
            assert(is_exchange(course, end, index));
            assert(is_favourable(course[index].reply));
        }
    }
}

proof fn lemma_goes_on<B, T, E>(
    fresh: SerializationView<B, T, E>,
    course: Seq<Exchange<B, T, E>>,
    end: SerializationView<B, T, E>,
    index: int,
)
    requires
        is_course(course, fresh.next_entry(), end),
        fresh.prepared == Seq::<PreparedTransfer>::empty(),
        fresh.serialized == Seq::<u8>::empty(),
        fresh.holders == Seq::<StructuredCloneTransferData<B, T>>::empty(),
        index < course.len(),
    ensures
        favourable_until(course, index),
    decreases index,
{
    if index > 0 {
        lemma_goes_on(fresh, course, end, index - 1);
        lemma_state(course, fresh, end, index - 1);
        assert(is_exchange(course, end, index - 1));
        assert(is_exchange(course, end, index));
        assert(course[index].state.accepts(course[index].reply));
    }
}

/// Whether the embedder had been asked, before the exchange at `index`, to add an
/// entry that is the given object.
pub open spec fn was_added<B, T, E, O>(
    course: Seq<Exchange<B, T, E>>,
    objects: Seq<O>,
    index: int,
    object: O,
) -> bool {
    exists|j: int|
        0 <= j < index && ((#[trigger] course[j]).request matches SerializationRequest::AddSeen {
            entry,
        } && objects[entry as int] == object)
}

/// Whether the embedder keeps a set of objects, empty at first, for a transfer list
/// of `objects`: an entry is looked up in it, and what is to be added enters it.
pub open spec fn keeps_set<B, T, E, O>(
    course: Seq<Exchange<B, T, E>>,
    objects: Seq<O>,
) -> bool {
    forall|i: int|
        0 <= i < course.len() ==> (
        (#[trigger] course[i]).request matches SerializationRequest::HasSeen { entry }
            ==> course[i].reply == SerializationReply::<B, T, E>::Seen(
            Some(was_added(course, objects, i, objects[entry as int])),
        ))
}

/// Whether an object stands in the list before the entry.
pub open spec fn stands_before<O>(objects: Seq<O>, entry: int) -> bool {
    exists|j: int| 0 <= j < entry && #[trigger] objects[j] == objects[entry]
}

/// Whether the request changes an object of the transfer list, or writes the value.
pub open spec fn acts(request: SerializationRequest) -> bool {
    request is NumberHostObject || request is WriteGraph || request is Release
        || request is DetachState || request is Detach || request is TransferHostObject
}

/// A lookup among the objects seen finds an entry if and only if the same object
/// stands earlier in the transfer list.
pub proof fn lemma_lookup<B, T, E, O>(
    kind: ValueKind,
    objects: Seq<O>,
    envelope: Option<EnvelopeFormat>,
    version: u32,
    course: Seq<Exchange<B, T, E>>,
    end: SerializationView<B, T, E>,
    index: int,
)
    requires
        is_course(course, serialization_start(kind, objects.len(), envelope, version), end),
        keeps_set(course, objects),
        0 <= index < course.len(),
    ensures
        course[index].request matches SerializationRequest::HasSeen { entry } ==> {
            &&& entry == index / 4
            &&& course[index].reply == SerializationReply::<B, T, E>::Seen(
                Some(stands_before(objects, entry as int)),
            )
        },
{
    let count = objects.len();
    let fresh = fresh_state::<B, T, E>(kind, count, envelope, version);
    assert(serialization_start::<B, T, E>(kind, count, envelope, version) == fresh.next_entry());
    lemma_goes_on(fresh, course, end, index);
    lemma_requests(kind, count, envelope, version, course, end, index);
    if let SerializationRequest::HasSeen { entry } = course[index].request {
        assert(index < 4 * count && index % 4 == 0);
        if was_added(course, objects, index, objects[entry as int]) {
            let j = choose|j: int|
                0 <= j < index && ((
                #[trigger] course[j]).request matches SerializationRequest::AddSeen { entry: added }
                    && objects[added as int] == objects[entry as int]);
            lemma_requests(kind, count, envelope, version, course, end, j);
            assert(0 <= j / 4 < entry && objects[j / 4] == objects[entry as int]);
        }
        if stands_before(objects, entry as int) {
            let j = choose|j: int|
                0 <= j < entry && #[trigger] objects[j] == objects[entry as int];
            let added = 4 * j + 1;
            assert(added / 4 == j && added % 4 == 1);
            lemma_requests(kind, count, envelope, version, course, end, added);
            assert(course[added].request is AddSeen);
        }
    }
}

/// A transfer list that names an object twice, at any two places, is refused before
/// the value is written and before anything is detached. It is refused for that
/// reason unless another reply ends the serialization first. A list that names no
/// object twice is never refused for that reason.
#[verifier::rlimit(40)]
pub proof fn lemma_duplicates<B, T, E, O>(
    kind: ValueKind,
    objects: Seq<O>,
    envelope: Option<EnvelopeFormat>,
    version: u32,
    course: Seq<Exchange<B, T, E>>,
    end: SerializationView<B, T, E>,
)
    requires
        is_course(course, serialization_start(kind, objects.len(), envelope, version), end),
        keeps_set(course, objects),
        end.stage is Finished || end.stage is Failed,
    ensures
        (exists|a: int, b: int| 0 <= a < b < objects.len() && objects[a] == objects[b]) ==> {
            &&& end.stage is Failed
            &&& forall|i: int| 0 <= i < course.len() ==> !acts((#[trigger] course[i]).request)
            &&& (forall|i: int|
                0 <= i < course.len() ==> (#[trigger] course[i]).request is HasSeen
                    || is_favourable(course[i].reply)) ==> end.stage == SerializationStage::Failed(
                Failure::<E>::Clone(CloneError::DuplicateTransfer),
            )
        },
        (forall|a: int, b: int| 0 <= a < b < objects.len() ==> objects[a] != objects[b])
            ==> end.stage != SerializationStage::Failed(
            Failure::<E>::Clone(CloneError::DuplicateTransfer),
        ),
{
    let count = objects.len();
    lemma_end(kind, count, envelope, version, course, end);
    let all = favourable_until(course, course.len() as int);
    if all {
        lemma_favourable_end(kind, count, envelope, version, course, end);
    } else {
        let last = course.len() - 1;
        lemma_lookup(kind, objects, envelope, version, course, end, last);
        lemma_requests(kind, count, envelope, version, course, end, last);
    }
    if exists|a: int, b: int| 0 <= a < b < objects.len() && objects[a] == objects[b] {
        let (a, b) = choose|a: int, b: int|
            0 <= a < b < objects.len() && objects[a] == objects[b];
        assert(stands_before(objects, b));
        let found = 4 * b;
        assert(found / 4 == b && found % 4 == 0);
        if found < course.len() {
            lemma_requests(kind, count, envelope, version, course, end, found);
            lemma_lookup(kind, objects, envelope, version, course, end, found);
            assert(!is_favourable(course[found].reply));
        }
        assert(!all);
        assert(course.len() <= found + 1);
        assert forall|i: int|
            0 <= i < course.len() implies !acts((#[trigger] course[i]).request) by {
            lemma_requests(kind, count, envelope, version, course, end, i);
        }
    }
}

/// A symbol never comes to bytes: the serialization fails, for the symbol or for what
/// was found in the transfer list, before anything is detached. No other value fails
/// for being a symbol.
#[verifier::rlimit(40)]
pub proof fn lemma_symbol<B, T, E>(
    kind: ValueKind,
    count: nat,
    envelope: Option<EnvelopeFormat>,
    version: u32,
    course: Seq<Exchange<B, T, E>>,
    end: SerializationView<B, T, E>,
)
    requires
        is_course(course, serialization_start(kind, count, envelope, version), end),
        end.stage is Finished || end.stage is Failed,
    ensures
        end.stage == SerializationStage::Failed(Failure::<E>::Clone(CloneError::Symbol))
            ==> kind is Symbol,
        kind is Symbol ==> {
            &&& end.stage is Failed
            &&& end.serialized.len() == 0
            &&& end.holders.len() == 0
            &&& forall|i: int| 0 <= i < course.len() ==> !acts((#[trigger] course[i]).request)
            &&& favourable_until(course, course.len() as int) ==> end.stage
                == SerializationStage::Failed(Failure::<E>::Clone(CloneError::Symbol))
        },
{
    lemma_end(kind, count, envelope, version, course, end);
    let fresh = fresh_state::<B, T, E>(kind, count, envelope, version);
    assert(serialization_start::<B, T, E>(kind, count, envelope, version) == fresh.next_entry());
    if favourable_until(course, course.len() as int) {
        lemma_favourable_end(kind, count, envelope, version, course, end);
        lemma_state(course, fresh, end, course.len() as int);
    } else {
        let last = course.len() - 1;
        lemma_requests(kind, count, envelope, version, course, end, last);
        lemma_state(course, fresh, end, last);
        assert(is_exchange(course, end, last));
    }
    if kind is Symbol {
        assert forall|i: int|
            0 <= i < course.len() implies !acts((#[trigger] course[i]).request) by {
            lemma_requests(kind, count, envelope, version, course, end, i);
        }
    }
}

/// What a serialization asks for and what it makes of the reply is an exchange more
/// in its course.
pub proof fn lemma_course_grows<B, T, E>(
    course: Seq<Exchange<B, T, E>>,
    start: SerializationView<B, T, E>,
    serialization: &mut StructuredSerialization<B, T, E>,
    request: SerializationRequest,
    reply: SerializationReply<B, T, E>,
)
    requires
        old(serialization).wf(),
        is_course(course, start, old(serialization)@),
        old(serialization)@.accepts(reply),
        call_ensures(
            StructuredSerialization::<B, T, E>::request,
            (&*old(serialization),),
            request,
        ),
        call_ensures(StructuredSerialization::<B, T, E>::resume, (serialization, reply), ()),
    ensures
        final(serialization).wf(),
        is_course(
            course.push(Exchange { state: old(serialization)@, request, reply }),
            start,
            final(serialization)@,
        ),
{
    let longer = course.push(Exchange { state: old(serialization)@, request, reply });
    assert forall|i: int| 0 <= i < longer.len() implies #[trigger] is_exchange(
        longer,
        final(serialization)@,
        i,
    ) by {
        if i < course.len() {
            assert(is_exchange(course, old(serialization)@, i));
        }
    }
}

/// A serialization starts with an empty course: a value without a transfer list at
/// the value, unless it is a symbol, and another at its list.
pub proof fn lemma_course_starts<B, T, E>(
    kind: ValueKind,
    count: usize,
    version: u32,
    serialization: StructuredSerialization<B, T, E>,
)
    requires
        call_ensures(
            structured_serialize_with_transfer::<B, T, E>,
            (kind, count, version),
            serialization,
        ),
    ensures
        serialization.wf(),
        is_course::<B, T, E>(
            Seq::empty(),
            serialization_start(kind, count as nat, Some(EnvelopeFormat::Magic), version),
            serialization@,
        ),
        serialization@.envelope == Some(EnvelopeFormat::Magic),
        serialization@.version == version,
        count > 0 ==> serialization@.stage is LookUp,
        count == 0 && !(kind is Symbol) ==> serialization@.stage is Graph,
        count == 0 && kind is Symbol ==> serialization@.stage == SerializationStage::Failed(
            Failure::<E>::Clone(CloneError::Symbol),
        ),
{
}

/// A value that is to be stored is serialized as one without a transfer list.
pub proof fn lemma_stored_course_starts<B, T, E>(
    kind: ValueKind,
    version: u32,
    serialization: StructuredSerialization<B, T, E>,
)
    requires
        call_ensures(
            structured_serialize_internal::<B, T, E>,
            (kind, version),
            serialization,
        ),
    ensures
        serialization.wf(),
        is_course::<B, T, E>(
            Seq::empty(),
            serialization_start(kind, 0, Some(EnvelopeFormat::Magic), version),
            serialization@,
        ),
        serialization@.envelope == Some(EnvelopeFormat::Magic),
        serialization@.version == version,
        !(kind is Symbol) ==> serialization@.stage is Graph,
        kind is Symbol ==> serialization@.stage == SerializationStage::Failed(
            Failure::<E>::Clone(CloneError::Symbol),
        ),
{
}

/// The result holds the bytes and the data of the entries, or is the failure.
pub proof fn lemma_outcome<B, T, E>(
    serialization: StructuredSerialization<B, T, E>,
    outcome: Result<StructuredSerializeWithTransferResult<B, T>, Failure<E>>,
)
    requires
        serialization.wf(),
        serialization@.stage is Finished || serialization@.stage is Failed,
        call_ensures(StructuredSerialization::<B, T, E>::finish, (serialization,), outcome),
    ensures
        match outcome {
            Ok(result) => serialization@.stage is Finished && result.serialized@
                == serialization@.serialized && result.transfer_data_holders@
                == serialization@.holders,
            Err(failure) => serialization@.stage == SerializationStage::Failed(failure),
        },
{
}

/// Every request but the last takes the replies that answer it, and no others.
pub proof fn lemma_replies<B, T, E>(
    state: SerializationView<B, T, E>,
    request: SerializationRequest,
    reply: SerializationReply<B, T, E>,
)
    requires
        request_of(state, request),
    ensures
        state.accepts(reply) <==> match request {
            SerializationRequest::HasSeen { .. } => reply is Seen,
            SerializationRequest::AddSeen { .. } => reply is Added,
            SerializationRequest::Classify { .. } => reply is Kind,
            SerializationRequest::WasDetached { .. } => reply is Detached,
            SerializationRequest::ValidateHostObject { .. } => reply is Validated,
            SerializationRequest::NumberHostObject { .. } => reply is Numbered,
            SerializationRequest::WriteGraph => reply is Written,
            SerializationRequest::Release => reply is Released,
            SerializationRequest::DetachState { .. } => reply is DetachState,
            SerializationRequest::Detach { .. } => reply is BackingStore,
            SerializationRequest::TransferHostObject { .. } => reply is Transferred,
            SerializationRequest::Finished => false,
        },
        request is Finished <==> state.stage is Finished || state.stage is Failed,
{
}

/// A value that is no symbol is serialized where every reply lets it: the result is
/// the bytes that the embedder released, with the data of every entry.
pub proof fn lemma_serialized_value<B, T, E>(
    kind: ValueKind,
    count: nat,
    envelope: Option<EnvelopeFormat>,
    version: u32,
    course: Seq<Exchange<B, T, E>>,
    serialization: StructuredSerialization<B, T, E>,
    outcome: Result<StructuredSerializeWithTransferResult<B, T>, Failure<E>>,
)
    requires
        serialization.wf(),
        is_course(
            course,
            serialization_start(kind, count, envelope, version),
            serialization@,
        ),
        serialization@.stage is Finished || serialization@.stage is Failed,
        favourable_until(course, course.len() as int),
        !(kind is Symbol),
        objects_before(course, count) <= 0x1_0000_0000,
        call_ensures(StructuredSerialization::<B, T, E>::finish, (serialization,), outcome),
    ensures
        outcome matches Ok(result) && {
            let last = course[transfers_from(course, count) - 1];
            &&& result.transfer_data_holders@.len() == count
            &&& last.reply matches SerializationReply::Released(bytes) && result.serialized@
                == bytes@
        },
{
    lemma_favourable_end(kind, count, envelope, version, course, serialization@);
}

/// The places of the objects in a list are found by how many objects stand before
/// them.
pub proof fn lemma_places_of_objects<B, T, E>(
    course: Seq<Exchange<B, T, E>>,
    prepared: Seq<PreparedTransfer>,
    entry: nat,
)
    requires
        forall|e: int|
            0 <= e < prepared.len() ==> (#[trigger] prepared[e] is HostObject <==> is_object_entry(
                course,
                e,
            )),
    ensures
        places(prepared, PreparedTransfer::HostObject).len() == objects_before(
            course,
            prepared.len(),
        ),
        entry < prepared.len() && is_object_entry(course, entry as int) ==> {
            let number = objects_before(course, entry) as int;
            &&& number < places(prepared, PreparedTransfer::HostObject).len()
            &&& places(prepared, PreparedTransfer::HostObject)[number] == entry
        },
    decreases prepared.len(),
{
    if prepared.len() > 0 {
        let before = prepared.drop_last();
        assert forall|e: int| 0 <= e < before.len() implies (#[trigger] before[e] is HostObject
            <==> is_object_entry(course, e)) by {
            assert(before[e] == prepared[e]);
        }
        lemma_places_of_objects(course, before, entry);
        assert(prepared[prepared.len() - 1] == prepared.last());
    }
}

} // verus!
