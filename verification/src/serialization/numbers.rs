//! What the numbers of transferred objects stand for.

use vstd::prelude::*;

use crate::serialization::deserialize::StructuredDeserialization;
use crate::serialization::serialize::{
    lemma_places, places, PreparedTransfer, StructuredSerialization,
};

verus! {

/// Whether the numbers, counted up from zero and cut to 32 bits, stand for the
/// `ArrayBuffer`s of the list: each for one, in order, and none is left out.
pub open spec fn numbers_buffers(
    buffers: Seq<(u32, usize)>,
    list: Seq<PreparedTransfer>,
) -> bool {
    &&& forall|k: int|
        0 <= k < buffers.len() ==> (#[trigger] buffers[k]).0 == k % 0x1_0000_0000
            && buffers[k].1 < list.len() && list[buffers[k].1 as int] is ArrayBuffer
    &&& forall|j: int, k: int|
        0 <= j < k < buffers.len() ==> (#[trigger] buffers[j]).1 < (#[trigger] buffers[k]).1
    &&& forall|e: int|
        0 <= e < list.len() && (#[trigger] list[e]) is ArrayBuffer ==> exists|k: int|
            0 <= k < buffers.len() && (#[trigger] buffers[k]).1 == e
}

/// The `ArrayBuffer`s of a transfer list are announced to V8 under the numbers from
/// zero on, each under one of its own as long as there are enough numbers.
pub proof fn lemma_announced_buffers<B, T, E>(
    serialization: StructuredSerialization<B, T, E>,
    buffers: &[(u32, usize)],
)
    requires
        serialization.wf(),
        call_ensures(
            StructuredSerialization::<B, T, E>::array_buffers,
            (&serialization,),
            buffers,
        ),
    ensures
        numbers_buffers(buffers@, serialization@.prepared),
        buffers@.len() <= 0x1_0000_0000 ==> forall|i: int, j: int|
            0 <= i < j < buffers@.len() ==> (#[trigger] buffers@[i]).0 != (
            #[trigger] buffers@[j]).0,
{
    let list = serialization@.prepared;
    lemma_places(list, PreparedTransfer::ArrayBuffer);
    lemma_numbers(buffers@, list);
}

/// The `ArrayBuffer`s that were made are announced to V8 under the numbers from
/// zero on, each under one of its own as long as there are enough numbers.
pub proof fn lemma_received_buffers<B, T, V, E>(
    deserialization: StructuredDeserialization<B, T, V, E>,
    buffers: &[(u32, usize)],
)
    requires
        deserialization.wf(),
        call_ensures(
            StructuredDeserialization::<B, T, V, E>::array_buffers,
            (&deserialization,),
            buffers,
        ),
    ensures
        numbers_buffers(buffers@, deserialization@.received),
        buffers@.len() <= 0x1_0000_0000 ==> forall|i: int, j: int|
            0 <= i < j < buffers@.len() ==> (#[trigger] buffers@[i]).0 != (
            #[trigger] buffers@[j]).0,
{
    let list = deserialization@.received;
    lemma_places(list, PreparedTransfer::ArrayBuffer);
    lemma_numbers(buffers@, list);
}

proof fn lemma_numbers(buffers: Seq<(u32, usize)>, list: Seq<PreparedTransfer>)
    requires
        buffers.len() == places(list, PreparedTransfer::ArrayBuffer).len(),
        forall|k: int|
            0 <= k < buffers.len() ==> (#[trigger] buffers[k]).0 == k % 0x1_0000_0000
                && buffers[k].1 == places(list, PreparedTransfer::ArrayBuffer)[k],
    ensures
        numbers_buffers(buffers, list),
{
    let found = places(list, PreparedTransfer::ArrayBuffer);
    lemma_places(list, PreparedTransfer::ArrayBuffer);
    assert forall|e: int| 0 <= e < list.len() && (#[trigger] list[e]) is ArrayBuffer implies exists|
        k: int,
    | 0 <= k < buffers.len() && (#[trigger] buffers[k]).1 == e by {
        let k = choose|k: int| 0 <= k < found.len() && #[trigger] found[k] == e;
        assert(buffers[k].1 == e);
    }
}

/// A number stands for the same entry of the transfer list on both sides: what V8
/// wrote for the `ArrayBuffer` of one entry, it reads as the object that was made of
/// the data of that entry and of no other.
pub proof fn lemma_numbers_stand_for_entries<B, T, E, V, F>(
    serialization: StructuredSerialization<B, T, E>,
    announced: &[(u32, usize)],
    deserialization: StructuredDeserialization<B, T, V, F>,
    received: &[(u32, usize)],
)
    requires
        serialization.wf(),
        deserialization.wf(),
        call_ensures(
            StructuredSerialization::<B, T, E>::array_buffers,
            (&serialization,),
            announced,
        ),
        call_ensures(
            StructuredDeserialization::<B, T, V, F>::array_buffers,
            (&deserialization,),
            received,
        ),
        deserialization@.received == serialization@.prepared,
    ensures
        received@ == announced@,
        announced@.len() <= 0x1_0000_0000 ==> forall|i: int, j: int|
            0 <= i < announced@.len() && 0 <= j < received@.len() && (#[trigger] announced@[i]).0
                == (#[trigger] received@[j]).0 ==> announced@[i].1 == received@[j].1,
{
    lemma_announced_buffers(serialization, announced);
    lemma_received_buffers(deserialization, received);
    assert(received@ =~= announced@);
}

/// The host objects that were made are found by their numbers: the number of one is
/// how many host objects were made before it.
pub proof fn lemma_received_host_objects<B, T, V, E>(
    deserialization: StructuredDeserialization<B, T, V, E>,
    objects: &[usize],
)
    requires
        deserialization.wf(),
        call_ensures(
            StructuredDeserialization::<B, T, V, E>::host_objects,
            (&deserialization,),
            objects,
        ),
    ensures
        forall|k: int|
            0 <= k < objects@.len() ==> #[trigger] objects@[k] < deserialization@.received.len()
                && deserialization@.received[objects@[k] as int] is HostObject,
        forall|j: int, k: int|
            0 <= j < k < objects@.len() ==> #[trigger] objects@[j] < #[trigger] objects@[k],
        forall|e: int|
            0 <= e < deserialization@.received.len() && (
            #[trigger] deserialization@.received[e]) is HostObject ==> exists|k: int|
                0 <= k < objects@.len() && #[trigger] objects@[k] == e,
{
    let list = deserialization@.received;
    let found = places(list, PreparedTransfer::HostObject);
    lemma_places(list, PreparedTransfer::HostObject);
    assert forall|e: int| 0 <= e < list.len() && (#[trigger] list[e]) is HostObject implies exists|
        k: int,
    | 0 <= k < objects@.len() && #[trigger] objects@[k] == e by {
        let k = choose|k: int| 0 <= k < found.len() && #[trigger] found[k] == e;
        assert(objects@[k] == e);
    }
}

/// The objects that are handed out are those that were made, one for each entry.
pub proof fn lemma_handed_out_objects<B, T, V, E>(
    deserialization: StructuredDeserialization<B, T, V, E>,
    values: &[V],
)
    requires
        deserialization.wf(),
        call_ensures(
            StructuredDeserialization::<B, T, V, E>::values,
            (&deserialization,),
            values,
        ),
    ensures
        values@.len() == deserialization@.values.len(),
        forall|e: int|
            0 <= e < values@.len() ==> #[trigger] values@[e] == deserialization@.values[e],
{
}

} // verus!
