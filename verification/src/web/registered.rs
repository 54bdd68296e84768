//! What follows from registering a handler.

use vstd::prelude::*;

use crate::serialization::error::CloneError;
use crate::varint::{groups_of, is_lenient, lemma_groups, lemma_lenient};
use crate::web::handler_table::{HandlerEntry, HandlerTable};
use crate::web::registry::{
    create_web_structured_clone_registry, lemma_transfer_record_round_trip,
    resolve_transferred_host_object, HostObjectRecord, HostObjectSource,
    WebStructuredCloneHostObjectRegistry,
};
use crate::web::tag::StructuredCloneHostObjectTag;
use crate::webidl::{WebIdlSerializable, WebIdlTransferable};

verus! {

/// A handler that was added is found by its interface and by its tag. Those that were
/// found before still are, and no others.
pub proof fn lemma_added_handler<H>(
    table: &mut HandlerTable<H>,
    interface: &'static str,
    tag: StructuredCloneHostObjectTag,
    handler: H,
    other: Seq<char>,
    other_tag: StructuredCloneHostObjectTag,
)
    requires
        old(table).wf(),
        !old(table).by_interface().dom().contains(interface@),
        !old(table).by_tag().dom().contains(tag),
        call_ensures(HandlerTable::<H>::register, (table, interface, tag, handler), ()),
    ensures
        final(table).wf(),
        final(table).by_interface().dom().contains(interface@),
        final(table).by_interface()[interface@] == (tag, handler),
        final(table).by_tag().dom().contains(tag),
        final(table).by_tag()[tag] == (interface@, handler),
        other != interface@ ==> {
            &&& final(table).by_interface().dom().contains(other) <==> old(
                table,
            ).by_interface().dom().contains(other)
            &&& final(table).by_interface()[other] == old(table).by_interface()[other]
        },
        other_tag != tag ==> {
            &&& final(table).by_tag().dom().contains(other_tag) <==> old(
                table,
            ).by_tag().dom().contains(other_tag)
            &&& final(table).by_tag()[other_tag] == old(table).by_tag()[other_tag]
        },
{
}

/// What is found by an interface is of that interface, and what is found by a tag is
/// of that tag. The two ways lead to the same handlers.
pub proof fn lemma_found_handler<H>(
    table: HandlerTable<H>,
    interface: &str,
    entry: Option<&HandlerEntry<H>>,
    tag: StructuredCloneHostObjectTag,
    tagged: Option<&HandlerEntry<H>>,
)
    requires
        table.wf(),
        call_ensures(HandlerTable::<H>::find_interface, (&table, interface), entry),
        call_ensures(HandlerTable::<H>::find_tag, (&table, tag), tagged),
    ensures
        entry is Some <==> table.by_interface().dom().contains(interface@),
        entry matches Some(found) ==> found.interface@ == interface@
            && table.by_interface()[interface@] == (found.tag, found.handler),
        tagged is Some <==> table.by_tag().dom().contains(tag),
        tagged matches Some(found) ==> found.tag == tag && table.by_tag()[tag] == (
            found.interface@,
            found.handler,
        ),
        (entry matches Some(found) && found.tag == tag) <==> (tagged matches Some(found)
            && found.interface@ == interface@),
        (entry matches Some(found) && found.tag == tag) ==> entry->0.handler == tagged->0.handler,
{
    if let Some(found) = entry {
        table.lemma_orders_agree(interface@, found.tag, found.handler);
    }
    if let Some(found) = tagged {
        table.lemma_orders_agree(found.interface@, tag, found.handler);
    }
}

/// Whether an object of the interface is written for a transfer as it should be: as the
/// byte of its tag, and its number.
pub open spec fn is_transfer<S>(
    record: Option<HostObjectRecord<'_, S>>,
    tag: StructuredCloneHostObjectTag,
    transfer_id: u32,
) -> bool {
    record matches Some(HostObjectRecord::Transferred(bytes)) && bytes@ == seq![
        match tag {
            StructuredCloneHostObjectTag::ImageData => 0x23u8,
            StructuredCloneHostObjectTag::ImageBitmap => 0x67,
            StructuredCloneHostObjectTag::ImageBitmapTransfer => 0x47,
            StructuredCloneHostObjectTag::OffscreenCanvasTransfer => 0x48,
            StructuredCloneHostObjectTag::TestTransferable => 0x7E,
        },
    ] + groups_of(transfer_id)
}

/// An object with a number is written as one that is transferred, and another by the
/// handler of its interface. Objects without a handler for that are not written.
pub proof fn lemma_written_host_object<S, T>(
    registry: WebStructuredCloneHostObjectRegistry<S, T>,
    interface: Option<&str>,
    transfer_id: Option<u32>,
    record: Option<HostObjectRecord<'_, S>>,
)
    requires
        registry.wf(),
        call_ensures(
            WebStructuredCloneHostObjectRegistry::<S, T>::write_host_object,
            (&registry, interface, transfer_id),
            record,
        ),
    ensures
        record is Some <==> (interface matches Some(name) && if transfer_id is Some {
            registry.transferable_by_interface().dom().contains(name@)
        } else {
            registry.serializable_by_interface().dom().contains(name@)
        }),
        record is Some && transfer_id is Some ==> is_transfer(
            record,
            registry.transferable_by_interface()[interface->0@].0,
            transfer_id->0,
        ),
        record is Some && transfer_id is None ==> (record matches Some(
            HostObjectRecord::Serialized(byte, handler),
        ) && {
            let (tag, found) = registry.serializable_by_interface()[interface->0@];
            &&& *handler == found
            &&& tag is ImageData <==> byte == 0x23
            &&& tag is ImageBitmap <==> byte == 0x67
            &&& tag is ImageBitmapTransfer <==> byte == 0x47
            &&& tag is OffscreenCanvasTransfer <==> byte == 0x48
            &&& tag is TestTransferable <==> byte == 0x7E
        }),
{
    if let Some(id) = transfer_id {
        lemma_groups(id);
    }
}

/// Whether an object is read as it should be behind the byte of a tag: as one that was
/// transferred where the tag is for those, and else by the handler of the tag.
pub open spec fn is_source<S, T>(
    registry: WebStructuredCloneHostObjectRegistry<S, T>,
    tag: StructuredCloneHostObjectTag,
    source: Option<HostObjectSource<'_, S>>,
) -> bool {
    match source {
        Some(HostObjectSource::Transferred(interface)) => {
            &&& registry.transferable_by_tag().dom().contains(tag)
            &&& registry.transferable_by_tag()[tag].0 == interface@
        },
        Some(HostObjectSource::Serialized(handler)) => {
            &&& !registry.transferable_by_tag().dom().contains(tag)
            &&& registry.serializable_by_tag().dom().contains(tag)
            &&& registry.serializable_by_tag()[tag].1 == *handler
        },
        None => {
            &&& !registry.transferable_by_tag().dom().contains(tag)
            &&& !registry.serializable_by_tag().dom().contains(tag)
        },
    }
}

/// Four bytes stand for objects that are read. Behind every other byte, and without a
/// byte, nothing is.
pub proof fn lemma_read_host_object<S, T>(
    registry: WebStructuredCloneHostObjectRegistry<S, T>,
    byte: Option<u8>,
    source: Option<HostObjectSource<'_, S>>,
)
    requires
        registry.wf(),
        call_ensures(
            WebStructuredCloneHostObjectRegistry::<S, T>::read_host_object,
            (&registry, byte),
            source,
        ),
    ensures
        byte == Some(0x23u8) ==> is_source(
            registry,
            StructuredCloneHostObjectTag::ImageData,
            source,
        ),
        byte == Some(0x47u8) ==> is_source(
            registry,
            StructuredCloneHostObjectTag::ImageBitmapTransfer,
            source,
        ),
        byte == Some(0x48u8) ==> is_source(
            registry,
            StructuredCloneHostObjectTag::OffscreenCanvasTransfer,
            source,
        ),
        byte == Some(0x7Eu8) ==> is_source(
            registry,
            StructuredCloneHostObjectTag::TestTransferable,
            source,
        ),
        byte is None ==> source is None,
        byte matches Some(byte) ==> byte != 0x23 && byte != 0x47 && byte != 0x48 && byte != 0x7E
            ==> source is None,
{
    assert(StructuredCloneHostObjectTag::ImageData.code() == 0x23);
    assert(StructuredCloneHostObjectTag::ImageBitmapTransfer.code() == 0x47);
    assert(StructuredCloneHostObjectTag::OffscreenCanvasTransfer.code() == 0x48);
    assert(StructuredCloneHostObjectTag::TestTransferable.code() == 0x7E);
}

/// Objects are transferred by the handler of their interface, and only where there is
/// one. Host objects are those with a handler of either sort.
pub proof fn lemma_transfer_handlers<S, T>(
    registry: WebStructuredCloneHostObjectRegistry<S, T>,
    interface: Option<&str>,
    checks: Option<&T>,
    transfers: Result<&T, CloneError>,
    known: bool,
)
    requires
        registry.wf(),
        call_ensures(
            WebStructuredCloneHostObjectRegistry::<S, T>::validate_transferable_host_object,
            (&registry, interface),
            checks,
        ),
        call_ensures(
            WebStructuredCloneHostObjectRegistry::<S, T>::transfer_host_object,
            (&registry, interface),
            transfers,
        ),
        call_ensures(
            WebStructuredCloneHostObjectRegistry::<S, T>::is_host_object,
            (&registry, interface),
            known,
        ),
    ensures
        checks is Some <==> (interface matches Some(name)
            && registry.transferable_by_interface().dom().contains(name@)),
        checks matches Some(handler) ==> *handler
            == registry.transferable_by_interface()[interface->0@].1,
        transfers is Ok <==> checks is Some,
        transfers matches Ok(handler) ==> Some(handler) == checks,
        transfers matches Err(error) ==> error is HostObjectNotTransferable,
        known <==> checks is Some || (interface matches Some(name)
            && registry.serializable_by_interface().dom().contains(name@)),
{
}

/// What a registration changes: the interface leads to the tag and the handler, the
/// tag to the interface and the handler, and everything else stays.
pub open spec fn is_registration<H>(
    by_interface: Map<Seq<char>, (StructuredCloneHostObjectTag, H)>,
    by_tag: Map<StructuredCloneHostObjectTag, (Seq<char>, H)>,
    next_by_interface: Map<Seq<char>, (StructuredCloneHostObjectTag, H)>,
    next_by_tag: Map<StructuredCloneHostObjectTag, (Seq<char>, H)>,
    interface: Seq<char>,
    tag: StructuredCloneHostObjectTag,
    handler: H,
) -> bool {
    &&& next_by_interface.dom().contains(interface)
    &&& next_by_interface[interface] == (tag, handler)
    &&& next_by_tag.dom().contains(tag)
    &&& next_by_tag[tag] == (interface, handler)
    &&& forall|other: Seq<char>|
        other != interface ==> (#[trigger] next_by_interface.dom().contains(other)
            <==> by_interface.dom().contains(other)) && next_by_interface[other]
            == by_interface[other]
    &&& forall|other: StructuredCloneHostObjectTag|
        other != tag ==> (#[trigger] next_by_tag.dom().contains(other) <==> by_tag.dom().contains(
            other,
        )) && next_by_tag[other] == by_tag[other]
}

/// A handler is registered for one interface and one tag, and those that transfer stay
/// as they are.
pub proof fn lemma_registered_serializable<S, T, I: WebIdlSerializable>(
    registry: &mut WebStructuredCloneHostObjectRegistry<S, T>,
    tag: StructuredCloneHostObjectTag,
    handler: S,
)
    requires
        old(registry).wf(),
        call_ensures(
            WebStructuredCloneHostObjectRegistry::<S, T>::register_serializable::<I>,
            (registry, tag, handler),
            (),
        ),
    ensures
        final(registry).wf(),
        is_registration(
            old(registry).serializable_by_interface(),
            old(registry).serializable_by_tag(),
            final(registry).serializable_by_interface(),
            final(registry).serializable_by_tag(),
            I::INTERFACE_NAME@,
            tag,
            handler,
        ),
        final(registry).transferable_by_interface() == old(registry).transferable_by_interface(),
        final(registry).transferable_by_tag() == old(registry).transferable_by_tag(),
{
}

/// A handler is registered for one interface and one tag, and those that serialize
/// stay as they are.
pub proof fn lemma_registered_transferable<S, T, I: WebIdlTransferable>(
    registry: &mut WebStructuredCloneHostObjectRegistry<S, T>,
    tag: StructuredCloneHostObjectTag,
    handler: T,
)
    requires
        old(registry).wf(),
        call_ensures(
            WebStructuredCloneHostObjectRegistry::<S, T>::register_transferable::<I>,
            (registry, tag, handler),
            (),
        ),
    ensures
        final(registry).wf(),
        is_registration(
            old(registry).transferable_by_interface(),
            old(registry).transferable_by_tag(),
            final(registry).transferable_by_interface(),
            final(registry).transferable_by_tag(),
            I::INTERFACE_NAME@,
            tag,
            handler,
        ),
        final(registry).serializable_by_interface() == old(registry).serializable_by_interface(),
        final(registry).serializable_by_tag() == old(registry).serializable_by_tag(),
{
}

/// A tag is free where no object is registered with it, serialized or transferred. An
/// interface is free where it has no handler of the same sort.
pub proof fn lemma_free_for_registration<
    S,
    T,
    I: WebIdlSerializable,
    J: WebIdlTransferable,
>(
    registry: WebStructuredCloneHostObjectRegistry<S, T>,
    tag: StructuredCloneHostObjectTag,
    serializable: bool,
    transferable: bool,
)
    requires
        registry.wf(),
        call_ensures(
            WebStructuredCloneHostObjectRegistry::<S, T>::can_register_serializable::<I>,
            (&registry, tag),
            serializable,
        ),
        call_ensures(
            WebStructuredCloneHostObjectRegistry::<S, T>::can_register_transferable::<J>,
            (&registry, tag),
            transferable,
        ),
    ensures
        ({
            let taken = registry.serializable_by_tag().dom().contains(tag)
                || registry.transferable_by_tag().dom().contains(tag);
            &&& serializable <==> !taken && !registry.serializable_by_interface().dom().contains(
                I::INTERFACE_NAME@,
            )
            &&& transferable <==> !taken && !registry.transferable_by_interface().dom().contains(
                J::INTERFACE_NAME@,
            )
        }),
{
}

/// A number leads to the object in its place if that is of the expected interface, and
/// to nothing otherwise.
pub proof fn lemma_resolved_object(
    expected: &str,
    transfer_id: Option<u32>,
    interfaces: &[Option<&'static str>],
    place: Option<usize>,
)
    requires
        call_ensures(
            resolve_transferred_host_object,
            (expected, transfer_id, interfaces),
            place,
        ),
    ensures
        place matches Some(place) ==> {
            &&& transfer_id matches Some(id) && id == place
            &&& place < interfaces@.len()
            &&& interfaces@[place as int] matches Some(interface) && interface@ == expected@
        },
        place is None ==> !(transfer_id matches Some(id) && id < interfaces@.len() && (
        interfaces@[id as int] matches Some(interface) && interface@ == expected@)),
{
}

/// The Web platform has images, which are written and read with one byte and are not
/// transferred. The data is of the first version.
pub proof fn lemma_web_registry<S, T>(
    image_data: S,
    registry: WebStructuredCloneHostObjectRegistry<S, T>,
    version: u32,
    name: Seq<char>,
    tag: StructuredCloneHostObjectTag,
)
    requires
        call_ensures(create_web_structured_clone_registry::<S, T>, (image_data,), registry),
        call_ensures(
            WebStructuredCloneHostObjectRegistry::<S, T>::wire_format_version,
            (&registry,),
            version,
        ),
    ensures
        registry.wf(),
        version == 1,
        registry.serializable_by_interface().dom().contains(name) <==> name == "ImageData"@,
        registry.serializable_by_interface()["ImageData"@] == (
            StructuredCloneHostObjectTag::ImageData,
            image_data,
        ),
        registry.serializable_by_tag().dom().contains(tag) <==> tag is ImageData,
        registry.serializable_by_tag()[StructuredCloneHostObjectTag::ImageData] == (
            "ImageData"@,
            image_data,
        ),
        !registry.transferable_by_interface().dom().contains(name),
        !registry.transferable_by_tag().dom().contains(tag),
{
}

/// A registry starts without handlers.
pub proof fn lemma_empty_registry<S, T>(
    registry: WebStructuredCloneHostObjectRegistry<S, T>,
    name: Seq<char>,
    tag: StructuredCloneHostObjectTag,
)
    requires
        call_ensures(WebStructuredCloneHostObjectRegistry::<S, T>::new, (), registry),
    ensures
        registry.wf(),
        !registry.serializable_by_interface().dom().contains(name),
        !registry.serializable_by_tag().dom().contains(tag),
        !registry.transferable_by_interface().dom().contains(name),
        !registry.transferable_by_tag().dom().contains(tag),
{
}

/// What was written in place of a transferred object is read as that object: the byte
/// leads to the interface of the object, and the bytes behind it to its number. The tag
/// of a bitmap that was not transferred has no reader, so it is left out.
pub proof fn lemma_transferred_object_returns<S, T>(
    registry: WebStructuredCloneHostObjectRegistry<S, T>,
    interface: &str,
    transfer_id: u32,
    record: Option<HostObjectRecord<'_, S>>,
    bytes: Vec<u8>,
    source: Option<HostObjectSource<'_, S>>,
    rest: Seq<u8>,
)
    requires
        registry.wf(),
        registry.transferable_by_interface().dom().contains(interface@),
        !(registry.transferable_by_interface()[interface@].0 is ImageBitmap),
        call_ensures(
            WebStructuredCloneHostObjectRegistry::<S, T>::write_host_object,
            (&registry, Some(interface), Some(transfer_id)),
            record,
        ),
        record == Some(HostObjectRecord::<'_, S>::Transferred(bytes)),
        call_ensures(
            WebStructuredCloneHostObjectRegistry::<S, T>::read_host_object,
            (&registry, Some(bytes@[0])),
            source,
        ),
    ensures
        source matches Some(HostObjectSource::Transferred(name)) && name@ == interface@,
        is_lenient(bytes@ + rest, 1, transfer_id as int, bytes@.len() - 1),
{
    lemma_written_host_object(registry, Some(interface), Some(transfer_id), record);
    lemma_read_host_object(registry, Some(bytes@[0]), source);
    lemma_transfer_record_round_trip(registry, interface@, transfer_id, rest);
    lemma_lenient(bytes@ + rest, 1, transfer_id, (bytes@.len() - 1) as nat);
}

} // verus!
