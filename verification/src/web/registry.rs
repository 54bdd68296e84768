//! The registry of Web platform objects.
//!
//! An object is found by the name of its interface when it is written, and by
//! its tag when it is read. What runs then is up to the embedder: the registry
//! hands out the handler that was registered.

use vstd::prelude::*;

use crate::serialization::error::CloneError;
use crate::text::same_text;
use crate::varint::{lemma_varint_round_trip, lenient_u32_varint, varint_bytes, write_u32_varint};
use crate::web::handler_table::HandlerTable;
use crate::web::image_data::{lemma_interface_name, ImageData};
use crate::web::tag::StructuredCloneHostObjectTag;
use crate::webidl::{WebIdlSerializable, WebIdlTransferable};

verus! {

/// The version of the envelope and of all host-object payloads. Data that was
/// stored in this version stays readable; a payload that changes so that it
/// would be read differently needs a new version.
pub const WEB_STRUCTURED_CLONE_WIRE_FORMAT_VERSION: u32 = 1;

/// The handlers of Web platform objects: `S` serializes and deserializes, `T`
/// transfers.
pub struct WebStructuredCloneHostObjectRegistry<S, T> {
    serializable: HandlerTable<S>,
    transferable: HandlerTable<T>,
}

/// How an object is written.
pub enum HostObjectRecord<'a, S> {
    /// As the given bytes.
    Transferred(Vec<u8>),
    /// As the byte of its tag, followed by what the handler writes.
    Serialized(u8, &'a S),
}

/// How an object is read, once the byte of its tag is.
pub enum HostObjectSource<'a, S> {
    /// It is a transferred object of the given interface, whose number follows.
    Transferred(&'static str),
    /// The handler reads it.
    Serialized(&'a S),
}

/// The bytes of a transferred object: the byte of its tag and its number.
pub open spec fn transfer_record(tag: StructuredCloneHostObjectTag, transfer_id: u32) -> Seq<u8> {
    seq![tag.code()] + varint_bytes(transfer_id as nat)
}

/// The place of the object that a number stands for. There is none if the number
/// could not be read, if there are not as many objects, or if the object is not
/// of the interface that the tag is for.
pub open spec fn resolved(
    expected: Seq<char>,
    transfer_id: Option<u32>,
    interfaces: Seq<Option<&'static str>>,
) -> Option<u32> {
    match transfer_id {
        Some(id) => if id < interfaces.len() {
            match interfaces[id as int] {
                Some(interface) => if interface@ == expected {
                    Some(id)
                } else {
                    None
                },
                None => None,
            }
        } else {
            None
        },
        None => None,
    }
}

impl<S, T> WebStructuredCloneHostObjectRegistry<S, T> {
    /// The tags and handlers of the objects that can be serialized.
    pub closed spec fn serializable_by_interface(self) -> Map<
        Seq<char>,
        (StructuredCloneHostObjectTag, S),
    > {
        self.serializable.by_interface()
    }

    /// The interfaces and handlers of the objects that can be serialized.
    pub closed spec fn serializable_by_tag(self) -> Map<
        StructuredCloneHostObjectTag,
        (Seq<char>, S),
    > {
        self.serializable.by_tag()
    }

    /// The tags and handlers of the objects that can be transferred.
    pub closed spec fn transferable_by_interface(self) -> Map<
        Seq<char>,
        (StructuredCloneHostObjectTag, T),
    > {
        self.transferable.by_interface()
    }

    /// The interfaces and handlers of the objects that can be transferred.
    pub closed spec fn transferable_by_tag(self) -> Map<
        StructuredCloneHostObjectTag,
        (Seq<char>, T),
    > {
        self.transferable.by_tag()
    }

    /// What holds between two calls: no tag is for objects that are serialized
    /// and for objects that are transferred.
    pub closed spec fn wf(self) -> bool {
        &&& self.serializable.wf()
        &&& self.transferable.wf()
        &&& forall|tag: StructuredCloneHostObjectTag|
            self.serializable.by_tag().dom().contains(tag) ==> !(
            #[trigger] self.transferable.by_tag().dom().contains(tag))
    }

    /// A registry without handlers.
    pub fn new() -> (registry: Self)
        ensures
            registry.wf(),
            registry.serializable_by_interface() == Map::<
                Seq<char>,
                (StructuredCloneHostObjectTag, S),
            >::empty(),
            registry.serializable_by_tag() == Map::<
                StructuredCloneHostObjectTag,
                (Seq<char>, S),
            >::empty(),
            registry.transferable_by_interface() == Map::<
                Seq<char>,
                (StructuredCloneHostObjectTag, T),
            >::empty(),
            registry.transferable_by_tag() == Map::<
                StructuredCloneHostObjectTag,
                (Seq<char>, T),
            >::empty(),
    {
        WebStructuredCloneHostObjectRegistry {
            serializable: HandlerTable::new(),
            transferable: HandlerTable::new(),
        }
    }

    /// Whether the interface `I` and the tag are free for objects that are
    /// serialized.
    pub fn can_register_serializable<I: WebIdlSerializable>(
        &self,
        tag: StructuredCloneHostObjectTag,
    ) -> (free: bool)
        requires
            self.wf(),
        ensures
            free == (!self.transferable_by_tag().dom().contains(tag)
                && !self.serializable_by_interface().dom().contains(I::INTERFACE_NAME@)
                && !self.serializable_by_tag().dom().contains(tag)),
    {
        self.transferable.find_tag(tag).is_none() && self.serializable.find_interface(
            I::INTERFACE_NAME,
        ).is_none() && self.serializable.find_tag(tag).is_none()
    }

    /// Registers the handler of the objects of the interface `I`, which are
    /// written with `tag`.
    pub fn register_serializable<I: WebIdlSerializable>(
        &mut self,
        tag: StructuredCloneHostObjectTag,
        handler: S,
    )
        requires
            old(self).wf(),
            !old(self).transferable_by_tag().dom().contains(tag),
            !old(self).serializable_by_interface().dom().contains(I::INTERFACE_NAME@),
            !old(self).serializable_by_tag().dom().contains(tag),
        ensures
            final(self).wf(),
            final(self).serializable_by_interface() == old(
                self,
            ).serializable_by_interface().insert(I::INTERFACE_NAME@, (tag, handler)),
            final(self).serializable_by_tag() == old(self).serializable_by_tag().insert(
                tag,
                (I::INTERFACE_NAME@, handler),
            ),
            final(self).transferable_by_interface() == old(self).transferable_by_interface(),
            final(self).transferable_by_tag() == old(self).transferable_by_tag(),
    {
        self.serializable.register(I::INTERFACE_NAME, tag, handler);
    }

    /// Whether the interface `I` and the tag are free for objects that are
    /// transferred.
    pub fn can_register_transferable<I: WebIdlTransferable>(
        &self,
        tag: StructuredCloneHostObjectTag,
    ) -> (free: bool)
        requires
            self.wf(),
        ensures
            free == (!self.serializable_by_tag().dom().contains(tag)
                && !self.transferable_by_interface().dom().contains(I::INTERFACE_NAME@)
                && !self.transferable_by_tag().dom().contains(tag)),
    {
        self.serializable.find_tag(tag).is_none() && self.transferable.find_interface(
            I::INTERFACE_NAME,
        ).is_none() && self.transferable.find_tag(tag).is_none()
    }

    /// Registers the handler of the objects of the interface `I`, whose numbers
    /// are written with `tag`.
    pub fn register_transferable<I: WebIdlTransferable>(
        &mut self,
        tag: StructuredCloneHostObjectTag,
        handler: T,
    )
        requires
            old(self).wf(),
            !old(self).serializable_by_tag().dom().contains(tag),
            !old(self).transferable_by_interface().dom().contains(I::INTERFACE_NAME@),
            !old(self).transferable_by_tag().dom().contains(tag),
        ensures
            final(self).wf(),
            final(self).transferable_by_interface() == old(
                self,
            ).transferable_by_interface().insert(I::INTERFACE_NAME@, (tag, handler)),
            final(self).transferable_by_tag() == old(self).transferable_by_tag().insert(
                tag,
                (I::INTERFACE_NAME@, handler),
            ),
            final(self).serializable_by_interface() == old(self).serializable_by_interface(),
            final(self).serializable_by_tag() == old(self).serializable_by_tag(),
    {
        self.transferable.register(I::INTERFACE_NAME, tag, handler);
    }

    /// The version of the data that is written.
    pub fn wire_format_version(&self) -> (version: u32)
        ensures
            version == WEB_STRUCTURED_CLONE_WIRE_FORMAT_VERSION,
    {
        WEB_STRUCTURED_CLONE_WIRE_FORMAT_VERSION
    }

    /// Whether an object is serialized or transferred by a handler. `interface`
    /// is the name of its interface, `None` if it is an ordinary object.
    pub fn is_host_object(&self, interface: Option<&str>) -> (known: bool)
        requires
            self.wf(),
        ensures
            known == (interface matches Some(name) && (
            self.serializable_by_interface().dom().contains(name@)
                || self.transferable_by_interface().dom().contains(name@))),
    {
        match interface {
            Some(name) => self.serializable.find_interface(name).is_some()
                || self.transferable.find_interface(name).is_some(),
            None => false,
        }
    }

    /// How to write an object, `None` if it cannot be written. An object with a
    /// number is being transferred.
    pub fn write_host_object(&self, interface: Option<&str>, transfer_id: Option<u32>) -> (res:
        Option<HostObjectRecord<'_, S>>)
        requires
            self.wf(),
        ensures
            match (interface, transfer_id) {
                (None, _) => res is None,
                (Some(name), Some(id)) => if self.transferable_by_interface().dom().contains(
                    name@,
                ) {
                    res matches Some(HostObjectRecord::Transferred(bytes)) && bytes@
                        == transfer_record(self.transferable_by_interface()[name@].0, id)
                } else {
                    res is None
                },
                (Some(name), None) => if self.serializable_by_interface().dom().contains(name@) {
                    res matches Some(HostObjectRecord::Serialized(byte, handler)) && {
                        let (tag, found) = self.serializable_by_interface()[name@];
                        byte == tag.code() && *handler == found
                    }
                } else {
                    res is None
                },
            },
    {
        let name: &str = interface?;
        match transfer_id {
            Some(id) => match self.transferable.find_interface(name) {
                Some(entry) => {
                    let mut bytes: Vec<u8> = Vec::new();
                    bytes.push(entry.tag.as_u8());
                    assert(bytes@ == seq![entry.tag.code()]);
                    write_u32_varint(&mut bytes, id);
                    Some(HostObjectRecord::Transferred(bytes))
                },
                None => None,
            },
            None => match self.serializable.find_interface(name) {
                Some(entry) => Some(
                    HostObjectRecord::Serialized(entry.tag.as_u8(), &entry.handler),
                ),
                None => None,
            },
        }
    }

    /// How to read an object whose tag byte was read, `None` if it cannot be
    /// read. `byte` is `None` if there was no byte.
    pub fn read_host_object(&self, byte: Option<u8>) -> (res: Option<HostObjectSource<'_, S>>)
        requires
            self.wf(),
        ensures
            forall|tag: StructuredCloneHostObjectTag|
                tag.is_readable() && byte == Some(#[trigger] tag.code()) ==> {
                    if self.transferable_by_tag().dom().contains(tag) {
                        res matches Some(HostObjectSource::Transferred(interface)) && interface@
                            == self.transferable_by_tag()[tag].0
                    } else if self.serializable_by_tag().dom().contains(tag) {
                        res matches Some(HostObjectSource::Serialized(handler)) && *handler
                            == self.serializable_by_tag()[tag].1
                    } else {
                        res is None
                    }
                },
            (forall|tag: StructuredCloneHostObjectTag|
                tag.is_readable() ==> byte != Some(#[trigger] tag.code())) ==> res is None,
    {
        let tag: StructuredCloneHostObjectTag =
            StructuredCloneHostObjectTag::from_record_tag(byte?)?;
        if let Some(entry) = self.transferable.find_tag(tag) {
            return Some(HostObjectSource::Transferred(entry.interface));
        }
        match self.serializable.find_tag(tag) {
            Some(entry) => Some(HostObjectSource::Serialized(&entry.handler)),
            None => None,
        }
    }

    /// The handler that checks an object before its transfer, `None` if the
    /// object cannot be transferred.
    pub fn validate_transferable_host_object(&self, interface: Option<&str>) -> (handler: Option<
        &T,
    >)
        requires
            self.wf(),
        ensures
            match interface {
                Some(name) => if self.transferable_by_interface().dom().contains(name@) {
                    handler matches Some(found) && *found
                        == self.transferable_by_interface()[name@].1
                } else {
                    handler is None
                },
                None => handler is None,
            },
    {
        match self.transferable.find_interface(interface?) {
            Some(entry) => Some(&entry.handler),
            None => None,
        }
    }

    /// The handler that transfers an object.
    pub fn transfer_host_object(&self, interface: Option<&str>) -> (handler: Result<
        &T,
        CloneError,
    >)
        requires
            self.wf(),
        ensures
            match interface {
                Some(name) if self.transferable_by_interface().dom().contains(name@) => {
                    handler matches Ok(found) && *found == self.transferable_by_interface()[name@].1
                },
                _ => handler matches Err(error) && error == CloneError::HostObjectNotTransferable,
            },
    {
        match self.validate_transferable_host_object(interface) {
            Some(handler) => Ok(handler),
            None => Err(CloneError::HostObjectNotTransferable),
        }
    }

    /// A handler is found by the interface and by the tag that it was registered
    /// with, and by no other.
    pub proof fn lemma_handlers_agree(
        self,
        interface: Seq<char>,
        tag: StructuredCloneHostObjectTag,
        serializer: S,
        transferrer: T,
    )
        requires
            self.wf(),
        ensures
            self.serializable_by_interface().dom().contains(interface)
                && self.serializable_by_interface()[interface] == (tag, serializer)
                <==> self.serializable_by_tag().dom().contains(tag)
                && self.serializable_by_tag()[tag] == (interface, serializer),
            self.transferable_by_interface().dom().contains(interface)
                && self.transferable_by_interface()[interface] == (tag, transferrer)
                <==> self.transferable_by_tag().dom().contains(tag)
                && self.transferable_by_tag()[tag] == (interface, transferrer),
            self.serializable_by_tag().dom().contains(tag)
                ==> !self.transferable_by_tag().dom().contains(tag),
    {
        self.serializable.lemma_orders_agree(interface, tag, serializer);
        self.transferable.lemma_orders_agree(interface, tag, transferrer);
    }
}

/// The place of the transferred object that a number stands for, among objects
/// of the given interfaces.
pub fn resolve_transferred_host_object(
    expected: &str,
    transfer_id: Option<u32>,
    interfaces: &[Option<&'static str>],
) -> (place: Option<usize>)
    ensures
        match resolved(expected@, transfer_id, interfaces@) {
            Some(id) => place matches Some(found) && found == id,
            None => place is None,
        },
{
    let id: u32 = transfer_id?;
    if id as usize >= interfaces.len() {
        return None;
    }
    match interfaces[id as usize] {
        Some(interface) => if same_text(interface, expected) {
            Some(id as usize)
        } else {
            None
        },
        None => None,
    }
}

/// The registry of the objects that the Web platform has: `ImageData`, with the
/// given handler.
pub fn create_web_structured_clone_registry<S, T>(image_data: S) -> (registry:
    WebStructuredCloneHostObjectRegistry<S, T>)
    ensures
        registry.wf(),
        registry.serializable_by_interface() == map![
            "ImageData"@ => (StructuredCloneHostObjectTag::ImageData, image_data),
        ],
        registry.serializable_by_tag() == map![
            StructuredCloneHostObjectTag::ImageData => ("ImageData"@, image_data),
        ],
        registry.transferable_by_interface() == Map::<
            Seq<char>,
            (StructuredCloneHostObjectTag, T),
        >::empty(),
        registry.transferable_by_tag() == Map::<
            StructuredCloneHostObjectTag,
            (Seq<char>, T),
        >::empty(),
{
    let mut registry = WebStructuredCloneHostObjectRegistry::new();
    proof {
        lemma_interface_name::<()>();
    }
    registry.register_serializable::<ImageData<()>>(
        StructuredCloneHostObjectTag::ImageData,
        image_data,
    );
    registry
}

/// A number that was written in place of an object is read back, behind a tag
/// that leads to the interface of the object. The tag of a bitmap that was not
/// transferred has no reader, so it is left out.
pub proof fn lemma_transfer_record_round_trip<S, T>(
    registry: WebStructuredCloneHostObjectRegistry<S, T>,
    interface: Seq<char>,
    transfer_id: u32,
    rest: Seq<u8>,
)
    requires
        registry.wf(),
        registry.transferable_by_interface().dom().contains(interface),
        registry.transferable_by_interface()[interface].0.is_readable(),
    ensures
        ({
            let tag = registry.transferable_by_interface()[interface].0;
            let record = transfer_record(tag, transfer_id);
            &&& record[0] == tag.code()
            &&& registry.transferable_by_tag().dom().contains(tag)
            &&& registry.transferable_by_tag()[tag].0 == interface
            &&& lenient_u32_varint((record + rest).skip(1)) == Some(
                (transfer_id, (record.len() - 1) as nat),
            )
        }),
{
    let (tag, handler) = registry.transferable_by_interface()[interface];
    registry.transferable.lemma_orders_agree(interface, tag, handler);
    let record = transfer_record(tag, transfer_id);
    lemma_varint_round_trip(transfer_id, rest);
    assert((record + rest).skip(1) == varint_bytes(transfer_id as nat) + rest);
}

} // verus!
