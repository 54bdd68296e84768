//! The tags of the structured-clone wire format.

use vstd::prelude::*;

verus! {

/// The tags that stand in the wire format outside of V8's own data. They share
/// one namespace; where each may stand is up to the grammar of the format.
/// Values are permanent: never renumbered, never reused after retirement.
#[derive(Clone, Copy, Debug, PartialEq, Eq, Structural)]
pub enum SerializationTag {
    /// A settings sequence, the dimensions and the pixels of an `ImageData`.
    ImageData,
    /// The record of the trailer that lists interface tags.
    TrailerRequiresInterfaces,
    /// The fixed-width position and size of the trailer.
    TrailerOffset,
    /// The version of the wire format, at the very start.
    Version,
}

impl SerializationTag {
    /// The byte that stands for the tag.
    pub open spec fn code(self) -> u8 {
        match self {
            SerializationTag::ImageData => 0x23,
            SerializationTag::TrailerRequiresInterfaces => 0xA0,
            SerializationTag::TrailerOffset => 0xFE,
            SerializationTag::Version => 0xFF,
        }
    }

    /// The byte that stands for the tag.
    pub fn as_u8(self) -> (byte: u8)
        ensures
            byte == self.code(),
    {
        match self {
            SerializationTag::ImageData => 0x23,
            SerializationTag::TrailerRequiresInterfaces => 0xA0,
            SerializationTag::TrailerOffset => 0xFE,
            SerializationTag::Version => 0xFF,
        }
    }
}

/// No two tags share a byte.
pub proof fn lemma_serialization_tags_distinct(a: SerializationTag, b: SerializationTag)
    ensures
        a.code() == b.code() ==> a == b,
{
}

/// The host objects that the core serializer knows by tag. A tag is written as
/// one raw byte before the payload of the object.
#[derive(Clone, Copy, Debug, PartialEq, Eq, Hash, Structural)]
pub enum StructuredCloneHostObjectTag {
    /// Settings, `End`, width, height and the pixels as a V8 value.
    ImageData,
    /// Reserved for tests: not a part of the Web API.
    TestTransferable,
}

impl StructuredCloneHostObjectTag {
    /// The byte that stands for the tag.
    pub open spec fn code(self) -> u8 {
        match self {
            StructuredCloneHostObjectTag::ImageData => 0x23,
            StructuredCloneHostObjectTag::TestTransferable => 0x7E,
        }
    }

    /// The byte that stands for the tag.
    pub fn as_u8(self) -> (byte: u8)
        ensures
            byte == self.code(),
    {
        match self {
            StructuredCloneHostObjectTag::ImageData => 0x23,
            StructuredCloneHostObjectTag::TestTransferable => 0x7E,
        }
    }

    /// The tag that `tag` stands for, if it stands for any.
    pub fn from_tag(tag: u8) -> (res: Option<Self>)
        ensures
            res matches Some(known) ==> known.code() == tag,
            res is None ==> forall|other: Self| #[trigger] other.code() != tag,
    {
        if tag == StructuredCloneHostObjectTag::ImageData.as_u8() {
            Some(StructuredCloneHostObjectTag::ImageData)
        } else if tag == StructuredCloneHostObjectTag::TestTransferable.as_u8() {
            Some(StructuredCloneHostObjectTag::TestTransferable)
        } else {
            None
        }
    }
}

/// No two host objects share a byte, so the byte gives the tag back.
pub proof fn lemma_core_host_object_tags_distinct(
    a: StructuredCloneHostObjectTag,
    b: StructuredCloneHostObjectTag,
)
    ensures
        a.code() == b.code() ==> a == b,
{
}

/// The bytes of the tags, which stored data holds.
pub proof fn lemma_serialization_tag_bytes(tag: SerializationTag, byte: u8)
    requires
        call_ensures(SerializationTag::as_u8, (tag,), byte),
    ensures
        tag.code() == byte,
        tag is ImageData <==> byte == 0x23,
        tag is TrailerRequiresInterfaces <==> byte == 0xA0,
        tag is TrailerOffset <==> byte == 0xFE,
        tag is Version <==> byte == 0xFF,
{
}

/// The bytes of the host objects, which stored data holds.
pub proof fn lemma_core_host_object_tag_bytes(tag: StructuredCloneHostObjectTag, byte: u8)
    requires
        call_ensures(StructuredCloneHostObjectTag::as_u8, (tag,), byte),
    ensures
        tag.code() == byte,
        tag is ImageData <==> byte == 0x23,
        tag is TestTransferable <==> byte == 0x7E,
{
}

/// The host object that a byte stands for.
pub proof fn lemma_core_host_object_of_byte(byte: u8, res: Option<StructuredCloneHostObjectTag>)
    requires
        call_ensures(StructuredCloneHostObjectTag::from_tag, (byte,), res),
    ensures
        res == if byte == 0x23 {
            Some(StructuredCloneHostObjectTag::ImageData)
        } else if byte == 0x7E {
            Some(StructuredCloneHostObjectTag::TestTransferable)
        } else {
            None
        },
{
    assert(StructuredCloneHostObjectTag::ImageData.code() == 0x23);
    assert(StructuredCloneHostObjectTag::TestTransferable.code() == 0x7E);
}

} // verus!
