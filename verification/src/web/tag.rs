//! The tags of Web platform objects.

use vstd::prelude::*;

verus! {

/// The Web platform objects by tag. A tag is written as one raw byte before the
/// payload of the object. Values are permanent: never renumbered, never reused
/// after retirement.
#[derive(Clone, Copy, Debug, PartialEq, Eq, Hash, Structural)]
pub enum StructuredCloneHostObjectTag {
    /// Settings, `End`, width, height and the pixels as a V8 value.
    ImageData,
    /// Reserved: settings, width, height, the length of the pixels and the
    /// pixels.
    ImageBitmap,
    /// The number of a transferred `ImageBitmap`.
    ImageBitmapTransfer,
    /// The number of a transferred `OffscreenCanvas`.
    OffscreenCanvasTransfer,
    /// Reserved for tests: not a part of the Web API.
    TestTransferable,
}

impl StructuredCloneHostObjectTag {
    /// The byte that stands for the tag.
    pub open spec fn code(self) -> u8 {
        match self {
            StructuredCloneHostObjectTag::ImageData => 0x23,
            StructuredCloneHostObjectTag::ImageBitmap => 0x67,
            StructuredCloneHostObjectTag::ImageBitmapTransfer => 0x47,
            StructuredCloneHostObjectTag::OffscreenCanvasTransfer => 0x48,
            StructuredCloneHostObjectTag::TestTransferable => 0x7E,
        }
    }

    /// Whether objects that are registered with the tag are read. The tag of a
    /// bitmap that was not transferred has no reader yet.
    pub open spec fn is_readable(self) -> bool {
        !(self is ImageBitmap)
    }

    /// Whether the tag is one of the Web API that is read.
    pub open spec fn is_web_tag(self) -> bool {
        self.is_readable() && !(self is TestTransferable)
    }

    /// The byte that stands for the tag.
    pub fn as_u8(self) -> (byte: u8)
        ensures
            byte == self.code(),
    {
        match self {
            StructuredCloneHostObjectTag::ImageData => 0x23,
            StructuredCloneHostObjectTag::ImageBitmap => 0x67,
            StructuredCloneHostObjectTag::ImageBitmapTransfer => 0x47,
            StructuredCloneHostObjectTag::OffscreenCanvasTransfer => 0x48,
            StructuredCloneHostObjectTag::TestTransferable => 0x7E,
        }
    }

    /// The tag of the Web API that `tag` stands for, if it stands for any that is
    /// read.
    pub fn from_tag(tag: u8) -> (res: Option<Self>)
        ensures
            res matches Some(known) ==> known.is_web_tag() && known.code() == tag,
            res is None ==> forall|other: Self| other.is_web_tag() ==> #[trigger] other.code() != tag,
    {
        if tag == StructuredCloneHostObjectTag::ImageData.as_u8() {
            Some(StructuredCloneHostObjectTag::ImageData)
        } else if tag == StructuredCloneHostObjectTag::ImageBitmapTransfer.as_u8() {
            Some(StructuredCloneHostObjectTag::ImageBitmapTransfer)
        } else if tag == StructuredCloneHostObjectTag::OffscreenCanvasTransfer.as_u8() {
            Some(StructuredCloneHostObjectTag::OffscreenCanvasTransfer)
        } else {
            None
        }
    }

    /// The tag that the first byte of a record stands for, if objects with it are
    /// read. Besides the tags of the Web API that is the tag reserved for tests:
    /// what a test registers with it is read back.
    pub fn from_record_tag(tag: u8) -> (res: Option<Self>)
        ensures
            res matches Some(known) ==> known.is_readable() && known.code() == tag,
            res is None ==> forall|other: Self| other.is_readable() ==> #[trigger] other.code() != tag,
    {
        if tag == StructuredCloneHostObjectTag::TestTransferable.as_u8() {
            Some(StructuredCloneHostObjectTag::TestTransferable)
        } else {
            Self::from_tag(tag)
        }
    }
}

/// No two objects share a byte, so the byte gives the tag back.
pub proof fn lemma_web_host_object_tags_distinct(
    a: StructuredCloneHostObjectTag,
    b: StructuredCloneHostObjectTag,
)
    ensures
        a.code() == b.code() ==> a == b,
{
}

/// The bytes of the objects, which stored data holds.
pub proof fn lemma_web_host_object_tag_bytes(tag: StructuredCloneHostObjectTag, byte: u8)
    requires
        call_ensures(StructuredCloneHostObjectTag::as_u8, (tag,), byte),
    ensures
        tag.code() == byte,
        tag is ImageData <==> byte == 0x23,
        tag is ImageBitmap <==> byte == 0x67,
        tag is ImageBitmapTransfer <==> byte == 0x47,
        tag is OffscreenCanvasTransfer <==> byte == 0x48,
        tag is TestTransferable <==> byte == 0x7E,
{
}

/// The object of the Web API that a byte stands for.
pub proof fn lemma_web_host_object_of_byte(byte: u8, res: Option<StructuredCloneHostObjectTag>)
    requires
        call_ensures(StructuredCloneHostObjectTag::from_tag, (byte,), res),
    ensures
        res == if byte == 0x23 {
            Some(StructuredCloneHostObjectTag::ImageData)
        } else if byte == 0x47 {
            Some(StructuredCloneHostObjectTag::ImageBitmapTransfer)
        } else if byte == 0x48 {
            Some(StructuredCloneHostObjectTag::OffscreenCanvasTransfer)
        } else {
            None
        },
{
    assert(StructuredCloneHostObjectTag::ImageData.code() == 0x23);
    assert(StructuredCloneHostObjectTag::ImageBitmapTransfer.code() == 0x47);
    assert(StructuredCloneHostObjectTag::OffscreenCanvasTransfer.code() == 0x48);
}

/// The object that the first byte of a record stands for.
pub proof fn lemma_recorded_object_of_byte(byte: u8, res: Option<StructuredCloneHostObjectTag>)
    requires
        call_ensures(StructuredCloneHostObjectTag::from_record_tag, (byte,), res),
    ensures
        res == if byte == 0x23 {
            Some(StructuredCloneHostObjectTag::ImageData)
        } else if byte == 0x47 {
            Some(StructuredCloneHostObjectTag::ImageBitmapTransfer)
        } else if byte == 0x48 {
            Some(StructuredCloneHostObjectTag::OffscreenCanvasTransfer)
        } else if byte == 0x7E {
            Some(StructuredCloneHostObjectTag::TestTransferable)
        } else {
            None
        },
{
    assert(StructuredCloneHostObjectTag::ImageData.code() == 0x23);
    assert(StructuredCloneHostObjectTag::ImageBitmapTransfer.code() == 0x47);
    assert(StructuredCloneHostObjectTag::OffscreenCanvasTransfer.code() == 0x48);
    assert(StructuredCloneHostObjectTag::TestTransferable.code() == 0x7E);
}

} // verus!
