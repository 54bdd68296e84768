//! The envelope with a trailer.
//!
//! ```text
//! Version tag | version: varint | TrailerOffset tag
//! | trailer offset: u64 big-endian | trailer size: u32 big-endian
//! | V8 header and payload | trailer
//! ```
//!
//! The trailer lists the interfaces whose objects the payload holds, so that a
//! reader can tell, without reading the payload, whether its realm exposes all
//! of them. Offset and size are both zero where there is no trailer.

use vstd::prelude::*;
use vstd::slice::slice_subrange;

use crate::big_endian::{be_bytes, be_value, push_be, put_be, read_be};
use crate::serialization::error::CloneError;
use crate::serialization::tag::SerializationTag;
use crate::varint::{read_strict_u32_varint, strict_u32_varint, varint_bytes, write_u32_varint};

verus! {

/// Why a buffer is not a well-formed envelope.
#[derive(Clone, Copy, Debug, PartialEq, Eq, Structural)]
pub enum TrailerError {
    InvalidHeader,
    InvalidTrailer,
}

/// The bytes of the offset and the size of the trailer together.
pub const TRAILER_METADATA_BYTE_LENGTH: usize = 12;

/// The trailer that requires `tags`: empty when there are none, else the tag of
/// the record, how many interface tags it holds, and they.
pub open spec fn trailer_bytes(tags: Seq<u8>) -> Seq<u8> {
    if tags.len() == 0 {
        Seq::empty()
    } else {
        seq![SerializationTag::TrailerRequiresInterfaces.code()] + be_bytes(tags.len(), 4) + tags
    }
}

/// The interface tags that a trailer requires, `None` where it is malformed. A
/// trailer is empty or is one record, complete and with nothing behind it.
pub open spec fn required_interfaces(trailer: Seq<u8>) -> Option<Seq<u8>> {
    if trailer.len() == 0 {
        Some(Seq::empty())
    } else {
        match first_record(trailer) {
            Some(tags) => if trailer.len() == 5 + tags.len() {
                Some(tags)
            } else {
                None
            },
            None => None,
        }
    }
}

/// The interface tags of the record at the start of a trailer, `None` where it
/// is not a record that lists interfaces or is cut short.
pub open spec fn first_record(trailer: Seq<u8>) -> Option<Seq<u8>> {
    if trailer.len() >= 5 && trailer[0] == SerializationTag::TrailerRequiresInterfaces.code()
        && be_value(trailer.subrange(1, 5)) <= trailer.len() - 5 {
        Some(trailer.subrange(5, 5 + be_value(trailer.subrange(1, 5)) as int))
    } else {
        None
    }
}

fn contains_byte(bytes: &[u8], byte: u8) -> (res: bool)
    ensures
        res == bytes@.contains(byte),
{
    let mut index: usize = 0;
    while index < bytes.len()
        invariant
            index <= bytes@.len(),
            forall|i: int| 0 <= i < index ==> bytes@[i] != byte,
        decreases bytes@.len() - index,
    {
        if bytes[index] == byte {
            return true;
        }
        index = index + 1;
    }
    false
}

/// Collects the interfaces that a graph needs, each once.
pub struct TrailerWriter {
    required_exposed_interfaces: Vec<u8>,
}

impl TrailerWriter {
    /// The interface tags required so far, in the order in which each was first
    /// required.
    pub closed spec fn view(&self) -> Seq<u8> {
        self.required_exposed_interfaces@
    }

    /// No tag is listed twice.
    pub open spec fn wf(&self) -> bool {
        self.view().no_duplicates()
    }

    /// Requires nothing yet.
    pub fn new() -> (writer: Self)
        ensures
            writer.wf(),
            writer.view() == Seq::<u8>::empty(),
    {
        TrailerWriter { required_exposed_interfaces: Vec::new() }
    }

    /// Requires the interface of `tag`. A graph can hold objects of one
    /// interface many times; one requirement is enough.
    pub fn require_exposed_interface(&mut self, tag: u8)
        requires
            old(self).wf(),
            tag != 0,
        ensures
            final(self).wf(),
            final(self).view() == if old(self).view().contains(tag) {
                old(self).view()
            } else {
                old(self).view().push(tag)
            },
    {
        if !contains_byte(self.required_exposed_interfaces.as_slice(), tag) {
            self.required_exposed_interfaces.push(tag);
        }
    }

    /// The trailer to append: no bytes at all where nothing is required.
    pub fn make_trailer_data(&self) -> (trailer: Vec<u8>)
        requires
            self.wf(),
        ensures
            trailer@ == trailer_bytes(self.view()),
    {
        proof {
            lemma_distinct_bytes_bounded(self.view());
        }
        if self.required_exposed_interfaces.len() == 0 {
            return Vec::new();
        }
        let count: usize = self.required_exposed_interfaces.len();
        let mut trailer: Vec<u8> = Vec::with_capacity(1 + 4 + count);
        trailer.push(SerializationTag::TrailerRequiresInterfaces.as_u8());
        push_be(&mut trailer, 4, count as u64);
        let ghost head = trailer@;
        trailer.extend_from_slice(self.required_exposed_interfaces.as_slice());
        assert(trailer@ == head + self.view());
        assert(head == seq![SerializationTag::TrailerRequiresInterfaces.code()] + be_bytes(
            self.view().len(),
            4,
        ));
        trailer
    }
}

impl Default for TrailerWriter {
    fn default() -> (writer: Self)
        ensures
            writer.wf(),
            writer.view() == Seq::<u8>::empty(),
    {
        TrailerWriter::new()
    }
}

/// There are no more distinct bytes than byte values.
pub proof fn lemma_distinct_bytes_bounded(tags: Seq<u8>)
    requires
        tags.no_duplicates(),
    ensures
        tags.len() <= 256,
{
    let values = tags.map_values(|tag: u8| tag as int);
    assert(values.no_duplicates());
    values.unique_seq_to_set();
    vstd::set_lib::lemma_int_range(0, 256);
    assert(values.to_set().subset_of(vstd::set_lib::set_int_range(0, 256)));
    vstd::set_lib::lemma_len_subset(values.to_set(), vstd::set_lib::set_int_range(0, 256));
}

/// What the fixed part of the envelope says.
#[derive(Clone, Copy, Debug, PartialEq, Eq, Structural)]
pub struct EnvelopeHeader {
    pub wire_format_version: u32,
    /// Where V8's data starts.
    pub payload_start: usize,
    pub trailer_offset: u64,
    pub trailer_size: u32,
}

/// The fixed part of an envelope.
pub open spec fn envelope_prefix(version: u32, offset: nat, size: nat) -> Seq<u8> {
    seq![SerializationTag::Version.code()] + varint_bytes(version as nat)
        + seq![SerializationTag::TrailerOffset.code()] + be_bytes(offset, 8) + be_bytes(size, 4)
}

/// What the start of `bytes` says, `None` where it is not a complete and
/// well-formed fixed part.
pub open spec fn envelope_header(bytes: Seq<u8>) -> Option<EnvelopeHeader> {
    if bytes.len() == 0 || bytes[0] != SerializationTag::Version.code() {
        None
    } else {
        match strict_u32_varint(bytes.skip(1)) {
            Some((version, len)) => {
                let metadata = 2 + len as int;
                if bytes.len() < metadata + TRAILER_METADATA_BYTE_LENGTH || bytes[metadata - 1]
                    != SerializationTag::TrailerOffset.code() {
                    None
                } else {
                    Some(
                        EnvelopeHeader {
                            wire_format_version: version,
                            payload_start: (metadata + TRAILER_METADATA_BYTE_LENGTH) as usize,
                            trailer_offset: be_value(
                                bytes.subrange(metadata, metadata + 8),
                            ) as u64,
                            trailer_size: be_value(
                                bytes.subrange(metadata + 8, metadata + 12),
                            ) as u32,
                        },
                    )
                }
            },
            None => None,
        }
    }
}

/// Reads the fixed part of the envelope.
pub fn read_envelope_header(bytes: &[u8]) -> (res: Result<EnvelopeHeader, TrailerError>)
    ensures
        match res {
            Ok(header) => envelope_header(bytes@) == Some(header),
            Err(error) => error == TrailerError::InvalidHeader && envelope_header(bytes@) is None,
        },
{
    if bytes.len() == 0 || bytes[0] != SerializationTag::Version.as_u8() {
        return Err(TrailerError::InvalidHeader);
    }
    let (version, len): (u32, usize) = match read_strict_u32_varint(bytes, 1) {
        Some(found) => found,
        None => {
            return Err(TrailerError::InvalidHeader);
        },
    };
    proof {
        crate::varint::lemma_varint_len_bounds(bytes@.skip(1));
    }
    let position: usize = 1 + len;
    if position == bytes.len() || bytes[position] != SerializationTag::TrailerOffset.as_u8() {
        return Err(TrailerError::InvalidHeader);
    }
    if bytes.len() - position - 1 < TRAILER_METADATA_BYTE_LENGTH {
        return Err(TrailerError::InvalidHeader);
    }
    proof {
        crate::big_endian::lemma_byte_limits();
    }
    Ok(
        EnvelopeHeader {
            wire_format_version: version,
            payload_start: position + 1 + TRAILER_METADATA_BYTE_LENGTH,
            trailer_offset: read_be(bytes, position + 1, 8),
            trailer_size: read_be(bytes, position + 9, 4) as u32,
        },
    )
}

/// Whether the trailer that `header` speaks of lies behind the header and
/// within a buffer of `len` bytes.
pub open spec fn trailer_in_range(header: EnvelopeHeader, len: nat) -> bool {
    header.payload_start <= header.trailer_offset && header.trailer_offset + header.trailer_size
        <= len
}

/// Reads an envelope in one pass: first the header, then the trailer.
pub struct TrailerReader<'a> {
    bytes: &'a [u8],
    wire_format_version: u32,
    v8_payload: &'a [u8],
    trailer: &'a [u8],
    required_exposed_interfaces: Vec<u8>,
    skipped_to_trailer: bool,
    finished: bool,
}

/// What a reader has made of its buffer so far.
#[verifier::ext_equal]
pub struct TrailerReaderView {
    /// The whole buffer.
    pub bytes: Seq<u8>,
    /// The version that the header gave.
    pub wire_format_version: u32,
    /// V8's data.
    pub v8_payload: Seq<u8>,
    /// The trailer, not looked into yet.
    pub trailer: Seq<u8>,
    /// The interface tags that the trailer gave.
    pub required_exposed_interfaces: Seq<u8>,
    /// Whether the header has been read.
    pub skipped_to_trailer: bool,
    /// Whether the trailer has been read.
    pub finished: bool,
}

impl<'a> View for TrailerReader<'a> {
    type V = TrailerReaderView;

    closed spec fn view(&self) -> TrailerReaderView {
        TrailerReaderView {
            bytes: self.bytes@,
            wire_format_version: self.wire_format_version,
            v8_payload: self.v8_payload@,
            trailer: self.trailer@,
            required_exposed_interfaces: self.required_exposed_interfaces@,
            skipped_to_trailer: self.skipped_to_trailer,
            finished: self.finished,
        }
    }
}

/// A reader of `bytes` that has read nothing.
pub open spec fn fresh_reader(bytes: Seq<u8>) -> TrailerReaderView {
    TrailerReaderView {
        bytes,
        wire_format_version: 0,
        v8_payload: Seq::empty(),
        trailer: Seq::empty(),
        required_exposed_interfaces: Seq::empty(),
        skipped_to_trailer: false,
        finished: false,
    }
}

/// Whether the header has no trailer to speak of.
pub open spec fn without_trailer(header: EnvelopeHeader) -> bool {
    header.trailer_offset == 0 && header.trailer_size == 0
}

/// Whether there is a trailer to skip to. The header is refused where it is
/// malformed and where it puts the trailer out of range.
pub open spec fn skipped_reader(reader: TrailerReaderView) -> Result<bool, TrailerError> {
    match envelope_header(reader.bytes) {
        None => Err(TrailerError::InvalidHeader),
        Some(header) => if without_trailer(header) {
            Ok(false)
        } else if trailer_in_range(header, reader.bytes.len()) {
            Ok(true)
        } else {
            Err(TrailerError::InvalidHeader)
        },
    }
}

/// The reader after its header was read: V8's data runs from the end of the
/// header to the trailer, or to the end of the buffer where there is none.
pub open spec fn reader_after_skip(reader: TrailerReaderView) -> TrailerReaderView {
    let bytes = reader.bytes;
    let skipped = TrailerReaderView { skipped_to_trailer: true, ..reader };
    match envelope_header(bytes) {
        None => skipped,
        Some(header) => {
            let start = header.payload_start as int;
            let offset = header.trailer_offset as int;
            let seen = TrailerReaderView {
                wire_format_version: header.wire_format_version,
                ..skipped
            };
            if without_trailer(header) {
                TrailerReaderView { v8_payload: bytes.skip(start), ..seen }
            } else if trailer_in_range(header, bytes.len()) {
                TrailerReaderView {
                    v8_payload: bytes.subrange(start, offset),
                    trailer: bytes.subrange(offset, offset + header.trailer_size),
                    ..seen
                }
            } else {
                seen
            }
        },
    }
}

impl<'a> TrailerReader<'a> {
    pub fn new(bytes: &'a [u8]) -> (reader: Self)
        ensures
            reader@ == fresh_reader(bytes@),
    {
        TrailerReader {
            bytes,
            wire_format_version: 0,
            v8_payload: slice_subrange(bytes, 0, 0),
            trailer: slice_subrange(bytes, 0, 0),
            required_exposed_interfaces: Vec::new(),
            skipped_to_trailer: false,
            finished: false,
        }
    }

    /// Reads the header and finds V8's data and the trailer. Tells whether there
    /// is a trailer: there is none where its offset and size are both zero, and
    /// then V8's data runs to the end of the buffer. To be called once.
    pub fn skip_to_trailer(&mut self) -> (res: Result<bool, TrailerError>)
        requires
            !old(self)@.skipped_to_trailer,
        ensures
            match skipped_reader(old(self)@) {
                Ok(found) => res == Ok::<bool, TrailerError>(found),
                Err(error) => res == Err::<bool, TrailerError>(error),
            },
            final(self)@ == reader_after_skip(old(self)@),
    {
        self.skipped_to_trailer = true;
        let header: EnvelopeHeader = match read_envelope_header(self.bytes) {
            Ok(header) => header,
            Err(error) => {
                return Err(error);
            },
        };
        self.wire_format_version = header.wire_format_version;
        if header.trailer_offset == 0 && header.trailer_size == 0 {
            self.v8_payload = slice_subrange(self.bytes, header.payload_start, self.bytes.len());
            return Ok(false);
        }
        let len: u64 = self.bytes.len() as u64;
        if header.trailer_offset < header.payload_start as u64 || header.trailer_offset > len
            || header.trailer_size as u64 > len - header.trailer_offset {
            assert(!trailer_in_range(header, self.bytes@.len()));
            return Err(TrailerError::InvalidHeader);
        }
        let trailer_offset: usize = header.trailer_offset as usize;
        let trailer_end: usize = trailer_offset + header.trailer_size as usize;
        self.v8_payload = slice_subrange(self.bytes, header.payload_start, trailer_offset);
        self.trailer = slice_subrange(self.bytes, trailer_offset, trailer_end);
        Ok(true)
    }

    /// Reads the trailer that `skip_to_trailer` found. To be called once, after
    /// it. Where a complete record is followed by more bytes the trailer is
    /// refused, though the tags of that record have been taken in.
    pub fn read(&mut self) -> (res: Result<(), TrailerError>)
        requires
            old(self)@.skipped_to_trailer,
            !old(self)@.finished,
        ensures
            res is Ok <==> required_interfaces(old(self)@.trailer) is Some,
            res is Err ==> res == Err::<(), TrailerError>(TrailerError::InvalidTrailer),
            final(self)@ == (TrailerReaderView {
                finished: true,
                required_exposed_interfaces: old(self)@.required_exposed_interfaces
                    + match first_record(old(self)@.trailer) {
                    Some(tags) => tags,
                    None => Seq::empty(),
                },
                ..old(self)@
            }),
    {
        self.finished = true;
        let trailer: &'a [u8] = self.trailer;
        if trailer.len() == 0 {
            assert(final(self)@.required_exposed_interfaces
                == old(self)@.required_exposed_interfaces + Seq::<u8>::empty());
            return Ok(());
        }
        if trailer.len() < 5 || trailer[0]
            != SerializationTag::TrailerRequiresInterfaces.as_u8() {
            return Err(TrailerError::InvalidTrailer);
        }
        let count: u64 = read_be(trailer, 1, 4);
        if count > (trailer.len() - 5) as u64 {
            return Err(TrailerError::InvalidTrailer);
        }
        let end: usize = 5 + count as usize;
        let ghost before = self.required_exposed_interfaces@;
        let tags: &[u8] = slice_subrange(trailer, 5, end);
        self.required_exposed_interfaces.extend_from_slice(tags);
        assert(self.required_exposed_interfaces@ == before + tags@);
        if end < trailer.len() {
            return Err(TrailerError::InvalidTrailer);
        }
        Ok(())
    }

    pub fn wire_format_version(&self) -> (version: u32)
        ensures
            version == self@.wire_format_version,
    {
        self.wire_format_version
    }

    pub fn v8_payload(&self) -> (payload: &'a [u8])
        ensures
            payload@ == self@.v8_payload,
    {
        self.v8_payload
    }

    pub fn required_exposed_interfaces(&self) -> (tags: &[u8])
        ensures
            tags@ == self@.required_exposed_interfaces,
    {
        self.required_exposed_interfaces.as_slice()
    }
}

/// A complete envelope: `payload` is V8's data, `tags` the interfaces that it
/// needs.
pub open spec fn sealed_envelope(version: u32, payload: Seq<u8>, tags: Seq<u8>) -> Seq<u8> {
    let trailer = trailer_bytes(tags);
    let offset = if tags.len() == 0 {
        0
    } else {
        envelope_prefix(version, 0, 0).len() + payload.len()
    };
    envelope_prefix(version, offset, trailer.len()) + payload + trailer
}

/// The start of an envelope, with room for the position of the trailer. V8's
/// data is to follow.
pub fn begin_envelope(wire_format_version: u32) -> (bytes: Vec<u8>)
    ensures
        bytes@ == envelope_prefix(wire_format_version, 0, 0),
{
    let mut bytes: Vec<u8> = Vec::new();
    bytes.push(SerializationTag::Version.as_u8());
    write_u32_varint(&mut bytes, wire_format_version);
    bytes.push(SerializationTag::TrailerOffset.as_u8());
    push_be(&mut bytes, 8, 0);
    push_be(&mut bytes, 4, 0);
    assert(bytes@ == envelope_prefix(wire_format_version, 0, 0));
    bytes
}

/// Completes an envelope that `begin_envelope` started and that V8's data was
/// appended to: appends the trailer and fills in where it is.
pub fn finish_envelope(bytes: &mut Vec<u8>, wire_format_version: u32, writer: &TrailerWriter)
    requires
        writer.wf(),
        envelope_prefix(wire_format_version, 0, 0).is_prefix_of(old(bytes)@),
    ensures
        final(bytes)@ == sealed_envelope(
            wire_format_version,
            old(bytes)@.skip(envelope_prefix(wire_format_version, 0, 0).len() as int),
            writer.view(),
        ),
{
    let ghost prefix = envelope_prefix(wire_format_version, 0, 0);
    let ghost payload = bytes@.skip(prefix.len() as int);
    let mut trailer: Vec<u8> = writer.make_trailer_data();
    proof {
        lemma_prefix_len(wire_format_version, 0, 0);
        lemma_distinct_bytes_bounded(writer.view());
        crate::varint::lemma_u32_varint_len(wire_format_version);
        crate::big_endian::lemma_be_bytes_len(writer.view().len(), 4);
        crate::big_endian::lemma_be_bytes_len(0, 8);
        crate::big_endian::lemma_be_bytes_len(0, 4);
        crate::big_endian::lemma_be_bytes_len(bytes@.len(), 8);
        crate::big_endian::lemma_be_bytes_len(trailer@.len(), 4);
        assert(bytes@ == prefix + payload);
    }
    if trailer.len() == 0 {
        assert(bytes@ == sealed_envelope(wire_format_version, payload, writer.view()));
        return ;
    }
    let mut version: Vec<u8> = Vec::new();
    write_u32_varint(&mut version, wire_format_version);
    let metadata: usize = version.len() + 2;
    let ghost offset = bytes@.len();
    let ghost size = trailer@.len();
    let ghost head = prefix.take(metadata as int);
    put_be(bytes, metadata, 8, bytes.len() as u64);
    assert(bytes@ == head + be_bytes(offset, 8) + be_bytes(0, 4) + payload);
    put_be(bytes, metadata + 8, 4, trailer.len() as u64);
    assert(bytes@ == head + be_bytes(offset, 8) + be_bytes(size, 4) + payload);
    bytes.append(&mut trailer);
    assert(head + be_bytes(offset, 8) + be_bytes(size, 4) == envelope_prefix(
        wire_format_version,
        offset,
        size,
    ));
}

/// How long the fixed part is.
pub proof fn lemma_prefix_len(version: u32, offset: nat, size: nat)
    ensures
        envelope_prefix(version, offset, size).len() == varint_bytes(version as nat).len() + 2
            + TRAILER_METADATA_BYTE_LENGTH,
{
    crate::big_endian::lemma_be_bytes_len(offset, 8);
    crate::big_endian::lemma_be_bytes_len(size, 4);
}

/// The header reads back what the fixed part was written with, whatever follows.
pub proof fn lemma_header_round_trip(version: u32, offset: u64, size: u32, rest: Seq<u8>)
    ensures
        envelope_header(envelope_prefix(version, offset as nat, size as nat) + rest) == Some(
            EnvelopeHeader {
                wire_format_version: version,
                payload_start: envelope_prefix(version, 0, 0).len() as usize,
                trailer_offset: offset,
                trailer_size: size,
            },
        ),
{
    let number = varint_bytes(version as nat);
    let prefix = envelope_prefix(version, offset as nat, size as nat);
    let bytes = prefix + rest;
    let metadata = 2 + number.len() as int;
    let after = seq![SerializationTag::TrailerOffset.code()] + be_bytes(offset as nat, 8)
        + be_bytes(size as nat, 4) + rest;
    lemma_prefix_len(version, offset as nat, size as nat);
    lemma_prefix_len(version, 0, 0);
    crate::big_endian::lemma_byte_limits();
    crate::big_endian::lemma_be_round_trip(offset as nat, 8);
    crate::big_endian::lemma_be_round_trip(size as nat, 4);
    crate::varint::lemma_u32_varint_len(version);
    crate::varint::lemma_varint_round_trip(version, after);
    assert(bytes.skip(1) == number + after);
    assert(bytes[metadata - 1] == SerializationTag::TrailerOffset.code());
    assert(bytes.subrange(metadata, metadata + 8) == be_bytes(offset as nat, 8));
    assert(bytes.subrange(metadata + 8, metadata + 12) == be_bytes(size as nat, 4));
}

/// A trailer reads back the tags that it was written with.
pub proof fn lemma_trailer_round_trip(tags: Seq<u8>)
    requires
        tags.len() <= u32::MAX,
    ensures
        required_interfaces(trailer_bytes(tags)) == Some(tags),
        tags.len() > 0 ==> first_record(trailer_bytes(tags)) == Some(tags),
{
    let trailer = trailer_bytes(tags);
    if tags.len() > 0 {
        crate::big_endian::lemma_byte_limits();
        crate::big_endian::lemma_be_round_trip(tags.len(), 4);
        assert(trailer.subrange(1, 5) == be_bytes(tags.len(), 4));
        assert(trailer.subrange(5, 5 + tags.len() as int) == tags);
    } else {
        assert(tags == Seq::<u8>::empty());
    }
}

/// Reading an envelope gives back what it was sealed with: the version, V8's
/// data and the interface tags. The sizes are bounded by what the fixed-width
/// fields and the address space hold.
pub proof fn lemma_envelope_round_trip(version: u32, payload: Seq<u8>, tags: Seq<u8>)
    requires
        tags.len() + 5 <= u32::MAX,
        sealed_envelope(version, payload, tags).len() <= usize::MAX,
    ensures
        ({
            let fresh = fresh_reader(sealed_envelope(version, payload, tags));
            let skipped = reader_after_skip(fresh);
            &&& skipped_reader(fresh) == Ok::<bool, TrailerError>(tags.len() > 0)
            &&& skipped.wire_format_version == version
            &&& skipped.v8_payload == payload
            &&& required_interfaces(skipped.trailer) == Some(tags)
        }),
{
    let prefix = envelope_prefix(version, 0, 0);
    let trailer = trailer_bytes(tags);
    let bytes = sealed_envelope(version, payload, tags);
    let offset: nat = if tags.len() == 0 {
        0
    } else {
        prefix.len() + payload.len()
    };
    lemma_trailer_round_trip(tags);
    lemma_prefix_len(version, 0, 0);
    lemma_prefix_len(version, offset, trailer.len());
    crate::big_endian::lemma_be_bytes_len(tags.len(), 4);
    lemma_header_round_trip(version, offset as u64, trailer.len() as u32, payload + trailer);
    assert(bytes == envelope_prefix(version, offset, trailer.len()) + (payload + trailer));
    crate::varint::lemma_u32_varint_len(version);
    if tags.len() == 0 {
        assert(bytes.skip(prefix.len() as int) == payload);
    } else {
        assert(bytes.subrange(prefix.len() as int, offset as int) == payload);
        assert(bytes.subrange(offset as int, (offset + trailer.len()) as int) == trailer);
    }
}

/// Whether a realm that exposes the interfaces `exposed` exposes all that are
/// required.
pub open spec fn all_exposed(required: Seq<u8>, exposed: Seq<u8>) -> bool {
    forall|i: int| 0 <= i < required.len() ==> exposed.contains(#[trigger] required[i])
}

/// The first required interface that a realm does not expose, if there is one:
/// `required` and `exposed` hold interface tags. A buffer can be deserialized in
/// the realm only where there is none.
pub fn first_unexposed_interface(required: &[u8], exposed: &[u8]) -> (res: Option<u8>)
    ensures
        res matches Some(tag) ==> exists|i: int|
            0 <= i < required@.len() && #[trigger] required@[i] == tag && !exposed@.contains(tag)
                && forall|j: int| 0 <= j < i ==> exposed@.contains(#[trigger] required@[j]),
        res is None ==> all_exposed(required@, exposed@),
{
    let mut index: usize = 0;
    while index < required.len()
        invariant
            index <= required@.len(),
            forall|j: int| 0 <= j < index ==> exposed@.contains(#[trigger] required@[j]),
        decreases required@.len() - index,
    {
        let tag: u8 = required[index];
        if !contains_byte(exposed, tag) {
            assert(required@[index as int] == tag);
            return Some(tag);
        }
        index = index + 1;
    }
    None
}

/// Refuses data that needs an interface which a realm does not expose, before any
/// of it is deserialized: `required` and `exposed` hold interface tags.
pub fn check_exposed_interfaces(required: &[u8], exposed: &[u8]) -> (res: Result<(), CloneError>)
    ensures
        res == if all_exposed(required@, exposed@) {
            Ok::<(), CloneError>(())
        } else {
            Err::<(), CloneError>(CloneError::InterfaceNotExposed)
        },
{
    match first_unexposed_interface(required, exposed) {
        None => Ok(()),
        Some(_) => Err(CloneError::InterfaceNotExposed),
    }
}

} // verus!
