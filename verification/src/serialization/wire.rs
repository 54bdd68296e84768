//! The wire format, byte by byte: what the envelopes hold, and which bytes are read
//! as one.

use vstd::prelude::*;

use crate::big_endian::{
    eight_byte_number, eight_bytes, four_byte_number, four_bytes, lemma_be_value_bound,
    lemma_byte_limits, lemma_field_numbers, lemma_fields,
};
use crate::serialization::deserialize::{opened_data, StructuredDeserialization};
use crate::serialization::envelope::{
    check_wire_format_version, opened, read_embedder_envelope, EnvelopeFormat,
};
use crate::serialization::error::CloneError;
use crate::serialization::serialize::StructuredSerialization;
use crate::serialization::trailer::{
    all_exposed, begin_envelope, check_exposed_interfaces, envelope_header, finish_envelope,
    first_unexposed_interface, lemma_prefix_len, read_envelope_header, EnvelopeHeader,
    TrailerError, TrailerReader, TrailerWriter,
};
use crate::varint::{groups_of, is_strict, lemma_groups, lemma_strict, strict_u32_varint};

verus! {

/// The marker of an envelope: "DENO", or one byte.
pub open spec fn marker_bytes(format: EnvelopeFormat) -> Seq<u8> {
    match format {
        EnvelopeFormat::Magic => seq![0x44, 0x45, 0x4E, 0x4F],
        EnvelopeFormat::Tagged => seq![0xFE],
    }
}

/// Whether `bytes` start with the marker.
pub open spec fn is_marked(format: EnvelopeFormat, bytes: Seq<u8>) -> bool {
    match format {
        EnvelopeFormat::Magic => bytes.len() >= 4 && bytes[0] == 0x44 && bytes[1] == 0x45
            && bytes[2] == 0x4E && bytes[3] == 0x4F,
        EnvelopeFormat::Tagged => bytes.len() >= 1 && bytes[0] == 0xFE,
    }
}

/// Whether an envelope is to be found open: behind the marker stands the version, in
/// `count` bytes.
pub open spec fn is_opened(
    format: EnvelopeFormat,
    bytes: Seq<u8>,
    version: int,
    count: int,
) -> bool {
    is_marked(format, bytes) && is_strict(
        bytes,
        marker_bytes(format).len() as int,
        version,
        count,
    )
}

/// Whether an error is right for bytes that are no envelope.
pub open spec fn is_refusal(format: EnvelopeFormat, bytes: Seq<u8>, error: CloneError) -> bool {
    if is_marked(format, bytes) {
        &&& error is InvalidVersion
        &&& forall|version: int, count: int|
            0 <= version ==> !#[trigger] is_opened(format, bytes, version, count)
    } else {
        error is InvalidMagic
    }
}

proof fn lemma_opened(format: EnvelopeFormat, bytes: Seq<u8>)
    ensures
        match opened(format.marker(), bytes) {
            Ok((version, start)) => is_opened(
                format,
                bytes,
                version as int,
                start - marker_bytes(format).len(),
            ),
            Err(error) => is_refusal(format, bytes, error),
        },
{
    let marker = format.marker();
    assert(marker =~= marker_bytes(format));
    let len = marker.len() as int;
    assert(is_marked(format, bytes) <==> marker.is_prefix_of(bytes)) by {
        if marker.is_prefix_of(bytes) {
            assert(bytes[0] == marker[0]);
            if len == 4 {
                assert(bytes[1] == marker[1] && bytes[2] == marker[2] && bytes[3] == marker[3]);
            }
        }
    }
    if is_marked(format, bytes) {
        match strict_u32_varint(bytes.skip(len)) {
            Some((version, count)) => {
                lemma_strict(bytes, len, version, count);
            },
            None => {
                assert forall|version: int, count: int| 0 <= version implies !#[trigger] is_opened(
                    format,
                    bytes,
                    version,
                    count,
                ) by {
                    if is_opened(format, bytes, version, count) {
                        lemma_strict(bytes, len, version as u32, count as nat);
                    }
                }
            },
        }
    }
}

/// An envelope is its marker and the version.
pub proof fn lemma_written_envelope(format: EnvelopeFormat, version: u32, bytes: Vec<u8>)
    requires
        call_ensures(EnvelopeFormat::write, (format, version), bytes),
    ensures
        bytes@ == marker_bytes(format) + groups_of(version),
{
    lemma_groups(version);
    assert(bytes@ =~= marker_bytes(format) + groups_of(version));
}

/// A serialization writes the envelope of its format with its version before V8's
/// header, or nothing.
pub proof fn lemma_written_prologue<B, T, E>(
    serialization: StructuredSerialization<B, T, E>,
    bytes: Vec<u8>,
)
    requires
        call_ensures(StructuredSerialization::<B, T, E>::prologue, (&serialization,), bytes),
    ensures
        bytes@ == match serialization@.envelope {
            Some(format) => marker_bytes(format) + groups_of(serialization@.version),
            None => Seq::empty(),
        },
{
    if let Some(format) = serialization@.envelope {
        lemma_groups(serialization@.version);
        assert(bytes@ =~= marker_bytes(format) + groups_of(serialization@.version));
    }
}

/// An envelope is opened where its marker and its version stand, and only there. What
/// is left is all that stands behind.
pub proof fn lemma_read_envelope(
    format: EnvelopeFormat,
    bytes: &[u8],
    res: Result<(u32, &[u8]), CloneError>,
)
    requires
        call_ensures(EnvelopeFormat::read, (format, bytes), res),
    ensures
        match res {
            Ok(found) => exists|count: int|
                #[trigger] is_opened(format, bytes@, found.0 as int, count) && found.1@
                    == bytes@.skip(marker_bytes(format).len() + count),
            Err(error) => is_refusal(format, bytes@, error),
        },
{
    lemma_opened(format, bytes@);
    if let Ok((version, start)) = opened(format.marker(), bytes@) {
        let count = start - marker_bytes(format).len();
        assert(is_opened(format, bytes@, version as int, count));
    }
}

/// The same of the envelope with the magic bytes.
pub proof fn lemma_read_embedder_envelope(
    bytes: &[u8],
    res: Result<(u32, &[u8]), CloneError>,
)
    requires
        call_ensures(read_embedder_envelope, (bytes,), res),
    ensures
        match res {
            Ok(found) => exists|count: int|
                #[trigger] is_opened(EnvelopeFormat::Magic, bytes@, found.0 as int, count)
                    && found.1@ == bytes@.skip(4 + count),
            Err(error) => is_refusal(EnvelopeFormat::Magic, bytes@, error),
        },
{
    lemma_opened(EnvelopeFormat::Magic, bytes@);
    if let Ok((version, start)) = opened(EnvelopeFormat::Magic.marker(), bytes@) {
        let count = start - 4;
        assert(is_opened(EnvelopeFormat::Magic, bytes@, version as int, count));
    }
}

/// The versions from one to the current one are readable, and no others.
pub proof fn lemma_readable_versions(version: u32, current: u32, res: Result<(), CloneError>)
    requires
        call_ensures(check_wire_format_version, (version, current), res),
    ensures
        res is Ok <==> 1 <= version && version <= current,
        res matches Err(error) ==> error == CloneError::UnsupportedVersion(version),
{
}

/// Data is opened where it stands in an envelope of a readable version. Data without
/// an envelope is opened as it is, and is of the current version.
pub proof fn lemma_opened_data(
    envelope: Option<EnvelopeFormat>,
    current: u32,
    serialized: Seq<u8>,
)
    ensures
        envelope is None ==> opened_data(envelope, current, serialized) == Ok::<
            (u32, nat),
            CloneError,
        >((current, 0)),
        envelope matches Some(format) ==> match opened_data(envelope, current, serialized) {
            Ok((version, start)) => 1 <= version && version <= current && is_opened(
                format,
                serialized,
                version as int,
                start - marker_bytes(format).len(),
            ),
            Err(CloneError::UnsupportedVersion(version)) => {
                &&& version == 0 || version > current
                &&& exists|count: int| #[trigger]
                    is_opened(format, serialized, version as int, count)
            },
            Err(error) => is_refusal(format, serialized, error),
        },
{
    if let Some(format) = envelope {
        lemma_opened(format, serialized);
        match opened(format.marker(), serialized) {
            Ok((version, start)) => {
                let count = start - marker_bytes(format).len();
                assert(is_opened(format, serialized, version as int, count));
            },
            Err(error) => {
                assert(is_refusal(format, serialized, error));
                assert(error is InvalidMagic || error is InvalidVersion);
            },
        }
    }
}

/// V8 is handed all that stands behind the envelope, and the version is the one in
/// the envelope.
pub proof fn lemma_handed_to_v8<B, T, V, E>(
    deserialization: StructuredDeserialization<B, T, V, E>,
    version: u32,
    payload: &[u8],
)
    requires
        deserialization.wf(),
        deserialization@.stage is Header || deserialization@.stage is Value,
        call_ensures(
            StructuredDeserialization::<B, T, V, E>::wire_format_version,
            (&deserialization,),
            version,
        ),
        call_ensures(
            StructuredDeserialization::<B, T, V, E>::payload,
            (&deserialization,),
            payload,
        ),
    ensures
        match deserialization@.envelope {
            None => version == deserialization@.current && payload@ == deserialization@.serialized,
            Some(format) => 1 <= version && version <= deserialization@.current && exists|
                count: int,
            | #[trigger]
                is_opened(format, deserialization@.serialized, version as int, count) && payload@
                    == deserialization@.serialized.skip(marker_bytes(format).len() + count),
        },
{
    let state = deserialization@;
    lemma_opened_data(state.envelope, state.current, state.serialized);
    assert(state.serialized.skip(0) == state.serialized);
    if let Some(format) = state.envelope {
        if let Ok((found, start)) = opened_data(state.envelope, state.current, state.serialized) {
            let count = start - marker_bytes(format).len();
            assert(is_opened(format, state.serialized, version as int, count));
        }
    }
}

/// The fixed part of an envelope with a trailer.
pub open spec fn fixed_part(version: u32, offset: int, size: int) -> Seq<u8> {
    seq![0xFFu8] + groups_of(version) + seq![0xFEu8] + eight_bytes(offset) + four_bytes(size)
}

/// An envelope starts with room for the trailer's place.
pub proof fn lemma_begun_envelope(version: u32, bytes: Vec<u8>)
    requires
        call_ensures(begin_envelope, (version,), bytes),
    ensures
        bytes@ == fixed_part(version, 0, 0),
{
    lemma_groups(version);
    lemma_fields(0);
    assert(bytes@ =~= fixed_part(version, 0, 0));
}

/// The trailer that lists the tags, or nothing for none.
pub open spec fn listed(tags: Seq<u8>) -> Seq<u8> {
    if tags.len() == 0 {
        Seq::empty()
    } else {
        seq![0xA0u8] + four_bytes(tags.len() as int) + tags
    }
}

/// A trailer lists the tags behind their number.
pub proof fn lemma_made_trailer(writer: TrailerWriter, trailer: Vec<u8>)
    requires
        writer.wf(),
        call_ensures(TrailerWriter::make_trailer_data, (&writer,), trailer),
    ensures
        trailer@ == listed(writer.view()),
{
    lemma_fields(writer.view().len());
}

/// An interface is listed once it is required, and never twice. Those that were listed
/// before stay where they are.
pub proof fn lemma_required_interface(writer: &mut TrailerWriter, tag: u8)
    requires
        old(writer).wf(),
        call_ensures(TrailerWriter::require_exposed_interface, (writer, tag), ()),
    ensures
        final(writer).view().contains(tag),
        old(writer).view().is_prefix_of(final(writer).view()),
        final(writer).view().no_duplicates(),
        forall|other: u8| #[trigger] final(writer).view().contains(other) ==> other == tag
            || old(writer).view().contains(other),
{
    let before = old(writer).view();
    let after = final(writer).view();
    if !before.contains(tag) {
        assert(after[before.len() as int] == tag);
        assert forall|other: u8|
            #[trigger] after.contains(other) && other != tag implies before.contains(other) by {
            let i = after.index_of(other);
            assert(before[i] == other);
        }
    }
}

/// A finished envelope is its fixed part, V8's data and the trailer. The fixed part
/// gives the place and the size of the trailer, zero for both where there is none.
pub proof fn lemma_finished_envelope(bytes: &mut Vec<u8>, version: u32, writer: TrailerWriter)
    requires
        writer.wf(),
        call_ensures(finish_envelope, (bytes, version, &writer), ()),
    ensures
        ({
            let start = groups_of(version).len() + 14;
            let payload = old(bytes)@.skip(start as int);
            let trailer = listed(writer.view());
            final(bytes)@ == fixed_part(
                version,
                if trailer.len() == 0 {
                    0
                } else {
                    (start + payload.len()) as int
                },
                trailer.len() as int,
            ) + payload + trailer
        }),
{
    lemma_groups(version);
    lemma_prefix_len(version, 0, 0);
    let start = groups_of(version).len() + 14;
    let payload = old(bytes)@.skip(start as int);
    let trailer = listed(writer.view());
    lemma_fields(writer.view().len());
    lemma_fields(trailer.len());
    lemma_fields(0);
    lemma_fields(start + payload.len());
}

/// Whether a header is right for the bytes.
pub open spec fn is_header(bytes: Seq<u8>, header: EnvelopeHeader, count: int) -> bool {
    &&& bytes.len() >= 14 + count
    &&& bytes[0] == 0xFF
    &&& is_strict(bytes, 1, header.wire_format_version as int, count)
    &&& bytes[1 + count] == 0xFE
    &&& header.trailer_offset == eight_byte_number(bytes, 2 + count)
    &&& header.trailer_size == four_byte_number(bytes, 10 + count)
    &&& header.payload_start == 14 + count
}

proof fn lemma_header(bytes: Seq<u8>)
    requires
        bytes.len() <= usize::MAX,
    ensures
        match envelope_header(bytes) {
            Some(header) => exists|count: int| #[trigger] is_header(bytes, header, count),
            None => forall|header: EnvelopeHeader, count: int| !#[trigger]
                is_header(bytes, header, count),
        },
{
    match envelope_header(bytes) {
        Some(header) => {
            let (version, len) = strict_u32_varint(bytes.skip(1))->0;
            lemma_strict(bytes, 1, version, len);
            lemma_field_numbers(bytes, 2 + len as int);
            lemma_field_numbers(bytes, 10 + len as int);
            lemma_byte_limits();
            lemma_be_value_bound(bytes.subrange(2 + len as int, 10 + len as int));
            lemma_be_value_bound(bytes.subrange(10 + len as int, 14 + len as int));
            assert(is_header(bytes, header, len as int));
        },
        None => {
            assert forall|header: EnvelopeHeader, count: int| !#[trigger]
                is_header(bytes, header, count) by {
                if is_header(bytes, header, count) {
                    lemma_strict(bytes, 1, header.wire_format_version, count as nat);
                }
            }
        },
    }
}

/// The fixed part is read where the version tag, the version, the tag of the trailer's
/// place, and the place and the size stand, and only there.
pub proof fn lemma_read_header(bytes: &[u8], res: Result<EnvelopeHeader, TrailerError>)
    requires
        bytes@.len() <= usize::MAX,
        call_ensures(read_envelope_header, (bytes,), res),
    ensures
        match res {
            Ok(header) => exists|count: int| #[trigger] is_header(bytes@, header, count),
            Err(error) => error is InvalidHeader && forall|header: EnvelopeHeader, count: int|
                !#[trigger] is_header(bytes@, header, count),
        },
{
    lemma_header(bytes@);
}

/// A reader that goes to the trailer finds V8's data between the fixed part and the
/// trailer, or behind the fixed part where there is no trailer. It refuses a trailer
/// that starts in the fixed part or ends behind the buffer.
pub proof fn lemma_skipped_to_trailer(
    reader: &mut TrailerReader<'_>,
    res: Result<bool, TrailerError>,
    header: EnvelopeHeader,
    count: int,
)
    requires
        old(reader)@.bytes.len() <= usize::MAX,
        call_ensures(TrailerReader::<'_>::skip_to_trailer, (reader,), res),
    ensures
        final(reader)@.bytes == old(reader)@.bytes,
        final(reader)@.skipped_to_trailer,
        final(reader)@.required_exposed_interfaces == old(reader)@.required_exposed_interfaces,
        is_header(old(reader)@.bytes, header, count) ==> {
            let bytes = old(reader)@.bytes;
            let offset = header.trailer_offset as int;
            let end = offset + header.trailer_size;
            &&& final(reader)@.wire_format_version == header.wire_format_version
            &&& if offset == 0 && end == 0 {
                &&& res == Ok::<bool, TrailerError>(false)
                &&& final(reader)@.v8_payload == bytes.skip(14 + count)
                &&& final(reader)@.trailer == old(reader)@.trailer
            } else if 14 + count <= offset && end <= bytes.len() {
                &&& res == Ok::<bool, TrailerError>(true)
                &&& final(reader)@.v8_payload == bytes.subrange(14 + count, offset)
                &&& final(reader)@.trailer == bytes.subrange(offset, end)
            } else {
                &&& res == Err::<bool, TrailerError>(TrailerError::InvalidHeader)
                &&& final(reader)@.v8_payload == old(reader)@.v8_payload
                &&& final(reader)@.trailer == old(reader)@.trailer
            }
        },
        (forall|header: EnvelopeHeader, count: int| !#[trigger]
            is_header(old(reader)@.bytes, header, count)) ==> {
            &&& res == Err::<bool, TrailerError>(TrailerError::InvalidHeader)
            &&& final(reader)@.v8_payload == old(reader)@.v8_payload
            &&& final(reader)@.trailer == old(reader)@.trailer
        },
{
    let bytes = old(reader)@.bytes;
    lemma_header(bytes);
    if is_header(bytes, header, count) {
        let found = envelope_header(bytes)->0;
        let (version, len) = strict_u32_varint(bytes.skip(1))->0;
        lemma_strict(bytes, 1, header.wire_format_version, count as nat);
        let other = choose|other: int| #[trigger] is_header(bytes, found, other);
        lemma_strict(bytes, 1, found.wire_format_version, other as nat);
        assert(found == header);
    }
}

/// Whether a trailer lists the tags: the tag of the record, their number, and they.
pub open spec fn lists(trailer: Seq<u8>, tags: Seq<u8>) -> bool {
    &&& trailer.len() >= 5
    &&& trailer[0] == 0xA0
    &&& four_byte_number(trailer, 1) == tags.len()
    &&& trailer.len() >= 5 + tags.len()
    &&& forall|i: int| 0 <= i < tags.len() ==> #[trigger] tags[i] == trailer[5 + i]
}

/// A trailer that lists tags is read whole, an empty one lists none, and every other
/// is refused. The tags that a record lists are taken in even where more follows.
pub proof fn lemma_read_trailer(
    reader: &mut TrailerReader<'_>,
    res: Result<(), TrailerError>,
    tags: Seq<u8>,
)
    requires
        call_ensures(TrailerReader::<'_>::read, (reader,), res),
    ensures
        final(reader)@.finished,
        final(reader)@.v8_payload == old(reader)@.v8_payload,
        final(reader)@.wire_format_version == old(reader)@.wire_format_version,
        old(reader)@.trailer.len() == 0 ==> res is Ok
            && final(reader)@.required_exposed_interfaces
            == old(reader)@.required_exposed_interfaces,
        lists(old(reader)@.trailer, tags) ==> {
            &&& final(reader)@.required_exposed_interfaces
                == old(reader)@.required_exposed_interfaces + tags
            &&& res is Ok <==> old(reader)@.trailer.len() == 5 + tags.len()
        },
        (old(reader)@.trailer.len() > 0 && forall|tags: Seq<u8>| !#[trigger]
            lists(old(reader)@.trailer, tags)) ==> res is Err
            && final(reader)@.required_exposed_interfaces
            == old(reader)@.required_exposed_interfaces,
        res matches Err(error) ==> error is InvalidTrailer,
{
    let trailer = old(reader)@.trailer;
    let before = old(reader)@.required_exposed_interfaces;
    assert(before + Seq::<u8>::empty() == before);
    if trailer.len() >= 5 {
        lemma_field_numbers(trailer, 1);
        let count = four_byte_number(trailer, 1);
        if lists(trailer, tags) {
            assert(trailer.subrange(5, 5 + count) =~= tags);
        }
        if trailer[0] == 0xA0 && count <= trailer.len() - 5 {
            assert(lists(trailer, trailer.subrange(5, 5 + count)));
        }
    }
}

/// Data is refused in a realm that does not expose all the interfaces that it needs,
/// and nowhere else. The interface that is named is the first that is not exposed.
pub proof fn lemma_unexposed_interfaces(
    required: &[u8],
    exposed: &[u8],
    first: Option<u8>,
    checked: Result<(), CloneError>,
)
    requires
        call_ensures(first_unexposed_interface, (required, exposed), first),
        call_ensures(check_exposed_interfaces, (required, exposed), checked),
    ensures
        first is None <==> required@.to_set().subset_of(exposed@.to_set()),
        first matches Some(tag) ==> required@.contains(tag) && !exposed@.contains(tag),
        checked is Ok <==> first is None,
        checked matches Err(error) ==> error is InterfaceNotExposed,
{
    if required@.to_set().subset_of(exposed@.to_set()) {
        assert forall|i: int| 0 <= i < required@.len() implies exposed@.contains(
            #[trigger] required@[i],
        ) by {
            assert(required@.to_set().contains(required@[i]));
        }
    }
    if first is None {
        assert forall|tag: u8| #[trigger] required@.to_set().contains(
            tag,
        ) implies exposed@.to_set().contains(tag) by {
            assert(required@.contains(tag));
            let i = choose|i: int| 0 <= i < required@.len() && required@[i] == tag;
            assert(all_exposed(required@, exposed@));
            assert(exposed@.contains(required@[i]));
        }
    }
}

/// A writer starts with nothing listed, and a reader at the start of its buffer.
pub proof fn lemma_trailer_starts(
    writer: TrailerWriter,
    bytes: &[u8],
    reader: TrailerReader<'_>,
)
    requires
        call_ensures(TrailerWriter::new, (), writer),
        call_ensures(TrailerReader::<'_>::new, (bytes,), reader),
    ensures
        writer.wf(),
        writer.view().len() == 0,
        reader@.bytes == bytes@,
        reader@.trailer.len() == 0,
        reader@.v8_payload.len() == 0,
        reader@.required_exposed_interfaces.len() == 0,
        !reader@.skipped_to_trailer,
        !reader@.finished,
{
}

/// What a reader found is what it gives.
pub proof fn lemma_trailer_found(
    reader: TrailerReader<'_>,
    version: u32,
    payload: &[u8],
    tags: &[u8],
)
    requires
        call_ensures(TrailerReader::<'_>::wire_format_version, (&reader,), version),
        call_ensures(TrailerReader::<'_>::v8_payload, (&reader,), payload),
        call_ensures(TrailerReader::<'_>::required_exposed_interfaces, (&reader,), tags),
    ensures
        reader@.wire_format_version == version,
        reader@.v8_payload == payload@,
        reader@.required_exposed_interfaces == tags@,
{
}

} // verus!
