//! The envelopes without a trailer: a marker and a version before V8's data.
//!
//! The version covers the host-object records; V8's data carries a version of
//! its own. The marker and the version are taken off before V8 sees the data.

use vstd::prelude::*;
use vstd::slice::slice_subrange;

use crate::serialization::error::CloneError;
use crate::serialization::tag::SerializationTag;
use crate::varint::{read_strict_u32_varint, strict_u32_varint, varint_bytes, write_u32_varint};

verus! {

/// The version of the wire format that is written. Data of this version and of
/// all before it stays readable.
pub const STRUCTURED_CLONE_WIRE_FORMAT_VERSION: u32 = 1;

/// The bytes "DENO", which no data without an envelope starts with: that starts
/// with V8's version tag.
pub const EMBEDDER_MAGIC: [u8; 4] = [0x44, 0x45, 0x4E, 0x4F];

/// The bytes "DENO".
pub open spec fn magic() -> Seq<u8> {
    seq![0x44, 0x45, 0x4E, 0x4F]
}

/// How an envelope is marked.
#[derive(Clone, Copy, Debug, PartialEq, Eq, Structural)]
pub enum EnvelopeFormat {
    /// By the bytes "DENO".
    Magic,
    /// By one byte, the tag that also announces a trailer.
    Tagged,
}

/// What stands before V8's data.
pub open spec fn prologue(marker: Seq<u8>, version: u32) -> Seq<u8> {
    marker + varint_bytes(version as nat)
}

/// The version in an envelope and where V8's data starts.
pub open spec fn opened(marker: Seq<u8>, bytes: Seq<u8>) -> Result<(u32, nat), CloneError> {
    if !marker.is_prefix_of(bytes) {
        Err(CloneError::InvalidMagic)
    } else {
        match strict_u32_varint(bytes.skip(marker.len() as int)) {
            Some((version, len)) => Ok((version, marker.len() + len)),
            None => Err(CloneError::InvalidVersion),
        }
    }
}

/// Whether data of `version` is readable where `current` is what is written.
pub open spec fn is_supported(version: u32, current: u32) -> bool {
    0 < version <= current
}

fn read_after<'a>(marker: &[u8], bytes: &'a [u8]) -> (res: Result<(u32, &'a [u8]), CloneError>)
    ensures
        match opened(marker@, bytes@) {
            Ok((version, start)) => res matches Ok(found) && found.0 == version && start
                <= bytes@.len() && found.1@ == bytes@.skip(start as int),
            Err(error) => res matches Err(found) && found == error,
        },
{
    if bytes.len() < marker.len() {
        return Err(CloneError::InvalidMagic);
    }
    let mut index: usize = 0;
    while index < marker.len()
        invariant
            index <= marker@.len() <= bytes@.len(),
            forall|i: int| 0 <= i < index ==> bytes@[i] == marker@[i],
        decreases marker@.len() - index,
    {
        if bytes[index] != marker[index] {
            return Err(CloneError::InvalidMagic);
        }
        index = index + 1;
    }
    assert(marker@.is_prefix_of(bytes@));
    proof {
        crate::varint::lemma_varint_len_bounds(bytes@.skip(index as int));
    }
    match read_strict_u32_varint(bytes, index) {
        Some((version, len)) => Ok((version, slice_subrange(bytes, index + len, bytes.len()))),
        None => Err(CloneError::InvalidVersion),
    }
}

impl EnvelopeFormat {
    /// What an envelope starts with.
    pub open spec fn marker(self) -> Seq<u8> {
        match self {
            EnvelopeFormat::Magic => magic(),
            EnvelopeFormat::Tagged => seq![SerializationTag::TrailerOffset.code()],
        }
    }

    /// Takes the marker and the version off `bytes`: gives the version and V8's
    /// data.
    pub fn read<'a>(self, bytes: &'a [u8]) -> (res: Result<(u32, &'a [u8]), CloneError>)
        ensures
            match opened(self.marker(), bytes@) {
                Ok((version, start)) => res matches Ok(found) && found.0 == version && start
                    <= bytes@.len() && found.1@ == bytes@.skip(start as int),
                Err(error) => res matches Err(found) && found == error,
            },
    {
        match self {
            EnvelopeFormat::Magic => {
                let marker: [u8; 4] = EMBEDDER_MAGIC;
                assert(marker@ == self.marker());
                read_after(marker.as_slice(), bytes)
            },
            EnvelopeFormat::Tagged => {
                let marker: [u8; 1] = [SerializationTag::TrailerOffset.as_u8()];
                assert(marker@ == self.marker());
                read_after(marker.as_slice(), bytes)
            },
        }
    }

    /// What to write before V8's data.
    pub fn write(self, version: u32) -> (bytes: Vec<u8>)
        ensures
            bytes@ == prologue(self.marker(), version),
    {
        let mut bytes: Vec<u8> = Vec::new();
        match self {
            EnvelopeFormat::Magic => {
                bytes.push(EMBEDDER_MAGIC[0]);
                bytes.push(EMBEDDER_MAGIC[1]);
                bytes.push(EMBEDDER_MAGIC[2]);
                bytes.push(EMBEDDER_MAGIC[3]);
            },
            EnvelopeFormat::Tagged => {
                bytes.push(SerializationTag::TrailerOffset.as_u8());
            },
        }
        assert(bytes@ == self.marker());
        write_u32_varint(&mut bytes, version);
        bytes
    }
}

/// Takes the magic bytes and the version off `bytes`: gives the version and
/// V8's data.
pub fn read_embedder_envelope(bytes: &[u8]) -> (res: Result<(u32, &[u8]), CloneError>)
    ensures
        match opened(magic(), bytes@) {
            Ok((version, start)) => res matches Ok(found) && found.0 == version && start
                <= bytes@.len() && found.1@ == bytes@.skip(start as int),
            Err(error) => res matches Err(found) && found == error,
        },
{
    EnvelopeFormat::Magic.read(bytes)
}

/// Accepts the versions from one to `current`.
pub fn check_wire_format_version(version: u32, current: u32) -> (res: Result<(), CloneError>)
    ensures
        res == if is_supported(version, current) {
            Ok::<(), CloneError>(())
        } else {
            Err::<(), CloneError>(CloneError::UnsupportedVersion(version))
        },
{
    if version == 0 || version > current {
        Err(CloneError::UnsupportedVersion(version))
    } else {
        Ok(())
    }
}

/// Opening an envelope gives back its version and the data behind it.
pub proof fn lemma_opened_prologue(marker: Seq<u8>, version: u32, data: Seq<u8>)
    ensures
        opened(marker, prologue(marker, version) + data) == Ok::<(u32, nat), CloneError>(
            (version, prologue(marker, version).len()),
        ),
        (prologue(marker, version) + data).skip(prologue(marker, version).len() as int) == data,
{
    let bytes = prologue(marker, version) + data;
    crate::varint::lemma_varint_round_trip(version, data);
    assert(bytes.skip(marker.len() as int) == varint_bytes(version as nat) + data);
    assert(bytes.skip(prologue(marker, version).len() as int) == data);
}

/// Data that starts with V8's version tag, as all data without an envelope
/// does, is not taken for an envelope, and neither format for the other.
pub proof fn lemma_formats_are_distinct(format: EnvelopeFormat, bytes: Seq<u8>)
    requires
        bytes.len() > 0,
        bytes[0] == SerializationTag::Version.code() || exists|other: EnvelopeFormat|
            other != format && #[trigger] other.marker().is_prefix_of(bytes),
    ensures
        opened(format.marker(), bytes) == Err::<(u32, nat), CloneError>(CloneError::InvalidMagic),
{
    if format.marker().is_prefix_of(bytes) {
        assert(format.marker()[0] == bytes[0]);
        assert forall|other: EnvelopeFormat| #[trigger]
            other.marker().is_prefix_of(bytes) implies other == format by {
            assert(other.marker()[0] == bytes[0]);
        }
    }
}

} // verus!
