use structured_clone::serialization::envelope::{
    check_wire_format_version, read_embedder_envelope, EnvelopeFormat, EMBEDDER_MAGIC,
};
use structured_clone::serialization::error::CloneError;
use structured_clone::varint::{
    read_lenient_u32_varint, read_strict_u32_varint, write_u32_varint,
};

#[test]
fn reads_embedder_envelope() {
    let payload = [0xFF, 0x0F];
    let bytes = [EMBEDDER_MAGIC.as_slice(), &[1], &payload].concat();
    let (version, remaining) = read_embedder_envelope(&bytes).unwrap();
    assert_eq!(version, 1);
    assert_eq!(remaining, payload);

    let bytes = [EMBEDDER_MAGIC.as_slice(), &[0xAC, 0x02], &payload[..1]].concat();
    let (version, remaining) = read_embedder_envelope(&bytes).unwrap();
    assert_eq!(version, 300);
    assert_eq!(remaining, &payload[..1]);
}

#[test]
fn rejects_invalid_embedder_envelope() {
    assert!(read_embedder_envelope(&[]).is_err());
    assert!(read_embedder_envelope(&EMBEDDER_MAGIC).is_err());
    let invalid_version =
        [EMBEDDER_MAGIC.as_slice(), &[0x80, 0x80, 0x80, 0x80, 0x10]].concat();
    assert!(read_embedder_envelope(&invalid_version).is_err());
}

#[test]
fn envelopes_are_opened_in_their_own_format() {
    for (format, bytes) in [
        (EnvelopeFormat::Magic, &[0x44, 0x45, 0x4E, 0x4F, 0xAC, 0x02][..]),
        (EnvelopeFormat::Tagged, &[0xFE, 0xAC, 0x02][..]),
    ] {
        let mut written = format.write(300);
        assert_eq!(written, bytes);
        written.push(0xFF);
        assert_eq!(format.read(&written), Ok((300, &[0xFF][..])));
        let other = match format {
            EnvelopeFormat::Magic => EnvelopeFormat::Tagged,
            EnvelopeFormat::Tagged => EnvelopeFormat::Magic,
        };
        assert_eq!(other.read(&written), Err(CloneError::InvalidMagic));
        assert_eq!(format.read(&[0xFF, 0x10]), Err(CloneError::InvalidMagic));
        assert_eq!(format.read(bytes.split_last().unwrap().1), Err(CloneError::InvalidVersion));
    }
}

#[test]
fn versions_up_to_the_current_one_are_supported() {
    assert_eq!(check_wire_format_version(1, 1), Ok(()));
    assert_eq!(check_wire_format_version(1, 3), Ok(()));
    assert_eq!(check_wire_format_version(0, 3), Err(CloneError::UnsupportedVersion(0)));
    assert_eq!(check_wire_format_version(4, 3), Err(CloneError::UnsupportedVersion(4)));
}

#[test]
fn varints_of_every_length() {
    for (value, expected) in [
        (0, &[0x00][..]),
        (127, &[0x7F]),
        (128, &[0x80, 0x01]),
        (0x3FFF, &[0xFF, 0x7F]),
        (0x4000, &[0x80, 0x80, 0x01]),
        (0x1F_FFFF, &[0xFF, 0xFF, 0x7F]),
        (0x20_0000, &[0x80, 0x80, 0x80, 0x01]),
        (0x1000_0000, &[0x80, 0x80, 0x80, 0x80, 0x01]),
        (u32::MAX, &[0xFF, 0xFF, 0xFF, 0xFF, 0x0F]),
    ] {
        let mut bytes = vec![0x55];
        write_u32_varint(&mut bytes, value);
        assert_eq!(bytes[1..], *expected);
        bytes.push(0x80);
        let found = Some((value, expected.len()));
        assert_eq!(read_strict_u32_varint(&bytes, 1), found);
        assert_eq!(read_lenient_u32_varint(&bytes, 1), found);
        assert_eq!(read_strict_u32_varint(&bytes[..expected.len()], 1), None);
        assert_eq!(read_lenient_u32_varint(&bytes[..expected.len()], 1), None);
    }
}

#[test]
fn readers_differ_on_malformed_varints() {
    // A number of more than 32 bits.
    let large = [0x81, 0x80, 0x80, 0x80, 0x10];
    assert_eq!(read_strict_u32_varint(&large, 0), None);
    assert_eq!(read_lenient_u32_varint(&large, 0), Some((1, 5)));
    // A number of more than five bytes.
    let long = [0x81, 0x80, 0x80, 0x80, 0x80, 0x00];
    assert_eq!(read_strict_u32_varint(&long, 0), None);
    assert_eq!(read_lenient_u32_varint(&long, 0), Some((1, 5)));
    assert_eq!(read_lenient_u32_varint(&long[..5], 0), None);
    // A number with bytes that it does not need.
    let padded = [0x81, 0x00];
    assert_eq!(read_strict_u32_varint(&padded, 0), Some((1, 2)));
    assert_eq!(read_lenient_u32_varint(&padded, 0), Some((1, 2)));
}

#[test]
fn clone_error_classes_and_messages() {
    let data_clone = "DOMExceptionDataCloneError";
    for (error, class, message) in [
        (CloneError::InvalidBrand, data_clone, "Transferable has an invalid brand"),
        (CloneError::DuplicateTransfer, data_clone, "Transfer list contains duplicate object"),
        (CloneError::UnindexedTransferList, data_clone, "Cannot index transfer list"),
        (
            CloneError::DetachedArrayBuffer,
            data_clone,
            "Transfer list contains a detached ArrayBuffer",
        ),
        (CloneError::NotTransferable, data_clone, "Value not transferable"),
        (
            CloneError::ArrayBufferChanged,
            data_clone,
            "ArrayBuffer became detached or non-transferable while serializing",
        ),
        (CloneError::ArrayBufferNotDetached, data_clone, "ArrayBuffer could not be detached"),
        (
            CloneError::HostObjectChanged,
            data_clone,
            "Host object became detached while serializing",
        ),
        (CloneError::TooManyHostObjects, data_clone, "Too many host objects to transfer"),
        (CloneError::UnindexedHostObject, data_clone, "Cannot index host object transfer"),
        (CloneError::HostObjectNotTransferable, data_clone, "Host object is not transferable"),
        (CloneError::UnexpectedTransferData, data_clone, "Transfer data has an unexpected type"),
        (CloneError::Symbol, "DataCloneError", "Cannot serialize Symbol"),
        (CloneError::SerializationFailed, "TypeError", "Failed to serialize value"),
        (
            CloneError::InvalidMagic,
            "RangeError",
            "Cannot deserialize structured clone magic",
        ),
        (
            CloneError::InvalidVersion,
            "RangeError",
            "Cannot deserialize structured clone version",
        ),
        (
            CloneError::UnsupportedVersion(4_294_967_295),
            "RangeError",
            "Unsupported structured clone wire format version 4294967295",
        ),
        (CloneError::InvalidValueHeader, "RangeError", "Cannot deserialize value header"),
        (CloneError::InvalidValue, "RangeError", "Cannot read deserialize value"),
        (
            CloneError::InterfaceNotExposed,
            data_clone,
            "Interface is not exposed in the target realm",
        ),
    ] {
        assert_eq!(error.class(), class);
        assert_eq!(error.message(), message);
    }
}
