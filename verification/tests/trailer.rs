use structured_clone::serialization::error::CloneError;
use structured_clone::serialization::tag::SerializationTag;
use structured_clone::serialization::trailer::{
    begin_envelope, check_exposed_interfaces, finish_envelope, first_unexposed_interface,
    read_envelope_header, TrailerError, TrailerReader, TrailerWriter, TRAILER_METADATA_BYTE_LENGTH,
};

fn message(payload: &[u8]) -> Vec<u8> {
    let mut message = vec![
        SerializationTag::Version.as_u8(),
        1,
        SerializationTag::TrailerOffset.as_u8(),
    ];
    message.extend_from_slice(&[0; TRAILER_METADATA_BYTE_LENGTH]);
    message.extend_from_slice(payload);
    message
}

fn message_with_trailer(payload: &[u8], trailer: &[u8]) -> Vec<u8> {
    let mut message = message(payload);
    let trailer_offset = message.len() as u64;
    message.extend_from_slice(trailer);
    // Version 1 is a one-byte varint, so the metadata starts after FF 01 FE.
    message[3..11].copy_from_slice(&trailer_offset.to_be_bytes());
    message[11..15].copy_from_slice(&(trailer.len() as u32).to_be_bytes());
    message
}

#[test]
fn writer_returns_no_data_without_required_interfaces() {
    assert!(TrailerWriter::new().make_trailer_data().is_empty());
    assert!(TrailerWriter::default().make_trailer_data().is_empty());
}

#[test]
fn writer_deduplicates_required_interfaces() {
    let mut writer = TrailerWriter::new();
    writer.require_exposed_interface(b'#');
    writer.require_exposed_interface(b'#');
    writer.require_exposed_interface(b'~');
    assert_eq!(
        writer.make_trailer_data(),
        [
            SerializationTag::TrailerRequiresInterfaces.as_u8(),
            0,
            0,
            0,
            2,
            b'#',
            b'~',
        ]
    );
}

#[test]
fn reader_reads_required_interfaces() {
    let payload = [0xFF, 0x10, 0x30];
    let mut writer = TrailerWriter::new();
    writer.require_exposed_interface(b'#');
    writer.require_exposed_interface(b'~');
    let trailer = writer.make_trailer_data();
    let serialized = message_with_trailer(&payload, &trailer);

    let mut reader = TrailerReader::new(&serialized);
    assert_eq!(reader.skip_to_trailer(), Ok(true));
    reader.read().unwrap();
    assert_eq!(reader.wire_format_version(), 1);
    assert_eq!(reader.v8_payload(), payload);
    assert_eq!(reader.required_exposed_interfaces(), [b'#', b'~']);
}

#[test]
fn reader_accepts_an_empty_trailer() {
    let payload = [0xFF, 0x10, 0x30];
    let serialized = message(&payload);
    let mut reader = TrailerReader::new(&serialized);
    assert_eq!(reader.skip_to_trailer(), Ok(false));
    reader.read().unwrap();
    assert_eq!(reader.v8_payload(), payload);
    assert!(reader.required_exposed_interfaces().is_empty());
}

#[test]
fn reader_rejects_truncated_headers() {
    for serialized in [
        &[][..],
        &[SerializationTag::Version.as_u8()][..],
        &[SerializationTag::Version.as_u8(), 1][..],
        &[
            SerializationTag::Version.as_u8(),
            1,
            SerializationTag::TrailerOffset.as_u8(),
            0,
        ][..],
    ] {
        let mut reader = TrailerReader::new(serialized);
        assert_eq!(reader.skip_to_trailer(), Err(TrailerError::InvalidHeader));
    }
}

#[test]
fn reader_rejects_invalid_trailer_range() {
    let mut invalid_offset = message(&[0xFF, 0x10]);
    invalid_offset[10] = 1;
    invalid_offset[14] = 1;
    let mut reader = TrailerReader::new(&invalid_offset);
    assert_eq!(reader.skip_to_trailer(), Err(TrailerError::InvalidHeader));

    let mut invalid_size = message(&[0xFF, 0x10]);
    let offset = invalid_size.len() as u64;
    invalid_size[3..11].copy_from_slice(&offset.to_be_bytes());
    invalid_size[11..15].copy_from_slice(&1u32.to_be_bytes());
    let mut reader = TrailerReader::new(&invalid_size);
    assert_eq!(reader.skip_to_trailer(), Err(TrailerError::InvalidHeader));
}

#[test]
fn reader_rejects_invalid_trailer_records() {
    let invalid_trailers: &[&[u8]] = &[
        &[0],
        &[SerializationTag::TrailerRequiresInterfaces.as_u8(), 0, 0, 0],
        &[
            SerializationTag::TrailerRequiresInterfaces.as_u8(),
            0,
            0,
            0,
            2,
            b'#',
        ],
    ];
    for trailer in invalid_trailers {
        let serialized = message_with_trailer(&[0xFF, 0x10], trailer);
        let mut reader = TrailerReader::new(&serialized);
        assert_eq!(reader.skip_to_trailer(), Ok(true));
        assert_eq!(reader.read(), Err(TrailerError::InvalidTrailer));
    }
}

#[test]
fn sealed_envelope_is_read_back() {
    let payload = [0xFF, 0x10, 0x5C, b'#'];
    let mut writer = TrailerWriter::new();
    writer.require_exposed_interface(b'#');
    let mut bytes = begin_envelope(300);
    bytes.extend_from_slice(&payload);
    finish_envelope(&mut bytes, 300, &writer);

    let header = read_envelope_header(&bytes).unwrap();
    assert_eq!(header.wire_format_version, 300);
    assert_eq!(header.payload_start, 16);
    assert_eq!(header.trailer_offset, 20);
    assert_eq!(header.trailer_size, 6);

    let mut reader = TrailerReader::new(&bytes);
    assert_eq!(reader.skip_to_trailer(), Ok(true));
    assert_eq!(reader.read(), Ok(()));
    assert_eq!(reader.wire_format_version(), 300);
    assert_eq!(reader.v8_payload(), payload);
    assert_eq!(reader.required_exposed_interfaces(), [b'#']);
}

#[test]
fn envelope_without_interfaces_has_no_trailer() {
    let mut bytes = begin_envelope(1);
    bytes.push(0x30);
    finish_envelope(&mut bytes, 1, &TrailerWriter::new());
    assert_eq!(bytes, message(&[0x30]));
}

#[test]
fn unexposed_interface_is_found() {
    assert_eq!(first_unexposed_interface(&[b'#', b'~'], &[b'~', b'#']), None);
    assert_eq!(first_unexposed_interface(&[b'#', b'~'], &[b'#']), Some(b'~'));
    assert_eq!(first_unexposed_interface(&[b'#', b'~'], &[]), Some(b'#'));
    assert_eq!(first_unexposed_interface(&[], &[]), None);
    assert_eq!(check_exposed_interfaces(&[b'#', b'~'], &[b'~', b'#']), Ok(()));
    assert_eq!(
        check_exposed_interfaces(&[b'#', b'~'], &[b'#']),
        Err(CloneError::InterfaceNotExposed)
    );
}

#[test]
fn trailer_holds_one_record() {
    let record = [SerializationTag::TrailerRequiresInterfaces.as_u8(), 0, 0, 0, 1, b'#'];
    let serialized = message_with_trailer(&[0xFF, 0x10], &[record, record].concat());
    let mut reader = TrailerReader::new(&serialized);
    assert_eq!(reader.skip_to_trailer(), Ok(true));
    assert_eq!(reader.read(), Err(TrailerError::InvalidTrailer));
    assert_eq!(reader.required_exposed_interfaces(), [b'#']);
}
