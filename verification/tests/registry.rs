use structured_clone::serialization::error::CloneError;
use structured_clone::serialization::tag::StructuredCloneHostObjectTag as CoreTag;
use structured_clone::web::registry::{
    create_web_structured_clone_registry, resolve_transferred_host_object, HostObjectRecord,
    HostObjectSource, WebStructuredCloneHostObjectRegistry,
    WEB_STRUCTURED_CLONE_WIRE_FORMAT_VERSION,
};
use structured_clone::web::tag::StructuredCloneHostObjectTag;
use structured_clone::webidl::{
    SerializableInterface, SerializableTransferableInterface, TransferableInterface,
};

type Registry = WebStructuredCloneHostObjectRegistry<u32, &'static str>;

fn registry() -> Registry {
    let mut registry = Registry::new();
    registry.register_serializable::<SerializableInterface>(
        StructuredCloneHostObjectTag::ImageData,
        1,
    );
    registry.register_serializable::<SerializableTransferableInterface>(
        StructuredCloneHostObjectTag::ImageBitmap,
        2,
    );
    registry.register_transferable::<SerializableTransferableInterface>(
        StructuredCloneHostObjectTag::ImageBitmapTransfer,
        "bitmap",
    );
    registry.register_transferable::<TransferableInterface>(
        StructuredCloneHostObjectTag::OffscreenCanvasTransfer,
        "canvas",
    );
    registry
}

#[test]
fn interfaces_and_tags_are_registered_once() {
    let registry = registry();
    assert!(!registry.can_register_serializable::<SerializableInterface>(
        StructuredCloneHostObjectTag::TestTransferable
    ));
    let mut empty = Registry::new();
    assert!(empty.can_register_serializable::<SerializableInterface>(
        StructuredCloneHostObjectTag::TestTransferable
    ));
    empty.register_serializable::<SerializableInterface>(
        StructuredCloneHostObjectTag::TestTransferable,
        1,
    );
    assert!(!empty.can_register_serializable::<SerializableTransferableInterface>(
        StructuredCloneHostObjectTag::TestTransferable
    ));
    assert!(!empty.can_register_transferable::<TransferableInterface>(
        StructuredCloneHostObjectTag::TestTransferable
    ));
    assert!(empty.can_register_transferable::<TransferableInterface>(
        StructuredCloneHostObjectTag::ImageBitmapTransfer
    ));
    assert!(!registry.can_register_transferable::<TransferableInterface>(
        StructuredCloneHostObjectTag::TestTransferable
    ));
    assert!(!registry.can_register_serializable::<SerializableInterface>(
        StructuredCloneHostObjectTag::ImageBitmapTransfer
    ));
}

#[test]
fn host_objects_are_known_by_interface() {
    let registry = registry();
    assert!(registry.is_host_object(Some("SerializableInterface")));
    assert!(registry.is_host_object(Some("TransferableInterface")));
    assert!(!registry.is_host_object(Some("Interface")));
    assert!(!registry.is_host_object(None));
    assert_eq!(registry.wire_format_version(), 1);
    assert_eq!(WEB_STRUCTURED_CLONE_WIRE_FORMAT_VERSION, 1);
}

#[test]
fn host_objects_are_written_by_interface() {
    let registry = registry();
    match registry.write_host_object(Some("SerializableTransferableInterface"), Some(300)) {
        Some(HostObjectRecord::Transferred(bytes)) => assert_eq!(bytes, [b'G', 0xAC, 0x02]),
        _ => panic!("not transferred"),
    }
    match registry.write_host_object(Some("SerializableTransferableInterface"), None) {
        Some(HostObjectRecord::Serialized(byte, handler)) => {
            assert_eq!((byte, *handler), (b'g', 2))
        }
        _ => panic!("not serialized"),
    }
    assert!(registry.write_host_object(Some("SerializableInterface"), Some(0)).is_none());
    assert!(registry.write_host_object(Some("TransferableInterface"), None).is_none());
    assert!(registry.write_host_object(None, Some(0)).is_none());
    assert!(registry.write_host_object(None, None).is_none());
}

#[test]
fn host_objects_are_read_by_tag() {
    let registry = registry();
    match registry.read_host_object(Some(b'H')) {
        Some(HostObjectSource::Transferred(name)) => assert_eq!(name, "TransferableInterface"),
        _ => panic!("not transferred"),
    }
    match registry.read_host_object(Some(b'#')) {
        Some(HostObjectSource::Serialized(handler)) => assert_eq!(*handler, 1),
        _ => panic!("not serialized"),
    }
    // A bitmap is written with its tag but has no reader.
    assert!(registry.read_host_object(Some(b'g')).is_none());
    assert!(registry.read_host_object(Some(b'~')).is_none());
    assert!(registry.read_host_object(Some(0)).is_none());
    assert!(registry.read_host_object(None).is_none());
}

#[test]
fn objects_registered_under_the_test_tag_are_read_back() {
    let mut registry = Registry::new();
    registry.register_transferable::<TransferableInterface>(
        StructuredCloneHostObjectTag::TestTransferable,
        "test",
    );
    match registry.write_host_object(Some("TransferableInterface"), Some(1)) {
        Some(HostObjectRecord::Transferred(bytes)) => assert_eq!(bytes, [b'~', 1]),
        _ => panic!("not transferred"),
    }
    match registry.read_host_object(Some(b'~')) {
        Some(HostObjectSource::Transferred(name)) => assert_eq!(name, "TransferableInterface"),
        _ => panic!("not transferred"),
    }
    let mut registry = Registry::new();
    registry.register_serializable::<SerializableInterface>(
        StructuredCloneHostObjectTag::TestTransferable,
        3,
    );
    match registry.read_host_object(Some(b'~')) {
        Some(HostObjectSource::Serialized(handler)) => assert_eq!(*handler, 3),
        _ => panic!("not serialized"),
    }
}

#[test]
fn transferred_objects_are_resolved_by_number_and_interface() {
    let interfaces = [Some("A"), None, Some("B")];
    assert_eq!(resolve_transferred_host_object("A", Some(0), &interfaces), Some(0));
    assert_eq!(resolve_transferred_host_object("B", Some(2), &interfaces), Some(2));
    assert_eq!(resolve_transferred_host_object("A", Some(2), &interfaces), None);
    assert_eq!(resolve_transferred_host_object("A", Some(1), &interfaces), None);
    assert_eq!(resolve_transferred_host_object("A", Some(3), &interfaces), None);
    assert_eq!(resolve_transferred_host_object("A", None, &interfaces), None);
}

#[test]
fn transfer_handlers_are_found_by_interface() {
    let registry = registry();
    let name = Some("TransferableInterface");
    assert_eq!(registry.validate_transferable_host_object(name), Some(&"canvas"));
    assert_eq!(registry.transfer_host_object(name), Ok(&"canvas"));
    for name in [Some("SerializableInterface"), None] {
        assert_eq!(registry.validate_transferable_host_object(name), None);
        assert_eq!(
            registry.transfer_host_object(name),
            Err(CloneError::HostObjectNotTransferable)
        );
    }
}

#[test]
fn the_web_registry_holds_image_data() {
    let registry: Registry = create_web_structured_clone_registry(7);
    assert!(registry.is_host_object(Some("ImageData")));
    match registry.read_host_object(Some(b'#')) {
        Some(HostObjectSource::Serialized(handler)) => assert_eq!(*handler, 7),
        _ => panic!("not serialized"),
    }
    assert!(!registry.can_register_transferable::<TransferableInterface>(
        StructuredCloneHostObjectTag::ImageData
    ));
}

#[test]
fn tags_are_fixed() {
    for (tag, byte) in [
        (StructuredCloneHostObjectTag::ImageData, b'#'),
        (StructuredCloneHostObjectTag::ImageBitmapTransfer, b'G'),
        (StructuredCloneHostObjectTag::OffscreenCanvasTransfer, b'H'),
    ] {
        assert_eq!(tag.as_u8(), byte);
        assert_eq!(StructuredCloneHostObjectTag::from_tag(byte), Some(tag));
    }
    assert_eq!(StructuredCloneHostObjectTag::ImageBitmap.as_u8(), b'g');
    assert_eq!(StructuredCloneHostObjectTag::from_tag(b'g'), None);
    assert_eq!(StructuredCloneHostObjectTag::TestTransferable.as_u8(), b'~');
    assert_eq!(StructuredCloneHostObjectTag::from_tag(b'~'), None);
    assert_eq!(
        StructuredCloneHostObjectTag::from_record_tag(b'~'),
        Some(StructuredCloneHostObjectTag::TestTransferable)
    );
    assert_eq!(
        StructuredCloneHostObjectTag::from_record_tag(b'#'),
        Some(StructuredCloneHostObjectTag::ImageData)
    );
    assert_eq!(StructuredCloneHostObjectTag::from_record_tag(b'g'), None);
    assert_eq!(StructuredCloneHostObjectTag::from_tag(0), None);
    assert_eq!(CoreTag::from_tag(b'#'), Some(CoreTag::ImageData));
    assert_eq!(CoreTag::from_tag(b'~'), Some(CoreTag::TestTransferable));
    assert_eq!(CoreTag::from_tag(b'G'), None);
}
