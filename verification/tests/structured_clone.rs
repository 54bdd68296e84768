//! Structured cloning with a small embedder: a heap of objects and the part of
//! V8's value format that these objects need.

use structured_clone::serialization::deserialize::{
    structured_deserialize, structured_deserialize_with_transfer, DeserializationReply,
    DeserializationRequest, StructuredDeserialization, StructuredDeserializeWithTransferResult,
};
use structured_clone::serialization::envelope::{
    EnvelopeFormat, STRUCTURED_CLONE_WIRE_FORMAT_VERSION,
};
use structured_clone::serialization::error::{CloneError, Failure};
use structured_clone::serialization::host_object::{
    can_transfer, receive_structured_clone_host_object, transfer_structured_clone_host_object,
    validate_structured_clone_transferable,
};
use structured_clone::serialization::options::{OptionsConversion, StructuredSerializeOptions};
use structured_clone::serialization::serialize::{
    structured_serialize_internal, structured_serialize_with_transfer, SerializationReply,
    SerializationRequest, StructuredCloneTransferData, StructuredSerialization,
    StructuredSerializeWithTransferResult, TransferKind, WriteOutcome,
};
use structured_clone::value::ValueKind;
use structured_clone::varint::{read_lenient_u32_varint, write_u32_varint};
use structured_clone::web::image_data::constructor::{
    Construction, ConstructionReply, ConstructionRequest, ConstructorArguments,
};
use structured_clone::web::image_data::payload::ImageDataReader;
use structured_clone::web::image_data::{
    ImageData, ImageDataError, ImageDataPixelFormat, ImageDataSettings, PredefinedColorSpace,
    TypedArray, TypedArrayKind,
};
use structured_clone::web::registry::{
    create_web_structured_clone_registry, resolve_transferred_host_object, HostObjectRecord,
    HostObjectSource, WebStructuredCloneHostObjectRegistry,
};
use structured_clone::web::structured_clone::{
    op_native_structured_clone, resume_clone, structured_clone, CloneStep, StructuredClone,
};
use structured_clone::web::tag::StructuredCloneHostObjectTag;
use structured_clone::web_serialize_deserialize::{
    structured_deserialize as web_deserialize, structured_serialize_internal as web_serialize,
    SerializedValue, WebDeserialization, WebSerialization,
};
use structured_clone::webidl::{WebIdlError, WebIdlInterface, WebIdlTransferable};

struct TestTransferable;

impl WebIdlInterface for TestTransferable {
    const INTERFACE_NAME: &'static str = "TestTransferable";
}

impl WebIdlTransferable for TestTransferable {}

#[derive(Clone, Copy, Debug, PartialEq)]
enum Handler {
    ImageData,
    TestTransferable,
}

type Registry = WebStructuredCloneHostObjectRegistry<Handler, Handler>;
type Store = Vec<u8>;
type HostError = String;
type Serialization = StructuredSerialization<Store, u32, HostError>;
type Deserialization = StructuredDeserialization<Store, u32, Value, HostError>;
type Serialized = StructuredSerializeWithTransferResult<Store, u32>;
type Deserialized = StructuredDeserializeWithTransferResult<Value>;

#[derive(Clone, Debug, PartialEq)]
enum Value {
    Undefined,
    Null,
    Number(i32),
    Symbol,
    /// The value of a getter that throws.
    Throws(&'static str),
    Object(usize),
}

impl Value {
    fn kind(&self) -> ValueKind {
        match self {
            Value::Undefined => ValueKind::Undefined,
            Value::Null => ValueKind::Null,
            Value::Number(_) => ValueKind::Number,
            Value::Symbol => ValueKind::Symbol,
            Value::Throws(_) => panic!("a getter is no value"),
            Value::Object(_) => ValueKind::Object,
        }
    }

    fn object(&self) -> usize {
        match self {
            Value::Object(place) => *place,
            other => panic!("{other:?} is no object"),
        }
    }
}

#[derive(Debug)]
enum Object {
    ArrayBuffer { bytes: Vec<u8>, detached: bool, detachable: bool },
    Record(Vec<(&'static str, Value)>),
    TypedArray { kind: TypedArrayKind, buffer: usize },
    ImageData(ImageData<usize>),
    TestTransferable { value: u32, detached: bool },
}

const KEYS: [&str; 3] = ["first", "alias", "second"];

#[derive(Default)]
struct Heap {
    objects: Vec<Object>,
    /// What runs while a value is being serialized.
    on_serialize: Option<fn(&mut Heap)>,
    /// The exception that V8 left for the script.
    exception: Option<&'static str>,
}

impl Heap {
    fn add(&mut self, object: Object) -> usize {
        self.objects.push(object);
        self.objects.len() - 1
    }

    fn array_buffer(&mut self, bytes: &[u8]) -> usize {
        self.add(Object::ArrayBuffer {
            bytes: bytes.to_vec(),
            detached: false,
            detachable: true,
        })
    }

    fn bytes(&self, buffer: usize) -> &[u8] {
        match &self.objects[buffer] {
            Object::ArrayBuffer { bytes, .. } => bytes,
            other => panic!("{other:?} is no buffer"),
        }
    }

    fn set_bytes(&mut self, array: usize, data: &[u8]) {
        let buffer = match self.objects[array] {
            Object::TypedArray { buffer, .. } => buffer,
            _ => panic!("no typed array"),
        };
        match &mut self.objects[buffer] {
            Object::ArrayBuffer { bytes, .. } => *bytes = data.to_vec(),
            other => panic!("{other:?} is no buffer"),
        }
    }

    fn typed_array(&self, place: usize) -> TypedArray<usize> {
        match self.objects[place] {
            Object::TypedArray { kind, buffer } => {
                let size = match kind {
                    TypedArrayKind::Float16 => 2,
                    _ => 1,
                };
                TypedArray { kind, length: self.bytes(buffer).len() / size, data: place }
            }
            _ => panic!("no typed array"),
        }
    }

    fn array_bytes(&self, place: usize) -> &[u8] {
        match self.objects[place] {
            Object::TypedArray { buffer, .. } => self.bytes(buffer),
            _ => panic!("no typed array"),
        }
    }

    fn image(&self, place: usize) -> &ImageData<usize> {
        match &self.objects[place] {
            Object::ImageData(image) => image,
            other => panic!("{other:?} is no image"),
        }
    }

    fn property(&self, place: usize, name: &str) -> Value {
        match &self.objects[place] {
            Object::Record(properties) => properties
                .iter()
                .find(|(key, _)| *key == name)
                .map(|(_, value)| value.clone())
                .unwrap_or(Value::Undefined),
            other => panic!("{other:?} is no record"),
        }
    }

    fn transferable(&self, place: usize) -> (u32, bool) {
        match self.objects[place] {
            Object::TestTransferable { value, detached } => (value, detached),
            _ => panic!("no transferable"),
        }
    }

    fn interface(&self, place: usize) -> Option<&'static str> {
        match self.objects[place] {
            Object::ImageData(_) => Some(ImageData::<usize>::INTERFACE_NAME),
            Object::TestTransferable { .. } => Some(TestTransferable::INTERFACE_NAME),
            _ => None,
        }
    }

    fn new_image(
        &mut self,
        width: u32,
        height: u32,
        settings: ImageDataSettings,
    ) -> Result<usize, ImageDataError<HostError>> {
        let mut construction: Construction<usize, HostError> =
            ImageData::constructor(ConstructorArguments {
                count: 3,
                first: None,
                third_is_undefined: false,
            });
        loop {
            let reply = match construction.request() {
                ConstructionRequest::UnsignedLong { argument: 0 } => {
                    ConstructionReply::UnsignedLong(Ok(width))
                }
                ConstructionRequest::UnsignedLong { argument: 1 } => {
                    ConstructionReply::UnsignedLong(Ok(height))
                }
                ConstructionRequest::Settings { argument: 2 } => {
                    ConstructionReply::Settings(Ok(settings))
                }
                ConstructionRequest::Allocate(layout) => {
                    let buffer = self.array_buffer(&vec![0; layout.byte_length]);
                    ConstructionReply::Allocated(Some(
                        self.add(Object::TypedArray { kind: layout.kind, buffer }),
                    ))
                }
                ConstructionRequest::Finished => break,
                other => panic!("unexpected request {other:?}"),
            };
            construction = construction.resume(reply);
        }
        match construction {
            Construction::Finished(outcome) => outcome.map(|image| {
                assert_eq!(image.width(), width);
                assert_eq!(image.height(), height);
                self.add(Object::ImageData(image))
            }),
            _ => unreachable!(),
        }
    }
}

/// The part of V8's value serializer that the objects of the heap need.
struct Writer<'a> {
    heap: &'a Heap,
    registry: &'a Registry,
    out: Vec<u8>,
    written: Vec<usize>,
    host_object_ids: &'a [(usize, u32)],
    array_buffer_ids: Vec<(usize, u32)>,
    exception: Option<&'static str>,
}

impl Writer<'_> {
    fn tag(&mut self, tag: u8) {
        self.out.push(tag);
    }

    fn uint32(&mut self, value: u32) {
        write_u32_varint(&mut self.out, value);
    }

    fn throws(&mut self, exception: &'static str) -> bool {
        self.exception = Some(exception);
        false
    }

    /// Gives `false` where V8 raises an exception.
    fn value(&mut self, value: &Value) -> bool {
        match value {
            Value::Undefined => self.tag(b'_'),
            Value::Null => self.tag(b'0'),
            Value::Number(number) => {
                self.tag(b'I');
                self.uint32(((number << 1) ^ (number >> 31)) as u32);
            }
            Value::Symbol => return self.throws("a symbol could not be cloned"),
            Value::Throws(exception) => return self.throws(exception),
            Value::Object(place) => return self.object(*place),
        }
        true
    }

    fn object(&mut self, place: usize) -> bool {
        let heap = self.heap;
        if let Object::TypedArray { buffer, .. } = heap.objects[place] {
            if !self.written.contains(&place) && !self.written.contains(&buffer) {
                self.object(buffer);
            }
        }
        if let Some(id) = self.written.iter().position(|other| *other == place) {
            self.tag(b'^');
            self.uint32(id as u32);
            return true;
        }
        self.written.push(place);
        let interface = heap.interface(place);
        if self.registry.is_host_object(interface) {
            self.tag(0x5C);
            return self.host_object(place, interface);
        }
        match &heap.objects[place] {
            Object::ArrayBuffer { bytes, detached, .. } => {
                let id = self.array_buffer_ids.iter().find(|(other, _)| *other == place);
                if let Some((_, id)) = id {
                    let id = *id;
                    self.tag(b't');
                    self.uint32(id);
                } else if *detached {
                    return self.throws("a detached buffer could not be cloned");
                } else {
                    self.tag(b'B');
                    self.uint32(bytes.len() as u32);
                    self.out.extend_from_slice(bytes);
                }
            }
            Object::TypedArray { kind, buffer } => {
                self.tag(b'V');
                self.tag(match kind {
                    TypedArrayKind::Uint8Clamped => b'C',
                    TypedArrayKind::Float16 => b'h',
                    TypedArrayKind::Other => b'B',
                });
                self.uint32(0);
                self.uint32(heap.bytes(*buffer).len() as u32);
                self.uint32(0);
            }
            Object::Record(properties) => {
                self.tag(b'o');
                for (key, value) in properties {
                    self.tag(b'"');
                    self.uint32(key.len() as u32);
                    self.out.extend_from_slice(key.as_bytes());
                    if !self.value(value) {
                        return false;
                    }
                }
                self.tag(b'{');
                self.uint32(properties.len() as u32);
            }
            Object::ImageData(_) | Object::TestTransferable { .. } => {
                return self.throws("an object without a handler could not be cloned")
            }
        }
        true
    }

    fn host_object(&mut self, place: usize, interface: Option<&str>) -> bool {
        let id = self
            .host_object_ids
            .iter()
            .find(|(other, _)| *other == place)
            .map(|(_, id)| *id);
        match self.registry.write_host_object(interface, id) {
            Some(HostObjectRecord::Transferred(bytes)) => {
                self.out.extend_from_slice(&bytes);
                true
            }
            Some(HostObjectRecord::Serialized(byte, Handler::ImageData)) => {
                self.tag(byte);
                let image = self.heap.image(place);
                self.out.extend_from_slice(&image.write_structured_clone_payload());
                self.value(&Value::Object(*image.data()))
            }
            Some(HostObjectRecord::Serialized(..)) | None => {
                self.throws("a host object could not be cloned")
            }
        }
    }
}

/// The part of V8's value deserializer that the objects of the heap need.
struct Reader<'a> {
    heap: &'a mut Heap,
    registry: &'a Registry,
    bytes: &'a [u8],
    position: usize,
    read: Vec<usize>,
    host_objects: Vec<usize>,
    array_buffers: Vec<(u32, usize)>,
}

impl Reader<'_> {
    fn byte(&mut self) -> Option<u8> {
        let byte = *self.bytes.get(self.position)?;
        self.position += 1;
        Some(byte)
    }

    fn uint32(&mut self) -> Option<u32> {
        let (value, len) = read_lenient_u32_varint(self.bytes, self.position)?;
        self.position += len;
        Some(value)
    }

    fn header(&mut self) -> Option<bool> {
        Some(self.byte()? == 0xFF && self.byte()? <= 0x10)
    }

    fn value(&mut self) -> Option<Value> {
        Some(match self.byte()? {
            b'_' => Value::Undefined,
            b'0' => Value::Null,
            b'I' => {
                let number = self.uint32()?;
                Value::Number((number >> 1) as i32 ^ -((number & 1) as i32))
            }
            b'^' => {
                let id = self.uint32()? as usize;
                Value::Object(*self.read.get(id)?)
            }
            b't' => {
                let id = self.uint32()?;
                let place = self.array_buffers.iter().find(|(other, _)| *other == id)?.1;
                self.read.push(place);
                self.view(place)?
            }
            b'B' => {
                let len = self.uint32()? as usize;
                let bytes = self.bytes.get(self.position..self.position + len)?.to_vec();
                self.position += len;
                let buffer = self.heap.array_buffer(&bytes);
                self.read.push(buffer);
                self.view(buffer)?
            }
            b'o' => {
                let place = self.heap.add(Object::Record(vec![]));
                self.read.push(place);
                loop {
                    match self.byte()? {
                        b'{' => break,
                        b'"' => {
                            let len = self.uint32()? as usize;
                            let key = self.bytes.get(self.position..self.position + len)?;
                            let key = *KEYS.iter().find(|name| name.as_bytes() == key)?;
                            self.position += len;
                            let value = self.value()?;
                            match &mut self.heap.objects[place] {
                                Object::Record(properties) => properties.push((key, value)),
                                _ => unreachable!(),
                            }
                        }
                        _ => return None,
                    }
                }
                self.uint32()?;
                Value::Object(place)
            }
            0x5C => {
                let id = self.read.len();
                self.read.push(usize::MAX);
                let place = self.host_object()?;
                self.read[id] = place;
                Value::Object(place)
            }
            _ => return None,
        })
    }

    fn view(&mut self, buffer: usize) -> Option<Value> {
        if self.bytes.get(self.position) != Some(&b'V') {
            return Some(Value::Object(buffer));
        }
        self.position += 1;
        let kind = match self.byte()? {
            b'C' => TypedArrayKind::Uint8Clamped,
            b'h' => TypedArrayKind::Float16,
            _ => TypedArrayKind::Other,
        };
        self.uint32()?;
        self.uint32()?;
        self.uint32()?;
        let array = self.heap.add(Object::TypedArray { kind, buffer });
        self.read.push(array);
        Some(Value::Object(array))
    }

    fn host_object(&mut self) -> Option<usize> {
        let byte = self.byte();
        match self.registry.read_host_object(byte)? {
            HostObjectSource::Transferred(expected) => {
                let id = self.uint32();
                let interfaces: Vec<Option<&'static str>> =
                    self.host_objects.iter().map(|place| self.heap.interface(*place)).collect();
                let place = resolve_transferred_host_object(expected, id, &interfaces)?;
                Some(self.host_objects[place])
            }
            HostObjectSource::Serialized(Handler::ImageData) => {
                let mut reader = ImageDataReader::new();
                while reader.needs_number() {
                    reader = reader.resume(self.uint32());
                }
                let array = match self.value() {
                    Some(Value::Object(place)) => Some(self.heap.typed_array(place)),
                    _ => None,
                };
                let image = reader.finish(array)?;
                Some(self.heap.add(Object::ImageData(image)))
            }
            HostObjectSource::Serialized(_) => None,
        }
    }
}

fn validate(heap: &Heap, registry: &Registry, value: &Value) -> Result<bool, HostError> {
    let place = value.object();
    let checked = match registry.validate_transferable_host_object(heap.interface(place)) {
        Some(Handler::TestTransferable) => {
            let outcome = match heap.objects[place] {
                Object::TestTransferable { detached: true, .. } => {
                    Some(Err("TestTransferable is detached".to_string()))
                }
                Object::TestTransferable { .. } => Some(Ok(())),
                _ => None,
            };
            Some(validate_structured_clone_transferable(outcome).map_err(host_error))
        }
        _ => None,
    };
    can_transfer(checked)
}

fn host_error(failure: Failure<HostError>) -> HostError {
    match failure {
        Failure::Clone(error) => error.message(),
        Failure::Host(error) => error,
    }
}

fn serialize(
    heap: &mut Heap,
    registry: &Registry,
    value: &Value,
    transfer: &[Value],
    mut serialization: Serialization,
) -> Serialization {
    let mut seen: Vec<Value> = vec![];
    let mut numbers: Vec<(usize, u32)> = vec![];
    let mut released: Vec<u8> = vec![];
    loop {
        let reply = match serialization.request() {
            SerializationRequest::HasSeen { entry } => {
                SerializationReply::Seen(Some(seen.contains(&transfer[entry])))
            }
            SerializationRequest::AddSeen { entry } => {
                seen.push(transfer[entry].clone());
                SerializationReply::Added(true)
            }
            SerializationRequest::Classify { entry } => {
                SerializationReply::Kind(match &transfer[entry] {
                    Value::Object(place) => match heap.objects[*place] {
                        Object::ArrayBuffer { .. } => TransferKind::ArrayBuffer,
                        _ => TransferKind::Object,
                    },
                    _ => TransferKind::Other,
                })
            }
            SerializationRequest::WasDetached { entry } => {
                match heap.objects[transfer[entry].object()] {
                    Object::ArrayBuffer { detached, .. } => SerializationReply::Detached(detached),
                    _ => unreachable!(),
                }
            }
            SerializationRequest::ValidateHostObject { entry } => {
                SerializationReply::Validated(validate(heap, registry, &transfer[entry]))
            }
            SerializationRequest::NumberHostObject { entry, transfer_id } => {
                numbers.push((transfer[entry].object(), transfer_id));
                SerializationReply::Numbered(true)
            }
            SerializationRequest::WriteGraph => {
                if let Some(hook) = heap.on_serialize {
                    hook(heap);
                }
                let mut writer = Writer {
                    heap,
                    registry,
                    out: serialization.prologue(),
                    written: vec![],
                    host_object_ids: &numbers,
                    array_buffer_ids: serialization
                        .array_buffers()
                        .iter()
                        .map(|(id, entry)| (transfer[*entry].object(), *id))
                        .collect(),
                    exception: None,
                };
                writer.tag(0xFF);
                writer.tag(0x10);
                let written = writer.value(value);
                let exception = writer.exception;
                released = writer.out;
                heap.exception = exception;
                SerializationReply::Written(WriteOutcome {
                    caught: !written,
                    terminated: false,
                    written: if written { Some(true) } else { None },
                })
            }
            SerializationRequest::Release => SerializationReply::Released(released.clone()),
            SerializationRequest::DetachState { entry } => {
                match heap.objects[transfer[entry].object()] {
                    Object::ArrayBuffer { detached, detachable, .. } => {
                        SerializationReply::DetachState { detached, detachable }
                    }
                    _ => unreachable!(),
                }
            }
            SerializationRequest::Detach { entry } => {
                match &mut heap.objects[transfer[entry].object()] {
                    Object::ArrayBuffer { bytes, detached, .. } => {
                        *detached = true;
                        SerializationReply::BackingStore {
                            store: std::mem::take(bytes),
                            detached: Some(true),
                        }
                    }
                    _ => unreachable!(),
                }
            }
            SerializationRequest::TransferHostObject { entry } => {
                let place = transfer[entry].object();
                assert_eq!(
                    registry.transfer_host_object(heap.interface(place)),
                    Ok(&Handler::TestTransferable)
                );
                let outcome = match &mut heap.objects[place] {
                    Object::TestTransferable { value, detached } => {
                        *detached = true;
                        Some(Ok(*value))
                    }
                    _ => None,
                };
                SerializationReply::Transferred(
                    transfer_structured_clone_host_object(outcome).map_err(host_error),
                )
            }
            SerializationRequest::Finished => return serialization,
        };
        serialization.resume(reply);
    }
}

fn deserialize(
    heap: &mut Heap,
    registry: &Registry,
    mut deserialization: Deserialization,
) -> Deserialization {
    let mut taken = None;
    loop {
        let reply = match deserialization.request() {
            DeserializationRequest::TakeUp => {
                taken = Some(deserialization.take_up());
                continue;
            }
            DeserializationRequest::Receive => {
                DeserializationReply::Received(match taken.take().unwrap() {
                    StructuredCloneTransferData::ArrayBuffer(bytes) => {
                        Ok(Value::Object(heap.array_buffer(&bytes)))
                    }
                    StructuredCloneTransferData::HostObject(value) => {
                        let outcome: Option<Result<Value, HostError>> = Some(Ok(Value::Object(
                            heap.add(Object::TestTransferable { value, detached: false }),
                        )));
                        receive_structured_clone_host_object(outcome).map_err(host_error)
                    }
                })
            }
            DeserializationRequest::ReadHeader => {
                let mut reader = reader(heap, registry, &deserialization);
                DeserializationReply::Header(reader.header())
            }
            DeserializationRequest::ReadValue => {
                let mut reader = reader(heap, registry, &deserialization);
                reader.header();
                DeserializationReply::Value(reader.value())
            }
            DeserializationRequest::Finished => return deserialization,
        };
        deserialization.resume(reply);
    }
}

fn reader<'a>(
    heap: &'a mut Heap,
    registry: &'a Registry,
    deserialization: &'a Deserialization,
) -> Reader<'a> {
    let values = deserialization.values();
    Reader {
        heap,
        registry,
        bytes: deserialization.payload(),
        position: 0,
        read: vec![],
        host_objects: deserialization
            .host_objects()
            .iter()
            .map(|place| values[*place].object())
            .collect(),
        array_buffers: deserialization
            .array_buffers()
            .iter()
            .map(|(id, place)| (*id, values[*place].object()))
            .collect(),
    }
}

fn clone_from(
    heap: &mut Heap,
    registry: &Registry,
    start: StructuredClone<Value, Store, u32, HostError>,
    value: &Value,
    transfer: &[Value],
) -> Result<Value, Failure<HostError>> {
    match start {
        StructuredClone::Same(value) => Ok(value),
        StructuredClone::Serialize(serialization) => {
            let serialization = serialize(heap, registry, value, transfer, serialization);
            let deserialization = match resume_clone(serialization)? {
                CloneStep::Deserialize(deserialization) => deserialization,
                // The caller gets what the script threw.
                CloneStep::Raised => {
                    let exception = heap.exception.take().expect("a pending exception");
                    return Err(Failure::Host(exception.to_string()));
                }
            };
            let deserialization = deserialize(heap, registry, deserialization);
            deserialization.finish().map(|result| result.deserialized)
        }
    }
}

fn clone(
    heap: &mut Heap,
    registry: &Registry,
    value: &Value,
    transfer: Vec<Value>,
) -> Result<Value, Failure<HostError>> {
    let options = StructuredSerializeOptions { transfer };
    let start = structured_clone(value.clone(), value.kind(), &options);
    clone_from(heap, registry, start, value, &options.transfer)
}

fn native_clone(
    heap: &mut Heap,
    registry: &Registry,
    value: &Value,
    transfer: Vec<Value>,
) -> Result<Value, Failure<HostError>> {
    let options = StructuredSerializeOptions { transfer };
    let start = op_native_structured_clone(value.clone(), value.kind(), &options);
    clone_from(heap, registry, start, value, &options.transfer)
}

type Clone = fn(&mut Heap, &Registry, &Value, Vec<Value>) -> Result<Value, Failure<HostError>>;

fn registry() -> Registry {
    let mut registry = create_web_structured_clone_registry(Handler::ImageData);
    assert!(registry.can_register_transferable::<TestTransferable>(
        StructuredCloneHostObjectTag::TestTransferable
    ));
    registry.register_transferable::<TestTransferable>(
        StructuredCloneHostObjectTag::TestTransferable,
        Handler::TestTransferable,
    );
    registry
}

fn check_array_buffer_transfer(clone: Clone) {
    let mut heap = Heap::default();
    let registry = registry();
    let source = heap.array_buffer(&[1, 2, 3, 4]);
    let value = heap.add(Object::Record(vec![
        ("first", Value::Object(source)),
        ("second", Value::Object(source)),
    ]));
    let cloned =
        clone(&mut heap, &registry, &Value::Object(value), vec![Value::Object(source)]).unwrap();
    assert_eq!(heap.bytes(source).len(), 0);
    let first = heap.property(cloned.object(), "first");
    assert_eq!(first, heap.property(cloned.object(), "second"));
    assert_ne!(first, Value::Object(source));
    assert_eq!(heap.bytes(first.object()).len(), 4);
    assert_eq!(heap.bytes(first.object()), [1, 2, 3, 4]);
}

#[test]
fn transfers_array_buffer() {
    check_array_buffer_transfer(clone);
}

#[test]
fn array_buffer_transfers_array_buffer() {
    check_array_buffer_transfer(clone);
}

#[test]
fn structured_clone_transfers_array_buffer() {
    let mut heap = Heap::default();
    let registry = registry();
    let source = heap.array_buffer(&[5, 6, 7, 8]);
    let cloned = native_clone(&mut heap, &registry, &Value::Object(source), vec![]).unwrap();
    assert_ne!(cloned, Value::Object(source));
    assert_eq!(heap.bytes(source).len(), 4);
    assert_eq!(heap.bytes(cloned.object()), [5, 6, 7, 8]);
    check_array_buffer_transfer(native_clone);
}

fn check_validation(clone: Clone) {
    let mut heap = Heap::default();
    let registry = registry();
    let duplicate = heap.array_buffer(&[0; 4]);
    let failure = clone(
        &mut heap,
        &registry,
        &Value::Null,
        vec![Value::Object(duplicate), Value::Object(duplicate)],
    )
    .unwrap_err();
    assert_eq!(failure, Failure::Clone(CloneError::DuplicateTransfer));
    assert_eq!(CloneError::DuplicateTransfer.class(), "DOMExceptionDataCloneError");
    assert_eq!(heap.bytes(duplicate).len(), 4);

    let untouched = heap.array_buffer(&[0; 4]);
    let failure =
        clone(&mut heap, &registry, &Value::Symbol, vec![Value::Object(untouched)]).unwrap_err();
    assert_eq!(failure, Failure::Clone(CloneError::Symbol));
    assert_eq!(heap.bytes(untouched).len(), 4);

    let unrelated = heap.array_buffer(&[0; 4]);
    let primitive =
        clone(&mut heap, &registry, &Value::Number(1), vec![Value::Object(unrelated)]).unwrap();
    assert_eq!(primitive, Value::Number(1));
    assert_eq!(heap.bytes(unrelated).len(), 0);
}

#[test]
fn validates_transfer_list_before_detaching() {
    check_validation(clone);
}

#[test]
fn array_buffer_validates_transfer_list_before_detaching() {
    check_validation(clone);
}

#[test]
fn structured_clone_validates_transfer_list_before_detaching() {
    check_validation(native_clone);
}

/// Converts options whose `transfer` member is `member`. Tells whether the
/// member was read.
fn convert(
    options: Option<ValueKind>,
    member: Option<ValueKind>,
    sequence: Result<Vec<Value>, HostError>,
) -> (bool, Result<StructuredSerializeOptions<Value>, WebIdlError<HostError>>) {
    let mut getter_called = false;
    let mut conversion = StructuredSerializeOptions::convert(options);
    if let OptionsConversion::Member = conversion {
        getter_called = true;
        conversion = conversion.resume_member(member);
    }
    if let OptionsConversion::Sequence = conversion {
        conversion = conversion.resume_sequence(sequence);
    }
    match conversion {
        OptionsConversion::Finished(outcome) => (getter_called, outcome),
        _ => panic!("unfinished"),
    }
}

fn check_options(clone: Clone) {
    let (getter_called, options) =
        convert(Some(ValueKind::Object), Some(ValueKind::Object), Ok(vec![]));
    assert!(getter_called, "transfer getter was not evaluated");
    let transfer = options.unwrap().transfer;
    assert!(transfer.is_empty());
    let cloned = clone(&mut Heap::default(), &registry(), &Value::Number(1), transfer);
    assert_eq!(cloned, Ok(Value::Number(1)));

    let (getter_called, options) = convert(Some(ValueKind::Number), None, Ok(vec![]));
    assert!(!getter_called);
    assert_eq!(
        options,
        Err(WebIdlError::ConvertToConverterType {
            prefix: "Failed to execute 'structuredClone'",
            context: "Argument 2",
            converter: "dictionary",
        })
    );
}

#[test]
fn converts_structured_serialize_options_in_rust() {
    check_options(clone);
}

#[test]
fn options_converts_structured_serialize_options_in_rust() {
    check_options(clone);
}

#[test]
fn structured_clone_converts_structured_serialize_options_in_rust() {
    check_options(native_clone);
}

#[test]
fn options_without_a_transfer_list_transfer_nothing() {
    for options in [None, Some(ValueKind::Undefined), Some(ValueKind::Null)] {
        let (getter_called, options) = convert(options, Some(ValueKind::Object), Ok(vec![]));
        assert!(!getter_called);
        assert!(options.unwrap().transfer.is_empty());
    }
    for member in [None, Some(ValueKind::Undefined)] {
        let (_, options) =
            convert(Some(ValueKind::Object), member, Err("not converted".to_string()));
        assert!(options.unwrap().transfer.is_empty());
    }
    let (_, options) =
        convert(Some(ValueKind::Object), Some(ValueKind::Null), Err("no sequence".to_string()));
    assert_eq!(options, Err(WebIdlError::Conversion("no sequence".to_string())));
    let (_, options) =
        convert(Some(ValueKind::Object), Some(ValueKind::Object), Ok(vec![Value::Null]));
    assert_eq!(options.unwrap().transfer, [Value::Null]);
}

fn check_host_object_transfer(start: fn(ValueKind, usize) -> Serialization) {
    let mut heap = Heap::default();
    let registry = registry();
    let first = heap.add(Object::TestTransferable { value: 42, detached: false });
    let second = heap.add(Object::TestTransferable { value: 43, detached: false });
    let graph = heap.add(Object::Record(vec![
        ("first", Value::Object(first)),
        ("alias", Value::Object(first)),
        ("second", Value::Object(second)),
    ]));
    let transfer = [Value::Object(first), Value::Object(second)];
    let result = serialize(
        &mut heap,
        &registry,
        &Value::Object(graph),
        &transfer,
        start(ValueKind::Object, 2),
    )
    .finish()
    .unwrap();
    for source in [first, second] {
        assert!(heap.transferable(source).1);
    }

    let result = deserialize(
        &mut heap,
        &registry,
        structured_deserialize_with_transfer(result, registry.wire_format_version()),
    )
    .finish()
    .unwrap();
    assert_eq!(result.transferred_values.len(), 2);
    for (key, transfer_id, expected) in [("first", 0, 42), ("alias", 0, 42), ("second", 1, 43)] {
        let cloned = heap.property(result.deserialized.object(), key);
        assert_eq!(cloned, result.transferred_values[transfer_id]);
        let (value, detached) = heap.transferable(cloned.object());
        assert_eq!(value, expected);
        assert!(!detached);
    }
}

#[test]
fn resolves_host_object_transfer_reference() {
    check_host_object_transfer(|kind, count| structured_serialize_with_transfer(kind, count, 1));
}

#[test]
fn host_object_transfer_resolves_host_object_transfer_reference() {
    check_host_object_transfer(|kind, count| {
        StructuredSerialization::new(
            kind,
            count,
            Some(EnvelopeFormat::Magic),
            STRUCTURED_CLONE_WIRE_FORMAT_VERSION,
        )
    });
}

fn check_intermediate_serialization() {
    let mut heap = Heap::default();
    let registry = registry();
    let value = Value::Number(42);
    let bytes = serialize(
        &mut heap,
        &registry,
        &value,
        &[],
        structured_serialize_internal(value.kind(), registry.wire_format_version()),
    )
    .finish()
    .unwrap()
    .serialized;
    assert!(bytes.starts_with(b"DENO"));
    let value = deserialize(
        &mut heap,
        &registry,
        structured_deserialize(bytes, registry.wire_format_version()),
    )
    .finish()
    .unwrap()
    .deserialized;
    assert_eq!(value, Value::Number(42));
}

#[test]
fn intermediate_serialization_encodes_primitives() {
    check_intermediate_serialization();
}

#[test]
fn serialization_intermediate_serialization_encodes_primitives() {
    check_intermediate_serialization();
}

const IMAGE_DATA_V1_V8_16: &[u8] = &[
    b'D', b'E', b'N', b'O', // Magic bytes
    0x01, // Wire format version 1
    0xFF, 0x10, // V8 wire format header, version 16
    0x5C, // V8 host-object tag
    b'#', // ImageData tag
    0x01, 0x01, // PredefinedColorSpace: display-p3
    0x02, 0x00, // PixelFormat: rgba-unorm8
    0x00, // End of ImageData settings
    0x01, 0x01, // width: 1, height: 1
    // V8-serialized Uint8ClampedArray containing the four RGBA bytes.
    0x42, 0x04, 0x01, 0x02, 0x03, 0x04, 0x56, 0x43, 0x00, 0x04, 0x00,
];

const TAGGED_IMAGE_DATA_V1_V8_16: &[u8] = &[
    0xFE, // Envelope tag
    0x01, // Wire format version 1
    0xFF, 0x10, // V8 wire format header, version 16
    0x5C, // V8 host-object tag
    b'#', // ImageData tag
    0x01, 0x01, // PredefinedColorSpace: display-p3
    0x02, 0x00, // PixelFormat: rgba-unorm8
    0x00, // End of ImageData settings
    0x01, 0x01, // width: 1, height: 1
    // V8-serialized Uint8ClampedArray containing the four RGBA bytes.
    0x42, 0x04, 0x01, 0x02, 0x03, 0x04, 0x56, 0x43, 0x00, 0x04, 0x00,
];

fn display_p3() -> ImageDataSettings {
    ImageDataSettings {
        color_space: Some(PredefinedColorSpace::DisplayP3),
        pixel_format: ImageDataPixelFormat::RgbaUnorm8,
    }
}

fn check_image_data_encoding(start: fn(ValueKind, u32) -> Serialization, fixture: &[u8]) {
    let mut heap = Heap::default();
    let registry = registry();
    let value = heap.new_image(1, 1, display_p3()).unwrap();
    let data = *heap.image(value).data();
    heap.set_bytes(data, &[1, 2, 3, 4]);
    let value = Value::Object(value);
    let bytes = serialize(
        &mut heap,
        &registry,
        &value,
        &[],
        start(value.kind(), registry.wire_format_version()),
    )
    .finish()
    .unwrap()
    .serialized;
    assert_eq!(bytes, fixture);
}

fn check_image_data_decoding(start: fn(Vec<u8>, u32) -> Deserialization, fixture: &[u8]) {
    let mut heap = Heap::default();
    let registry = registry();
    let value = deserialize(
        &mut heap,
        &registry,
        start(fixture.to_vec(), registry.wire_format_version()),
    )
    .finish()
    .unwrap()
    .deserialized;
    let image = heap.image(value.object());
    assert_eq!(image.width(), 1);
    assert_eq!(image.height(), 1);
    assert_eq!(image.color_space(), "display-p3");
    assert_eq!(image.pixel_format(), "rgba-unorm8");
    let array = heap.typed_array(*image.data());
    assert_eq!(array.kind, TypedArrayKind::Uint8Clamped);
    assert_eq!(heap.array_bytes(array.data), [1, 2, 3, 4]);
}

#[test]
fn image_data_v1_wire_format() {
    check_image_data_encoding(structured_serialize_internal, IMAGE_DATA_V1_V8_16);
}

#[test]
fn decodes_image_data_v1_fixture() {
    check_image_data_decoding(structured_deserialize, IMAGE_DATA_V1_V8_16);
}

#[test]
fn wire_format_backward_compatibility_image_data_v1_wire_format() {
    check_image_data_encoding(
        |kind, version| {
            StructuredSerialization::new(kind, 0, Some(EnvelopeFormat::Tagged), version)
        },
        TAGGED_IMAGE_DATA_V1_V8_16,
    );
}

#[test]
fn wire_format_backward_compatibility_decodes_image_data_v1_fixture() {
    check_image_data_decoding(
        |serialized, current| {
            let serialized: Serialized = StructuredSerializeWithTransferResult {
                serialized,
                transfer_data_holders: vec![],
            };
            StructuredDeserialization::new(serialized, Some(EnvelopeFormat::Tagged), current)
        },
        TAGGED_IMAGE_DATA_V1_V8_16,
    );
}

#[test]
fn serializes_image_data() {
    let mut heap = Heap::default();
    let registry = registry();
    let original = heap.new_image(2, 1, display_p3()).unwrap();
    let original_data = *heap.image(original).data();
    heap.set_bytes(original_data, &[1, 2, 3, 4, 5, 6, 7, 8]);

    let cloned = native_clone(&mut heap, &registry, &Value::Object(original), vec![]).unwrap();
    assert_ne!(cloned, Value::Object(original));
    let image = heap.image(cloned.object());
    assert_eq!((image.width(), image.height()), (2, 1));
    assert_eq!(image.color_space(), "display-p3");
    assert_eq!(image.pixel_format(), "rgba-unorm8");
    let data = *image.data();
    assert_ne!(data, original_data);
    assert_eq!(heap.array_bytes(data), heap.array_bytes(original_data));

    heap.set_bytes(data, &[255, 2, 3, 4, 5, 6, 7, 8]);
    assert_eq!(heap.array_bytes(original_data)[0], 1);
}

#[test]
fn serializes_float16_image_data() {
    let mut heap = Heap::default();
    let registry = registry();
    let original = heap
        .new_image(
            1,
            1,
            ImageDataSettings {
                color_space: None,
                pixel_format: ImageDataPixelFormat::RgbaFloat16,
            },
        )
        .unwrap();
    let original_data = *heap.image(original).data();
    // 1, 2, 3 and 4 as half-precision numbers.
    heap.set_bytes(original_data, &[0x00, 0x3C, 0x00, 0x40, 0x00, 0x42, 0x00, 0x44]);

    let cloned = native_clone(&mut heap, &registry, &Value::Object(original), vec![]).unwrap();
    let image = heap.image(cloned.object());
    assert_eq!(image.pixel_format(), "rgba-float16");
    assert_eq!(image.color_space(), "srgb");
    let data = *image.data();
    assert_eq!(heap.typed_array(data).kind, TypedArrayKind::Float16);
    assert_ne!(data, original_data);
    assert_eq!(heap.array_bytes(data), heap.array_bytes(original_data));
}

#[test]
fn transfer_list_failures() {
    let mut heap = Heap::default();
    let registry = registry();
    let record = heap.add(Object::Record(vec![]));
    let image = heap.new_image(1, 1, ImageDataSettings::default()).unwrap();
    let detached = heap.add(Object::ArrayBuffer {
        bytes: vec![],
        detached: true,
        detachable: true,
    });
    let gone = heap.add(Object::TestTransferable { value: 1, detached: true });
    for (value, failure) in [
        (Value::Number(1), Failure::Clone(CloneError::NotTransferable)),
        (Value::Object(record), Failure::Clone(CloneError::NotTransferable)),
        (Value::Object(image), Failure::Clone(CloneError::NotTransferable)),
        (Value::Object(detached), Failure::Clone(CloneError::DetachedArrayBuffer)),
        (Value::Object(gone), Failure::Host("TestTransferable is detached".to_string())),
    ] {
        let buffer = heap.array_buffer(&[0; 4]);
        let outcome = clone(
            &mut heap,
            &registry,
            &Value::Null,
            vec![Value::Object(buffer), value],
        );
        assert_eq!(outcome, Err(failure));
        assert_eq!(heap.bytes(buffer).len(), 4, "nothing is detached before the list passed");
    }
}

#[test]
fn objects_that_change_while_serializing_are_refused() {
    let registry = registry();
    for (change, failure) in [
        (
            (|heap: &mut Heap| {
                heap.objects[0] = Object::ArrayBuffer {
                    bytes: vec![],
                    detached: true,
                    detachable: true,
                }
            }) as fn(&mut Heap),
            CloneError::ArrayBufferChanged,
        ),
        (
            |heap: &mut Heap| {
                heap.objects[0] = Object::ArrayBuffer {
                    bytes: vec![1],
                    detached: false,
                    detachable: false,
                }
            },
            CloneError::ArrayBufferChanged,
        ),
    ] {
        let mut heap = Heap::default();
        let buffer = heap.array_buffer(&[1]);
        let last = heap.array_buffer(&[2]);
        heap.on_serialize = Some(change);
        let outcome = clone(
            &mut heap,
            &registry,
            &Value::Null,
            vec![Value::Object(buffer), Value::Object(last)],
        );
        assert_eq!(outcome, Err(Failure::Clone(failure)));
        assert_eq!(heap.bytes(last), [2]);
    }

    let mut heap = Heap::default();
    let object = heap.add(Object::TestTransferable { value: 1, detached: false });
    heap.on_serialize = Some(|heap| heap.objects[0] = Object::Record(vec![]));
    let outcome = clone(&mut heap, &registry, &Value::Null, vec![Value::Object(object)]);
    assert_eq!(outcome, Err(Failure::Clone(CloneError::HostObjectChanged)));
}

#[test]
fn exceptions_leave_everything_in_place() {
    let mut heap = Heap::default();
    let registry = registry();
    let buffer = heap.array_buffer(&[1, 2]);
    let value = heap.add(Object::Record(vec![("first", Value::Symbol)]));
    let value = Value::Object(value);
    let transfer = [Value::Object(buffer)];
    let result = serialize(
        &mut heap,
        &registry,
        &value,
        &transfer,
        structured_serialize_with_transfer(value.kind(), 1, 1),
    )
    .finish()
    .unwrap();
    assert!(result.serialized.is_empty());
    assert!(result.transfer_data_holders.is_empty());
    assert_eq!(heap.bytes(buffer), [1, 2]);

    let outcome = clone(&mut heap, &registry, &value, transfer.to_vec());
    assert_eq!(outcome, Err(Failure::Host("a symbol could not be cloned".to_string())));
    assert_eq!(heap.bytes(buffer), [1, 2]);
}

#[test]
fn exceptions_of_getters_reach_the_caller() {
    for clone in [clone as Clone, native_clone] {
        let mut heap = Heap::default();
        let value = heap.add(Object::Record(vec![("first", Value::Throws("e"))]));
        let outcome = clone(&mut heap, &registry(), &Value::Object(value), vec![]);
        assert_eq!(outcome, Err(Failure::Host("e".to_string())));

        // What is refused before the value is serialized comes first.
        let outcome =
            clone(&mut heap, &registry(), &Value::Object(value), vec![Value::Number(1)]);
        assert_eq!(outcome, Err(Failure::Clone(CloneError::NotTransferable)));
    }
}

#[test]
fn mixed_transfers_keep_their_order() {
    let mut heap = Heap::default();
    let registry = registry();
    let first = heap.array_buffer(&[1]);
    let object = heap.add(Object::TestTransferable { value: 7, detached: false });
    let second = heap.array_buffer(&[2]);
    let transfer = [Value::Object(first), Value::Object(object), Value::Object(second)];
    let value = heap.add(Object::Record(vec![
        ("second", Value::Object(second)),
        ("alias", Value::Object(object)),
    ]));
    let result = serialize(
        &mut heap,
        &registry,
        &Value::Object(value),
        &transfer,
        structured_serialize_with_transfer(ValueKind::Object, 3, 1),
    )
    .finish()
    .unwrap();
    assert_eq!(
        result.transfer_data_holders,
        [
            StructuredCloneTransferData::ArrayBuffer(vec![1]),
            StructuredCloneTransferData::HostObject(7),
            StructuredCloneTransferData::ArrayBuffer(vec![2]),
        ]
    );
    let result: Deserialized =
        deserialize(&mut heap, &registry, structured_deserialize_with_transfer(result, 1))
            .finish()
            .unwrap();
    let cloned = result.deserialized.object();
    assert_eq!(heap.property(cloned, "second"), result.transferred_values[2]);
    assert_eq!(heap.property(cloned, "alias"), result.transferred_values[1]);
    assert_eq!(heap.bytes(result.transferred_values[0].object()), [1]);
    assert_eq!(heap.bytes(result.transferred_values[2].object()), [2]);
}

fn deserialize_bytes(bytes: &[u8], current: u32) -> Result<Value, Failure<HostError>> {
    deserialize(
        &mut Heap::default(),
        &registry(),
        structured_deserialize(bytes.to_vec(), current),
    )
    .finish()
    .map(|result| result.deserialized)
}

#[test]
fn deserialization_failures() {
    let failure = |error| Err(Failure::Clone(error));
    assert_eq!(deserialize_bytes(b"DENO\x01\xFF\x10I\x54", 1), Ok(Value::Number(42)));
    assert_eq!(deserialize_bytes(b"DENO\x01\xFF\x10I\x54", 2), Ok(Value::Number(42)));
    assert_eq!(deserialize_bytes(b"\xFF\x10I\x54", 1), failure(CloneError::InvalidMagic));
    assert_eq!(deserialize_bytes(b"DENO\x80", 1), failure(CloneError::InvalidVersion));
    assert_eq!(
        deserialize_bytes(b"DENO\x00\xFF\x10I\x54", 1),
        failure(CloneError::UnsupportedVersion(0))
    );
    assert_eq!(
        deserialize_bytes(b"DENO\x02\xFF\x10I\x54", 1),
        failure(CloneError::UnsupportedVersion(2))
    );
    assert_eq!(deserialize_bytes(b"DENO\x01", 1), failure(CloneError::InvalidValueHeader));
    assert_eq!(
        deserialize_bytes(b"DENO\x01\xFF\x11I\x54", 1),
        failure(CloneError::InvalidValueHeader)
    );
    assert_eq!(deserialize_bytes(b"DENO\x01\xFF\x10", 1), failure(CloneError::InvalidValue));
    // A transferred object that was not transferred, and unknown host objects.
    assert_eq!(
        deserialize_bytes(b"DENO\x01\xFF\x10\x5C~\x00", 1),
        failure(CloneError::InvalidValue)
    );
    assert_eq!(
        deserialize_bytes(b"DENO\x01\xFF\x10\x5CG\x00", 1),
        failure(CloneError::InvalidValue)
    );
    assert_eq!(
        deserialize_bytes(b"DENO\x01\xFF\x10\x5Cg\x00", 1),
        failure(CloneError::InvalidValue)
    );
}

#[test]
fn serialization_replies_decide() {
    let start = || structured_serialize_with_transfer::<Store, u32, HostError>(ValueKind::Null, 1, 1);
    let end = |replies: Vec<SerializationReply<Store, u32, HostError>>| {
        let mut serialization = start();
        for reply in replies {
            serialization.resume(reply);
        }
        assert_eq!(serialization.request(), SerializationRequest::Finished);
        serialization.finish()
    };
    let failure = |error| Err(Failure::Clone(error));
    assert_eq!(
        end(vec![SerializationReply::Seen(Some(true))]),
        failure(CloneError::DuplicateTransfer)
    );
    assert_eq!(
        end(vec![SerializationReply::Seen(None), SerializationReply::Added(false)]),
        failure(CloneError::UnindexedTransferList)
    );
    let valid = || {
        vec![
            SerializationReply::Seen(None),
            SerializationReply::Added(true),
            SerializationReply::Kind(TransferKind::Object),
            SerializationReply::Validated(Ok(true)),
        ]
    };
    let with = |mut replies: Vec<_>, more: Vec<_>| {
        replies.extend(more);
        replies
    };
    assert_eq!(
        end(with(valid(), vec![SerializationReply::Numbered(false)])),
        failure(CloneError::UnindexedHostObject)
    );
    let numbered = || with(valid(), vec![SerializationReply::Numbered(true)]);
    assert_eq!(
        end(with(
            numbered(),
            vec![SerializationReply::Written(WriteOutcome {
                caught: false,
                terminated: false,
                written: Some(false),
            })]
        )),
        failure(CloneError::SerializationFailed)
    );
    assert_eq!(
        end(with(
            numbered(),
            vec![SerializationReply::Written(WriteOutcome {
                caught: false,
                terminated: true,
                written: Some(true),
            })]
        )),
        Ok(StructuredSerializeWithTransferResult {
            serialized: vec![],
            transfer_data_holders: vec![],
        })
    );
    let released = || {
        with(
            numbered(),
            vec![
                SerializationReply::Written(WriteOutcome {
                    caught: false,
                    terminated: false,
                    written: Some(true),
                }),
                SerializationReply::Released(vec![1]),
            ],
        )
    };
    assert_eq!(
        end(with(
            released(),
            vec![
                SerializationReply::Validated(Ok(true)),
                SerializationReply::Transferred(Err("no".to_string())),
            ]
        )),
        Err(Failure::Host("no".to_string()))
    );
    assert_eq!(
        end(vec![
            SerializationReply::Seen(Some(false)),
            SerializationReply::Added(true),
            SerializationReply::Kind(TransferKind::ArrayBuffer),
            SerializationReply::Detached(false),
            SerializationReply::Written(WriteOutcome {
                caught: false,
                terminated: false,
                written: Some(true),
            }),
            SerializationReply::Released(vec![1]),
            SerializationReply::DetachState { detached: false, detachable: true },
            SerializationReply::BackingStore { store: vec![], detached: None },
        ]),
        failure(CloneError::ArrayBufferNotDetached)
    );
}

#[test]
fn brands_are_checked() {
    assert_eq!(
        validate_structured_clone_transferable::<HostError>(None),
        Err(Failure::Clone(CloneError::InvalidBrand))
    );
    assert_eq!(
        transfer_structured_clone_host_object::<u32, HostError>(None),
        Err(Failure::Clone(CloneError::InvalidBrand))
    );
    assert_eq!(
        receive_structured_clone_host_object::<u32, HostError>(None),
        Err(Failure::Clone(CloneError::UnexpectedTransferData))
    );
    assert_eq!(transfer_structured_clone_host_object::<u32, HostError>(Some(Ok(3))), Ok(3));
    assert_eq!(can_transfer::<HostError>(None), Ok(false));
    assert_eq!(can_transfer::<HostError>(Some(Ok(()))), Ok(true));
}

#[test]
fn serialization_within_an_isolate() {
    match web_serialize::<Value, Store, u32, HostError>(Value::Number(5), ValueKind::Number) {
        WebSerialization::Primitive(value) => assert_eq!(value, Value::Number(5)),
        WebSerialization::Graph(_) => panic!("a number is plain"),
    }
    let outcome = web_serialize::<Value, Store, u32, HostError>(Value::Symbol, ValueKind::Symbol).finish();
    assert_eq!(outcome, Err(Failure::Clone(CloneError::Symbol)));

    let start = web_serialize::<Value, Store, u32, HostError>(Value::Object(0), ValueKind::Object);
    let graph = match start {
        WebSerialization::Graph(mut graph) => {
            assert_eq!(graph.request(), SerializationRequest::WriteGraph);
            assert!(graph.prologue().is_empty());
            graph.resume(SerializationReply::Written(WriteOutcome {
                caught: false,
                terminated: false,
                written: Some(true),
            }));
            graph.resume(SerializationReply::Released(vec![0xFF, 0x10, b'0']));
            graph
        }
        WebSerialization::Primitive(_) => panic!("an object is not plain"),
    };
    let serialized = WebSerialization::<Value, Store, u32, HostError>::Graph(graph).finish().unwrap();
    assert_eq!(serialized, SerializedValue::V8(vec![0xFF, 0x10, b'0']));

    match web_deserialize::<Value, Store, u32, HostError>(serialized) {
        WebDeserialization::Graph(mut graph) => {
            assert_eq!(graph.request(), DeserializationRequest::ReadHeader);
            assert_eq!(graph.payload(), [0xFF, 0x10, b'0']);
            graph.resume(DeserializationReply::Header(Some(true)));
            graph.resume(DeserializationReply::Value(Some(Value::Null)));
            let outcome = WebDeserialization::<Value, Store, u32, HostError>::Graph(graph).finish();
            assert_eq!(outcome, Ok(Value::Null));
        }
        WebDeserialization::Primitive(_) => panic!("bytes are no plain value"),
    }
    let outcome =
        web_deserialize::<Value, Store, u32, HostError>(SerializedValue::Primitive(Value::Null)).finish();
    assert_eq!(outcome, Ok(Value::Null));
}
