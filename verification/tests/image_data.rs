use structured_clone::varint::read_lenient_u32_varint;
use structured_clone::web::image_data::constructor::{
    alloc_typed_array, argument_name, construct_from_data, Construction, ConstructionReply,
    ConstructionRequest, ConstructorArguments, TypedArrayLayout, CONSTRUCT_PREFIX,
};
use structured_clone::web::image_data::payload::{
    ImageDataReader, ImageDataSerializationTag, SerializedImageDataPixelFormat,
    SerializedPredefinedColorSpace,
};
use structured_clone::web::image_data::{
    ImageData, ImageDataError, ImageDataPixelFormat, ImageDataSettings, PredefinedColorSpace,
    TypedArray, TypedArrayKind,
};
use structured_clone::webidl::{
    assert_combined_markers, assert_serializable_marker, assert_transferable_marker,
    SerializableInterface, SerializableTransferableInterface, TransferableInterface, WebIdlError,
    WebIdlInterface,
};

type Error = ImageDataError<&'static str>;

const UNORM8: ImageDataSettings = ImageDataSettings {
    color_space: None,
    pixel_format: ImageDataPixelFormat::RgbaUnorm8,
};

const FLOAT16: ImageDataSettings = ImageDataSettings {
    color_space: Some(PredefinedColorSpace::DisplayP3),
    pixel_format: ImageDataPixelFormat::RgbaFloat16,
};

struct Answers {
    width: Result<u32, &'static str>,
    height: Result<u32, &'static str>,
    settings: Result<ImageDataSettings, &'static str>,
    length: usize,
    allocated: bool,
}

const ANSWERS: Answers = Answers {
    width: Ok(2),
    height: Ok(3),
    settings: Ok(UNORM8),
    length: 24,
    allocated: true,
};

/// Runs the constructor. Gives the requests that it made and its outcome.
fn construct(
    arguments: ConstructorArguments,
    answers: Answers,
) -> (Vec<ConstructionRequest>, Result<ImageData<&'static str>, Error>) {
    let data_overload = !matches!(
        ImageData::<&'static str>::constructor::<&'static str>(arguments),
        Construction::SizeWidth
    );
    let mut requests = vec![];
    let mut construction = ImageData::constructor(arguments);
    loop {
        let request = construction.request();
        let reply = match request {
            ConstructionRequest::UnsignedLong { argument } => {
                if argument == if data_overload { 1 } else { 0 } {
                    ConstructionReply::UnsignedLong(answers.width)
                } else {
                    ConstructionReply::UnsignedLong(answers.height)
                }
            }
            ConstructionRequest::Settings { .. } => ConstructionReply::Settings(answers.settings),
            ConstructionRequest::Data => {
                ConstructionReply::Data { length: answers.length, data: "given" }
            }
            ConstructionRequest::Allocate(_) => {
                ConstructionReply::Allocated(answers.allocated.then_some("allocated"))
            }
            ConstructionRequest::Finished => break,
        };
        requests.push(request);
        construction = construction.resume(reply);
    }
    match construction {
        Construction::Finished(outcome) => (requests, outcome),
        _ => unreachable!(),
    }
}

fn size_arguments(count: usize) -> ConstructorArguments {
    ConstructorArguments { count, first: None, third_is_undefined: count < 3 }
}

fn data_arguments(count: usize, kind: TypedArrayKind) -> ConstructorArguments {
    ConstructorArguments { count, first: Some(kind), third_is_undefined: count < 3 }
}

#[test]
fn image_of_a_size() {
    let (requests, image) = construct(size_arguments(2), ANSWERS);
    assert_eq!(
        requests,
        [
            ConstructionRequest::UnsignedLong { argument: 0 },
            ConstructionRequest::UnsignedLong { argument: 1 },
            ConstructionRequest::Settings { argument: 2 },
            ConstructionRequest::Allocate(TypedArrayLayout {
                kind: TypedArrayKind::Uint8Clamped,
                length: 24,
                byte_length: 24,
            }),
        ]
    );
    let image = image.unwrap();
    assert_eq!((image.width(), image.height()), (2, 3));
    assert_eq!(*image.data(), "allocated");
    assert_eq!(image.color_space(), "srgb");
    assert_eq!(image.pixel_format(), "rgba-unorm8");

    let (requests, image) =
        construct(size_arguments(3), Answers { settings: Ok(FLOAT16), ..ANSWERS });
    assert_eq!(
        requests[3],
        ConstructionRequest::Allocate(TypedArrayLayout {
            kind: TypedArrayKind::Float16,
            length: 24,
            byte_length: 48,
        })
    );
    let image = image.unwrap();
    assert_eq!(image.color_space(), "display-p3");
    assert_eq!(image.pixel_format(), "rgba-float16");
}

#[test]
fn image_of_pixels() {
    let (requests, image) =
        construct(data_arguments(2, TypedArrayKind::Uint8Clamped), ANSWERS);
    assert_eq!(
        requests,
        [
            ConstructionRequest::UnsignedLong { argument: 1 },
            ConstructionRequest::Settings { argument: 3 },
            ConstructionRequest::Data,
        ]
    );
    let image = image.unwrap();
    assert_eq!((image.width(), image.height()), (2, 3));
    assert_eq!(*image.data(), "given");

    let (requests, image) =
        construct(data_arguments(3, TypedArrayKind::Uint8Clamped), ANSWERS);
    assert_eq!(requests[1], ConstructionRequest::UnsignedLong { argument: 2 });
    assert_eq!(image.unwrap().height(), 3);

    let undefined_height = ConstructorArguments {
        third_is_undefined: true,
        ..data_arguments(4, TypedArrayKind::Float16)
    };
    let (requests, image) =
        construct(undefined_height, Answers { settings: Ok(FLOAT16), ..ANSWERS });
    assert_eq!(requests[1], ConstructionRequest::Settings { argument: 3 });
    assert_eq!(image.unwrap().height(), 3);

    // With four arguments any typed array will do, whatever its element type.
    let (_, image) = construct(
        data_arguments(4, TypedArrayKind::Other),
        Answers { settings: Ok(FLOAT16), ..ANSWERS },
    );
    assert_eq!(image.unwrap().pixel_format(), "rgba-float16");
    // With three, only the two types of pixels are taken for pixels.
    let (requests, _) = construct(data_arguments(3, TypedArrayKind::Other), ANSWERS);
    assert_eq!(requests[0], ConstructionRequest::UnsignedLong { argument: 0 });
}

#[test]
fn pixels_must_be_a_typed_array() {
    let (requests, outcome) = construct(size_arguments(4), ANSWERS);
    assert!(requests.is_empty());
    assert_eq!(
        outcome,
        Err(ImageDataError::WebIDL(WebIdlError::ConvertToConverterType {
            prefix: "Failed to construct 'ImageData'",
            context: "Argument 1",
            converter: "ArrayBufferView",
        }))
    );
    assert_eq!(CONSTRUCT_PREFIX, "Failed to construct 'ImageData'");
    let names: Vec<&str> = (0..4).map(argument_name).collect();
    assert_eq!(names, ["Argument 1", "Argument 2", "Argument 3", "Argument 4"]);
}

#[test]
fn first_failed_conversion_is_reported() {
    let failed = |error| Err(ImageDataError::WebIDL(WebIdlError::Conversion(error)));
    for arguments in [size_arguments(3), data_arguments(4, TypedArrayKind::Uint8Clamped)] {
        let (requests, outcome) = construct(
            arguments,
            Answers { width: Err("width"), height: Err("height"), ..ANSWERS },
        );
        assert_eq!(requests.len(), 1);
        assert_eq!(outcome, failed("width"));
        let (requests, outcome) = construct(
            arguments,
            Answers { width: Ok(0), height: Err("height"), settings: Err("settings"), ..ANSWERS },
        );
        assert_eq!(requests.len(), 2);
        assert_eq!(outcome, failed("height"));
        let (requests, outcome) =
            construct(arguments, Answers { width: Ok(0), settings: Err("settings"), ..ANSWERS });
        assert_eq!(requests.len(), 3);
        assert_eq!(outcome, failed("settings"));
    }
}

#[test]
fn sizes_are_checked() {
    let refused = |answers| construct(size_arguments(2), answers).1.unwrap_err();
    assert_eq!(refused(Answers { width: Ok(0), height: Ok(0), ..ANSWERS }), Error::ZeroWidth);
    assert_eq!(refused(Answers { height: Ok(0), ..ANSWERS }), Error::ZeroHeight);
    assert_eq!(refused(Answers { allocated: false, ..ANSWERS }), Error::AllocationFailed);
    let (requests, outcome) = construct(
        size_arguments(2),
        Answers { width: Ok(u32::MAX), height: Ok(u32::MAX), ..ANSWERS },
    );
    assert_eq!(requests.len(), 3, "nothing is allocated");
    assert_eq!(outcome, Err(Error::AllocationFailed));
}

#[test]
fn layouts() {
    let unorm8 = alloc_typed_array::<()>(ImageDataPixelFormat::RgbaUnorm8, 5, 7).unwrap();
    assert_eq!((unorm8.length, unorm8.byte_length), (140, 140));
    let float16 = alloc_typed_array::<()>(ImageDataPixelFormat::RgbaFloat16, 5, 7).unwrap();
    assert_eq!((float16.length, float16.byte_length), (140, 280));
    // 4 * w * h fits in 64 bits where 8 * w * h does not.
    assert!(alloc_typed_array::<()>(ImageDataPixelFormat::RgbaUnorm8, 0xC000_0000, 0x4000_0000)
        .is_ok());
    assert_eq!(
        alloc_typed_array::<()>(ImageDataPixelFormat::RgbaFloat16, 0xC000_0000, 0x4000_0000),
        Err(ImageDataError::AllocationFailed)
    );
}

#[test]
fn pixels_are_checked_in_order() {
    let from = |kind, width, height, settings, length| {
        construct_from_data::<(), &'static str>(kind, width, height, settings, length, ())
            .unwrap_err()
    };
    let clamped = TypedArrayKind::Uint8Clamped;
    assert_eq!(from(clamped, 0, Some(0), FLOAT16, 0), Error::ZeroElements);
    assert_eq!(from(clamped, 0, Some(0), FLOAT16, 7), Error::NotMultipleOfFour(7));
    assert_eq!(from(clamped, 0, Some(0), FLOAT16, 24), Error::ZeroWidth);
    assert_eq!(from(clamped, 4, Some(0), FLOAT16, 24), Error::ZeroHeight);
    assert_eq!(from(clamped, 4, Some(9), FLOAT16, 24), Error::NotMultipleOfRow);
    assert_eq!(from(clamped, 2, Some(9), FLOAT16, 24), Error::WrongLength);
    assert_eq!(from(clamped, 2, Some(3), FLOAT16, 24), Error::Uint8ClampedNeedsUnorm);
    assert_eq!(
        from(TypedArrayKind::Float16, 2, None, UNORM8, 24),
        Error::Float16NeedsFloat16
    );
}

#[test]
fn error_classes_and_messages() {
    for (error, class, message) in [
        (
            Error::ZeroElements,
            "DOMExceptionInvalidStateError",
            "Failed to construct 'ImageData': the input data has zero elements",
        ),
        (
            Error::NotMultipleOfFour(1907),
            "DOMExceptionInvalidStateError",
            "Failed to construct 'ImageData': the input data length is not a multiple of 4, received 1907",
        ),
        (
            Error::ZeroWidth,
            "DOMExceptionIndexSizeError",
            "Failed to construct 'ImageData': the source width is zero or not a number",
        ),
        (
            Error::ZeroHeight,
            "DOMExceptionIndexSizeError",
            "Failed to construct 'ImageData': the source height is zero or not a number",
        ),
        (
            Error::NotMultipleOfRow,
            "DOMExceptionIndexSizeError",
            "Failed to construct 'ImageData': the input data length is not a multiple of (4 * width)",
        ),
        (
            Error::WrongLength,
            "DOMExceptionIndexSizeError",
            "Failed to construct 'ImageData': the input data length is not equal to (4 * width * height)",
        ),
        (
            Error::Uint8ClampedNeedsUnorm,
            "DOMExceptionInvalidStateError",
            "Failed to construct 'ImageData': Uint8ClampedArray must use rgba-unorm8 pixelFormat.",
        ),
        (
            Error::Float16NeedsFloat16,
            "DOMExceptionInvalidStateError",
            "Failed to construct 'ImageData': Float16Array must use rgba-float16 pixelFormat.",
        ),
        (Error::AllocationFailed, "Error", "Failed to allocate ImageData backing store"),
    ] {
        assert_eq!(error.class(), Some(class));
        assert_eq!(error.message().as_deref(), Some(message));
    }
    let inherited = Error::WebIDL(WebIdlError::Conversion("inner"));
    assert_eq!(inherited.class(), None);
    assert_eq!(inherited.message(), None);
}

fn read(numbers: &[u32], array: Option<TypedArray<()>>) -> Option<ImageData<()>> {
    let mut reader = ImageDataReader::new();
    let mut numbers = numbers.iter().copied();
    while reader.needs_number() {
        reader = reader.resume(numbers.next());
    }
    assert_eq!(numbers.next(), None);
    reader.finish(array)
}

fn clamped(length: usize) -> Option<TypedArray<()>> {
    Some(TypedArray { kind: TypedArrayKind::Uint8Clamped, length, data: () })
}

#[test]
fn payload_is_read_back() {
    let image = ImageData {
        width: 300,
        height: 2,
        pixel_format: ImageDataPixelFormat::RgbaFloat16,
        color_space: PredefinedColorSpace::DisplayP3,
        data: (),
    };
    let bytes = image.write_structured_clone_payload();
    assert_eq!(bytes, [1, 1, 2, 1, 0, 0xAC, 0x02, 2]);
    let mut reader = ImageDataReader::new();
    let mut position = 0;
    while reader.needs_number() {
        let (number, len) = read_lenient_u32_varint(&bytes, position).unwrap();
        position += len;
        reader = reader.resume(Some(number));
    }
    assert_eq!(position, bytes.len());
    let array = TypedArray { kind: TypedArrayKind::Float16, length: 2400, data: () };
    assert_eq!(reader.finish(Some(array)), Some(image));
}

#[test]
fn absent_settings_have_defaults() {
    let image = read(&[0, 2, 1], clamped(8)).unwrap();
    assert_eq!(image.color_space(), "srgb");
    assert_eq!(image.pixel_format(), "rgba-unorm8");
    assert_eq!((image.width(), image.height()), (2, 1));
    let image = read(&[1, 1, 0, 2, 1], clamped(8)).unwrap();
    assert_eq!(image.color_space(), "display-p3");
    assert_eq!(image.pixel_format(), "rgba-unorm8");
    // The last of several settings of one sort counts.
    let image = read(&[1, 1, 2, 1, 1, 0, 2, 0, 0, 2, 1], clamped(8)).unwrap();
    assert_eq!(image.color_space(), "srgb");
    assert_eq!(image.pixel_format(), "rgba-unorm8");
}

#[test]
fn malformed_payloads_are_refused() {
    for numbers in [&[3][..], &[1, 2], &[2, 2], &[], &[1], &[2], &[0], &[0, 2]] {
        assert_eq!(read(numbers, clamped(8)), None);
    }
    assert_eq!(read(&[0, 2, 1], None), None);
    assert_eq!(read(&[0, 2, 1], clamped(4)), None);
    assert_eq!(read(&[2, 1, 0, 2, 1], clamped(8)), None);
    assert_eq!(read(&[0, u32::MAX, u32::MAX], clamped(4)), None);
}

#[test]
fn wire_values_are_fixed() {
    for (tag, code) in [
        (ImageDataSerializationTag::End, 0),
        (ImageDataSerializationTag::PredefinedColorSpace, 1),
        (ImageDataSerializationTag::PixelFormat, 2),
    ] {
        assert_eq!(tag.as_u32(), code);
        assert_eq!(ImageDataSerializationTag::from_u32(code), Some(tag));
    }
    assert_eq!(ImageDataSerializationTag::from_u32(3), None);
    for (color_space, code) in
        [(PredefinedColorSpace::Srgb, 0), (PredefinedColorSpace::DisplayP3, 1)]
    {
        assert_eq!(
            SerializedPredefinedColorSpace::from_color_space(color_space).as_u32(),
            code
        );
        assert_eq!(
            SerializedPredefinedColorSpace::into_color_space(code),
            Some(color_space)
        );
    }
    assert_eq!(SerializedPredefinedColorSpace::into_color_space(2), None);
    for (format, code) in
        [(ImageDataPixelFormat::RgbaUnorm8, 0), (ImageDataPixelFormat::RgbaFloat16, 1)]
    {
        assert_eq!(
            SerializedImageDataPixelFormat::from_pixel_format(format).as_u32(),
            code
        );
        assert_eq!(SerializedImageDataPixelFormat::into_pixel_format(code), Some(format));
    }
    assert_eq!(SerializedImageDataPixelFormat::into_pixel_format(2), None);
    assert_eq!(ImageDataSettings::default(), UNORM8);
}

#[test]
fn interfaces_have_the_names_of_the_idl() {
    assert_serializable_marker();
    assert_transferable_marker();
    assert_combined_markers();
    assert_eq!(SerializableInterface::INTERFACE_NAME, "SerializableInterface");
    assert_eq!(TransferableInterface::INTERFACE_NAME, "TransferableInterface");
    assert_eq!(
        SerializableTransferableInterface::INTERFACE_NAME,
        "SerializableTransferableInterface"
    );
    assert_eq!(ImageData::<()>::INTERFACE_NAME, "ImageData");
}
