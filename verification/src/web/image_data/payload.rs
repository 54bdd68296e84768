//! The serialized form of an `ImageData`.
//!
//! First come the settings, each a subtag and a value, up to an end tag. The
//! width, the height and the typed array, written by V8, follow. A setting that
//! is absent has its default, so settings can be added without a new version;
//! the numbers of subtags and values are permanent.

use vstd::prelude::*;

use crate::varint::{
    lemma_varint_round_trip, lenient_u32_varint, varint_bytes, write_u32_varint,
};
use crate::web::image_data::{
    element_count, format_kind, ImageData, ImageDataPixelFormat, PredefinedColorSpace,
    TypedArray, TypedArrayKind,
};
use crate::web::image_data::constructor::{
    construction_outcome, construction_start, layout_of, lemma_constructed_size, rows_fit,
    ConstructionAnswers, ConstructorArguments,
};

verus! {

/// What comes next in the settings.
#[derive(Clone, Copy, Debug, PartialEq, Eq, Structural)]
pub enum ImageDataSerializationTag {
    /// Nothing: the settings end here.
    End,
    /// A colour space.
    PredefinedColorSpace,
    /// A pixel format.
    PixelFormat,
}

impl ImageDataSerializationTag {
    /// The number that stands for the subtag.
    pub open spec fn code(self) -> u32 {
        match self {
            ImageDataSerializationTag::End => 0,
            ImageDataSerializationTag::PredefinedColorSpace => 1,
            ImageDataSerializationTag::PixelFormat => 2,
        }
    }

    /// The number that stands for the subtag.
    pub fn as_u32(self) -> (code: u32)
        ensures
            code == self.code(),
    {
        match self {
            ImageDataSerializationTag::End => 0,
            ImageDataSerializationTag::PredefinedColorSpace => 1,
            ImageDataSerializationTag::PixelFormat => 2,
        }
    }

    /// The subtag that `value` stands for.
    pub open spec fn of_code(value: u32) -> Option<Self> {
        match value {
            0 => Some(ImageDataSerializationTag::End),
            1 => Some(ImageDataSerializationTag::PredefinedColorSpace),
            2 => Some(ImageDataSerializationTag::PixelFormat),
            _ => None,
        }
    }

    /// The subtag that `value` stands for.
    pub fn from_u32(value: u32) -> (tag: Option<Self>)
        ensures
            tag == Self::of_code(value),
            tag matches Some(tag) ==> tag.code() == value,
            tag is None ==> forall|tag: Self| tag.code() != value,
    {
        if value == 0 {
            Some(ImageDataSerializationTag::End)
        } else if value == 1 {
            Some(ImageDataSerializationTag::PredefinedColorSpace)
        } else if value == 2 {
            Some(ImageDataSerializationTag::PixelFormat)
        } else {
            None
        }
    }
}

/// The numbers that stand for colour spaces, whatever order the colour spaces
/// are declared in.
#[derive(Clone, Copy, Debug, PartialEq, Eq, Structural)]
pub enum SerializedPredefinedColorSpace {
    Srgb,
    DisplayP3,
}

/// The number of a colour space.
pub open spec fn color_space_code(color_space: PredefinedColorSpace) -> u32 {
    match color_space {
        PredefinedColorSpace::Srgb => 0,
        PredefinedColorSpace::DisplayP3 => 1,
    }
}

/// The colour space that a number stands for.
pub open spec fn color_space_of(code: u32) -> Option<PredefinedColorSpace> {
    match code {
        0 => Some(PredefinedColorSpace::Srgb),
        1 => Some(PredefinedColorSpace::DisplayP3),
        _ => None,
    }
}

impl SerializedPredefinedColorSpace {
    /// The colour space.
    pub open spec fn color_space(self) -> PredefinedColorSpace {
        match self {
            SerializedPredefinedColorSpace::Srgb => PredefinedColorSpace::Srgb,
            SerializedPredefinedColorSpace::DisplayP3 => PredefinedColorSpace::DisplayP3,
        }
    }

    /// The number.
    pub fn as_u32(self) -> (code: u32)
        ensures
            code == color_space_code(self.color_space()),
    {
        match self {
            SerializedPredefinedColorSpace::Srgb => 0,
            SerializedPredefinedColorSpace::DisplayP3 => 1,
        }
    }

    /// The number of `value`.
    pub fn from_color_space(value: PredefinedColorSpace) -> (serialized: Self)
        ensures
            serialized.color_space() == value,
    {
        match value {
            PredefinedColorSpace::Srgb => SerializedPredefinedColorSpace::Srgb,
            PredefinedColorSpace::DisplayP3 => SerializedPredefinedColorSpace::DisplayP3,
        }
    }

    /// The colour space that `value` stands for.
    pub fn into_color_space(value: u32) -> (color_space: Option<PredefinedColorSpace>)
        ensures
            color_space == color_space_of(value),
            color_space matches Some(found) ==> color_space_code(found) == value,
            color_space is None ==> forall|other| color_space_code(other) != value,
    {
        if value == 0 {
            Some(PredefinedColorSpace::Srgb)
        } else if value == 1 {
            Some(PredefinedColorSpace::DisplayP3)
        } else {
            None
        }
    }
}

/// The numbers that stand for pixel formats, whatever order the pixel formats
/// are declared in.
#[derive(Clone, Copy, Debug, PartialEq, Eq, Structural)]
pub enum SerializedImageDataPixelFormat {
    RgbaUnorm8,
    RgbaFloat16,
}

/// The number of a pixel format.
pub open spec fn pixel_format_code(format: ImageDataPixelFormat) -> u32 {
    match format {
        ImageDataPixelFormat::RgbaUnorm8 => 0,
        ImageDataPixelFormat::RgbaFloat16 => 1,
    }
}

/// The pixel format that a number stands for.
pub open spec fn pixel_format_of(code: u32) -> Option<ImageDataPixelFormat> {
    match code {
        0 => Some(ImageDataPixelFormat::RgbaUnorm8),
        1 => Some(ImageDataPixelFormat::RgbaFloat16),
        _ => None,
    }
}

impl SerializedImageDataPixelFormat {
    /// The pixel format.
    pub open spec fn pixel_format(self) -> ImageDataPixelFormat {
        match self {
            SerializedImageDataPixelFormat::RgbaUnorm8 => ImageDataPixelFormat::RgbaUnorm8,
            SerializedImageDataPixelFormat::RgbaFloat16 => ImageDataPixelFormat::RgbaFloat16,
        }
    }

    /// The number.
    pub fn as_u32(self) -> (code: u32)
        ensures
            code == pixel_format_code(self.pixel_format()),
    {
        match self {
            SerializedImageDataPixelFormat::RgbaUnorm8 => 0,
            SerializedImageDataPixelFormat::RgbaFloat16 => 1,
        }
    }

    /// The number of `value`.
    pub fn from_pixel_format(value: ImageDataPixelFormat) -> (serialized: Self)
        ensures
            serialized.pixel_format() == value,
    {
        match value {
            ImageDataPixelFormat::RgbaUnorm8 => SerializedImageDataPixelFormat::RgbaUnorm8,
            ImageDataPixelFormat::RgbaFloat16 => SerializedImageDataPixelFormat::RgbaFloat16,
        }
    }

    /// The pixel format that `value` stands for.
    pub fn into_pixel_format(value: u32) -> (format: Option<ImageDataPixelFormat>)
        ensures
            format == pixel_format_of(value),
            format matches Some(found) ==> pixel_format_code(found) == value,
            format is None ==> forall|other| pixel_format_code(other) != value,
    {
        if value == 0 {
            Some(ImageDataPixelFormat::RgbaUnorm8)
        } else if value == 1 {
            Some(ImageDataPixelFormat::RgbaFloat16)
        } else {
            None
        }
    }
}

/// What stands before the typed array.
#[derive(Clone, Copy, Debug, PartialEq, Eq, Structural)]
pub struct ImageDataHeader {
    pub color_space: PredefinedColorSpace,
    pub pixel_format: ImageDataPixelFormat,
    pub width: u32,
    pub height: u32,
}

impl<D> ImageData<D> {
    /// All of the image but its typed array.
    pub open spec fn header(self) -> ImageDataHeader {
        ImageDataHeader {
            color_space: self.color_space,
            pixel_format: self.pixel_format,
            width: self.width,
            height: self.height,
        }
    }
}

/// The numbers that are written before the typed array.
pub open spec fn header_numbers(header: ImageDataHeader) -> Seq<u32> {
    seq![
        ImageDataSerializationTag::PredefinedColorSpace.code(),
        color_space_code(header.color_space),
        ImageDataSerializationTag::PixelFormat.code(),
        pixel_format_code(header.pixel_format),
        ImageDataSerializationTag::End.code(),
        header.width,
        header.height,
    ]
}

/// Numbers one after the other, as varints.
pub open spec fn number_bytes(numbers: Seq<u32>) -> Seq<u8>
    decreases numbers.len(),
{
    if numbers.len() == 0 {
        Seq::empty()
    } else {
        varint_bytes(numbers[0] as nat) + number_bytes(numbers.skip(1))
    }
}

/// The numbers that V8 reads off `bytes`, one after the other, as many as there
/// are.
pub open spec fn numbers_of(bytes: Seq<u8>) -> Seq<u32>
    decreases bytes.len(),
{
    match lenient_u32_varint(bytes) {
        Some((value, len)) if 0 < len <= bytes.len() => seq![value] + numbers_of(
            bytes.skip(len as int),
        ),
        _ => Seq::empty(),
    }
}

/// A header without settings.
pub open spec fn default_header() -> ImageDataHeader {
    ImageDataHeader {
        color_space: PredefinedColorSpace::Srgb,
        pixel_format: ImageDataPixelFormat::RgbaUnorm8,
        width: 0,
        height: 0,
    }
}

/// `header` with one more setting, if there is such a setting.
pub open spec fn with_setting(header: ImageDataHeader, subtag: u32, value: u32) -> Option<
    ImageDataHeader,
> {
    match ImageDataSerializationTag::of_code(subtag) {
        Some(ImageDataSerializationTag::PredefinedColorSpace) => match color_space_of(value) {
            Some(color_space) => Some(ImageDataHeader { color_space, ..header }),
            None => None,
        },
        Some(ImageDataSerializationTag::PixelFormat) => match pixel_format_of(value) {
            Some(pixel_format) => Some(ImageDataHeader { pixel_format, ..header }),
            None => None,
        },
        _ => None,
    }
}

/// The header that `numbers` start with, where `header` holds the settings so
/// far, and how many of the numbers it takes. There is none when a subtag or a
/// value is unknown, or when the numbers end too early.
pub open spec fn parsed_header(header: ImageDataHeader, numbers: Seq<u32>) -> Option<
    (ImageDataHeader, nat),
>
    decreases numbers.len(),
{
    if numbers.len() == 0 {
        None
    } else if numbers[0] == ImageDataSerializationTag::End.code() {
        if numbers.len() >= 3 {
            Some((ImageDataHeader { width: numbers[1], height: numbers[2], ..header }, 3))
        } else {
            None
        }
    } else if numbers.len() == 1 {
        None
    } else {
        match with_setting(header, numbers[0], numbers[1]) {
            Some(header) => match parsed_header(header, numbers.skip(2)) {
                Some((header, used)) => Some((header, used + 2)),
                None => None,
            },
            None => None,
        }
    }
}

/// A reader of the serialized form. It is handed the numbers one by one, as V8
/// reads them, and then the typed array.
#[derive(Clone, Copy, Debug, PartialEq, Eq, Structural)]
pub enum ImageDataReader {
    /// A subtag is next.
    Subtag(ImageDataHeader),
    /// The number of a colour space is next.
    ColorSpace(ImageDataHeader),
    /// The number of a pixel format is next.
    PixelFormat(ImageDataHeader),
    /// The width is next.
    Width(ImageDataHeader),
    /// The height is next.
    Height(ImageDataHeader),
    /// The typed array is next.
    Data(ImageDataHeader),
    /// This is no image.
    Refused,
}

impl ImageDataReader {
    /// Whether a number is next.
    pub open spec fn wants_number(self) -> bool {
        !(self is Data) && !(self is Refused)
    }

    /// The reader after the next number, or after the lack of one.
    pub open spec fn after(self, number: Option<u32>) -> Self {
        match (self, number) {
            (ImageDataReader::Subtag(header), Some(number)) => {
                match ImageDataSerializationTag::of_code(number) {
                    Some(ImageDataSerializationTag::End) => ImageDataReader::Width(header),
                    Some(ImageDataSerializationTag::PredefinedColorSpace) => {
                        ImageDataReader::ColorSpace(header)
                    },
                    Some(ImageDataSerializationTag::PixelFormat) => {
                        ImageDataReader::PixelFormat(header)
                    },
                    None => ImageDataReader::Refused,
                }
            },
            (ImageDataReader::ColorSpace(header), Some(number)) => match color_space_of(number) {
                Some(color_space) => ImageDataReader::Subtag(
                    ImageDataHeader { color_space, ..header },
                ),
                None => ImageDataReader::Refused,
            },
            (ImageDataReader::PixelFormat(header), Some(number)) => match pixel_format_of(number) {
                Some(pixel_format) => ImageDataReader::Subtag(
                    ImageDataHeader { pixel_format, ..header },
                ),
                None => ImageDataReader::Refused,
            },
            (ImageDataReader::Width(header), Some(width)) => ImageDataReader::Height(
                ImageDataHeader { width, ..header },
            ),
            (ImageDataReader::Height(header), Some(height)) => ImageDataReader::Data(
                ImageDataHeader { height, ..header },
            ),
            _ => ImageDataReader::Refused,
        }
    }

    /// A reader at the start of an image.
    pub fn new() -> (reader: Self)
        ensures
            reader == ImageDataReader::Subtag(default_header()),
    {
        ImageDataReader::Subtag(
            ImageDataHeader {
                color_space: PredefinedColorSpace::Srgb,
                pixel_format: ImageDataPixelFormat::RgbaUnorm8,
                width: 0,
                height: 0,
            },
        )
    }

    /// Whether to hand over a number next.
    pub fn needs_number(&self) -> (needed: bool)
        ensures
            needed == self.wants_number(),
    {
        !matches!(self, ImageDataReader::Data(_) | ImageDataReader::Refused)
    }

    /// Goes on with the next number, `None` if V8 could not read one.
    pub fn resume(self, number: Option<u32>) -> (next: Self)
        requires
            self.wants_number(),
        ensures
            next == self.after(number),
    {
        let number: u32 = match number {
            Some(number) => number,
            None => {
                return ImageDataReader::Refused;
            },
        };
        match self {
            ImageDataReader::Subtag(header) => match ImageDataSerializationTag::from_u32(number) {
                Some(ImageDataSerializationTag::End) => ImageDataReader::Width(header),
                Some(ImageDataSerializationTag::PredefinedColorSpace) => {
                    ImageDataReader::ColorSpace(header)
                },
                Some(ImageDataSerializationTag::PixelFormat) => {
                    ImageDataReader::PixelFormat(header)
                },
                None => ImageDataReader::Refused,
            },
            ImageDataReader::ColorSpace(header) => {
                match SerializedPredefinedColorSpace::into_color_space(number) {
                    Some(color_space) => ImageDataReader::Subtag(
                        ImageDataHeader { color_space, ..header },
                    ),
                    None => ImageDataReader::Refused,
                }
            },
            ImageDataReader::PixelFormat(header) => {
                match SerializedImageDataPixelFormat::into_pixel_format(number) {
                    Some(pixel_format) => ImageDataReader::Subtag(
                        ImageDataHeader { pixel_format, ..header },
                    ),
                    None => ImageDataReader::Refused,
                }
            },
            ImageDataReader::Width(header) => ImageDataReader::Height(
                ImageDataHeader { width: number, ..header },
            ),
            ImageDataReader::Height(header) => ImageDataReader::Data(
                ImageDataHeader { height: number, ..header },
            ),
            ImageDataReader::Data(_) | ImageDataReader::Refused => ImageDataReader::Refused,
        }
    }

    /// Makes the image of the typed array that V8 read, `None` if it read
    /// something else or nothing.
    pub fn finish<D>(self, data: Option<TypedArray<D>>) -> (image: Option<ImageData<D>>)
        requires
            !self.wants_number(),
        ensures
            image == match self {
                ImageDataReader::Data(header) => image_of_header(header, data),
                _ => None::<ImageData<D>>,
            },
    {
        let header: ImageDataHeader = match self {
            ImageDataReader::Data(header) => header,
            _ => {
                return None;
            },
        };
        let array: TypedArray<D> = data?;
        assert(header.width * header.height >= 0) by (nonlinear_arith);
        let valid_data_type: bool = match header.pixel_format {
            ImageDataPixelFormat::RgbaUnorm8 => array.kind == TypedArrayKind::Uint8Clamped,
            ImageDataPixelFormat::RgbaFloat16 => array.kind == TypedArrayKind::Float16,
        };
        let pixels: usize = (header.width as usize).checked_mul(header.height as usize)?;
        let expected_length: usize = pixels.checked_mul(4)?;
        if !valid_data_type || array.length != expected_length {
            return None;
        }
        Some(
            ImageData {
                width: header.width,
                height: header.height,
                pixel_format: header.pixel_format,
                color_space: header.color_space,
                data: array.data,
            },
        )
    }
}

/// The image of a header and a typed array. The array must have the element type
/// of the pixel format and four elements to a pixel.
pub open spec fn image_of_header<D>(header: ImageDataHeader, data: Option<TypedArray<D>>) -> Option<
    ImageData<D>,
> {
    match data {
        Some(array) => if array.kind == format_kind(header.pixel_format) && array.length
            == element_count(header.width, header.height) {
            Some(
                ImageData {
                    width: header.width,
                    height: header.height,
                    pixel_format: header.pixel_format,
                    color_space: header.color_space,
                    data: array.data,
                },
            )
        } else {
            None
        },
        None => None,
    }
}

impl<D> ImageData<D> {
    /// What to write before the typed array, which V8 writes.
    pub fn write_structured_clone_payload(&self) -> (bytes: Vec<u8>)
        ensures
            bytes@ == number_bytes(header_numbers(self.header())),
    {
        let numbers: [u32; 7] = [
            ImageDataSerializationTag::PredefinedColorSpace.as_u32(),
            SerializedPredefinedColorSpace::from_color_space(self.color_space).as_u32(),
            ImageDataSerializationTag::PixelFormat.as_u32(),
            SerializedImageDataPixelFormat::from_pixel_format(self.pixel_format).as_u32(),
            ImageDataSerializationTag::End.as_u32(),
            self.width,
            self.height,
        ];
        assert(numbers@ == header_numbers(self.header()));
        write_numbers(numbers.as_slice())
    }
}

fn write_numbers(numbers: &[u32]) -> (bytes: Vec<u8>)
    ensures
        bytes@ == number_bytes(numbers@),
{
    let mut bytes: Vec<u8> = Vec::new();
    let mut index: usize = 0;
    while index < numbers.len()
        invariant
            index <= numbers@.len(),
            bytes@ == number_bytes(numbers@.take(index as int)),
        decreases numbers@.len() - index,
    {
        proof {
            lemma_one_more_number(numbers@.take(index as int), numbers@[index as int]);
            assert(numbers@.take(index as int).push(numbers@[index as int]) == numbers@.take(
                index + 1,
            ));
        }
        write_u32_varint(&mut bytes, numbers[index]);
        index = index + 1;
    }
    assert(numbers@.take(index as int) == numbers@);
    bytes
}

proof fn lemma_one_more_number(numbers: Seq<u32>, number: u32)
    ensures
        number_bytes(numbers.push(number)) == number_bytes(numbers) + varint_bytes(number as nat),
    decreases numbers.len(),
{
    let all = numbers.push(number);
    if numbers.len() == 0 {
        assert(all.skip(1) == Seq::<u32>::empty());
        assert(number_bytes(all.skip(1)) == Seq::<u8>::empty());
    } else {
        lemma_one_more_number(numbers.skip(1), number);
        assert(all.skip(1) == numbers.skip(1).push(number));
    }
}

/// V8 reads the numbers that were written, and then what follows them.
pub proof fn lemma_numbers_round_trip(numbers: Seq<u32>, rest: Seq<u8>)
    ensures
        numbers_of(number_bytes(numbers) + rest) == numbers + numbers_of(rest),
    decreases numbers.len(),
{
    let bytes = number_bytes(numbers) + rest;
    if numbers.len() == 0 {
        assert(bytes == rest);
    } else {
        let first = varint_bytes(numbers[0] as nat);
        let others = number_bytes(numbers.skip(1)) + rest;
        assert(bytes == first + others);
        lemma_varint_round_trip(numbers[0], others);
        crate::varint::lemma_u32_varint_len(numbers[0]);
        assert(bytes.skip(first.len() as int) == others);
        lemma_numbers_round_trip(numbers.skip(1), rest);
        assert(numbers == seq![numbers[0]] + numbers.skip(1));
    }
}

/// Where a reader gets to that is handed `numbers` until it has enough: the
/// header and the count of the numbers that it took.
pub open spec fn read_header(reader: ImageDataReader, numbers: Seq<u32>) -> Option<
    (ImageDataHeader, nat),
>
    decreases numbers.len(),
{
    match reader {
        ImageDataReader::Data(header) => Some((header, 0)),
        ImageDataReader::Refused => None,
        _ => if numbers.len() == 0 {
            None
        } else {
            match read_header(reader.after(Some(numbers[0])), numbers.skip(1)) {
                Some((header, used)) => Some((header, used + 1)),
                None => None,
            }
        },
    }
}

/// A reader finds the header that the numbers spell, and takes no number more.
pub proof fn lemma_read_header(header: ImageDataHeader, numbers: Seq<u32>)
    ensures
        read_header(ImageDataReader::Subtag(header), numbers) == parsed_header(header, numbers),
    decreases numbers.len(),
{
    reveal_with_fuel(read_header, 4);
    if numbers.len() > 1 {
        assert(numbers.skip(1).skip(1) == numbers.skip(2));
        assert(numbers.skip(1)[0] == numbers[1]);
        if numbers[0] == ImageDataSerializationTag::End.code() {
            if numbers.len() > 2 {
                assert(numbers.skip(2)[0] == numbers[2]);
            }
        } else if let Some(next) = with_setting(header, numbers[0], numbers[1]) {
            lemma_read_header(next, numbers.skip(2));
        }
    }
}

/// Reading gives back what was written: off the bytes of an image, V8 reads
/// numbers that make up the header of the image, and no more of them belong to
/// it, whatever follows.
pub proof fn lemma_header_round_trip(header: ImageDataHeader, rest: Seq<u8>)
    ensures
        parsed_header(
            default_header(),
            numbers_of(number_bytes(header_numbers(header)) + rest),
        ) == Some((header, header_numbers(header).len())),
{
    lemma_numbers_round_trip(header_numbers(header), rest);
    let numbers = header_numbers(header) + numbers_of(rest);
    let colored = ImageDataHeader { color_space: header.color_space, ..default_header() };
    let formatted = ImageDataHeader { pixel_format: header.pixel_format, ..colored };
    assert(with_setting(default_header(), numbers[0], numbers[1]) == Some(colored));
    assert(numbers.skip(2)[0] == numbers[2] && numbers.skip(2)[1] == numbers[3]);
    assert(with_setting(colored, numbers.skip(2)[0], numbers.skip(2)[1]) == Some(formatted));
    let ending = numbers.skip(2).skip(2);
    assert(ending[0] == numbers[4] && ending[1] == numbers[5] && ending[2] == numbers[6]);
    assert(parsed_header(formatted, ending) == Some((header, 3nat)));
    assert(parsed_header(colored, numbers.skip(2)) == Some((header, 5nat)));
}

/// A constructed image comes back from its serialized form: the reader finds the
/// header and then takes the typed array that V8 read, a copy of the one that it
/// wrote. This leaves out images that were made of a typed array of another
/// element type than their pixel format has, which only the form with four
/// arguments allows, and pixels of more rows than a 32-bit height counts.
pub proof fn lemma_image_round_trip<D, E>(
    arguments: ConstructorArguments,
    answers: ConstructionAnswers<D, E>,
    copy: TypedArray<D>,
    rest: Seq<u8>,
)
    requires
        arguments.first != Some(TypedArrayKind::Other) || !arguments.has_data(),
        rows_fit(arguments, answers),
    ensures
        construction_outcome(construction_start::<D, E>(arguments), answers) matches Ok(image) ==> {
            let array_is_copied = copy.kind == format_kind(image.pixel_format)
                && if arguments.has_data() {
                copy.length == answers.length
            } else {
                layout_of(image.pixel_format, image.width, image.height) matches Some(layout)
                    && copy.length == layout.length
            };
            let numbers = numbers_of(number_bytes(header_numbers(image.header())) + rest);
            &&& arguments.has_data() ==> arguments.first == Some(format_kind(image.pixel_format))
            &&& read_header(ImageDataReader::Subtag(default_header()), numbers) == Some(
                (image.header(), 7nat),
            )
            &&& array_is_copied ==> image_of_header(image.header(), Some(copy)) == Some(
                ImageData { data: copy.data, ..image },
            )
        },
{
    if let Ok(image) = construction_outcome(construction_start::<D, E>(arguments), answers) {
        let numbers = numbers_of(number_bytes(header_numbers(image.header())) + rest);
        lemma_constructed_size(arguments, answers);
        lemma_header_round_trip(image.header(), rest);
        lemma_read_header(default_header(), numbers);
    }
}

/// A setting that is absent has its default: an image without settings is sRGB
/// with eight bits to a channel, and a setting leaves the others as they are.
pub proof fn lemma_absent_settings(
    header: ImageDataHeader,
    color_space: PredefinedColorSpace,
    pixel_format: ImageDataPixelFormat,
    width: u32,
    height: u32,
)
    ensures
        parsed_header(default_header(), seq![0u32, width, height]) == Some(
            (ImageDataHeader { width, height, ..default_header() }, 3nat),
        ),
        with_setting(
            header,
            ImageDataSerializationTag::PredefinedColorSpace.code(),
            color_space_code(color_space),
        ) == Some(ImageDataHeader { color_space, ..header }),
        with_setting(
            header,
            ImageDataSerializationTag::PixelFormat.code(),
            pixel_format_code(pixel_format),
        ) == Some(ImageDataHeader { pixel_format, ..header }),
{
}

/// A subtag that is not known is refused, never skipped: what it would be
/// followed by is not known either.
pub proof fn lemma_unknown_subtag(header: ImageDataHeader, numbers: Seq<u32>)
    requires
        numbers.len() > 0,
        forall|tag: ImageDataSerializationTag| tag.code() != numbers[0],
    ensures
        parsed_header(header, numbers) is None,
        ImageDataReader::Subtag(header).after(Some(numbers[0])) is Refused,
{
    assert(ImageDataSerializationTag::End.code() == 0);
    assert(ImageDataSerializationTag::PredefinedColorSpace.code() == 1);
    assert(ImageDataSerializationTag::PixelFormat.code() == 2);
}

} // verus!
