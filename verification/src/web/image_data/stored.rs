//! The stored form of an image, number by number.

use vstd::prelude::*;

use crate::varint::{groups_of, lemma_groups, varint_bytes};
use crate::web::image_data::payload::{
    header_numbers, number_bytes, ImageDataReader, ImageDataSerializationTag,
    SerializedImageDataPixelFormat, SerializedPredefinedColorSpace,
};
use crate::web::image_data::{
    ImageData, ImageDataPixelFormat, PredefinedColorSpace, TypedArray,
};

verus! {

/// An image is stored as its colour space and its pixel format, each behind its
/// subtag, the end of the settings, and its width and height.
pub proof fn lemma_stored_image<D>(image: ImageData<D>, bytes: Vec<u8>)
    requires
        call_ensures(ImageData::<D>::write_structured_clone_payload, (&image,), bytes),
    ensures
        ({
            let color_space: u8 = if image.color_space is Srgb {
                0
            } else {
                1
            };
            let pixel_format: u8 = if image.pixel_format is RgbaUnorm8 {
                0
            } else {
                1
            };
            bytes@ == seq![1u8, color_space, 2u8, pixel_format, 0u8] + groups_of(image.width)
                + groups_of(image.height)
        }),
{
    let numbers = header_numbers(image.header());
    lemma_groups(numbers[0]);
    lemma_groups(numbers[1]);
    lemma_groups(numbers[2]);
    lemma_groups(numbers[3]);
    lemma_groups(numbers[4]);
    lemma_groups(image.width);
    lemma_groups(image.height);
    lemma_next(numbers, 0);
    lemma_next(numbers, 1);
    lemma_next(numbers, 2);
    lemma_next(numbers, 3);
    lemma_next(numbers, 4);
    lemma_next(numbers, 5);
    lemma_next(numbers, 6);
    assert(numbers.skip(0) == numbers);
    assert(numbers.skip(7) == Seq::<u32>::empty());
    assert(number_bytes(numbers.skip(7)) == Seq::<u8>::empty());
    assert(bytes@ =~= seq![
        numbers[0] as u8,
        numbers[1] as u8,
        numbers[2] as u8,
        numbers[3] as u8,
        numbers[4] as u8,
    ] + groups_of(image.width) + groups_of(image.height));
}

proof fn lemma_next(numbers: Seq<u32>, index: int)
    requires
        0 <= index < numbers.len(),
    ensures
        number_bytes(numbers.skip(index)) == varint_bytes(numbers[index] as nat) + number_bytes(
            numbers.skip(index + 1),
        ),
{
    assert(numbers.skip(index).skip(1) == numbers.skip(index + 1));
}

/// A reader starts at the settings, with sRGB and eight bits to a channel.
pub proof fn lemma_reader_starts(reader: ImageDataReader)
    requires
        call_ensures(ImageDataReader::new, (), reader),
    ensures
        reader matches ImageDataReader::Subtag(header) && header.color_space is Srgb
            && header.pixel_format is RgbaUnorm8,
{
}

/// A setting replaces what stood for it before and leaves all else. Its subtag is one
/// or two, and its value zero or one. Zero in place of a subtag ends the settings, and
/// the width and the height follow. Every other number is refused, and so is the lack
/// of a number.
pub proof fn lemma_reader_steps(
    reader: ImageDataReader,
    number: Option<u32>,
    next: ImageDataReader,
)
    requires
        !(reader is Data),
        !(reader is Refused),
        call_ensures(ImageDataReader::resume, (reader, number), next),
    ensures
        number is None ==> next is Refused,
        number matches Some(number) ==> match reader {
            ImageDataReader::Subtag(header) => if number == 0 {
                next == ImageDataReader::Width(header)
            } else if number == 1 {
                next == ImageDataReader::ColorSpace(header)
            } else if number == 2 {
                next == ImageDataReader::PixelFormat(header)
            } else {
                next is Refused
            },
            ImageDataReader::ColorSpace(header) => if number > 1 {
                next is Refused
            } else {
                next matches ImageDataReader::Subtag(after) && {
                    &&& after.color_space is Srgb <==> number == 0
                    &&& after.color_space is DisplayP3 <==> number == 1
                    &&& after.pixel_format == header.pixel_format
                    &&& after.width == header.width
                    &&& after.height == header.height
                }
            },
            ImageDataReader::PixelFormat(header) => if number > 1 {
                next is Refused
            } else {
                next matches ImageDataReader::Subtag(after) && {
                    &&& after.pixel_format is RgbaUnorm8 <==> number == 0
                    &&& after.pixel_format is RgbaFloat16 <==> number == 1
                    &&& after.color_space == header.color_space
                    &&& after.width == header.width
                    &&& after.height == header.height
                }
            },
            ImageDataReader::Width(header) => next matches ImageDataReader::Height(after) && {
                &&& after.width == number
                &&& after.height == header.height
                &&& after.color_space == header.color_space
                &&& after.pixel_format == header.pixel_format
            },
            ImageDataReader::Height(header) => next matches ImageDataReader::Data(after) && {
                &&& after.height == number
                &&& after.width == header.width
                &&& after.color_space == header.color_space
                &&& after.pixel_format == header.pixel_format
            },
            _ => true,
        },
{
}

/// A reader takes numbers until it has the height or has refused one.
pub proof fn lemma_reader_needs(reader: ImageDataReader, needed: bool)
    requires
        call_ensures(ImageDataReader::needs_number, (&reader,), needed),
    ensures
        needed <==> reader is Subtag || reader is ColorSpace || reader is PixelFormat
            || reader is Width || reader is Height,
{
}

/// An image is read where the typed array has the element type of the pixel format and
/// four elements to a pixel, and nowhere else. It is the image of the header, with
/// that array.
pub proof fn lemma_reader_finishes<D>(
    reader: ImageDataReader,
    data: Option<TypedArray<D>>,
    image: Option<ImageData<D>>,
)
    requires
        reader is Data || reader is Refused,
        call_ensures(ImageDataReader::finish::<D>, (reader, data), image),
    ensures
        match (reader, data) {
            (ImageDataReader::Data(header), Some(array)) => {
                let fits = array.length == 4 * (header.width * header.height) && (
                header.pixel_format is RgbaUnorm8 && array.kind is Uint8Clamped
                    || header.pixel_format is RgbaFloat16 && array.kind is Float16);
                &&& image is Some <==> fits
                &&& image matches Some(image) ==> {
                    &&& image.width == header.width
                    &&& image.height == header.height
                    &&& image.color_space == header.color_space
                    &&& image.pixel_format == header.pixel_format
                    &&& image.data == array.data
                }
            },
            _ => image is None,
        },
{
}

/// The numbers of the subtags.
pub proof fn lemma_subtag_numbers(
    tag: ImageDataSerializationTag,
    code: u32,
    number: u32,
    found: Option<ImageDataSerializationTag>,
)
    requires
        call_ensures(ImageDataSerializationTag::as_u32, (tag,), code),
        call_ensures(ImageDataSerializationTag::from_u32, (number,), found),
    ensures
        tag is End <==> code == 0,
        tag is PredefinedColorSpace <==> code == 1,
        tag is PixelFormat <==> code == 2,
        found == Some(tag) <==> number == code,
        found is None <==> number > 2,
{
}

/// The numbers of the colour spaces.
pub proof fn lemma_color_space_numbers(
    color_space: PredefinedColorSpace,
    serialized: SerializedPredefinedColorSpace,
    code: u32,
    number: u32,
    found: Option<PredefinedColorSpace>,
)
    requires
        call_ensures(
            SerializedPredefinedColorSpace::from_color_space,
            (color_space,),
            serialized,
        ),
        call_ensures(SerializedPredefinedColorSpace::as_u32, (serialized,), code),
        call_ensures(SerializedPredefinedColorSpace::into_color_space, (number,), found),
    ensures
        color_space is Srgb <==> code == 0,
        color_space is DisplayP3 <==> code == 1,
        found == Some(color_space) <==> number == code,
        found is None <==> number > 1,
{
}

/// The numbers of the pixel formats.
pub proof fn lemma_pixel_format_numbers(
    format: ImageDataPixelFormat,
    serialized: SerializedImageDataPixelFormat,
    code: u32,
    number: u32,
    found: Option<ImageDataPixelFormat>,
)
    requires
        call_ensures(
            SerializedImageDataPixelFormat::from_pixel_format,
            (format,),
            serialized,
        ),
        call_ensures(SerializedImageDataPixelFormat::as_u32, (serialized,), code),
        call_ensures(SerializedImageDataPixelFormat::into_pixel_format, (number,), found),
    ensures
        format is RgbaUnorm8 <==> code == 0,
        format is RgbaFloat16 <==> code == 1,
        found == Some(format) <==> number == code,
        found is None <==> number > 1,
{
}

} // verus!
