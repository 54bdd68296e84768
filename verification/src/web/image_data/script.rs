//! What a script gets of the `ImageData` constructor, told by its arguments and what
//! they are converted to.

use vstd::prelude::*;

use crate::text::spelled;
use crate::web::image_data::constructor::{
    alloc_typed_array, argument_name, construct_from_data, construction_start, Construction,
    ConstructionReply, ConstructionRequest, ConstructorArguments, TypedArrayLayout,
};
use crate::web::image_data::{
    ImageData, ImageDataError, ImageDataPixelFormat, ImageDataSettings, PredefinedColorSpace,
    TypedArrayKind,
};
use crate::webidl::WebIdlError;

verus! {

/// What the arguments of one call are converted to, by their places, what the typed
/// array in the first place holds, and what comes of an allocation.
pub ghost struct Script<D, E> {
    pub number: spec_fn(int) -> Result<u32, E>,
    pub settings: spec_fn(int) -> Result<ImageDataSettings, E>,
    pub length: usize,
    pub data: D,
    pub allocated: spec_fn(TypedArrayLayout) -> Option<D>,
}

impl<D, E> Script<D, E> {
    /// The reply to a request.
    pub open spec fn reply(self, request: ConstructionRequest) -> ConstructionReply<D, E> {
        match request {
            ConstructionRequest::UnsignedLong { argument } => ConstructionReply::UnsignedLong(
                (self.number)(argument as int),
            ),
            ConstructionRequest::Settings { argument } => ConstructionReply::Settings(
                (self.settings)(argument as int),
            ),
            ConstructionRequest::Data => ConstructionReply::Data {
                length: self.length,
                data: self.data,
            },
            ConstructionRequest::Allocate(layout) => ConstructionReply::Allocated(
                (self.allocated)(layout),
            ),
            ConstructionRequest::Finished => arbitrary(),
        }
    }

    /// What the constructor ends with when at most `steps` requests are replied to.
    pub open spec fn leads_to(self, state: Construction<D, E>, steps: nat) -> Option<
        Result<ImageData<D>, ImageDataError<E>>,
    >
        decreases steps,
    {
        match state {
            Construction::Finished(outcome) => Some(outcome),
            _ => if steps == 0 {
                None
            } else {
                self.leads_to(
                    state.after(self.reply(state.spec_request())),
                    (steps - 1) as nat,
                )
            },
        }
    }
}

/// A request of the constructor, replied to, leads one step further.
pub proof fn lemma_step<D, E>(
    script: Script<D, E>,
    state: Construction<D, E>,
    request: ConstructionRequest,
    next: Construction<D, E>,
    steps: nat,
)
    requires
        !(state is Finished),
        call_ensures(Construction::<D, E>::request, (&state,), request),
        call_ensures(Construction::<D, E>::resume, (state, script.reply(request)), next),
    ensures
        !(request is Finished),
        script.leads_to(state, steps + 1) == script.leads_to(next, steps),
{
}

/// What an image is made of: the pixels, the size that was asked for, and the
/// settings as they were converted, with sRGB where they name no colour space.
pub open spec fn is_image<D>(
    image: ImageData<D>,
    width: u32,
    height: u32,
    settings: ImageDataSettings,
    data: D,
) -> bool {
    &&& image.width == width
    &&& image.height == height
    &&& image.data == data
    &&& image.pixel_format == settings.pixel_format
    &&& settings.color_space matches Some(color_space) ==> image.color_space == color_space
    &&& settings.color_space is None ==> image.color_space == PredefinedColorSpace::Srgb
}

/// Whether an outcome is the given error.
pub open spec fn fails_with<D, E>(
    outcome: Result<ImageData<D>, ImageDataError<E>>,
    error: ImageDataError<E>,
) -> bool {
    outcome == Err::<ImageData<D>, ImageDataError<E>>(error)
}

/// Whether an outcome is right for `length` elements of pixels. The pixels fill whole
/// rows. The number of rows, cut to 32 bits, is the height, and a height that was
/// given is that number.
pub open spec fn is_made_of_data<D, E>(
    outcome: Result<ImageData<D>, ImageDataError<E>>,
    kind: TypedArrayKind,
    width: u32,
    height: Option<u32>,
    settings: ImageDataSettings,
    length: usize,
    data: D,
) -> bool {
    let row = 4 * width;
    let rows = (length as int / row) % 0x1_0000_0000;
    let format = settings.pixel_format;
    if length == 0 {
        fails_with(outcome, ImageDataError::ZeroElements)
    } else if length % 4 != 0 {
        fails_with(outcome, ImageDataError::NotMultipleOfFour(length))
    } else if width == 0 {
        fails_with(outcome, ImageDataError::ZeroWidth)
    } else if height == Some(0u32) {
        fails_with(outcome, ImageDataError::ZeroHeight)
    } else if length as int % row != 0 {
        fails_with(outcome, ImageDataError::NotMultipleOfRow)
    } else if height is Some && height->0 != rows {
        fails_with(outcome, ImageDataError::WrongLength)
    } else if kind is Uint8Clamped && format is RgbaFloat16 {
        fails_with(outcome, ImageDataError::Uint8ClampedNeedsUnorm)
    } else if kind is Float16 && format is RgbaUnorm8 {
        fails_with(outcome, ImageDataError::Float16NeedsFloat16)
    } else {
        outcome matches Ok(image) && is_image(image, width, rows as u32, settings, data)
    }
}

proof fn lemma_rows(length: int, width: int)
    requires
        length >= 0,
        length % 4 == 0,
        width > 0,
    ensures
        length / (4 * width) == length / 4 / width,
        length % (4 * width) == 4 * ((length / 4) % width),
        length / 4 / width >= 0,
{
    let pixels = length / 4;
    let rows = pixels / width;
    let rest = pixels % width;
    vstd::arithmetic::div_mod::lemma_fundamental_div_mod(pixels, width);
    vstd::arithmetic::div_mod::lemma_div_pos_is_pos(pixels, width);
    assert(length == (4 * width) * rows + 4 * rest) by (nonlinear_arith)
        requires
            length == 4 * pixels,
            pixels == width * rows + rest,
    ;
    vstd::arithmetic::div_mod::lemma_fundamental_div_mod_converse(
        length,
        4 * width,
        rows,
        4 * rest,
    );
}

/// The image that `construct_from_data` makes of pixels.
pub proof fn lemma_made_of_data<D, E>(
    kind: TypedArrayKind,
    width: u32,
    height: Option<u32>,
    settings: ImageDataSettings,
    length: usize,
    data: D,
    outcome: Result<ImageData<D>, ImageDataError<E>>,
)
    requires
        call_ensures(
            construct_from_data::<D, E>,
            (kind, width, height, settings, length, data),
            outcome,
        ),
    ensures
        is_made_of_data(outcome, kind, width, height, settings, length, data),
{
    if length % 4 == 0 && width > 0 {
        lemma_rows(length as int, width as int);
    }
}

/// The number of bytes that the elements of an image take.
pub open spec fn bytes_of(format: ImageDataPixelFormat, width: u32, height: u32) -> int {
    if format is RgbaUnorm8 {
        4 * (width * height)
    } else {
        8 * (width * height)
    }
}

/// Whether a typed array is right for an image: four elements to a pixel, of one byte
/// each, or of two as half-precision numbers.
pub open spec fn holds_image(
    layout: TypedArrayLayout,
    format: ImageDataPixelFormat,
    width: u32,
    height: u32,
) -> bool {
    &&& layout.kind is Uint8Clamped <==> format is RgbaUnorm8
    &&& layout.kind is Float16 <==> format is RgbaFloat16
    &&& layout.length == 4 * (width * height)
    &&& layout.byte_length == bytes_of(format, width, height)
}

/// A typed array is allocated for every image whose bytes can be counted.
pub proof fn lemma_allocated_layout<E>(
    format: ImageDataPixelFormat,
    width: u32,
    height: u32,
    outcome: Result<TypedArrayLayout, ImageDataError<E>>,
)
    requires
        call_ensures(alloc_typed_array::<E>, (format, width, height), outcome),
    ensures
        match outcome {
            Ok(layout) => holds_image(layout, format, width, height),
            Err(error) => error is AllocationFailed && bytes_of(format, width, height)
                > usize::MAX,
        },
{
    assert(width * height >= 0) by (nonlinear_arith);
}

/// Whether an outcome is right for an image of a size, without pixels.
pub open spec fn is_made_of_size<D, E>(
    outcome: Result<ImageData<D>, ImageDataError<E>>,
    width: u32,
    height: u32,
    settings: ImageDataSettings,
    allocated: spec_fn(TypedArrayLayout) -> Option<D>,
) -> bool {
    if width == 0 {
        fails_with(outcome, ImageDataError::ZeroWidth)
    } else if height == 0 {
        fails_with(outcome, ImageDataError::ZeroHeight)
    } else if bytes_of(settings.pixel_format, width, height) > usize::MAX {
        fails_with(outcome, ImageDataError::AllocationFailed)
    } else {
        forall|layout: TypedArrayLayout|
            holds_image(layout, settings.pixel_format, width, height) ==> match (
            #[trigger] allocated(layout)) {
                None => fails_with(outcome, ImageDataError::AllocationFailed),
                Some(data) => outcome matches Ok(image) && is_image(
                    image,
                    width,
                    height,
                    settings,
                    data,
                ),
            }
    }
}

/// The constructor makes an image of pixels if it has more than three arguments or the
/// first is a typed array that can hold pixels, and an image of a size otherwise. The
/// width, the height and the settings stand in this order, behind the pixels if there
/// are any. The first that cannot be converted is what the constructor fails with.
pub proof fn lemma_constructed<D, E>(
    arguments: ConstructorArguments,
    start: Construction<D, E>,
    script: Script<D, E>,
)
    requires
        arguments.count >= 2,
        call_ensures(ImageData::<D>::constructor::<E>, (arguments,), start),
    ensures
        script.leads_to(start, 4) matches Some(outcome) && {
            let of_data = arguments.count > 3 || arguments.first == Some(
                TypedArrayKind::Uint8Clamped,
            ) || arguments.first == Some(TypedArrayKind::Float16);
            let first: int = if of_data {
                1
            } else {
                0
            };
            let width = (script.number)(first);
            let height = (script.number)(first + 1);
            let settings = (script.settings)(first + 2);
            let has_height = !of_data || arguments.count >= 3 && !arguments.third_is_undefined;
            if of_data && arguments.first is None {
                outcome matches Err(
                    ImageDataError::WebIDL(
                        WebIdlError::ConvertToConverterType { prefix, context, converter },
                    ),
                ) && prefix@ == "Failed to construct 'ImageData'"@ && context@ == "Argument 1"@
                    && converter@ == "ArrayBufferView"@
            } else if width is Err {
                fails_with(
                    outcome,
                    ImageDataError::WebIDL(WebIdlError::Conversion(width->Err_0)),
                )
            } else if has_height && height is Err {
                fails_with(
                    outcome,
                    ImageDataError::WebIDL(WebIdlError::Conversion(height->Err_0)),
                )
            } else if settings is Err {
                fails_with(
                    outcome,
                    ImageDataError::WebIDL(WebIdlError::Conversion(settings->Err_0)),
                )
            } else if of_data {
                is_made_of_data(
                    outcome,
                    arguments.first->0,
                    width->Ok_0,
                    if has_height {
                        Some(height->Ok_0)
                    } else {
                        None
                    },
                    settings->Ok_0,
                    script.length,
                    script.data,
                )
            } else {
                is_made_of_size(
                    outcome,
                    width->Ok_0,
                    height->Ok_0,
                    settings->Ok_0,
                    script.allocated,
                )
            }
        },
{
    assert(start == construction_start::<D, E>(arguments));
    reveal_with_fuel(Script::leads_to, 5);
    let of_data = arguments.count > 3 || arguments.first == Some(TypedArrayKind::Uint8Clamped)
        || arguments.first == Some(TypedArrayKind::Float16);
    if of_data {
        if let Ok(width) = (script.number)(1) {
            if script.length % 4 == 0 && width > 0 {
                lemma_rows(script.length as int, width as int);
            }
        }
    } else {
        if let Ok(width) = (script.number)(0) {
            if let Ok(height) = (script.number)(1) {
                assert(width * height >= 0) by (nonlinear_arith);
            }
        }
    }
}

/// In every image that is constructed the settings are those of the call: the colour
/// space that they name, or sRGB where they name none, and their pixel format.
pub proof fn lemma_constructed_settings<D, E>(
    arguments: ConstructorArguments,
    start: Construction<D, E>,
    script: Script<D, E>,
    image: ImageData<D>,
)
    requires
        arguments.count >= 2,
        call_ensures(ImageData::<D>::constructor::<E>, (arguments,), start),
        script.leads_to(start, 4) == Some(Ok::<ImageData<D>, ImageDataError<E>>(image)),
    ensures
        ({
            let of_data = arguments.count > 3 || arguments.first == Some(
                TypedArrayKind::Uint8Clamped,
            ) || arguments.first == Some(TypedArrayKind::Float16);
            let settings = (script.settings)(
                if of_data {
                    3
                } else {
                    2
                },
            );
            settings matches Ok(settings) && {
                &&& settings.color_space matches Some(color_space) ==> image.color_space
                    == color_space
                &&& settings.color_space is None ==> image.color_space
                    == PredefinedColorSpace::Srgb
                &&& image.pixel_format == settings.pixel_format
            }
        }),
{
    lemma_constructed(arguments, start, script);
    reveal_with_fuel(Script::leads_to, 5);
}

/// What a script reads of an image is what the image holds.
pub proof fn lemma_read_image<D>(
    image: ImageData<D>,
    width: u32,
    height: u32,
    data: D,
    pixel_format: &'static str,
    color_space: &'static str,
)
    requires
        call_ensures(ImageData::<D>::width, (&image,), width),
        call_ensures(ImageData::<D>::height, (&image,), height),
        call_ensures(ImageData::<D>::data, (&image,), &data),
        call_ensures(ImageData::<D>::pixel_format, (&image,), pixel_format),
        call_ensures(ImageData::<D>::color_space, (&image,), color_space),
    ensures
        image.width == width,
        image.height == height,
        image.data == data,
        pixel_format@ == if image.pixel_format is RgbaUnorm8 {
            "rgba-unorm8"@
        } else {
            "rgba-float16"@
        },
        color_space@ == if image.color_space is Srgb {
            "srgb"@
        } else {
            "display-p3"@
        },
{
}

/// A request is answered by a reply of its own kind, and by no other.
pub proof fn lemma_answers<D, E>(
    state: Construction<D, E>,
    request: ConstructionRequest,
    reply: ConstructionReply<D, E>,
)
    requires
        call_ensures(Construction::<D, E>::request, (&state,), request),
    ensures
        state.accepts(reply) <==> match request {
            ConstructionRequest::UnsignedLong { .. } => reply is UnsignedLong,
            ConstructionRequest::Settings { .. } => reply is Settings,
            ConstructionRequest::Data => reply is Data,
            ConstructionRequest::Allocate(_) => reply is Allocated,
            ConstructionRequest::Finished => false,
        },
        request is Finished <==> state is Finished,
{
}

/// Messages count the arguments from one.
pub proof fn lemma_argument_names(argument: usize, name: &'static str)
    requires
        argument < 4,
        call_ensures(argument_name, (argument,), name),
    ensures
        ({
            let prefix = "Argument "@;
            &&& prefix.is_prefix_of(name@)
            &&& spelled(name@.skip(prefix.len() as int)) == argument + 1
        }),
{
    reveal_strlit("Argument ");
    reveal_strlit("Argument 1");
    reveal_strlit("Argument 2");
    reveal_strlit("Argument 3");
    reveal_strlit("Argument 4");
    let digits = name@.skip(9);
    assert(digits.len() == 1);
    assert(digits.drop_last() == Seq::<char>::empty());
    assert(spelled(digits.drop_last()) == 0);
    assert(digits.last() == name@[9]);
}

} // verus!
