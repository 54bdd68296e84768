//! The `ImageData` constructor.
//!
//! Converting an argument can run scripts, so the order of the conversions is
//! observable: the constructor asks for one conversion at a time and goes on
//! with what came of it.

use vstd::prelude::*;

use crate::web::image_data::{
    element_count, format_kind, ImageData, ImageDataError, ImageDataPixelFormat,
    ImageDataSettings, PredefinedColorSpace, TypedArrayKind,
};
use crate::webidl::WebIdlError;

verus! {

/// What the conversion errors of the constructor start with.
pub const CONSTRUCT_PREFIX: &'static str = "Failed to construct 'ImageData'";

/// What the constructor was called with. It has at least two arguments.
#[derive(Clone, Copy, Debug, PartialEq, Eq, Structural)]
pub struct ConstructorArguments {
    pub count: usize,
    /// The element type of the first argument, `None` if that is no typed array.
    pub first: Option<TypedArrayKind>,
    /// Whether the third argument is `undefined`, as it is when it is missing.
    pub third_is_undefined: bool,
}

impl ConstructorArguments {
    /// Whether the first argument is meant as the pixels, not as the width.
    pub open spec fn has_data(self) -> bool {
        ||| self.count > 3
        ||| self.first == Some(TypedArrayKind::Uint8Clamped)
        ||| self.first == Some(TypedArrayKind::Float16)
    }

    /// Whether a height comes with the pixels.
    pub open spec fn has_height(self) -> bool {
        self.count >= 3 && !self.third_is_undefined
    }
}

/// The typed array to allocate for an image.
#[derive(Clone, Copy, Debug, PartialEq, Eq, Structural)]
pub struct TypedArrayLayout {
    pub kind: TypedArrayKind,
    pub length: usize,
    pub byte_length: usize,
}

/// The bytes that an element takes.
pub open spec fn element_size(format: ImageDataPixelFormat) -> int {
    match format {
        ImageDataPixelFormat::RgbaUnorm8 => 1,
        ImageDataPixelFormat::RgbaFloat16 => 2,
    }
}

/// The typed array of an image, unless the address space is too small for it.
pub open spec fn layout_of(format: ImageDataPixelFormat, width: u32, height: u32) -> Option<
    TypedArrayLayout,
> {
    let length = element_count(width, height);
    let byte_length = length * element_size(format);
    if byte_length <= usize::MAX {
        Some(
            TypedArrayLayout {
                kind: format_kind(format),
                length: length as usize,
                byte_length: byte_length as usize,
            },
        )
    } else {
        None
    }
}

/// The typed array to allocate for an image.
pub fn alloc_typed_array<E>(format: ImageDataPixelFormat, width: u32, height: u32) -> (res: Result<
    TypedArrayLayout,
    ImageDataError<E>,
>)
    ensures
        res == match layout_of(format, width, height) {
            Some(layout) => Ok::<TypedArrayLayout, ImageDataError<E>>(layout),
            None => Err::<TypedArrayLayout, ImageDataError<E>>(ImageDataError::AllocationFailed),
        },
{
    assert(width * height >= 0) by (nonlinear_arith);
    let pixels: usize = match (width as usize).checked_mul(height as usize) {
        Some(pixels) => pixels,
        None => {
            return Err(ImageDataError::AllocationFailed);
        },
    };
    let length: usize = match pixels.checked_mul(4) {
        Some(length) => length,
        None => {
            return Err(ImageDataError::AllocationFailed);
        },
    };
    match format {
        ImageDataPixelFormat::RgbaUnorm8 => Ok(
            TypedArrayLayout { kind: TypedArrayKind::Uint8Clamped, length, byte_length: length },
        ),
        ImageDataPixelFormat::RgbaFloat16 => match length.checked_mul(2) {
            Some(byte_length) => Ok(
                TypedArrayLayout { kind: TypedArrayKind::Float16, length, byte_length },
            ),
            None => Err(ImageDataError::AllocationFailed),
        },
    }
}

/// The height of an image whose pixels are `length` elements, cut to 32 bits.
pub open spec fn derived_height(length: usize, width: u32) -> u32 {
    ((length as int / 4 / width as int) % 0x1_0000_0000) as u32
}

/// What is wrong with an image of the given pixels, if anything is. Where
/// several things are wrong, the first of them in this order is reported.
pub open spec fn data_refusal<E>(
    kind: TypedArrayKind,
    width: u32,
    height: Option<u32>,
    format: ImageDataPixelFormat,
    length: usize,
) -> Option<ImageDataError<E>> {
    if length == 0 {
        Some(ImageDataError::ZeroElements)
    } else if length % 4 != 0 {
        Some(ImageDataError::NotMultipleOfFour(length))
    } else if width == 0 {
        Some(ImageDataError::ZeroWidth)
    } else if height == Some(0u32) {
        Some(ImageDataError::ZeroHeight)
    } else if (length / 4) as int % width as int != 0 {
        Some(ImageDataError::NotMultipleOfRow)
    } else if height is Some && height != Some(derived_height(length, width)) {
        Some(ImageDataError::WrongLength)
    } else if kind == TypedArrayKind::Uint8Clamped && format != ImageDataPixelFormat::RgbaUnorm8 {
        Some(ImageDataError::Uint8ClampedNeedsUnorm)
    } else if kind == TypedArrayKind::Float16 && format != ImageDataPixelFormat::RgbaFloat16 {
        Some(ImageDataError::Float16NeedsFloat16)
    } else {
        None
    }
}

/// The colour space that applies where the settings name none.
pub open spec fn effective_color_space(settings: ImageDataSettings) -> PredefinedColorSpace {
    match settings.color_space {
        Some(color_space) => color_space,
        None => PredefinedColorSpace::Srgb,
    }
}

/// The image of the given pixels.
pub open spec fn image_of_data<D, E>(
    kind: TypedArrayKind,
    width: u32,
    height: Option<u32>,
    settings: ImageDataSettings,
    length: usize,
    data: D,
) -> Result<ImageData<D>, ImageDataError<E>> {
    match data_refusal::<E>(kind, width, height, settings.pixel_format, length) {
        Some(error) => Err(error),
        None => Ok(
            ImageData {
                width,
                height: match height {
                    Some(height) => height,
                    None => derived_height(length, width),
                },
                pixel_format: settings.pixel_format,
                color_space: effective_color_space(settings),
                data,
            },
        ),
    }
}

fn color_space_or_default(settings: &ImageDataSettings) -> (color_space: PredefinedColorSpace)
    ensures
        color_space == effective_color_space(*settings),
{
    match settings.color_space {
        Some(color_space) => color_space,
        None => PredefinedColorSpace::Srgb,
    }
}

/// Makes an image of pixels that the caller has: `length` elements of type
/// `kind`.
pub fn construct_from_data<D, E>(
    kind: TypedArrayKind,
    width: u32,
    height: Option<u32>,
    settings: ImageDataSettings,
    length: usize,
    data: D,
) -> (res: Result<ImageData<D>, ImageDataError<E>>)
    ensures
        res == image_of_data::<D, E>(kind, width, height, settings, length, data),
{
    if length == 0 {
        return Err(ImageDataError::ZeroElements);
    }
    if length % 4 != 0 {
        return Err(ImageDataError::NotMultipleOfFour(length));
    }
    if width == 0 {
        return Err(ImageDataError::ZeroWidth);
    }
    if let Some(height) = height {
        if height == 0 {
            return Err(ImageDataError::ZeroHeight);
        }
    }
    let pixels: usize = length / 4;
    if pixels % (width as usize) != 0 {
        return Err(ImageDataError::NotMultipleOfRow);
    }
    let rows: u64 = (pixels / (width as usize)) as u64;
    let derived: u32 = (rows % 0x1_0000_0000) as u32;
    assert(derived == derived_height(length, width));
    if let Some(height) = height {
        if height != derived {
            return Err(ImageDataError::WrongLength);
        }
    }
    if kind == TypedArrayKind::Uint8Clamped && settings.pixel_format
        != ImageDataPixelFormat::RgbaUnorm8 {
        return Err(ImageDataError::Uint8ClampedNeedsUnorm);
    }
    if kind == TypedArrayKind::Float16 && settings.pixel_format
        != ImageDataPixelFormat::RgbaFloat16 {
        return Err(ImageDataError::Float16NeedsFloat16);
    }
    Ok(
        ImageData {
            width,
            height: match height {
                Some(height) => height,
                None => derived,
            },
            pixel_format: settings.pixel_format,
            color_space: color_space_or_default(&settings),
            data,
        },
    )
}

/// Where the constructor stands.
#[allow(inconsistent_fields)]
pub enum Construction<D, E> {
    DataWidth { kind: TypedArrayKind, has_height: bool },
    DataHeight { kind: TypedArrayKind, width: u32 },
    DataSettings { kind: TypedArrayKind, width: u32, height: Option<u32> },
    DataLength {
        kind: TypedArrayKind,
        width: u32,
        height: Option<u32>,
        settings: ImageDataSettings,
    },
    SizeWidth,
    SizeHeight { width: u32 },
    SizeSettings { width: u32, height: u32 },
    Allocation { width: u32, height: u32, settings: ImageDataSettings, layout: TypedArrayLayout },
    Finished(Result<ImageData<D>, ImageDataError<E>>),
}

/// What the constructor needs to go on. Arguments are counted from zero; one
/// that is missing is `undefined`.
#[derive(Clone, Copy, Debug, PartialEq, Eq, Structural)]
pub enum ConstructionRequest {
    /// Convert an argument to an unsigned 32-bit number.
    UnsignedLong { argument: usize },
    /// Convert an argument to a settings dictionary.
    Settings { argument: usize },
    /// Read the length of the first argument, a typed array.
    Data,
    /// Allocate a typed array.
    Allocate(TypedArrayLayout),
    /// Nothing: the outcome is known.
    Finished,
}

/// The reply to a request.
pub enum ConstructionReply<D, E> {
    UnsignedLong(Result<u32, E>),
    Settings(Result<ImageDataSettings, E>),
    Data { length: usize, data: D },
    Allocated(Option<D>),
}

/// How an error message names an argument.
pub fn argument_name(argument: usize) -> (name: &'static str)
    requires
        argument < 4,
    ensures
        name@ == match argument {
            0 => "Argument 1"@,
            1 => "Argument 2"@,
            2 => "Argument 3"@,
            _ => "Argument 4"@,
        },
{
    match argument {
        0 => "Argument 1",
        1 => "Argument 2",
        2 => "Argument 3",
        _ => "Argument 4",
    }
}

/// The refusal of a first argument that should be the pixels.
pub open spec fn no_typed_array<E>() -> ImageDataError<E> {
    ImageDataError::WebIDL(
        WebIdlError::ConvertToConverterType {
            prefix: CONSTRUCT_PREFIX,
            context: "Argument 1",
            converter: "ArrayBufferView",
        },
    )
}

/// Where the constructor starts.
pub open spec fn construction_start<D, E>(arguments: ConstructorArguments) -> Construction<D, E> {
    if arguments.has_data() {
        match arguments.first {
            Some(kind) => Construction::DataWidth { kind, has_height: arguments.has_height() },
            None => Construction::Finished(Err(no_typed_array())),
        }
    } else {
        Construction::SizeWidth
    }
}

/// Ends the constructor with the error of a conversion.
pub open spec fn unconverted<D, E>(error: E) -> Construction<D, E> {
    Construction::Finished(Err(ImageDataError::WebIDL(WebIdlError::Conversion(error))))
}

impl<D, E> Construction<D, E> {
    /// What the constructor needs to go on.
    pub open spec fn spec_request(self) -> ConstructionRequest {
        match self {
            Construction::DataWidth { .. } => ConstructionRequest::UnsignedLong { argument: 1 },
            Construction::DataHeight { .. } => ConstructionRequest::UnsignedLong { argument: 2 },
            Construction::DataSettings { .. } => ConstructionRequest::Settings { argument: 3 },
            Construction::DataLength { .. } => ConstructionRequest::Data,
            Construction::SizeWidth => ConstructionRequest::UnsignedLong { argument: 0 },
            Construction::SizeHeight { .. } => ConstructionRequest::UnsignedLong { argument: 1 },
            Construction::SizeSettings { .. } => ConstructionRequest::Settings { argument: 2 },
            Construction::Allocation { layout, .. } => ConstructionRequest::Allocate(layout),
            Construction::Finished(_) => ConstructionRequest::Finished,
        }
    }

    /// Whether `reply` answers what was asked.
    pub open spec fn accepts(self, reply: ConstructionReply<D, E>) -> bool {
        match self.spec_request() {
            ConstructionRequest::UnsignedLong { .. } => reply is UnsignedLong,
            ConstructionRequest::Settings { .. } => reply is Settings,
            ConstructionRequest::Data => reply is Data,
            ConstructionRequest::Allocate(_) => reply is Allocated,
            ConstructionRequest::Finished => false,
        }
    }

    /// Where the constructor goes from here.
    pub open spec fn after(self, reply: ConstructionReply<D, E>) -> Self {
        match (self, reply) {
            (
                Construction::DataWidth { kind, has_height },
                ConstructionReply::UnsignedLong(Ok(width)),
            ) => if has_height {
                Construction::DataHeight { kind, width }
            } else {
                Construction::DataSettings { kind, width, height: None }
            },
            (
                Construction::DataHeight { kind, width },
                ConstructionReply::UnsignedLong(Ok(height)),
            ) => Construction::DataSettings { kind, width, height: Some(height) },
            (
                Construction::DataSettings { kind, width, height },
                ConstructionReply::Settings(Ok(settings)),
            ) => Construction::DataLength { kind, width, height, settings },
            (
                Construction::DataLength { kind, width, height, settings },
                ConstructionReply::Data { length, data },
            ) => Construction::Finished(
                image_of_data(kind, width, height, settings, length, data),
            ),
            (Construction::SizeWidth, ConstructionReply::UnsignedLong(Ok(width))) => {
                Construction::SizeHeight { width }
            },
            (Construction::SizeHeight { width }, ConstructionReply::UnsignedLong(Ok(height))) => {
                Construction::SizeSettings { width, height }
            },
            (
                Construction::SizeSettings { width, height },
                ConstructionReply::Settings(Ok(settings)),
            ) => if width == 0 {
                Construction::Finished(Err(ImageDataError::ZeroWidth))
            } else if height == 0 {
                Construction::Finished(Err(ImageDataError::ZeroHeight))
            } else {
                match layout_of(settings.pixel_format, width, height) {
                    Some(layout) => Construction::Allocation { width, height, settings, layout },
                    None => Construction::Finished(Err(ImageDataError::AllocationFailed)),
                }
            },
            (
                Construction::Allocation { width, height, settings, .. },
                ConstructionReply::Allocated(data),
            ) => Construction::Finished(
                match data {
                    Some(data) => Ok(
                        ImageData {
                            width,
                            height,
                            pixel_format: settings.pixel_format,
                            color_space: effective_color_space(settings),
                            data,
                        },
                    ),
                    None => Err(ImageDataError::AllocationFailed),
                },
            ),
            (_, ConstructionReply::UnsignedLong(Err(error))) => unconverted(error),
            (_, ConstructionReply::Settings(Err(error))) => unconverted(error),
            _ => self,
        }
    }

    /// What the constructor needs to go on.
    pub fn request(&self) -> (request: ConstructionRequest)
        ensures
            request == self.spec_request(),
    {
        match self {
            Construction::DataWidth { .. } => ConstructionRequest::UnsignedLong { argument: 1 },
            Construction::DataHeight { .. } => ConstructionRequest::UnsignedLong { argument: 2 },
            Construction::DataSettings { .. } => ConstructionRequest::Settings { argument: 3 },
            Construction::DataLength { .. } => ConstructionRequest::Data,
            Construction::SizeWidth => ConstructionRequest::UnsignedLong { argument: 0 },
            Construction::SizeHeight { .. } => ConstructionRequest::UnsignedLong { argument: 1 },
            Construction::SizeSettings { .. } => ConstructionRequest::Settings { argument: 2 },
            Construction::Allocation { layout, .. } => ConstructionRequest::Allocate(*layout),
            Construction::Finished(_) => ConstructionRequest::Finished,
        }
    }

    /// Goes on with the reply to the request.
    pub fn resume(self, reply: ConstructionReply<D, E>) -> (next: Self)
        requires
            self.accepts(reply),
        ensures
            next == self.after(reply),
    {
        match (self, reply) {
            (
                Construction::DataWidth { kind, has_height },
                ConstructionReply::UnsignedLong(Ok(width)),
            ) => if has_height {
                Construction::DataHeight { kind, width }
            } else {
                Construction::DataSettings { kind, width, height: None }
            },
            (
                Construction::DataHeight { kind, width },
                ConstructionReply::UnsignedLong(Ok(height)),
            ) => Construction::DataSettings { kind, width, height: Some(height) },
            (
                Construction::DataSettings { kind, width, height },
                ConstructionReply::Settings(Ok(settings)),
            ) => Construction::DataLength { kind, width, height, settings },
            (
                Construction::DataLength { kind, width, height, settings },
                ConstructionReply::Data { length, data },
            ) => Construction::Finished(
                construct_from_data(kind, width, height, settings, length, data),
            ),
            (Construction::SizeWidth, ConstructionReply::UnsignedLong(Ok(width))) => {
                Construction::SizeHeight { width }
            },
            (Construction::SizeHeight { width }, ConstructionReply::UnsignedLong(Ok(height))) => {
                Construction::SizeSettings { width, height }
            },
            (
                Construction::SizeSettings { width, height },
                ConstructionReply::Settings(Ok(settings)),
            ) => if width == 0 {
                Construction::Finished(Err(ImageDataError::ZeroWidth))
            } else if height == 0 {
                Construction::Finished(Err(ImageDataError::ZeroHeight))
            } else {
                match alloc_typed_array(settings.pixel_format, width, height) {
                    Ok(layout) => Construction::Allocation { width, height, settings, layout },
                    Err(error) => Construction::Finished(Err(error)),
                }
            },
            (
                Construction::Allocation { width, height, settings, .. },
                ConstructionReply::Allocated(data),
            ) => Construction::Finished(
                match data {
                    Some(data) => Ok(
                        ImageData {
                            width,
                            height,
                            pixel_format: settings.pixel_format,
                            color_space: color_space_or_default(&settings),
                            data,
                        },
                    ),
                    None => Err(ImageDataError::AllocationFailed),
                },
            ),
            (_, ConstructionReply::UnsignedLong(Err(error))) => Construction::Finished(
                Err(ImageDataError::WebIDL(WebIdlError::Conversion(error))),
            ),
            (_, ConstructionReply::Settings(Err(error))) => Construction::Finished(
                Err(ImageDataError::WebIDL(WebIdlError::Conversion(error))),
            ),
            (state, _) => state,
        }
    }
}

impl<D> ImageData<D> {
    /// Starts the constructor.
    pub fn constructor<E>(arguments: ConstructorArguments) -> (start: Construction<D, E>)
        requires
            arguments.count >= 2,
        ensures
            start == construction_start::<D, E>(arguments),
    {
        let has_data: bool = arguments.count > 3 || matches!(
            arguments.first,
            Some(TypedArrayKind::Uint8Clamped) | Some(TypedArrayKind::Float16)
        );
        if has_data {
            match arguments.first {
                Some(kind) => Construction::DataWidth {
                    kind,
                    has_height: arguments.count >= 3 && !arguments.third_is_undefined,
                },
                None => Construction::Finished(
                    Err(
                        ImageDataError::WebIDL(
                            WebIdlError::ConvertToConverterType {
                                prefix: CONSTRUCT_PREFIX,
                                context: "Argument 1",
                                converter: "ArrayBufferView",
                            },
                        ),
                    ),
                ),
            }
        } else {
            Construction::SizeWidth
        }
    }
}

/// What the requests of one construction are answered with.
pub ghost struct ConstructionAnswers<D, E> {
    pub width: Result<u32, E>,
    pub height: Result<u32, E>,
    pub settings: Result<ImageDataSettings, E>,
    pub length: usize,
    pub data: D,
    pub allocated: Option<D>,
}

impl<D, E> ConstructionAnswers<D, E> {
    /// The reply to what `state` asks.
    pub open spec fn reply(self, state: Construction<D, E>) -> ConstructionReply<D, E> {
        match state {
            Construction::DataWidth { .. } | Construction::SizeWidth => {
                ConstructionReply::UnsignedLong(self.width)
            },
            Construction::DataHeight { .. } | Construction::SizeHeight { .. } => {
                ConstructionReply::UnsignedLong(self.height)
            },
            Construction::DataSettings { .. } | Construction::SizeSettings { .. } => {
                ConstructionReply::Settings(self.settings)
            },
            Construction::DataLength { .. } => ConstructionReply::Data {
                length: self.length,
                data: self.data,
            },
            _ => ConstructionReply::Allocated(self.allocated),
        }
    }
}

/// How many requests can still come.
pub open spec fn requests_left<D, E>(state: Construction<D, E>) -> nat {
    match state {
        Construction::DataWidth { .. } | Construction::SizeWidth => 4,
        Construction::DataHeight { .. } | Construction::SizeHeight { .. } => 3,
        Construction::DataSettings { .. } | Construction::SizeSettings { .. } => 2,
        Construction::DataLength { .. } | Construction::Allocation { .. } => 1,
        Construction::Finished(_) => 0,
    }
}

/// What a construction ends with when its requests are answered with `answers`.
pub open spec fn construction_outcome<D, E>(
    state: Construction<D, E>,
    answers: ConstructionAnswers<D, E>,
) -> Result<ImageData<D>, ImageDataError<E>>
    decreases requests_left(state),
{
    match state {
        Construction::Finished(outcome) => outcome,
        _ => construction_outcome(state.after(answers.reply(state)), answers),
    }
}

/// The error of a conversion.
pub open spec fn conversion<T, E>(error: E) -> Result<T, ImageDataError<E>> {
    Err(ImageDataError::WebIDL(WebIdlError::Conversion(error)))
}

/// `new ImageData(data, width, height, settings)`, with the height and the
/// settings optional.
pub open spec fn constructed_from_data<D, E>(
    kind: TypedArrayKind,
    has_height: bool,
    answers: ConstructionAnswers<D, E>,
) -> Result<ImageData<D>, ImageDataError<E>> {
    match (answers.width, answers.height, answers.settings) {
        (Err(error), _, _) => conversion(error),
        (_, Err(error), _) if has_height => conversion(error),
        (_, _, Err(error)) => conversion(error),
        (Ok(width), height, Ok(settings)) => image_of_data(
            kind,
            width,
            if has_height {
                height.ok()
            } else {
                None
            },
            settings,
            answers.length,
            answers.data,
        ),
    }
}

/// `new ImageData(width, height, settings)`, with the settings optional.
pub open spec fn constructed_of_size<D, E>(answers: ConstructionAnswers<D, E>) -> Result<
    ImageData<D>,
    ImageDataError<E>,
> {
    match (answers.width, answers.height, answers.settings) {
        (Err(error), _, _) => conversion(error),
        (_, Err(error), _) => conversion(error),
        (_, _, Err(error)) => conversion(error),
        (Ok(width), Ok(height), Ok(settings)) => if width == 0 {
            Err(ImageDataError::ZeroWidth)
        } else if height == 0 {
            Err(ImageDataError::ZeroHeight)
        } else {
            match (layout_of(settings.pixel_format, width, height), answers.allocated) {
                (Some(_), Some(data)) => Ok(
                    ImageData {
                        width,
                        height,
                        pixel_format: settings.pixel_format,
                        color_space: effective_color_space(settings),
                        data,
                    },
                ),
                _ => Err(ImageDataError::AllocationFailed),
            }
        },
    }
}

/// The constructor ends with what its two forms say: the first failed conversion
/// is reported before anything about the size, and a first argument that is no
/// typed array is refused where pixels are expected.
pub proof fn lemma_construction_outcome<D, E>(
    arguments: ConstructorArguments,
    answers: ConstructionAnswers<D, E>,
)
    ensures
        construction_outcome(construction_start::<D, E>(arguments), answers) == (
        if !arguments.has_data() {
            constructed_of_size(answers)
        } else {
            match arguments.first {
                Some(kind) => constructed_from_data(kind, arguments.has_height(), answers),
                None => Err(no_typed_array()),
            }
        }),
{
    reveal_with_fuel(construction_outcome, 5);
}

/// Arguments are converted from the first to the last, each at most once, and
/// before the pixels are looked at or allocated.
pub proof fn lemma_conversion_order<D, E>(
    state: Construction<D, E>,
    reply: ConstructionReply<D, E>,
)
    requires
        state.accepts(reply),
    ensures
        requests_left(state.after(reply)) < requests_left(state),
        match (state.spec_request(), state.after(reply).spec_request()) {
            (
                ConstructionRequest::UnsignedLong { argument: before },
                ConstructionRequest::UnsignedLong { argument: after },
            ) => before < after,
            (
                ConstructionRequest::UnsignedLong { argument: before },
                ConstructionRequest::Settings { argument: after },
            ) => before < after,
            (ConstructionRequest::UnsignedLong { .. }, next) => next is Finished,
            (ConstructionRequest::Settings { .. }, next) => next is Data || next is Allocate
                || next is Finished,
            (_, next) => next is Finished,
        },
{
}

/// Whether a 32-bit height counts the rows of the pixels, if pixels are given.
pub open spec fn rows_fit<D, E>(
    arguments: ConstructorArguments,
    answers: ConstructionAnswers<D, E>,
) -> bool {
    match answers.width {
        Ok(width) => arguments.has_data() && width > 0 ==> answers.length as int / 4 / width as int
            <= u32::MAX,
        Err(_) => true,
    }
}

/// An image that was constructed has pixels, and its typed array has four
/// elements to a pixel. This leaves out pixels of more rows than a 32-bit height
/// counts.
pub proof fn lemma_constructed_size<D, E>(
    arguments: ConstructorArguments,
    answers: ConstructionAnswers<D, E>,
)
    requires
        rows_fit(arguments, answers),
    ensures
        construction_outcome(construction_start::<D, E>(arguments), answers) matches Ok(image) ==> {
            &&& image.width > 0
            &&& image.height > 0
            &&& arguments.has_data() ==> {
                &&& image.data == answers.data
                &&& answers.length == element_count(image.width, image.height)
                &&& arguments.first matches Some(kind) && (kind == format_kind(image.pixel_format)
                    || kind is Other)
            }
            &&& !arguments.has_data() ==> {
                &&& Some(image.data) == answers.allocated
                &&& layout_of(image.pixel_format, image.width, image.height) matches Some(layout)
                    && layout.kind == format_kind(image.pixel_format) && layout.length
                    == element_count(image.width, image.height)
            }
        },
{
    lemma_construction_outcome(arguments, answers);
    if let Ok(image) = construction_outcome(construction_start::<D, E>(arguments), answers) {
        if arguments.has_data() {
            let pixels = answers.length as int / 4;
            let width = image.width as int;
            let rows = pixels / width;
            vstd::arithmetic::div_mod::lemma_fundamental_div_mod(pixels, width);
            assert(rows >= 0) by (nonlinear_arith)
                requires
                    rows == pixels / width,
                    pixels >= 0,
                    width > 0,
            ;
            assert(image.height == rows);
            assert(rows > 0) by (nonlinear_arith)
                requires
                    pixels == width * rows,
                    pixels > 0,
                    rows >= 0,
            ;
        } else {
            assert(image.width * image.height >= 0) by (nonlinear_arith);
        }
    }
}

} // verus!
