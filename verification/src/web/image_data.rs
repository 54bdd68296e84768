//! `ImageData`: how it is constructed, serialized and deserialized.
//!
//! An image does not hold its pixels but a handle `D` to the typed array that
//! does. What the rules need to know of that array is its element type and its
//! length.

use vstd::prelude::*;

use crate::text::{decimal, lemma_decimal, numbered, spelled};
use crate::webidl::{WebIdlError, WebIdlInterface, WebIdlSerializable};

pub mod constructor;
pub mod payload;
pub mod script;
pub mod stored;

verus! {

#[derive(Clone, Copy, Debug, PartialEq, Eq, Structural)]
pub enum PredefinedColorSpace {
    Srgb,
    DisplayP3,
}

impl PredefinedColorSpace {
    /// The name that scripts use.
    pub open spec fn spec_name(self) -> Seq<char> {
        match self {
            PredefinedColorSpace::Srgb => "srgb"@,
            PredefinedColorSpace::DisplayP3 => "display-p3"@,
        }
    }

    /// The name that scripts use.
    pub fn name(self) -> (name: &'static str)
        ensures
            name@ == self.spec_name(),
    {
        match self {
            PredefinedColorSpace::Srgb => "srgb",
            PredefinedColorSpace::DisplayP3 => "display-p3",
        }
    }
}

#[derive(Clone, Copy, Debug, PartialEq, Eq, Structural)]
pub enum ImageDataPixelFormat {
    RgbaUnorm8,
    RgbaFloat16,
}

impl ImageDataPixelFormat {
    /// The name that scripts use.
    pub open spec fn spec_name(self) -> Seq<char> {
        match self {
            ImageDataPixelFormat::RgbaUnorm8 => "rgba-unorm8"@,
            ImageDataPixelFormat::RgbaFloat16 => "rgba-float16"@,
        }
    }

    /// The name that scripts use.
    pub fn name(self) -> (name: &'static str)
        ensures
            name@ == self.spec_name(),
    {
        match self {
            ImageDataPixelFormat::RgbaUnorm8 => "rgba-unorm8",
            ImageDataPixelFormat::RgbaFloat16 => "rgba-float16",
        }
    }
}

/// The settings dictionary of the constructor.
#[derive(Clone, Copy, Debug, PartialEq, Eq, Structural)]
pub struct ImageDataSettings {
    pub color_space: Option<PredefinedColorSpace>,
    pub pixel_format: ImageDataPixelFormat,
}

impl Default for ImageDataSettings {
    /// What absent members of the dictionary stand for.
    fn default() -> (settings: Self)
        ensures
            settings.color_space is None,
            settings.pixel_format == ImageDataPixelFormat::RgbaUnorm8,
    {
        ImageDataSettings { color_space: None, pixel_format: ImageDataPixelFormat::RgbaUnorm8 }
    }
}

/// The element type of a typed array, as far as it matters for images.
#[derive(Clone, Copy, Debug, PartialEq, Eq, Structural)]
pub enum TypedArrayKind {
    Uint8Clamped,
    Float16,
    Other,
}

/// A typed array: `length` counts elements, `data` is the handle to it.
#[derive(Debug, PartialEq, Eq)]
pub struct TypedArray<D> {
    pub kind: TypedArrayKind,
    pub length: usize,
    pub data: D,
}

/// An image.
#[derive(Debug, PartialEq, Eq)]
pub struct ImageData<D> {
    pub width: u32,
    pub height: u32,
    pub pixel_format: ImageDataPixelFormat,
    pub color_space: PredefinedColorSpace,
    pub data: D,
}

impl<D> WebIdlInterface for ImageData<D> {
    const INTERFACE_NAME: &'static str = "ImageData";
}

impl<D> WebIdlSerializable for ImageData<D> {

}

impl<D> ImageData<D> {
    /// The width in pixels.
    pub fn width(&self) -> (width: u32)
        ensures
            width == self.width,
    {
        self.width
    }

    /// The height in pixels.
    pub fn height(&self) -> (height: u32)
        ensures
            height == self.height,
    {
        self.height
    }

    /// The typed array of the pixels.
    pub fn data(&self) -> (data: &D)
        ensures
            *data == self.data,
    {
        &self.data
    }

    /// The name of the pixel format.
    pub fn pixel_format(&self) -> (name: &'static str)
        ensures
            name@ == self.pixel_format.spec_name(),
    {
        self.pixel_format.name()
    }

    /// The name of the colour space.
    pub fn color_space(&self) -> (name: &'static str)
        ensures
            name@ == self.color_space.spec_name(),
    {
        self.color_space.name()
    }
}

/// The name of the interface.
pub proof fn lemma_interface_name<D>()
    ensures
        ImageData::<D>::INTERFACE_NAME@ == "ImageData"@,
{
}

/// The number of elements that an image of the given size has: four to a pixel.
pub open spec fn element_count(width: u32, height: u32) -> int {
    4 * (width * height)
}

/// The element type that a pixel format asks for.
pub open spec fn format_kind(format: ImageDataPixelFormat) -> TypedArrayKind {
    match format {
        ImageDataPixelFormat::RgbaUnorm8 => TypedArrayKind::Uint8Clamped,
        ImageDataPixelFormat::RgbaFloat16 => TypedArrayKind::Float16,
    }
}

/// Why an image could not be constructed.
#[derive(Debug, PartialEq, Eq)]
pub enum ImageDataError<E> {
    WebIDL(WebIdlError<E>),
    ZeroElements,
    NotMultipleOfFour(usize),
    ZeroWidth,
    ZeroHeight,
    NotMultipleOfRow,
    WrongLength,
    Uint8ClampedNeedsUnorm,
    Float16NeedsFloat16,
    AllocationFailed,
}

impl<E> ImageDataError<E> {
    /// The class of the error that a script sees, `None` where it is the class
    /// of the conversion error inside.
    pub open spec fn spec_class(self) -> Option<Seq<char>> {
        match self {
            ImageDataError::WebIDL(_) => None,
            ImageDataError::AllocationFailed => Some("Error"@),
            ImageDataError::ZeroElements
            | ImageDataError::NotMultipleOfFour(_)
            | ImageDataError::Uint8ClampedNeedsUnorm
            | ImageDataError::Float16NeedsFloat16 => Some("DOMExceptionInvalidStateError"@),
            ImageDataError::ZeroWidth
            | ImageDataError::ZeroHeight
            | ImageDataError::NotMultipleOfRow
            | ImageDataError::WrongLength => Some("DOMExceptionIndexSizeError"@),
        }
    }

    /// The class of the error that a script sees, `None` where it is the class
    /// of the conversion error inside.
    pub fn class(&self) -> (class: Option<&'static str>)
        ensures
            class is Some <==> self.spec_class() is Some,
            class matches Some(text) ==> self.spec_class() == Some(text@),
    {
        match self {
            ImageDataError::WebIDL(_) => None,
            ImageDataError::AllocationFailed => Some("Error"),
            ImageDataError::ZeroElements
            | ImageDataError::NotMultipleOfFour(_)
            | ImageDataError::Uint8ClampedNeedsUnorm
            | ImageDataError::Float16NeedsFloat16 => Some("DOMExceptionInvalidStateError"),
            ImageDataError::ZeroWidth
            | ImageDataError::ZeroHeight
            | ImageDataError::NotMultipleOfRow
            | ImageDataError::WrongLength => Some("DOMExceptionIndexSizeError"),
        }
    }

    /// The message of the error that a script sees, `None` where it is the
    /// message of the conversion error inside.
    pub open spec fn spec_message(self) -> Option<Seq<char>> {
        match self {
            ImageDataError::WebIDL(_) => None,
            ImageDataError::ZeroElements => Some(
                "Failed to construct 'ImageData': the input data has zero elements"@,
            ),
            ImageDataError::NotMultipleOfFour(length) => Some(
                "Failed to construct 'ImageData': the input data length is not a multiple of 4, received "@
                    + decimal(length as nat),
            ),
            ImageDataError::ZeroWidth => Some(
                "Failed to construct 'ImageData': the source width is zero or not a number"@,
            ),
            ImageDataError::ZeroHeight => Some(
                "Failed to construct 'ImageData': the source height is zero or not a number"@,
            ),
            ImageDataError::NotMultipleOfRow => Some(
                "Failed to construct 'ImageData': the input data length is not a multiple of (4 * width)"@,
            ),
            ImageDataError::WrongLength => Some(
                "Failed to construct 'ImageData': the input data length is not equal to (4 * width * height)"@,
            ),
            ImageDataError::Uint8ClampedNeedsUnorm => Some(
                "Failed to construct 'ImageData': Uint8ClampedArray must use rgba-unorm8 pixelFormat."@,
            ),
            ImageDataError::Float16NeedsFloat16 => Some(
                "Failed to construct 'ImageData': Float16Array must use rgba-float16 pixelFormat."@,
            ),
            ImageDataError::AllocationFailed => Some(
                "Failed to allocate ImageData backing store"@,
            ),
        }
    }

    /// The message of the error that a script sees, `None` where it is the
    /// message of the conversion error inside.
    pub fn message(&self) -> (message: Option<String>)
        ensures
            message is Some <==> self.spec_message() is Some,
            message matches Some(text) ==> self.spec_message() == Some(text@),
    {
        let text: &'static str = match self {
            ImageDataError::WebIDL(_) => {
                return None;
            },
            ImageDataError::ZeroElements => {
                "Failed to construct 'ImageData': the input data has zero elements"
            },
            ImageDataError::NotMultipleOfFour(length) => {
                return Some(
                    numbered(
                        "Failed to construct 'ImageData': the input data length is not a multiple of 4, received ",
                        *length as u64,
                    ),
                );
            },
            ImageDataError::ZeroWidth => {
                "Failed to construct 'ImageData': the source width is zero or not a number"
            },
            ImageDataError::ZeroHeight => {
                "Failed to construct 'ImageData': the source height is zero or not a number"
            },
            ImageDataError::NotMultipleOfRow => {
                "Failed to construct 'ImageData': the input data length is not a multiple of (4 * width)"
            },
            ImageDataError::WrongLength => {
                "Failed to construct 'ImageData': the input data length is not equal to (4 * width * height)"
            },
            ImageDataError::Uint8ClampedNeedsUnorm => {
                "Failed to construct 'ImageData': Uint8ClampedArray must use rgba-unorm8 pixelFormat."
            },
            ImageDataError::Float16NeedsFloat16 => {
                "Failed to construct 'ImageData': Float16Array must use rgba-float16 pixelFormat."
            },
            ImageDataError::AllocationFailed => "Failed to allocate ImageData backing store",
        };
        Some(text.to_owned())
    }
}

/// The classes of the errors.
pub proof fn lemma_image_error_classes<E>(error: ImageDataError<E>, class: Option<&'static str>)
    requires
        call_ensures(ImageDataError::<E>::class, (&error,), class),
    ensures
        error is WebIDL <==> class is None,
        error is AllocationFailed ==> (class matches Some(text) && text@ == "Error"@),
        error is ZeroElements || error is NotMultipleOfFour || error is Uint8ClampedNeedsUnorm
            || error is Float16NeedsFloat16 ==> (class matches Some(text) && text@
            == "DOMExceptionInvalidStateError"@),
        error is ZeroWidth || error is ZeroHeight || error is NotMultipleOfRow
            || error is WrongLength ==> (class matches Some(text) && text@
            == "DOMExceptionIndexSizeError"@),
{
}

/// The messages of the errors.
pub proof fn lemma_image_error_messages<E>(error: ImageDataError<E>, message: Option<String>)
    requires
        call_ensures(ImageDataError::<E>::message, (&error,), message),
    ensures
        match error {
            ImageDataError::WebIDL(_) => message is None,
            ImageDataError::ZeroElements => message matches Some(text) && text@
                == "Failed to construct 'ImageData': the input data has zero elements"@,
            ImageDataError::NotMultipleOfFour(length) => message matches Some(text) && {
                let prefix = "Failed to construct 'ImageData': the input data length is not a multiple of 4, received "@;
                &&& prefix.is_prefix_of(text@)
                &&& spelled(text@.skip(prefix.len() as int)) == length
            },
            ImageDataError::ZeroWidth => message matches Some(text) && text@
                == "Failed to construct 'ImageData': the source width is zero or not a number"@,
            ImageDataError::ZeroHeight => message matches Some(text) && text@
                == "Failed to construct 'ImageData': the source height is zero or not a number"@,
            ImageDataError::NotMultipleOfRow => message matches Some(text) && text@
                == "Failed to construct 'ImageData': the input data length is not a multiple of (4 * width)"@,
            ImageDataError::WrongLength => message matches Some(text) && text@
                == "Failed to construct 'ImageData': the input data length is not equal to (4 * width * height)"@,
            ImageDataError::Uint8ClampedNeedsUnorm => message matches Some(text) && text@
                == "Failed to construct 'ImageData': Uint8ClampedArray must use rgba-unorm8 pixelFormat."@,
            ImageDataError::Float16NeedsFloat16 => message matches Some(text) && text@
                == "Failed to construct 'ImageData': Float16Array must use rgba-float16 pixelFormat."@,
            ImageDataError::AllocationFailed => message matches Some(text) && text@
                == "Failed to allocate ImageData backing store"@,
        },
{
    if let ImageDataError::NotMultipleOfFour(length) = error {
        let prefix =
            "Failed to construct 'ImageData': the input data length is not a multiple of 4, received "@;
        let text = message->0@;
        lemma_decimal(length as nat);
        assert(text == prefix + decimal(length as nat));
        assert(text.skip(prefix.len() as int) == decimal(length as nat));
    }
}

/// Settings that are absent stand for eight bits to a channel, and name no colour
/// space.
pub proof fn lemma_default_settings(settings: ImageDataSettings)
    requires
        call_ensures(ImageDataSettings::default, (), settings),
    ensures
        settings.color_space is None,
        settings.pixel_format is RgbaUnorm8,
{
}

} // verus!
