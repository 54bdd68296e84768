//! What structured cloning fails with.

use vstd::prelude::*;

use crate::text::{decimal, lemma_decimal, numbered, spelled};

verus! {

/// The failures that structured cloning raises by itself.
#[derive(Clone, Copy, Debug, PartialEq, Eq, Structural)]
pub enum CloneError {
    /// The object is not of the interface that its handler is for.
    InvalidBrand,
    /// The transfer list names an object twice.
    DuplicateTransfer,
    /// The transfer list could not be searched for duplicates.
    UnindexedTransferList,
    /// The transfer list names an `ArrayBuffer` without contents.
    DetachedArrayBuffer,
    /// The transfer list names a value that cannot be transferred.
    NotTransferable,
    /// An `ArrayBuffer` lost its contents, or may not lose them, by the time the
    /// value had been serialized.
    ArrayBufferChanged,
    /// An `ArrayBuffer` kept its contents.
    ArrayBufferNotDetached,
    /// A host object could not be transferred any more by the time the value had
    /// been serialized.
    HostObjectChanged,
    /// More host objects are transferred than there are numbers for them.
    TooManyHostObjects,
    /// A transferred host object could not be given its number.
    UnindexedHostObject,
    /// The host object has no transfer steps.
    HostObjectNotTransferable,
    /// The transfer data is not of the type that its receiver takes.
    UnexpectedTransferData,
    /// Symbols have no serialized form.
    Symbol,
    /// V8 refused the value without raising an exception.
    SerializationFailed,
    /// The data does not start as an envelope does.
    InvalidMagic,
    /// The version in the envelope is malformed or cut short.
    InvalidVersion,
    /// The envelope is of a version that this reader does not know.
    UnsupportedVersion(u32),
    /// V8 refused the header of its data.
    InvalidValueHeader,
    /// V8 refused its data.
    InvalidValue,
    /// The data needs an interface that the receiving realm does not expose.
    InterfaceNotExposed,
}

impl CloneError {
    /// The class of the error that a script sees.
    pub open spec fn spec_class(self) -> Seq<char> {
        match self {
            CloneError::Symbol => "DataCloneError"@,
            CloneError::SerializationFailed => "TypeError"@,
            CloneError::InvalidMagic
            | CloneError::InvalidVersion
            | CloneError::UnsupportedVersion(_)
            | CloneError::InvalidValueHeader
            | CloneError::InvalidValue => "RangeError"@,
            _ => "DOMExceptionDataCloneError"@,
        }
    }

    /// The class of the error that a script sees.
    pub fn class(&self) -> (class: &'static str)
        ensures
            class@ == self.spec_class(),
    {
        match self {
            CloneError::Symbol => "DataCloneError",
            CloneError::SerializationFailed => "TypeError",
            CloneError::InvalidMagic
            | CloneError::InvalidVersion
            | CloneError::UnsupportedVersion(_)
            | CloneError::InvalidValueHeader
            | CloneError::InvalidValue => "RangeError",
            _ => "DOMExceptionDataCloneError",
        }
    }

    /// The message of the error that a script sees.
    pub open spec fn spec_message(self) -> Seq<char> {
        match self {
            CloneError::InvalidBrand => "Transferable has an invalid brand"@,
            CloneError::DuplicateTransfer => "Transfer list contains duplicate object"@,
            CloneError::UnindexedTransferList => "Cannot index transfer list"@,
            CloneError::DetachedArrayBuffer => "Transfer list contains a detached ArrayBuffer"@,
            CloneError::NotTransferable => "Value not transferable"@,
            CloneError::ArrayBufferChanged => {
                "ArrayBuffer became detached or non-transferable while serializing"@
            },
            CloneError::ArrayBufferNotDetached => "ArrayBuffer could not be detached"@,
            CloneError::HostObjectChanged => "Host object became detached while serializing"@,
            CloneError::TooManyHostObjects => "Too many host objects to transfer"@,
            CloneError::UnindexedHostObject => "Cannot index host object transfer"@,
            CloneError::HostObjectNotTransferable => "Host object is not transferable"@,
            CloneError::UnexpectedTransferData => "Transfer data has an unexpected type"@,
            CloneError::Symbol => "Cannot serialize Symbol"@,
            CloneError::SerializationFailed => "Failed to serialize value"@,
            CloneError::InvalidMagic => "Cannot deserialize structured clone magic"@,
            CloneError::InvalidVersion => "Cannot deserialize structured clone version"@,
            CloneError::UnsupportedVersion(version) => {
                "Unsupported structured clone wire format version "@ + decimal(version as nat)
            },
            CloneError::InvalidValueHeader => "Cannot deserialize value header"@,
            CloneError::InvalidValue => "Cannot read deserialize value"@,
            CloneError::InterfaceNotExposed => "Interface is not exposed in the target realm"@,
        }
    }

    /// The message of the error that a script sees.
    pub fn message(&self) -> (message: String)
        ensures
            message@ == self.spec_message(),
    {
        let text: &'static str = match self {
            CloneError::InvalidBrand => "Transferable has an invalid brand",
            CloneError::DuplicateTransfer => "Transfer list contains duplicate object",
            CloneError::UnindexedTransferList => "Cannot index transfer list",
            CloneError::DetachedArrayBuffer => "Transfer list contains a detached ArrayBuffer",
            CloneError::NotTransferable => "Value not transferable",
            CloneError::ArrayBufferChanged => {
                "ArrayBuffer became detached or non-transferable while serializing"
            },
            CloneError::ArrayBufferNotDetached => "ArrayBuffer could not be detached",
            CloneError::HostObjectChanged => "Host object became detached while serializing",
            CloneError::TooManyHostObjects => "Too many host objects to transfer",
            CloneError::UnindexedHostObject => "Cannot index host object transfer",
            CloneError::HostObjectNotTransferable => "Host object is not transferable",
            CloneError::UnexpectedTransferData => "Transfer data has an unexpected type",
            CloneError::Symbol => "Cannot serialize Symbol",
            CloneError::SerializationFailed => "Failed to serialize value",
            CloneError::InvalidMagic => "Cannot deserialize structured clone magic",
            CloneError::InvalidVersion => "Cannot deserialize structured clone version",
            CloneError::UnsupportedVersion(version) => {
                return numbered(
                    "Unsupported structured clone wire format version ",
                    *version as u64,
                );
            },
            CloneError::InvalidValueHeader => "Cannot deserialize value header",
            CloneError::InvalidValue => "Cannot read deserialize value",
            CloneError::InterfaceNotExposed => "Interface is not exposed in the target realm",
        };
        text.to_owned()
    }
}

/// A failure of structured cloning: its own, or one that a hook of the embedder
/// reported.
#[derive(Debug, PartialEq, Eq)]
pub enum Failure<E> {
    Clone(CloneError),
    Host(E),
}

/// The classes of the errors. Bad data is a range error, a value that V8 refuses a type
/// error, and the rest are errors of cloning.
pub proof fn lemma_error_classes(error: CloneError, class: &'static str)
    requires
        call_ensures(CloneError::class, (&error,), class),
    ensures
        error is Symbol ==> class@ == "DataCloneError"@,
        error is SerializationFailed ==> class@ == "TypeError"@,
        error is InvalidMagic || error is InvalidVersion || error is UnsupportedVersion
            || error is InvalidValueHeader || error is InvalidValue ==> class@ == "RangeError"@,
        error is InvalidBrand || error is DuplicateTransfer || error is UnindexedTransferList
            || error is DetachedArrayBuffer || error is NotTransferable
            || error is ArrayBufferChanged || error is ArrayBufferNotDetached
            || error is HostObjectChanged || error is TooManyHostObjects
            || error is UnindexedHostObject || error is HostObjectNotTransferable
            || error is UnexpectedTransferData || error is InterfaceNotExposed ==> class@
            == "DOMExceptionDataCloneError"@,
{
}

/// The messages of the errors.
pub proof fn lemma_error_messages(error: CloneError, message: String)
    requires
        call_ensures(CloneError::message, (&error,), message),
    ensures
        error is InvalidBrand ==> message@ == "Transferable has an invalid brand"@,
        error is DuplicateTransfer ==> message@ == "Transfer list contains duplicate object"@,
        error is UnindexedTransferList ==> message@ == "Cannot index transfer list"@,
        error is DetachedArrayBuffer ==> message@
            == "Transfer list contains a detached ArrayBuffer"@,
        error is NotTransferable ==> message@ == "Value not transferable"@,
        error is ArrayBufferChanged ==> message@
            == "ArrayBuffer became detached or non-transferable while serializing"@,
        error is ArrayBufferNotDetached ==> message@ == "ArrayBuffer could not be detached"@,
        error is HostObjectChanged ==> message@ == "Host object became detached while serializing"@,
        error is TooManyHostObjects ==> message@ == "Too many host objects to transfer"@,
        error is UnindexedHostObject ==> message@ == "Cannot index host object transfer"@,
        error is HostObjectNotTransferable ==> message@ == "Host object is not transferable"@,
        error is UnexpectedTransferData ==> message@ == "Transfer data has an unexpected type"@,
        error is Symbol ==> message@ == "Cannot serialize Symbol"@,
        error is SerializationFailed ==> message@ == "Failed to serialize value"@,
        error is InvalidMagic ==> message@ == "Cannot deserialize structured clone magic"@,
        error is InvalidVersion ==> message@ == "Cannot deserialize structured clone version"@,
        error matches CloneError::UnsupportedVersion(version) ==> {
            let prefix = "Unsupported structured clone wire format version "@;
            &&& prefix.is_prefix_of(message@)
            &&& spelled(message@.skip(prefix.len() as int)) == version
        },
        error is InvalidValueHeader ==> message@ == "Cannot deserialize value header"@,
        error is InvalidValue ==> message@ == "Cannot read deserialize value"@,
        error is InterfaceNotExposed ==> message@
            == "Interface is not exposed in the target realm"@,
{
    if let CloneError::UnsupportedVersion(version) = error {
        let prefix = "Unsupported structured clone wire format version "@;
        lemma_decimal(version as nat);
        assert(message@.skip(prefix.len() as int) == decimal(version as nat));
    }
}

} // verus!
