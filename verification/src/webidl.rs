//! Web IDL interfaces and conversions, as far as structured cloning looks at
//! them.

use vstd::prelude::*;

verus! {

/// A value that could not be converted to the type that its place asks for.
#[derive(Debug, PartialEq, Eq)]
pub enum WebIdlError<E> {
    /// The value is not of the type `converter`. `prefix` says what was
    /// attempted, `context` which value is meant.
    ConvertToConverterType {
        prefix: &'static str,
        context: &'static str,
        converter: &'static str,
    },
    /// The embedder's own conversion reported the error.
    Conversion(E),
}

/// The runtime identity of a Web IDL interface: the name that the IDL gives it,
/// whatever the type that implements it is called. It serves to find the steps
/// of an object in this process; what is written is a tag.
pub trait WebIdlInterface {
    const INTERFACE_NAME: &'static str;
}

/// The interfaces with the `[Serializable]` extended attribute.
pub trait WebIdlSerializable: WebIdlInterface {

}

/// The interfaces with the `[Transferable]` extended attribute. How an object is
/// checked, detached and received is up to the interface.
pub trait WebIdlTransferable: WebIdlInterface {

}

/// An interface that can be serialized only.
pub struct SerializableInterface;

impl WebIdlInterface for SerializableInterface {
    const INTERFACE_NAME: &'static str = "SerializableInterface";
}

impl WebIdlSerializable for SerializableInterface {

}

/// An interface that can be transferred only.
pub struct TransferableInterface;

impl WebIdlInterface for TransferableInterface {
    const INTERFACE_NAME: &'static str = "TransferableInterface";
}

impl WebIdlTransferable for TransferableInterface {

}

/// An interface that can be serialized and transferred.
pub struct SerializableTransferableInterface;

impl WebIdlInterface for SerializableTransferableInterface {
    const INTERFACE_NAME: &'static str = "SerializableTransferableInterface";
}

impl WebIdlSerializable for SerializableTransferableInterface {

}

impl WebIdlTransferable for SerializableTransferableInterface {

}

/// Compiles because `SerializableInterface` can be serialized.
pub fn assert_serializable_marker() where SerializableInterface: WebIdlSerializable {
}

/// Compiles because `TransferableInterface` can be transferred.
pub fn assert_transferable_marker() where TransferableInterface: WebIdlTransferable {
}

/// Compiles because `SerializableTransferableInterface` can be serialized and
/// transferred.
pub fn assert_combined_markers() where
    SerializableTransferableInterface: WebIdlSerializable + WebIdlTransferable,
 {
}

/// The names of the interfaces.
pub proof fn lemma_interface_names()
    ensures
        SerializableInterface::INTERFACE_NAME@ == "SerializableInterface"@,
        TransferableInterface::INTERFACE_NAME@ == "TransferableInterface"@,
        SerializableTransferableInterface::INTERFACE_NAME@
            == "SerializableTransferableInterface"@,
{
}

} // verus!
