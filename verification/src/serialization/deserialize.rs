//! Deserializing a value with the objects that were transferred with it.
//!
//! The transferred objects are made first, in the order of their data, then the
//! envelope is opened and V8 reads the value. The deserialization asks the
//! embedder for one step at a time and goes on with what came of it.

use vstd::prelude::*;
use vstd::slice::slice_subrange;

use crate::serialization::envelope::{
    check_wire_format_version, is_supported, opened, EnvelopeFormat,
};
use crate::serialization::error::{CloneError, Failure};
use crate::serialization::serialize::{
    buffer_id, places, PreparedTransfer, StructuredCloneTransferData,
    StructuredSerializeWithTransferResult,
};

verus! {

/// A deserialized value and the objects that were transferred with it, in the
/// order of the transfer list.
#[derive(Debug, PartialEq, Eq)]
pub struct StructuredDeserializeWithTransferResult<V> {
    pub deserialized: V,
    pub transferred_values: Vec<V>,
}

/// Which step comes next.
#[derive(Debug, PartialEq, Eq)]
pub enum DeserializationStage<V, E> {
    /// Take up the data of a transferred object.
    TakeUp,
    /// Make the object of the data that was taken up.
    Receive(PreparedTransfer),
    /// Hand the payload to V8 and read its header.
    Header,
    /// Announce the numbered `ArrayBuffer`s and read the value.
    Value,
    /// The result is complete.
    Finished(V),
    /// There is no result.
    Failed(Failure<E>),
}

/// What the deserialization needs to go on.
#[derive(Clone, Copy, Debug, PartialEq, Eq, Structural)]
pub enum DeserializationRequest {
    /// Take up the data of a transferred object.
    TakeUp,
    /// Make the object of the data that was taken up.
    Receive,
    /// Hand the payload to V8 and read its header.
    ReadHeader,
    /// Announce the numbered `ArrayBuffer`s and read the value.
    ReadValue,
    /// Nothing: the outcome is known.
    Finished,
}

/// The reply to a request.
#[derive(Debug, PartialEq, Eq)]
pub enum DeserializationReply<V, E> {
    Received(Result<V, E>),
    Header(Option<bool>),
    Value(Option<V>),
}

/// Where a deserialization stands.
#[verifier::ext_equal]
pub ghost struct DeserializationView<B, T, V, E> {
    /// The data that was not taken up yet.
    pub pending: Seq<StructuredCloneTransferData<B, T>>,
    /// What the objects are that were made.
    pub received: Seq<PreparedTransfer>,
    /// The objects that were made.
    pub values: Seq<V>,
    pub serialized: Seq<u8>,
    /// The envelope around V8's data, `None` if there is none.
    pub envelope: Option<EnvelopeFormat>,
    /// The version that is written, the last that is readable.
    pub current: u32,
    pub stage: DeserializationStage<V, E>,
}

/// The version of serialized data and where V8's part of it starts, or why it
/// cannot be read. Data without an envelope is of the current version.
pub open spec fn opened_data(
    envelope: Option<EnvelopeFormat>,
    current: u32,
    serialized: Seq<u8>,
) -> Result<(u32, nat), CloneError> {
    match envelope {
        None => Ok((current, 0)),
        Some(format) => match opened(format.marker(), serialized) {
            Err(error) => Err(error),
            Ok((version, start)) => if is_supported(version, current) {
                Ok((version, start))
            } else {
                Err(CloneError::UnsupportedVersion(version))
            },
        },
    }
}

impl<B, T, V, E> DeserializationView<B, T, V, E> {
    /// The same with another next step.
    pub open spec fn at(self, stage: DeserializationStage<V, E>) -> Self {
        DeserializationView { stage, ..self }
    }

    /// The end of the deserialization in a failure.
    pub open spec fn failed(self, error: CloneError) -> Self {
        self.at(DeserializationStage::Failed(Failure::Clone(error)))
    }

    /// Goes on with the data that is left, or with the value if none is.
    pub open spec fn next_object(self) -> Self {
        if self.pending.len() > 0 {
            self.at(DeserializationStage::TakeUp)
        } else {
            match opened_data(self.envelope, self.current, self.serialized) {
                Ok(_) => self.at(DeserializationStage::Header),
                Err(error) => self.failed(error),
            }
        }
    }

    /// Whether `reply` answers what is asked.
    pub open spec fn accepts(self, reply: DeserializationReply<V, E>) -> bool {
        match self.stage {
            DeserializationStage::Receive(_) => reply is Received,
            DeserializationStage::Header => reply is Header,
            DeserializationStage::Value => reply is Value,
            _ => false,
        }
    }

    /// Takes up the first data that is left.
    pub open spec fn take_up(self) -> Self {
        DeserializationView { pending: self.pending.skip(1), ..self }.at(
            DeserializationStage::Receive(sort_of(self.pending[0])),
        )
    }

    /// Where the deserialization goes from here.
    pub open spec fn after(self, reply: DeserializationReply<V, E>) -> Self {
        match (self.stage, reply) {
            (DeserializationStage::Receive(sort), DeserializationReply::Received(value)) => {
                match value {
                    Ok(value) => DeserializationView {
                        received: self.received.push(sort),
                        values: self.values.push(value),
                        ..self
                    }.next_object(),
                    Err(error) => self.at(DeserializationStage::Failed(Failure::Host(error))),
                }
            },
            (DeserializationStage::Header, DeserializationReply::Header(valid)) => {
                if valid == Some(true) {
                    self.at(DeserializationStage::Value)
                } else {
                    self.failed(CloneError::InvalidValueHeader)
                }
            },
            (DeserializationStage::Value, DeserializationReply::Value(value)) => match value {
                Some(value) => self.at(DeserializationStage::Finished(value)),
                None => self.failed(CloneError::InvalidValue),
            },
            _ => self,
        }
    }
}

/// What sort of object data is of.
pub open spec fn sort_of<B, T>(data: StructuredCloneTransferData<B, T>) -> PreparedTransfer {
    match data {
        StructuredCloneTransferData::ArrayBuffer(_) => PreparedTransfer::ArrayBuffer,
        StructuredCloneTransferData::HostObject(_) => PreparedTransfer::HostObject,
    }
}

/// Where a deserialization starts.
pub open spec fn deserialization_start<B, T, V, E>(
    serialized: Seq<u8>,
    holders: Seq<StructuredCloneTransferData<B, T>>,
    envelope: Option<EnvelopeFormat>,
    current: u32,
) -> DeserializationView<B, T, V, E> {
    DeserializationView {
        pending: holders,
        received: Seq::empty(),
        values: Seq::empty(),
        serialized,
        envelope,
        current,
        stage: DeserializationStage::TakeUp,
    }.next_object()
}

/// A deserialization under way.
pub struct StructuredDeserialization<B, T, V, E> {
    // The data that was not taken up yet, the first at the end.
    pending: Vec<StructuredCloneTransferData<B, T>>,
    received: Vec<PreparedTransfer>,
    values: Vec<V>,
    array_buffers: Vec<(u32, usize)>,
    host_objects: Vec<usize>,
    serialized: Vec<u8>,
    envelope: Option<EnvelopeFormat>,
    current: u32,
    wire_format_version: u32,
    payload_start: usize,
    stage: DeserializationStage<V, E>,
}

impl<B, T, V, E> View for StructuredDeserialization<B, T, V, E> {
    type V = DeserializationView<B, T, V, E>;

    closed spec fn view(&self) -> DeserializationView<B, T, V, E> {
        DeserializationView {
            pending: self.pending@.reverse(),
            received: self.received@,
            values: self.values@,
            serialized: self.serialized@,
            envelope: self.envelope,
            current: self.current,
            stage: self.stage,
        }
    }
}

impl<B, T, V, E> StructuredDeserialization<B, T, V, E> {
    spec fn lists_match(self) -> bool {
        let buffers = places(self.received@, PreparedTransfer::ArrayBuffer);
        let objects = places(self.received@, PreparedTransfer::HostObject);
        &&& self.values@.len() == self.received@.len()
        &&& self.array_buffers@.len() == buffers.len()
        &&& forall|k: int|
            0 <= k < buffers.len() ==> (#[trigger] self.array_buffers@[k]).0 == buffer_id(k)
                && self.array_buffers@[k].1 == buffers[k]
        &&& self.host_objects@.len() == objects.len()
        &&& forall|k: int|
            0 <= k < objects.len() ==> #[trigger] self.host_objects@[k] == objects[k]
    }

    /// What holds between two calls.
    pub closed spec fn wf(self) -> bool {
        &&& self.lists_match()
        &&& self.stage is TakeUp ==> self.pending@.len() > 0
        &&& self.stage is Header || self.stage is Value ==> opened_data(
            self.envelope,
            self.current,
            self.serialized@,
        ) == Ok::<(u32, nat), CloneError>((self.wire_format_version, self.payload_start as nat))
            && self.payload_start <= self.serialized@.len()
    }

    /// Starts the deserialization of what a serialization came to. `current` is
    /// the version that is written, the last that is readable.
    pub fn new(
        result: StructuredSerializeWithTransferResult<B, T>,
        envelope: Option<EnvelopeFormat>,
        current: u32,
    ) -> (deserialization: Self)
        ensures
            deserialization.wf(),
            deserialization@ == deserialization_start::<B, T, V, E>(
                result.serialized@,
                result.transfer_data_holders@,
                envelope,
                current,
            ),
    {
        let ghost holders = result.transfer_data_holders@;
        let mut holders_left = result.transfer_data_holders;
        let mut pending: Vec<StructuredCloneTransferData<B, T>> = Vec::new();
        while holders_left.len() > 0
            invariant
                holders_left@ + pending@.reverse() == holders,
            decreases holders_left@.len(),
        {
            let ghost before = holders_left@ + pending@.reverse();
            if let Some(data) = holders_left.pop() {
                pending.push(data);
                assert(holders_left@ + pending@.reverse() == before);
            }
        }
        assert(pending@.reverse() == holders);
        let mut deserialization = StructuredDeserialization {
            pending,
            received: Vec::new(),
            values: Vec::new(),
            array_buffers: Vec::new(),
            host_objects: Vec::new(),
            serialized: result.serialized,
            envelope,
            current,
            wire_format_version: current,
            payload_start: 0,
            stage: DeserializationStage::TakeUp,
        };
        deserialization.next_object();
        deserialization
    }

    fn next_object(&mut self)
        requires
            old(self).lists_match(),
        ensures
            final(self).wf(),
            final(self)@ == old(self)@.next_object(),
    {
        if self.pending.len() > 0 {
            self.stage = DeserializationStage::TakeUp;
            return;
        }
        match open_data(self.envelope, self.current, self.serialized.as_slice()) {
            Ok((version, start)) => {
                self.wire_format_version = version;
                self.payload_start = start;
                self.stage = DeserializationStage::Header;
            },
            Err(error) => {
                self.stage = DeserializationStage::Failed(Failure::Clone(error));
            },
        }
    }

    /// The step that comes next.
    pub fn request(&self) -> (request: DeserializationRequest)
        ensures
            request == match self@.stage {
                DeserializationStage::TakeUp => DeserializationRequest::TakeUp,
                DeserializationStage::Receive(_) => DeserializationRequest::Receive,
                DeserializationStage::Header => DeserializationRequest::ReadHeader,
                DeserializationStage::Value => DeserializationRequest::ReadValue,
                DeserializationStage::Finished(_)
                | DeserializationStage::Failed(_) => DeserializationRequest::Finished,
            },
    {
        match self.stage {
            DeserializationStage::TakeUp => DeserializationRequest::TakeUp,
            DeserializationStage::Receive(_) => DeserializationRequest::Receive,
            DeserializationStage::Header => DeserializationRequest::ReadHeader,
            DeserializationStage::Value => DeserializationRequest::ReadValue,
            DeserializationStage::Finished(_)
            | DeserializationStage::Failed(_) => DeserializationRequest::Finished,
        }
    }

    /// Hands over the data to make the next object of.
    pub fn take_up(&mut self) -> (data: StructuredCloneTransferData<B, T>)
        requires
            old(self).wf(),
            old(self)@.stage is TakeUp,
        ensures
            final(self).wf(),
            data == old(self)@.pending[0],
            final(self)@ == old(self)@.take_up(),
    {
        let data = self.pending.pop().unwrap();
        self.stage = DeserializationStage::Receive(
            match &data {
                StructuredCloneTransferData::ArrayBuffer(_) => PreparedTransfer::ArrayBuffer,
                StructuredCloneTransferData::HostObject(_) => PreparedTransfer::HostObject,
            },
        );
        assert(self.pending@.reverse() == old(self).pending@.reverse().skip(1));
        data
    }

    fn add_object(&mut self, sort: PreparedTransfer, value: V)
        requires
            old(self).wf(),
        ensures
            final(self).wf(),
            final(self)@ == (DeserializationView {
                received: old(self)@.received.push(sort),
                values: old(self)@.values.push(value),
                ..old(self)@
            }).next_object(),
    {
        let place: usize = self.values.len();
        match sort {
            PreparedTransfer::ArrayBuffer => {
                let count: u64 = self.array_buffers.len() as u64;
                self.array_buffers.push(((count % 0x1_0000_0000) as u32, place));
            },
            PreparedTransfer::HostObject => {
                self.host_objects.push(place);
            },
        }
        self.values.push(value);
        self.received.push(sort);
        assert(self.received@.drop_last() == old(self).received@);
        self.next_object();
    }

    /// Goes on with the reply to the request.
    pub fn resume(&mut self, reply: DeserializationReply<V, E>)
        requires
            old(self).wf(),
            old(self)@.accepts(reply),
        ensures
            final(self).wf(),
            final(self)@ == old(self)@.after(reply),
    {
        match reply {
            DeserializationReply::Received(Ok(value)) => {
                if let DeserializationStage::Receive(sort) = self.stage {
                    self.add_object(sort, value);
                }
            },
            DeserializationReply::Received(Err(error)) => {
                self.stage = DeserializationStage::Failed(Failure::Host(error));
            },
            DeserializationReply::Header(valid) => {
                self.stage = if matches!(valid, Some(true)) {
                    DeserializationStage::Value
                } else {
                    DeserializationStage::Failed(Failure::Clone(CloneError::InvalidValueHeader))
                };
            },
            DeserializationReply::Value(Some(value)) => {
                self.stage = DeserializationStage::Finished(value);
            },
            DeserializationReply::Value(None) => {
                self.stage = DeserializationStage::Failed(
                    Failure::Clone(CloneError::InvalidValue),
                );
            },
        }
    }

    /// The version of the data.
    pub fn wire_format_version(&self) -> (version: u32)
        requires
            self.wf(),
            self@.stage is Header || self@.stage is Value,
        ensures
            opened_data(self@.envelope, self@.current, self@.serialized) matches Ok(found)
                && version == found.0,
    {
        self.wire_format_version
    }

    /// V8's part of the data.
    pub fn payload(&self) -> (payload: &[u8])
        requires
            self.wf(),
            self@.stage is Header || self@.stage is Value,
        ensures
            opened_data(self@.envelope, self@.current, self@.serialized) matches Ok(found)
                && payload@ == self@.serialized.skip(found.1 as int),
    {
        slice_subrange(self.serialized.as_slice(), self.payload_start, self.serialized.len())
    }

    /// The objects that were made.
    pub fn values(&self) -> (values: &[V])
        ensures
            values@ == self@.values,
    {
        self.values.as_slice()
    }

    /// The numbers of the `ArrayBuffer`s to announce to V8, and where they stand
    /// among the objects that were made.
    pub fn array_buffers(&self) -> (buffers: &[(u32, usize)])
        requires
            self.wf(),
        ensures
            buffers@.len() == places(self@.received, PreparedTransfer::ArrayBuffer).len(),
            forall|k: int|
                0 <= k < buffers@.len() ==> (#[trigger] buffers@[k]).0 == buffer_id(k)
                    && buffers@[k].1 == places(self@.received, PreparedTransfer::ArrayBuffer)[k],
    {
        self.array_buffers.as_slice()
    }

    /// Where the host objects stand among the objects that were made, by their
    /// numbers.
    pub fn host_objects(&self) -> (objects: &[usize])
        requires
            self.wf(),
        ensures
            objects@.len() == places(self@.received, PreparedTransfer::HostObject).len(),
            forall|k: int|
                0 <= k < objects@.len() ==> #[trigger] objects@[k] == places(
                    self@.received,
                    PreparedTransfer::HostObject,
                )[k],
    {
        self.host_objects.as_slice()
    }

    /// The outcome of a deserialization that needs nothing more.
    pub fn finish(self) -> (outcome: Result<
        StructuredDeserializeWithTransferResult<V>,
        Failure<E>,
    >)
        requires
            self@.stage is Finished || self@.stage is Failed,
        ensures
            match self@.stage {
                DeserializationStage::Finished(value) => outcome matches Ok(result)
                    && result.deserialized == value && result.transferred_values@ == self@.values,
                DeserializationStage::Failed(failure) => outcome == Err::<
                    StructuredDeserializeWithTransferResult<V>,
                    Failure<E>,
                >(failure),
                _ => false,
            },
    {
        match self.stage {
            DeserializationStage::Finished(value) => Ok(
                StructuredDeserializeWithTransferResult {
                    deserialized: value,
                    transferred_values: self.values,
                },
            ),
            DeserializationStage::Failed(failure) => Err(failure),
            _ => Err(Failure::Clone(CloneError::InvalidValue)),
        }
    }
}

/// The version of serialized data and where V8's part of it starts.
fn open_data(envelope: Option<EnvelopeFormat>, current: u32, serialized: &[u8]) -> (res: Result<
    (u32, usize),
    CloneError,
>)
    ensures
        match opened_data(envelope, current, serialized@) {
            Ok((version, start)) => res matches Ok(found) && found.0 == version && found.1 == start
                && start <= serialized@.len(),
            Err(error) => res == Err::<(u32, usize), CloneError>(error),
        },
{
    match envelope {
        None => Ok((current, 0)),
        Some(format) => match format.read(serialized) {
            Err(error) => Err(error),
            Ok((version, payload)) => {
                assert(payload@.len() <= serialized@.len());
                match check_wire_format_version(version, current) {
                    Ok(()) => Ok((version, serialized.len() - payload.len())),
                    Err(error) => Err(error),
                }
            },
        },
    }
}

/// Starts the deserialization of bytes that nothing was transferred with.
/// `current` is the version that is written, the last that is readable.
pub fn structured_deserialize<B, T, V, E>(serialized: Vec<u8>, current: u32) -> (deserialization:
    StructuredDeserialization<B, T, V, E>)
    ensures
        deserialization.wf(),
        deserialization@ == deserialization_start::<B, T, V, E>(
            serialized@,
            Seq::empty(),
            Some(EnvelopeFormat::Magic),
            current,
        ),
{
    structured_deserialize_with_transfer(
        StructuredSerializeWithTransferResult { serialized, transfer_data_holders: Vec::new() },
        current,
    )
}

/// Starts the deserialization of what a serialization came to. `current` is the
/// version that is written, the last that is readable.
pub fn structured_deserialize_with_transfer<B, T, V, E>(
    result: StructuredSerializeWithTransferResult<B, T>,
    current: u32,
) -> (deserialization: StructuredDeserialization<B, T, V, E>)
    ensures
        deserialization.wf(),
        deserialization@ == deserialization_start::<B, T, V, E>(
            result.serialized@,
            result.transfer_data_holders@,
            Some(EnvelopeFormat::Magic),
            current,
        ),
{
    StructuredDeserialization::new(result, Some(EnvelopeFormat::Magic), current)
}

/// Data that can be read stays readable, and is read in the same way, when the
/// version that is written rises.
pub proof fn lemma_stored_data_stays_readable(
    format: EnvelopeFormat,
    serialized: Seq<u8>,
    current: u32,
    later: u32,
)
    requires
        current <= later,
        opened_data(Some(format), current, serialized) is Ok,
    ensures
        opened_data(Some(format), later, serialized) == opened_data(
            Some(format),
            current,
            serialized,
        ),
{
}

} // verus!
