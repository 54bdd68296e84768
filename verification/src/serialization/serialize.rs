//! Serializing a value with its transfer list.
//!
//! The list is validated as a whole, then V8 serializes the value, and only then
//! do the objects of the list lose their contents. Each of these steps can run
//! scripts or fail, so the serialization asks the embedder for one step at a
//! time and goes on with what came of it. The embedder keeps the objects; here
//! they are known by their places in the list, which are counted from zero.

use vstd::prelude::*;

use crate::serialization::envelope::{prologue, EnvelopeFormat};
use crate::serialization::error::{CloneError, Failure};
use crate::value::ValueKind;

verus! {

/// What a transferred object leaves behind for its receiver: the contents of an
/// `ArrayBuffer`, or the data of a host object.
#[derive(Debug, PartialEq, Eq)]
pub enum StructuredCloneTransferData<B, T> {
    ArrayBuffer(B),
    HostObject(T),
}

/// A serialized value and the data of the objects that were transferred with it,
/// in the order of the transfer list.
#[derive(Debug, PartialEq, Eq)]
pub struct StructuredSerializeWithTransferResult<B, T> {
    pub serialized: Vec<u8>,
    pub transfer_data_holders: Vec<StructuredCloneTransferData<B, T>>,
}

/// What an entry of the transfer list is.
#[derive(Clone, Copy, Debug, PartialEq, Eq, Structural)]
pub enum TransferKind {
    ArrayBuffer,
    Object,
    /// Something that is no object.
    Other,
}

/// An entry of the transfer list that passed validation.
#[derive(Clone, Copy, Debug, PartialEq, Eq, Structural)]
pub enum PreparedTransfer {
    ArrayBuffer,
    HostObject,
}

/// How V8 fared with the value.
#[derive(Clone, Copy, Debug, PartialEq, Eq, Structural)]
pub struct WriteOutcome {
    /// An exception was raised.
    pub caught: bool,
    /// Execution was terminated.
    pub terminated: bool,
    /// What the serializer returned.
    pub written: Option<bool>,
}

/// Which step comes next.
#[derive(Debug, PartialEq, Eq)]
pub enum SerializationStage<E> {
    /// Look the entry up among those before it.
    LookUp,
    /// Add the entry to those.
    Add,
    /// Tell what the entry is.
    Classify,
    /// Check an `ArrayBuffer`.
    ArrayBuffer,
    /// Check a host object.
    HostObject,
    /// Give a host object its number.
    Number(usize),
    /// Serialize the value.
    Graph,
    /// Take the bytes out of the serializer.
    Release,
    /// Check an `ArrayBuffer` again.
    RecheckArrayBuffer,
    /// Detach an `ArrayBuffer`.
    Detach,
    /// Check a host object again.
    RecheckHostObject,
    /// Transfer a host object.
    Transfer,
    /// The result is complete.
    Finished,
    /// There is no result.
    Failed(Failure<E>),
}

/// What the serialization needs to go on.
#[derive(Clone, Copy, Debug, PartialEq, Eq, Structural)]
pub enum SerializationRequest {
    /// Look up whether the entry is among those that were added.
    HasSeen { entry: usize },
    /// Add the entry.
    AddSeen { entry: usize },
    /// Tell what the entry is.
    Classify { entry: usize },
    /// Tell whether the `ArrayBuffer` is detached.
    WasDetached { entry: usize },
    /// Check that the host object can be transferred.
    ValidateHostObject { entry: usize },
    /// Remember the number of the host object.
    NumberHostObject { entry: usize, transfer_id: u32 },
    /// Write the prologue and V8's header, announce the numbered `ArrayBuffer`s,
    /// and write the value.
    WriteGraph,
    /// Take the bytes out of the serializer.
    Release,
    /// Tell whether the `ArrayBuffer` is detached and whether it can be.
    DetachState { entry: usize },
    /// Take the backing store of the `ArrayBuffer` and detach it.
    Detach { entry: usize },
    /// Run the transfer steps of the host object.
    TransferHostObject { entry: usize },
    /// Nothing: the outcome is known.
    Finished,
}

/// The reply to a request.
#[derive(Debug, PartialEq, Eq)]
#[allow(inconsistent_fields)]
pub enum SerializationReply<B, T, E> {
    Seen(Option<bool>),
    Added(bool),
    Kind(TransferKind),
    Detached(bool),
    Validated(Result<bool, E>),
    Numbered(bool),
    Written(WriteOutcome),
    Released(Vec<u8>),
    DetachState { detached: bool, detachable: bool },
    BackingStore { store: B, detached: Option<bool> },
    Transferred(Result<T, E>),
}

/// Where a serialization stands.
#[verifier::ext_equal]
pub ghost struct SerializationView<B, T, E> {
    /// The length of the transfer list.
    pub transfer_count: nat,
    /// The kind of the value.
    pub kind: ValueKind,
    /// The envelope that is written, `None` for V8's data alone.
    pub envelope: Option<EnvelopeFormat>,
    /// The version in the envelope.
    pub version: u32,
    /// What the entries are that passed validation.
    pub prepared: Seq<PreparedTransfer>,
    pub serialized: Seq<u8>,
    pub holders: Seq<StructuredCloneTransferData<B, T>>,
    pub stage: SerializationStage<E>,
}

/// The places of the entries of one sort, in order.
pub open spec fn places(prepared: Seq<PreparedTransfer>, sort: PreparedTransfer) -> Seq<nat>
    decreases prepared.len(),
{
    if prepared.len() == 0 {
        Seq::empty()
    } else if prepared.last() == sort {
        places(prepared.drop_last(), sort).push((prepared.len() - 1) as nat)
    } else {
        places(prepared.drop_last(), sort)
    }
}

/// The number of the `index`th `ArrayBuffer`: `index`, cut to 32 bits.
pub open spec fn buffer_id(index: int) -> u32 {
    (index % 0x1_0000_0000) as u32
}

impl<B, T, E> SerializationView<B, T, E> {
    /// The same with another next step.
    pub open spec fn at(self, stage: SerializationStage<E>) -> Self {
        SerializationView { stage, ..self }
    }

    /// The end of the serialization in a failure.
    pub open spec fn failed(self, error: CloneError) -> Self {
        self.at(SerializationStage::Failed(Failure::Clone(error)))
    }

    /// The places of the host objects.
    pub open spec fn host_objects(self) -> Seq<nat> {
        places(self.prepared, PreparedTransfer::HostObject)
    }

    /// Goes on with the entry after those that passed, or with the value after
    /// the last.
    pub open spec fn next_entry(self) -> Self {
        if self.prepared.len() < self.transfer_count {
            self.at(SerializationStage::LookUp)
        } else if self.kind is Symbol {
            self.failed(CloneError::Symbol)
        } else {
            self.next_number(0)
        }
    }

    /// Goes on with the number of the host object at `index`, or with the value
    /// after the last.
    pub open spec fn next_number(self, index: nat) -> Self {
        if index >= self.host_objects().len() {
            self.at(SerializationStage::Graph)
        } else if index <= u32::MAX {
            self.at(SerializationStage::Number(index as usize))
        } else {
            self.failed(CloneError::TooManyHostObjects)
        }
    }

    /// Goes on with the transfer after those that were done, if there is one.
    pub open spec fn next_transfer(self) -> Self {
        if self.holders.len() >= self.prepared.len() {
            self.at(SerializationStage::Finished)
        } else {
            match self.prepared[self.holders.len() as int] {
                PreparedTransfer::ArrayBuffer => self.at(SerializationStage::RecheckArrayBuffer),
                PreparedTransfer::HostObject => self.at(SerializationStage::RecheckHostObject),
            }
        }
    }

    /// Takes an entry up among those that passed.
    pub open spec fn accept(self, sort: PreparedTransfer) -> Self {
        SerializationView { prepared: self.prepared.push(sort), ..self }.next_entry()
    }

    /// Takes the data of a transferred object.
    pub open spec fn receive(self, data: StructuredCloneTransferData<B, T>) -> Self {
        SerializationView { holders: self.holders.push(data), ..self }.next_transfer()
    }

    /// Whether `reply` answers what is asked.
    pub open spec fn accepts(self, reply: SerializationReply<B, T, E>) -> bool {
        match self.stage {
            SerializationStage::LookUp => reply is Seen,
            SerializationStage::Add => reply is Added,
            SerializationStage::Classify => reply is Kind,
            SerializationStage::ArrayBuffer => reply is Detached,
            SerializationStage::HostObject => reply is Validated,
            SerializationStage::Number(_) => reply is Numbered,
            SerializationStage::Graph => reply is Written,
            SerializationStage::Release => reply is Released,
            SerializationStage::RecheckArrayBuffer => reply is DetachState,
            SerializationStage::Detach => reply is BackingStore,
            SerializationStage::RecheckHostObject => reply is Validated,
            SerializationStage::Transfer => reply is Transferred,
            SerializationStage::Finished | SerializationStage::Failed(_) => false,
        }
    }

    /// Where the serialization goes from here.
    pub open spec fn after(self, reply: SerializationReply<B, T, E>) -> Self {
        match (self.stage, reply) {
            (SerializationStage::LookUp, SerializationReply::Seen(seen)) => {
                if seen == Some(true) {
                    self.failed(CloneError::DuplicateTransfer)
                } else {
                    self.at(SerializationStage::Add)
                }
            },
            (SerializationStage::Add, SerializationReply::Added(added)) => if added {
                self.at(SerializationStage::Classify)
            } else {
                self.failed(CloneError::UnindexedTransferList)
            },
            (SerializationStage::Classify, SerializationReply::Kind(kind)) => match kind {
                TransferKind::ArrayBuffer => self.at(SerializationStage::ArrayBuffer),
                TransferKind::Object => self.at(SerializationStage::HostObject),
                TransferKind::Other => self.failed(CloneError::NotTransferable),
            },
            (SerializationStage::ArrayBuffer, SerializationReply::Detached(detached)) => {
                if detached {
                    self.failed(CloneError::DetachedArrayBuffer)
                } else {
                    self.accept(PreparedTransfer::ArrayBuffer)
                }
            },
            (SerializationStage::HostObject, SerializationReply::Validated(valid)) => match valid {
                Ok(true) => self.accept(PreparedTransfer::HostObject),
                Ok(false) => self.failed(CloneError::NotTransferable),
                Err(error) => self.at(SerializationStage::Failed(Failure::Host(error))),
            },
            (SerializationStage::Number(index), SerializationReply::Numbered(numbered)) => {
                if numbered {
                    self.next_number((index + 1) as nat)
                } else {
                    self.failed(CloneError::UnindexedHostObject)
                }
            },
            (SerializationStage::Graph, SerializationReply::Written(outcome)) => {
                if outcome.caught || outcome.terminated {
                    self.at(SerializationStage::Finished)
                } else if outcome.written == Some(true) {
                    self.at(SerializationStage::Release)
                } else {
                    self.failed(CloneError::SerializationFailed)
                }
            },
            (SerializationStage::Release, SerializationReply::Released(bytes)) => {
                let released = SerializationView { serialized: bytes@, ..self };
                if bytes@.len() == 0 {
                    released.at(SerializationStage::Finished)
                } else {
                    released.next_transfer()
                }
            },
            (
                SerializationStage::RecheckArrayBuffer,
                SerializationReply::DetachState { detached, detachable },
            ) => if detached || !detachable {
                self.failed(CloneError::ArrayBufferChanged)
            } else {
                self.at(SerializationStage::Detach)
            },
            (
                SerializationStage::Detach,
                SerializationReply::BackingStore { store, detached },
            ) => if detached == Some(true) {
                self.receive(StructuredCloneTransferData::ArrayBuffer(store))
            } else {
                self.failed(CloneError::ArrayBufferNotDetached)
            },
            (SerializationStage::RecheckHostObject, SerializationReply::Validated(valid)) => {
                match valid {
                    Ok(true) => self.at(SerializationStage::Transfer),
                    Ok(false) => self.failed(CloneError::HostObjectChanged),
                    Err(error) => self.at(SerializationStage::Failed(Failure::Host(error))),
                }
            },
            (SerializationStage::Transfer, SerializationReply::Transferred(data)) => match data {
                Ok(data) => self.receive(StructuredCloneTransferData::HostObject(data)),
                Err(error) => self.at(SerializationStage::Failed(Failure::Host(error))),
            },
            _ => self,
        }
    }
}

/// What is written before V8's header.
pub open spec fn envelope_prologue(envelope: Option<EnvelopeFormat>, version: u32) -> Seq<u8> {
    match envelope {
        Some(format) => prologue(format.marker(), version),
        None => Seq::empty(),
    }
}

/// Where a serialization starts.
pub open spec fn serialization_start<B, T, E>(
    kind: ValueKind,
    transfer_count: nat,
    envelope: Option<EnvelopeFormat>,
    version: u32,
) -> SerializationView<B, T, E> {
    SerializationView {
        transfer_count,
        kind,
        envelope,
        version,
        prepared: Seq::empty(),
        serialized: Seq::empty(),
        holders: Seq::empty(),
        stage: SerializationStage::LookUp,
    }.next_entry()
}

/// Whether data is what an object of the given sort leaves behind.
pub open spec fn is_data_of<B, T>(
    sort: PreparedTransfer,
    data: StructuredCloneTransferData<B, T>,
) -> bool {
    match sort {
        PreparedTransfer::ArrayBuffer => data is ArrayBuffer,
        PreparedTransfer::HostObject => data is HostObject,
    }
}

impl<B, T, E> SerializationView<B, T, E> {
    /// What holds of every serialization. Before the whole list has passed and
    /// the value is serialized, nothing is transferred; a complete result holds
    /// the data of every entry, in order.
    pub open spec fn inv(self) -> bool {
        let untouched = self.serialized.len() == 0 && self.holders.len() == 0;
        let validated = self.prepared.len() == self.transfer_count;
        let transferring = validated && self.serialized.len() > 0 && self.holders.len()
            < self.prepared.len();
        &&& self.prepared.len() <= self.transfer_count
        &&& self.holders.len() <= self.prepared.len()
        &&& forall|i: int|
            0 <= i < self.holders.len() ==> is_data_of(self.prepared[i], #[trigger] self.holders[i])
        &&& match self.stage {
            SerializationStage::LookUp
            | SerializationStage::Add
            | SerializationStage::Classify
            | SerializationStage::ArrayBuffer
            | SerializationStage::HostObject => untouched && !validated,
            SerializationStage::Number(index) => untouched && validated && index
                < self.host_objects().len() && index <= u32::MAX,
            SerializationStage::Graph | SerializationStage::Release => untouched && validated,
            SerializationStage::RecheckArrayBuffer | SerializationStage::Detach => transferring
                && self.prepared[self.holders.len() as int] is ArrayBuffer,
            SerializationStage::RecheckHostObject | SerializationStage::Transfer => transferring
                && self.prepared[self.holders.len() as int] is HostObject,
            SerializationStage::Finished => validated && (untouched || self.serialized.len() > 0
                && self.holders.len() == self.prepared.len()),
            SerializationStage::Failed(_) => true,
        }
    }
}

/// The places of one sort rise, hold that sort, and leave no entry of it out.
pub proof fn lemma_places(prepared: Seq<PreparedTransfer>, sort: PreparedTransfer)
    ensures
        places(prepared, sort).len() <= prepared.len(),
        forall|k: int|
            0 <= k < places(prepared, sort).len() ==> #[trigger] places(prepared, sort)[k]
                < prepared.len() && prepared[places(prepared, sort)[k] as int] == sort,
        forall|j: int, k: int|
            0 <= j < k < places(prepared, sort).len() ==> #[trigger] places(prepared, sort)[j]
                < #[trigger] places(prepared, sort)[k],
        forall|e: int|
            0 <= e < prepared.len() && #[trigger] prepared[e] == sort ==> exists|k: int|
                0 <= k < places(prepared, sort).len() && #[trigger] places(prepared, sort)[k] == e,
    decreases prepared.len(),
{
    if prepared.len() > 0 {
        let before = prepared.drop_last();
        lemma_places(before, sort);
        let found = places(prepared, sort);
        assert forall|e: int|
            0 <= e < prepared.len() && #[trigger] prepared[e] == sort implies exists|k: int|
            0 <= k < found.len() && #[trigger] found[k] == e by {
            if e < before.len() {
                assert(before[e] == sort);
                let k = choose|k: int|
                    0 <= k < places(before, sort).len() && #[trigger] places(before, sort)[k] == e;
                assert(found[k] == e);
            } else {
                assert(found[found.len() - 1] == e);
            }
        }
    }
}

/// A serialization under way.
pub struct StructuredSerialization<B, T, E> {
    transfer_count: usize,
    kind: ValueKind,
    envelope: Option<EnvelopeFormat>,
    version: u32,
    prepared: Vec<PreparedTransfer>,
    array_buffers: Vec<(u32, usize)>,
    host_objects: Vec<usize>,
    serialized: Vec<u8>,
    holders: Vec<StructuredCloneTransferData<B, T>>,
    stage: SerializationStage<E>,
}

impl<B, T, E> View for StructuredSerialization<B, T, E> {
    type V = SerializationView<B, T, E>;

    closed spec fn view(&self) -> SerializationView<B, T, E> {
        SerializationView {
            transfer_count: self.transfer_count as nat,
            kind: self.kind,
            envelope: self.envelope,
            version: self.version,
            prepared: self.prepared@,
            serialized: self.serialized@,
            holders: self.holders@,
            stage: self.stage,
        }
    }
}

impl<B, T, E> StructuredSerialization<B, T, E> {
    spec fn lists_match(self) -> bool {
        let buffers = places(self.prepared@, PreparedTransfer::ArrayBuffer);
        let objects = places(self.prepared@, PreparedTransfer::HostObject);
        &&& self.array_buffers@.len() == buffers.len()
        &&& forall|k: int|
            0 <= k < buffers.len() ==> (#[trigger] self.array_buffers@[k]).0 == buffer_id(k)
                && self.array_buffers@[k].1 == buffers[k]
        &&& self.host_objects@.len() == objects.len()
        &&& forall|k: int|
            0 <= k < objects.len() ==> #[trigger] self.host_objects@[k] == objects[k]
    }

    /// What holds between two calls.
    pub closed spec fn wf(self) -> bool {
        self@.inv() && self.lists_match()
    }

    /// What holds of the view of a serialization.
    pub proof fn lemma_wf(self)
        requires
            self.wf(),
        ensures
            self@.inv(),
    {
    }

    /// Starts the serialization of a value of the given kind, with a transfer
    /// list of `transfer_count` entries.
    pub fn new(
        kind: ValueKind,
        transfer_count: usize,
        envelope: Option<EnvelopeFormat>,
        version: u32,
    ) -> (serialization: Self)
        ensures
            serialization.wf(),
            serialization@ == serialization_start::<B, T, E>(
                kind,
                transfer_count as nat,
                envelope,
                version,
            ),
    {
        let mut serialization = StructuredSerialization {
            transfer_count,
            kind,
            envelope,
            version,
            prepared: Vec::new(),
            array_buffers: Vec::new(),
            host_objects: Vec::new(),
            serialized: Vec::new(),
            holders: Vec::new(),
            stage: SerializationStage::LookUp,
        };
        serialization.next_entry();
        serialization
    }

    fn next_entry(&mut self)
        requires
            old(self).lists_match(),
            old(self).prepared@.len() <= old(self).transfer_count,
            old(self).serialized@.len() == 0,
            old(self).holders@.len() == 0,
        ensures
            final(self).wf(),
            final(self)@ == old(self)@.next_entry(),
    {
        if self.prepared.len() < self.transfer_count {
            self.stage = SerializationStage::LookUp;
        } else if self.kind == ValueKind::Symbol {
            self.stage = SerializationStage::Failed(Failure::Clone(CloneError::Symbol));
        } else {
            self.next_number(0);
        }
    }

    fn next_number(&mut self, index: usize)
        requires
            old(self).lists_match(),
            old(self).prepared@.len() == old(self).transfer_count,
            old(self).serialized@.len() == 0,
            old(self).holders@.len() == 0,
        ensures
            final(self).wf(),
            final(self)@ == old(self)@.next_number(index as nat),
    {
        if index >= self.host_objects.len() {
            self.stage = SerializationStage::Graph;
        } else if index as u64 <= u32::MAX as u64 {
            self.stage = SerializationStage::Number(index);
        } else {
            self.stage = SerializationStage::Failed(
                Failure::Clone(CloneError::TooManyHostObjects),
            );
        }
    }

    fn next_transfer(&mut self)
        requires
            old(self).lists_match(),
            old(self).prepared@.len() == old(self).transfer_count,
            old(self).serialized@.len() > 0,
            old(self).holders@.len() <= old(self).prepared@.len(),
            forall|i: int|
                0 <= i < old(self).holders@.len() ==> is_data_of(
                    old(self).prepared@[i],
                    #[trigger] old(self).holders@[i],
                ),
        ensures
            final(self).wf(),
            final(self)@ == old(self)@.next_transfer(),
    {
        if self.holders.len() >= self.prepared.len() {
            self.stage = SerializationStage::Finished;
        } else {
            match self.prepared[self.holders.len()] {
                PreparedTransfer::ArrayBuffer => {
                    self.stage = SerializationStage::RecheckArrayBuffer;
                },
                PreparedTransfer::HostObject => {
                    self.stage = SerializationStage::RecheckHostObject;
                },
            }
        }
    }

    fn accept(&mut self, sort: PreparedTransfer)
        requires
            old(self).wf(),
            old(self)@.stage is ArrayBuffer || old(self)@.stage is HostObject,
        ensures
            final(self).wf(),
            final(self)@ == old(self)@.accept(sort),
    {
        let entry: usize = self.prepared.len();
        match sort {
            PreparedTransfer::ArrayBuffer => {
                let count: u64 = self.array_buffers.len() as u64;
                self.array_buffers.push(((count % 0x1_0000_0000) as u32, entry));
            },
            PreparedTransfer::HostObject => {
                self.host_objects.push(entry);
            },
        }
        self.prepared.push(sort);
        assert(self.prepared@.drop_last() == old(self).prepared@);
        self.next_entry();
    }

    fn fail(&mut self, error: CloneError)
        requires
            old(self).wf(),
        ensures
            final(self).wf(),
            final(self)@ == old(self)@.failed(error),
    {
        self.stage = SerializationStage::Failed(Failure::Clone(error));
    }

    /// The step that comes next.
    pub fn request(&self) -> (request: SerializationRequest)
        requires
            self.wf(),
        ensures
            request_of(self@, request),
    {
        proof {
            lemma_places(self.prepared@, PreparedTransfer::HostObject);
        }
        match self.stage {
            SerializationStage::LookUp => SerializationRequest::HasSeen {
                entry: self.prepared.len(),
            },
            SerializationStage::Add => SerializationRequest::AddSeen {
                entry: self.prepared.len(),
            },
            SerializationStage::Classify => SerializationRequest::Classify {
                entry: self.prepared.len(),
            },
            SerializationStage::ArrayBuffer => SerializationRequest::WasDetached {
                entry: self.prepared.len(),
            },
            SerializationStage::HostObject => SerializationRequest::ValidateHostObject {
                entry: self.prepared.len(),
            },
            SerializationStage::Number(index) => SerializationRequest::NumberHostObject {
                entry: self.host_objects[index],
                transfer_id: index as u32,
            },
            SerializationStage::Graph => SerializationRequest::WriteGraph,
            SerializationStage::Release => SerializationRequest::Release,
            SerializationStage::RecheckArrayBuffer => SerializationRequest::DetachState {
                entry: self.holders.len(),
            },
            SerializationStage::Detach => SerializationRequest::Detach {
                entry: self.holders.len(),
            },
            SerializationStage::RecheckHostObject => SerializationRequest::ValidateHostObject {
                entry: self.holders.len(),
            },
            SerializationStage::Transfer => SerializationRequest::TransferHostObject {
                entry: self.holders.len(),
            },
            SerializationStage::Finished
            | SerializationStage::Failed(_) => SerializationRequest::Finished,
        }
    }

    /// Goes on with the reply to the request.
    pub fn resume(&mut self, reply: SerializationReply<B, T, E>)
        requires
            old(self).wf(),
            old(self)@.accepts(reply),
        ensures
            final(self).wf(),
            final(self)@ == old(self)@.after(reply),
    {
        match reply {
            SerializationReply::Seen(seen) => {
                if matches!(seen, Some(true)) {
                    self.fail(CloneError::DuplicateTransfer);
                } else {
                    self.stage = SerializationStage::Add;
                }
            },
            SerializationReply::Added(added) => {
                if added {
                    self.stage = SerializationStage::Classify;
                } else {
                    self.fail(CloneError::UnindexedTransferList);
                }
            },
            SerializationReply::Kind(TransferKind::ArrayBuffer) => {
                self.stage = SerializationStage::ArrayBuffer;
            },
            SerializationReply::Kind(TransferKind::Object) => {
                self.stage = SerializationStage::HostObject;
            },
            SerializationReply::Kind(TransferKind::Other) => {
                self.fail(CloneError::NotTransferable);
            },
            SerializationReply::Detached(detached) => {
                if detached {
                    self.fail(CloneError::DetachedArrayBuffer);
                } else {
                    self.accept(PreparedTransfer::ArrayBuffer);
                }
            },
            SerializationReply::Validated(valid) => {
                self.resume_validated(valid);
            },
            SerializationReply::Numbered(numbered) => {
                proof {
                    lemma_places(self.prepared@, PreparedTransfer::HostObject);
                }
                if let SerializationStage::Number(index) = self.stage {
                    if numbered {
                        self.next_number(index + 1);
                    } else {
                        self.fail(CloneError::UnindexedHostObject);
                    }
                }
            },
            SerializationReply::Written(outcome) => {
                if outcome.caught || outcome.terminated {
                    self.stage = SerializationStage::Finished;
                } else if matches!(outcome.written, Some(true)) {
                    self.stage = SerializationStage::Release;
                } else {
                    self.fail(CloneError::SerializationFailed);
                }
            },
            SerializationReply::Released(bytes) => {
                let empty: bool = bytes.len() == 0;
                self.serialized = bytes;
                if empty {
                    self.stage = SerializationStage::Finished;
                } else {
                    self.next_transfer();
                }
            },
            SerializationReply::DetachState { detached, detachable } => {
                if detached || !detachable {
                    self.fail(CloneError::ArrayBufferChanged);
                } else {
                    self.stage = SerializationStage::Detach;
                }
            },
            SerializationReply::BackingStore { store, detached } => {
                if matches!(detached, Some(true)) {
                    self.holders.push(StructuredCloneTransferData::ArrayBuffer(store));
                    self.next_transfer();
                } else {
                    self.fail(CloneError::ArrayBufferNotDetached);
                }
            },
            SerializationReply::Transferred(Ok(data)) => {
                self.holders.push(StructuredCloneTransferData::HostObject(data));
                self.next_transfer();
            },
            SerializationReply::Transferred(Err(error)) => {
                self.stage = SerializationStage::Failed(Failure::Host(error));
            },
        }
    }

    /// Goes on with the outcome of a check of a host object.
    fn resume_validated(&mut self, valid: Result<bool, E>)
        requires
            old(self).wf(),
            old(self)@.stage is HostObject || old(self)@.stage is RecheckHostObject,
        ensures
            final(self).wf(),
            final(self)@ == old(self)@.after(SerializationReply::Validated(valid)),
    {
        let first: bool = matches!(self.stage, SerializationStage::HostObject);
        match valid {
            Ok(true) => {
                if first {
                    self.accept(PreparedTransfer::HostObject);
                } else {
                    self.stage = SerializationStage::Transfer;
                }
            },
            Ok(false) => {
                if first {
                    self.fail(CloneError::NotTransferable);
                } else {
                    self.fail(CloneError::HostObjectChanged);
                }
            },
            Err(error) => {
                self.stage = SerializationStage::Failed(Failure::Host(error));
            },
        }
    }

    /// The envelope that is written, `None` for V8's data alone.
    pub fn envelope(&self) -> (envelope: Option<EnvelopeFormat>)
        ensures
            envelope == self@.envelope,
    {
        self.envelope
    }

    /// The version in the envelope.
    pub fn wire_format_version(&self) -> (version: u32)
        ensures
            version == self@.version,
    {
        self.version
    }

    /// What to write before V8's header.
    pub fn prologue(&self) -> (bytes: Vec<u8>)
        ensures
            bytes@ == envelope_prologue(self@.envelope, self@.version),
    {
        match self.envelope {
            Some(format) => format.write(self.version),
            None => Vec::new(),
        }
    }

    /// The numbers and places of the `ArrayBuffer`s to announce to V8.
    pub fn array_buffers(&self) -> (buffers: &[(u32, usize)])
        requires
            self.wf(),
        ensures
            buffers@.len() == places(self@.prepared, PreparedTransfer::ArrayBuffer).len(),
            forall|k: int|
                0 <= k < buffers@.len() ==> (#[trigger] buffers@[k]).0 == buffer_id(k)
                    && buffers@[k].1 == places(self@.prepared, PreparedTransfer::ArrayBuffer)[k],
    {
        self.array_buffers.as_slice()
    }

    /// The outcome of a serialization that needs nothing more.
    pub fn finish(self) -> (outcome: Result<
        StructuredSerializeWithTransferResult<B, T>,
        Failure<E>,
    >)
        requires
            self.wf(),
            self@.stage is Finished || self@.stage is Failed,
        ensures
            match self@.stage {
                SerializationStage::Failed(failure) => outcome == Err::<
                    StructuredSerializeWithTransferResult<B, T>,
                    Failure<E>,
                >(failure),
                _ => outcome matches Ok(result) && result.serialized@ == self@.serialized
                    && result.transfer_data_holders@ == self@.holders,
            },
    {
        match self.stage {
            SerializationStage::Failed(failure) => Err(failure),
            _ => Ok(
                StructuredSerializeWithTransferResult {
                    serialized: self.serialized,
                    transfer_data_holders: self.holders,
                },
            ),
        }
    }
}

/// Whether `request` is the step that comes next.
pub open spec fn request_of<B, T, E>(
    state: SerializationView<B, T, E>,
    request: SerializationRequest,
) -> bool {
    match state.stage {
        SerializationStage::LookUp => {
            request matches SerializationRequest::HasSeen { entry } && entry == state.prepared.len()
        },
        SerializationStage::Add => {
            request matches SerializationRequest::AddSeen { entry } && entry == state.prepared.len()
        },
        SerializationStage::Classify => {
            request matches SerializationRequest::Classify { entry } && entry
                == state.prepared.len()
        },
        SerializationStage::ArrayBuffer => {
            request matches SerializationRequest::WasDetached { entry } && entry
                == state.prepared.len()
        },
        SerializationStage::HostObject => {
            request matches SerializationRequest::ValidateHostObject { entry } && entry
                == state.prepared.len()
        },
        SerializationStage::Number(index) => {
            request matches SerializationRequest::NumberHostObject { entry, transfer_id } && entry
                == state.host_objects()[index as int] && transfer_id == index
        },
        SerializationStage::Graph => request is WriteGraph,
        SerializationStage::Release => request is Release,
        SerializationStage::RecheckArrayBuffer => {
            request matches SerializationRequest::DetachState { entry } && entry
                == state.holders.len()
        },
        SerializationStage::Detach => {
            request matches SerializationRequest::Detach { entry } && entry == state.holders.len()
        },
        SerializationStage::RecheckHostObject => {
            request matches SerializationRequest::ValidateHostObject { entry } && entry
                == state.holders.len()
        },
        SerializationStage::Transfer => {
            request matches SerializationRequest::TransferHostObject { entry } && entry
                == state.holders.len()
        },
        SerializationStage::Finished | SerializationStage::Failed(_) => request is Finished,
    }
}

/// Starts the serialization of a value of the given kind, to bytes of the given
/// version. Every value that can be serialized comes to bytes, a plain one too,
/// so that the bytes can be stored or handed to another isolate.
pub fn structured_serialize_internal<B, T, E>(kind: ValueKind, version: u32) -> (serialization:
    StructuredSerialization<B, T, E>)
    ensures
        serialization.wf(),
        serialization@ == serialization_start::<B, T, E>(
            kind,
            0,
            Some(EnvelopeFormat::Magic),
            version,
        ),
{
    structured_serialize_with_transfer(kind, 0, version)
}

/// Starts the serialization of a value of the given kind, with a transfer list
/// of `transfer_count` entries, to bytes of the given version.
pub fn structured_serialize_with_transfer<B, T, E>(
    kind: ValueKind,
    transfer_count: usize,
    version: u32,
) -> (serialization: StructuredSerialization<B, T, E>)
    ensures
        serialization.wf(),
        serialization@ == serialization_start::<B, T, E>(
            kind,
            transfer_count as nat,
            Some(EnvelopeFormat::Magic),
            version,
        ),
{
    StructuredSerialization::new(kind, transfer_count, Some(EnvelopeFormat::Magic), version)
}

} // verus!
