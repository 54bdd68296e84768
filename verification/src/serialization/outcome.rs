//! What serializing and deserializing with transfers come to, as a whole.

use vstd::prelude::*;

use crate::serialization::deserialize::{
    deserialization_start, opened_data, sort_of, DeserializationReply, DeserializationStage,
    DeserializationView,
};
use crate::serialization::envelope::{lemma_opened_prologue, EnvelopeFormat};
use crate::serialization::error::{CloneError, Failure};
use crate::serialization::serialize::{
    envelope_prologue, is_data_of, places, serialization_start, PreparedTransfer,
    SerializationReply, SerializationStage, SerializationView, StructuredCloneTransferData,
    TransferKind, WriteOutcome,
};
use crate::value::ValueKind;

verus! {

/// What the requests of one serialization are answered with. The functions take
/// the place of an entry in the transfer list.
pub ghost struct SerializationAnswers<B, T, E> {
    /// Whether the entry is among those before it.
    pub seen: spec_fn(nat) -> Option<bool>,
    /// Whether the entry could be added to those.
    pub added: spec_fn(nat) -> bool,
    /// What the entry is.
    pub kind: spec_fn(nat) -> TransferKind,
    /// Whether the entry is detached before the value is serialized.
    pub detached: spec_fn(nat) -> bool,
    /// The check of the entry before the value is serialized.
    pub valid: spec_fn(nat) -> Result<bool, E>,
    /// Whether the entry could be given its number.
    pub numbered: spec_fn(nat) -> bool,
    /// How V8 fared.
    pub outcome: WriteOutcome,
    /// What V8 wrote.
    pub bytes: Vec<u8>,
    /// Whether the entry is detached after the value was serialized.
    pub detached_later: spec_fn(nat) -> bool,
    /// Whether the entry can be detached then.
    pub detachable: spec_fn(nat) -> bool,
    /// The backing store of the entry.
    pub store: spec_fn(nat) -> B,
    /// Whether the entry could be detached.
    pub detaching: spec_fn(nat) -> Option<bool>,
    /// The check of the entry after the value was serialized.
    pub valid_later: spec_fn(nat) -> Result<bool, E>,
    /// What the transfer steps of the entry came to.
    pub transferred: spec_fn(nat) -> Result<T, E>,
}

impl<B, T, E> SerializationAnswers<B, T, E> {
    /// The reply to what `state` asks.
    pub open spec fn reply(self, state: SerializationView<B, T, E>) -> SerializationReply<B, T, E> {
        let entry = state.prepared.len();
        let transfer = state.holders.len();
        match state.stage {
            SerializationStage::LookUp => SerializationReply::Seen((self.seen)(entry)),
            SerializationStage::Add => SerializationReply::Added((self.added)(entry)),
            SerializationStage::Classify => SerializationReply::Kind((self.kind)(entry)),
            SerializationStage::ArrayBuffer => {
                SerializationReply::Detached((self.detached)(entry))
            },
            SerializationStage::HostObject => SerializationReply::Validated((self.valid)(entry)),
            SerializationStage::Number(index) => {
                SerializationReply::Numbered((self.numbered)(state.host_objects()[index as int]))
            },
            SerializationStage::Graph => SerializationReply::Written(self.outcome),
            SerializationStage::Release => SerializationReply::Released(self.bytes),
            SerializationStage::RecheckArrayBuffer => SerializationReply::DetachState {
                detached: (self.detached_later)(transfer),
                detachable: (self.detachable)(transfer),
            },
            SerializationStage::Detach => SerializationReply::BackingStore {
                store: (self.store)(transfer),
                detached: (self.detaching)(transfer),
            },
            SerializationStage::RecheckHostObject => {
                SerializationReply::Validated((self.valid_later)(transfer))
            },
            _ => SerializationReply::Transferred((self.transferred)(transfer)),
        }
    }

    /// Why the entry is refused before anything is serialized, if it is.
    pub open spec fn refusal(self, entry: nat) -> Option<Failure<E>> {
        if (self.seen)(entry) == Some(true) {
            Some(Failure::Clone(CloneError::DuplicateTransfer))
        } else if !(self.added)(entry) {
            Some(Failure::Clone(CloneError::UnindexedTransferList))
        } else {
            match (self.kind)(entry) {
                TransferKind::ArrayBuffer => if (self.detached)(entry) {
                    Some(Failure::Clone(CloneError::DetachedArrayBuffer))
                } else {
                    None
                },
                TransferKind::Object => match (self.valid)(entry) {
                    Ok(true) => None,
                    Ok(false) => Some(Failure::Clone(CloneError::NotTransferable)),
                    Err(error) => Some(Failure::Host(error)),
                },
                TransferKind::Other => Some(Failure::Clone(CloneError::NotTransferable)),
            }
        }
    }

    /// Why the list is refused: the refusal of the first refused entry from
    /// `entry` on.
    pub open spec fn first_refusal(self, entry: nat, count: nat) -> Option<Failure<E>>
        decreases count - entry,
    {
        if entry >= count {
            None
        } else if self.refusal(entry) is Some {
            self.refusal(entry)
        } else {
            self.first_refusal(entry + 1, count)
        }
    }

    /// What a list is whose entries all pass.
    pub open spec fn sorts(self, count: nat) -> Seq<PreparedTransfer> {
        Seq::new(
            count,
            |i: int|
                if (self.kind)(i as nat) is ArrayBuffer {
                    PreparedTransfer::ArrayBuffer
                } else {
                    PreparedTransfer::HostObject
                },
        )
    }

    /// Why the host objects from `index` on cannot be numbered, if they cannot.
    pub open spec fn numbering_refusal(self, objects: Seq<nat>, index: nat) -> Option<Failure<E>>
        decreases objects.len() - index,
    {
        if index >= objects.len() {
            None
        } else if index > u32::MAX {
            Some(Failure::Clone(CloneError::TooManyHostObjects))
        } else if !(self.numbered)(objects[index as int]) {
            Some(Failure::Clone(CloneError::UnindexedHostObject))
        } else {
            self.numbering_refusal(objects, index + 1)
        }
    }

    /// The data that the entry leaves behind, or why there is none.
    pub open spec fn transfer(self, entry: nat) -> Result<
        StructuredCloneTransferData<B, T>,
        Failure<E>,
    > {
        if (self.kind)(entry) is ArrayBuffer {
            if (self.detached_later)(entry) || !(self.detachable)(entry) {
                Err(Failure::Clone(CloneError::ArrayBufferChanged))
            } else if (self.detaching)(entry) != Some(true) {
                Err(Failure::Clone(CloneError::ArrayBufferNotDetached))
            } else {
                Ok(StructuredCloneTransferData::ArrayBuffer((self.store)(entry)))
            }
        } else {
            match (self.valid_later)(entry) {
                Ok(true) => match (self.transferred)(entry) {
                    Ok(data) => Ok(StructuredCloneTransferData::HostObject(data)),
                    Err(error) => Err(Failure::Host(error)),
                },
                Ok(false) => Err(Failure::Clone(CloneError::HostObjectChanged)),
                Err(error) => Err(Failure::Host(error)),
            }
        }
    }

    /// The data of the entries from `entry` on, or why the first one that leaves
    /// none does not.
    pub open spec fn transfers(self, entry: nat, count: nat) -> Result<
        Seq<StructuredCloneTransferData<B, T>>,
        Failure<E>,
    >
        decreases count - entry,
    {
        if entry >= count {
            Ok(Seq::empty())
        } else {
            match (self.transfer(entry), self.transfers(entry + 1, count)) {
                (Err(failure), _) => Err(failure),
                (_, Err(failure)) => Err(failure),
                (Ok(data), Ok(rest)) => Ok(seq![data] + rest),
            }
        }
    }

    /// Why nothing is transferred, if nothing is: the whole list is validated
    /// first, then the value is serialized.
    pub open spec fn serialization_refusal(self, kind: ValueKind, count: nat) -> Option<
        Failure<E>,
    > {
        let objects = places(self.sorts(count), PreparedTransfer::HostObject);
        if self.first_refusal(0, count) is Some {
            self.first_refusal(0, count)
        } else if kind is Symbol {
            Some(Failure::Clone(CloneError::Symbol))
        } else if self.numbering_refusal(objects, 0) is Some {
            self.numbering_refusal(objects, 0)
        } else if !self.raised() && self.outcome.written != Some(true) {
            Some(Failure::Clone(CloneError::SerializationFailed))
        } else {
            None
        }
    }

    /// Whether V8 left an exception, or a termination, for the script to see.
    pub open spec fn raised(self) -> bool {
        self.outcome.caught || self.outcome.terminated
    }

    /// The bytes and the transfer data, or the failure. An exception that V8
    /// left for the script makes for an empty result.
    pub open spec fn result(self, kind: ValueKind, count: nat) -> Result<
        (Seq<u8>, Seq<StructuredCloneTransferData<B, T>>),
        Failure<E>,
    > {
        if let Some(failure) = self.serialization_refusal(kind, count) {
            Err(failure)
        } else if self.raised() || self.bytes@.len() == 0 {
            Ok((Seq::empty(), Seq::empty()))
        } else {
            match self.transfers(0, count) {
                Ok(holders) => Ok((self.bytes@, holders)),
                Err(failure) => Err(failure),
            }
        }
    }
}

/// The course of a serialization.
#[verifier::ext_equal]
pub ghost struct SerializationRun<B, T, E> {
    /// Where it ends.
    pub end: SerializationView<B, T, E>,
    /// The entries that were detached or transferred, in the order in which the
    /// embedder was asked to.
    pub touched: Seq<nat>,
}

/// How far `from` is below `to`.
pub open spec fn gap(from: nat, to: nat) -> nat {
    if from < to {
        (to - from) as nat
    } else {
        0
    }
}

/// Counts the sorts of steps that can follow.
pub open spec fn phase<B, T, E>(state: SerializationView<B, T, E>) -> nat {
    match state.stage {
        SerializationStage::LookUp
        | SerializationStage::Add
        | SerializationStage::Classify
        | SerializationStage::ArrayBuffer
        | SerializationStage::HostObject => 4,
        SerializationStage::Number(_) => 3,
        SerializationStage::Graph | SerializationStage::Release => 2,
        SerializationStage::Finished | SerializationStage::Failed(_) => 0,
        _ => 1,
    }
}

/// Counts the steps of the same sort that can follow.
pub open spec fn left<B, T, E>(state: SerializationView<B, T, E>) -> nat {
    match state.stage {
        SerializationStage::LookUp
        | SerializationStage::Add
        | SerializationStage::Classify
        | SerializationStage::ArrayBuffer
        | SerializationStage::HostObject => gap(state.prepared.len(), state.transfer_count),
        SerializationStage::Number(index) => gap(index as nat, 0x1_0000_0001),
        SerializationStage::Graph | SerializationStage::Release => 0,
        _ => gap(state.holders.len(), state.prepared.len()),
    }
}

/// Counts the steps that the entry at hand can need.
pub open spec fn substeps<B, T, E>(state: SerializationView<B, T, E>) -> nat {
    match state.stage {
        SerializationStage::LookUp => 3,
        SerializationStage::Add => 2,
        SerializationStage::Classify | SerializationStage::Graph => 1,
        SerializationStage::RecheckArrayBuffer | SerializationStage::RecheckHostObject => 1,
        _ => 0,
    }
}

/// The course of a serialization from `state` on whose requests are answered
/// with `answers`.
pub open spec fn run<B, T, E>(
    state: SerializationView<B, T, E>,
    answers: SerializationAnswers<B, T, E>,
) -> SerializationRun<B, T, E>
    decreases phase(state), left(state), substeps(state),
{
    if state.stage is Finished || state.stage is Failed {
        SerializationRun { end: state, touched: Seq::empty() }
    } else {
        let rest = run(state.after(answers.reply(state)), answers);
        if state.stage is Detach || state.stage is Transfer {
            SerializationRun { end: rest.end, touched: seq![state.holders.len()] + rest.touched }
        } else {
            rest
        }
    }
}

/// The bytes and the transfer data that a serialization ends with, or its
/// failure.
pub open spec fn ending<B, T, E>(end: SerializationView<B, T, E>) -> Result<
    (Seq<u8>, Seq<StructuredCloneTransferData<B, T>>),
    Failure<E>,
> {
    match end.stage {
        SerializationStage::Failed(failure) => Err(failure),
        _ => Ok((end.serialized, end.holders)),
    }
}

/// `len` numbers in a row.
pub open spec fn consecutive(from: nat, len: nat) -> Seq<nat> {
    Seq::new(len, |i: int| (from + i) as nat)
}

proof fn lemma_step<B, T, E>(
    state: SerializationView<B, T, E>,
    answers: SerializationAnswers<B, T, E>,
)
    ensures
        state.stage is Finished || state.stage is Failed ==> run(state, answers) == (
        SerializationRun { end: state, touched: Seq::empty() }),
        phase(state) >= 2 || state.stage is RecheckArrayBuffer || state.stage is RecheckHostObject
            ==> run(state, answers) == run(state.after(answers.reply(state)), answers),
{
}

proof fn lemma_entries<B, T, E>(
    state: SerializationView<B, T, E>,
    answers: SerializationAnswers<B, T, E>,
)
    requires
        state.prepared.len() <= state.transfer_count,
        state.prepared == answers.sorts(state.prepared.len()),
    ensures
        match answers.first_refusal(state.prepared.len(), state.transfer_count) {
            Some(failure) => {
                let course = run(state.next_entry(), answers);
                ending(course.end) == Err::<
                    (Seq<u8>, Seq<StructuredCloneTransferData<B, T>>),
                    Failure<E>,
                >(failure) && course.touched == Seq::<nat>::empty()
            },
            None => run(state.next_entry(), answers) == run(
                SerializationView {
                    prepared: answers.sorts(state.transfer_count),
                    ..state
                }.next_entry(),
                answers,
            ),
        },
    decreases state.transfer_count - state.prepared.len(),
{
    let entry = state.prepared.len();
    if entry < state.transfer_count {
        let looked_up = state.next_entry();
        let added = looked_up.after(answers.reply(looked_up));
        lemma_step(looked_up, answers);
        lemma_step(added, answers);
        if added.stage is Add {
            let classified = added.after(answers.reply(added));
            lemma_step(classified, answers);
            if classified.stage is Classify {
                let checked = classified.after(answers.reply(classified));
                lemma_step(checked, answers);
                let last = checked.after(answers.reply(checked));
                if answers.refusal(entry) is None {
                    let sort = answers.sorts(entry + 1)[entry as int];
                    let next = SerializationView { prepared: state.prepared.push(sort), ..state };
                    assert(next.prepared == answers.sorts(entry + 1));
                    assert(last == next.next_entry());
                    lemma_entries(next, answers);
                } else {
                    lemma_step(last, answers);
                }
            }
        }
    }
}

proof fn lemma_numbering<B, T, E>(
    state: SerializationView<B, T, E>,
    answers: SerializationAnswers<B, T, E>,
    index: nat,
)
    ensures
        match answers.numbering_refusal(state.host_objects(), index) {
            Some(failure) => {
                let course = run(state.next_number(index), answers);
                ending(course.end) == Err::<
                    (Seq<u8>, Seq<StructuredCloneTransferData<B, T>>),
                    Failure<E>,
                >(failure) && course.touched == Seq::<nat>::empty()
            },
            None => run(state.next_number(index), answers) == run(
                state.at(SerializationStage::Graph),
                answers,
            ),
        },
    decreases state.host_objects().len() - index,
{
    if index < state.host_objects().len() && index <= u32::MAX {
        let numbering = state.next_number(index);
        assert(numbering.host_objects() == state.host_objects());
        if (answers.numbered)(state.host_objects()[index as int]) {
            lemma_numbering(state, answers, index + 1);
            assert(numbering.after(answers.reply(numbering)) == state.next_number(index + 1));
        } else {
            reveal_with_fuel(run, 2);
        }
    }
}

proof fn lemma_transfers<B, T, E>(
    state: SerializationView<B, T, E>,
    answers: SerializationAnswers<B, T, E>,
)
    requires
        state.prepared == answers.sorts(state.prepared.len()),
        state.holders.len() <= state.prepared.len(),
    ensures
        ({
            let course = run(state.next_transfer(), answers);
            let done = state.holders.len();
            let count = state.prepared.len();
            &&& course.touched == consecutive(done, course.touched.len())
            &&& done + course.touched.len() <= count
            &&& match answers.transfers(done, count) {
                Ok(rest) => ending(course.end) == Ok::<
                    (Seq<u8>, Seq<StructuredCloneTransferData<B, T>>),
                    Failure<E>,
                >((state.serialized, state.holders + rest)) && done + course.touched.len() == count,
                Err(failure) => ending(course.end) == Err::<
                    (Seq<u8>, Seq<StructuredCloneTransferData<B, T>>),
                    Failure<E>,
                >(failure),
            }
        }),
    decreases state.prepared.len() - state.holders.len(),
{
    let entry = state.holders.len();
    let started = state.next_transfer();
    reveal_with_fuel(run, 4);
    if entry < state.prepared.len() {
        if let Ok(data) = answers.transfer(entry) {
            let next = SerializationView { holders: state.holders.push(data), ..state };
            lemma_transfers(next, answers);
            let going = started.after(answers.reply(started));
            assert(going.after(answers.reply(going)) == next.next_transfer());
            let course = run(started, answers);
            let rest = run(next.next_transfer(), answers);
            assert(course.touched == seq![entry] + rest.touched);
            assert(course.touched == consecutive(entry, course.touched.len()));
            if let Ok(later) = answers.transfers(entry + 1, state.prepared.len()) {
                assert(state.holders + (seq![data] + later) == next.holders + later);
            }
        }
    } else {
        assert(state.holders + Seq::<StructuredCloneTransferData<B, T>>::empty() == state.holders);
    }
}

/// A serialization ends with what its answers say. The first entry of the list
/// that is refused decides, then the value; an object is detached or transferred
/// only when the whole list has passed and V8 has serialized the value. The
/// entries are then taken in order, each of them once, up to the first that
/// fails, and their data stand in that order.
pub proof fn lemma_serialization_result<B, T, E>(
    kind: ValueKind,
    count: nat,
    envelope: Option<EnvelopeFormat>,
    version: u32,
    answers: SerializationAnswers<B, T, E>,
)
    ensures
        ({
            let start = serialization_start::<B, T, E>(kind, count, envelope, version);
            let course = run(start, answers);
            &&& ending(course.end) == answers.result(kind, count)
            &&& course.touched == consecutive(0, course.touched.len())
            &&& course.touched.len() <= count
            &&& answers.serialization_refusal(kind, count) is Some || answers.raised()
                ==> course.touched.len() == 0
            &&& answers.result(kind, count) matches Ok(result) ==> {
                ||| course.touched.len() == count && result.1.len() == count
                ||| result.0.len() == 0 && result.1.len() == 0 && course.touched.len() == 0
            }
        }),
{
    let fresh = SerializationView::<B, T, E> {
        transfer_count: count,
        kind,
        envelope,
        version,
        prepared: Seq::empty(),
        serialized: Seq::empty(),
        holders: Seq::empty(),
        stage: SerializationStage::LookUp,
    };
    assert(fresh.prepared == answers.sorts(0));
    lemma_entries(fresh, answers);
    let validated = SerializationView { prepared: answers.sorts(count), ..fresh };
    assert(consecutive(0, 0) == Seq::<nat>::empty());
    let objects = places(answers.sorts(count), PreparedTransfer::HostObject);
    assert(validated.host_objects() == objects);
    if answers.first_refusal(0, count) is None {
        if kind is Symbol {
            lemma_step(validated.next_entry(), answers);
        } else {
            lemma_numbering(validated, answers, 0);
            if answers.numbering_refusal(objects, 0) is None {
                let graph = validated.at(SerializationStage::Graph);
                let written = graph.after(answers.reply(graph));
                lemma_step(graph, answers);
                lemma_step(written, answers);
                if written.stage is Release {
                    let released = SerializationView { serialized: answers.bytes@, ..written };
                    if answers.bytes@.len() > 0 {
                        assert(written.after(answers.reply(written)) == released.next_transfer());
                        lemma_transfers(released, answers);
                        lemma_transfers_len(answers, 0, count);
                        if let Ok(holders) = answers.transfers(0, count) {
                            assert(released.holders + holders == holders);
                        }
                    } else {
                        lemma_step(written.after(answers.reply(written)), answers);
                        assert(answers.bytes@ == Seq::<u8>::empty());
                    }
                }
            }
        }
    }
}

proof fn lemma_transfers_len<B, T, E>(
    answers: SerializationAnswers<B, T, E>,
    entry: nat,
    count: nat,
)
    requires
        entry <= count,
    ensures
        answers.transfers(entry, count) matches Ok(holders) ==> holders.len() == count - entry,
    decreases count - entry,
{
    if entry < count {
        lemma_transfers_len(answers, entry + 1, count);
    }
}

/// What the requests of one deserialization are answered with.
pub ghost struct DeserializationAnswers<V, E> {
    /// What making the object at a place of the transfer list came to.
    pub received: spec_fn(nat) -> Result<V, E>,
    /// What reading V8's header came to.
    pub header: Option<bool>,
    /// What reading the value came to.
    pub value: Option<V>,
}

impl<V, E> DeserializationAnswers<V, E> {
    /// The reply to what `state` asks.
    pub open spec fn reply<B, T>(
        self,
        state: DeserializationView<B, T, V, E>,
    ) -> DeserializationReply<V, E> {
        match state.stage {
            DeserializationStage::Header => DeserializationReply::Header(self.header),
            DeserializationStage::Value => DeserializationReply::Value(self.value),
            _ => DeserializationReply::Received((self.received)(state.values.len())),
        }
    }

    /// The objects from `place` on, or why the first one that cannot be made is
    /// not.
    pub open spec fn objects(self, place: nat, count: nat) -> Result<Seq<V>, Failure<E>>
        decreases count - place,
    {
        if place >= count {
            Ok(Seq::empty())
        } else {
            match ((self.received)(place), self.objects(place + 1, count)) {
                (Err(error), _) => Err(Failure::Host(error)),
                (_, Err(failure)) => Err(failure),
                (Ok(value), Ok(rest)) => Ok(seq![value] + rest),
            }
        }
    }

    /// What V8 reads of its data, or why it reads nothing.
    pub open spec fn read(self) -> Result<V, CloneError> {
        if self.header != Some(true) {
            Err(CloneError::InvalidValueHeader)
        } else {
            match self.value {
                Some(value) => Ok(value),
                None => Err(CloneError::InvalidValue),
            }
        }
    }

    /// The value and the objects, or the failure. The objects come first, then
    /// the envelope, then V8's data.
    pub open spec fn result(
        self,
        serialized: Seq<u8>,
        count: nat,
        envelope: Option<EnvelopeFormat>,
        current: u32,
    ) -> Result<(V, Seq<V>), Failure<E>> {
        match (self.objects(0, count), opened_data(envelope, current, serialized), self.read()) {
            (Err(failure), _, _) => Err(failure),
            (_, Err(error), _) => Err(Failure::Clone(error)),
            (_, _, Err(error)) => Err(Failure::Clone(error)),
            (Ok(objects), Ok(_), Ok(value)) => Ok((value, objects)),
        }
    }
}

/// How many steps can follow at most.
pub open spec fn steps_left<B, T, V, E>(state: DeserializationView<B, T, V, E>) -> nat {
    match state.stage {
        DeserializationStage::TakeUp => 2 * state.pending.len() + 3,
        DeserializationStage::Receive(_) => 2 * state.pending.len() + 4,
        DeserializationStage::Header => 2,
        DeserializationStage::Value => 1,
        _ => 0,
    }
}

/// Where a deserialization from `state` on ends whose requests are answered with
/// `answers`.
pub open spec fn deserialized<B, T, V, E>(
    state: DeserializationView<B, T, V, E>,
    answers: DeserializationAnswers<V, E>,
) -> DeserializationView<B, T, V, E>
    decreases steps_left(state),
{
    match state.stage {
        DeserializationStage::Finished(_) | DeserializationStage::Failed(_) => state,
        DeserializationStage::TakeUp => if state.pending.len() == 0 {
            state
        } else {
            deserialized(state.take_up(), answers)
        },
        _ => deserialized(state.after(answers.reply(state)), answers),
    }
}

/// The value and the objects that a deserialization ends with, or its failure.
/// One that has not ended has nothing.
pub open spec fn received<B, T, V, E>(end: DeserializationView<B, T, V, E>) -> Option<
    Result<(V, Seq<V>), Failure<E>>,
> {
    match end.stage {
        DeserializationStage::Finished(value) => Some(Ok((value, end.values))),
        DeserializationStage::Failed(failure) => Some(Err(failure)),
        _ => None,
    }
}

/// What sorts of objects the data are of.
pub open spec fn sorts_of<B, T>(holders: Seq<StructuredCloneTransferData<B, T>>) -> Seq<
    PreparedTransfer,
> {
    Seq::new(holders.len(), |i: int| sort_of(holders[i]))
}

proof fn lemma_objects<B, T, V, E>(
    state: DeserializationView<B, T, V, E>,
    answers: DeserializationAnswers<V, E>,
)
    ensures
        match answers.objects(state.values.len(), state.values.len() + state.pending.len()) {
            Ok(objects) => deserialized(state.next_object(), answers) == deserialized(
                DeserializationView {
                    pending: Seq::empty(),
                    received: state.received + sorts_of(state.pending),
                    values: state.values + objects,
                    ..state
                }.next_object(),
                answers,
            ),
            Err(failure) => received(deserialized(state.next_object(), answers)) == Some(
                Err::<(V, Seq<V>), Failure<E>>(failure),
            ),
        },
    decreases state.pending.len(),
{
    let place = state.values.len();
    if state.pending.len() == 0 {
        assert(state.pending == Seq::<StructuredCloneTransferData<B, T>>::empty());
        assert(state.received + sorts_of(state.pending) == state.received);
        assert(state.values + Seq::<V>::empty() == state.values);
    } else {
        let taken = state.next_object().take_up();
        reveal_with_fuel(deserialized, 3);
        if let Ok(value) = (answers.received)(place) {
            let sort = sort_of(state.pending[0]);
            let next = DeserializationView {
                pending: state.pending.skip(1),
                received: state.received.push(sort),
                values: state.values.push(value),
                ..state
            };
            assert(taken.after(answers.reply(taken)) == next.next_object());
            lemma_objects(next, answers);
            assert(next.received + sorts_of(next.pending) == state.received + sorts_of(
                state.pending,
            ));
            if let Ok(objects) = answers.objects(place + 1, place + state.pending.len()) {
                assert(state.values + (seq![value] + objects) == next.values + objects);
            }
        }
    }
}

/// A deserialization ends with what its answers say: the objects come first, in
/// the order of their data, then the envelope, then V8's data.
pub proof fn lemma_deserialization_result<B, T, V, E>(
    serialized: Seq<u8>,
    holders: Seq<StructuredCloneTransferData<B, T>>,
    envelope: Option<EnvelopeFormat>,
    current: u32,
    answers: DeserializationAnswers<V, E>,
)
    ensures
        ({
            let start = deserialization_start::<B, T, V, E>(serialized, holders, envelope, current);
            let end = deserialized(start, answers);
            &&& received(end) == Some(
                answers.result(serialized, holders.len(), envelope, current),
            )
            &&& end.stage is Finished ==> end.received == sorts_of(holders)
        }),
{
    let fresh = DeserializationView::<B, T, V, E> {
        pending: holders,
        received: Seq::empty(),
        values: Seq::empty(),
        serialized,
        envelope,
        current,
        stage: DeserializationStage::TakeUp,
    };
    lemma_objects(fresh, answers);
    reveal_with_fuel(deserialized, 4);
    if let Ok(objects) = answers.objects(0, holders.len()) {
        assert(fresh.values + objects == objects);
        assert(fresh.received + sorts_of(holders) == sorts_of(holders));
    }
}

/// What was serialized is what is deserialized. Behind the envelope stands what
/// V8 wrote, and a number that V8 wrote in place of a transferred object stands
/// for the object that is made of the data of the same entry of the transfer
/// list. Version zero is never readable.
pub proof fn lemma_transfer_round_trip<B, T, E, V, F>(
    done: SerializationView<B, T, E>,
    written: Seq<u8>,
    current: u32,
    answers: DeserializationAnswers<V, F>,
)
    requires
        done.inv(),
        done.stage is Finished,
        done.serialized == envelope_prologue(done.envelope, done.version) + written,
        done.serialized.len() > 0,
        done.envelope is Some ==> 0 < done.version <= current,
    ensures
        opened_data(done.envelope, current, done.serialized) matches Ok(found) && {
            &&& done.serialized.skip(found.1 as int) == written
            &&& done.envelope is Some ==> found.0 == done.version
        },
        ({
            let end = deserialized(
                deserialization_start::<B, T, V, F>(
                    done.serialized,
                    done.holders,
                    done.envelope,
                    current,
                ),
                answers,
            );
            &&& received(end) == Some(
                match (answers.objects(0, done.transfer_count), answers.read()) {
                    (Err(failure), _) => Err(failure),
                    (_, Err(error)) => Err(Failure::Clone(error)),
                    (Ok(objects), Ok(value)) => Ok::<(V, Seq<V>), Failure<F>>((value, objects)),
                },
            )
            &&& end.stage is Finished ==> end.received == done.prepared && forall|sort| #[trigger]
                places(end.received, sort) == places(done.prepared, sort)
        }),
{
    match done.envelope {
        Some(format) => {
            lemma_opened_prologue(format.marker(), done.version, written);
        },
        None => {
            assert(done.serialized.skip(0) == written);
        },
    }
    assert(sorts_of(done.holders) == done.prepared) by {
        assert forall|i: int| 0 <= i < done.holders.len() implies sort_of(done.holders[i])
            == done.prepared[i] by {
            assert(is_data_of(done.prepared[i], done.holders[i]));
        }
    }
    lemma_deserialization_result(done.serialized, done.holders, done.envelope, current, answers);
}

} // verus!
