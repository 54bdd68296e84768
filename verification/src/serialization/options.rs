//! The options argument of `structuredClone`.

use vstd::prelude::*;

use crate::value::ValueKind;
use crate::webidl::WebIdlError;

verus! {

/// What the conversion errors start with.
pub const EXECUTE_PREFIX: &'static str = "Failed to execute 'structuredClone'";

/// The name of the member that holds the transfer list.
pub const TRANSFER_MEMBER: &'static str = "transfer";

/// How an error names the transfer list.
pub const TRANSFER_CONTEXT: &'static str = "'transfer' of 'StructuredSerializeOptions'";

/// The converted options: the values to transfer, in order.
#[derive(Debug, PartialEq, Eq)]
pub struct StructuredSerializeOptions<V> {
    pub transfer: Vec<V>,
}

/// Where the conversion of the options stands. Reading the member and converting
/// the list can run scripts, so each happens only when it is asked for.
#[derive(Debug, PartialEq, Eq)]
pub enum OptionsConversion<V, E> {
    /// The member `transfer` is to be read.
    Member,
    /// The member is to be converted to a sequence.
    Sequence,
    /// The outcome is known.
    Finished(Result<StructuredSerializeOptions<V>, WebIdlError<E>>),
}

/// Whether the conversion ended with nothing to transfer.
pub open spec fn transfers_nothing<V, E>(conversion: OptionsConversion<V, E>) -> bool {
    conversion matches OptionsConversion::Finished(Ok(options)) && options.transfer@
        == Seq::<V>::empty()
}

/// The refusal of options that are no dictionary.
pub open spec fn no_dictionary<E>() -> WebIdlError<E> {
    WebIdlError::ConvertToConverterType {
        prefix: EXECUTE_PREFIX,
        context: "Argument 2",
        converter: "dictionary",
    }
}

impl<V> StructuredSerializeOptions<V> {
    /// Starts the conversion of options of the given kind, `None` if there are
    /// none. The member is read of objects only. Missing, `undefined` and `null`
    /// options transfer nothing, and other values are refused.
    pub fn convert<E>(value: Option<ValueKind>) -> (start: OptionsConversion<V, E>)
        ensures
            match value {
                None | Some(ValueKind::Undefined) | Some(ValueKind::Null) => {
                    transfers_nothing(start)
                },
                Some(ValueKind::Object) => start == OptionsConversion::<V, E>::Member,
                Some(_) => start == OptionsConversion::<V, E>::Finished(Err(no_dictionary())),
            },
    {
        match value {
            None | Some(ValueKind::Undefined) | Some(ValueKind::Null) => {
                OptionsConversion::Finished(
                    Ok(StructuredSerializeOptions { transfer: Vec::new() }),
                )
            },
            Some(ValueKind::Object) => OptionsConversion::Member,
            Some(_) => OptionsConversion::Finished(
                Err(
                    WebIdlError::ConvertToConverterType {
                        prefix: EXECUTE_PREFIX,
                        context: "Argument 2",
                        converter: "dictionary",
                    },
                ),
            ),
        }
    }
}

impl<V, E> OptionsConversion<V, E> {
    /// Goes on with the kind of the member, `None` if it could not be read. A
    /// member that is `undefined`, or could not be read, transfers nothing.
    pub fn resume_member(self, member: Option<ValueKind>) -> (next: Self)
        requires
            self is Member,
        ensures
            match member {
                None | Some(ValueKind::Undefined) => transfers_nothing(next),
                Some(_) => next == OptionsConversion::<V, E>::Sequence,
            },
    {
        match member {
            None | Some(ValueKind::Undefined) => OptionsConversion::Finished(
                Ok(StructuredSerializeOptions { transfer: Vec::new() }),
            ),
            Some(_) => OptionsConversion::Sequence,
        }
    }

    /// Goes on with what the conversion of the member to a sequence came to.
    pub fn resume_sequence(self, sequence: Result<Vec<V>, E>) -> (next: Self)
        requires
            self is Sequence,
        ensures
            next == OptionsConversion::Finished(
                match sequence {
                    Ok(transfer) => Ok(StructuredSerializeOptions { transfer }),
                    Err(error) => Err(WebIdlError::Conversion(error)),
                },
            ),
    {
        OptionsConversion::Finished(
            match sequence {
                Ok(transfer) => Ok(StructuredSerializeOptions { transfer }),
                Err(error) => Err(WebIdlError::Conversion(error)),
            },
        )
    }
}

/// Missing, `undefined` and `null` options transfer nothing. An object is asked for its
/// member, and nothing else can be options.
pub proof fn lemma_convertible_options<V, E>(
    value: Option<ValueKind>,
    start: OptionsConversion<V, E>,
)
    requires
        call_ensures(StructuredSerializeOptions::<V>::convert::<E>, (value,), start),
    ensures
        start is Member <==> value == Some(ValueKind::Object),
        !(start is Sequence),
        start matches OptionsConversion::Finished(Ok(options)) ==> options.transfer@.len() == 0 && (
        value is None || value == Some(ValueKind::Undefined) || value == Some(ValueKind::Null)),
        start matches OptionsConversion::Finished(Err(error)) ==> {
            &&& value matches Some(kind) && (kind is Boolean || kind is Number || kind is BigInt
                || kind is String || kind is Symbol)
            &&& error matches WebIdlError::ConvertToConverterType { prefix, context, converter }
                && prefix@ == "Failed to execute 'structuredClone'"@ && context@ == "Argument 2"@
                && converter@ == "dictionary"@
        },
{
}

/// A member that is `undefined` or could not be read transfers nothing. Every other is
/// to be converted to a sequence, whatever it is.
pub proof fn lemma_convertible_member<V, E>(
    conversion: OptionsConversion<V, E>,
    member: Option<ValueKind>,
    next: OptionsConversion<V, E>,
)
    requires
        conversion is Member,
        call_ensures(OptionsConversion::<V, E>::resume_member, (conversion, member), next),
    ensures
        next is Sequence <==> member is Some && member != Some(ValueKind::Undefined),
        !(next is Sequence) ==> (next matches OptionsConversion::Finished(Ok(options))
            && options.transfer@.len() == 0),
{
}

/// The options transfer what the sequence holds, and fail as its conversion does.
pub proof fn lemma_converted_sequence<V, E>(
    conversion: OptionsConversion<V, E>,
    sequence: Result<Vec<V>, E>,
    next: OptionsConversion<V, E>,
)
    requires
        conversion is Sequence,
        call_ensures(OptionsConversion::<V, E>::resume_sequence, (conversion, sequence), next),
    ensures
        match sequence {
            Ok(transfer) => next matches OptionsConversion::Finished(Ok(options))
                && options.transfer@ == transfer@,
            Err(error) => next matches OptionsConversion::Finished(Err(found)) && found
                == WebIdlError::<E>::Conversion(error),
        },
{
}

/// The names that scripts see.
pub proof fn lemma_option_names()
    ensures
        EXECUTE_PREFIX@ == "Failed to execute 'structuredClone'"@,
        TRANSFER_MEMBER@ == "transfer"@,
        TRANSFER_CONTEXT@ == "'transfer' of 'StructuredSerializeOptions'"@,
{
}

} // verus!
