//! The steps of one host object, after the check of its brand.
//!
//! A handler is for one type of object. Before it runs, the embedder checks that
//! the object, or the data to make one of, is of that type.

use vstd::prelude::*;

use crate::serialization::error::{CloneError, Failure};

verus! {

/// The outcome of the steps of a handler, `None` where the brand was wrong, so
/// that they did not run.
pub open spec fn branded<R, E>(outcome: Option<Result<R, E>>, wrong: CloneError) -> Result<
    R,
    Failure<E>,
> {
    match outcome {
        Some(Ok(value)) => Ok(value),
        Some(Err(error)) => Err(Failure::Host(error)),
        None => Err(Failure::Clone(wrong)),
    }
}

fn check_brand<R, E>(outcome: Option<Result<R, E>>, wrong: CloneError) -> (res: Result<
    R,
    Failure<E>,
>)
    ensures
        res == branded(outcome, wrong),
{
    match outcome {
        Some(Ok(value)) => Ok(value),
        Some(Err(error)) => Err(Failure::Host(error)),
        None => Err(Failure::Clone(wrong)),
    }
}

/// What the check of an object before its transfer comes to.
pub fn validate_structured_clone_transferable<E>(outcome: Option<Result<(), E>>) -> (res: Result<
    (),
    Failure<E>,
>)
    ensures
        res == branded(outcome, CloneError::InvalidBrand),
{
    check_brand(outcome, CloneError::InvalidBrand)
}

/// What the transfer of an object comes to.
pub fn transfer_structured_clone_host_object<T, E>(outcome: Option<Result<T, E>>) -> (res: Result<
    T,
    Failure<E>,
>)
    ensures
        res == branded(outcome, CloneError::InvalidBrand),
{
    check_brand(outcome, CloneError::InvalidBrand)
}

/// What making an object of transfer data comes to.
pub fn receive_structured_clone_host_object<V, E>(outcome: Option<Result<V, E>>) -> (res: Result<
    V,
    Failure<E>,
>)
    ensures
        res == branded(outcome, CloneError::UnexpectedTransferData),
{
    check_brand(outcome, CloneError::UnexpectedTransferData)
}

/// Whether an object can be transferred, after the check that its handler made.
/// An object without a handler cannot.
pub fn can_transfer<E>(checked: Option<Result<(), E>>) -> (res: Result<bool, E>)
    ensures
        res == match checked {
            None => Ok::<bool, E>(false),
            Some(Ok(())) => Ok::<bool, E>(true),
            Some(Err(error)) => Err::<bool, E>(error),
        },
{
    match checked {
        None => Ok(false),
        Some(Ok(())) => Ok(true),
        Some(Err(error)) => Err(error),
    }
}

/// Whether the outcome of steps behind a check of the brand is right: what the steps
/// came to where they ran, and else the given error.
pub open spec fn is_outcome<R, E>(
    outcome: Option<Result<R, E>>,
    res: Result<R, Failure<E>>,
    wrong: CloneError,
) -> bool {
    match res {
        Ok(value) => outcome matches Some(Ok(made)) && made == value,
        Err(Failure::Host(error)) => outcome matches Some(Err(raised)) && raised == error,
        Err(Failure::Clone(error)) => outcome is None && error == wrong,
    }
}

/// Objects of the wrong brand are neither checked nor transferred, and data of the
/// wrong type is not received.
pub proof fn lemma_brands<T, V, E>(
    checked: Option<Result<(), E>>,
    validated: Result<(), Failure<E>>,
    moved: Option<Result<T, E>>,
    transferred: Result<T, Failure<E>>,
    made: Option<Result<V, E>>,
    received: Result<V, Failure<E>>,
)
    requires
        call_ensures(validate_structured_clone_transferable::<E>, (checked,), validated),
        call_ensures(transfer_structured_clone_host_object::<T, E>, (moved,), transferred),
        call_ensures(receive_structured_clone_host_object::<V, E>, (made,), received),
    ensures
        is_outcome(checked, validated, CloneError::InvalidBrand),
        is_outcome(moved, transferred, CloneError::InvalidBrand),
        is_outcome(made, received, CloneError::UnexpectedTransferData),
{
}

/// An object can be transferred exactly if it has a handler whose check passed.
pub proof fn lemma_transferable<E>(checked: Option<Result<(), E>>, res: Result<bool, E>)
    requires
        call_ensures(can_transfer::<E>, (checked,), res),
    ensures
        res matches Ok(can) ==> (can <==> checked is Some) && !(checked matches Some(Err(_))),
        res matches Err(error) ==> checked matches Some(Err(raised)) && raised == error,
{
}

} // verus!
