//! The data that requests carry.

pub mod common;
pub mod realtime;

pub use common::InputSource;

use crate::error::{OpenAIError, OpenAIErrorView};
use vstd::prelude::*;
use vstd::std_specs::convert::FromSpecImpl;

verus! {

#[verifier::external_type_specification]
#[verifier::external_body]
pub struct ExUninitializedFieldError(derive_builder::UninitializedFieldError);

/// The name of the field that a `derive_builder::UninitializedFieldError`
/// reports, as its `field_name` gives it.
pub uninterp spec fn uninitialized_field(error: derive_builder::UninitializedFieldError) -> Seq<
    char,
>;

/// The failure that stands for a builder that was asked to build while a
/// required field had no value.
pub open spec fn field_failure(error: derive_builder::UninitializedFieldError) -> OpenAIErrorView {
    OpenAIErrorView::InvalidArgument("Field not initialized: "@ + uninitialized_field(error))
}

/// `to_string` of a `derive_builder::UninitializedFieldError`, that is its
/// `Display`. Claimed: the text is `Field not initialized: ` and the name of
/// the field.
#[verifier::external_body]
fn field_error_text(error: &derive_builder::UninitializedFieldError) -> (r: String)
    ensures
        r@ == "Field not initialized: "@ + uninitialized_field(*error),
{
    error.to_string()
}

impl From<derive_builder::UninitializedFieldError> for OpenAIError {
    /// A builder that lacks a field is an argument that the caller got wrong.
    fn from(value: derive_builder::UninitializedFieldError) -> (e: OpenAIError)
        ensures
            e@ == field_failure(value),
    {
        OpenAIError::InvalidArgument(field_error_text(&value))
    }
}

impl FromSpecImpl<derive_builder::UninitializedFieldError> for OpenAIError {
    open spec fn obeys_from_spec() -> bool {
        false
    }

    open spec fn from_spec(value: derive_builder::UninitializedFieldError) -> OpenAIError {
        arbitrary()
    }
}

} // verus!
