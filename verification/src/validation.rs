//! The content-type check on a raw delivery.

use crate::message::{content_type_accepted, content_type_matches, RawDelivery};
use vstd::prelude::*;
use vstd::string::StringExecFns;

verus! {

/// The only content type that [`validate_ampq_message`] lets through.
pub const EXPECTED_CONTENT_TYPE: &'static str = "application/json";

/// Whether a delivery declares the JSON media type. One that declares no
/// content type does not.
pub fn validate_ampq_message(msg: &RawDelivery) -> (status: bool)
    ensures
        status == content_type_matches(msg@.content_type, EXPECTED_CONTENT_TYPE@),
{
    let expected = String::from_str(EXPECTED_CONTENT_TYPE);
    content_type_accepted(&msg.content_type, &expected)
}

} // verus!
