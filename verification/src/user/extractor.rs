//! The user behind a request.

use vstd::prelude::*;
use crate::oid::{Oid, parse_hex_oid, parse_object_id};

verus! {

/// The user ID of a request, from the identity that its session carries:
/// present only when the session holds an identity whose text is the hex
/// form of an object id.
pub fn extract_user_id(identity_id: Option<&str>) -> (r: Option<Oid>)
    ensures
        r == match identity_id {
            Some(s) => parse_hex_oid(s@),
            None => None,
        },
{
    match identity_id {
        Some(s) => parse_object_id(s),
        None => None,
    }
}

} // verus!
