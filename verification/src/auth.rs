//! The auth guard: a stateless, pure check applied to every write request
//! before any store operation. A write is authorized if and only if the
//! request carried a credential header whose value equals the configured
//! write token, character for character.

use vstd::prelude::*;

verus! {

/// True exactly when `header` carries a credential equal to `token`.
pub open spec fn spec_authorized(header: Option<Seq<char>>, token: Seq<char>) -> bool {
    header matches Some(h) && h == token
}

/// Decide whether a write request is authorized: the credential header must
/// be present and equal to the configured write token. A missing header and
/// a mismatched one are rejected alike.
pub fn authorize(header: Option<&String>, token: &String) -> (r: bool)
    ensures
        r == spec_authorized(header.deep_view(), token@),
{
    match header {
        Some(h) => *h == *token,
        None => false,
    }
}

} // verus!
