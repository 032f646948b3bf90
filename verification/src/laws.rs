//! The gateway's guarantees, stated over the ghost store model and the
//! handlers' own spec functions, and proved once for all keys, values and
//! credentials.

use vstd::prelude::*;

use crate::auth::spec_authorized;
use crate::handlers::{spec_get_body, spec_get_status, spec_set_status};
use crate::store::{spec_lookup, spec_store_after_set, spec_store_after_write, StoreModel, ValueModel};

verus! {

/// Round-trip: after a completed write of `value` under `key`, a read of
/// `key` on a reachable store is served the very text that was written,
/// with status 200.
pub proof fn lemma_round_trip(m: StoreModel, key: Seq<char>, value: Seq<char>)
    ensures
        spec_lookup(spec_store_after_set(m, key, value), key) == Some(ValueModel::Text(value)),
        spec_get_status(spec_lookup(spec_store_after_set(m, key, value), key)) == 200,
        spec_get_body(spec_lookup(spec_store_after_set(m, key, value), key)) == value,
{
}

/// A write under one key disturbs no other key: what a read of `other` is
/// served is the same before and after the write. With `lemma_round_trip`
/// this says a written value stays readable until a later write to the
/// same key overwrites it.
pub proof fn lemma_set_preserves_other_keys(
    m: StoreModel,
    key: Seq<char>,
    value: Seq<char>,
    other: Seq<char>,
)
    requires
        other != key,
    ensures
        spec_lookup(spec_store_after_set(m, key, value), other) == spec_lookup(m, other),
{
}

/// Overwrite is absolute: writing `v1` and then `v2` under the same key
/// leaves the store exactly as writing `v2` alone would have; no residue
/// of `v1` remains anywhere.
pub proof fn lemma_overwrite(m: StoreModel, key: Seq<char>, v1: Seq<char>, v2: Seq<char>)
    ensures
        spec_store_after_set(spec_store_after_set(m, key, v1), key, v2) == spec_store_after_set(
            m,
            key,
            v2,
        ),
{
    assert(spec_store_after_set(spec_store_after_set(m, key, v1), key, v2)
        =~= spec_store_after_set(m, key, v2));
}

/// A key never written is served the fixed not-found answer: 404 with the
/// generic message, nothing of the store's internals in it.
pub proof fn lemma_missing_key(m: StoreModel, key: Seq<char>)
    requires
        !m.contains_key(key),
    ensures
        spec_get_status(spec_lookup(m, key)) == 404,
        spec_get_body(spec_lookup(m, key)) == "entry does not exist"@,
{
}

/// A non-string entry is indistinguishable from an absent one: the read is
/// served exactly the answer a never-written key gets, so the internal
/// representation never leaks.
pub proof fn lemma_non_text_hidden(m: StoreModel, key: Seq<char>)
    requires
        m.contains_key(key),
        m[key] is Other,
    ensures
        spec_get_status(spec_lookup(m, key)) == spec_get_status(None),
        spec_get_body(spec_lookup(m, key)) == spec_get_body(None),
{
}

/// Auth enforcement: a write whose credential is missing or differs from
/// the configured token is answered 401, and the store model is left
/// exactly as it was — the prior value of every key stands.
pub proof fn lemma_auth_enforcement(
    m: StoreModel,
    key: Seq<char>,
    value: Seq<char>,
    header: Option<Seq<char>>,
    token: Seq<char>,
    store_ok: bool,
)
    requires
        !spec_authorized(header, token),
    ensures
        spec_set_status(spec_authorized(header, token), store_ok) == 401,
        spec_store_after_write(m, spec_authorized(header, token), store_ok, key, value) == m,
{
}

/// Auth success: a write carrying exactly the configured token is admitted
/// to the store; once the store completes it, the answer is 201 and the
/// value stands in the store under its key.
pub proof fn lemma_auth_success(
    m: StoreModel,
    key: Seq<char>,
    value: Seq<char>,
    header: Option<Seq<char>>,
    token: Seq<char>,
)
    requires
        spec_authorized(header, token),
    ensures
        spec_set_status(spec_authorized(header, token), true) == 201,
        spec_store_after_write(m, spec_authorized(header, token), true, key, value)
            == spec_store_after_set(m, key, value),
{
}

} // verus!
