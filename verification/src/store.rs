//! The store-adapter boundary, seen from the verified side.
//!
//! The backing engine is external: it is reached over the network, may hold
//! dynamically typed values, and may fail. This module models exactly what
//! the handlers read of it: a stored value is either usable text or some
//! other representation, a lookup either finds a value, finds nothing, or
//! fails, and a write either completes or fails. The ghost model of the
//! whole store is a map from keys to stored values, under last-write-wins.

use vstd::prelude::*;

verus! {

/// What the store holds under a key, as far as this gateway cares: a plain
/// string, or any other representation. Only the string variant is ever
/// served to a caller; everything else is treated as if the entry did not
/// exist, so no internal representation detail can leak.
pub enum StoredValue {
    Text(String),
    Other,
}

/// Ghost counterpart of [`StoredValue`]: the text as a sequence of
/// characters, or the mark of a non-string representation.
pub enum ValueModel {
    Text(Seq<char>),
    Other,
}

impl View for StoredValue {
    type V = ValueModel;

    open spec fn view(&self) -> ValueModel {
        match self {
            StoredValue::Text(s) => ValueModel::Text(s@),
            StoredValue::Other => ValueModel::Other,
        }
    }
}

/// Outcome of asking the store for a key.
pub enum GetOutcome {
    /// The store answered and holds a value under the key.
    Found(StoredValue),
    /// The store answered and holds nothing under the key.
    Missing,
    /// The store could not be consulted (connectivity, timeout, ...).
    StoreFailed,
}

/// Outcome of asking the store to persist a value.
pub enum SetOutcome {
    /// The value is durably stored.
    Done,
    /// The store could not complete the write.
    StoreFailed,
}

/// Ghost model of the whole store: what each present key maps to.
pub type StoreModel = Map<Seq<char>, ValueModel>;

/// What a reachable store answers for `key` under model `m`.
pub open spec fn spec_lookup(m: StoreModel, key: Seq<char>) -> Option<ValueModel> {
    if m.contains_key(key) {
        Some(m[key])
    } else {
        None
    }
}

/// The store model after a completed write of text `value` under `key`:
/// the prior entry, if any, is overwritten (last-write-wins).
pub open spec fn spec_store_after_set(
    m: StoreModel,
    key: Seq<char>,
    value: Seq<char>,
) -> StoreModel {
    m.insert(key, ValueModel::Text(value))
}

/// The store model after the whole write path ran on a request: the entry
/// changes only when the request was authorized and the store completed
/// the write; a rejected or failed write leaves every entry as it was.
pub open spec fn spec_store_after_write(
    m: StoreModel,
    authorized: bool,
    store_ok: bool,
    key: Seq<char>,
    value: Seq<char>,
) -> StoreModel {
    if authorized && store_ok {
        spec_store_after_set(m, key, value)
    } else {
        m
    }
}

} // verus!
