//! The bounded session cache: a 2Q cache from the `cache_2q` crate, kept
//! behind trusted bindings. Its contents are named as a map from plaintext
//! tokens to cached authentication answers (including negative answers).

use vstd::prelude::*;

use std::hash::{BuildHasher, Hash};

use cache_2q::Cache;

use crate::structs::{opt_ident_view, DeviceIdentity};

verus! {

#[verifier::external_type_specification]
#[verifier::external_body]
#[verifier::reject_recursive_types(K)]
#[verifier::reject_recursive_types(V)]
#[verifier::reject_recursive_types(S)]
pub struct ExCache<K: Eq + Hash, V, S: BuildHasher>(Cache<K, V, S>);

/// What the session cache holds: for each cached plaintext token, the
/// authentication answer that was stored for it, viewed as the identity's
/// device id, account id and storage passphrase.
pub uninterp spec fn cache_contents(c: Cache<String, Option<DeviceIdentity>>) -> Map<
    Seq<char>,
    Option<(Seq<char>, Seq<char>, Seq<char>)>,
>;

/// Relies on `cache_2q::Cache::new`: an empty cache. A zero size panics, so
/// the size must be positive.
#[verifier::external_body]
pub fn cache_new(size: usize) -> (r: Cache<String, Option<DeviceIdentity>>)
    requires
        size > 0,
    ensures
        cache_contents(r).dom() == Set::<Seq<char>>::empty(),
{
    Cache::new(size)
}

/// Relies on `cache_2q::Cache::get`: returns the entry stored for the key,
/// if any; a lookup reorders the cache's internal queues but neither adds,
/// drops nor changes any entry.
#[verifier::external_body]
pub fn cache_get(c: &mut Cache<String, Option<DeviceIdentity>>, key: &str) -> (r: Option<
    Option<DeviceIdentity>,
>)
    ensures
        cache_contents(*final(c)) == cache_contents(*old(c)),
        r matches Some(v) ==> cache_contents(*old(c)).contains_key(key@) && cache_contents(
            *old(c),
        )[key@] == opt_ident_view(v),
        r is None ==> !cache_contents(*old(c)).contains_key(key@),
{
    c.get(key).map(|v| v.clone())
}

/// Relies on `cache_2q::Cache::insert`: afterwards the key maps to the
/// value; every other entry either keeps its value or is evicted by the 2Q
/// policy, and no entry appears from nowhere.
#[verifier::external_body]
pub fn cache_insert(
    c: &mut Cache<String, Option<DeviceIdentity>>,
    key: String,
    value: Option<DeviceIdentity>,
)
    ensures
        cache_contents(*final(c)).contains_key(key@),
        cache_contents(*final(c))[key@] == opt_ident_view(value),
        forall|k2: Seq<char>|
            cache_contents(*final(c)).contains_key(k2) && k2 != key@ ==> cache_contents(
                *old(c),
            ).contains_key(k2) && cache_contents(*final(c))[k2] == cache_contents(*old(c))[k2],
{
    c.insert(key, value);
}

/// Relies on `cache_2q::Cache::clear`: removes every entry.
#[verifier::external_body]
pub fn cache_clear(c: &mut Cache<String, Option<DeviceIdentity>>)
    ensures
        cache_contents(*final(c)).dom() == Set::<Seq<char>>::empty(),
{
    c.clear();
}

} // verus!
