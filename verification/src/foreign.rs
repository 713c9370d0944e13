//! Declarations of the outside types that the library's data carries.
use vstd::prelude::*;

verus! {

/// Declares `semver::Version`, carried opaquely.
#[verifier::external_type_specification]
#[verifier::external_body]
pub struct ExSemverVersion(semver::Version);

/// Declares `serde_json::Value`, carried opaquely.
#[verifier::external_type_specification]
#[verifier::external_body]
pub struct ExJsonValue(serde_json::Value);

/// Declares `indexmap::IndexMap`, the ordered map of flow nodes.
#[verifier::external_type_specification]
#[verifier::external_body]
#[verifier::reject_recursive_types(K)]
#[verifier::reject_recursive_types(V)]
#[verifier::reject_recursive_types(S)]
pub struct ExIndexMap<K, V, S>(indexmap::IndexMap<K, V, S>);

/// Declares `std::hash::BuildHasherDefault`.
#[verifier::external_type_specification]
#[verifier::external_body]
#[verifier::reject_recursive_types(H)]
pub struct ExBuildHasherDefault<H>(std::hash::BuildHasherDefault<H>);

/// Declares `fnv::FnvHasher`.
#[verifier::external_type_specification]
#[verifier::external_body]
pub struct ExFnvHasher(fnv::FnvHasher);

/// What `serde_json::Value::is_null` returns for `v`: whether `v` is the
/// JSON `null` value.
pub uninterp spec fn json_is_null(v: serde_json::Value) -> bool;

/// Returns the JSON `null` value (`serde_json::Value::Null`). Claimed of it:
/// `Value::is_null` holds of it (serde_json's `is_null` is true exactly of
/// `Value::Null`).
#[verifier::external_body]
pub(crate) fn json_null() -> (r: serde_json::Value)
    ensures
        json_is_null(r),
{
    serde_json::Value::Null
}


/// `Clone` for JSON values; nothing is claimed of the copy.
pub assume_specification[ <serde_json::Value as Clone>::clone ](v: &serde_json::Value) -> serde_json::Value;

/// `Clone` for `IndexMap`; nothing is claimed of the copy.
pub assume_specification<K, V, S>[ <indexmap::IndexMap<K, V, S> as Clone>::clone ](
    m: &indexmap::IndexMap<K, V, S>,
) -> indexmap::IndexMap<K, V, S>
    where
        K: Clone,
        V: Clone,
        S: Clone,
;


/// `Clone` for `semver::Version`; nothing is claimed of the copy.
pub assume_specification[ <semver::Version as Clone>::clone ](v: &semver::Version) -> semver::Version;


/// Declares `time::OffsetDateTime`, carried opaquely.
#[verifier::external_type_specification]
#[verifier::external_body]
pub struct ExOffsetDateTime(time::OffsetDateTime);

/// `Clone` for `time::OffsetDateTime`; nothing is claimed of the copy.
pub assume_specification[ <time::OffsetDateTime as Clone>::clone ](v: &time::OffsetDateTime) -> time::OffsetDateTime;


/// Declares `time::error::ComponentRange`, the error of an out-of-range
/// timestamp, carried opaquely.
#[verifier::external_type_specification]
#[verifier::external_body]
pub struct ExComponentRange(time::error::ComponentRange);

/// `Clone` for `ciborium` values; nothing is claimed of the copy.
pub assume_specification[ <ciborium::value::Value as Clone>::clone ](v: &ciborium::value::Value) -> ciborium::value::Value;

} // verus!
