//! Declaration of the outside schema-descriptor type carried by
//! argument-taking branches.
//!
//! A branch may publish a structural description of its specific argument
//! type so that an outside caller can decide what shape of arguments to
//! send.  The descriptor is purely informative: this crate stores it and
//! hands it back, and never inspects or enforces it.

use vstd::prelude::*;

verus! {

/// Relies on schemars' `RootSchema` only as an opaque value: the crate
/// stores a schema descriptor and returns it unchanged, and never calls any
/// of its methods.
#[verifier::external_type_specification]
#[verifier::external_body]
pub struct ExRootSchema(schemars::schema::RootSchema);

} // verus!
