//! Identities of orders, traders and locations.
//!
//! An identity is a `uuid::Uuid`. The library only carries identities from
//! orders into transactions and query results; it never looks inside one.

use vstd::prelude::*;

verus! {

#[verifier::external_type_specification]
#[verifier::external_body]
pub struct ExUuid(uuid::Uuid);

/// Relies on `uuid::Uuid::nil`: returns the all-zero identity. Nothing is
/// stated of it, since no verified logic depends on which identity it is.
pub assume_specification[ uuid::Uuid::nil ]() -> uuid::Uuid;

/// Relies on `uuid::Uuid::new_v4`: draws a random identity from the operating
/// system's generator. Nothing can be promised of a random value.
pub assume_specification[ uuid::Uuid::new_v4 ]() -> uuid::Uuid;

} // verus!
