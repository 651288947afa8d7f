//! The types of other crates that pass through this one unread.

use vstd::prelude::*;

verus! {

#[verifier::external_type_specification]
#[verifier::external_body]
pub struct ExManifest(c2pa::Manifest);

#[verifier::external_type_specification]
#[verifier::external_body]
pub struct ExIngredient(c2pa::Ingredient);

#[verifier::external_type_specification]
#[verifier::external_body]
pub struct ExJsonValue(serde_json::Value);

} // verus!
