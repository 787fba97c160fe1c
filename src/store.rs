//! Store-side values around entity keys: related-entity lookup requests,
//! interning failures and store errors.

use vstd::prelude::*;

use crate::entity_type::EntityType;
use crate::region::CausalityRegion;

verus! {

/// A request, issued while traversing a relationship, to load the entities
/// that a field of one entity refers to.
pub struct LoadRelatedRequest {
    /// Type of the entities to load.
    pub entity_type: EntityType,
    /// Identifier of the entity whose field is traversed.
    pub entity_id: String,
    /// Name of the traversed field.
    pub entity_field: String,
    /// Region of the data source that issues the lookup.
    pub causality_region: CausalityRegion,
}

/// Failure of the string-interning subsystem.
#[derive(Debug, PartialEq, Eq)]
pub enum InternError {
    /// The named string has not been interned.
    NotInterned(String),
}

impl InternError {
    /// The message of this failure.
    pub open spec fn spec_message(&self) -> Seq<char> {
        match self {
            InternError::NotInterned(s) => s@,
        }
    }

    /// Turns this failure into its message.
    pub fn not_interned(self) -> (r: String)
        ensures
            r@ == self.spec_message(),
    {
        match self {
            InternError::NotInterned(s) => s,
        }
    }
}

/// Errors reported by the store to its callers.
#[derive(Debug, PartialEq, Eq)]
pub enum StoreError {
    /// An attribute of the named entity type is unknown; carries the entity
    /// type's name and the underlying message.
    UnknownAttribute(String, String),
}

} // verus!
