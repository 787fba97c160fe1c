//! Entity types: the schema-defined categories that records belong to.

use std::cmp::Ordering;
use vstd::prelude::*;

use crate::text::{compare_text, lemma_lex_equal, lemma_lex_flip, lemma_lex_trans, lex_cmp};
use crate::value::{id_type_rank, parse_id_spec, ConversionError, ConversionErrorKind, IdType, Value, ValueModel};

verus! {

/// Name of an entity type together with the declared representation of its
/// identifier field.
#[derive(Debug, Eq, Ord, Hash)]
pub struct EntityType {
    pub name: String,
    pub id_type: IdType,
}

/// Mathematical form of an [`EntityType`].
pub struct EntityTypeModel {
    pub name: Seq<char>,
    pub id_type: IdType,
}

impl View for EntityType {
    type V = EntityTypeModel;

    open spec fn view(&self) -> EntityTypeModel {
        EntityTypeModel { name: self.name@, id_type: self.id_type }
    }
}

/// Three-way comparison of two integers.
pub open spec fn int_cmp(a: int, b: int) -> Ordering {
    if a < b {
        Ordering::Less
    } else if a > b {
        Ordering::Greater
    } else {
        Ordering::Equal
    }
}

/// Entity types order by name, then by identifier representation.
pub open spec fn entity_type_cmp(a: EntityTypeModel, b: EntityTypeModel) -> Ordering {
    let by_name = lex_cmp(a.name, b.name);
    if by_name != Ordering::Equal {
        by_name
    } else {
        int_cmp(id_type_rank(a.id_type), id_type_rank(b.id_type))
    }
}

/// Entity types compare `Equal` exactly when they are the same.
pub proof fn lemma_entity_type_cmp_equal(a: EntityTypeModel, b: EntityTypeModel)
    ensures
        entity_type_cmp(a, b) == Ordering::Equal <==> a == b,
{
    lemma_lex_equal(a.name, b.name);
}

/// Swapping the arguments swaps `Less` and `Greater`.
pub proof fn lemma_entity_type_cmp_flip(a: EntityTypeModel, b: EntityTypeModel)
    ensures
        entity_type_cmp(a, b) == Ordering::Less <==> entity_type_cmp(b, a) == Ordering::Greater,
{
    lemma_lex_flip(a.name, b.name);
    lemma_lex_flip(b.name, a.name);
    lemma_lex_equal(a.name, b.name);
    lemma_lex_equal(b.name, a.name);
}

/// `Less` is transitive on entity types.
pub proof fn lemma_entity_type_cmp_trans(a: EntityTypeModel, b: EntityTypeModel, c: EntityTypeModel)
    requires
        entity_type_cmp(a, b) == Ordering::Less,
        entity_type_cmp(b, c) == Ordering::Less,
    ensures
        entity_type_cmp(a, c) == Ordering::Less,
{
    lemma_lex_equal(a.name, b.name);
    lemma_lex_equal(b.name, c.name);
    lemma_lex_equal(a.name, c.name);
    if lex_cmp(a.name, b.name) == Ordering::Less && lex_cmp(b.name, c.name) == Ordering::Less {
        lemma_lex_trans(a.name, b.name, c.name);
    }
}

impl EntityType {
    pub fn new(name: &str, id_type: IdType) -> (r: EntityType)
        ensures
            r@ == (EntityTypeModel { name: name@, id_type }),
    {
        EntityType { name: name.to_owned(), id_type }
    }

    /// The entity type's display name.
    pub fn as_str(&self) -> (r: &str)
        ensures
            r@ == self.name@,
    {
        self.name.as_str()
    }

    /// Converts identifier text into a value of this type's identifier
    /// representation.
    pub fn id_value(&self, id: &str) -> (r: Result<Value, ConversionError>)
        ensures
            match r {
                Ok(v) => parse_id_spec(self.id_type, id@) == Ok::<ValueModel, ConversionErrorKind>(
                    v@,
                ),
                Err(e) => parse_id_spec(self.id_type, id@) == Err::<ValueModel, ConversionErrorKind>(
                    e.kind,
                ) && e.id@ == id@,
            },
    {
        self.id_type.parse(id)
    }

    /// Three-way comparison by name, then identifier representation.
    pub fn compare(&self, other: &EntityType) -> (r: Ordering)
        ensures
            r == entity_type_cmp(self@, other@),
    {
        let by_name = compare_text(self.name.as_str(), other.name.as_str());
        match by_name {
            Ordering::Equal => {
                let a = id_type_index(self.id_type);
                let b = id_type_index(other.id_type);
                if a < b {
                    Ordering::Less
                } else if a > b {
                    Ordering::Greater
                } else {
                    Ordering::Equal
                }
            },
            _ => by_name,
        }
    }
}

fn id_type_index(t: IdType) -> (r: u8)
    ensures
        r as int == id_type_rank(t),
{
    match t {
        IdType::String => 0,
        IdType::Bytes => 1,
        IdType::Int8 => 2,
    }
}

impl Clone for EntityType {
    fn clone(&self) -> (r: EntityType)
        ensures
            r == *self,
    {
        EntityType { name: self.name.clone(), id_type: self.id_type }
    }
}

impl PartialEq for EntityType {
    fn eq(&self, other: &EntityType) -> (r: bool) {
        self.name == other.name && self.id_type == other.id_type
    }
}

impl vstd::std_specs::cmp::PartialEqSpecImpl for EntityType {
    open spec fn obeys_eq_spec() -> bool {
        true
    }

    open spec fn eq_spec(&self, other: &EntityType) -> bool {
        self@ == other@
    }
}

impl PartialOrd for EntityType {
    fn partial_cmp(&self, other: &EntityType) -> (r: Option<Ordering>) {
        Some(self.compare(other))
    }
}

impl vstd::std_specs::cmp::PartialOrdSpecImpl for EntityType {
    open spec fn obeys_partial_cmp_spec() -> bool {
        true
    }

    open spec fn partial_cmp_spec(&self, other: &EntityType) -> Option<Ordering> {
        Some(entity_type_cmp(self@, other@))
    }
}

} // verus!
