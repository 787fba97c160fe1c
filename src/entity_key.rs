//! The key by which an individual entity in the store is addressed.

use std::cmp::Ordering;
use vstd::prelude::*;

use crate::entity_type::{
    entity_type_cmp, int_cmp, lemma_entity_type_cmp_equal, lemma_entity_type_cmp_flip,
    lemma_entity_type_cmp_trans, EntityType, EntityTypeModel,
};
use crate::region::CausalityRegion;
use crate::store::{InternError, LoadRelatedRequest, StoreError};
use crate::text::{
    compare_text, decimal_of, decimal_text, lemma_lex_equal, lemma_lex_flip, lemma_lex_trans, lex_cmp,
};
use crate::value::{parse_id_spec, ConversionError, ConversionErrorKind, Value, ValueModel};

verus! {

/// Key by which an individual entity in the store can be accessed: the
/// entity's type, its identifier, and the causality region of the data
/// source that created it. The deployment is known from context.
///
/// A key always holds all three parts: [`EntityKey::new`] and
/// [`EntityKey::from`] set them together, and no key is ever partly built.
#[derive(Eq, Ord, Hash)]
pub struct EntityKey {
    /// The entity's type.
    pub entity_type: EntityType,
    /// Identifier of the individual entity.
    pub entity_id: String,
    /// Causality region of the data source that created the entity. For a
    /// lookup, the region of the data source doing the lookup: an entity
    /// created in another, non-global region is not found.
    pub causality_region: CausalityRegion,
}

/// Mathematical form of an [`EntityKey`].
pub struct KeyModel {
    pub entity_type: EntityTypeModel,
    pub entity_id: Seq<char>,
    pub causality_region: i32,
}

impl View for EntityKey {
    type V = KeyModel;

    open spec fn view(&self) -> KeyModel {
        KeyModel {
            entity_type: self.entity_type@,
            entity_id: self.entity_id@,
            causality_region: self.causality_region.0,
        }
    }
}

/// The key made of the given parts.
pub open spec fn key_of(entity_type: EntityTypeModel, entity_id: Seq<char>, causality_region: i32) -> KeyModel {
    KeyModel { entity_type, entity_id, causality_region }
}

/// Keys order by entity type, then identifier, then causality region.
pub open spec fn key_cmp(a: KeyModel, b: KeyModel) -> Ordering {
    let by_type = entity_type_cmp(a.entity_type, b.entity_type);
    let by_id = lex_cmp(a.entity_id, b.entity_id);
    if by_type != Ordering::Equal {
        by_type
    } else if by_id != Ordering::Equal {
        by_id
    } else {
        int_cmp(a.causality_region as int, b.causality_region as int)
    }
}

/// Whether a lookup for `lookup` may return the stored record `record`: same
/// type and identifier, and the record's region is visible from the lookup's.
pub open spec fn observes(lookup: KeyModel, record: KeyModel) -> bool {
    &&& record.entity_type == lookup.entity_type
    &&& record.entity_id == lookup.entity_id
    &&& CausalityRegion(record.causality_region).spec_visible_from(
        CausalityRegion(lookup.causality_region),
    )
}

/// The diagnostic text of a key: `EntityKey(type[id], cr=region)`.
pub open spec fn debug_text(k: KeyModel) -> Seq<char> {
    "EntityKey("@ + k.entity_type.name + "["@ + k.entity_id + "], cr="@ + decimal_of(
        k.causality_region as int,
    ) + ")"@
}

/// A key is equal to itself, and two keys are equal exactly when their entity
/// types, identifiers and causality regions are all equal: changing any one
/// part gives a different key.
pub proof fn law_key_identity(
    t1: EntityTypeModel,
    id1: Seq<char>,
    cr1: i32,
    t2: EntityTypeModel,
    id2: Seq<char>,
    cr2: i32,
)
    ensures
        key_of(t1, id1, cr1) == key_of(t1, id1, cr1),
        key_of(t1, id1, cr1) == key_of(t2, id2, cr2) <==> (t1 == t2 && id1 == id2 && cr1 == cr2),
{
}

/// The order on keys agrees with equality: two keys compare `Equal` exactly
/// when they are the same key.
pub proof fn law_order_matches_equality(a: KeyModel, b: KeyModel)
    ensures
        key_cmp(a, b) == Ordering::Equal <==> a == b,
{
    lemma_entity_type_cmp_equal(a.entity_type, b.entity_type);
    lemma_lex_equal(a.entity_id, b.entity_id);
}

/// The order on keys is antisymmetric: `a` is below `b` exactly when `b` is
/// above `a`.
pub proof fn law_order_antisymmetric(a: KeyModel, b: KeyModel)
    ensures
        key_cmp(a, b) == Ordering::Less <==> key_cmp(b, a) == Ordering::Greater,
{
    lemma_entity_type_cmp_flip(a.entity_type, b.entity_type);
    lemma_entity_type_cmp_flip(b.entity_type, a.entity_type);
    lemma_entity_type_cmp_equal(a.entity_type, b.entity_type);
    lemma_entity_type_cmp_equal(b.entity_type, a.entity_type);
    lemma_lex_flip(a.entity_id, b.entity_id);
    lemma_lex_flip(b.entity_id, a.entity_id);
    lemma_lex_equal(a.entity_id, b.entity_id);
    lemma_lex_equal(b.entity_id, a.entity_id);
}

/// The order on keys is transitive.
pub proof fn law_order_transitive(a: KeyModel, b: KeyModel, c: KeyModel)
    requires
        key_cmp(a, b) == Ordering::Less,
        key_cmp(b, c) == Ordering::Less,
    ensures
        key_cmp(a, c) == Ordering::Less,
{
    lemma_entity_type_cmp_equal(a.entity_type, b.entity_type);
    lemma_entity_type_cmp_equal(b.entity_type, c.entity_type);
    lemma_entity_type_cmp_equal(a.entity_type, c.entity_type);
    lemma_lex_equal(a.entity_id, b.entity_id);
    lemma_lex_equal(b.entity_id, c.entity_id);
    lemma_lex_equal(a.entity_id, c.entity_id);
    if entity_type_cmp(a.entity_type, b.entity_type) == Ordering::Less && entity_type_cmp(
        b.entity_type,
        c.entity_type,
    ) == Ordering::Less {
        lemma_entity_type_cmp_trans(a.entity_type, b.entity_type, c.entity_type);
    }
    if lex_cmp(a.entity_id, b.entity_id) == Ordering::Less && lex_cmp(b.entity_id, c.entity_id)
        == Ordering::Less {
        lemma_lex_trans(a.entity_id, b.entity_id, c.entity_id);
    }
}

/// Keys are ordered first by entity type, whatever their identifiers; among
/// keys of one entity type by identifier; and among keys of one type and
/// identifier by causality region.
pub proof fn law_order_priority(a: KeyModel, b: KeyModel)
    ensures
        entity_type_cmp(a.entity_type, b.entity_type) != Ordering::Equal ==> key_cmp(a, b)
            == entity_type_cmp(a.entity_type, b.entity_type),
        a.entity_type == b.entity_type ==> key_cmp(a, b) == (if a.entity_id == b.entity_id {
            int_cmp(a.causality_region as int, b.causality_region as int)
        } else {
            lex_cmp(a.entity_id, b.entity_id)
        }),
{
    lemma_entity_type_cmp_equal(a.entity_type, b.entity_type);
    lemma_lex_equal(a.entity_id, b.entity_id);
}

/// Isolation between producers: a lookup never observes a record created in
/// a different causality region unless that region is the globally-visible
/// one.
pub proof fn law_isolation(lookup: KeyModel, record: KeyModel)
    requires
        record.causality_region != lookup.causality_region,
        !CausalityRegion(record.causality_region).spec_is_onchain(),
    ensures
        !observes(lookup, record),
{
}

impl EntityKey {
    /// Builds the key made of the three given parts.
    pub fn new(entity_type: EntityType, entity_id: String, causality_region: CausalityRegion) -> (r:
        EntityKey)
        ensures
            r@ == key_of(entity_type@, entity_id@, causality_region.0),
    {
        EntityKey { entity_type, entity_id, causality_region }
    }

    /// Key of the entity with identifier `id` that a related-entity lookup
    /// resolves to: the request's entity type and causality region, so the
    /// traversal stays in the region of the data source that issued it.
    pub fn from(id: &String, load_related_request: &LoadRelatedRequest) -> (r: EntityKey)
        ensures
            r@ == key_of(
                load_related_request.entity_type@,
                id@,
                load_related_request.causality_region.0,
            ),
    {
        EntityKey::new(
            load_related_request.entity_type.clone(),
            id.clone(),
            load_related_request.causality_region,
        )
    }

    /// The identifier converted into the entity type's declared identifier
    /// representation.
    pub fn id_value(&self) -> (r: Result<Value, ConversionError>)
        ensures
            match r {
                Ok(v) => parse_id_spec(self.entity_type.id_type, self.entity_id@) == Ok::<
                    ValueModel,
                    ConversionErrorKind,
                >(v@),
                Err(e) => parse_id_spec(self.entity_type.id_type, self.entity_id@) == Err::<
                    ValueModel,
                    ConversionErrorKind,
                >(e.kind) && e.id@ == self.entity_id@,
            },
    {
        self.entity_type.id_value(self.entity_id.as_str())
    }

    /// Store error for an attribute of this key's entity type that the
    /// interning subsystem does not know: names the entity type and keeps the
    /// failure's message as it is.
    pub fn unknown_attribute(&self, err: InternError) -> (r: StoreError)
        ensures
            r matches StoreError::UnknownAttribute(t, m) && t@ == self.entity_type.name@ && m@
                == err.spec_message(),
    {
        StoreError::UnknownAttribute(self.entity_type.name.clone(), err.not_interned())
    }

    /// Diagnostic text of the form `EntityKey(type[id], cr=region)`, for logs
    /// only.
    pub fn debug_string(&self) -> (r: String)
        ensures
            r@ == debug_text(self@),
    {
        let mut out = String::from_str("EntityKey(");
        out.append(self.entity_type.as_str());
        out.append("[");
        out.append(self.entity_id.as_str());
        out.append("], cr=");
        let region = decimal_text(self.causality_region.0);
        out.append(region.as_str());
        out.append(")");
        out
    }

    /// Three-way comparison by entity type, then identifier, then causality
    /// region.
    pub fn compare(&self, other: &EntityKey) -> (r: Ordering)
        ensures
            r == key_cmp(self@, other@),
    {
        let by_type = self.entity_type.compare(&other.entity_type);
        if !matches!(by_type, Ordering::Equal) {
            return by_type;
        }
        let by_id = compare_text(self.entity_id.as_str(), other.entity_id.as_str());
        if !matches!(by_id, Ordering::Equal) {
            return by_id;
        }
        let a = self.causality_region.0;
        let b = other.causality_region.0;
        if a < b {
            Ordering::Less
        } else if a > b {
            Ordering::Greater
        } else {
            Ordering::Equal
        }
    }

    /// Whether a lookup for this key may return the stored record `record`.
    pub fn observes(&self, record: &EntityKey) -> (r: bool)
        ensures
            r == observes(self@, record@),
    {
        self.entity_type == record.entity_type && self.entity_id == record.entity_id
            && record.causality_region.visible_from(self.causality_region)
    }

    /// Position of the first record in `records` that a lookup for this key
    /// may return, or `None` when there is none: a record of the same type and
    /// identifier created in another, non-global region is never returned.
    pub fn find_visible(&self, records: &[EntityKey]) -> (r: Option<usize>)
        ensures
            match r {
                Some(i) => i < records@.len() && observes(self@, records@[i as int]@) && forall|
                    j: int,
                | 0 <= j < i ==> !observes(self@, #[trigger] records@[j]@),
                None => forall|j: int|
                    0 <= j < records@.len() ==> !observes(self@, #[trigger] records@[j]@),
            },
    {
        let mut i: usize = 0;
        while i < records.len()
            invariant
                i <= records@.len(),
                forall|j: int| 0 <= j < i ==> !observes(self@, #[trigger] records@[j]@),
            decreases records@.len() - i,
        {
            if self.observes(&records[i]) {
                return Some(i);
            }
            i += 1;
        }
        None
    }
}

impl Clone for EntityKey {
    fn clone(&self) -> (r: EntityKey)
        ensures
            r == *self,
    {
        EntityKey {
            entity_type: self.entity_type.clone(),
            entity_id: self.entity_id.clone(),
            causality_region: self.causality_region,
        }
    }
}

impl PartialEq for EntityKey {
    fn eq(&self, other: &EntityKey) -> (r: bool) {
        self.entity_type == other.entity_type && self.entity_id == other.entity_id
            && self.causality_region == other.causality_region
    }
}

impl vstd::std_specs::cmp::PartialEqSpecImpl for EntityKey {
    open spec fn obeys_eq_spec() -> bool {
        true
    }

    open spec fn eq_spec(&self, other: &EntityKey) -> bool {
        self@ == other@
    }
}

impl PartialOrd for EntityKey {
    fn partial_cmp(&self, other: &EntityKey) -> (r: Option<Ordering>) {
        Some(self.compare(other))
    }
}

impl vstd::std_specs::cmp::PartialOrdSpecImpl for EntityKey {
    open spec fn obeys_partial_cmp_spec() -> bool {
        true
    }

    open spec fn partial_cmp_spec(&self, other: &EntityKey) -> Option<Ordering> {
        Some(key_cmp(self@, other@))
    }
}

} // verus!
