//! Resolved field and entity descriptors: the input that the schema walker
//! hands to the synthesizers, read-only for the duration of one synthesis
//! pass.

use vstd::prelude::*;

verus! {

/// What sort of field a descriptor describes.
#[derive(Clone, Copy, Debug, PartialEq, Eq, Structural)]
pub enum FieldKind {
    /// A plain value field whose type has a filter method catalogue.
    Scalar,
    /// A link to another entity.
    Relation,
    /// A value field whose type is itself a structured sub-schema.
    Composite,
}

/// How many values a field holds.
#[derive(Clone, Copy, Debug, PartialEq, Eq, Structural)]
pub enum Arity {
    Required,
    Optional,
    List,
}

/// One resolved field of an entity, as the schema walker exposes it.
pub struct FieldDescriptor {
    /// The field's declared name, exactly as it appears in the schema.
    pub name: String,
    pub kind: FieldKind,
    pub arity: Arity,
    /// Whether the field is covered by a single-field unique index.
    pub is_unique: bool,
    /// Whether the field is the entity's sole primary key.
    pub is_single_pk: bool,
    /// For relation and composite fields: the related entity's or the
    /// composite type's name. Empty for plain scalars.
    pub related: String,
    /// For relation fields: the relation filter methods the schema supplies
    /// (`is`, `isNot`, `every`, `some`, `none`, as applicable).
    pub relation_methods: Vec<String>,
    /// For plain scalar fields: the filter method catalogue of the field's
    /// value type, or `None` when the type has no known catalogue.
    pub filter_methods: Option<Vec<String>>,
    /// For composite fields: whether every sub-field required at creation
    /// has a valid creation payload of its own.
    pub creatable: bool,
}

/// One entity of the data model with its resolved fields.
pub struct EntityDescriptor {
    pub name: String,
    pub fields: Vec<FieldDescriptor>,
}

/// Why a synthesis pass refused a schema.
#[derive(Debug, PartialEq, Eq)]
pub enum SynthError {
    /// A plain scalar field whose declared type has no filter catalogue.
    UnsupportedField(String),
    /// Two variants of one entity enum would carry the same tag.
    DuplicateTag(String),
}

impl FieldDescriptor {
    /// Whether the synthesizers accept this field.
    pub open spec fn spec_supported(self) -> bool {
        self.kind != FieldKind::Scalar || self.filter_methods is Some
    }
}

/// One index of an entity, as the schema walker exposes it.
pub struct IndexDescriptor {
    pub is_unique: bool,
    /// The names of the indexed fields, in index order.
    pub fields: Vec<String>,
}

/// Whether some unique index covers exactly the one named field.
pub open spec fn spec_covered_by_single_unique(indexes: Seq<IndexDescriptor>, field: Seq<
    char,
>) -> bool {
    exists|i: int|
        0 <= i < indexes.len() && (#[trigger] indexes[i]).is_unique && indexes[i].fields@.len() == 1
            && indexes[i].fields@[0]@ == field
}

/// Whether some unique index covers exactly the one named field; this is
/// what marks a field as uniquely looked up besides the primary key.
pub fn covered_by_single_unique(indexes: &Vec<IndexDescriptor>, field: &str) -> (r: bool)
    ensures
        r == spec_covered_by_single_unique(indexes@, field@),
{
    let mut i: usize = 0;
    while i < indexes.len()
        invariant
            0 <= i <= indexes@.len(),
            forall|k: int|
                0 <= k < i ==> !((#[trigger] indexes@[k]).is_unique && indexes@[k].fields@.len()
                    == 1 && indexes@[k].fields@[0]@ == field@),
        decreases indexes@.len() - i,
    {
        let idx: &IndexDescriptor = &indexes[i];
        if idx.is_unique && idx.fields.len() == 1 {
            if crate::names::str_matches(idx.fields[0].as_str(), field) {
                return true;
            }
        }
        i = i + 1;
    }
    false
}

} // verus!
