//! The filter variant synthesizer: for one field, the closed set of filter
//! operations the entity's generated filter enum offers, each with its tag,
//! builder name, payload type, serialization rule and builder return
//! capability; and the aggregation of those sets over an entity with the
//! tag-uniqueness check.

use vstd::prelude::*;

use crate::names::spec_snake;
use crate::names::spec_tag;
use crate::names::snake_case;
use crate::names::str_matches;
use crate::names::variant_tag;
use crate::params::WhereParam;
use crate::params::UniqueWhereParam;
use crate::schema::Arity;
use crate::schema::EntityDescriptor;
use crate::schema::FieldDescriptor;
use crate::schema::FieldKind;
use crate::schema::SynthError;
use crate::wire::WireValue;

verus! {

/// The payload type a filter variant carries.
#[derive(Clone, Copy, Debug, PartialEq, Eq, Structural)]
pub enum PayloadKind {
    /// No payload at all.
    NoPayload,
    /// A list of the related entity's filters.
    RelatedWhereList,
    /// A list of the composite type's filters.
    CompositeWhereList,
    /// A list of filter groups, one per element of a composite list.
    CompositeWhereListList,
    /// A value of the field's own type.
    ScalarValue,
}

/// How a variant's payload serializes into the wire format.
#[derive(Clone, Copy, Debug, PartialEq, Eq, Structural)]
pub enum RuleKind {
    /// `(field, Null)`.
    NullValue,
    /// `(field, Bool(true))`.
    BoolTrueValue,
    /// `(field, Object[("isEmpty", Bool(true))])`.
    IsEmptyObject,
    /// `(field, Object[(method, Object(serialized payload))])`.
    MethodObject,
    /// `(field, Object[("equals", List of one Object per group)])`.
    EqualsListObject,
    /// `(field, Object[(method, value)])`.
    FilterEncoding,
}

/// What capability the variant's builder function returns.
#[derive(Clone, Copy, Debug, PartialEq, Eq, Structural)]
pub enum BuilderReturn {
    /// The general filter capability.
    General,
    /// The unique-lookup capability, usable by unique-find operations.
    UniqueLookup,
    /// Either capability, resolved at the call site.
    EitherLookup,
}

/// One synthesized filter variant of an entity's filter enum.
#[derive(Debug)]
pub struct FilterVariant {
    /// The variant's tag, unique within the entity.
    pub tag: String,
    /// The builder function's name.
    pub builder: String,
    /// The method name as it appears on the wire.
    pub method: String,
    pub payload: PayloadKind,
    pub rule: RuleKind,
    pub ret: BuilderReturn,
}

/// The mathematical model of a synthesized variant.
pub struct VariantShape {
    pub tag: Seq<char>,
    pub builder: Seq<char>,
    pub method: Seq<char>,
    pub payload: PayloadKind,
    pub rule: RuleKind,
    pub ret: BuilderReturn,
}

impl View for FilterVariant {
    type V = VariantShape;

    open spec fn view(&self) -> VariantShape {
        VariantShape {
            tag: self.tag@,
            builder: self.builder@,
            method: self.method@,
            payload: self.payload,
            rule: self.rule,
            ret: self.ret,
        }
    }
}

impl DeepView for FilterVariant {
    type V = VariantShape;

    open spec fn deep_view(&self) -> VariantShape {
        self.view()
    }
}

/// The variant synthesized for one method on one field: the tag joins the
/// Pascal-cased field and method names, the builder is the snake-cased
/// method name, and the method keeps its wire spelling.
pub open spec fn spec_shape(
    field: Seq<char>,
    method: Seq<char>,
    payload: PayloadKind,
    rule: RuleKind,
    ret: BuilderReturn,
) -> VariantShape {
    VariantShape {
        tag: spec_tag(field, method),
        builder: spec_snake(method),
        method,
        payload,
        rule,
        ret,
    }
}

/// What capability the equality builder returns for a scalar field: the
/// unique lookup for the sole primary key and for a required single-field
/// unique index; either capability, resolved by the caller, for an optional
/// unique field; the general filter otherwise.
pub open spec fn spec_equals_return(f: FieldDescriptor) -> BuilderReturn {
    if f.is_single_pk || (f.is_unique && f.arity == Arity::Required) {
        BuilderReturn::UniqueLookup
    } else if f.is_unique {
        BuilderReturn::EitherLookup
    } else {
        BuilderReturn::General
    }
}

/// The filter variants of a relation field: `isNull` when optional, then
/// one variant per relation method the schema supplies.
pub open spec fn spec_relation_variants(f: FieldDescriptor) -> Seq<VariantShape> {
    let base: Seq<VariantShape> = if f.arity == Arity::Optional {
        seq![
            spec_shape(
                f.name@,
                "isNull"@,
                PayloadKind::NoPayload,
                RuleKind::NullValue,
                BuilderReturn::General,
            )
        ]
    } else {
        Seq::empty()
    };
    base + Seq::new(
        f.relation_methods@.len(),
        |i: int|
            spec_shape(
                f.name@,
                f.relation_methods@[i]@,
                PayloadKind::RelatedWhereList,
                RuleKind::MethodObject,
                BuilderReturn::General,
            ),
    )
}

/// The filter variants of a composite field: `every`, `some`, `none`,
/// `equals` and `isEmpty` for a list; `isSet` when optional, then `equals`,
/// `is` and `isNot` for a singular value.
pub open spec fn spec_composite_variants(f: FieldDescriptor) -> Seq<VariantShape> {
    if f.arity == Arity::List {
        seq![
            spec_shape(
                f.name@,
                "every"@,
                PayloadKind::CompositeWhereList,
                RuleKind::MethodObject,
                BuilderReturn::General,
            ),
            spec_shape(
                f.name@,
                "some"@,
                PayloadKind::CompositeWhereList,
                RuleKind::MethodObject,
                BuilderReturn::General,
            ),
            spec_shape(
                f.name@,
                "none"@,
                PayloadKind::CompositeWhereList,
                RuleKind::MethodObject,
                BuilderReturn::General,
            ),
            spec_shape(
                f.name@,
                "equals"@,
                PayloadKind::CompositeWhereListList,
                RuleKind::EqualsListObject,
                BuilderReturn::General,
            ),
            spec_shape(
                f.name@,
                "isEmpty"@,
                PayloadKind::NoPayload,
                RuleKind::IsEmptyObject,
                BuilderReturn::General,
            ),
        ]
    } else {
        let base: Seq<VariantShape> = if f.arity == Arity::Optional {
            seq![
                spec_shape(
                    f.name@,
                    "isSet"@,
                    PayloadKind::NoPayload,
                    RuleKind::BoolTrueValue,
                    BuilderReturn::General,
                )
            ]
        } else {
            Seq::empty()
        };
        base + seq![
            spec_shape(
                f.name@,
                "equals"@,
                PayloadKind::CompositeWhereList,
                RuleKind::MethodObject,
                BuilderReturn::General,
            ),
            spec_shape(
                f.name@,
                "is"@,
                PayloadKind::CompositeWhereList,
                RuleKind::MethodObject,
                BuilderReturn::General,
            ),
            spec_shape(
                f.name@,
                "isNot"@,
                PayloadKind::CompositeWhereList,
                RuleKind::MethodObject,
                BuilderReturn::General,
            ),
        ]
    }
}

/// The filter variants of a plain scalar field: one per catalogue method,
/// with the equality builder's return capability special-cased.
pub open spec fn spec_scalar_variants(f: FieldDescriptor) -> Seq<VariantShape> {
    match f.filter_methods {
        Some(ms) => Seq::new(
            ms@.len(),
            |i: int|
                spec_shape(
                    f.name@,
                    ms@[i]@,
                    PayloadKind::ScalarValue,
                    RuleKind::FilterEncoding,
                    if ms@[i]@ == "equals"@ {
                        spec_equals_return(f)
                    } else {
                        BuilderReturn::General
                    },
                ),
        ),
        None => Seq::empty(),
    }
}

/// The complete filter variant set of one field.
pub open spec fn spec_field_variants(f: FieldDescriptor) -> Seq<VariantShape> {
    match f.kind {
        FieldKind::Relation => spec_relation_variants(f),
        FieldKind::Composite => spec_composite_variants(f),
        FieldKind::Scalar => spec_scalar_variants(f),
    }
}

/// The concatenated variant sets of an entity's fields, from `from` on.
pub open spec fn spec_entity_variants_from(fields: Seq<FieldDescriptor>, from: int) -> Seq<
    VariantShape,
>
    decreases fields.len() - from,
{
    if from < 0 || from >= fields.len() {
        Seq::empty()
    } else {
        spec_field_variants(fields[from]) + spec_entity_variants_from(fields, from + 1)
    }
}

/// The complete filter variant sequence of an entity, field by field in
/// declaration order.
pub open spec fn spec_entity_variants(fields: Seq<FieldDescriptor>) -> Seq<VariantShape> {
    spec_entity_variants_from(fields, 0)
}

/// Whether every field of the sequence is supported by the synthesizer.
pub open spec fn spec_all_supported(fields: Seq<FieldDescriptor>) -> bool {
    forall|i: int| 0 <= i < fields.len() ==> (#[trigger] fields[i]).spec_supported()
}

/// Whether no two variants of the sequence carry the same tag.
pub open spec fn spec_distinct_tags(s: Seq<VariantShape>) -> bool {
    forall|i: int, j: int| 0 <= i < j < s.len() ==> s[i].tag != s[j].tag
}

/// Builds one synthesized variant.
fn make_variant(
    field: &str,
    method: &str,
    payload: PayloadKind,
    rule: RuleKind,
    ret: BuilderReturn,
) -> (v: FilterVariant)
    ensures
        v@ == spec_shape(field@, method@, payload, rule, ret),
{
    FilterVariant {
        tag: variant_tag(field, method),
        builder: snake_case(method),
        method: method.to_owned(),
        payload,
        rule,
        ret,
    }
}

/// What capability the equality builder returns for this scalar field.
pub fn equals_return(f: &FieldDescriptor) -> (r: BuilderReturn)
    ensures
        r == spec_equals_return(*f),
{
    if f.is_single_pk || (f.is_unique && f.arity == Arity::Required) {
        BuilderReturn::UniqueLookup
    } else if f.is_unique {
        BuilderReturn::EitherLookup
    } else {
        BuilderReturn::General
    }
}

/// The equality builder's result: the capability depends on the field's
/// uniqueness, and for an optional unique field the call site resolves
/// which of the two encodings materializes.
pub enum EqualsValue {
    /// A unique lookup, usable wherever uniqueness is demanded.
    Unique(UniqueWhereParam),
    /// Either a unique lookup or a general filter; the caller resolves it
    /// with `UniqueWhereParam::into_where` when a general filter is wanted.
    Either(UniqueWhereParam),
    /// A general filter only.
    Filter(WhereParam),
}

/// The equality builder for a scalar field.
pub fn equals(f: &FieldDescriptor, value: WireValue) -> (r: EqualsValue)
    ensures
        spec_equals_return(*f) == BuilderReturn::UniqueLookup ==> (r matches EqualsValue::Unique(u)
            && u.field@ == f.name@ && u.value == value),
        spec_equals_return(*f) == BuilderReturn::EitherLookup ==> (r matches EqualsValue::Either(u)
            && u.field@ == f.name@ && u.value == value),
        spec_equals_return(*f) == BuilderReturn::General ==> (r matches EqualsValue::Filter(p)
            && p matches WhereParam::Scalar(fname, m, v) && fname@ == f.name@ && m@ == "equals"@
            && v == value),
{
    let ret = equals_return(f);
    match ret {
        BuilderReturn::UniqueLookup => EqualsValue::Unique(
            UniqueWhereParam { field: f.name.clone(), value },
        ),
        BuilderReturn::EitherLookup => EqualsValue::Either(
            UniqueWhereParam { field: f.name.clone(), value },
        ),
        BuilderReturn::General => EqualsValue::Filter(
            WhereParam::Scalar(f.name.clone(), String::from_str("equals"), value),
        ),
    }
}

/// Law: for a scalar field that is the entity's sole primary key, the
/// equality builder returns the unique-lookup capability, never the general
/// filter capability.
pub proof fn lemma_single_pk_equals_unique(f: FieldDescriptor)
    requires
        f.is_single_pk,
    ensures
        spec_equals_return(f) == BuilderReturn::UniqueLookup,
{
}

/// The filter variant set of one field; refused when a plain scalar field's
/// type has no filter catalogue.
#[verifier::loop_isolation(false)]
pub fn field_where_params(f: &FieldDescriptor) -> (r: Result<Vec<FilterVariant>, SynthError>)
    ensures
        r is Ok <==> f.spec_supported(),
        r is Ok ==> r->Ok_0.deep_view() == spec_field_variants(*f),
        r matches Err(err) ==> (err matches SynthError::UnsupportedField(n) && n@ == f.name@),
{
    let ghost gs = spec_field_variants(*f);
    let mut out: Vec<FilterVariant> = Vec::new();
    match f.kind {
        FieldKind::Relation => {
            if f.arity == Arity::Optional {
                out.push(
                    make_variant(
                        f.name.as_str(),
                        "isNull",
                        PayloadKind::NoPayload,
                        RuleKind::NullValue,
                        BuilderReturn::General,
                    ),
                );
            }
            let ghost base: usize = out@.len() as usize;
            let mut i: usize = 0;
            while i < f.relation_methods.len()
                invariant
                    0 <= i <= f.relation_methods@.len(),
                    out@.len() == base + i,
                    forall|k: int| 0 <= k < out@.len() ==> (#[trigger] out@[k])@ == gs[k],
                decreases f.relation_methods@.len() - i,
            {
                let m: &String = &f.relation_methods[i];
                out.push(
                    make_variant(
                        f.name.as_str(),
                        m.as_str(),
                        PayloadKind::RelatedWhereList,
                        RuleKind::MethodObject,
                        BuilderReturn::General,
                    ),
                );
                i = i + 1;
            }
            proof {
                assert(out.deep_view() =~= gs);
            }
            Ok(out)
        },
        FieldKind::Composite => {
            if f.arity == Arity::List {
                out.push(
                    make_variant(
                        f.name.as_str(),
                        "every",
                        PayloadKind::CompositeWhereList,
                        RuleKind::MethodObject,
                        BuilderReturn::General,
                    ),
                );
                out.push(
                    make_variant(
                        f.name.as_str(),
                        "some",
                        PayloadKind::CompositeWhereList,
                        RuleKind::MethodObject,
                        BuilderReturn::General,
                    ),
                );
                out.push(
                    make_variant(
                        f.name.as_str(),
                        "none",
                        PayloadKind::CompositeWhereList,
                        RuleKind::MethodObject,
                        BuilderReturn::General,
                    ),
                );
                out.push(
                    make_variant(
                        f.name.as_str(),
                        "equals",
                        PayloadKind::CompositeWhereListList,
                        RuleKind::EqualsListObject,
                        BuilderReturn::General,
                    ),
                );
                out.push(
                    make_variant(
                        f.name.as_str(),
                        "isEmpty",
                        PayloadKind::NoPayload,
                        RuleKind::IsEmptyObject,
                        BuilderReturn::General,
                    ),
                );
            } else {
                if f.arity == Arity::Optional {
                    out.push(
                        make_variant(
                            f.name.as_str(),
                            "isSet",
                            PayloadKind::NoPayload,
                            RuleKind::BoolTrueValue,
                            BuilderReturn::General,
                        ),
                    );
                }
                out.push(
                    make_variant(
                        f.name.as_str(),
                        "equals",
                        PayloadKind::CompositeWhereList,
                        RuleKind::MethodObject,
                        BuilderReturn::General,
                    ),
                );
                out.push(
                    make_variant(
                        f.name.as_str(),
                        "is",
                        PayloadKind::CompositeWhereList,
                        RuleKind::MethodObject,
                        BuilderReturn::General,
                    ),
                );
                out.push(
                    make_variant(
                        f.name.as_str(),
                        "isNot",
                        PayloadKind::CompositeWhereList,
                        RuleKind::MethodObject,
                        BuilderReturn::General,
                    ),
                );
            }
            proof {
                assert(out.deep_view() =~= gs);
            }
            Ok(out)
        },
        FieldKind::Scalar => {
            match &f.filter_methods {
                None => Err(SynthError::UnsupportedField(f.name.clone())),
                Some(ms) => {
                    let mut i: usize = 0;
                    while i < ms.len()
                        invariant
                            0 <= i <= ms@.len(),
                            out@.len() == i,
                            forall|k: int| 0 <= k < i ==> (#[trigger] out@[k])@ == gs[k],
                        decreases ms@.len() - i,
                    {
                        let m: &String = &ms[i];
                        let ret = if str_matches(m.as_str(), "equals") {
                            equals_return(f)
                        } else {
                            BuilderReturn::General
                        };
                        out.push(
                            make_variant(
                                f.name.as_str(),
                                m.as_str(),
                                PayloadKind::ScalarValue,
                                RuleKind::FilterEncoding,
                                ret,
                            ),
                        );
                        i = i + 1;
                    }
                    proof {
                        assert(out.deep_view() =~= gs);
                    }
                    Ok(out)
                },
            }
        },
    }
}

/// The aggregated filter variant sequence of a whole entity; refused when a
/// field is unsupported or when two variants would carry the same tag.
#[verifier::loop_isolation(false)]
pub fn entity_where_params(e: &EntityDescriptor) -> (r: Result<Vec<FilterVariant>, SynthError>)
    ensures
        r is Ok <==> spec_all_supported(e.fields@) && spec_distinct_tags(
            spec_entity_variants(e.fields@),
        ),
        r is Ok ==> r->Ok_0.deep_view() == spec_entity_variants(e.fields@),
        r matches Err(err) ==> (err is UnsupportedField || err is DuplicateTag),
{
    let ghost fields = e.fields@;
    let mut out: Vec<FilterVariant> = Vec::new();
    let mut idx: usize = 0;
    while idx < e.fields.len()
        invariant
            0 <= idx <= fields.len(),
            forall|k: int| 0 <= k < idx ==> (#[trigger] fields[k]).spec_supported(),
            out.deep_view() + spec_entity_variants_from(fields, idx as int)
                == spec_entity_variants(fields),
        decreases fields.len() - idx,
    {
        let field: &FieldDescriptor = &e.fields[idx];
        let mut vs = match field_where_params(field) {
            Ok(vs) => vs,
            Err(err) => {
                return Err(err);
            },
        };
        proof {
            assert((out.deep_view() + vs.deep_view()) + spec_entity_variants_from(
                fields,
                idx + 1,
            ) =~= out.deep_view() + spec_entity_variants_from(fields, idx as int));
        }
        while vs.len() > 0
            invariant
                out.deep_view() + vs.deep_view() + spec_entity_variants_from(fields, idx + 1)
                    == spec_entity_variants(fields),
            decreases vs@.len(),
        {
            let ghost old_out = out.deep_view();
            let ghost old_vs = vs.deep_view();
            let v = vs.remove(0);
            out.push(v);
            proof {
                assert(out.deep_view() =~= old_out.push(v@));
                assert(vs.deep_view() =~= old_vs.drop_first());
                assert(out.deep_view() + vs.deep_view() =~= old_out + old_vs);
            }
        }
        idx = idx + 1;
    }
    proof {
        assert(out.deep_view() + spec_entity_variants_from(fields, idx as int) =~= out.deep_view());
        assert(out.deep_view() =~= spec_entity_variants(fields));
    }
    let n = out.len();
    let mut i: usize = 0;
    while i < n
        invariant
            0 <= i <= n,
            n == out@.len(),
            out.deep_view() == spec_entity_variants(fields),
            spec_all_supported(fields),
            forall|a: int, b: int|
                0 <= a < i && a < b < out@.len() ==> out@[a].tag@ != out@[b].tag@,
        decreases n - i,
    {
        let mut j: usize = i + 1;
        while j < n
            invariant
                0 <= i < j <= n,
                n == out@.len(),
                out.deep_view() == spec_entity_variants(fields),
                spec_all_supported(fields),
                forall|a: int, b: int|
                    0 <= a < i && a < b < out@.len() ==> out@[a].tag@ != out@[b].tag@,
                forall|b: int| i < b < j ==> out@[i as int].tag@ != out@[b].tag@,
            decreases n - j,
        {
            if str_matches(out[i].tag.as_str(), out[j].tag.as_str()) {
                proof {
                    assert(spec_entity_variants(fields)[i as int].tag == spec_entity_variants(
                        fields,
                    )[j as int].tag);
                    assert(!spec_distinct_tags(spec_entity_variants(fields)));
                }
                return Err(SynthError::DuplicateTag(out[i].tag.clone()));
            }
            j = j + 1;
        }
        i = i + 1;
    }
    proof {
        assert(spec_distinct_tags(spec_entity_variants(fields)));
    }
    Ok(out)
}

} // verus!
