//! The mutation variant synthesizer: for a composite field, the set of
//! mutation operations the entity's change enum offers, conditioned on the
//! field's arity and on whether a creation payload exists; plus the single
//! generic `set` variant of a plain scalar field and the ordering variant
//! of a singular composite field.

use vstd::prelude::*;

use crate::names::pascal_case;
use crate::names::spec_pascal;
use crate::names::str_matches;
use crate::schema::Arity;
use crate::schema::EntityDescriptor;
use crate::schema::FieldDescriptor;
use crate::schema::FieldKind;
use crate::schema::SynthError;

verus! {

/// The mutation operation a variant performs.
#[derive(Clone, Copy, Debug, PartialEq, Eq, Structural)]
pub enum MutationKind {
    /// Replaces the whole value with a creation payload.
    SetOp,
    /// Clears an optional value.
    Unset,
    /// Applies nested changes to a singular value.
    Update,
    /// Updates a present optional value or creates an absent one.
    Upsert,
    /// Appends creation payloads to a list.
    Push,
    /// Applies nested changes to the list elements a nested filter selects.
    UpdateMany,
    /// Removes the list elements a nested filter selects.
    DeleteMany,
}

/// How a creation payload is wrapped by the field's arity.
#[derive(Clone, Copy, Debug, PartialEq, Eq, Structural)]
pub enum CreateWrap {
    Bare,
    Optional,
    List,
}

/// The payload type a mutation variant carries.
#[derive(Clone, Copy, Debug, PartialEq, Eq, Structural)]
pub enum MutationPayload {
    /// A creation payload, wrapped by arity.
    Create(CreateWrap),
    /// No payload.
    NoPayload,
    /// A list of the sub-schema's changes.
    SetList,
    /// A creation payload together with a list of changes.
    CreateAndSetList,
    /// A list of creation payloads.
    CreateList,
    /// A nested filter list together with a list of changes.
    WhereAndSetList,
    /// A nested filter list.
    WhereList,
    /// A plain value of the field's own type.
    Value,
}

/// One synthesized mutation variant of an entity's change enum.
#[derive(Debug)]
pub struct MutationVariant {
    /// The variant's tag, unique within the entity.
    pub tag: String,
    /// The builder function's name.
    pub builder: String,
    pub kind: MutationKind,
    pub payload: MutationPayload,
}

/// The mathematical model of a synthesized mutation variant.
pub struct MutShape {
    pub tag: Seq<char>,
    pub builder: Seq<char>,
    pub kind: MutationKind,
    pub payload: MutationPayload,
}

impl View for MutationVariant {
    type V = MutShape;

    open spec fn view(&self) -> MutShape {
        MutShape { tag: self.tag@, builder: self.builder@, kind: self.kind, payload: self.payload }
    }
}

impl DeepView for MutationVariant {
    type V = MutShape;

    open spec fn deep_view(&self) -> MutShape {
        self.view()
    }
}

/// The variant synthesized for one mutation on one field: the tag is the
/// operation's Pascal-cased name followed by the Pascal-cased field name.
pub open spec fn spec_mut_shape(
    prefix: Seq<char>,
    builder: Seq<char>,
    field: Seq<char>,
    kind: MutationKind,
    payload: MutationPayload,
) -> MutShape {
    MutShape { tag: prefix + spec_pascal(field), builder, kind, payload }
}

/// How a creation payload is wrapped for a field of the given arity.
pub open spec fn spec_create_wrap(arity: Arity) -> CreateWrap {
    match arity {
        Arity::Required => CreateWrap::Bare,
        Arity::Optional => CreateWrap::Optional,
        Arity::List => CreateWrap::List,
    }
}

/// The mutation variant set of a composite field: `set` only when a
/// creation payload exists, `unset` and `upsert` only when optional,
/// `update` only when singular, `push` (only with a creation payload),
/// `update_many` and `delete_many` only for a list.
pub open spec fn spec_composite_set_params(f: FieldDescriptor) -> Seq<MutShape> {
    let set: Seq<MutShape> = if f.creatable {
        seq![
            spec_mut_shape(
                "Set"@,
                "set"@,
                f.name@,
                MutationKind::SetOp,
                MutationPayload::Create(spec_create_wrap(f.arity)),
            )
        ]
    } else {
        Seq::empty()
    };
    let unset: Seq<MutShape> = if f.arity == Arity::Optional {
        seq![
            spec_mut_shape(
                "Unset"@,
                "unset"@,
                f.name@,
                MutationKind::Unset,
                MutationPayload::NoPayload,
            )
        ]
    } else {
        Seq::empty()
    };
    let update: Seq<MutShape> = if f.arity != Arity::List {
        seq![
            spec_mut_shape(
                "Update"@,
                "update"@,
                f.name@,
                MutationKind::Update,
                MutationPayload::SetList,
            )
        ]
    } else {
        Seq::empty()
    };
    let upsert: Seq<MutShape> = if f.arity == Arity::Optional {
        seq![
            spec_mut_shape(
                "Upsert"@,
                "upsert"@,
                f.name@,
                MutationKind::Upsert,
                MutationPayload::CreateAndSetList,
            )
        ]
    } else {
        Seq::empty()
    };
    let push: Seq<MutShape> = if f.arity == Arity::List && f.creatable {
        seq![
            spec_mut_shape(
                "Push"@,
                "push"@,
                f.name@,
                MutationKind::Push,
                MutationPayload::CreateList,
            )
        ]
    } else {
        Seq::empty()
    };
    let many: Seq<MutShape> = if f.arity == Arity::List {
        seq![
            spec_mut_shape(
                "UpdateMany"@,
                "update_many"@,
                f.name@,
                MutationKind::UpdateMany,
                MutationPayload::WhereAndSetList,
            ),
            spec_mut_shape(
                "DeleteMany"@,
                "delete_many"@,
                f.name@,
                MutationKind::DeleteMany,
                MutationPayload::WhereList,
            ),
        ]
    } else {
        Seq::empty()
    };
    set + unset + update + upsert + push + many
}

/// Builds one mutation variant.
fn make_mutation(prefix: &str, builder: &str, field: &str, kind: MutationKind,
    payload: MutationPayload) -> (v: MutationVariant)
    ensures
        v@ == spec_mut_shape(prefix@, builder@, field@, kind, payload),
{
    let mut tag = prefix.to_owned();
    let p = pascal_case(field);
    tag.append(p.as_str());
    MutationVariant { tag, builder: builder.to_owned(), kind, payload }
}

/// The mutation variant set of a composite field.
pub fn composite_set_params(f: &FieldDescriptor) -> (r: Vec<MutationVariant>)
    requires
        f.kind == FieldKind::Composite,
    ensures
        r.deep_view() == spec_composite_set_params(*f),
{
    let mut out: Vec<MutationVariant> = Vec::new();
    if f.creatable {
        let wrap = match f.arity {
            Arity::Required => CreateWrap::Bare,
            Arity::Optional => CreateWrap::Optional,
            Arity::List => CreateWrap::List,
        };
        out.push(
            make_mutation("Set", "set", f.name.as_str(), MutationKind::SetOp,
                MutationPayload::Create(wrap)),
        );
    }
    if f.arity == Arity::Optional {
        out.push(
            make_mutation("Unset", "unset", f.name.as_str(), MutationKind::Unset,
                MutationPayload::NoPayload),
        );
    }
    if !(f.arity == Arity::List) {
        out.push(
            make_mutation("Update", "update", f.name.as_str(), MutationKind::Update,
                MutationPayload::SetList),
        );
    }
    if f.arity == Arity::Optional {
        out.push(
            make_mutation("Upsert", "upsert", f.name.as_str(), MutationKind::Upsert,
                MutationPayload::CreateAndSetList),
        );
    }
    if f.arity == Arity::List && f.creatable {
        out.push(
            make_mutation("Push", "push", f.name.as_str(), MutationKind::Push,
                MutationPayload::CreateList),
        );
    }
    if f.arity == Arity::List {
        out.push(
            make_mutation("UpdateMany", "update_many", f.name.as_str(), MutationKind::UpdateMany,
                MutationPayload::WhereAndSetList),
        );
        out.push(
            make_mutation("DeleteMany", "delete_many", f.name.as_str(), MutationKind::DeleteMany,
                MutationPayload::WhereList),
        );
    }
    proof {
        assert(out.deep_view() =~= spec_composite_set_params(*f));
    }
    out
}

/// The ordering contribution of a composite field: present exactly for
/// singular arity, named by the Pascal-cased field name.
pub struct OrderVariant {
    /// The variant's tag in the entity's ordering enum.
    pub tag: String,
    /// The builder function's name.
    pub builder: String,
}

/// The ordering variant of a composite field, or nothing for a list.
pub fn composite_order_param(f: &FieldDescriptor) -> (r: Option<OrderVariant>)
    requires
        f.kind == FieldKind::Composite,
    ensures
        r is Some <==> f.arity != Arity::List,
        r matches Some(v) ==> v.tag@ == spec_pascal(f.name@) && v.builder@ == "order"@,
{
    if f.arity == Arity::List {
        None
    } else {
        Some(OrderVariant { tag: pascal_case(f.name.as_str()), builder: String::from_str("order") })
    }
}

/// The single generic `set` variant of a plain scalar field, always
/// present, carrying a value of the field's own type.
pub fn scalar_set_param(f: &FieldDescriptor) -> (r: MutationVariant)
    requires
        f.kind == FieldKind::Scalar,
    ensures
        r@ == spec_mut_shape("Set"@, "set"@, f.name@, MutationKind::SetOp, MutationPayload::Value),
{
    make_mutation("Set", "set", f.name.as_str(), MutationKind::SetOp, MutationPayload::Value)
}

/// The mutation variant set of one field: the generic `set` for a plain
/// scalar, the arity-conditioned table for a composite, nothing for a
/// relation.
pub open spec fn spec_field_set_params(f: FieldDescriptor) -> Seq<MutShape> {
    match f.kind {
        FieldKind::Scalar => seq![
            spec_mut_shape("Set"@, "set"@, f.name@, MutationKind::SetOp, MutationPayload::Value)
        ],
        FieldKind::Composite => spec_composite_set_params(f),
        FieldKind::Relation => Seq::empty(),
    }
}

/// The concatenated mutation variant sets of an entity's fields, from
/// `from` on.
pub open spec fn spec_entity_set_params_from(fields: Seq<FieldDescriptor>, from: int) -> Seq<
    MutShape,
>
    decreases fields.len() - from,
{
    if from < 0 || from >= fields.len() {
        Seq::empty()
    } else {
        spec_field_set_params(fields[from]) + spec_entity_set_params_from(fields, from + 1)
    }
}

/// The complete mutation variant sequence of an entity, field by field in
/// declaration order.
pub open spec fn spec_entity_set_params(fields: Seq<FieldDescriptor>) -> Seq<MutShape> {
    spec_entity_set_params_from(fields, 0)
}

/// Whether no two mutation variants of the sequence carry the same tag.
pub open spec fn spec_distinct_mut_tags(s: Seq<MutShape>) -> bool {
    forall|i: int, j: int| 0 <= i < j < s.len() ==> s[i].tag != s[j].tag
}

/// The mutation variant set of one field.
pub fn field_set_params(f: &FieldDescriptor) -> (r: Vec<MutationVariant>)
    ensures
        r.deep_view() == spec_field_set_params(*f),
{
    match f.kind {
        FieldKind::Scalar => {
            let mut out: Vec<MutationVariant> = Vec::new();
            out.push(scalar_set_param(f));
            proof {
                assert(out.deep_view() =~= spec_field_set_params(*f));
            }
            out
        },
        FieldKind::Composite => {
            let out = composite_set_params(f);
            out
        },
        FieldKind::Relation => {
            let out: Vec<MutationVariant> = Vec::new();
            proof {
                assert(out.deep_view() =~= spec_field_set_params(*f));
            }
            out
        },
    }
}

/// The aggregated mutation variant sequence of a whole entity; refused
/// when two variants would carry the same tag.
#[verifier::loop_isolation(false)]
pub fn entity_set_params(e: &EntityDescriptor) -> (r: Result<Vec<MutationVariant>, SynthError>)
    ensures
        r is Ok <==> spec_distinct_mut_tags(spec_entity_set_params(e.fields@)),
        r is Ok ==> r->Ok_0.deep_view() == spec_entity_set_params(e.fields@),
        r matches Err(err) ==> err is DuplicateTag,
{
    let ghost fields = e.fields@;
    let mut out: Vec<MutationVariant> = Vec::new();
    let mut idx: usize = 0;
    while idx < e.fields.len()
        invariant
            0 <= idx <= fields.len(),
            out.deep_view() + spec_entity_set_params_from(fields, idx as int)
                == spec_entity_set_params(fields),
        decreases fields.len() - idx,
    {
        let field: &FieldDescriptor = &e.fields[idx];
        let mut vs = field_set_params(field);
        proof {
            assert((out.deep_view() + vs.deep_view()) + spec_entity_set_params_from(
                fields,
                idx + 1,
            ) =~= out.deep_view() + spec_entity_set_params_from(fields, idx as int));
        }
        while vs.len() > 0
            invariant
                out.deep_view() + vs.deep_view() + spec_entity_set_params_from(fields, idx + 1)
                    == spec_entity_set_params(fields),
            decreases vs@.len(),
        {
            let ghost old_out = out.deep_view();
            let ghost old_vs = vs.deep_view();
            let v = vs.remove(0);
            out.push(v);
            proof {
                assert(out.deep_view() =~= old_out.push(v@));
                assert(vs.deep_view() =~= old_vs.drop_first());
                assert(out.deep_view() + vs.deep_view() =~= old_out + old_vs);
            }
        }
        idx = idx + 1;
    }
    proof {
        assert(out.deep_view() + spec_entity_set_params_from(fields, idx as int)
            =~= out.deep_view());
        assert(out.deep_view() =~= spec_entity_set_params(fields));
    }
    let n = out.len();
    let mut i: usize = 0;
    while i < n
        invariant
            0 <= i <= n,
            n == out@.len(),
            out.deep_view() == spec_entity_set_params(fields),
            forall|a: int, b: int|
                0 <= a < i && a < b < out@.len() ==> out@[a].tag@ != out@[b].tag@,
        decreases n - i,
    {
        let mut j: usize = i + 1;
        while j < n
            invariant
                0 <= i < j <= n,
                n == out@.len(),
                out.deep_view() == spec_entity_set_params(fields),
                forall|a: int, b: int|
                    0 <= a < i && a < b < out@.len() ==> out@[a].tag@ != out@[b].tag@,
                forall|b: int| i < b < j ==> out@[i as int].tag@ != out@[b].tag@,
            decreases n - j,
        {
            if str_matches(out[i].tag.as_str(), out[j].tag.as_str()) {
                proof {
                    assert(spec_entity_set_params(fields)[i as int].tag == spec_entity_set_params(
                        fields,
                    )[j as int].tag);
                    assert(!spec_distinct_mut_tags(spec_entity_set_params(fields)));
                }
                return Err(SynthError::DuplicateTag(out[i].tag.clone()));
            }
            j = j + 1;
        }
        i = i + 1;
    }
    proof {
        assert(spec_distinct_mut_tags(spec_entity_set_params(fields)));
    }
    Ok(out)
}

/// How many variants of the sequence perform the given mutation.
pub open spec fn kind_count(s: Seq<MutShape>, k: MutationKind) -> nat
    decreases s.len(),
{
    if s.len() == 0 {
        0
    } else {
        (if s[0].kind == k {
            1nat
        } else {
            0nat
        }) + kind_count(s.drop_first(), k)
    }
}

proof fn lemma_kind_count_add(a: Seq<MutShape>, b: Seq<MutShape>, k: MutationKind)
    ensures
        kind_count(a + b, k) == kind_count(a, k) + kind_count(b, k),
    decreases a.len(),
{
    if a.len() == 0 {
        assert(a + b =~= b);
    } else {
        assert((a + b).drop_first() =~= a.drop_first() + b);
        lemma_kind_count_add(a.drop_first(), b, k);
        assert((a + b)[0] == a[0]);
    }
}

proof fn lemma_kind_count_singleton(x: MutShape, k: MutationKind)
    ensures
        kind_count(seq![x], k) == if x.kind == k {
            1nat
        } else {
            0nat
        },
{
    assert(seq![x][0] == x);
    assert(seq![x].drop_first() =~= Seq::<MutShape>::empty());
    assert(kind_count(Seq::<MutShape>::empty(), k) == 0);
}

proof fn lemma_kind_count_parts(f: FieldDescriptor, k: MutationKind)
    ensures
        kind_count(spec_composite_set_params(f), k) == {
            let set: nat = if f.creatable && k == MutationKind::SetOp {
                1nat
            } else {
                0nat
            };
            let unset: nat = if f.arity == Arity::Optional && k == MutationKind::Unset {
                1nat
            } else {
                0nat
            };
            let update: nat = if f.arity != Arity::List && k == MutationKind::Update {
                1nat
            } else {
                0nat
            };
            let upsert: nat = if f.arity == Arity::Optional && k == MutationKind::Upsert {
                1nat
            } else {
                0nat
            };
            let push: nat = if f.arity == Arity::List && f.creatable && k == MutationKind::Push {
                1nat
            } else {
                0nat
            };
            let um: nat = if f.arity == Arity::List && k == MutationKind::UpdateMany {
                1nat
            } else {
                0nat
            };
            let dm: nat = if f.arity == Arity::List && k == MutationKind::DeleteMany {
                1nat
            } else {
                0nat
            };
            set + unset + update + upsert + push + um + dm
        },
{
    let s = spec_composite_set_params(f);
    let e: Seq<MutShape> = Seq::empty();
    assert(kind_count(e, k) == 0);
    let set: Seq<MutShape> = if f.creatable {
        seq![
            spec_mut_shape(
                "Set"@,
                "set"@,
                f.name@,
                MutationKind::SetOp,
                MutationPayload::Create(spec_create_wrap(f.arity)),
            )
        ]
    } else {
        Seq::empty()
    };
    let unset: Seq<MutShape> = if f.arity == Arity::Optional {
        seq![
            spec_mut_shape(
                "Unset"@,
                "unset"@,
                f.name@,
                MutationKind::Unset,
                MutationPayload::NoPayload,
            )
        ]
    } else {
        Seq::empty()
    };
    let update: Seq<MutShape> = if f.arity != Arity::List {
        seq![
            spec_mut_shape(
                "Update"@,
                "update"@,
                f.name@,
                MutationKind::Update,
                MutationPayload::SetList,
            )
        ]
    } else {
        Seq::empty()
    };
    let upsert: Seq<MutShape> = if f.arity == Arity::Optional {
        seq![
            spec_mut_shape(
                "Upsert"@,
                "upsert"@,
                f.name@,
                MutationKind::Upsert,
                MutationPayload::CreateAndSetList,
            )
        ]
    } else {
        Seq::empty()
    };
    let push: Seq<MutShape> = if f.arity == Arity::List && f.creatable {
        seq![
            spec_mut_shape(
                "Push"@,
                "push"@,
                f.name@,
                MutationKind::Push,
                MutationPayload::CreateList,
            )
        ]
    } else {
        Seq::empty()
    };
    let many: Seq<MutShape> = if f.arity == Arity::List {
        seq![
            spec_mut_shape(
                "UpdateMany"@,
                "update_many"@,
                f.name@,
                MutationKind::UpdateMany,
                MutationPayload::WhereAndSetList,
            ),
            spec_mut_shape(
                "DeleteMany"@,
                "delete_many"@,
                f.name@,
                MutationKind::DeleteMany,
                MutationPayload::WhereList,
            ),
        ]
    } else {
        Seq::empty()
    };
    assert(s == set + unset + update + upsert + push + many);
    lemma_kind_count_add(set + unset + update + upsert + push, many, k);
    lemma_kind_count_add(set + unset + update + upsert, push, k);
    lemma_kind_count_add(set + unset + update, upsert, k);
    lemma_kind_count_add(set + unset, update, k);
    lemma_kind_count_add(set, unset, k);
    if f.creatable {
        lemma_kind_count_singleton(set[0], k);
        assert(set =~= seq![set[0]]);
    }
    if f.arity == Arity::Optional {
        lemma_kind_count_singleton(unset[0], k);
        assert(unset =~= seq![unset[0]]);
        lemma_kind_count_singleton(upsert[0], k);
        assert(upsert =~= seq![upsert[0]]);
    }
    if f.arity != Arity::List {
        lemma_kind_count_singleton(update[0], k);
        assert(update =~= seq![update[0]]);
    }
    if f.arity == Arity::List && f.creatable {
        lemma_kind_count_singleton(push[0], k);
        assert(push =~= seq![push[0]]);
    }
    if f.arity == Arity::List {
        lemma_kind_count_singleton(many[0], k);
        assert(many.drop_first() =~= seq![many[1]]);
        lemma_kind_count_singleton(many[1], k);
        assert(kind_count(many, k) == (if many[0].kind == k {
            1nat
        } else {
            0nat
        }) + kind_count(seq![many[1]], k));
    }
}

/// Law: the mutation variant set of an optional composite field holds
/// exactly one `unset` variant and no `push`, `update_many` or
/// `delete_many` variant.
pub proof fn lemma_optional_composite_mutations(f: FieldDescriptor)
    requires
        f.kind == FieldKind::Composite,
        f.arity == Arity::Optional,
    ensures
        kind_count(spec_composite_set_params(f), MutationKind::Unset) == 1,
        kind_count(spec_composite_set_params(f), MutationKind::Push) == 0,
        kind_count(spec_composite_set_params(f), MutationKind::UpdateMany) == 0,
        kind_count(spec_composite_set_params(f), MutationKind::DeleteMany) == 0,
{
    lemma_kind_count_parts(f, MutationKind::Unset);
    lemma_kind_count_parts(f, MutationKind::Push);
    lemma_kind_count_parts(f, MutationKind::UpdateMany);
    lemma_kind_count_parts(f, MutationKind::DeleteMany);
}

/// Law: the mutation variant set of a list composite field with a creation
/// payload holds exactly one `push`, one `update_many` and one
/// `delete_many` variant, and no `unset` or `upsert` variant.
pub proof fn lemma_list_composite_mutations(f: FieldDescriptor)
    requires
        f.kind == FieldKind::Composite,
        f.arity == Arity::List,
        f.creatable,
    ensures
        kind_count(spec_composite_set_params(f), MutationKind::Push) == 1,
        kind_count(spec_composite_set_params(f), MutationKind::UpdateMany) == 1,
        kind_count(spec_composite_set_params(f), MutationKind::DeleteMany) == 1,
        kind_count(spec_composite_set_params(f), MutationKind::Unset) == 0,
        kind_count(spec_composite_set_params(f), MutationKind::Upsert) == 0,
{
    lemma_kind_count_parts(f, MutationKind::Push);
    lemma_kind_count_parts(f, MutationKind::UpdateMany);
    lemma_kind_count_parts(f, MutationKind::DeleteMany);
    lemma_kind_count_parts(f, MutationKind::Unset);
    lemma_kind_count_parts(f, MutationKind::Upsert);
}

} // verus!
