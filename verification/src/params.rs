//! Constructed filter values and their serialization into the wire format.
//!
//! A `WhereParam` is one constructed filter operation on one field. Its
//! serialization is a total, pure function of the value: a pair of the
//! field's declared name and a wire value, with nested filters serialized
//! recursively.

use vstd::prelude::*;

use crate::wire::WireData;
use crate::wire::WireValue;

verus! {

broadcast use vstd::std_specs::vec::group_vec_axioms, vstd::seq::axiom_seq_index_decreases;

/// One constructed filter operation on one field. The first `String` of
/// every variant is the field's declared name.
#[derive(Debug, PartialEq, Eq)]
pub enum WhereParam {
    /// An optional relation is absent.
    IsNull(String),
    /// An optional composite value is present.
    IsSet(String),
    /// A composite list holds no element.
    IsEmpty(String),
    /// A relation or composite filter under a method name (`is`, `isNot`,
    /// `every`, `some`, `none`), carrying the nested filters.
    Method(String, String, Vec<WhereParam>),
    /// Equality of a composite list: one nested filter group per element.
    EqualsList(String, Vec<Vec<WhereParam>>),
    /// A scalar filter under a catalogue method name, carrying the value in
    /// its wire encoding.
    Scalar(String, String, WireValue),
}

/// The serialization of one filter value: the field's declared name and the
/// wire value the remote engine expects.
pub open spec fn ser(p: WhereParam) -> (Seq<char>, WireData)
    decreases p,
{
    match p {
        WhereParam::IsNull(field) => (field@, WireData::Null),
        WhereParam::IsSet(field) => (field@, WireData::Bool(true)),
        WhereParam::IsEmpty(field) => (
            field@,
            WireData::Object(seq![("isEmpty"@, WireData::Bool(true))]),
        ),
        WhereParam::Method(field, method, nested) => (
            field@,
            WireData::Object(seq![(method@, WireData::Object(ser_entries(nested)))]),
        ),
        WhereParam::EqualsList(field, groups) => (
            field@,
            WireData::Object(
                seq![
                    (
                        "equals"@,
                        WireData::List(
                            Seq::new(
                                groups@.len(),
                                |i: int|
                                    if 0 <= i < groups@.len() {
                                        WireData::Object(ser_entries(groups@[i]))
                                    } else {
                                        WireData::Null
                                    },
                            ),
                        ),
                    )
                ],
            ),
        ),
        WhereParam::Scalar(field, method, value) => (
            field@,
            WireData::Object(seq![(method@, value.wire())]),
        ),
    }
}

/// The serialization of a group of filters, in order.
pub open spec fn ser_entries(ps: Vec<WhereParam>) -> Seq<(Seq<char>, WireData)>
    decreases ps,
{
    Seq::new(
        ps@.len(),
        |i: int|
            if 0 <= i < ps@.len() {
                ser(ps@[i])
            } else {
                (Seq::empty(), WireData::Null)
            },
    )
}

/// The field name a filter value was constructed for.
pub open spec fn field_of(p: WhereParam) -> Seq<char> {
    match p {
        WhereParam::IsNull(field) => field@,
        WhereParam::IsSet(field) => field@,
        WhereParam::IsEmpty(field) => field@,
        WhereParam::Method(field, method, nested) => field@,
        WhereParam::EqualsList(field, groups) => field@,
        WhereParam::Scalar(field, method, value) => field@,
    }
}

/// Law: whatever kind and arity a filter was synthesized for, serializing it
/// yields exactly the field's declared name as the pair's first component.
pub proof fn lemma_serialize_keeps_field_name(p: WhereParam)
    ensures
        ser(p).0 == field_of(p),
{
    match p {
        WhereParam::IsNull(field) => {},
        WhereParam::IsSet(field) => {},
        WhereParam::IsEmpty(field) => {},
        WhereParam::Method(field, method, nested) => {},
        WhereParam::EqualsList(field, groups) => {},
        WhereParam::Scalar(field, method, value) => {},
    }
}

impl WhereParam {
    /// Serializes this filter into the pair of field name and wire value.
    #[verifier::loop_isolation(false)]
    pub fn serialize(&self) -> (r: (String, WireValue))
        ensures
            r.0@ == ser(*self).0,
            r.1.wire() == ser(*self).1,
        decreases self,
    {
        match *self {
            WhereParam::IsNull(ref field) => (field.clone(), WireValue::Null),
            WhereParam::IsSet(ref field) => (field.clone(), WireValue::Bool(true)),
            WhereParam::IsEmpty(ref field) => {
                let mut entries: Vec<(String, WireValue)> = Vec::new();
                entries.push((String::from_str("isEmpty"), WireValue::Bool(true)));
                let v = WireValue::Object(entries);
                proof {
                    assert(entries@.len() == 1);
                    assert(entries@[0].0@ == "isEmpty"@);
                    assert(entries@[0].1.wire() == WireData::Bool(true));
                    assert(*self is IsEmpty);
                    assert(ser(*self).1 == WireData::Object(
                        seq![("isEmpty"@, WireData::Bool(true))],
                    ));
                    assert(v.wire()->Object_0 =~= ser(*self).1->Object_0);
                    assert(v.wire() =~~= ser(*self).1);
                }
                (field.clone(), v)
            },
            WhereParam::Method(ref field, ref method, ref nested) => {
                proof {
                    assert(*self is Method);
                    assert(*nested == self->Method_2);
                    assert(decreases_to!(*self => self->Method_2));
                }
                let inner = serialize_group(nested);
                let mut m: Vec<(String, WireValue)> = Vec::new();
                m.push((method.clone(), WireValue::Object(inner)));
                let v = WireValue::Object(m);
                proof {
                    assert(m@[0].1.wire()->Object_0 =~= ser_entries(*nested));
                    assert(m@[0].1.wire() =~~= WireData::Object(ser_entries(*nested)));
                    assert(v.wire()->Object_0 =~= ser(*self).1->Object_0);
                    assert(v.wire() =~~= ser(*self).1);
                }
                (field.clone(), v)
            },
            WhereParam::EqualsList(ref field, ref groups) => {
                let mut items: Vec<WireValue> = Vec::new();
                let mut i: usize = 0;
                while i < groups.len()
                    invariant
                        0 <= i <= groups@.len(),
                        items@.len() == i,
                        forall|j: int|
                            0 <= j < i ==> (#[trigger] items@[j]).wire() == WireData::Object(
                                ser_entries(groups@[j]),
                            ),
                    decreases groups@.len() - i,
                {
                    proof {
                        assert(*self is EqualsList);
                        assert(*groups == self->EqualsList_1);
                        assert(decreases_to!(*self => self->EqualsList_1));
                        assert(decreases_to!(*groups => groups[i as int]));
                    }
                    let g = serialize_group(&groups[i]);
                    let gv = WireValue::Object(g);
                    proof {
                        assert(gv.wire()->Object_0 =~= ser_entries(groups@[i as int]));
                        assert(gv.wire() =~~= WireData::Object(ser_entries(groups@[i as int])));
                    }
                    items.push(gv);
                    i = i + 1;
                }
                let lv = WireValue::List(items);
                let mut m: Vec<(String, WireValue)> = Vec::new();
                m.push((String::from_str("equals"), lv));
                let v = WireValue::Object(m);
                proof {
                    let expect = ser(*self).1;
                    assert(m@[0].1.wire()->List_0 =~= expect->Object_0[0].1->List_0);
                    assert(m@[0].1.wire() =~~= expect->Object_0[0].1);
                    assert(v.wire()->Object_0 =~= expect->Object_0);
                    assert(v.wire() =~~= expect);
                }
                (field.clone(), v)
            },
            WhereParam::Scalar(ref field, ref method, ref value) => {
                let mut m: Vec<(String, WireValue)> = Vec::new();
                m.push((method.clone(), value.duplicate()));
                let v = WireValue::Object(m);
                proof {
                    assert(v.wire()->Object_0 =~= ser(*self).1->Object_0);
                    assert(v.wire() =~~= ser(*self).1);
                }
                (field.clone(), v)
            },
        }
    }
}

/// A filter guaranteed to identify at most one record, usable where the
/// type system demands uniqueness; convertible into a general filter.
#[derive(Debug, PartialEq, Eq)]
pub struct UniqueWhereParam {
    /// The field's declared name.
    pub field: String,
    /// The looked-up value in its wire encoding.
    pub value: WireValue,
}

impl UniqueWhereParam {
    /// This unique lookup as a general equality filter.
    pub fn into_where(self) -> (r: WhereParam)
        ensures
            r matches WhereParam::Scalar(f, m, v) && f == self.field && m@ == "equals"@ && v
                == self.value,
    {
        WhereParam::Scalar(self.field, String::from_str("equals"), self.value)
    }

    /// Serializes this unique lookup as its equality filter would.
    pub fn serialize(self) -> (r: (String, WireValue))
        ensures
            r.0@ == self.field@,
            r.1.wire() == WireData::Object(seq![("equals"@, self.value.wire())]),
    {
        let w = self.into_where();
        w.serialize()
    }
}

/// The builder of the `isNull` filter of an optional relation field.
pub fn is_null(field: &str) -> (r: WhereParam)
    ensures
        r matches WhereParam::IsNull(f) && f@ == field@,
{
    WhereParam::IsNull(field.to_owned())
}

/// The builder of the `isSet` filter of an optional composite field.
pub fn is_set(field: &str) -> (r: WhereParam)
    ensures
        r matches WhereParam::IsSet(f) && f@ == field@,
{
    WhereParam::IsSet(field.to_owned())
}

/// The builder of the `isEmpty` filter of a composite list field.
pub fn is_empty(field: &str) -> (r: WhereParam)
    ensures
        r matches WhereParam::IsEmpty(f) && f@ == field@,
{
    WhereParam::IsEmpty(field.to_owned())
}

/// The builder of a relation or composite filter under a method name.
pub fn method_filter(field: &str, method: &str, nested: Vec<WhereParam>) -> (r: WhereParam)
    ensures
        r matches WhereParam::Method(f, m, ns) && f@ == field@ && m@ == method@ && ns == nested,
{
    WhereParam::Method(field.to_owned(), method.to_owned(), nested)
}

/// The builder of a composite list's equality filter.
pub fn composite_equals(field: &str, groups: Vec<Vec<WhereParam>>) -> (r: WhereParam)
    ensures
        r matches WhereParam::EqualsList(f, gs) && f@ == field@ && gs == groups,
{
    WhereParam::EqualsList(field.to_owned(), groups)
}

/// The builder of a scalar filter under a catalogue method name.
pub fn scalar_filter(field: &str, method: &str, value: WireValue) -> (r: WhereParam)
    ensures
        r matches WhereParam::Scalar(f, m, v) && f@ == field@ && m@ == method@ && v == value,
{
    WhereParam::Scalar(field.to_owned(), method.to_owned(), value)
}

/// Serializes each filter of a group, in order.
#[verifier::loop_isolation(false)]
pub fn serialize_group(ps: &Vec<WhereParam>) -> (r: Vec<(String, WireValue)>)
    ensures
        r@.len() == ps@.len(),
        forall|j: int|
            0 <= j < ps@.len() ==> (#[trigger] r@[j]).0@ == ser(ps@[j]).0 && r@[j].1.wire() == ser(
                ps@[j],
            ).1,
    decreases ps,
{
    let mut out: Vec<(String, WireValue)> = Vec::new();
    let mut j: usize = 0;
    while j < ps.len()
        invariant
            0 <= j <= ps@.len(),
            out@.len() == j,
            forall|k: int|
                0 <= k < j ==> (#[trigger] out@[k]).0@ == ser(ps@[k]).0 && out@[k].1.wire() == ser(
                    ps@[k],
                ).1,
        decreases ps@.len() - j,
    {
        let p: &WhereParam = &ps[j];
        proof {
            assert(decreases_to!(*ps => ps[j as int]));
        }
        let e = p.serialize();
        out.push(e);
        j = j + 1;
    }
    out
}

} // verus!
