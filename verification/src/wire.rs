//! The generic tagged value format that typed query values serialize into,
//! mirroring the remote engine's value model.

use vstd::prelude::*;

verus! {

/// A wire value: the generic tagged union consumed by the remote query
/// engine. Scalars are carried in their engine-specific textual encoding.
#[derive(Debug, PartialEq, Eq)]
pub enum WireValue {
    Null,
    Bool(bool),
    Scalar(String),
    List(Vec<WireValue>),
    Object(Vec<(String, WireValue)>),
}

/// The mathematical model of a wire value: every string is viewed as its
/// character sequence and every vector as its element sequence.
#[verifier::ext_equal]
pub enum WireData {
    Null,
    Bool(bool),
    Scalar(Seq<char>),
    List(Seq<WireData>),
    Object(Seq<(Seq<char>, WireData)>),
}

broadcast use vstd::std_specs::vec::group_vec_axioms, vstd::seq::axiom_seq_index_decreases;

impl WireValue {
    /// The model of this value.
    pub open spec fn wire(self) -> WireData
        decreases self,
    {
        match self {
            WireValue::Null => WireData::Null,
            WireValue::Bool(b) => WireData::Bool(b),
            WireValue::Scalar(s) => WireData::Scalar(s@),
            WireValue::List(vs) => WireData::List(
                Seq::new(
                    vs@.len(),
                    |i: int|
                        if 0 <= i < vs@.len() {
                            vs@[i].wire()
                        } else {
                            WireData::Null
                        },
                ),
            ),
            WireValue::Object(es) => WireData::Object(
                Seq::new(
                    es@.len(),
                    |i: int|
                        if 0 <= i < es@.len() {
                            (es@[i].0@, es@[i].1.wire())
                        } else {
                            (Seq::empty(), WireData::Null)
                        },
                ),
            ),
        }
    }
}

impl WireValue {
    /// A deep copy of this value; the copy has the same model.
    #[verifier::loop_isolation(false)]
    pub fn duplicate(&self) -> (r: WireValue)
        ensures
            r.wire() == self.wire(),
        decreases self,
    {
        match *self {
            WireValue::Null => WireValue::Null,
            WireValue::Bool(b) => WireValue::Bool(b),
            WireValue::Scalar(ref s) => WireValue::Scalar(s.clone()),
            WireValue::List(ref vs) => {
                let mut out: Vec<WireValue> = Vec::new();
                let mut i: usize = 0;
                while i < vs.len()
                    invariant
                        0 <= i <= vs@.len(),
                        out@.len() == i,
                        forall|j: int|
                            0 <= j < i ==> (#[trigger] out@[j]).wire() == vs@[j].wire(),
                    decreases vs@.len() - i,
                {
                    let e: &WireValue = &vs[i];
                    proof {
                        assert(*self is List);
                        assert(*vs == self->List_0);
                        assert(decreases_to!(*self => self->List_0));
                        assert(decreases_to!(*vs => vs[i as int]));
                    }
                    out.push(e.duplicate());
                    i = i + 1;
                }
                proof {
                    let s1 = Seq::new(
                        out@.len(),
                        |j: int|
                            if 0 <= j < out@.len() {
                                out@[j].wire()
                            } else {
                                WireData::Null
                            },
                    );
                    let s2 = Seq::new(
                        vs@.len(),
                        |j: int|
                            if 0 <= j < vs@.len() {
                                vs@[j].wire()
                            } else {
                                WireData::Null
                            },
                    );
                    assert(WireValue::List(out).wire() is List);
                    assert(WireValue::List(out).wire()->List_0 =~= s1);
                    assert(self.wire() is List);
                    assert(self.wire()->List_0 =~= s2);
                    assert(s1 =~= s2);
                    assert(WireValue::List(out).wire() =~~= self.wire());
                }
                WireValue::List(out)
            },
            WireValue::Object(ref es) => {
                let mut out: Vec<(String, WireValue)> = Vec::new();
                let mut i: usize = 0;
                while i < es.len()
                    invariant
                        0 <= i <= es@.len(),
                        out@.len() == i,
                        forall|j: int|
                            0 <= j < i ==> (#[trigger] out@[j]).0@ == es@[j].0@
                                && out@[j].1.wire() == es@[j].1.wire(),
                    decreases es@.len() - i,
                {
                    let e: &(String, WireValue) = &es[i];
                    proof {
                        assert(decreases_to!(*es => es[i as int]));
                        assert(decreases_to!(es[i as int] => es[i as int].1));
                    }
                    out.push((e.0.clone(), e.1.duplicate()));
                    i = i + 1;
                }
                proof {
                    let s1 = Seq::new(
                        out@.len(),
                        |j: int|
                            if 0 <= j < out@.len() {
                                (out@[j].0@, out@[j].1.wire())
                            } else {
                                (Seq::empty(), WireData::Null)
                            },
                    );
                    let s2 = Seq::new(
                        es@.len(),
                        |j: int|
                            if 0 <= j < es@.len() {
                                (es@[j].0@, es@[j].1.wire())
                            } else {
                                (Seq::empty(), WireData::Null)
                            },
                    );
                    assert(WireValue::Object(out).wire() is Object);
                    assert(WireValue::Object(out).wire()->Object_0 =~= s1);
                    assert(self.wire() is Object);
                    assert(self.wire()->Object_0 =~= s2);
                    assert(s1 =~= s2);
                    assert(WireValue::Object(out).wire() =~~= self.wire());
                }
                WireValue::Object(out)
            },
        }
    }
}

} // verus!
