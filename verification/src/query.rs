//! The capability model's operation classification: every query is a read
//! or a write of a fixed kind, the classification never changes after
//! construction, and it determines the remote call name together with the
//! entity's name. A query's selection composes a base node tagged
//! `result`, with the argument and nested-selection order preserved.

use vstd::prelude::*;

use crate::wire::WireValue;

verus! {

/// The read operations a generated API can perform.
#[derive(Clone, Copy, Debug, PartialEq, Eq, Structural)]
pub enum ModelReadOperation {
    FindUnique,
    FindFirst,
    FindMany,
    Count,
}

impl ModelReadOperation {
    /// The remote operation name of this read.
    pub open spec fn spec_name(self) -> Seq<char> {
        match self {
            ModelReadOperation::FindUnique => "findUnique"@,
            ModelReadOperation::FindFirst => "findFirst"@,
            ModelReadOperation::FindMany => "findMany"@,
            ModelReadOperation::Count => "aggregate"@,
        }
    }

    /// The remote operation name of this read.
    pub fn name(&self) -> (r: &'static str)
        ensures
            r@ == self.spec_name(),
    {
        match self {
            ModelReadOperation::FindUnique => "findUnique",
            ModelReadOperation::FindFirst => "findFirst",
            ModelReadOperation::FindMany => "findMany",
            ModelReadOperation::Count => "aggregate",
        }
    }
}

/// The write operations a generated API can perform.
#[derive(Clone, Copy, Debug, PartialEq, Eq, Structural)]
pub enum ModelWriteOperation {
    Create,
    CreateMany,
    Update,
    UpdateMany,
    Delete,
    DeleteMany,
    Upsert,
}

impl ModelWriteOperation {
    /// The remote operation name of this write.
    pub open spec fn spec_name(self) -> Seq<char> {
        match self {
            ModelWriteOperation::Create => "createOne"@,
            ModelWriteOperation::CreateMany => "createMany"@,
            ModelWriteOperation::Update => "updateOne"@,
            ModelWriteOperation::UpdateMany => "updateMany"@,
            ModelWriteOperation::Delete => "deleteOne"@,
            ModelWriteOperation::DeleteMany => "deleteMany"@,
            ModelWriteOperation::Upsert => "upsertOne"@,
        }
    }

    /// The remote operation name of this write.
    pub fn name(&self) -> (r: &'static str)
        ensures
            r@ == self.spec_name(),
    {
        match self {
            ModelWriteOperation::Create => "createOne",
            ModelWriteOperation::CreateMany => "createMany",
            ModelWriteOperation::Update => "updateOne",
            ModelWriteOperation::UpdateMany => "updateMany",
            ModelWriteOperation::Delete => "deleteOne",
            ModelWriteOperation::DeleteMany => "deleteMany",
            ModelWriteOperation::Upsert => "upsertOne",
        }
    }
}

/// A query's classification, fixed when the query value is constructed.
#[derive(Clone, Copy, Debug, PartialEq, Eq, Structural)]
pub enum ModelOperation {
    Read(ModelReadOperation),
    Write(ModelWriteOperation),
}

impl ModelOperation {
    /// The remote operation name of this operation.
    pub open spec fn spec_name(self) -> Seq<char> {
        match self {
            ModelOperation::Read(q) => q.spec_name(),
            ModelOperation::Write(q) => q.spec_name(),
        }
    }

    /// The remote operation name of this operation.
    pub fn name(&self) -> (r: &'static str)
        ensures
            r@ == self.spec_name(),
    {
        match self {
            ModelOperation::Read(q) => q.name(),
            ModelOperation::Write(q) => q.name(),
        }
    }

    /// The full remote call name for this operation on the named entity:
    /// the operation name followed by the entity name.
    pub fn call_name(&self, model: &str) -> (r: String)
        ensures
            r@ == self.spec_name() + model@,
    {
        let mut s = self.name().to_owned();
        s.append(model);
        s
    }

    /// The base selection node of a query: named by the remote call name,
    /// tagged `result`, with the accumulated capability arguments and the
    /// nested selections kept exactly in request order.
    pub fn base_selection(
        &self,
        model: &str,
        arguments: Vec<(String, WireValue)>,
        nested_selections: Vec<Selection>,
    ) -> (r: Selection)
        ensures
            r.name@ == self.spec_name() + model@,
            r.alias matches Some(a) && a@ == "result"@,
            r.arguments == arguments,
            r.nested_selections == nested_selections,
    {
        Selection {
            name: self.call_name(model),
            alias: Some(String::from_str("result")),
            arguments,
            nested_selections,
        }
    }
}

/// One node of a query's field selection, sent to the remote engine.
#[derive(Debug)]
pub struct Selection {
    /// The selected field or operation name.
    pub name: String,
    /// The key under which the result is returned.
    pub alias: Option<String>,
    /// Serialized capability arguments, order-preserving.
    pub arguments: Vec<(String, WireValue)>,
    /// Nested selections, in request order.
    pub nested_selections: Vec<Selection>,
}

} // verus!
