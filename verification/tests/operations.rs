use querygen::query::ModelOperation;
use querygen::query::ModelReadOperation;
use querygen::query::ModelWriteOperation;
use querygen::query::Selection;
use querygen::wire::WireValue;

#[test]
fn read_operation_names() {
    assert_eq!(ModelReadOperation::FindUnique.name(), "findUnique");
    assert_eq!(ModelReadOperation::FindFirst.name(), "findFirst");
    assert_eq!(ModelReadOperation::FindMany.name(), "findMany");
    assert_eq!(ModelReadOperation::Count.name(), "aggregate");
}

#[test]
fn write_operation_names() {
    assert_eq!(ModelWriteOperation::Create.name(), "createOne");
    assert_eq!(ModelWriteOperation::CreateMany.name(), "createMany");
    assert_eq!(ModelWriteOperation::Update.name(), "updateOne");
    assert_eq!(ModelWriteOperation::UpdateMany.name(), "updateMany");
    assert_eq!(ModelWriteOperation::Delete.name(), "deleteOne");
    assert_eq!(ModelWriteOperation::DeleteMany.name(), "deleteMany");
    assert_eq!(ModelWriteOperation::Upsert.name(), "upsertOne");
}

#[test]
fn operation_name_delegates() {
    assert_eq!(
        ModelOperation::Read(ModelReadOperation::FindMany).name(),
        "findMany"
    );
    assert_eq!(
        ModelOperation::Write(ModelWriteOperation::Upsert).name(),
        "upsertOne"
    );
}

#[test]
fn call_name_appends_entity() {
    let op = ModelOperation::Read(ModelReadOperation::FindMany);
    assert_eq!(op.call_name("User"), "findManyUser");
    let op = ModelOperation::Write(ModelWriteOperation::Delete);
    assert_eq!(op.call_name("Post"), "deleteOnePost");
}

#[test]
fn base_selection_composes() {
    let op = ModelOperation::Read(ModelReadOperation::FindMany);
    let arguments = vec![
        ("take".to_string(), WireValue::Scalar("10".to_string())),
        ("skip".to_string(), WireValue::Scalar("5".to_string())),
    ];
    let nested = vec![
        Selection {
            name: "id".to_string(),
            alias: None,
            arguments: Vec::new(),
            nested_selections: Vec::new(),
        },
        Selection {
            name: "title".to_string(),
            alias: None,
            arguments: Vec::new(),
            nested_selections: Vec::new(),
        },
    ];
    let s = op.base_selection("Post", arguments, nested);
    assert_eq!(s.name, "findManyPost");
    assert_eq!(s.alias.as_deref(), Some("result"));
    assert_eq!(s.arguments.len(), 2);
    assert_eq!(s.arguments[0].0, "take");
    assert_eq!(s.arguments[1].0, "skip");
    assert_eq!(s.nested_selections.len(), 2);
    assert_eq!(s.nested_selections[0].name, "id");
    assert_eq!(s.nested_selections[1].name, "title");
}
