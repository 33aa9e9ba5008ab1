use querygen::filters::entity_where_params;
use querygen::filters::equals;
use querygen::filters::equals_return;
use querygen::filters::field_where_params;
use querygen::filters::BuilderReturn;
use querygen::filters::EqualsValue;
use querygen::filters::PayloadKind;
use querygen::filters::RuleKind;
use querygen::mutations::composite_order_param;
use querygen::mutations::composite_set_params;
use querygen::mutations::entity_set_params;
use querygen::mutations::scalar_set_param;
use querygen::mutations::CreateWrap;
use querygen::mutations::MutationKind;
use querygen::mutations::MutationPayload;
use querygen::names::pascal_case;
use querygen::names::snake_case;
use querygen::names::variant_tag;
use querygen::params::composite_equals;
use querygen::params::is_empty;
use querygen::params::is_null;
use querygen::params::is_set;
use querygen::params::method_filter;
use querygen::params::scalar_filter;
use querygen::params::WhereParam;
use querygen::schema::covered_by_single_unique;
use querygen::schema::Arity;
use querygen::schema::EntityDescriptor;
use querygen::schema::FieldDescriptor;
use querygen::schema::FieldKind;
use querygen::schema::IndexDescriptor;
use querygen::schema::SynthError;
use querygen::wire::WireValue;

fn scalar(name: &str, unique: bool, pk: bool, arity: Arity, methods: &[&str]) -> FieldDescriptor {
    FieldDescriptor {
        name: name.to_string(),
        kind: FieldKind::Scalar,
        arity,
        is_unique: unique,
        is_single_pk: pk,
        related: String::new(),
        relation_methods: Vec::new(),
        filter_methods: Some(methods.iter().map(|m| m.to_string()).collect()),
        creatable: false,
    }
}

fn relation(name: &str, related: &str, arity: Arity, methods: &[&str]) -> FieldDescriptor {
    FieldDescriptor {
        name: name.to_string(),
        kind: FieldKind::Relation,
        arity,
        is_unique: false,
        is_single_pk: false,
        related: related.to_string(),
        relation_methods: methods.iter().map(|m| m.to_string()).collect(),
        filter_methods: None,
        creatable: false,
    }
}

fn composite(name: &str, related: &str, arity: Arity, creatable: bool) -> FieldDescriptor {
    FieldDescriptor {
        name: name.to_string(),
        kind: FieldKind::Composite,
        arity,
        is_unique: false,
        is_single_pk: false,
        related: related.to_string(),
        relation_methods: Vec::new(),
        filter_methods: None,
        creatable,
    }
}

#[test]
fn casing_rules() {
    assert_eq!(pascal_case("created_at"), "CreatedAt");
    assert_eq!(pascal_case("posts"), "Posts");
    assert_eq!(pascal_case("isNot"), "IsNot");
    assert_eq!(snake_case("isNot"), "is_not");
    assert_eq!(snake_case("created_at"), "created_at");
    assert_eq!(variant_tag("posts", "some"), "PostsSome");
    assert_eq!(variant_tag("address", "isEmpty"), "AddressIsEmpty");
}

#[test]
fn unique_scalar_equals_is_unique_lookup() {
    let id = scalar("id", true, false, Arity::Required, &["equals", "lt", "gt"]);
    assert_eq!(equals_return(&id), BuilderReturn::UniqueLookup);
    match equals(&id, WireValue::Scalar("1".to_string())) {
        EqualsValue::Unique(u) => {
            assert_eq!(u.field, "id");
            assert_eq!(u.value, WireValue::Scalar("1".to_string()));
        }
        _ => panic!("expected the unique-lookup capability"),
    }
}

#[test]
fn single_pk_equals_is_unique_lookup() {
    let id = scalar("id", false, true, Arity::Required, &["equals"]);
    assert_eq!(equals_return(&id), BuilderReturn::UniqueLookup);
}

#[test]
fn optional_unique_equals_is_either() {
    let code = scalar("code", true, false, Arity::Optional, &["equals"]);
    assert_eq!(equals_return(&code), BuilderReturn::EitherLookup);
    match equals(&code, WireValue::Scalar("7".to_string())) {
        EqualsValue::Either(u) => {
            let w = u.into_where();
            let (field, value) = w.serialize();
            assert_eq!(field, "code");
            assert_eq!(
                value,
                WireValue::Object(vec![(
                    "equals".to_string(),
                    WireValue::Scalar("7".to_string())
                )])
            );
        }
        _ => panic!("expected the dual capability"),
    }
}

#[test]
fn plain_scalar_equals_is_general_filter() {
    let title = scalar("title", false, false, Arity::Required, &["equals"]);
    match equals(&title, WireValue::Scalar("x".to_string())) {
        EqualsValue::Filter(WhereParam::Scalar(field, method, value)) => {
            assert_eq!(field, "title");
            assert_eq!(method, "equals");
            assert_eq!(value, WireValue::Scalar("x".to_string()));
        }
        _ => panic!("expected the general filter capability"),
    }
}

#[test]
fn relation_some_filter_serializes_under_method() {
    let posts = relation("posts", "post", Arity::List, &["every", "some", "none"]);
    let vs = field_where_params(&posts).unwrap();
    let tags: Vec<&str> = vs.iter().map(|v| v.tag.as_str()).collect();
    assert_eq!(tags, vec!["PostsEvery", "PostsSome", "PostsNone"]);
    assert!(vs.iter().all(|v| v.payload == PayloadKind::RelatedWhereList));
    assert!(vs.iter().all(|v| v.rule == RuleKind::MethodObject));

    let nested = vec![scalar_filter(
        "title",
        "equals",
        WireValue::Scalar("t".to_string()),
    )];
    let (field, value) = method_filter("posts", "some", nested).serialize();
    assert_eq!(field, "posts");
    assert_eq!(
        value,
        WireValue::Object(vec![(
            "some".to_string(),
            WireValue::Object(vec![(
                "title".to_string(),
                WireValue::Object(vec![(
                    "equals".to_string(),
                    WireValue::Scalar("t".to_string())
                )])
            )])
        )])
    );
}

#[test]
fn optional_relation_gets_is_null() {
    let author = relation("author", "user", Arity::Optional, &["is", "isNot"]);
    let vs = field_where_params(&author).unwrap();
    let tags: Vec<&str> = vs.iter().map(|v| v.tag.as_str()).collect();
    assert_eq!(tags, vec!["AuthorIsNull", "AuthorIs", "AuthorIsNot"]);
    let (field, value) = is_null("author").serialize();
    assert_eq!(field, "author");
    assert_eq!(value, WireValue::Null);
}

#[test]
fn list_composite_filters() {
    let tags = composite("tags", "tag", Arity::List, true);
    let vs = field_where_params(&tags).unwrap();
    let names: Vec<&str> = vs.iter().map(|v| v.tag.as_str()).collect();
    assert_eq!(
        names,
        vec!["TagsEvery", "TagsSome", "TagsNone", "TagsEquals", "TagsIsEmpty"]
    );
    assert_eq!(vs[3].payload, PayloadKind::CompositeWhereListList);
    assert_eq!(vs[3].rule, RuleKind::EqualsListObject);
    assert_eq!(vs[4].rule, RuleKind::IsEmptyObject);

    let (field, value) = is_empty("tags").serialize();
    assert_eq!(field, "tags");
    assert_eq!(
        value,
        WireValue::Object(vec![("isEmpty".to_string(), WireValue::Bool(true))])
    );

    let groups = vec![vec![scalar_filter(
        "label",
        "equals",
        WireValue::Scalar("a".to_string()),
    )]];
    let (field, value) = composite_equals("tags", groups).serialize();
    assert_eq!(field, "tags");
    assert_eq!(
        value,
        WireValue::Object(vec![(
            "equals".to_string(),
            WireValue::List(vec![WireValue::Object(vec![(
                "label".to_string(),
                WireValue::Object(vec![(
                    "equals".to_string(),
                    WireValue::Scalar("a".to_string())
                )])
            )])])
        )])
    );
}

#[test]
fn optional_composite_filters_and_is_set() {
    let address = composite("address", "address_type", Arity::Optional, true);
    let vs = field_where_params(&address).unwrap();
    let names: Vec<&str> = vs.iter().map(|v| v.tag.as_str()).collect();
    assert_eq!(
        names,
        vec!["AddressIsSet", "AddressEquals", "AddressIs", "AddressIsNot"]
    );
    let (field, value) = is_set("address").serialize();
    assert_eq!(field, "address");
    assert_eq!(value, WireValue::Bool(true));
}

#[test]
fn optional_composite_mutations() {
    let address = composite("address", "address_type", Arity::Optional, true);
    let ms = composite_set_params(&address);
    let kinds: Vec<MutationKind> = ms.iter().map(|m| m.kind).collect();
    assert_eq!(
        kinds,
        vec![
            MutationKind::SetOp,
            MutationKind::Unset,
            MutationKind::Update,
            MutationKind::Upsert
        ]
    );
    let builders: Vec<&str> = ms.iter().map(|m| m.builder.as_str()).collect();
    assert_eq!(builders, vec!["set", "unset", "update", "upsert"]);
    let tags: Vec<&str> = ms.iter().map(|m| m.tag.as_str()).collect();
    assert_eq!(
        tags,
        vec!["SetAddress", "UnsetAddress", "UpdateAddress", "UpsertAddress"]
    );
    assert_eq!(ms[0].payload, MutationPayload::Create(CreateWrap::Optional));
    let order = composite_order_param(&address).unwrap();
    assert_eq!(order.tag, "Address");
    assert_eq!(order.builder, "order");
}

#[test]
fn list_composite_mutations() {
    let tags = composite("tags", "tag", Arity::List, true);
    let ms = composite_set_params(&tags);
    let kinds: Vec<MutationKind> = ms.iter().map(|m| m.kind).collect();
    assert_eq!(
        kinds,
        vec![
            MutationKind::SetOp,
            MutationKind::Push,
            MutationKind::UpdateMany,
            MutationKind::DeleteMany
        ]
    );
    assert_eq!(ms[0].payload, MutationPayload::Create(CreateWrap::List));
    assert_eq!(ms[1].payload, MutationPayload::CreateList);
    assert_eq!(ms[2].payload, MutationPayload::WhereAndSetList);
    assert_eq!(ms[3].payload, MutationPayload::WhereList);
    assert!(composite_order_param(&tags).is_none());
}

#[test]
fn non_creatable_composite_omits_set_and_push() {
    let tags = composite("tags", "tag", Arity::List, false);
    let ms = composite_set_params(&tags);
    let kinds: Vec<MutationKind> = ms.iter().map(|m| m.kind).collect();
    assert_eq!(kinds, vec![MutationKind::UpdateMany, MutationKind::DeleteMany]);
}

#[test]
fn scalar_set_is_unconditional() {
    let title = scalar("title", false, false, Arity::Required, &["equals"]);
    let m = scalar_set_param(&title);
    assert_eq!(m.tag, "SetTitle");
    assert_eq!(m.builder, "set");
    assert_eq!(m.kind, MutationKind::SetOp);
    assert_eq!(m.payload, MutationPayload::Value);
}

#[test]
fn entity_aggregation_keeps_field_order() {
    let user = EntityDescriptor {
        name: "User".to_string(),
        fields: vec![
            scalar("id", true, false, Arity::Required, &["equals", "lt"]),
            relation("posts", "post", Arity::List, &["every", "some", "none"]),
        ],
    };
    let vs = entity_where_params(&user).unwrap();
    let tags: Vec<&str> = vs.iter().map(|v| v.tag.as_str()).collect();
    assert_eq!(
        tags,
        vec!["IdEquals", "IdLt", "PostsEvery", "PostsSome", "PostsNone"]
    );
    assert_eq!(vs[0].ret, BuilderReturn::UniqueLookup);
    assert_eq!(vs[1].ret, BuilderReturn::General);
}

#[test]
fn duplicate_tags_are_refused() {
    let user = EntityDescriptor {
        name: "User".to_string(),
        fields: vec![
            scalar("foo_bar", false, false, Arity::Required, &["equals"]),
            scalar("fooBar", false, false, Arity::Required, &["equals"]),
        ],
    };
    match entity_where_params(&user) {
        Err(SynthError::DuplicateTag(tag)) => assert_eq!(tag, "FooBarEquals"),
        _ => panic!("expected a tag collision"),
    }
}

#[test]
fn unsupported_scalar_is_refused() {
    let odd = FieldDescriptor {
        name: "blob".to_string(),
        kind: FieldKind::Scalar,
        arity: Arity::Required,
        is_unique: false,
        is_single_pk: false,
        related: String::new(),
        relation_methods: Vec::new(),
        filter_methods: None,
        creatable: false,
    };
    match field_where_params(&odd) {
        Err(SynthError::UnsupportedField(name)) => assert_eq!(name, "blob"),
        _ => panic!("expected the unsupported-field error"),
    }
    let user = EntityDescriptor {
        name: "User".to_string(),
        fields: vec![odd],
    };
    assert!(matches!(
        entity_where_params(&user),
        Err(SynthError::UnsupportedField(_))
    ));
}

#[test]
fn entity_mutations_aggregate_in_field_order() {
    let user = EntityDescriptor {
        name: "User".to_string(),
        fields: vec![
            scalar("title", false, false, Arity::Required, &["equals"]),
            composite("address", "address_type", Arity::Optional, true),
            relation("posts", "post", Arity::List, &["some"]),
        ],
    };
    let ms = entity_set_params(&user).unwrap();
    let tags: Vec<&str> = ms.iter().map(|m| m.tag.as_str()).collect();
    assert_eq!(
        tags,
        vec![
            "SetTitle",
            "SetAddress",
            "UnsetAddress",
            "UpdateAddress",
            "UpsertAddress"
        ]
    );
}

#[test]
fn duplicate_mutation_tags_are_refused() {
    let user = EntityDescriptor {
        name: "User".to_string(),
        fields: vec![
            scalar("a_b", false, false, Arity::Required, &["equals"]),
            scalar("aB", false, false, Arity::Required, &["equals"]),
        ],
    };
    match entity_set_params(&user) {
        Err(SynthError::DuplicateTag(tag)) => assert_eq!(tag, "SetAB"),
        _ => panic!("expected a tag collision"),
    }
}

#[test]
fn serialization_always_returns_the_field_name() {
    let params = vec![
        is_null("a"),
        is_set("b"),
        is_empty("c"),
        method_filter("d", "some", Vec::new()),
        composite_equals("e", Vec::new()),
        scalar_filter("f", "equals", WireValue::Null),
    ];
    let expected = vec!["a", "b", "c", "d", "e", "f"];
    for (p, want) in params.iter().zip(expected.iter()) {
        let (field, _) = p.serialize();
        assert_eq!(&field, want);
    }
}

#[test]
fn single_field_unique_index_coverage() {
    let indexes = vec![
        IndexDescriptor {
            is_unique: false,
            fields: vec!["email".to_string()],
        },
        IndexDescriptor {
            is_unique: true,
            fields: vec!["email".to_string(), "tenant".to_string()],
        },
        IndexDescriptor {
            is_unique: true,
            fields: vec!["handle".to_string()],
        },
    ];
    assert!(covered_by_single_unique(&indexes, "handle"));
    assert!(!covered_by_single_unique(&indexes, "email"));
    assert!(!covered_by_single_unique(&indexes, "tenant"));
    assert!(!covered_by_single_unique(&Vec::new(), "handle"));
}

#[test]
fn wire_value_duplicate_is_deep() {
    let v = WireValue::Object(vec![
        (
            "xs".to_string(),
            WireValue::List(vec![WireValue::Bool(true), WireValue::Scalar("9".to_string())]),
        ),
        ("n".to_string(), WireValue::Null),
    ]);
    assert_eq!(v.duplicate(), v);
}
