use graphql_client_codegen::deprecation::DeprecationStatus;
use graphql_client_codegen::errors::CodegenError;
use graphql_client_codegen::field_type::FieldType;
use graphql_client_codegen::ir::{IrDefinition, IrField, IrRecord, IrSum, IrVariant};
use graphql_client_codegen::query::QueryContext;
use graphql_client_codegen::schema::{GqlObject, GqlObjectField};
use graphql_client_codegen::selection::{
    Selection, SelectionField, SelectionInlineFragment, SelectionItem,
};
use graphql_client_codegen::unions::{union_variants, GqlUnion};

fn string_type() -> String {
    "String".to_string()
}

#[test]
fn union_response_for_selection_complains_if_typename_is_missing() {
    let fields = vec![
        SelectionItem::InlineFragment(SelectionInlineFragment {
            on: "User".to_string(),
            fields: Selection(vec![SelectionItem::Field(SelectionField {
                alias: None,
                name: "firstName".to_string(),
                fields: Selection(vec![]),
            })]),
        }),
        SelectionItem::InlineFragment(SelectionInlineFragment {
            on: "Organization".to_string(),
            fields: Selection(vec![SelectionItem::Field(SelectionField {
                alias: None,
                name: "title".to_string(),
                fields: Selection(vec![]),
            })]),
        }),
    ];
    let mut context = QueryContext::new_empty();
    let selection = Selection(fields);
    let prefix = "Meow";
    let union = GqlUnion {
        description: None,
        variants: Vec::new(),
        is_required: false.into(),
    };

    context.schema.insert_object(GqlObject {
        description: None,
        name: "User".to_string(),
        fields: vec![
            GqlObjectField {
                description: None,
                name: "firstName".to_string(),
                type_: FieldType::Named("String".to_string()),
                deprecation: DeprecationStatus::Current,
            },
            GqlObjectField {
                description: None,
                name: "lastName".to_string(),
                type_: FieldType::Named("String".to_string()),
                deprecation: DeprecationStatus::Current,
            },
            GqlObjectField {
                description: None,
                name: "createdAt".to_string(),
                type_: FieldType::Named("Date".to_string()),
                deprecation: DeprecationStatus::Current,
            },
        ],
        is_required: false.into(),
    });

    context.schema.insert_object(GqlObject {
        description: None,
        name: "Organization".to_string(),
        fields: vec![
            GqlObjectField {
                description: None,
                name: "title".to_string(),
                type_: FieldType::Named("String".to_string()),
                deprecation: DeprecationStatus::Current,
            },
            GqlObjectField {
                description: None,
                name: "created_at".to_string(),
                type_: FieldType::Named("Date".to_string()),
                deprecation: DeprecationStatus::Current,
            },
        ],
        is_required: false.into(),
    });

    let result = union.response_for_selection(&context, &selection, &prefix);

    assert!(result.is_err());

    assert_eq!(
        result.unwrap_err().message(),
        "Missing __typename in selection for Meow"
    );
}

#[test]
fn union_response_for_selection_works() {
    let fields = vec![
        SelectionItem::Field(SelectionField {
            alias: None,
            name: "__typename".to_string(),
            fields: Selection(vec![]),
        }),
        SelectionItem::InlineFragment(SelectionInlineFragment {
            on: "User".to_string(),
            fields: Selection(vec![SelectionItem::Field(SelectionField {
                alias: None,
                name: "firstName".to_string(),
                fields: Selection(vec![]),
            })]),
        }),
        SelectionItem::InlineFragment(SelectionInlineFragment {
            on: "Organization".to_string(),
            fields: Selection(vec![SelectionItem::Field(SelectionField {
                alias: None,
                name: "title".to_string(),
                fields: Selection(vec![]),
            })]),
        }),
    ];
    let mut context = QueryContext::new_empty();
    let selection = Selection(fields);
    let prefix = "Meow";
    let union = GqlUnion {
        description: None,
        variants: Vec::new(),
        is_required: false.into(),
    };

    let result = union.response_for_selection(&context, &selection, &prefix);

    assert!(result.is_err());

    context.schema.insert_object(GqlObject {
        description: None,
        name: "User".to_string(),
        fields: vec![
            GqlObjectField {
                description: None,
                name: "__typename".to_string(),
                type_: FieldType::Named(string_type()),
                deprecation: DeprecationStatus::Current,
            },
            GqlObjectField {
                description: None,
                name: "firstName".to_string(),
                type_: FieldType::Named(string_type()),
                deprecation: DeprecationStatus::Current,
            },
            GqlObjectField {
                description: None,
                name: "lastName".to_string(),
                type_: FieldType::Named(string_type()),
                deprecation: DeprecationStatus::Current,
            },
            GqlObjectField {
                description: None,
                name: "createdAt".to_string(),
                type_: FieldType::Named("Date".to_string()),
                deprecation: DeprecationStatus::Current,
            },
        ],
        is_required: false.into(),
    });

    context.schema.insert_object(GqlObject {
        description: None,
        name: "Organization".to_string(),
        fields: vec![
            GqlObjectField {
                description: None,
                name: "__typename".to_string(),
                type_: FieldType::Named(string_type()),
                deprecation: DeprecationStatus::Current,
            },
            GqlObjectField {
                description: None,
                name: "title".to_string(),
                type_: FieldType::Named("String".to_string()),
                deprecation: DeprecationStatus::Current,
            },
            GqlObjectField {
                description: None,
                name: "createdAt".to_string(),
                type_: FieldType::Named("Date".to_string()),
                deprecation: DeprecationStatus::Current,
            },
        ],
        is_required: false.into(),
    });

    let result = union.response_for_selection(&context, &selection, &prefix);

    assert!(result.is_ok());

    let response = result.unwrap();
    assert_eq!(response.derives, vec!["Deserialize".to_string()]);
    assert_eq!(
        response.definitions,
        vec![
            IrDefinition::Record(IrRecord {
                name: "MeowOnUser".to_string(),
                fields: vec![IrField {
                    name: "firstName".to_string(),
                    rust_name: "first_name".to_string(),
                    type_: FieldType::Named("String".to_string()),
                    deprecated: false,
                }],
            }),
            IrDefinition::Record(IrRecord {
                name: "MeowOnOrganization".to_string(),
                fields: vec![IrField {
                    name: "title".to_string(),
                    rust_name: "title".to_string(),
                    type_: FieldType::Named("String".to_string()),
                    deprecated: false,
                }],
            }),
            IrDefinition::Sum(IrSum {
                name: "Meow".to_string(),
                tag: "__typename".to_string(),
                variants: vec![
                    IrVariant {
                        name: "User".to_string(),
                        payload: Some("MeowOnUser".to_string()),
                    },
                    IrVariant {
                        name: "Organization".to_string(),
                        payload: Some("MeowOnOrganization".to_string()),
                    },
                ],
            }),
        ]
    );
}

#[test]
fn union_variants_reports_the_mentioned_members() {
    let mut context = QueryContext::new_empty();
    context.schema.insert_object(GqlObject {
        description: None,
        name: "User".to_string(),
        fields: vec![GqlObjectField {
            description: None,
            name: "firstName".to_string(),
            type_: FieldType::Named(string_type()),
            deprecation: DeprecationStatus::Current,
        }],
        is_required: false.into(),
    });
    let selection = Selection(vec![SelectionItem::InlineFragment(SelectionInlineFragment {
        on: "User".to_string(),
        fields: Selection(vec![SelectionItem::Field(SelectionField {
            alias: None,
            name: "firstName".to_string(),
            fields: Selection(vec![]),
        })]),
    })]);

    let (variants, definitions, used) = union_variants(&selection, &context, "Meow").unwrap();
    assert_eq!(used, vec!["User".to_string()]);
    assert_eq!(definitions.len(), 1);
    assert_eq!(
        variants,
        vec![IrVariant {
            name: "User".to_string(),
            payload: Some("MeowOnUser".to_string()),
        }]
    );
}

#[test]
fn union_unmentioned_members_become_payload_less_variants() {
    // The sum covers exactly the member set: mentioned members carry a
    // payload, unmentioned ones parse by tag alone.
    let mut context = QueryContext::new_empty();
    context.schema.insert_object(GqlObject {
        description: None,
        name: "Person".to_string(),
        fields: vec![GqlObjectField {
            description: None,
            name: "firstName".to_string(),
            type_: FieldType::Named(string_type()),
            deprecation: DeprecationStatus::Current,
        }],
        is_required: false.into(),
    });
    let union = GqlUnion {
        description: None,
        variants: vec![
            "Dog".to_string(),
            "Organization".to_string(),
            "Person".to_string(),
        ],
        is_required: false.into(),
    };
    let selection = Selection(vec![
        SelectionItem::Field(SelectionField {
            alias: None,
            name: "__typename".to_string(),
            fields: Selection(vec![]),
        }),
        SelectionItem::InlineFragment(SelectionInlineFragment {
            on: "Person".to_string(),
            fields: Selection(vec![SelectionItem::Field(SelectionField {
                alias: None,
                name: "firstName".to_string(),
                fields: Selection(vec![]),
            })]),
        }),
    ]);

    let response = union
        .response_for_selection(&context, &selection, "Names")
        .unwrap();
    let last = response.definitions.last().unwrap();
    match last {
        IrDefinition::Sum(sum) => {
            assert_eq!(sum.name, "Names");
            assert_eq!(sum.tag, "__typename");
            assert_eq!(
                sum.variants,
                vec![
                    IrVariant {
                        name: "Person".to_string(),
                        payload: Some("NamesOnPerson".to_string()),
                    },
                    IrVariant {
                        name: "Dog".to_string(),
                        payload: None,
                    },
                    IrVariant {
                        name: "Organization".to_string(),
                        payload: None,
                    },
                ]
            );
        }
        _ => panic!("expected a sum definition"),
    }
}

#[test]
fn union_missing_typename_names_the_selection() {
    let context = QueryContext::new_empty();
    let union = GqlUnion {
        description: None,
        variants: vec!["Person".to_string()],
        is_required: false.into(),
    };
    let selection = Selection(vec![]);

    let err = union
        .response_for_selection(&context, &selection, "Names")
        .unwrap_err();
    assert_eq!(
        err,
        CodegenError::MissingTypename {
            union_name: "Names".to_string()
        }
    );
}
