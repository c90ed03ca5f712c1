use graphql_client_codegen::deprecation::{DeprecationStatus, DeprecationStrategy};
use graphql_client_codegen::errors::CodegenError;
use graphql_client_codegen::field_type::FieldType;
use graphql_client_codegen::ir::IrDefinition;
use graphql_client_codegen::query::{GqlFragment, QueryContext};
use graphql_client_codegen::schema::{GqlObject, GqlObjectField};
use graphql_client_codegen::selection::{
    Selection, SelectionField, SelectionFragmentSpread, SelectionInlineFragment, SelectionItem,
};

fn field(name: &str, leaf: &str) -> GqlObjectField {
    GqlObjectField {
        description: None,
        name: name.to_string(),
        type_: FieldType::Named(leaf.to_string()),
        deprecation: DeprecationStatus::Current,
    }
}

fn selected(name: &str) -> SelectionItem {
    SelectionItem::Field(SelectionField {
        alias: None,
        name: name.to_string(),
        fields: Selection(vec![]),
    })
}

fn selected_with(name: &str, inner: Vec<SelectionItem>) -> SelectionItem {
    SelectionItem::Field(SelectionField {
        alias: None,
        name: name.to_string(),
        fields: Selection(inner),
    })
}

fn dog_object() -> GqlObject {
    GqlObject {
        description: None,
        name: "Dog".to_string(),
        fields: vec![
            field("name", "String"),
            field("barks", "Boolean"),
            GqlObjectField {
                description: None,
                name: "sillyName".to_string(),
                type_: FieldType::Named("String".to_string()),
                deprecation: DeprecationStatus::Deprecated(Some("be serious".to_string())),
            },
            field("dogHouse", "DogHouse"),
        ],
        is_required: false.into(),
    }
}

fn dog_context() -> (QueryContext, GqlObject) {
    let mut context = QueryContext::new_empty();
    context.schema.insert_object(dog_object());
    context.schema.insert_object(GqlObject {
        description: None,
        name: "DogHouse".to_string(),
        fields: vec![field("color", "String")],
        is_required: false.into(),
    });
    (context, dog_object())
}

#[test]
fn unknown_field_is_reported_with_its_owner() {
    let (context, dog) = dog_context();
    let selection = Selection(vec![selected("wingspan")]);

    let err = dog
        .response_for_selection(&context, &selection, "Query")
        .unwrap_err();
    assert_eq!(
        err,
        CodegenError::UnknownField {
            ty: "Dog".to_string(),
            field: "wingspan".to_string(),
        }
    );
    assert_eq!(err.message(), "Unknown field wingspan on Dog");
}

#[test]
fn nested_object_fields_get_prefix_derived_names() {
    // Nesting into `dogHouse` under prefix `Query` names the nested
    // record `QueryDogHouse`: the segment is the field name in
    // upper-camel case.
    let (context, dog) = dog_context();
    let selection = Selection(vec![selected_with("dogHouse", vec![selected("color")])]);

    let response = dog
        .response_for_selection(&context, &selection, "Query")
        .unwrap();
    let names: Vec<&str> = response
        .definitions
        .iter()
        .map(|d| match d {
            IrDefinition::Record(r) => r.name.as_str(),
            IrDefinition::Sum(s) => s.name.as_str(),
        })
        .collect();
    assert_eq!(names, vec!["QueryDogHouse", "Query"]);
    match &response.definitions[1] {
        IrDefinition::Record(r) => {
            assert_eq!(r.fields[0].type_, FieldType::Named("QueryDogHouse".to_string()));
            assert_eq!(r.fields[0].rust_name, "dog_house");
        }
        _ => panic!("expected a record"),
    }
}

#[test]
fn alias_replaces_the_field_name_in_output() {
    let (context, dog) = dog_context();
    let selection = Selection(vec![SelectionItem::Field(SelectionField {
        alias: Some("goodBoyName".to_string()),
        name: "name".to_string(),
        fields: Selection(vec![]),
    })]);

    let response = dog
        .response_for_selection(&context, &selection, "Query")
        .unwrap();
    match &response.definitions[0] {
        IrDefinition::Record(r) => {
            assert_eq!(r.fields[0].name, "goodBoyName");
            assert_eq!(r.fields[0].rust_name, "good_boy_name");
            assert_eq!(r.fields[0].type_, FieldType::Named("String".to_string()));
        }
        _ => panic!("expected a record"),
    }
}

#[test]
fn identical_duplicate_fields_are_merged() {
    let (context, dog) = dog_context();
    let selection = Selection(vec![selected("name"), selected("name")]);

    let response = dog
        .response_for_selection(&context, &selection, "Query")
        .unwrap();
    match &response.definitions[0] {
        IrDefinition::Record(r) => assert_eq!(r.fields.len(), 1),
        _ => panic!("expected a record"),
    }
}

#[test]
fn conflicting_fields_are_rejected() {
    // Two selections under one response key that disagree in their
    // sub-selection are a conflict, not a silent merge.
    let (context, dog) = dog_context();
    let selection = Selection(vec![
        selected_with("dogHouse", vec![selected("color")]),
        selected_with("dogHouse", vec![]),
    ]);

    let err = dog
        .response_for_selection(&context, &selection, "Query")
        .unwrap_err();
    assert_eq!(
        err,
        CodegenError::FieldConflict {
            field: "dogHouse".to_string(),
        }
    );
}

#[test]
fn aliases_make_distinct_response_keys() {
    let (context, dog) = dog_context();
    let selection = Selection(vec![
        selected("name"),
        SelectionItem::Field(SelectionField {
            alias: Some("alsoName".to_string()),
            name: "name".to_string(),
            fields: Selection(vec![]),
        }),
    ]);

    let response = dog
        .response_for_selection(&context, &selection, "Query")
        .unwrap();
    match &response.definitions[0] {
        IrDefinition::Record(r) => {
            assert_eq!(r.fields.len(), 2);
            assert_eq!(r.fields[0].name, "name");
            assert_eq!(r.fields[1].name, "alsoName");
        }
        _ => panic!("expected a record"),
    }
}

#[test]
fn deprecated_field_is_denied_under_the_deny_policy() {
    let (mut context, dog) = dog_context();
    context.deprecation_strategy = DeprecationStrategy::Deny;
    let selection = Selection(vec![selected("sillyName")]);

    let err = dog
        .response_for_selection(&context, &selection, "Query")
        .unwrap_err();
    assert_eq!(
        err,
        CodegenError::DeprecatedField {
            field: "sillyName".to_string(),
        }
    );
}

#[test]
fn deprecated_field_is_annotated_under_the_warn_policy() {
    let (context, dog) = dog_context();
    let selection = Selection(vec![selected("sillyName"), selected("name")]);

    let response = dog
        .response_for_selection(&context, &selection, "Query")
        .unwrap();
    match &response.definitions[0] {
        IrDefinition::Record(r) => {
            assert!(r.fields[0].deprecated);
            assert!(!r.fields[1].deprecated);
        }
        _ => panic!("expected a record"),
    }
}

#[test]
fn deprecated_field_is_plain_under_the_allow_policy() {
    let (mut context, dog) = dog_context();
    context.deprecation_strategy = DeprecationStrategy::Allow;
    let selection = Selection(vec![selected("sillyName")]);

    let response = dog
        .response_for_selection(&context, &selection, "Query")
        .unwrap();
    match &response.definitions[0] {
        IrDefinition::Record(r) => assert!(!r.fields[0].deprecated),
        _ => panic!("expected a record"),
    }
}

#[test]
fn unknown_fragment_is_reported() {
    let (context, dog) = dog_context();
    let selection = Selection(vec![SelectionItem::FragmentSpread(SelectionFragmentSpread {
        fragment_name: "Nowhere".to_string(),
    })]);

    let err = dog
        .response_for_selection(&context, &selection, "Query")
        .unwrap_err();
    assert_eq!(
        err,
        CodegenError::UnknownFragment {
            name: "Nowhere".to_string(),
        }
    );
}

#[test]
fn fragment_spread_inlines_fields_in_place() {
    let (mut context, dog) = dog_context();
    context.insert_fragment(GqlFragment {
        name: "DogBasics".to_string(),
        on: "Dog".to_string(),
        selection: Selection(vec![selected("barks")]),
    });
    let selection = Selection(vec![
        selected("name"),
        SelectionItem::FragmentSpread(SelectionFragmentSpread {
            fragment_name: "DogBasics".to_string(),
        }),
    ]);

    let response = dog
        .response_for_selection(&context, &selection, "Query")
        .unwrap();
    match &response.definitions[0] {
        IrDefinition::Record(r) => {
            let names: Vec<&str> = r.fields.iter().map(|f| f.name.as_str()).collect();
            assert_eq!(names, vec!["name", "barks"]);
        }
        _ => panic!("expected a record"),
    }
}

#[test]
fn cyclic_fragments_trip_the_recursion_guard() {
    let (mut context, dog) = dog_context();
    context.insert_fragment(GqlFragment {
        name: "Loop".to_string(),
        on: "Dog".to_string(),
        selection: Selection(vec![SelectionItem::FragmentSpread(SelectionFragmentSpread {
            fragment_name: "Loop".to_string(),
        })]),
    });
    let selection = Selection(vec![SelectionItem::FragmentSpread(SelectionFragmentSpread {
        fragment_name: "Loop".to_string(),
    })]);

    let err = dog
        .response_for_selection(&context, &selection, "Query")
        .unwrap_err();
    assert_eq!(err, CodegenError::SelectionTooDeep);
}

#[test]
fn unknown_type_condition_is_reported() {
    let (context, dog) = dog_context();
    let selection = Selection(vec![SelectionItem::InlineFragment(SelectionInlineFragment {
        on: "Cat".to_string(),
        fields: Selection(vec![]),
    })]);

    let err = dog
        .response_for_selection(&context, &selection, "Query")
        .unwrap_err();
    assert_eq!(
        err,
        CodegenError::UnknownType {
            ty: "Cat".to_string(),
        }
    );
    assert_eq!(err.message(), "Unknown type: Cat");
}

#[test]
fn maybe_expand_field_resolves_by_type_name() {
    let (context, _) = dog_context();
    let selection = Selection(vec![selected("color")]);

    let definitions = context
        .maybe_expand_field("DogHouse", &selection, "Prefix")
        .unwrap();
    assert_eq!(definitions.len(), 1);
    match &definitions[0] {
        IrDefinition::Record(r) => assert_eq!(r.name, "Prefix"),
        _ => panic!("expected a record"),
    }
}

#[test]
fn determinism_on_equal_inputs() {
    // Equal schema, selection, and configuration give byte-identical IR.
    let (context_a, dog_a) = dog_context();
    let (context_b, dog_b) = dog_context();
    let make = || {
        Selection(vec![
            selected("name"),
            selected_with("dogHouse", vec![selected("color")]),
        ])
    };

    let ra = dog_a.response_for_selection(&context_a, &make(), "Query");
    let rb = dog_b.response_for_selection(&context_b, &make(), "Query");
    assert_eq!(ra.unwrap(), rb.unwrap());
}

#[test]
fn conflicting_field_from_a_fragment_is_rejected() {
    // A fragment field merged over a host selection field with the same
    // response key but another sub-selection conflicts, as if it were
    // written in place.
    let (mut context, dog) = dog_context();
    context.insert_fragment(GqlFragment {
        name: "BareHouse".to_string(),
        on: "Dog".to_string(),
        selection: Selection(vec![selected_with("dogHouse", vec![])]),
    });
    let selection = Selection(vec![
        selected_with("dogHouse", vec![selected("color")]),
        SelectionItem::FragmentSpread(SelectionFragmentSpread {
            fragment_name: "BareHouse".to_string(),
        }),
    ]);

    let err = dog
        .response_for_selection(&context, &selection, "Query")
        .unwrap_err();
    assert_eq!(
        err,
        CodegenError::FieldConflict {
            field: "dogHouse".to_string(),
        }
    );
}

#[test]
fn fragment_cycles_are_detected() {
    let (mut context, _) = dog_context();
    context.insert_fragment(GqlFragment {
        name: "A".to_string(),
        on: "Dog".to_string(),
        selection: Selection(vec![SelectionItem::FragmentSpread(SelectionFragmentSpread {
            fragment_name: "B".to_string(),
        })]),
    });
    context.insert_fragment(GqlFragment {
        name: "B".to_string(),
        on: "Dog".to_string(),
        selection: Selection(vec![selected_with(
            "dogHouse",
            vec![SelectionItem::FragmentSpread(SelectionFragmentSpread {
                fragment_name: "A".to_string(),
            })],
        )]),
    });

    let err = context.detect_fragment_cycles().unwrap_err();
    assert_eq!(err, CodegenError::Cycle { name: "A".to_string() });
    assert_eq!(err.message(), "Fragment cycle involving A");
}

#[test]
fn acyclic_fragment_chains_pass_the_cycle_check() {
    let (mut context, _) = dog_context();
    context.insert_fragment(GqlFragment {
        name: "Inner".to_string(),
        on: "Dog".to_string(),
        selection: Selection(vec![selected("name")]),
    });
    context.insert_fragment(GqlFragment {
        name: "Outer".to_string(),
        on: "Dog".to_string(),
        selection: Selection(vec![SelectionItem::FragmentSpread(SelectionFragmentSpread {
            fragment_name: "Inner".to_string(),
        })]),
    });

    assert!(context.detect_fragment_cycles().is_ok());
}

#[test]
fn a_fragment_spreading_itself_is_a_cycle() {
    let (mut context, _) = dog_context();
    context.insert_fragment(GqlFragment {
        name: "Selfish".to_string(),
        on: "Dog".to_string(),
        selection: Selection(vec![SelectionItem::FragmentSpread(SelectionFragmentSpread {
            fragment_name: "Selfish".to_string(),
        })]),
    });

    let err = context.detect_fragment_cycles().unwrap_err();
    assert_eq!(
        err,
        CodegenError::Cycle {
            name: "Selfish".to_string()
        }
    );
}
