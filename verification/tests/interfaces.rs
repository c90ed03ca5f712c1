use graphql_client_codegen::deprecation::DeprecationStatus;
use graphql_client_codegen::field_type::FieldType;
use graphql_client_codegen::ir::{IrDefinition, IrField};
use graphql_client_codegen::query::{GqlFragment, QueryContext};
use graphql_client_codegen::schema::{GqlInterface, GqlObject, GqlObjectField};
use graphql_client_codegen::selection::{
    Selection, SelectionField, SelectionFragmentSpread, SelectionInlineFragment, SelectionItem,
};

fn field(name: &str, leaf: &str) -> GqlObjectField {
    GqlObjectField {
        description: None,
        name: name.to_string(),
        type_: FieldType::Named(leaf.to_string()),
        deprecation: DeprecationStatus::Current,
    }
}

fn selected(name: &str) -> SelectionItem {
    SelectionItem::Field(SelectionField {
        alias: None,
        name: name.to_string(),
        fields: Selection(vec![]),
    })
}

fn on(name: &str, inner: Vec<SelectionItem>) -> SelectionItem {
    SelectionItem::InlineFragment(SelectionInlineFragment {
        on: name.to_string(),
        fields: Selection(inner),
    })
}

/// A schema with interface `Named` and its three implementers.
fn named_context() -> (QueryContext, GqlInterface) {
    let mut context = QueryContext::new_empty();
    context.schema.insert_object(GqlObject {
        description: None,
        name: "Person".to_string(),
        fields: vec![field("birthday", "String")],
        is_required: false.into(),
    });
    context.schema.insert_object(GqlObject {
        description: None,
        name: "Dog".to_string(),
        fields: vec![field("isGoodDog", "Boolean")],
        is_required: false.into(),
    });
    context.schema.insert_object(GqlObject {
        description: None,
        name: "Organization".to_string(),
        fields: vec![field("industry", "Industry")],
        is_required: false.into(),
    });
    let interface = GqlInterface {
        description: None,
        name: "Named".to_string(),
        fields: vec![field("name", "String")],
        implemented_by: vec![
            "Dog".to_string(),
            "Organization".to_string(),
            "Person".to_string(),
        ],
        is_required: false.into(),
    };
    (context, interface)
}

#[test]
fn interface_with_inline_fragments_and_typename() {
    let (context, interface) = named_context();
    let selection = Selection(vec![
        selected("__typename"),
        selected("name"),
        on("Person", vec![selected("birthday")]),
        on("Dog", vec![selected("isGoodDog")]),
        on("Organization", vec![selected("industry")]),
    ]);

    let response = interface
        .response_for_selection(&context, &selection, "Everything")
        .unwrap();

    let names: Vec<&str> = response
        .definitions
        .iter()
        .map(|d| match d {
            IrDefinition::Record(r) => r.name.as_str(),
            IrDefinition::Sum(s) => s.name.as_str(),
        })
        .collect();
    assert_eq!(
        names,
        vec![
            "EverythingOnPerson",
            "EverythingOnDog",
            "EverythingOnOrganization",
            "EverythingOn",
            "Everything",
        ]
    );

    match response.definitions.last().unwrap() {
        IrDefinition::Record(record) => {
            assert_eq!(record.name, "Everything");
            assert_eq!(
                record.fields,
                vec![
                    IrField {
                        name: "name".to_string(),
                        rust_name: "name".to_string(),
                        type_: FieldType::Named("String".to_string()),
                        deprecated: false,
                    },
                    IrField {
                        name: "on".to_string(),
                        rust_name: "on".to_string(),
                        type_: FieldType::Named("EverythingOn".to_string()),
                        deprecated: false,
                    },
                ]
            );
        }
        _ => panic!("expected the base record last"),
    }

    match &response.definitions[3] {
        IrDefinition::Sum(sum) => {
            assert_eq!(sum.tag, "__typename");
            let variant_names: Vec<&str> =
                sum.variants.iter().map(|v| v.name.as_str()).collect();
            assert_eq!(variant_names, vec!["Person", "Dog", "Organization"]);
            assert!(sum.variants.iter().all(|v| v.payload.is_some()));
        }
        _ => panic!("expected the sum before the base record"),
    }
}

#[test]
fn interface_not_on_everything_keeps_a_payload_less_variant() {
    // A selection that never narrows to `Dog` still gets a `Dog` variant,
    // without a payload, so responses with that tag remain representable.
    let (context, interface) = named_context();
    let selection = Selection(vec![
        selected("__typename"),
        selected("name"),
        on("Person", vec![selected("birthday")]),
        on("Organization", vec![selected("industry")]),
    ]);

    let response = interface
        .response_for_selection(&context, &selection, "Everything")
        .unwrap();

    match &response.definitions[response.definitions.len() - 2] {
        IrDefinition::Sum(sum) => {
            let described: Vec<(&str, bool)> = sum
                .variants
                .iter()
                .map(|v| (v.name.as_str(), v.payload.is_some()))
                .collect();
            assert_eq!(
                described,
                vec![("Person", true), ("Organization", true), ("Dog", false)]
            );
        }
        _ => panic!("expected the sum before the base record"),
    }
}

#[test]
fn fragment_in_interface_adds_shared_fields() {
    // A fragment on the interface spread at the interface level adds its
    // fields to the base record; the per-variant records are unchanged.
    let (mut context, interface) = named_context();
    context.schema.insert_object(GqlObject {
        description: None,
        name: "PublicStatus".to_string(),
        fields: vec![field("displayName", "Boolean")],
        is_required: false.into(),
    });
    let mut iface = interface;
    iface
        .fields
        .push(field("publicStatus", "PublicStatus"));
    context.insert_fragment(GqlFragment {
        name: "PublicStatusFragment".to_string(),
        on: "Named".to_string(),
        selection: Selection(vec![SelectionItem::Field(SelectionField {
            alias: None,
            name: "publicStatus".to_string(),
            fields: Selection(vec![selected("displayName")]),
        })]),
    });
    let selection = Selection(vec![
        selected("__typename"),
        selected("name"),
        SelectionItem::FragmentSpread(SelectionFragmentSpread {
            fragment_name: "PublicStatusFragment".to_string(),
        }),
        on("Person", vec![selected("birthday")]),
    ]);

    let response = iface
        .response_for_selection(&context, &selection, "Everything")
        .unwrap();

    match response.definitions.last().unwrap() {
        IrDefinition::Record(record) => {
            let base_fields: Vec<&str> =
                record.fields.iter().map(|f| f.name.as_str()).collect();
            assert_eq!(base_fields, vec!["name", "publicStatus", "on"]);
            assert_eq!(
                record.fields[1].type_,
                FieldType::Named("EverythingPublicStatus".to_string())
            );
            assert_eq!(record.fields[1].rust_name, "public_status");
        }
        _ => panic!("expected the base record last"),
    }
    assert!(response.definitions.iter().any(|d| match d {
        IrDefinition::Record(r) => r.name == "EverythingPublicStatus",
        _ => false,
    }));
}

#[test]
fn variant_specific_fields_need_an_inline_fragment() {
    // On an interface, only the interface's own fields may be selected
    // directly; an implementer's field is unknown at that level.
    let (context, interface) = named_context();
    let selection = Selection(vec![selected("__typename"), selected("birthday")]);

    let result = interface.response_for_selection(&context, &selection, "Everything");
    assert!(result.is_err());
}
