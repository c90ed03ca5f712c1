use graphql_client_codegen::parsing::selection_from_selection_set;
use graphql_client_codegen::query::QueryContext;
use graphql_client_codegen::selection::{
    Selection, SelectionField, SelectionFragmentSpread, SelectionInlineFragment, SelectionItem,
};

#[test]
fn selection_extract_typename_simple_case() {
    let selection = Selection(Vec::new());
    let context = QueryContext::new_empty();

    assert!(selection.extract_typename(&context).is_none());
}

#[test]
fn selection_extract_typename_finds_the_first_typename_field() {
    let selection = Selection(vec![
        SelectionItem::Field(SelectionField {
            alias: None,
            name: "fullName".to_string(),
            fields: Selection(Vec::new()),
        }),
        SelectionItem::Field(SelectionField {
            alias: None,
            name: "__typename".to_string(),
            fields: Selection(Vec::new()),
        }),
    ]);
    let context = QueryContext::new_empty();

    let found = selection.extract_typename(&context);
    assert!(found.is_some());
    assert_eq!(found.unwrap().name, "__typename");
}

#[test]
fn selection_from_graphql_parser_selection_set() {
    let query = r##"
    query {
      animal {
        isCat
        isHorse
        ...Timestamps
        barks
        ...on Dog {
            rating
        }
        pawsCount
        aliased: sillyName
      }
    }
    "##;
    let parsed = graphql_parser::parse_query(query).unwrap();
    let selection_set: &graphql_parser::query::SelectionSet = parsed
        .definitions
        .iter()
        .filter_map(|def| {
            if let graphql_parser::query::Definition::Operation(
                graphql_parser::query::OperationDefinition::Query(q),
            ) = def
            {
                Some(&q.selection_set)
            } else {
                None
            }
        })
        .next()
        .unwrap();

    let selection: Selection = selection_from_selection_set(selection_set).unwrap();

    assert_eq!(
        selection,
        Selection(vec![SelectionItem::Field(SelectionField {
            alias: None,
            name: "animal".to_string(),
            fields: Selection(vec![
                SelectionItem::Field(SelectionField {
                    alias: None,
                    name: "isCat".to_string(),
                    fields: Selection(Vec::new()),
                }),
                SelectionItem::Field(SelectionField {
                    alias: None,
                    name: "isHorse".to_string(),
                    fields: Selection(Vec::new()),
                }),
                SelectionItem::FragmentSpread(SelectionFragmentSpread {
                    fragment_name: "Timestamps".to_string(),
                }),
                SelectionItem::Field(SelectionField {
                    alias: None,
                    name: "barks".to_string(),
                    fields: Selection(Vec::new()),
                }),
                SelectionItem::InlineFragment(SelectionInlineFragment {
                    on: "Dog".to_string(),
                    fields: Selection(vec![SelectionItem::Field(SelectionField {
                        alias: None,
                        name: "rating".to_string(),
                        fields: Selection(Vec::new()),
                    })]),
                }),
                SelectionItem::Field(SelectionField {
                    alias: None,
                    name: "pawsCount".to_string(),
                    fields: Selection(Vec::new()),
                }),
                SelectionItem::Field(SelectionField {
                    alias: Some("aliased".to_string()),
                    name: "sillyName".to_string(),
                    fields: Selection(Vec::new()),
                }),
            ]),
        })])
    );
}

#[test]
fn anonymous_inline_fragments_are_a_parse_failure() {
    let query = r##"
    query {
      animal {
        ... {
          name
        }
      }
    }
    "##;
    let parsed = graphql_parser::parse_query(query).unwrap();
    let selection_set: &graphql_parser::query::SelectionSet = parsed
        .definitions
        .iter()
        .filter_map(|def| {
            if let graphql_parser::query::Definition::Operation(
                graphql_parser::query::OperationDefinition::Query(q),
            ) = def
            {
                Some(&q.selection_set)
            } else {
                None
            }
        })
        .next()
        .unwrap();

    let converted = selection_from_selection_set(selection_set);
    assert!(converted.is_err());
    assert_eq!(
        converted.unwrap_err().message(),
        "could not convert the parsed document"
    );
}
