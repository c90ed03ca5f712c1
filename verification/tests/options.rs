use graphql_client_codegen::codegen_options::{
    build_graphql_client_derive_options, build_query_and_schema_path, GraphQLClientCodegenOptions,
};
use graphql_client_codegen::deprecation::DeprecationStrategy;

#[test]
fn new_default_leaves_everything_unset() {
    let options = GraphQLClientCodegenOptions::new_default();
    assert!(options.operation_name.is_none());
    assert!(options.struct_name.is_none());
    assert!(options.module_name.is_none());
    assert!(options.additional_derives().is_none());
    assert!(options.schema_file().is_none());
    assert!(options.query_file().is_none());
    assert_eq!(options.module_visibility(), "");
    assert_eq!(options.deprecation_strategy(), DeprecationStrategy::Warn);
    assert!(options.module_name_label().is_none());
}

#[test]
fn module_name_label_defaults_to_the_snake_cased_operation_name() {
    let mut options = GraphQLClientCodegenOptions::new_default();
    options.set_operation_name("SearchQuery".to_string());
    assert_eq!(options.module_name_label(), Some("search_query".to_string()));

    options.set_module_name("ForcedName".to_string());
    assert_eq!(options.module_name_label(), Some("forced_name".to_string()));
}

#[test]
fn setters_store_their_values() {
    let mut options = GraphQLClientCodegenOptions::new_default();
    options.set_additional_derives("Serialize,PartialEq".to_string());
    options.set_deprecation_strategy(DeprecationStrategy::Deny);
    options.set_module_visibility("pub".to_string());
    options.set_struct_name("SearchQuery".to_string());
    options.set_operation_name("SearchQuery".to_string());
    options.set_query_file("queries/search.graphql".to_string());

    assert_eq!(options.additional_derives(), Some("Serialize,PartialEq"));
    assert_eq!(options.deprecation_strategy(), DeprecationStrategy::Deny);
    assert_eq!(options.module_visibility(), "pub");
    assert_eq!(options.struct_name, Some("SearchQuery".to_string()));
    assert_eq!(options.operation_name, Some("SearchQuery".to_string()));
    assert_eq!(options.query_file(), Some("queries/search.graphql"));
    assert!(options.schema_file().is_none());
}

#[test]
fn deprecation_strategy_labels_round_trip() {
    assert_eq!(
        DeprecationStrategy::from_label("allow"),
        Some(DeprecationStrategy::Allow)
    );
    assert_eq!(
        DeprecationStrategy::from_label("deny"),
        Some(DeprecationStrategy::Deny)
    );
    assert_eq!(
        DeprecationStrategy::from_label("warn"),
        Some(DeprecationStrategy::Warn)
    );
    assert_eq!(DeprecationStrategy::from_label("loud"), None);
    assert_eq!(DeprecationStrategy::default(), DeprecationStrategy::Warn);
}

#[test]
fn derive_options_fall_back_to_the_type_name() {
    let options = build_graphql_client_derive_options(
        None,
        "SearchQuery".to_string(),
        Some("Serialize".to_string()),
        DeprecationStrategy::Warn,
        "pub".to_string(),
    );
    assert_eq!(options.operation_name, Some("SearchQuery".to_string()));
    assert_eq!(options.struct_name, Some("SearchQuery".to_string()));
    assert_eq!(options.module_name, Some("SearchQuery".to_string()));
    assert_eq!(options.additional_derives, Some("Serialize".to_string()));
    assert_eq!(options.deprecation_strategy, Some(DeprecationStrategy::Warn));
    assert_eq!(options.module_visibility, "pub");

    let selected = build_graphql_client_derive_options(
        Some("OtherOperation".to_string()),
        "SearchQuery".to_string(),
        None,
        DeprecationStrategy::Allow,
        String::new(),
    );
    assert_eq!(selected.operation_name, Some("OtherOperation".to_string()));
    assert_eq!(selected.struct_name, Some("SearchQuery".to_string()));
}

#[test]
fn query_and_schema_paths_are_resolved_against_the_package_root() {
    let (query_path, schema_path) = build_query_and_schema_path(
        "/home/code/pkg",
        "queries/search.graphql",
        "schema.json",
    );
    assert_eq!(query_path, "/home/code/pkg/queries/search.graphql");
    assert_eq!(schema_path, "/home/code/pkg/schema.json");
}
