use vstd::prelude::*;
use crate::casing::{snake_of, to_snake_case};
use crate::deprecation::DeprecationStrategy;
use crate::text::{concat3_str, opt_view};

verus! {

/// Used to configure code generation.
#[derive(Debug, PartialEq)]
pub struct GraphQLClientCodegenOptions {
    /// Name of the operation we want to generate code for. If it does not
    /// match, we use all queries.
    pub operation_name: Option<String>,
    /// The name of the target struct for the generated response types.
    pub struct_name: Option<String>,
    /// The name of the module that will contain the generated types.
    pub module_name: Option<String>,
    /// Comma-separated list of additional traits to derive, passed to the
    /// emitter as-is.
    additional_derives: Option<String>,
    /// The deprecation strategy to adopt.
    deprecation_strategy: Option<DeprecationStrategy>,
    /// Target module visibility label, passed to the emitter as-is; the
    /// empty label stands for inherited visibility.
    module_visibility: Option<String>,
    /// A path label to a file the emitter includes so that builds track
    /// changes in the query file.
    query_file: Option<String>,
    /// A path label to a file the emitter includes so that builds track
    /// changes in the schema file.
    schema_file: Option<String>,
}

/// The mathematical value of the configuration.
#[verifier::ext_equal]
pub ghost struct GraphQLClientCodegenOptionsV {
    pub operation_name: Option<Seq<char>>,
    pub struct_name: Option<Seq<char>>,
    pub module_name: Option<Seq<char>>,
    pub additional_derives: Option<Seq<char>>,
    pub deprecation_strategy: Option<DeprecationStrategy>,
    pub module_visibility: Option<Seq<char>>,
    pub query_file: Option<Seq<char>>,
    pub schema_file: Option<Seq<char>>,
}

impl View for GraphQLClientCodegenOptions {
    type V = GraphQLClientCodegenOptionsV;

    closed spec fn view(&self) -> GraphQLClientCodegenOptionsV {
        GraphQLClientCodegenOptionsV {
            operation_name: opt_view(self.operation_name),
            struct_name: opt_view(self.struct_name),
            module_name: opt_view(self.module_name),
            additional_derives: opt_view(self.additional_derives),
            deprecation_strategy: self.deprecation_strategy,
            module_visibility: opt_view(self.module_visibility),
            query_file: opt_view(self.query_file),
            schema_file: opt_view(self.schema_file),
        }
    }
}

/// The fully-unset configuration value.
pub open spec fn spec_default_options() -> GraphQLClientCodegenOptionsV {
    GraphQLClientCodegenOptionsV {
        operation_name: Option::None,
        struct_name: Option::None,
        module_name: Option::None,
        additional_derives: Option::None,
        deprecation_strategy: Option::None,
        module_visibility: Option::None,
        query_file: Option::None,
        schema_file: Option::None,
    }
}

impl Default for GraphQLClientCodegenOptions {
    /// The default configuration leaves every setting unset.
    fn default() -> (r: Self)
        ensures
            r@ == spec_default_options(),
    {
        GraphQLClientCodegenOptions {
            operation_name: Option::None,
            struct_name: Option::None,
            module_name: Option::None,
            additional_derives: Option::None,
            deprecation_strategy: Option::None,
            module_visibility: Option::None,
            query_file: Option::None,
            schema_file: Option::None,
        }
    }
}

/// The module label the configuration denotes: the explicit module name
/// when set, else the operation name, in snake case either way.
pub open spec fn spec_module_name_label(o: GraphQLClientCodegenOptionsV) -> Option<Seq<char>> {
    match o.module_name {
        Option::Some(m) => Option::Some(snake_of(m)),
        Option::None => match o.operation_name {
            Option::Some(n) => Option::Some(snake_of(n)),
            Option::None => Option::None,
        },
    }
}

impl GraphQLClientCodegenOptions {
    /// Creates an empty options object with default params. It probably
    /// wants to be configured.
    pub fn new_default() -> (r: GraphQLClientCodegenOptions)
        ensures
            r@ == spec_default_options(),
    {
        Default::default()
    }

    /// The module label: the module name that was set explicitly, or the
    /// operation name, as snake case.
    pub fn module_name_label(&self) -> (r: Option<String>)
        ensures
            opt_view(r) == spec_module_name_label(self@),
    {
        match &self.module_name {
            Option::Some(m) => Option::Some(to_snake_case(m.as_str())),
            Option::None => match &self.operation_name {
                Option::Some(n) => Option::Some(to_snake_case(n.as_str())),
                Option::None => Option::None,
            },
        }
    }

    /// The visibility label to apply to the target module; empty when
    /// inherited.
    pub fn module_visibility(&self) -> (r: String)
        ensures
            match self@.module_visibility {
                Option::Some(v) => r@ == v,
                Option::None => r@ == Seq::<char>::empty(),
            },
    {
        match &self.module_visibility {
            Option::Some(v) => v.clone(),
            Option::None => String::new(),
        }
    }

    /// The deprecation strategy to adopt; warns by default.
    pub fn deprecation_strategy(&self) -> (r: DeprecationStrategy)
        ensures
            r == match self@.deprecation_strategy {
                Option::Some(s) => s,
                Option::None => DeprecationStrategy::Warn,
            },
    {
        match &self.deprecation_strategy {
            Option::Some(s) => *s,
            Option::None => DeprecationStrategy::Warn,
        }
    }

    /// A path label for the query file the emitter includes.
    pub fn set_query_file(&mut self, path: String)
        ensures
            final(self)@ == (GraphQLClientCodegenOptionsV {
                query_file: Option::Some(path@),
                ..old(self)@
            }),
    {
        self.query_file = Option::Some(path);
    }

    /// Comma-separated list of additional traits to derive.
    pub fn additional_derives(&self) -> (r: Option<&str>)
        ensures
            match r {
                Option::Some(d) => self@.additional_derives == Option::Some(d@),
                Option::None => self@.additional_derives is None,
            },
    {
        match &self.additional_derives {
            Option::Some(d) => Option::Some(d.as_str()),
            Option::None => Option::None,
        }
    }

    /// Comma-separated list of additional traits to derive.
    pub fn set_additional_derives(&mut self, additional_derives: String)
        ensures
            final(self)@ == (GraphQLClientCodegenOptionsV {
                additional_derives: Option::Some(additional_derives@),
                ..old(self)@
            }),
    {
        self.additional_derives = Option::Some(additional_derives);
    }

    /// The deprecation strategy to adopt.
    pub fn set_deprecation_strategy(&mut self, deprecation_strategy: DeprecationStrategy)
        ensures
            final(self)@ == (GraphQLClientCodegenOptionsV {
                deprecation_strategy: Option::Some(deprecation_strategy),
                ..old(self)@
            }),
    {
        self.deprecation_strategy = Option::Some(deprecation_strategy);
    }

    /// The name of the module that will contain the generated types.
    pub fn set_module_name(&mut self, module_name: String)
        ensures
            final(self)@ == (GraphQLClientCodegenOptionsV {
                module_name: Option::Some(module_name@),
                ..old(self)@
            }),
    {
        self.module_name = Option::Some(module_name);
    }

    /// Target module visibility label.
    pub fn set_module_visibility(&mut self, visibility: String)
        ensures
            final(self)@ == (GraphQLClientCodegenOptionsV {
                module_visibility: Option::Some(visibility@),
                ..old(self)@
            }),
    {
        self.module_visibility = Option::Some(visibility);
    }

    /// The name of the target struct for the generated response types.
    pub fn set_struct_name(&mut self, struct_name: String)
        ensures
            final(self)@ == (GraphQLClientCodegenOptionsV {
                struct_name: Option::Some(struct_name@),
                ..old(self)@
            }),
    {
        self.struct_name = Option::Some(struct_name);
    }

    /// Name of the operation we want to generate code for. If none is
    /// selected, it means all operations.
    pub fn set_operation_name(&mut self, operation_name: String)
        ensures
            final(self)@ == (GraphQLClientCodegenOptionsV {
                operation_name: Option::Some(operation_name@),
                ..old(self)@
            }),
    {
        self.operation_name = Option::Some(operation_name);
    }

    /// A path label for the schema file the emitter includes.
    pub fn schema_file(&self) -> (r: Option<&str>)
        ensures
            match r {
                Option::Some(p) => self@.schema_file == Option::Some(p@),
                Option::None => self@.schema_file is None,
            },
    {
        match &self.schema_file {
            Option::Some(p) => Option::Some(p.as_str()),
            Option::None => Option::None,
        }
    }

    /// A path label for the query file the emitter includes.
    pub fn query_file(&self) -> (r: Option<&str>)
        ensures
            match r {
                Option::Some(p) => self@.query_file == Option::Some(p@),
                Option::None => self@.query_file is None,
            },
    {
        match &self.query_file {
            Option::Some(p) => Option::Some(p.as_str()),
            Option::None => Option::None,
        }
    }
}

/// The options the derive front-end hands to generation.
#[derive(Debug, PartialEq)]
pub struct GraphQLClientDeriveOptions {
    pub operation_name: Option<String>,
    pub struct_name: Option<String>,
    pub module_name: Option<String>,
    pub additional_derives: Option<String>,
    pub deprecation_strategy: Option<DeprecationStrategy>,
    pub module_visibility: String,
}

/// The mathematical value of the derive options.
#[verifier::ext_equal]
pub ghost struct GraphQLClientDeriveOptionsV {
    pub operation_name: Option<Seq<char>>,
    pub struct_name: Option<Seq<char>>,
    pub module_name: Option<Seq<char>>,
    pub additional_derives: Option<Seq<char>>,
    pub deprecation_strategy: Option<DeprecationStrategy>,
    pub module_visibility: Seq<char>,
}

impl View for GraphQLClientDeriveOptions {
    type V = GraphQLClientDeriveOptionsV;

    open spec fn view(&self) -> GraphQLClientDeriveOptionsV {
        GraphQLClientDeriveOptionsV {
            operation_name: opt_view(self.operation_name),
            struct_name: opt_view(self.struct_name),
            module_name: opt_view(self.module_name),
            additional_derives: opt_view(self.additional_derives),
            deprecation_strategy: self.deprecation_strategy,
            module_visibility: self.module_visibility@,
        }
    }
}

/// Builds the derive options from the attribute values the front-end
/// extracted: the selected operation falls back to the deriving type's
/// own name, which also names the struct and the module.
pub fn build_graphql_client_derive_options(
    selected_operation: Option<String>,
    ident: String,
    response_derives: Option<String>,
    deprecation_strategy: DeprecationStrategy,
    module_visibility: String,
) -> (r: GraphQLClientDeriveOptions)
    ensures
        r@.operation_name == Option::Some(
            match opt_view(selected_operation) {
                Option::Some(n) => n,
                Option::None => ident@,
            },
        ),
        r@.struct_name == Option::Some(ident@),
        r@.module_name == Option::Some(ident@),
        r@.additional_derives == opt_view(response_derives),
        r@.deprecation_strategy == Option::Some(deprecation_strategy),
        r@.module_visibility == module_visibility@,
{
    let operation_name = match selected_operation {
        Option::Some(n) => n,
        Option::None => ident.clone(),
    };
    GraphQLClientDeriveOptions {
        operation_name: Option::Some(operation_name),
        struct_name: Option::Some(ident.clone()),
        module_name: Option::Some(ident),
        additional_derives: response_derives,
        deprecation_strategy: Option::Some(deprecation_strategy),
        module_visibility,
    }
}

/// Builds the query and schema path labels the derive front-end resolves
/// against the package root: each attribute value is appended to the
/// package directory with a separator.
pub fn build_query_and_schema_path(
    cargo_manifest_dir: &str,
    query_path_attr: &str,
    schema_path_attr: &str,
) -> (r: (String, String))
    ensures
        r.0@ == cargo_manifest_dir@ + "/"@ + query_path_attr@,
        r.1@ == cargo_manifest_dir@ + "/"@ + schema_path_attr@,
{
    let query_path = concat3_str(cargo_manifest_dir, "/", query_path_attr);
    let schema_path = concat3_str(cargo_manifest_dir, "/", schema_path_attr);
    (query_path, schema_path)
}

} // verus!
