use vstd::prelude::*;
use crate::text::concat_str;

verus! {

/// The closed set of failures generation can report.
///
/// Every error carries the offending type, field, fragment, or selection
/// name when one applies.
#[derive(Debug, PartialEq)]
pub enum CodegenError {
    /// The operation document could not be converted to the query model.
    QueryParse,
    /// A selected field does not exist on its parent type.
    UnknownField { ty: String, field: String },
    /// An inline fragment or a spread targets a type the schema lacks.
    UnknownType { ty: String },
    /// A fragment spread names a fragment the document does not define.
    UnknownFragment { name: String },
    /// An abstract-type selection lacks the typename meta field.
    MissingTypename { union_name: String },
    /// Fragments form a cycle through their spreads.
    Cycle { name: String },
    /// Two merged field selections disagree.
    FieldConflict { field: String },
    /// The deprecation policy denies a selected deprecated field.
    DeprecatedField { field: String },
    /// The recursion guard tripped while expanding nested selections.
    SelectionTooDeep,
}

/// The mathematical value of a [`CodegenError`].
#[verifier::ext_equal]
pub ghost enum CodegenErrorV {
    QueryParse,
    UnknownField { ty: Seq<char>, field: Seq<char> },
    UnknownType { ty: Seq<char> },
    UnknownFragment { name: Seq<char> },
    MissingTypename { union_name: Seq<char> },
    Cycle { name: Seq<char> },
    FieldConflict { field: Seq<char> },
    DeprecatedField { field: Seq<char> },
    SelectionTooDeep,
}

impl View for CodegenError {
    type V = CodegenErrorV;

    open spec fn view(&self) -> CodegenErrorV {
        match self {
            CodegenError::QueryParse => CodegenErrorV::QueryParse,
            CodegenError::UnknownField { ty, field } => CodegenErrorV::UnknownField {
                ty: ty@,
                field: field@,
            },
            CodegenError::UnknownType { ty } => CodegenErrorV::UnknownType { ty: ty@ },
            CodegenError::UnknownFragment { name } => CodegenErrorV::UnknownFragment {
                name: name@,
            },
            CodegenError::MissingTypename { union_name } => CodegenErrorV::MissingTypename {
                union_name: union_name@,
            },
            CodegenError::Cycle { name } => CodegenErrorV::Cycle { name: name@ },
            CodegenError::FieldConflict { field } => CodegenErrorV::FieldConflict {
                field: field@,
            },
            CodegenError::DeprecatedField { field } => CodegenErrorV::DeprecatedField {
                field: field@,
            },
            CodegenError::SelectionTooDeep => CodegenErrorV::SelectionTooDeep,
        }
    }
}

/// The diagnostic text of an error value.
pub open spec fn spec_message(e: CodegenErrorV) -> Seq<char> {
    match e {
        CodegenErrorV::QueryParse => "could not convert the parsed document"@,
        CodegenErrorV::UnknownField { ty, field } => "Unknown field "@ + field + " on "@ + ty,
        CodegenErrorV::UnknownType { ty } => "Unknown type: "@ + ty,
        CodegenErrorV::UnknownFragment { name } => "Unknown fragment: "@ + name,
        CodegenErrorV::MissingTypename { union_name } => "Missing __typename in selection for "@
            + union_name,
        CodegenErrorV::Cycle { name } => "Fragment cycle involving "@ + name,
        CodegenErrorV::FieldConflict { field } => "Conflicting field selections for "@ + field,
        CodegenErrorV::DeprecatedField { field } => "Deprecated field selected: "@ + field,
        CodegenErrorV::SelectionTooDeep => "Selection is too deeply nested"@,
    }
}

impl CodegenError {
    /// Renders the human-readable message of the error.
    pub fn message(&self) -> (r: String)
        ensures
            r@ == spec_message(self@),
    {
        match self {
            CodegenError::QueryParse => "could not convert the parsed document".to_owned(),
            CodegenError::UnknownField { ty, field } => {
                let head = concat_str("Unknown field ", field.as_str());
                let mid = concat_str(head.as_str(), " on ");
                concat_str(mid.as_str(), ty.as_str())
            },
            CodegenError::UnknownType { ty } => concat_str("Unknown type: ", ty.as_str()),
            CodegenError::UnknownFragment { name } => concat_str(
                "Unknown fragment: ",
                name.as_str(),
            ),
            CodegenError::MissingTypename { union_name } => concat_str(
                "Missing __typename in selection for ",
                union_name.as_str(),
            ),
            CodegenError::Cycle { name } => concat_str(
                "Fragment cycle involving ",
                name.as_str(),
            ),
            CodegenError::FieldConflict { field } => concat_str(
                "Conflicting field selections for ",
                field.as_str(),
            ),
            CodegenError::DeprecatedField { field } => concat_str(
                "Deprecated field selected: ",
                field.as_str(),
            ),
            CodegenError::SelectionTooDeep => "Selection is too deeply nested".to_owned(),
        }
    }
}

} // verus!
