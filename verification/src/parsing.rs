use vstd::prelude::*;
use graphql_parser::query::InlineFragment as AstInlineFragment;
use graphql_parser::query::Selection as AstSelection;
use graphql_parser::query::SelectionSet as AstSelectionSet;
use graphql_parser::query::TypeCondition as AstTypeCondition;
use crate::errors::CodegenError;
use crate::selection::{
    Selection, SelectionField, SelectionFragmentSpread, SelectionInlineFragment, SelectionItem,
};

verus! {

#[verifier::external_type_specification]
#[verifier::external_body]
pub struct ExSelectionSet(AstSelectionSet);

#[verifier::external_type_specification]
#[verifier::external_body]
pub struct ExAstSelection(AstSelection);

#[verifier::external_type_specification]
#[verifier::external_body]
pub struct ExAstInlineFragment(AstInlineFragment);

/// Relies on graphql_parser's query AST: a parsed inline fragment is
/// moved field for field. One the parser accepted without a type
/// condition has no place in the query model, so the conversion reports
/// it as a parse failure.
#[verifier::external_body]
fn inline_fragment_from_ast(inline: &AstInlineFragment) -> (r: Result<
    SelectionItem,
    CodegenError,
>) {
    let on = match &inline.type_condition {
        Option::Some(AstTypeCondition::On(n)) => n.clone(),
        Option::None => return Result::Err(CodegenError::QueryParse),
    };
    let fields = selection_from_selection_set(&inline.selection_set)?;
    Result::Ok(SelectionItem::InlineFragment(SelectionInlineFragment { on, fields }))
}

/// Relies on graphql_parser's query AST: one parsed selection item is
/// moved field for field into the query model.
#[verifier::external_body]
fn selection_item_from_ast(item: &AstSelection) -> (r: Result<SelectionItem, CodegenError>) {
    match item {
        AstSelection::Field(f) => {
            let fields = selection_from_selection_set(&f.selection_set)?;
            let alias = f.alias.clone();
            let name = f.name.clone();
            Result::Ok(SelectionItem::Field(SelectionField { alias, name, fields }))
        },
        AstSelection::FragmentSpread(s) => {
            let fragment_name = s.fragment_name.clone();
            Result::Ok(SelectionItem::FragmentSpread(SelectionFragmentSpread { fragment_name }))
        },
        AstSelection::InlineFragment(inline) => inline_fragment_from_ast(inline),
    }
}

/// Relies on graphql_parser's query AST: a parsed selection set is moved
/// item for item, in order, into the query model's selection.
#[verifier::external_body]
pub fn selection_from_selection_set(set: &AstSelectionSet) -> (r: Result<
    Selection,
    CodegenError,
>) {
    let mut items = Vec::new();
    for item in &set.items {
        items.push(selection_item_from_ast(item)?);
    }
    Result::Ok(Selection(items))
}

} // verus!
