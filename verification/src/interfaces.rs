use vstd::prelude::*;
use crate::errors::{CodegenError, CodegenErrorV};
use crate::ir::{IrResponse, IrResponseV};
use crate::query::{QueryContext, QueryContextV};
use crate::resolver::{
    expand_interface_record, resp_result_view, spec_interface_record, MAX_SELECTION_DEPTH,
};
use crate::schema::{GqlInterface, GqlInterfaceV};
use crate::selection::{sel_view, Selection, SelectionV};
use crate::text::clone_string_vec;

verus! {

/// What [`GqlInterface::response_for_selection`] returns: the response
/// derives of the context and the definitions of the interface
/// selection.
pub open spec fn spec_interface_response(
    ctx: QueryContextV,
    interface: GqlInterfaceV,
    sel: SelectionV,
    prefix: Seq<char>,
    depth: nat,
) -> Result<IrResponseV, CodegenErrorV> {
    match spec_interface_record(ctx, interface, sel, prefix, depth) {
        Result::Err(e) => Result::Err(e),
        Result::Ok(defs) => Result::Ok(
            IrResponseV { derives: ctx.response_derives, definitions: defs },
        ),
    }
}

impl GqlInterface {
    /// Builds the response IR of an interface selection: the nested
    /// definitions, the sum named `prefix + "On"` over the implementers
    /// (payload-less for those the selection never mentions),
    /// discriminated by the typename meta field, and the base record
    /// named `prefix` holding the interface's own selected fields plus
    /// the `on` field that carries the sum. The selection must include
    /// the typename meta field, directly or through a spread.
    pub fn response_for_selection(
        &self,
        query_context: &QueryContext,
        selection: &Selection,
        prefix: &str,
    ) -> (r: Result<IrResponse, CodegenError>)
        ensures
            resp_result_view(r) == spec_interface_response(
                query_context@,
                self@,
                sel_view(*selection),
                prefix@,
                MAX_SELECTION_DEPTH as nat,
            ),
    {
        let prefix_owned: String = prefix.to_owned();
        match expand_interface_record(
            query_context,
            self,
            selection,
            &prefix_owned,
            MAX_SELECTION_DEPTH,
        ) {
            Result::Err(e) => Result::Err(e),
            Result::Ok(definitions) => {
                let derives = clone_string_vec(query_context.response_derives());
                Result::Ok(IrResponse { derives, definitions })
            },
        }
    }
}

} // verus!
