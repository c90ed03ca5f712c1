use vstd::prelude::*;
use crate::errors::{CodegenError, CodegenErrorV};
use crate::ir::{IrResponse, IrResponseV};
use crate::query::{QueryContext, QueryContextV};
use crate::resolver::{
    expand_object_record, resp_result_view, spec_object_record, MAX_SELECTION_DEPTH,
};
use crate::schema::{GqlObject, GqlObjectV};
use crate::selection::{sel_view, Selection, SelectionV};
use crate::text::clone_string_vec;

verus! {

/// What [`GqlObject::response_for_selection`] returns: the response
/// derives of the context and the definitions of the object selection.
pub open spec fn spec_object_response(
    ctx: QueryContextV,
    obj: GqlObjectV,
    sel: SelectionV,
    prefix: Seq<char>,
    depth: nat,
) -> Result<IrResponseV, CodegenErrorV> {
    match spec_object_record(ctx, obj, sel, prefix, depth) {
        Result::Err(e) => Result::Err(e),
        Result::Ok(defs) => Result::Ok(
            IrResponseV { derives: ctx.response_derives, definitions: defs },
        ),
    }
}

impl GqlObject {
    /// Builds the response IR of an object selection: the nested
    /// definitions its composite fields produce, then the record named
    /// `prefix` with one field per selected field, in selection order.
    /// Identical duplicate selections of a response key are merged;
    /// disagreeing ones are an error.
    pub fn response_for_selection(
        &self,
        query_context: &QueryContext,
        selection: &Selection,
        prefix: &str,
    ) -> (r: Result<IrResponse, CodegenError>)
        ensures
            resp_result_view(r) == spec_object_response(
                query_context@,
                self@,
                sel_view(*selection),
                prefix@,
                MAX_SELECTION_DEPTH as nat,
            ),
    {
        let prefix_owned: String = prefix.to_owned();
        match expand_object_record(
            query_context,
            self,
            selection,
            &prefix_owned,
            MAX_SELECTION_DEPTH,
        ) {
            Result::Err(e) => Result::Err(e),
            Result::Ok(definitions) => {
                let derives = clone_string_vec(query_context.response_derives());
                Result::Ok(IrResponse { derives, definitions })
            },
        }
    }
}

} // verus!
