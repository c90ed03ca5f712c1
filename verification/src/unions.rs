use vstd::prelude::*;
use crate::errors::{CodegenError, CodegenErrorV};
use crate::ir::{IrDefinition, IrDefinitionV, IrResponse, IrResponseV, IrVariant, IrVariantV};
use crate::query::{QueryContext, QueryContextV};
use crate::resolver::{
    resp_result_view, spec_empty_acc, spec_items, spec_union_sum, ResolveMode,
    MAX_SELECTION_DEPTH,
};
use crate::selection::{sel_view, Selection, SelectionV};
use crate::text::{clone_string_vec, opt_view};

verus! {

/// A union type: a set of member object type names and no declared
/// fields. Members are kept in lexicographic order by the loader; the
/// resolver only relies on their order being fixed.
#[derive(Debug, PartialEq)]
pub struct GqlUnion {
    pub description: Option<String>,
    pub variants: Vec<String>,
    /// Whether generation referenced the type.
    pub is_required: bool,
}

/// The mathematical value of a [`GqlUnion`].
#[verifier::ext_equal]
pub ghost struct GqlUnionV {
    pub description: Option<Seq<char>>,
    pub variants: Seq<Seq<char>>,
    pub is_required: bool,
}

impl View for GqlUnion {
    type V = GqlUnionV;

    open spec fn view(&self) -> GqlUnionV {
        GqlUnionV {
            description: opt_view(self.description),
            variants: self.variants@.map_values(|v: String| v@),
            is_required: self.is_required,
        }
    }
}

/// What [`union_variants`] returns: the variants the selection mentions,
/// the nested definitions they produce, and the mentioned member names,
/// in selection order.
pub open spec fn spec_union_variants(
    ctx: QueryContextV,
    sel: SelectionV,
    prefix: Seq<char>,
    depth: nat,
) -> Result<(Seq<IrVariantV>, Seq<IrDefinitionV>, Seq<Seq<char>>), CodegenErrorV> {
    match spec_items(
        ctx,
        Seq::empty(),
        prefix,
        ResolveMode::Union,
        prefix,
        sel.items,
        prefix,
        depth,
        spec_empty_acc(),
    ) {
        Result::Err(e) => Result::Err(e),
        Result::Ok(acc) => Result::Ok((acc.variants, acc.defs, acc.used)),
    }
}

/// The view of a variants result.
pub open spec fn variants_result_view(
    r: Result<(Vec<IrVariant>, Vec<IrDefinition>, Vec<String>), CodegenError>,
) -> Result<(Seq<IrVariantV>, Seq<IrDefinitionV>, Seq<Seq<char>>), CodegenErrorV> {
    match r {
        Result::Ok((variants, defs, used)) => Result::Ok(
            (
                variants@.map_values(|v: IrVariant| v@),
                defs@.map_values(|d: IrDefinition| d@),
                used@.map_values(|u: String| u@),
            ),
        ),
        Result::Err(e) => Result::Err(e@),
    }
}

/// Resolves the items of a union selection into one sum variant per
/// inline fragment or fragment spread, with the nested record
/// definitions each variant's sub-selection produces. A plain field
/// other than the typename meta field is an error: unions declare no
/// fields.
pub fn union_variants(
    selection: &Selection,
    query_context: &QueryContext,
    prefix: &str,
) -> (r: Result<(Vec<IrVariant>, Vec<IrDefinition>, Vec<String>), CodegenError>)
    ensures
        variants_result_view(r) == spec_union_variants(
            query_context@,
            sel_view(*selection),
            prefix@,
            MAX_SELECTION_DEPTH as nat,
        ),
{
    let prefix_owned: String = prefix.to_owned();
    let empty_fields: Vec<crate::schema::GqlObjectField> = Vec::new();
    let acc = crate::resolver::ItemsAcc::new_empty();
    proof {
        assert(crate::resolver::fields_view(empty_fields@) =~= Seq::<
            crate::schema::GqlObjectFieldV,
        >::empty());
        assert(sel_view(*selection).items.skip(0) =~= sel_view(*selection).items);
    }
    match crate::resolver::expand_items(
        query_context,
        &empty_fields,
        &prefix_owned,
        ResolveMode::Union,
        &prefix_owned,
        selection,
        0,
        &prefix_owned,
        MAX_SELECTION_DEPTH,
        acc,
    ) {
        Result::Err(e) => Result::Err(e),
        Result::Ok(out) => Result::Ok((out.variants, out.defs, out.used)),
    }
}

/// What [`GqlUnion::response_for_selection`] returns: the response
/// derives of the context and the definitions of the union selection.
pub open spec fn spec_union_response(
    ctx: QueryContextV,
    u: GqlUnionV,
    sel: SelectionV,
    prefix: Seq<char>,
    depth: nat,
) -> Result<IrResponseV, CodegenErrorV> {
    match spec_union_sum(ctx, u, sel, prefix, depth) {
        Result::Err(e) => Result::Err(e),
        Result::Ok(defs) => Result::Ok(IrResponseV { derives: ctx.response_derives, definitions: defs }),
    }
}

impl GqlUnion {
    /// Builds the response IR of a union selection: the nested records
    /// of the mentioned variants, then the sum named `prefix`,
    /// discriminated by the typename meta field, with one payload-less
    /// variant for each member the selection never mentions. The
    /// selection must include the typename meta field, directly or
    /// through a spread.
    pub fn response_for_selection(
        &self,
        query_context: &QueryContext,
        selection: &Selection,
        prefix: &str,
    ) -> (r: Result<IrResponse, CodegenError>)
        ensures
            resp_result_view(r) == spec_union_response(
                query_context@,
                self@,
                sel_view(*selection),
                prefix@,
                MAX_SELECTION_DEPTH as nat,
            ),
    {
        let prefix_owned: String = prefix.to_owned();
        match crate::resolver::expand_union_sum(
            query_context,
            self,
            selection,
            &prefix_owned,
            MAX_SELECTION_DEPTH,
        ) {
            Result::Err(e) => Result::Err(e),
            Result::Ok(definitions) => {
                let derives = clone_string_vec(query_context.response_derives());
                let resp = IrResponse { derives, definitions };
                Result::Ok(resp)
            },
        }
    }
}

} // verus!
