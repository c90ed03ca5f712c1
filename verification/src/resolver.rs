use vstd::prelude::*;
use crate::casing::{camel_of, snake_of, to_camel_case, to_snake_case};
use crate::constants::TYPENAME_FIELD;
use crate::deprecation::DeprecationStrategy;
use crate::errors::{CodegenError, CodegenErrorV};
use crate::field_type::{spec_leaf_name, spec_with_leaf, FieldType, FieldTypeV};
use crate::ir::{
    IrDefinition, IrDefinitionV, IrField, IrFieldV, IrRecord, IrRecordV, IrSum, IrSumV, IrVariant,
    IrVariantV,
};
use crate::query::{spec_find_fragment, QueryContext, QueryContextV};
use crate::schema::{
    find_field, spec_find_field, spec_find_interface, spec_find_object, spec_find_union,
    GqlInterface, GqlInterfaceV, GqlObject, GqlObjectField, GqlObjectFieldV, GqlObjectV, Schema,
    SchemaV,
};
use crate::selection::{
    item_view, lemma_items_view, sel_view, spec_typename, Selection, SelectionField,
    SelectionFieldV, SelectionItem, SelectionItemV, SelectionV,
};
use crate::text::{concat3_str, concat_str, str_eq};
use crate::unions::{GqlUnion, GqlUnionV};

verus! {

/// The recursion guard: how deeply nested selections (and fragment
/// spreads) may expand before generation fails.
pub const MAX_SELECTION_DEPTH: usize = 128;

/// Which kind of parent type a selection set is being resolved against.
#[derive(Clone, Copy, Debug, PartialEq, Eq, Structural)]
pub enum ResolveMode {
    Object,
    Interface,
    Union,
}

/// The state accumulated while walking one selection set: the record
/// fields emitted so far, the field selections accepted so far (for
/// merge checking), the nested definitions produced, and the sum
/// variants with their type-condition names.
#[derive(Debug)]
pub struct ItemsAcc {
    pub fields: Vec<IrField>,
    pub seen: Vec<SelectionField>,
    pub defs: Vec<IrDefinition>,
    pub variants: Vec<IrVariant>,
    pub used: Vec<String>,
}

/// The mathematical value of an [`ItemsAcc`].
#[verifier::ext_equal]
pub ghost struct ItemsAccV {
    pub fields: Seq<IrFieldV>,
    pub seen: Seq<SelectionFieldV>,
    pub defs: Seq<IrDefinitionV>,
    pub variants: Seq<IrVariantV>,
    pub used: Seq<Seq<char>>,
}

impl View for ItemsAcc {
    type V = ItemsAccV;

    open spec fn view(&self) -> ItemsAccV {
        ItemsAccV {
            fields: self.fields@.map_values(|f: IrField| f@),
            seen: self.seen@.map_values(|f: SelectionField| f@),
            defs: self.defs@.map_values(|d: IrDefinition| d@),
            variants: self.variants@.map_values(|v: IrVariant| v@),
            used: self.used@.map_values(|u: String| u@),
        }
    }
}

/// The empty accumulator value.
pub open spec fn spec_empty_acc() -> ItemsAccV {
    ItemsAccV {
        fields: Seq::empty(),
        seen: Seq::empty(),
        defs: Seq::empty(),
        variants: Seq::empty(),
        used: Seq::empty(),
    }
}

impl ItemsAcc {
    /// A fresh, empty accumulator.
    pub fn new_empty() -> (r: ItemsAcc)
        ensures
            r@ == spec_empty_acc(),
    {
        let r = ItemsAcc {
            fields: Vec::new(),
            seen: Vec::new(),
            defs: Vec::new(),
            variants: Vec::new(),
            used: Vec::new(),
        };
        proof {
            assert(r@ =~= spec_empty_acc());
        }
        r
    }
}

/// The view of a declared-field list.
pub open spec fn fields_view(v: Seq<GqlObjectField>) -> Seq<GqlObjectFieldV> {
    v.map_values(|f: GqlObjectField| f@)
}

/// The view of a list of names.
pub open spec fn names_view(v: Seq<String>) -> Seq<Seq<char>> {
    v.map_values(|n: String| n@)
}

/// The view of an accumulator result.
pub open spec fn acc_result_view(r: Result<ItemsAcc, CodegenError>) -> Result<
    ItemsAccV,
    CodegenErrorV,
> {
    match r {
        Result::Ok(a) => Result::Ok(a@),
        Result::Err(e) => Result::Err(e@),
    }
}

/// The view of a definitions result.
pub open spec fn defs_result_view(r: Result<Vec<IrDefinition>, CodegenError>) -> Result<
    Seq<IrDefinitionV>,
    CodegenErrorV,
> {
    match r {
        Result::Ok(d) => Result::Ok(d@.map_values(|x: IrDefinition| x@)),
        Result::Err(e) => Result::Err(e@),
    }
}

/// The response key of a field selection: the alias when present, else
/// the field name.
pub open spec fn spec_key(f: SelectionFieldV) -> Seq<char> {
    match f.alias {
        Option::Some(a) => a,
        Option::None => f.name,
    }
}

/// The accepted field selection registered first under the response key.
pub open spec fn spec_find_seen(seen: Seq<SelectionFieldV>, key: Seq<char>) -> Option<
    SelectionFieldV,
>
    decreases seen,
{
    if seen.len() == 0 {
        Option::None
    } else if spec_key(seen[0]) == key {
        Option::Some(seen[0])
    } else {
        spec_find_seen(seen.drop_first(), key)
    }
}

/// Whether `name` resolves to a composite type of the schema: an object,
/// an interface, or a union.
pub open spec fn spec_is_composite(s: SchemaV, name: Seq<char>) -> bool {
    spec_find_object(s.objects, name) is Some || spec_find_interface(s.interfaces, name) is Some
        || spec_find_union(s.unions, name) is Some
}

/// The payload-less variants for the schema members the selection never
/// mentioned, in member order.
pub open spec fn spec_empty_variants(members: Seq<Seq<char>>, used: Seq<Seq<char>>) -> Seq<
    IrVariantV,
>
    decreases members,
{
    if members.len() == 0 {
        Seq::empty()
    } else {
        let rest = spec_empty_variants(members.drop_last(), used);
        if used.contains(members.last()) {
            rest
        } else {
            rest.push(IrVariantV { name: members.last(), payload: Option::None })
        }
    }
}

/// Whether the selection includes the typename meta field, directly or
/// through a fragment spread (followed to the given depth).
pub open spec fn spec_has_typename(ctx: QueryContextV, items: Seq<SelectionItemV>, depth: nat) -> bool
    decreases depth, items.len(),
{
    if items.len() == 0 {
        false
    } else {
        let here = match items[0] {
            SelectionItemV::Field(f) => f.name == spec_typename(),
            SelectionItemV::FragmentSpread(s) => match spec_find_fragment(
                ctx.fragments,
                s.fragment_name,
            ) {
                Option::Some(frag) => depth > 0 && spec_has_typename(
                    ctx,
                    frag.selection.items,
                    (depth - 1) as nat,
                ),
                Option::None => false,
            },
            SelectionItemV::InlineFragment(_) => false,
        };
        here || spec_has_typename(ctx, items.drop_first(), depth)
    }
}

/// What resolving one field selection against the declared fields of
/// `owner` adds to the accumulator, or the error it raises: merge
/// checking, deprecation policy, and recursion into composite leaves.
pub open spec fn spec_field_step(
    ctx: QueryContextV,
    decl_fields: Seq<GqlObjectFieldV>,
    owner: Seq<char>,
    f: SelectionFieldV,
    prefix: Seq<char>,
    depth: nat,
    acc: ItemsAccV,
) -> Result<ItemsAccV, CodegenErrorV>
    decreases depth, 0nat, 0nat,
{
    if f.name == spec_typename() {
        Result::Ok(acc)
    } else {
        let key = spec_key(f);
        match spec_find_seen(acc.seen, key) {
            Option::Some(prev) => if prev == f {
                Result::Ok(acc)
            } else {
                Result::Err(CodegenErrorV::FieldConflict { field: key })
            },
            Option::None => match spec_find_field(decl_fields, f.name) {
                Option::None => Result::Err(
                    CodegenErrorV::UnknownField { ty: owner, field: f.name },
                ),
                Option::Some(df) => if df.deprecation is Deprecated
                    && ctx.deprecation_strategy == DeprecationStrategy::Deny {
                    Result::Err(CodegenErrorV::DeprecatedField { field: f.name })
                } else {
                    let dep = df.deprecation is Deprecated && ctx.deprecation_strategy
                        == DeprecationStrategy::Warn;
                    let leaf = spec_leaf_name(df.type_);
                    if spec_is_composite(ctx.schema, leaf) {
                        if depth == 0 {
                            Result::Err(CodegenErrorV::SelectionTooDeep)
                        } else {
                            let new_prefix = prefix + camel_of(key);
                            match spec_expand_type(
                                ctx,
                                leaf,
                                f.fields,
                                new_prefix,
                                (depth - 1) as nat,
                            ) {
                                Result::Err(e) => Result::Err(e),
                                Result::Ok(defs2) => Result::Ok(
                                    ItemsAccV {
                                        fields: acc.fields.push(
                                            IrFieldV {
                                                name: key,
                                                rust_name: snake_of(key),
                                                type_: spec_with_leaf(df.type_, new_prefix),
                                                deprecated: dep,
                                            },
                                        ),
                                        seen: acc.seen.push(f),
                                        defs: acc.defs + defs2,
                                        variants: acc.variants,
                                        used: acc.used,
                                    },
                                ),
                            }
                        }
                    } else {
                        Result::Ok(
                            ItemsAccV {
                                fields: acc.fields.push(
                                    IrFieldV {
                                        name: key,
                                        rust_name: snake_of(key),
                                        type_: df.type_,
                                        deprecated: dep,
                                    },
                                ),
                                seen: acc.seen.push(f),
                                defs: acc.defs,
                                variants: acc.variants,
                                used: acc.used,
                            },
                        )
                    }
                },
            },
        }
    }
}

/// What resolving one abstract-type variant (an inline fragment or a
/// spread whose condition names a concrete member) adds: the variant,
/// its payload record name, and the nested definitions.
pub open spec fn spec_variant_step(
    ctx: QueryContextV,
    on: Seq<char>,
    vfields: SelectionV,
    prefix: Seq<char>,
    depth: nat,
    acc: ItemsAccV,
) -> Result<ItemsAccV, CodegenErrorV>
    decreases depth, 0nat, 0nat,
{
    if depth == 0 {
        Result::Err(CodegenErrorV::SelectionTooDeep)
    } else {
        let new_prefix = prefix + "On"@ + on;
        match spec_expand_type(ctx, on, vfields, new_prefix, (depth - 1) as nat) {
            Result::Err(e) => Result::Err(e),
            Result::Ok(defs2) => Result::Ok(
                ItemsAccV {
                    fields: acc.fields,
                    seen: acc.seen,
                    defs: acc.defs + defs2,
                    variants: acc.variants.push(
                        IrVariantV { name: on, payload: Option::Some(new_prefix) },
                    ),
                    used: acc.used.push(on),
                },
            ),
        }
    }
}

/// Resolves the items of one selection set, left to right, threading the
/// accumulator. Fragment spreads and same-type inline fragments are
/// inlined in place; on abstract parents, other type conditions become
/// variants.
pub open spec fn spec_items(
    ctx: QueryContextV,
    decl_fields: Seq<GqlObjectFieldV>,
    owner: Seq<char>,
    mode: ResolveMode,
    self_name: Seq<char>,
    items: Seq<SelectionItemV>,
    prefix: Seq<char>,
    depth: nat,
    acc: ItemsAccV,
) -> Result<ItemsAccV, CodegenErrorV>
    decreases depth, 1nat, items.len(),
{
    if items.len() == 0 {
        Result::Ok(acc)
    } else {
        let step = match items[0] {
            SelectionItemV::Field(f) => if mode == ResolveMode::Union {
                if f.name == spec_typename() {
                    Result::Ok(acc)
                } else {
                    Result::Err(CodegenErrorV::UnknownField { ty: owner, field: f.name })
                }
            } else {
                spec_field_step(ctx, decl_fields, owner, f, prefix, depth, acc)
            },
            SelectionItemV::InlineFragment(infl) => if mode == ResolveMode::Union {
                spec_variant_step(ctx, infl.on, infl.fields, prefix, depth, acc)
            } else if infl.on == self_name {
                if depth == 0 {
                    Result::Err(CodegenErrorV::SelectionTooDeep)
                } else {
                    spec_items(
                        ctx,
                        decl_fields,
                        owner,
                        mode,
                        self_name,
                        infl.fields.items,
                        prefix,
                        (depth - 1) as nat,
                        acc,
                    )
                }
            } else if mode == ResolveMode::Interface {
                spec_variant_step(ctx, infl.on, infl.fields, prefix, depth, acc)
            } else {
                Result::Err(CodegenErrorV::UnknownType { ty: infl.on })
            },
            SelectionItemV::FragmentSpread(s) => match spec_find_fragment(
                ctx.fragments,
                s.fragment_name,
            ) {
                Option::None => Result::Err(
                    CodegenErrorV::UnknownFragment { name: s.fragment_name },
                ),
                Option::Some(frag) => if mode == ResolveMode::Object || (mode
                    == ResolveMode::Interface && frag.on == self_name) {
                    if depth == 0 {
                        Result::Err(CodegenErrorV::SelectionTooDeep)
                    } else {
                        spec_items(
                            ctx,
                            decl_fields,
                            owner,
                            mode,
                            self_name,
                            frag.selection.items,
                            prefix,
                            (depth - 1) as nat,
                            acc,
                        )
                    }
                } else {
                    spec_variant_step(ctx, frag.on, frag.selection, prefix, depth, acc)
                },
            },
        };
        match step {
            Result::Err(e) => Result::Err(e),
            Result::Ok(acc2) => spec_items(
                ctx,
                decl_fields,
                owner,
                mode,
                self_name,
                items.drop_first(),
                prefix,
                depth,
                acc2,
            ),
        }
    }
}

/// The definitions an object-typed selection produces: its nested
/// definitions followed by the record named `prefix`.
pub open spec fn spec_object_record(
    ctx: QueryContextV,
    obj: GqlObjectV,
    sel: SelectionV,
    prefix: Seq<char>,
    depth: nat,
) -> Result<Seq<IrDefinitionV>, CodegenErrorV>
    decreases depth, 2nat, 0nat,
{
    match spec_items(
        ctx,
        obj.fields,
        obj.name,
        ResolveMode::Object,
        obj.name,
        sel.items,
        prefix,
        depth,
        spec_empty_acc(),
    ) {
        Result::Err(e) => Result::Err(e),
        Result::Ok(acc) => Result::Ok(
            acc.defs.push(IrDefinitionV::Record(IrRecordV { name: prefix, fields: acc.fields })),
        ),
    }
}

/// The definitions an interface-typed selection produces: nested
/// definitions, the discriminated sum named `prefix + "On"` (with
/// payload-less variants for unmentioned implementers), and the base
/// record named `prefix` whose last field `on` holds the sum.
pub open spec fn spec_interface_record(
    ctx: QueryContextV,
    interface: GqlInterfaceV,
    sel: SelectionV,
    prefix: Seq<char>,
    depth: nat,
) -> Result<Seq<IrDefinitionV>, CodegenErrorV>
    decreases depth, 2nat, 0nat,
{
    if !spec_has_typename(ctx, sel.items, depth) {
        Result::Err(CodegenErrorV::MissingTypename { union_name: prefix })
    } else {
        match spec_items(
            ctx,
            interface.fields,
            interface.name,
            ResolveMode::Interface,
            interface.name,
            sel.items,
            prefix,
            depth,
            spec_empty_acc(),
        ) {
            Result::Err(e) => Result::Err(e),
            Result::Ok(acc) => {
                let sum_name = prefix + "On"@;
                let sum = IrSumV {
                    name: sum_name,
                    tag: spec_typename(),
                    variants: acc.variants + spec_empty_variants(
                        interface.implemented_by,
                        acc.used,
                    ),
                };
                let on_field = IrFieldV {
                    name: "on"@,
                    rust_name: "on"@,
                    type_: FieldTypeV::Named(sum_name),
                    deprecated: false,
                };
                Result::Ok(
                    acc.defs.push(IrDefinitionV::Sum(sum)).push(
                        IrDefinitionV::Record(
                            IrRecordV { name: prefix, fields: acc.fields.push(on_field) },
                        ),
                    ),
                )
            },
        }
    }
}

/// The definitions a union-typed selection produces: nested definitions
/// followed by the discriminated sum named `prefix`, with payload-less
/// variants for unmentioned members.
pub open spec fn spec_union_sum(
    ctx: QueryContextV,
    u: GqlUnionV,
    sel: SelectionV,
    prefix: Seq<char>,
    depth: nat,
) -> Result<Seq<IrDefinitionV>, CodegenErrorV>
    decreases depth, 2nat, 0nat,
{
    if !spec_has_typename(ctx, sel.items, depth) {
        Result::Err(CodegenErrorV::MissingTypename { union_name: prefix })
    } else {
        match spec_items(
            ctx,
            Seq::empty(),
            prefix,
            ResolveMode::Union,
            prefix,
            sel.items,
            prefix,
            depth,
            spec_empty_acc(),
        ) {
            Result::Err(e) => Result::Err(e),
            Result::Ok(acc) => Result::Ok(
                acc.defs.push(
                    IrDefinitionV::Sum(
                        IrSumV {
                            name: prefix,
                            tag: spec_typename(),
                            variants: acc.variants + spec_empty_variants(u.variants, acc.used),
                        },
                    ),
                ),
            ),
        }
    }
}

/// Dispatches a selection on the named type to the object, interface, or
/// union resolution; an unknown name is an error.
pub open spec fn spec_expand_type(
    ctx: QueryContextV,
    on: Seq<char>,
    sel: SelectionV,
    prefix: Seq<char>,
    depth: nat,
) -> Result<Seq<IrDefinitionV>, CodegenErrorV>
    decreases depth, 3nat, 0nat,
{
    match spec_find_object(ctx.schema.objects, on) {
        Option::Some(o) => spec_object_record(ctx, o, sel, prefix, depth),
        Option::None => match spec_find_interface(ctx.schema.interfaces, on) {
            Option::Some(i) => spec_interface_record(ctx, i, sel, prefix, depth),
            Option::None => match spec_find_union(ctx.schema.unions, on) {
                Option::Some(u) => spec_union_sum(ctx, u, sel, prefix, depth),
                Option::None => Result::Err(CodegenErrorV::UnknownType { ty: on }),
            },
        },
    }
}

/// The response key of a field selection.
pub fn response_key<'a>(f: &'a SelectionField) -> (r: &'a String)
    ensures
        r@ == spec_key(f@),
{
    match &f.alias {
        Option::Some(a) => a,
        Option::None => &f.name,
    }
}

/// Looks up an accepted field selection by response key.
pub(crate) fn find_seen<'a>(seen: &'a Vec<SelectionField>, key: &str) -> (r: Option<&'a SelectionField>)
    ensures
        match r {
            Option::Some(p) => spec_find_seen(
                seen@.map_values(|f: SelectionField| f@),
                key@,
            ) == Option::Some(p@),
            Option::None => spec_find_seen(seen@.map_values(|f: SelectionField| f@), key@)
                is None,
        },
{
    let ghost sv = seen@.map_values(|f: SelectionField| f@);
    proof {
        assert(sv.skip(0) =~= sv);
    }
    let mut i: usize = 0;
    let n = seen.len();
    while i < n
        invariant
            n == seen.len(),
            0 <= i <= n,
            sv == seen@.map_values(|f: SelectionField| f@),
            sv.len() == n,
            spec_find_seen(sv.skip(i as int), key@) == spec_find_seen(sv, key@),
        decreases n - i,
    {
        proof {
            assert(sv.skip(i as int)[0] == sv[i as int]);
        }
        let k = response_key(&seen[i]);
        if str_eq(k.as_str(), key) {
            return Option::Some(&seen[i]);
        }
        proof {
            assert(sv.skip(i as int).drop_first() =~= sv.skip(i + 1));
        }
        i += 1;
    }
    proof {
        assert(sv.skip(n as int) =~= Seq::<SelectionFieldV>::empty());
    }
    Option::None
}

/// Whether a list of names holds `n`.
fn contains_name(names: &Vec<String>, n: &str) -> (r: bool)
    ensures
        r == names_view(names@).contains(n@),
{
    let mut i: usize = 0;
    let m = names.len();
    while i < m
        invariant
            m == names.len(),
            0 <= i <= m,
            forall|j: int| 0 <= j < i ==> names_view(names@)[j] != n@,
        decreases m - i,
    {
        if str_eq(names[i].as_str(), n) {
            proof {
                assert(names_view(names@)[i as int] == n@);
            }
            return true;
        }
        i += 1;
    }
    proof {
        assert(forall|j: int| 0 <= j < names_view(names@).len() ==> names_view(names@)[j] != n@);
    }
    false
}

/// Whether `name` resolves to an object, interface, or union.
fn is_composite(schema: &Schema, name: &str) -> (r: bool)
    ensures
        r == spec_is_composite(schema@, name@),
{
    if schema.get_object(name).is_some() {
        return true;
    }
    if schema.get_interface(name).is_some() {
        return true;
    }
    schema.get_union(name).is_some()
}

/// Appends the payload-less variants for the unmentioned members.
fn append_empty_variants(dst: &mut Vec<IrVariant>, members: &Vec<String>, used: &Vec<String>)
    ensures
        final(dst)@.map_values(|v: IrVariant| v@) == old(dst)@.map_values(|v: IrVariant| v@)
            + spec_empty_variants(names_view(members@), names_view(used@)),
{
    let ghost base = old(dst)@.map_values(|v: IrVariant| v@);
    let mut i: usize = 0;
    let m = members.len();
    proof {
        assert(names_view(members@).take(0) =~= Seq::<Seq<char>>::empty());
        assert(base =~= base + spec_empty_variants(
            names_view(members@).take(0),
            names_view(used@),
        ));
    }
    while i < m
        invariant
            m == members.len(),
            0 <= i <= m,
            names_view(members@).len() == m,
            dst@.map_values(|v: IrVariant| v@) == base + spec_empty_variants(
                names_view(members@).take(i as int),
                names_view(used@),
            ),
        decreases m - i,
    {
        proof {
            assert(names_view(members@).take(i + 1).drop_last() =~= names_view(members@).take(
                i as int,
            ));
            assert(names_view(members@).take(i + 1).last() == names_view(members@)[i as int]);
        }
        if !contains_name(used, members[i].as_str()) {
            let v = IrVariant { name: members[i].clone(), payload: Option::None };
            let ghost vv = v@;
            let ghost before = dst@;
            dst.push(v);
            proof {
                assert(vv == IrVariantV {
                    name: names_view(members@)[i as int],
                    payload: Option::<Seq<char>>::None,
                });
                assert(spec_empty_variants(
                    names_view(members@).take(i + 1),
                    names_view(used@),
                ) == spec_empty_variants(
                    names_view(members@).take(i as int),
                    names_view(used@),
                ).push(vv));
                assert(dst@.map_values(|v: IrVariant| v@) =~= before.map_values(
                    |v: IrVariant| v@,
                ).push(vv));
                assert((base + spec_empty_variants(
                    names_view(members@).take(i as int),
                    names_view(used@),
                )).push(vv) =~= base + spec_empty_variants(
                    names_view(members@).take(i as int),
                    names_view(used@),
                ).push(vv));
                assert(dst@.map_values(|v: IrVariant| v@) =~= base + spec_empty_variants(
                    names_view(members@).take(i + 1),
                    names_view(used@),
                ));
            }
        } else {
            proof {
                assert(spec_empty_variants(
                    names_view(members@).take(i + 1),
                    names_view(used@),
                ) == spec_empty_variants(
                    names_view(members@).take(i as int),
                    names_view(used@),
                ));
                assert(dst@.map_values(|v: IrVariant| v@) =~= base + spec_empty_variants(
                    names_view(members@).take(i + 1),
                    names_view(used@),
                ));
            }
        }
        i += 1;
    }
    proof {
        assert(names_view(members@).take(m as int) =~= names_view(members@));
    }
}

/// Whether the selection (from item `i` on) includes the typename meta
/// field, directly or through a spread.
fn has_typename(ctx: &QueryContext, sel: &Selection, i: usize, depth: usize) -> (r: bool)
    requires
        i <= sel.0.len(),
    ensures
        r == spec_has_typename(ctx@, sel@.items.skip(i as int), depth as nat),
    decreases depth, 0nat, sel.0.len() - i,
{
    proof {
        lemma_items_view(sel.0@);
    }
    if i == sel.0.len() {
        proof {
            assert(sel@.items.skip(i as int) =~= Seq::<SelectionItemV>::empty());
        }
        return false;
    }
    proof {
        assert(sel@.items.skip(i as int)[0] == item_view(sel.0@[i as int]));
        assert(sel@.items.skip(i as int).drop_first() =~= sel@.items.skip(i + 1));
    }
    let here: bool = match &sel.0[i] {
        SelectionItem::Field(f) => str_eq(f.name.as_str(), TYPENAME_FIELD),
        SelectionItem::FragmentSpread(s) => {
            match ctx.get_fragment(s.fragment_name.as_str()) {
                Option::Some(frag) => {
                    proof {
                        assert(frag@.selection.items.skip(0) =~= frag@.selection.items);
                    }
                    depth > 0 && has_typename(ctx, &frag.selection, 0, depth - 1)
                },
                Option::None => false,
            }
        },
        SelectionItem::InlineFragment(_) => false,
    };
    if here {
        true
    } else {
        has_typename(ctx, sel, i + 1, depth)
    }
}

/// Resolves one field selection against the declared fields of `owner`.
fn expand_field_item(
    ctx: &QueryContext,
    decl_fields: &Vec<GqlObjectField>,
    owner: &String,
    f: &SelectionField,
    prefix: &String,
    depth: usize,
    acc: ItemsAcc,
) -> (r: Result<ItemsAcc, CodegenError>)
    ensures
        acc_result_view(r) == spec_field_step(
            ctx@,
            fields_view(decl_fields@),
            owner@,
            f@,
            prefix@,
            depth as nat,
            acc@,
        ),
    decreases depth, 0nat, 0nat,
{
    let ghost acc0 = acc@;
    if str_eq(f.name.as_str(), TYPENAME_FIELD) {
        return Result::Ok(acc);
    }
    let key_owned = response_key(f).clone();
    let key = &key_owned;
    let mut dup = false;
    let mut conflict = false;
    match find_seen(&acc.seen, key.as_str()) {
        Option::Some(prev) => {
            if prev.eq_field(f) {
                dup = true;
            } else {
                conflict = true;
            }
        },
        Option::None => {},
    }
    if dup {
        return Result::Ok(acc);
    }
    if conflict {
        return Result::Err(CodegenError::FieldConflict { field: key.clone() });
    }
    match find_field(decl_fields, f.name.as_str()) {
        Option::None => Result::Err(
            CodegenError::UnknownField { ty: owner.clone(), field: f.name.clone() },
        ),
        Option::Some(df) => {
            let field_deprecated = df.deprecation.is_deprecated();
            if field_deprecated && ctx.deprecation_strategy == DeprecationStrategy::Deny {
                return Result::Err(CodegenError::DeprecatedField { field: f.name.clone() });
            }
            let dep = field_deprecated && ctx.deprecation_strategy == DeprecationStrategy::Warn;
            let leaf = df.type_.leaf_name();
            if is_composite(&ctx.schema, leaf.as_str()) {
                if depth == 0 {
                    return Result::Err(CodegenError::SelectionTooDeep);
                }
                let seg = to_camel_case(key.as_str());
                let new_prefix = concat_str(prefix.as_str(), seg.as_str());
                let leaf_owned = leaf.clone();
                match expand_type(ctx, &leaf_owned, &f.fields, &new_prefix, depth - 1) {
                    Result::Err(e) => Result::Err(e),
                    Result::Ok(mut defs2) => {
                        let ir = IrField {
                            name: key.clone(),
                            rust_name: to_snake_case(key.as_str()),
                            type_: df.type_.with_leaf(new_prefix),
                            deprecated: dep,
                        };
                        let ghost defs2v = defs2@.map_values(|x: IrDefinition| x@);
                        let mut out = acc;
                        out.fields.push(ir);
                        out.seen.push(f.clone());
                        out.defs.append(&mut defs2);
                        proof {
                            assert(out@.fields =~= acc0.fields.push(
                                IrFieldV {
                                    name: spec_key(f@),
                                    rust_name: snake_of(spec_key(f@)),
                                    type_: spec_with_leaf(
                                        df@.type_,
                                        prefix@ + camel_of(spec_key(f@)),
                                    ),
                                    deprecated: dep,
                                },
                            ));
                            assert(out@.seen =~= acc0.seen.push(f@));
                            assert(out@.defs =~= acc0.defs + defs2v);
                            assert(out@.variants =~= acc0.variants);
                            assert(out@.used =~= acc0.used);
                        }
                        Result::Ok(out)
                    },
                }
            } else {
                let ir = IrField {
                    name: key.clone(),
                    rust_name: to_snake_case(key.as_str()),
                    type_: df.type_.clone(),
                    deprecated: dep,
                };
                let mut out = acc;
                out.fields.push(ir);
                out.seen.push(f.clone());
                proof {
                    assert(out@.fields =~= acc0.fields.push(
                        IrFieldV {
                            name: spec_key(f@),
                            rust_name: snake_of(spec_key(f@)),
                            type_: df@.type_,
                            deprecated: dep,
                        },
                    ));
                    assert(out@.seen =~= acc0.seen.push(f@));
                    assert(out@.defs =~= acc0.defs);
                    assert(out@.variants =~= acc0.variants);
                    assert(out@.used =~= acc0.used);
                }
                Result::Ok(out)
            }
        },
    }
}

/// Resolves one abstract-type variant.
fn expand_variant_item(
    ctx: &QueryContext,
    on: &String,
    vfields: &Selection,
    prefix: &String,
    depth: usize,
    acc: ItemsAcc,
) -> (r: Result<ItemsAcc, CodegenError>)
    ensures
        acc_result_view(r) == spec_variant_step(
            ctx@,
            on@,
            sel_view(*vfields),
            prefix@,
            depth as nat,
            acc@,
        ),
    decreases depth, 0nat, 0nat,
{
    let ghost acc0 = acc@;
    if depth == 0 {
        return Result::Err(CodegenError::SelectionTooDeep);
    }
    let new_prefix = concat3_str(prefix.as_str(), "On", on.as_str());
    match expand_type(ctx, on, vfields, &new_prefix, depth - 1) {
        Result::Err(e) => Result::Err(e),
        Result::Ok(mut defs2) => {
            let ghost defs2v = defs2@.map_values(|x: IrDefinition| x@);
            let mut out = acc;
            let variant = IrVariant { name: on.clone(), payload: Option::Some(new_prefix) };
            out.variants.push(variant);
            out.used.push(on.clone());
            out.defs.append(&mut defs2);
            proof {
                assert(out@.variants =~= acc0.variants.push(
                    IrVariantV { name: on@, payload: Option::Some(prefix@ + "On"@ + on@) },
                ));
                assert(out@.used =~= acc0.used.push(on@));
                assert(out@.defs =~= acc0.defs + defs2v);
                assert(out@.fields =~= acc0.fields);
                assert(out@.seen =~= acc0.seen);
            }
            Result::Ok(out)
        },
    }
}

/// Resolves the items of one selection set from item `i` on.
pub(crate) fn expand_items(
    ctx: &QueryContext,
    decl_fields: &Vec<GqlObjectField>,
    owner: &String,
    mode: ResolveMode,
    self_name: &String,
    sel: &Selection,
    i: usize,
    prefix: &String,
    depth: usize,
    acc: ItemsAcc,
) -> (r: Result<ItemsAcc, CodegenError>)
    requires
        i <= sel.0.len(),
    ensures
        acc_result_view(r) == spec_items(
            ctx@,
            fields_view(decl_fields@),
            owner@,
            mode,
            self_name@,
            sel@.items.skip(i as int),
            prefix@,
            depth as nat,
            acc@,
        ),
    decreases depth, 1nat, sel.0.len() - i,
{
    proof {
        lemma_items_view(sel.0@);
    }
    if i == sel.0.len() {
        proof {
            assert(sel@.items.skip(i as int) =~= Seq::<SelectionItemV>::empty());
        }
        return Result::Ok(acc);
    }
    proof {
        assert(sel@.items.skip(i as int)[0] == item_view(sel.0@[i as int]));
        assert(sel@.items.skip(i as int).drop_first() =~= sel@.items.skip(i + 1));
    }
    let step: Result<ItemsAcc, CodegenError> = match &sel.0[i] {
        SelectionItem::Field(f) => {
            if mode == ResolveMode::Union {
                if str_eq(f.name.as_str(), TYPENAME_FIELD) {
                    Result::Ok(acc)
                } else {
                    Result::Err(
                        CodegenError::UnknownField { ty: owner.clone(), field: f.name.clone() },
                    )
                }
            } else {
                expand_field_item(ctx, decl_fields, owner, f, prefix, depth, acc)
            }
        },
        SelectionItem::InlineFragment(infl) => {
            if mode == ResolveMode::Union {
                expand_variant_item(ctx, &infl.on, &infl.fields, prefix, depth, acc)
            } else if str_eq(infl.on.as_str(), self_name.as_str()) {
                if depth == 0 {
                    Result::Err(CodegenError::SelectionTooDeep)
                } else {
                    proof {
                        assert(sel_view(infl.fields).items.skip(0) =~= sel_view(
                            infl.fields,
                        ).items);
                    }
                    expand_items(
                        ctx,
                        decl_fields,
                        owner,
                        mode,
                        self_name,
                        &infl.fields,
                        0,
                        prefix,
                        depth - 1,
                        acc,
                    )
                }
            } else if mode == ResolveMode::Interface {
                expand_variant_item(ctx, &infl.on, &infl.fields, prefix, depth, acc)
            } else {
                Result::Err(CodegenError::UnknownType { ty: infl.on.clone() })
            }
        },
        SelectionItem::FragmentSpread(sp) => {
            match ctx.get_fragment(sp.fragment_name.as_str()) {
                Option::None => Result::Err(
                    CodegenError::UnknownFragment { name: sp.fragment_name.clone() },
                ),
                Option::Some(frag) => {
                    let inline_here = mode == ResolveMode::Object || (mode
                        == ResolveMode::Interface && str_eq(
                        frag.on.as_str(),
                        self_name.as_str(),
                    ));
                    if inline_here {
                        if depth == 0 {
                            Result::Err(CodegenError::SelectionTooDeep)
                        } else {
                            proof {
                                assert(frag@.selection.items.skip(0) =~= frag@.selection.items);
                            }
                            expand_items(
                                ctx,
                                decl_fields,
                                owner,
                                mode,
                                self_name,
                                &frag.selection,
                                0,
                                prefix,
                                depth - 1,
                                acc,
                            )
                        }
                    } else {
                        expand_variant_item(ctx, &frag.on, &frag.selection, prefix, depth, acc)
                    }
                },
            }
        },
    };
    match step {
        Result::Err(e) => Result::Err(e),
        Result::Ok(acc2) => expand_items(
            ctx,
            decl_fields,
            owner,
            mode,
            self_name,
            sel,
            i + 1,
            prefix,
            depth,
            acc2,
        ),
    }
}

/// Resolves an object-typed selection to its definitions.
pub(crate) fn expand_object_record(
    ctx: &QueryContext,
    obj: &GqlObject,
    sel: &Selection,
    prefix: &String,
    depth: usize,
) -> (r: Result<Vec<IrDefinition>, CodegenError>)
    ensures
        defs_result_view(r) == spec_object_record(ctx@, obj@, sel@, prefix@, depth as nat),
    decreases depth, 2nat, 0nat,
{
    let acc = ItemsAcc::new_empty();
    proof {
        assert(sel@.items.skip(0) =~= sel@.items);
    }
    match expand_items(
        ctx,
        &obj.fields,
        &obj.name,
        ResolveMode::Object,
        &obj.name,
        sel,
        0,
        prefix,
        depth,
        acc,
    ) {
        Result::Err(e) => Result::Err(e),
        Result::Ok(out) => {
            let ghost outv = out@;
            let ItemsAcc { fields, seen: _, mut defs, variants: _, used: _ } = out;
            let record = IrRecord { name: prefix.clone(), fields };
            defs.push(IrDefinition::Record(record));
            proof {
                assert(defs@.map_values(|x: IrDefinition| x@) =~= outv.defs.push(
                    IrDefinitionV::Record(IrRecordV { name: prefix@, fields: outv.fields }),
                ));
            }
            Result::Ok(defs)
        },
    }
}

/// Resolves an interface-typed selection to its definitions.
pub(crate) fn expand_interface_record(
    ctx: &QueryContext,
    interface: &GqlInterface,
    sel: &Selection,
    prefix: &String,
    depth: usize,
) -> (r: Result<Vec<IrDefinition>, CodegenError>)
    ensures
        defs_result_view(r) == spec_interface_record(ctx@, interface@, sel@, prefix@, depth as nat),
    decreases depth, 2nat, 0nat,
{
    proof {
        assert(sel@.items.skip(0) =~= sel@.items);
    }
    if !has_typename(ctx, sel, 0, depth) {
        return Result::Err(CodegenError::MissingTypename { union_name: prefix.clone() });
    }
    let acc = ItemsAcc::new_empty();
    match expand_items(
        ctx,
        &interface.fields,
        &interface.name,
        ResolveMode::Interface,
        &interface.name,
        sel,
        0,
        prefix,
        depth,
        acc,
    ) {
        Result::Err(e) => Result::Err(e),
        Result::Ok(out) => {
            let ghost outv = out@;
            let ghost sumv = IrSumV {
                name: prefix@ + "On"@,
                tag: spec_typename(),
                variants: outv.variants + spec_empty_variants(
                    interface@.implemented_by,
                    outv.used,
                ),
            };
            let ghost onfv = IrFieldV {
                name: "on"@,
                rust_name: "on"@,
                type_: FieldTypeV::Named(prefix@ + "On"@),
                deprecated: false,
            };
            let sum_name = concat_str(prefix.as_str(), "On");
            let ItemsAcc { mut fields, seen: _, mut defs, mut variants, used } = out;
            proof {
                assert(defs@.map_values(|x: IrDefinition| x@) == outv.defs);
                assert(fields@.map_values(|f: IrField| f@) == outv.fields);
                assert(variants@.map_values(|v: IrVariant| v@) == outv.variants);
                assert(names_view(used@) == outv.used);
            }
            append_empty_variants(&mut variants, &interface.implemented_by, &used);
            let sum = IrSum { name: sum_name.clone(), tag: typename_string(), variants };
            proof {
                assert(sum@ =~= sumv);
            }
            let ghost defs0 = defs@;
            defs.push(IrDefinition::Sum(sum));
            proof {
                assert(defs@.map_values(|x: IrDefinition| x@) =~= outv.defs.push(
                    IrDefinitionV::Sum(sumv),
                ));
            }
            let on_field = IrField {
                name: on_string(),
                rust_name: on_string(),
                type_: FieldType::Named(sum_name),
                deprecated: false,
            };
            proof {
                assert(on_field@ =~= onfv);
            }
            fields.push(on_field);
            proof {
                assert(fields@.map_values(|f: IrField| f@) =~= outv.fields.push(onfv));
            }
            let record = IrRecord { name: prefix.clone(), fields };
            let ghost recv = IrRecordV { name: prefix@, fields: outv.fields.push(onfv) };
            proof {
                assert(record@ =~= recv);
            }
            defs.push(IrDefinition::Record(record));
            proof {
                let specr = spec_interface_record(ctx@, interface@, sel@, prefix@, depth as nat);
                assert(defs@.map_values(|x: IrDefinition| x@) =~= outv.defs.push(
                    IrDefinitionV::Sum(sumv),
                ).push(IrDefinitionV::Record(recv)));
                assert(defs@.map_values(|x: IrDefinition| x@) =~= specr->Ok_0);
            }
            Result::Ok(defs)
        },
    }
}

/// Resolves a union-typed selection to its definitions.
pub(crate) fn expand_union_sum(
    ctx: &QueryContext,
    u: &GqlUnion,
    sel: &Selection,
    prefix: &String,
    depth: usize,
) -> (r: Result<Vec<IrDefinition>, CodegenError>)
    ensures
        defs_result_view(r) == spec_union_sum(ctx@, u@, sel@, prefix@, depth as nat),
    decreases depth, 2nat, 0nat,
{
    proof {
        assert(sel@.items.skip(0) =~= sel@.items);
    }
    if !has_typename(ctx, sel, 0, depth) {
        return Result::Err(CodegenError::MissingTypename { union_name: prefix.clone() });
    }
    let acc = ItemsAcc::new_empty();
    let empty_fields: Vec<GqlObjectField> = Vec::new();
    proof {
        assert(fields_view(empty_fields@) =~= Seq::<GqlObjectFieldV>::empty());
    }
    match expand_items(
        ctx,
        &empty_fields,
        prefix,
        ResolveMode::Union,
        prefix,
        sel,
        0,
        prefix,
        depth,
        acc,
    ) {
        Result::Err(e) => Result::Err(e),
        Result::Ok(out) => {
            let ghost outv = out@;
            let ItemsAcc { fields: _, seen: _, mut defs, mut variants, used } = out;
            append_empty_variants(&mut variants, &u.variants, &used);
            let sum = IrSum { name: prefix.clone(), tag: typename_string(), variants };
            defs.push(IrDefinition::Sum(sum));
            proof {
                let specr = spec_union_sum(ctx@, u@, sel@, prefix@, depth as nat);
                assert(defs@.map_values(|x: IrDefinition| x@) =~= specr->Ok_0);
            }
            Result::Ok(defs)
        },
    }
}

/// Resolves a selection on the type named `on`, producing the nested
/// definitions and the definition named `prefix`.
pub fn expand_type(
    ctx: &QueryContext,
    on: &String,
    sel: &Selection,
    prefix: &String,
    depth: usize,
) -> (r: Result<Vec<IrDefinition>, CodegenError>)
    ensures
        defs_result_view(r) == spec_expand_type(ctx@, on@, sel@, prefix@, depth as nat),
    decreases depth, 3nat, 0nat,
{
    match ctx.schema.get_object(on.as_str()) {
        Option::Some(o) => expand_object_record(ctx, o, sel, prefix, depth),
        Option::None => match ctx.schema.get_interface(on.as_str()) {
            Option::Some(interface) => expand_interface_record(ctx, interface, sel, prefix, depth),
            Option::None => match ctx.schema.get_union(on.as_str()) {
                Option::Some(u) => expand_union_sum(ctx, u, sel, prefix, depth),
                Option::None => Result::Err(CodegenError::UnknownType { ty: on.clone() }),
            },
        },
    }
}

/// The view of a response result.
pub open spec fn resp_result_view(r: Result<crate::ir::IrResponse, CodegenError>) -> Result<
    crate::ir::IrResponseV,
    CodegenErrorV,
> {
    match r {
        Result::Ok(resp) => Result::Ok(resp@),
        Result::Err(e) => Result::Err(e@),
    }
}

impl QueryContext {
    /// Expands a selection on the type named `on` into its definitions,
    /// starting from the default recursion budget. This is the entry the
    /// per-kind response builders share.
    pub fn maybe_expand_field(&self, on: &str, fields: &Selection, prefix: &str) -> (r: Result<
        Vec<IrDefinition>,
        CodegenError,
    >)
        ensures
            defs_result_view(r) == spec_expand_type(
                self@,
                on@,
                sel_view(*fields),
                prefix@,
                MAX_SELECTION_DEPTH as nat,
            ),
    {
        let on_owned: String = on.to_owned();
        let prefix_owned: String = prefix.to_owned();
        expand_type(self, &on_owned, fields, &prefix_owned, MAX_SELECTION_DEPTH)
    }
}

/// The view of a unit result.
pub open spec fn result_unit_view(r: Result<(), CodegenError>) -> Result<(), CodegenErrorV> {
    match r {
        Result::Ok(_) => Result::Ok(()),
        Result::Err(e) => Result::Err(e@),
    }
}

/// Whether no spread chain out of these selection items exhausts the hop
/// budget. Every fragment hop consumes one unit of budget; descending
/// into nested selections of the same fragment consumes none.
pub open spec fn spec_items_acyclic(
    ctx: QueryContextV,
    items: Seq<SelectionItemV>,
    budget: nat,
) -> bool
    decreases budget, items,
{
    if items.len() == 0 {
        true
    } else {
        spec_item_acyclic(ctx, items[0], budget) && spec_items_acyclic(
            ctx,
            items.drop_first(),
            budget,
        )
    }
}

/// Whether no spread chain out of one selection item exhausts the hop
/// budget. A spread of an unknown fragment chains nowhere here; the
/// resolver reports it when it expands the selection.
pub open spec fn spec_item_acyclic(ctx: QueryContextV, it: SelectionItemV, budget: nat) -> bool
    decreases budget, it,
{
    match it {
        SelectionItemV::Field(f) => spec_items_acyclic(ctx, f.fields.items, budget),
        SelectionItemV::InlineFragment(infl) => spec_items_acyclic(ctx, infl.fields.items, budget),
        SelectionItemV::FragmentSpread(s) => match spec_find_fragment(
            ctx.fragments,
            s.fragment_name,
        ) {
            Option::Some(frag) => budget > 0 && spec_items_acyclic(
                ctx,
                frag.selection.items,
                (budget - 1) as nat,
            ),
            Option::None => true,
        },
    }
}

/// Walks the selection items from item `i` on, bounding fragment hops.
pub(crate) fn items_acyclic(ctx: &QueryContext, sel: &Selection, i: usize, budget: usize) -> (r:
    bool)
    requires
        i <= sel.0.len(),
    ensures
        r == spec_items_acyclic(ctx@, sel@.items.skip(i as int), budget as nat),
    decreases budget, sel, sel.0.len() - i,
{
    proof {
        lemma_items_view(sel.0@);
    }
    if i == sel.0.len() {
        proof {
            assert(sel@.items.skip(i as int) =~= Seq::<SelectionItemV>::empty());
        }
        return true;
    }
    proof {
        assert(sel@.items.skip(i as int)[0] == item_view(sel.0@[i as int]));
        assert(sel@.items.skip(i as int).drop_first() =~= sel@.items.skip(i + 1));
    }
    let here = item_acyclic(ctx, &sel.0[i], budget);
    if !here {
        false
    } else {
        items_acyclic(ctx, sel, i + 1, budget)
    }
}

/// Walks one selection item, bounding fragment hops.
pub(crate) fn item_acyclic(ctx: &QueryContext, item: &SelectionItem, budget: usize) -> (r: bool)
    ensures
        r == spec_item_acyclic(ctx@, item@, budget as nat),
    decreases budget, item, 0nat,
{
    match item {
        SelectionItem::Field(f) => {
            proof {
                assert(sel_view(f.fields).items.skip(0) =~= sel_view(f.fields).items);
            }
            items_acyclic(ctx, &f.fields, 0, budget)
        },
        SelectionItem::InlineFragment(infl) => {
            proof {
                assert(sel_view(infl.fields).items.skip(0) =~= sel_view(infl.fields).items);
            }
            items_acyclic(ctx, &infl.fields, 0, budget)
        },
        SelectionItem::FragmentSpread(s) => {
            match ctx.get_fragment(s.fragment_name.as_str()) {
                Option::Some(frag) => {
                    proof {
                        assert(frag@.selection.items.skip(0) =~= frag@.selection.items);
                    }
                    budget > 0 && items_acyclic(ctx, &frag.selection, 0, budget - 1)
                },
                Option::None => true,
            }
        },
    }
}

/// The typename meta field as an owned string.
pub fn typename_string() -> (r: String)
    ensures
        r@ == spec_typename(),
{
    TYPENAME_FIELD.to_owned()
}

/// The base-record field label that carries an interface sum.
pub fn on_string() -> (r: String)
    ensures
        r@ == "on"@,
{
    let s: &str = "on";
    s.to_owned()
}

} // verus!
