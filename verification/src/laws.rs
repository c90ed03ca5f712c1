use vstd::prelude::*;
use crate::deprecation::DeprecationStrategy;
use crate::errors::CodegenErrorV;
use crate::ir::{IrDefinitionV, IrVariantV};
use crate::query::QueryContextV;
use crate::resolver::{
    spec_empty_acc, spec_empty_variants, spec_find_seen, spec_is_composite, spec_items,
    spec_key, spec_object_record, spec_union_sum, ItemsAccV, ResolveMode,
};
use crate::schema::{spec_find_field, GqlObjectFieldV, GqlObjectV};
use crate::selection::{spec_typename, SelectionFieldV, SelectionItemV, SelectionV};
use crate::unions::{spec_union_response, spec_union_variants, GqlUnionV};

verus! {

/// The names of a variant list, in order.
pub open spec fn variant_names(vs: Seq<IrVariantV>) -> Seq<Seq<char>> {
    vs.map_values(|v: IrVariantV| v.name)
}

/// No two accepted field selections share a response key.
pub open spec fn keys_distinct(seen: Seq<SelectionFieldV>) -> bool {
    forall|a: int, b: int|
        0 <= a < b < seen.len() ==> spec_key(seen[a]) != spec_key(seen[b])
}

/// Determinism: resolving a union selection is a function of the models
/// alone, so equal schema, query, and configuration values give equal
/// response IR, byte for byte.
pub proof fn lemma_union_response_deterministic(
    ctx1: QueryContextV,
    ctx2: QueryContextV,
    u1: GqlUnionV,
    u2: GqlUnionV,
    sel1: SelectionV,
    sel2: SelectionV,
    prefix1: Seq<char>,
    prefix2: Seq<char>,
    depth: nat,
)
    requires
        ctx1 == ctx2,
        u1 == u2,
        sel1 == sel2,
        prefix1 == prefix2,
    ensures
        spec_union_response(ctx1, u1, sel1, prefix1, depth) == spec_union_response(
            ctx2,
            u2,
            sel2,
            prefix2,
            depth,
        ),
{
}

/// Determinism of the dispatching resolver: expanding a selection on a
/// named type is a function of the models alone.
pub proof fn lemma_expand_type_deterministic(
    ctx1: QueryContextV,
    ctx2: QueryContextV,
    on1: Seq<char>,
    on2: Seq<char>,
    sel1: SelectionV,
    sel2: SelectionV,
    prefix1: Seq<char>,
    prefix2: Seq<char>,
    depth: nat,
)
    requires
        ctx1 == ctx2,
        on1 == on2,
        sel1 == sel2,
        prefix1 == prefix2,
    ensures
        crate::resolver::spec_expand_type(ctx1, on1, sel1, prefix1, depth)
            == crate::resolver::spec_expand_type(ctx2, on2, sel2, prefix2, depth),
{
}

/// The payload-less variants are exactly the members the selection never
/// mentioned, each without a payload, in member order.
pub proof fn lemma_empty_variants(members: Seq<Seq<char>>, used: Seq<Seq<char>>)
    ensures
        forall|n: Seq<char>|
            variant_names(spec_empty_variants(members, used)).contains(n) <==> (members.contains(
                n,
            ) && !used.contains(n)),
        forall|k: int|
            0 <= k < spec_empty_variants(members, used).len() ==> (
            #[trigger] spec_empty_variants(members, used)[k]).payload is None,
    decreases members,
{
    let ev = spec_empty_variants(members, used);
    if members.len() == 0 {
        assert(forall|n: Seq<char>| !members.contains(n));
        assert(variant_names(ev) =~= Seq::<Seq<char>>::empty());
    } else {
        lemma_empty_variants(members.drop_last(), used);
        let rest = spec_empty_variants(members.drop_last(), used);
        assert forall|n: Seq<char>| #[trigger]
            members.contains(n) implies members.drop_last().contains(n) || n
            == members.last() by {
            let w = choose|w: int| 0 <= w < members.len() && members[w] == n;
            if w < members.len() - 1 {
                assert(members.drop_last()[w] == n);
            }
        }
        assert(forall|n: Seq<char>|
            members.drop_last().contains(n) ==> #[trigger] members.contains(n));
        if used.contains(members.last()) {
            assert(ev == rest);
            assert forall|n: Seq<char>| #[trigger]
                variant_names(ev).contains(n) implies (members.contains(n) && !used.contains(
                n,
            )) by {
                assert(members.drop_last().contains(n) || n == members.last());
            }
        } else {
            let v = IrVariantV { name: members.last(), payload: Option::None };
            assert(variant_names(ev) =~= variant_names(rest).push(members.last()));
            assert forall|n: Seq<char>| #[trigger]
                variant_names(ev).contains(n) implies (members.contains(n) && !used.contains(
                n,
            )) by {
                let w = choose|w: int|
                    0 <= w < variant_names(ev).len() && variant_names(ev)[w] == n;
                if w < variant_names(rest).len() {
                    assert(variant_names(rest).contains(n));
                } else {
                    assert(n == members.last());
                }
            }
            assert forall|n: Seq<char>| (members.contains(n) && !used.contains(
                n,
            )) implies #[trigger] variant_names(ev).contains(n) by {
                if members.drop_last().contains(n) {
                    assert(variant_names(rest).contains(n));
                    let w = choose|w: int|
                        0 <= w < variant_names(rest).len() && variant_names(rest)[w] == n;
                    assert(variant_names(ev)[w] == n);
                } else {
                    assert(n == members.last());
                    assert(variant_names(ev).last() == n);
                }
            }
        }
    }
}

/// When the members are pairwise distinct, so are the payload-less
/// variants made from them.
pub proof fn lemma_empty_variants_distinct(members: Seq<Seq<char>>, used: Seq<Seq<char>>)
    requires
        forall|a: int, b: int| 0 <= a < b < members.len() ==> members[a] != members[b],
    ensures
        forall|a: int, b: int|
            0 <= a < b < spec_empty_variants(members, used).len()
                ==> spec_empty_variants(members, used)[a].name != spec_empty_variants(
                members,
                used,
            )[b].name,
        forall|k: int|
            0 <= k < spec_empty_variants(members, used).len() ==> members.contains(
                #[trigger] spec_empty_variants(members, used)[k].name,
            ),
    decreases members,
{
    let ev = spec_empty_variants(members, used);
    if members.len() > 0 {
        assert(forall|a: int, b: int|
            0 <= a < b < members.drop_last().len() ==> members.drop_last()[a]
                != members.drop_last()[b]);
        lemma_empty_variants_distinct(members.drop_last(), used);
        let rest = spec_empty_variants(members.drop_last(), used);
        assert(forall|k: int|
            0 <= k < rest.len() ==> members.contains(#[trigger] rest[k].name));
        if !used.contains(members.last()) {
            assert forall|a: int, b: int|
                0 <= a < b < ev.len() implies ev[a].name != ev[b].name by {
                if b < rest.len() {
                } else {
                    assert(ev[b].name == members.last());
                    assert(members.drop_last().contains(ev[a].name));
                    let w = choose|w: int|
                        0 <= w < members.drop_last().len() && members.drop_last()[w] == ev[a].name;
                    assert(members[w] == ev[a].name);
                    assert(members[w] != members.last());
                }
            }
        }
    }
}

/// Exhaustive variants and only-referenced payloads: when every type
/// condition of a union selection names a member, the emitted sum holds
/// exactly the member set, and a variant carries a payload exactly when
/// the selection mentioned it.
pub proof fn lemma_union_sum_exhaustive(
    ctx: QueryContextV,
    u: GqlUnionV,
    sel: SelectionV,
    prefix: Seq<char>,
    depth: nat,
)
    requires
        spec_union_sum(ctx, u, sel, prefix, depth) is Ok,
        spec_union_variants(ctx, sel, prefix, depth) matches Result::Ok(t) ==> (forall|j: int|
            0 <= j < t.2.len() ==> u.variants.contains(#[trigger] t.2[j])),
    ensures
        spec_union_variants(ctx, sel, prefix, depth) is Ok,
        ({
            let defs = spec_union_sum(ctx, u, sel, prefix, depth)->Ok_0;
            let used = spec_union_variants(ctx, sel, prefix, depth)->Ok_0.2;
            defs.len() >= 1 && defs.last() is Sum && {
                let sum = defs.last()->Sum_0;
                sum.name == prefix && sum.tag == spec_typename() && (forall|n: Seq<char>|
                    variant_names(sum.variants).contains(n) <==> u.variants.contains(n)) && (
                forall|k: int|
                    0 <= k < sum.variants.len() ==> ((#[trigger] sum.variants[k].payload is Some)
                        <==> used.contains(sum.variants[k].name)))
            }
        }),
{
    let acc = spec_items(
        ctx,
        Seq::empty(),
        prefix,
        ResolveMode::Union,
        prefix,
        sel.items,
        prefix,
        depth,
        spec_empty_acc(),
    )->Ok_0;
    lemma_items_variants_lockstep(
        ctx,
        Seq::empty(),
        prefix,
        ResolveMode::Union,
        prefix,
        sel.items,
        prefix,
        depth,
        spec_empty_acc(),
    );
    lemma_empty_variants(u.variants, acc.used);
    assert(spec_union_variants(ctx, sel, prefix, depth) == Result::<_, CodegenErrorV>::Ok(
        (acc.variants, acc.defs, acc.used),
    ));
    let ev = spec_empty_variants(u.variants, acc.used);
    let all = acc.variants + ev;
    assert(variant_names(all) =~= variant_names(acc.variants) + variant_names(ev));
    assert forall|n: Seq<char>| #[trigger]
        variant_names(acc.variants).contains(n) implies acc.used.contains(n) by {
        let w = choose|w: int|
            0 <= w < variant_names(acc.variants).len() && variant_names(acc.variants)[w] == n;
        assert(acc.used[w] == n);
    }
    assert forall|n: Seq<char>| #[trigger]
        acc.used.contains(n) implies variant_names(acc.variants).contains(n) by {
        let w = choose|w: int| 0 <= w < acc.used.len() && acc.used[w] == n;
        assert(variant_names(acc.variants)[w] == n);
    }
    assert forall|n: Seq<char>| #[trigger]
        variant_names(all).contains(n) implies u.variants.contains(n) by {
        let w = choose|w: int| 0 <= w < variant_names(all).len() && variant_names(all)[w] == n;
        if w < variant_names(acc.variants).len() {
            assert(variant_names(acc.variants)[w] == n);
            assert(variant_names(acc.variants).contains(n));
            assert(acc.used.contains(n));
            let j = choose|j: int| 0 <= j < acc.used.len() && acc.used[j] == n;
            assert(u.variants.contains(
                spec_union_variants(ctx, sel, prefix, depth)->Ok_0.2[j],
            ));
        } else {
            assert(variant_names(ev)[w - variant_names(acc.variants).len()] == n);
            assert(variant_names(ev).contains(n));
        }
    }
    assert forall|n: Seq<char>| #[trigger]
        u.variants.contains(n) implies variant_names(all).contains(n) by {
        if acc.used.contains(n) {
            assert(variant_names(acc.variants).contains(n));
            let w = choose|w: int|
                0 <= w < variant_names(acc.variants).len() && variant_names(acc.variants)[w] == n;
            assert(variant_names(all)[w] == n);
        } else {
            assert(variant_names(ev).contains(n));
            let w = choose|w: int|
                0 <= w < variant_names(ev).len() && variant_names(ev)[w] == n;
            assert(variant_names(all)[variant_names(acc.variants).len() + w] == n);
        }
    }
    assert forall|k: int| 0 <= k < all.len() implies ((#[trigger] all[k].payload is Some)
        <==> acc.used.contains(all[k].name)) by {
        if k < acc.variants.len() {
            assert(acc.used[k] == all[k].name);
        } else {
            assert(ev[k - acc.variants.len()] == all[k]);
            assert(!acc.used.contains(all[k].name)) by {
                assert(variant_names(ev).contains(all[k].name)) by {
                    assert(variant_names(ev)[k - acc.variants.len()] == all[k].name);
                }
            }
        }
    }
}

/// Discriminator law, on the IR side: the sum a union selection emits is
/// discriminated by the typename meta field, and when the mentioned
/// member names and the member set are pairwise distinct, no two
/// variants share a name, so a tag value selects at most one variant.
pub proof fn lemma_union_sum_discriminator(
    ctx: QueryContextV,
    u: GqlUnionV,
    sel: SelectionV,
    prefix: Seq<char>,
    depth: nat,
)
    requires
        spec_union_sum(ctx, u, sel, prefix, depth) is Ok,
        spec_union_variants(ctx, sel, prefix, depth) matches Result::Ok(t) ==> (forall|
            a: int,
            b: int,
        |
            0 <= a < b < t.2.len() ==> t.2[a] != t.2[b]),
        forall|a: int, b: int| 0 <= a < b < u.variants.len() ==> u.variants[a] != u.variants[b],
    ensures
        ({
            let defs = spec_union_sum(ctx, u, sel, prefix, depth)->Ok_0;
            defs.len() >= 1 && defs.last() is Sum && {
                let sum = defs.last()->Sum_0;
                sum.tag == spec_typename() && (forall|a: int, b: int|
                    0 <= a < b < sum.variants.len() ==> sum.variants[a].name
                        != sum.variants[b].name)
            }
        }),
{
    let acc = spec_items(
        ctx,
        Seq::empty(),
        prefix,
        ResolveMode::Union,
        prefix,
        sel.items,
        prefix,
        depth,
        spec_empty_acc(),
    )->Ok_0;
    lemma_items_variants_lockstep(
        ctx,
        Seq::empty(),
        prefix,
        ResolveMode::Union,
        prefix,
        sel.items,
        prefix,
        depth,
        spec_empty_acc(),
    );
    lemma_empty_variants(u.variants, acc.used);
    lemma_empty_variants_distinct(u.variants, acc.used);
    assert(spec_union_variants(ctx, sel, prefix, depth) == Result::<_, CodegenErrorV>::Ok(
        (acc.variants, acc.defs, acc.used),
    ));
    let ev = spec_empty_variants(u.variants, acc.used);
    let all = acc.variants + ev;
    assert forall|a: int, b: int| 0 <= a < b < all.len() implies all[a].name != all[b].name by {
        if a < acc.variants.len() && b < acc.variants.len() {
            assert(all[a].name == acc.used[a] && all[b].name == acc.used[b]);
            assert(spec_union_variants(ctx, sel, prefix, depth)->Ok_0.2[a]
                != spec_union_variants(ctx, sel, prefix, depth)->Ok_0.2[b]);
        } else if a < acc.variants.len() {
            assert(all[a].name == acc.used[a]);
            assert(acc.used.contains(acc.used[a]));
            assert(all[b] == ev[b - acc.variants.len()]);
            assert(variant_names(ev).contains(all[b].name)) by {
                assert(variant_names(ev)[b - acc.variants.len()] == all[b].name);
            }
            assert(!acc.used.contains(all[b].name));
        } else {
            assert(all[a] == ev[a - acc.variants.len()]);
            assert(all[b] == ev[b - acc.variants.len()]);
        }
    }
}

/// Resolving one field selection never touches the variant lists.
proof fn lemma_field_step_keeps_variants(
    ctx: QueryContextV,
    decl_fields: Seq<GqlObjectFieldV>,
    owner: Seq<char>,
    f: SelectionFieldV,
    prefix: Seq<char>,
    depth: nat,
    acc: ItemsAccV,
)
    ensures
        crate::resolver::spec_field_step(ctx, decl_fields, owner, f, prefix, depth, acc)
            matches Result::Ok(acc2) ==> acc2.variants == acc.variants && acc2.used == acc.used,
{
    reveal_with_fuel(crate::resolver::spec_field_step, 2);
}

/// Along any selection, the variants and the mentioned type-condition
/// names grow in lock step: one variant per condition, in selection
/// order, whose payload record is named `prefix + "On" + condition`.
pub proof fn lemma_items_variants_lockstep(
    ctx: QueryContextV,
    decl_fields: Seq<GqlObjectFieldV>,
    owner: Seq<char>,
    mode: ResolveMode,
    self_name: Seq<char>,
    items: Seq<SelectionItemV>,
    prefix: Seq<char>,
    depth: nat,
    acc: ItemsAccV,
)
    requires
        acc.variants.len() == acc.used.len(),
        forall|k: int|
            0 <= k < acc.used.len() ==> acc.variants[k] == (IrVariantV {
                name: acc.used[k],
                payload: Option::Some(prefix + "On"@ + acc.used[k]),
            }),
    ensures
        spec_items(ctx, decl_fields, owner, mode, self_name, items, prefix, depth, acc)
            matches Result::Ok(acc2) ==> acc2.variants.len() == acc2.used.len() && (forall|k: int|
            0 <= k < acc2.used.len() ==> acc2.variants[k] == (IrVariantV {
                name: acc2.used[k],
                payload: Option::Some(prefix + "On"@ + acc2.used[k]),
            })),
    decreases depth, items.len(),
{
    reveal_with_fuel(spec_items, 2);
    reveal_with_fuel(crate::resolver::spec_variant_step, 2);
    if items.len() == 0 {
        return ;
    }
    let r = spec_items(ctx, decl_fields, owner, mode, self_name, items, prefix, depth, acc);
    if !(r is Ok) {
        return ;
    }
    match items[0] {
        SelectionItemV::Field(f) => {
            if mode == ResolveMode::Union {
                if f.name == spec_typename() {
                    lemma_items_variants_lockstep(
                        ctx,
                        decl_fields,
                        owner,
                        mode,
                        self_name,
                        items.drop_first(),
                        prefix,
                        depth,
                        acc,
                    );
                }
            } else {
                lemma_field_step_keeps_variants(ctx, decl_fields, owner, f, prefix, depth, acc);
                match crate::resolver::spec_field_step(
                    ctx,
                    decl_fields,
                    owner,
                    f,
                    prefix,
                    depth,
                    acc,
                ) {
                    Result::Ok(acc2) => {
                        lemma_items_variants_lockstep(
                            ctx,
                            decl_fields,
                            owner,
                            mode,
                            self_name,
                            items.drop_first(),
                            prefix,
                            depth,
                            acc2,
                        );
                    },
                    Result::Err(_) => {},
                }
            }
        },
        SelectionItemV::InlineFragment(infl) => {
            if mode != ResolveMode::Union && infl.on == self_name {
                if depth > 0 {
                    lemma_items_variants_lockstep(
                        ctx,
                        decl_fields,
                        owner,
                        mode,
                        self_name,
                        infl.fields.items,
                        prefix,
                        (depth - 1) as nat,
                        acc,
                    );
                    match spec_items(
                        ctx,
                        decl_fields,
                        owner,
                        mode,
                        self_name,
                        infl.fields.items,
                        prefix,
                        (depth - 1) as nat,
                        acc,
                    ) {
                        Result::Ok(acc2) => {
                            lemma_items_variants_lockstep(
                                ctx,
                                decl_fields,
                                owner,
                                mode,
                                self_name,
                                items.drop_first(),
                                prefix,
                                depth,
                                acc2,
                            );
                        },
                        Result::Err(_) => {},
                    }
                }
            } else if mode != ResolveMode::Object {
                match crate::resolver::spec_variant_step(
                    ctx,
                    infl.on,
                    infl.fields,
                    prefix,
                    depth,
                    acc,
                ) {
                    Result::Ok(acc2) => {
                        lemma_items_variants_lockstep(
                            ctx,
                            decl_fields,
                            owner,
                            mode,
                            self_name,
                            items.drop_first(),
                            prefix,
                            depth,
                            acc2,
                        );
                    },
                    Result::Err(_) => {},
                }
            }
        },
        SelectionItemV::FragmentSpread(s) => {
            match crate::query::spec_find_fragment(ctx.fragments, s.fragment_name) {
                Option::None => {},
                Option::Some(frag) => {
                    if mode == ResolveMode::Object || (mode == ResolveMode::Interface && frag.on
                        == self_name) {
                        if depth > 0 {
                            lemma_items_variants_lockstep(
                                ctx,
                                decl_fields,
                                owner,
                                mode,
                                self_name,
                                frag.selection.items,
                                prefix,
                                (depth - 1) as nat,
                                acc,
                            );
                            match spec_items(
                                ctx,
                                decl_fields,
                                owner,
                                mode,
                                self_name,
                                frag.selection.items,
                                prefix,
                                (depth - 1) as nat,
                                acc,
                            ) {
                                Result::Ok(acc2) => {
                                    lemma_items_variants_lockstep(
                                        ctx,
                                        decl_fields,
                                        owner,
                                        mode,
                                        self_name,
                                        items.drop_first(),
                                        prefix,
                                        depth,
                                        acc2,
                                    );
                                },
                                Result::Err(_) => {},
                            }
                        }
                    } else {
                        match crate::resolver::spec_variant_step(
                            ctx,
                            frag.on,
                            frag.selection,
                            prefix,
                            depth,
                            acc,
                        ) {
                            Result::Ok(acc2) => {
                                lemma_items_variants_lockstep(
                                    ctx,
                                    decl_fields,
                                    owner,
                                    mode,
                                    self_name,
                                    items.drop_first(),
                                    prefix,
                                    depth,
                                    acc2,
                                );
                            },
                            Result::Err(_) => {},
                        }
                    }
                },
            }
        },
    }
}

/// Exhaustive variants for interfaces: when every variant condition of
/// an interface selection names an implementer, the emitted sum holds
/// exactly the implementer set, and a variant carries a payload exactly
/// when the selection mentioned it.
pub proof fn lemma_interface_sum_exhaustive(
    ctx: QueryContextV,
    interface: crate::schema::GqlInterfaceV,
    sel: SelectionV,
    prefix: Seq<char>,
    depth: nat,
)
    requires
        crate::resolver::spec_interface_record(ctx, interface, sel, prefix, depth) is Ok,
        spec_items(
            ctx,
            interface.fields,
            interface.name,
            ResolveMode::Interface,
            interface.name,
            sel.items,
            prefix,
            depth,
            spec_empty_acc(),
        ) matches Result::Ok(acc) ==> (forall|j: int|
            0 <= j < acc.used.len() ==> interface.implemented_by.contains(#[trigger] acc.used[j])),
    ensures
        ({
            let defs = crate::resolver::spec_interface_record(
                ctx,
                interface,
                sel,
                prefix,
                depth,
            )->Ok_0;
            defs.len() >= 2 && defs[defs.len() - 2] is Sum && {
                let sum = defs[defs.len() - 2]->Sum_0;
                sum.name == prefix + "On"@ && sum.tag == spec_typename() && (forall|n: Seq<char>|
                    variant_names(sum.variants).contains(n) <==> interface.implemented_by.contains(
                        n,
                    ))
            }
        }),
{
    let acc = spec_items(
        ctx,
        interface.fields,
        interface.name,
        ResolveMode::Interface,
        interface.name,
        sel.items,
        prefix,
        depth,
        spec_empty_acc(),
    )->Ok_0;
    lemma_items_variants_lockstep(
        ctx,
        interface.fields,
        interface.name,
        ResolveMode::Interface,
        interface.name,
        sel.items,
        prefix,
        depth,
        spec_empty_acc(),
    );
    lemma_empty_variants(interface.implemented_by, acc.used);
    let ev = spec_empty_variants(interface.implemented_by, acc.used);
    let all = acc.variants + ev;
    assert(variant_names(all) =~= variant_names(acc.variants) + variant_names(ev));
    assert forall|n: Seq<char>| #[trigger]
        variant_names(all).contains(n) implies interface.implemented_by.contains(n) by {
        let w = choose|w: int| 0 <= w < variant_names(all).len() && variant_names(all)[w] == n;
        if w < variant_names(acc.variants).len() {
            assert(variant_names(acc.variants)[w] == n);
            assert(acc.used[w] == n);
            assert(interface.implemented_by.contains(acc.used[w]));
        } else {
            assert(variant_names(ev)[w - variant_names(acc.variants).len()] == n);
            assert(variant_names(ev).contains(n));
        }
    }
    assert forall|n: Seq<char>| #[trigger]
        interface.implemented_by.contains(n) implies variant_names(all).contains(n) by {
        if acc.used.contains(n) {
            let w = choose|w: int| 0 <= w < acc.used.len() && acc.used[w] == n;
            assert(variant_names(acc.variants)[w] == n);
            assert(variant_names(all)[w] == n);
        } else {
            assert(variant_names(ev).contains(n));
            let w = choose|w: int| 0 <= w < variant_names(ev).len() && variant_names(ev)[w] == n;
            assert(variant_names(all)[variant_names(acc.variants).len() + w] == n);
        }
    }
    let defs = crate::resolver::spec_interface_record(ctx, interface, sel, prefix, depth)->Ok_0;
    assert(defs[defs.len() - 2] == IrDefinitionV::Sum(
        crate::ir::IrSumV { name: prefix + "On"@, tag: spec_typename(), variants: all },
    ));
}

/// Discriminator law for interfaces: the emitted sum is discriminated by
/// the typename meta field, and with pairwise distinct conditions and
/// implementers no two variants share a name.
pub proof fn lemma_interface_sum_discriminator(
    ctx: QueryContextV,
    interface: crate::schema::GqlInterfaceV,
    sel: SelectionV,
    prefix: Seq<char>,
    depth: nat,
)
    requires
        crate::resolver::spec_interface_record(ctx, interface, sel, prefix, depth) is Ok,
        spec_items(
            ctx,
            interface.fields,
            interface.name,
            ResolveMode::Interface,
            interface.name,
            sel.items,
            prefix,
            depth,
            spec_empty_acc(),
        ) matches Result::Ok(acc) ==> (forall|a: int, b: int|
            0 <= a < b < acc.used.len() ==> acc.used[a] != acc.used[b]),
        forall|a: int, b: int|
            0 <= a < b < interface.implemented_by.len() ==> interface.implemented_by[a]
                != interface.implemented_by[b],
    ensures
        ({
            let defs = crate::resolver::spec_interface_record(
                ctx,
                interface,
                sel,
                prefix,
                depth,
            )->Ok_0;
            defs.len() >= 2 && defs[defs.len() - 2] is Sum && {
                let sum = defs[defs.len() - 2]->Sum_0;
                sum.tag == spec_typename() && (forall|a: int, b: int|
                    0 <= a < b < sum.variants.len() ==> sum.variants[a].name
                        != sum.variants[b].name)
            }
        }),
{
    let acc = spec_items(
        ctx,
        interface.fields,
        interface.name,
        ResolveMode::Interface,
        interface.name,
        sel.items,
        prefix,
        depth,
        spec_empty_acc(),
    )->Ok_0;
    lemma_items_variants_lockstep(
        ctx,
        interface.fields,
        interface.name,
        ResolveMode::Interface,
        interface.name,
        sel.items,
        prefix,
        depth,
        spec_empty_acc(),
    );
    lemma_empty_variants(interface.implemented_by, acc.used);
    lemma_empty_variants_distinct(interface.implemented_by, acc.used);
    let ev = spec_empty_variants(interface.implemented_by, acc.used);
    let all = acc.variants + ev;
    assert forall|a: int, b: int| 0 <= a < b < all.len() implies all[a].name != all[b].name by {
        if a < acc.variants.len() && b < acc.variants.len() {
            assert(all[a].name == acc.used[a] && all[b].name == acc.used[b]);
        } else if a < acc.variants.len() {
            assert(all[a].name == acc.used[a]);
            assert(acc.used.contains(acc.used[a]));
            assert(all[b] == ev[b - acc.variants.len()]);
            assert(variant_names(ev).contains(all[b].name)) by {
                assert(variant_names(ev)[b - acc.variants.len()] == all[b].name);
            }
            assert(!acc.used.contains(all[b].name));
        } else {
            assert(all[a] == ev[a - acc.variants.len()]);
            assert(all[b] == ev[b - acc.variants.len()]);
        }
    }
    let defs = crate::resolver::spec_interface_record(ctx, interface, sel, prefix, depth)->Ok_0;
    assert(defs[defs.len() - 2] == IrDefinitionV::Sum(
        crate::ir::IrSumV { name: prefix + "On"@, tag: spec_typename(), variants: all },
    ));
}

/// A selection made of plain field items only: no spreads and no inline
/// fragments.
pub open spec fn all_fields(items: Seq<SelectionItemV>) -> bool {
    forall|k: int| 0 <= k < items.len() ==> items[k] is Field
}

/// Every non-typename field item resolves on the declared fields without
/// raising an error other than a merge conflict: it is declared, not
/// denied by the deprecation policy, and has a scalar or enum leaf.
pub open spec fn fields_benign(
    ctx: QueryContextV,
    decl_fields: Seq<GqlObjectFieldV>,
    items: Seq<SelectionItemV>,
) -> bool {
    forall|k: int|
        0 <= k < items.len() && items[k] is Field && items[k]->Field_0.name != spec_typename()
            ==> {
            let f = (#[trigger] items[k])->Field_0;
            spec_find_field(decl_fields, f.name) matches Option::Some(df) && !(df.deprecation
                is Deprecated && ctx.deprecation_strategy == DeprecationStrategy::Deny)
                && !spec_is_composite(ctx.schema, crate::field_type::spec_leaf_name(df.type_))
        }
}

/// A found accepted selection is one of the accepted selections, under
/// the key it was looked up by.
proof fn lemma_find_seen_some(seen: Seq<SelectionFieldV>, key: Seq<char>)
    ensures
        spec_find_seen(seen, key) matches Option::Some(p) ==> seen.contains(p) && spec_key(p)
            == key,
    decreases seen,
{
    if seen.len() > 0 && !(spec_key(seen[0]) == key) {
        lemma_find_seen_some(seen.drop_first(), key);
        match spec_find_seen(seen.drop_first(), key) {
            Option::Some(p) => {
                let w = choose|w: int|
                    0 <= w < seen.drop_first().len() && seen.drop_first()[w] == p;
                assert(seen[w + 1] == p);
            },
            Option::None => {},
        }
    }
}

/// When no accepted selection is found under a key, none carries it.
proof fn lemma_find_seen_none(seen: Seq<SelectionFieldV>, key: Seq<char>)
    ensures
        spec_find_seen(seen, key) is None ==> forall|k: int|
            0 <= k < seen.len() ==> spec_key(#[trigger] seen[k]) != key,
    decreases seen,
{
    if seen.len() > 0 && !(spec_key(seen[0]) == key) {
        lemma_find_seen_none(seen.drop_first(), key);
        if spec_find_seen(seen, key) is None {
            assert forall|k: int| 0 <= k < seen.len() implies spec_key(#[trigger] seen[k])
                != key by {
                if k > 0 {
                    assert(seen.drop_first()[k - 1] == seen[k]);
                }
            }
        }
    }
}

/// Walking plain-field items merges: the result is a conflict error or a
/// success whose accepted selections keep distinct keys, contain every
/// processed non-typename field, and keep everything accepted before.
proof fn lemma_all_fields_items(
    ctx: QueryContextV,
    decl_fields: Seq<GqlObjectFieldV>,
    owner: Seq<char>,
    self_name: Seq<char>,
    items: Seq<SelectionItemV>,
    prefix: Seq<char>,
    depth: nat,
    acc: ItemsAccV,
)
    requires
        all_fields(items),
        fields_benign(ctx, decl_fields, items),
        keys_distinct(acc.seen),
    ensures
        spec_items(
            ctx,
            decl_fields,
            owner,
            ResolveMode::Object,
            self_name,
            items,
            prefix,
            depth,
            acc,
        ) matches Result::Err(e) ==> e is FieldConflict,
        spec_items(
            ctx,
            decl_fields,
            owner,
            ResolveMode::Object,
            self_name,
            items,
            prefix,
            depth,
            acc,
        ) matches Result::Ok(acc2) ==> keys_distinct(acc2.seen) && (forall|k: int|
            0 <= k < items.len() && (#[trigger] items[k])->Field_0.name != spec_typename()
                ==> acc2.seen.contains(items[k]->Field_0)) && (forall|s: SelectionFieldV|
            acc.seen.contains(s) ==> acc2.seen.contains(s)),
    decreases items.len(),
{
    reveal_with_fuel(spec_items, 2);
    reveal_with_fuel(crate::resolver::spec_field_step, 2);
    if items.len() == 0 {
        return ;
    }
    let f = items[0]->Field_0;
    assert(forall|k: int|
        0 <= k < items.drop_first().len() ==> #[trigger] items.drop_first()[k] == items[k + 1]);
    assert(all_fields(items.drop_first()));
    assert(fields_benign(ctx, decl_fields, items.drop_first()));
    if f.name == spec_typename() {
        lemma_all_fields_items(
            ctx,
            decl_fields,
            owner,
            self_name,
            items.drop_first(),
            prefix,
            depth,
            acc,
        );
        assert(spec_items(
            ctx,
            decl_fields,
            owner,
            ResolveMode::Object,
            self_name,
            items,
            prefix,
            depth,
            acc,
        ) == spec_items(
            ctx,
            decl_fields,
            owner,
            ResolveMode::Object,
            self_name,
            items.drop_first(),
            prefix,
            depth,
            acc,
        ));
        let r = spec_items(
            ctx,
            decl_fields,
            owner,
            ResolveMode::Object,
            self_name,
            items,
            prefix,
            depth,
            acc,
        );
        if r is Ok {
            let accf = r->Ok_0;
            assert forall|k: int|
                0 <= k < items.len() && (#[trigger] items[k])->Field_0.name != spec_typename()
                implies accf.seen.contains(items[k]->Field_0) by {
                if k > 0 {
                    assert(items.drop_first()[k - 1] == items[k]);
                    assert(accf.seen.contains(items.drop_first()[k - 1]->Field_0));
                }
            }
        }
    } else {
        let key = spec_key(f);
        lemma_find_seen_some(acc.seen, key);
        lemma_find_seen_none(acc.seen, key);
        match spec_find_seen(acc.seen, key) {
            Option::Some(prev) => {
                if prev == f {
                    lemma_all_fields_items(
                        ctx,
                        decl_fields,
                        owner,
                        self_name,
                        items.drop_first(),
                        prefix,
                        depth,
                        acc,
                    );
                    let r = spec_items(
                        ctx,
                        decl_fields,
                        owner,
                        ResolveMode::Object,
                        self_name,
                        items,
                        prefix,
                        depth,
                        acc,
                    );
                    if r is Ok {
                        let accf = r->Ok_0;
                        assert(acc.seen.contains(f));
                        assert(accf.seen.contains(f));
                        assert forall|k: int|
                            0 <= k < items.len() && (#[trigger] items[k])->Field_0.name
                                != spec_typename() implies accf.seen.contains(
                            items[k]->Field_0,
                        ) by {
                            if k > 0 {
                                assert(items.drop_first()[k - 1] == items[k]);
                                assert(accf.seen.contains(items.drop_first()[k - 1]->Field_0));
                            }
                        }
                    }
                }
                // otherwise the step is a field conflict and the walk stops
            },
            Option::None => {
                let df = spec_find_field(decl_fields, f.name)->Some_0;
                let dep = df.deprecation is Deprecated && ctx.deprecation_strategy
                    == DeprecationStrategy::Warn;
                let acc2 = ItemsAccV {
                    fields: acc.fields.push(
                        crate::ir::IrFieldV {
                            name: key,
                            rust_name: crate::casing::snake_of(key),
                            type_: df.type_,
                            deprecated: dep,
                        },
                    ),
                    seen: acc.seen.push(f),
                    defs: acc.defs,
                    variants: acc.variants,
                    used: acc.used,
                };
                assert(keys_distinct(acc2.seen)) by {
                    assert(forall|k: int|
                        0 <= k < acc.seen.len() ==> acc2.seen[k] == #[trigger] acc.seen[k]);
                }
                lemma_all_fields_items(
                    ctx,
                    decl_fields,
                    owner,
                    self_name,
                    items.drop_first(),
                    prefix,
                    depth,
                    acc2,
                );
                let r = spec_items(
                    ctx,
                    decl_fields,
                    owner,
                    ResolveMode::Object,
                    self_name,
                    items,
                    prefix,
                    depth,
                    acc,
                );
                if r is Ok {
                    let accf = r->Ok_0;
                    assert(acc2.seen.contains(f)) by {
                        assert(acc2.seen.last() == f);
                    }
                    assert forall|s: SelectionFieldV| #[trigger]
                        acc.seen.contains(s) implies accf.seen.contains(s) by {
                        let w = choose|w: int| 0 <= w < acc.seen.len() && acc.seen[w] == s;
                        assert(acc2.seen[w] == s);
                        assert(acc2.seen.contains(s));
                    }
                    assert(accf.seen.contains(f));
                    assert forall|k: int|
                        0 <= k < items.len() && (#[trigger] items[k])->Field_0.name
                            != spec_typename() implies accf.seen.contains(items[k]->Field_0) by {
                        if k > 0 {
                            assert(items.drop_first()[k - 1] == items[k]);
                            assert(accf.seen.contains(items.drop_first()[k - 1]->Field_0));
                        }
                    }
                }
            },
        }
    }
}

/// Conflict detection: two field selections of one plain-field object
/// selection that share a response key but disagree anywhere make the
/// whole resolution fail with a field-conflict error.
pub proof fn lemma_field_conflict_detected(
    ctx: QueryContextV,
    obj: GqlObjectV,
    sel: SelectionV,
    prefix: Seq<char>,
    depth: nat,
    i: int,
    j: int,
)
    requires
        all_fields(sel.items),
        fields_benign(ctx, obj.fields, sel.items),
        0 <= i < j < sel.items.len(),
        spec_key(sel.items[i]->Field_0) == spec_key(sel.items[j]->Field_0),
        sel.items[i]->Field_0 != sel.items[j]->Field_0,
        sel.items[i]->Field_0.name != spec_typename(),
        sel.items[j]->Field_0.name != spec_typename(),
    ensures
        spec_object_record(ctx, obj, sel, prefix, depth) matches Result::Err(e) && e
            is FieldConflict,
{
    lemma_all_fields_items(
        ctx,
        obj.fields,
        obj.name,
        obj.name,
        sel.items,
        prefix,
        depth,
        spec_empty_acc(),
    );
    let r = spec_items(
        ctx,
        obj.fields,
        obj.name,
        ResolveMode::Object,
        obj.name,
        sel.items,
        prefix,
        depth,
        spec_empty_acc(),
    );
    match r {
        Result::Ok(acc2) => {
            let fi = sel.items[i]->Field_0;
            let fj = sel.items[j]->Field_0;
            assert(acc2.seen.contains(fi));
            assert(acc2.seen.contains(fj));
            let a = choose|a: int| 0 <= a < acc2.seen.len() && acc2.seen[a] == fi;
            let b = choose|b: int| 0 <= b < acc2.seen.len() && acc2.seen[b] == fj;
            assert(a != b);
            assert(spec_key(acc2.seen[a]) == spec_key(acc2.seen[b]));
            assert(false);
        },
        Result::Err(_) => {},
    }
}

} // verus!
