use vstd::prelude::*;
use vstd::string::*;
use crate::deprecation::DeprecationStrategy;
use crate::schema::{Schema, SchemaV};
use crate::selection::{sel_view, Selection, SelectionV};
use crate::text::str_eq;

verus! {

/// A named fragment definition: its target type condition and selection.
#[derive(Debug, PartialEq)]
pub struct GqlFragment {
    pub name: String,
    pub on: String,
    pub selection: Selection,
}

/// The mathematical value of a [`GqlFragment`].
#[verifier::ext_equal]
pub ghost struct GqlFragmentV {
    pub name: Seq<char>,
    pub on: Seq<char>,
    pub selection: SelectionV,
}

impl View for GqlFragment {
    type V = GqlFragmentV;

    open spec fn view(&self) -> GqlFragmentV {
        GqlFragmentV { name: self.name@, on: self.on@, selection: sel_view(self.selection) }
    }
}

/// The pairing of schema and query models with the response-shaping
/// configuration; the sole argument threaded through resolution.
#[derive(Debug, PartialEq)]
pub struct QueryContext {
    pub schema: Schema,
    pub fragments: Vec<GqlFragment>,
    pub deprecation_strategy: DeprecationStrategy,
    pub response_derives: Vec<String>,
}

/// The mathematical value of a [`QueryContext`].
#[verifier::ext_equal]
pub ghost struct QueryContextV {
    pub schema: SchemaV,
    pub fragments: Seq<GqlFragmentV>,
    pub deprecation_strategy: DeprecationStrategy,
    pub response_derives: Seq<Seq<char>>,
}

impl View for QueryContext {
    type V = QueryContextV;

    open spec fn view(&self) -> QueryContextV {
        QueryContextV {
            schema: self.schema@,
            fragments: self.fragments@.map_values(|f: GqlFragment| f@),
            deprecation_strategy: self.deprecation_strategy,
            response_derives: self.response_derives@.map_values(|d: String| d@),
        }
    }
}

/// The fragment registered last under `name`.
pub open spec fn spec_find_fragment(fragments: Seq<GqlFragmentV>, name: Seq<char>) -> Option<
    GqlFragmentV,
>
    decreases fragments,
{
    if fragments.len() == 0 {
        Option::None
    } else if fragments.last().name == name {
        Option::Some(fragments.last())
    } else {
        spec_find_fragment(fragments.drop_last(), name)
    }
}

/// What [`QueryContext::detect_fragment_cycles`] returns: walks the
/// registered fragments in order and reports the first one out of which
/// some spread chain exhausts the hop budget.
pub open spec fn spec_detect_fragment_cycles(ctx: QueryContextV) -> Result<
    (),
    crate::errors::CodegenErrorV,
> {
    spec_detect_from(ctx, ctx.fragments, ctx.fragments.len())
}

/// The walk of [`spec_detect_fragment_cycles`] over the fragments still
/// to examine.
pub open spec fn spec_detect_from(
    ctx: QueryContextV,
    fragments: Seq<GqlFragmentV>,
    budget: nat,
) -> Result<(), crate::errors::CodegenErrorV>
    decreases fragments,
{
    if fragments.len() == 0 {
        Result::Ok(())
    } else if !crate::resolver::spec_items_acyclic(ctx, fragments[0].selection.items, budget) {
        Result::Err(crate::errors::CodegenErrorV::Cycle { name: fragments[0].name })
    } else {
        spec_detect_from(ctx, fragments.drop_first(), budget)
    }
}

impl QueryContext {
    /// An empty context over an empty schema, with the default derive and
    /// deprecation policy.
    pub fn new_empty() -> (r: QueryContext)
        ensures
            r@.schema.objects == Seq::<crate::schema::GqlObjectV>::empty(),
            r@.schema.interfaces == Seq::<crate::schema::GqlInterfaceV>::empty(),
            r@.schema.unions == Seq::<(Seq<char>, crate::unions::GqlUnionV)>::empty(),
            r@.fragments == Seq::<GqlFragmentV>::empty(),
            r@.deprecation_strategy == DeprecationStrategy::Warn,
            r@.response_derives == seq!["Deserialize"@],
    {
        let mut derives: Vec<String> = Vec::new();
        derives.push(String::from_str("Deserialize"));
        let r = QueryContext {
            schema: Schema::new_empty(),
            fragments: Vec::new(),
            deprecation_strategy: DeprecationStrategy::Warn,
            response_derives: derives,
        };
        proof {
            assert(r@.fragments =~= Seq::<GqlFragmentV>::empty());
            assert(r@.response_derives =~= seq!["Deserialize"@]);
        }
        r
    }

    /// Registers a fragment definition; a later definition under the same
    /// name wins on lookup.
    pub fn insert_fragment(&mut self, fragment: GqlFragment)
        ensures
            final(self)@.fragments == old(self)@.fragments.push(fragment@),
            final(self)@.schema == old(self)@.schema,
            final(self)@.deprecation_strategy == old(self)@.deprecation_strategy,
            final(self)@.response_derives == old(self)@.response_derives,
    {
        self.fragments.push(fragment);
        proof {
            assert(self@.fragments =~= old(self)@.fragments.push(fragment@));
        }
    }

    /// Looks up the fragment registered last under `name`.
    pub fn get_fragment<'a>(&'a self, name: &str) -> (r: Option<&'a GqlFragment>)
        ensures
            match r {
                Option::Some(f) => spec_find_fragment(self@.fragments, name@) == Option::Some(f@),
                Option::None => spec_find_fragment(self@.fragments, name@) is None,
            },
    {
        proof {
            assert(self@.fragments.take(self.fragments.len() as int) =~= self@.fragments);
        }
        let mut j: usize = self.fragments.len();
        while j > 0
            invariant
                0 <= j <= self.fragments.len(),
                self@.fragments.len() == self.fragments.len(),
                spec_find_fragment(self@.fragments.take(j as int), name@) == spec_find_fragment(
                    self@.fragments,
                    name@,
                ),
            decreases j,
        {
            proof {
                assert(self@.fragments.take(j as int).last() == self@.fragments[j - 1]);
                assert(self@.fragments.take(j as int).drop_last() =~= self@.fragments.take(j - 1));
            }
            j -= 1;
            if str_eq(self.fragments[j].name.as_str(), name) {
                return Option::Some(&self.fragments[j]);
            }
        }
        proof {
            assert(self@.fragments.take(0) =~= Seq::<GqlFragmentV>::empty());
        }
        Option::None
    }

    /// Whether no spread chain out of any registered fragment exhausts a
    /// hop budget of one per fragment. A cycle loops forever, so it
    /// exhausts any budget; an acyclic registry never repeats a
    /// fragment along a chain, so its chains stay within the budget.
    /// The first fragment, in registration order, whose chains do not is
    /// reported in a cycle error.
    pub fn detect_fragment_cycles(&self) -> (r: Result<(), crate::errors::CodegenError>)
        ensures
            crate::resolver::result_unit_view(r) == spec_detect_fragment_cycles(self@),
    {
        let budget = self.fragments.len();
        let mut i: usize = 0;
        let n = self.fragments.len();
        proof {
            assert(self@.fragments.skip(0) =~= self@.fragments);
        }
        while i < n
            invariant
                n == self.fragments.len(),
                0 <= i <= n,
                self@.fragments.len() == n,
                budget == n,
                spec_detect_from(self@, self@.fragments.skip(i as int), n as nat)
                    == spec_detect_fragment_cycles(self@),
            decreases n - i,
        {
            proof {
                assert(self@.fragments.skip(i as int)[0] == self@.fragments[i as int]);
                assert(self@.fragments.skip(i as int).drop_first() =~= self@.fragments.skip(
                    i + 1,
                ));
                assert(sel_view(self.fragments@[i as int].selection).items.skip(0) =~= sel_view(
                    self.fragments@[i as int].selection,
                ).items);
            }
            if !crate::resolver::items_acyclic(self, &self.fragments[i].selection, 0, budget) {
                return Result::Err(
                    crate::errors::CodegenError::Cycle { name: self.fragments[i].name.clone() },
                );
            }
            i += 1;
        }
        proof {
            assert(self@.fragments.skip(n as int) =~= Seq::<GqlFragmentV>::empty());
        }
        Result::Ok(())
    }

    /// The derives the emitter attaches to every generated type.
    pub fn response_derives(&self) -> (r: &Vec<String>)
        ensures
            r@.map_values(|d: String| d@) == self@.response_derives,
    {
        &self.response_derives
    }
}

} // verus!
