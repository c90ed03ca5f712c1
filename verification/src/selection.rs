use vstd::prelude::*;
use crate::constants::TYPENAME_FIELD;
use crate::text::{opt_view, opt_string_eq, str_eq};

verus! {

/// A field selection: an optional alias, the field name, and the nested
/// selection set (empty for leaves).
#[derive(Debug, PartialEq)]
pub struct SelectionField {
    pub alias: Option<String>,
    pub name: String,
    pub fields: Selection,
}

/// A reference to a named fragment definition.
#[derive(Debug, PartialEq)]
pub struct SelectionFragmentSpread {
    pub fragment_name: String,
}

/// An inline fragment narrowing the selection to the type named `on`.
#[derive(Debug, PartialEq)]
pub struct SelectionInlineFragment {
    pub on: String,
    pub fields: Selection,
}

/// One item of a selection set.
#[derive(Debug, PartialEq)]
pub enum SelectionItem {
    Field(SelectionField),
    FragmentSpread(SelectionFragmentSpread),
    InlineFragment(SelectionInlineFragment),
}

/// An ordered selection set; order is preserved for deterministic output.
#[derive(Debug, PartialEq)]
pub struct Selection(pub Vec<SelectionItem>);

/// The mathematical value of a [`SelectionField`].
#[verifier::ext_equal]
pub ghost struct SelectionFieldV {
    pub alias: Option<Seq<char>>,
    pub name: Seq<char>,
    pub fields: SelectionV,
}

/// The mathematical value of a [`SelectionFragmentSpread`].
#[verifier::ext_equal]
pub ghost struct SelectionFragmentSpreadV {
    pub fragment_name: Seq<char>,
}

/// The mathematical value of a [`SelectionInlineFragment`].
#[verifier::ext_equal]
pub ghost struct SelectionInlineFragmentV {
    pub on: Seq<char>,
    pub fields: SelectionV,
}

/// The mathematical value of a [`SelectionItem`].
#[verifier::ext_equal]
pub ghost enum SelectionItemV {
    Field(SelectionFieldV),
    FragmentSpread(SelectionFragmentSpreadV),
    InlineFragment(SelectionInlineFragmentV),
}

/// The mathematical value of a [`Selection`].
#[verifier::ext_equal]
pub ghost struct SelectionV {
    pub items: Seq<SelectionItemV>,
}

/// The view of a sequence of selection items.
pub open spec fn items_view(items: Seq<SelectionItem>) -> Seq<SelectionItemV>
    decreases items,
{
    if items.len() == 0 {
        Seq::empty()
    } else {
        items_view(items.drop_last()).push(item_view(items.last()))
    }
}

/// The view of one selection item.
pub open spec fn item_view(it: SelectionItem) -> SelectionItemV
    decreases it,
{
    match it {
        SelectionItem::Field(f) => SelectionItemV::Field(field_view(f)),
        SelectionItem::FragmentSpread(s) => SelectionItemV::FragmentSpread(
            SelectionFragmentSpreadV { fragment_name: s.fragment_name@ },
        ),
        SelectionItem::InlineFragment(i) => SelectionItemV::InlineFragment(
            SelectionInlineFragmentV { on: i.on@, fields: sel_view(i.fields) },
        ),
    }
}

/// The view of a field selection.
pub open spec fn field_view(f: SelectionField) -> SelectionFieldV
    decreases f,
{
    SelectionFieldV { alias: opt_view(f.alias), name: f.name@, fields: sel_view(f.fields) }
}

/// The view of a selection set.
pub open spec fn sel_view(s: Selection) -> SelectionV
    decreases s,
{
    SelectionV { items: items_view(s.0@) }
}

impl View for SelectionField {
    type V = SelectionFieldV;

    open spec fn view(&self) -> SelectionFieldV {
        field_view(*self)
    }
}

impl View for SelectionFragmentSpread {
    type V = SelectionFragmentSpreadV;

    open spec fn view(&self) -> SelectionFragmentSpreadV {
        SelectionFragmentSpreadV { fragment_name: self.fragment_name@ }
    }
}

impl View for SelectionInlineFragment {
    type V = SelectionInlineFragmentV;

    open spec fn view(&self) -> SelectionInlineFragmentV {
        SelectionInlineFragmentV { on: self.on@, fields: sel_view(self.fields) }
    }
}

impl View for SelectionItem {
    type V = SelectionItemV;

    open spec fn view(&self) -> SelectionItemV {
        item_view(*self)
    }
}

impl View for Selection {
    type V = SelectionV;

    open spec fn view(&self) -> SelectionV {
        sel_view(*self)
    }
}

/// The view of a selection set has one item view per item, in order.
pub broadcast proof fn lemma_items_view(items: Seq<SelectionItem>)
    ensures
        (#[trigger] items_view(items)).len() == items.len(),
        forall|i: int| 0 <= i < items.len() ==> items_view(items)[i] == item_view(items[i]),
    decreases items,
{
    if items.len() > 0 {
        lemma_items_view(items.drop_last());
    }
}

impl Clone for SelectionField {
    /// A clone has the same view as the original.
    fn clone(&self) -> (r: Self)
        ensures
            r@ == self@,
        decreases self,
    {
        let alias = match &self.alias {
            Option::Some(a) => Option::Some(a.clone()),
            Option::None => Option::None,
        };
        SelectionField { alias, name: self.name.clone(), fields: self.fields.clone() }
    }
}

impl Clone for SelectionFragmentSpread {
    /// A clone has the same view as the original.
    fn clone(&self) -> (r: Self)
        ensures
            r@ == self@,
    {
        SelectionFragmentSpread { fragment_name: self.fragment_name.clone() }
    }
}

impl Clone for SelectionInlineFragment {
    /// A clone has the same view as the original.
    fn clone(&self) -> (r: Self)
        ensures
            r@ == self@,
        decreases self,
    {
        SelectionInlineFragment { on: self.on.clone(), fields: self.fields.clone() }
    }
}

impl Clone for SelectionItem {
    /// A clone has the same view as the original.
    fn clone(&self) -> (r: Self)
        ensures
            r@ == self@,
        decreases self,
    {
        match self {
            SelectionItem::Field(f) => SelectionItem::Field(f.clone()),
            SelectionItem::FragmentSpread(s) => SelectionItem::FragmentSpread(s.clone()),
            SelectionItem::InlineFragment(i) => SelectionItem::InlineFragment(i.clone()),
        }
    }
}

impl Clone for Selection {
    /// A clone has the same view as the original.
    fn clone(&self) -> (r: Self)
        ensures
            r@ == self@,
        decreases self,
    {
        let mut items: Vec<SelectionItem> = Vec::new();
        let mut i: usize = 0;
        let n = self.0.len();
        while i < n
            invariant
                n == self.0.len(),
                0 <= i <= n,
                items@.len() == i,
                forall|j: int| 0 <= j < i ==> item_view(#[trigger] items@[j]) == item_view(
                    self.0@[j],
                ),
            decreases n - i,
        {
            let it = self.0[i].clone();
            items.push(it);
            i += 1;
        }
        let r = Selection(items);
        proof {
            lemma_items_view(items@);
            lemma_items_view(self.0@);
            assert(items_view(items@) =~= items_view(self.0@));
        }
        r
    }
}

impl SelectionField {
    /// Structural equality of two field selections, stated over views.
    pub fn eq_field(&self, other: &SelectionField) -> (r: bool)
        ensures
            r == (self@ == other@),
        decreases self,
    {
        let alias_eq = opt_string_eq(&self.alias, &other.alias);
        if !alias_eq {
            return false;
        }
        if !str_eq(self.name.as_str(), other.name.as_str()) {
            return false;
        }
        self.fields.eq_sel(&other.fields)
    }
}

impl SelectionItem {
    /// Structural equality of two selection items, stated over views.
    pub fn eq_item(&self, other: &SelectionItem) -> (r: bool)
        ensures
            r == (self@ == other@),
        decreases self,
    {
        match (self, other) {
            (SelectionItem::Field(a), SelectionItem::Field(b)) => a.eq_field(b),
            (SelectionItem::FragmentSpread(a), SelectionItem::FragmentSpread(b)) => str_eq(
                a.fragment_name.as_str(),
                b.fragment_name.as_str(),
            ),
            (SelectionItem::InlineFragment(a), SelectionItem::InlineFragment(b)) => {
                if !str_eq(a.on.as_str(), b.on.as_str()) {
                    false
                } else {
                    a.fields.eq_sel(&b.fields)
                }
            },
            _ => false,
        }
    }
}

impl Selection {
    /// Structural equality of two selection sets, stated over views.
    pub fn eq_sel(&self, other: &Selection) -> (r: bool)
        ensures
            r == (self@ == other@),
        decreases self,
    {
        proof {
            lemma_items_view(self.0@);
            lemma_items_view(other.0@);
        }
        let n = self.0.len();
        if n != other.0.len() {
            return false;
        }
        let mut i: usize = 0;
        while i < n
            invariant
                n == self.0.len(),
                n == other.0.len(),
                0 <= i <= n,
                items_view(self.0@).len() == n,
                items_view(other.0@).len() == n,
                forall|j: int| 0 <= j < n ==> items_view(self.0@)[j] == item_view(self.0@[j]),
                forall|j: int| 0 <= j < n ==> items_view(other.0@)[j] == item_view(other.0@[j]),
                forall|j: int| 0 <= j < i ==> item_view(self.0@[j]) == item_view(other.0@[j]),
            decreases n - i,
        {
            if !self.0[i].eq_item(&other.0[i]) {
                proof {
                    assert(items_view(self.0@)[i as int] != items_view(other.0@)[i as int]);
                }
                return false;
            }
            i += 1;
        }
        proof {
            assert(items_view(self.0@) =~= items_view(other.0@));
        }
        true
    }
}

/// The typename meta field's character sequence.
pub open spec fn spec_typename() -> Seq<char> {
    "__typename"@
}

/// What [`SelectionItem::as_typename`] returns: the field, when the item is
/// a field selection of the typename meta field.
pub open spec fn spec_as_typename(it: SelectionItemV) -> Option<SelectionFieldV> {
    match it {
        SelectionItemV::Field(f) => if f.name == spec_typename() {
            Option::Some(f)
        } else {
            Option::None
        },
        _ => Option::None,
    }
}

/// The view of an optional borrowed selection field.
pub open spec fn opt_field_view(r: Option<&SelectionField>) -> Option<SelectionFieldV> {
    match r {
        Option::Some(f) => Option::Some(f@),
        Option::None => Option::None,
    }
}

impl SelectionItem {
    /// The item as a typename meta field selection, if it is one.
    pub fn as_typename(&self) -> (r: Option<&SelectionField>)
        ensures
            opt_field_view(r) == spec_as_typename(self@),
    {
        if let SelectionItem::Field(f) = self {
            if str_eq(f.name.as_str(), TYPENAME_FIELD) {
                return Option::Some(f);
            }
        }
        Option::None
    }
}

/// What [`Selection::extract_typename`] returns: the first typename meta
/// field selection among the direct items.
pub open spec fn spec_extract_typename(items: Seq<SelectionItemV>) -> Option<SelectionFieldV>
    decreases items,
{
    if items.len() == 0 {
        Option::None
    } else if spec_as_typename(items[0]) is Some {
        spec_as_typename(items[0])
    } else {
        spec_extract_typename(items.drop_first())
    }
}

impl Selection {
    /// The first direct typename meta field selection, if any. The query
    /// context takes no part in the answer; it is accepted so that call
    /// sites resolving a selection can hand their context through.
    pub fn extract_typename(&self, context: &crate::query::QueryContext) -> (r: Option<
        &SelectionField,
    >)
        ensures
            opt_field_view(r) == spec_extract_typename(self@.items),
    {
        let mut i: usize = 0;
        let n = self.0.len();
        proof {
            lemma_items_view(self.0@);
            assert(self@.items.skip(0) =~= self@.items);
        }
        while i < n
            invariant
                n == self.0.len(),
                0 <= i <= n,
                items_view(self.0@).len() == n,
                forall|j: int| 0 <= j < n ==> items_view(self.0@)[j] == item_view(self.0@[j]),
                spec_extract_typename(self@.items.skip(i as int)) == spec_extract_typename(
                    self@.items,
                ),
                forall|j: int| 0 <= j < i ==> spec_as_typename(self@.items[j]) is None,
            decreases n - i,
        {
            proof {
                assert(self@.items.skip(i as int)[0] == self@.items[i as int]);
            }
            let r = self.0[i].as_typename();
            if r.is_some() {
                return r;
            }
            proof {
                assert(self@.items.skip(i as int).drop_first() =~= self@.items.skip(i + 1));
            }
            i += 1;
        }
        proof {
            assert(self@.items.skip(n as int) =~= Seq::<SelectionItemV>::empty());
        }
        Option::None
    }
}

} // verus!
