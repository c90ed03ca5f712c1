use vstd::prelude::*;

verus! {

/// The recursive algebraic description of a GraphQL field type.
///
/// A bare reference `Named(t)` is a reference to the type named `t`;
/// `Optional` and `List` wrap an inner type. Nullability composes at every
/// level independently.
#[derive(Debug, PartialEq)]
pub enum FieldType {
    Named(String),
    Optional(Box<FieldType>),
    List(Box<FieldType>),
}

/// The mathematical value of a [`FieldType`].
#[verifier::ext_equal]
pub ghost enum FieldTypeV {
    Named(Seq<char>),
    Optional(Box<FieldTypeV>),
    List(Box<FieldTypeV>),
}

/// The view of a field type, structurally.
pub open spec fn field_type_view(t: FieldType) -> FieldTypeV
    decreases t,
{
    match t {
        FieldType::Named(n) => FieldTypeV::Named(n@),
        FieldType::Optional(inner) => FieldTypeV::Optional(Box::new(field_type_view(*inner))),
        FieldType::List(inner) => FieldTypeV::List(Box::new(field_type_view(*inner))),
    }
}

impl View for FieldType {
    type V = FieldTypeV;

    open spec fn view(&self) -> FieldTypeV {
        field_type_view(*self)
    }
}

/// The name at the leaf of a field type's `Optional`/`List` shape stack.
pub open spec fn spec_leaf_name(t: FieldTypeV) -> Seq<char>
    decreases t,
{
    match t {
        FieldTypeV::Named(n) => n,
        FieldTypeV::Optional(inner) => spec_leaf_name(*inner),
        FieldTypeV::List(inner) => spec_leaf_name(*inner),
    }
}

/// The same shape stack with the leaf name replaced by `n`.
pub open spec fn spec_with_leaf(t: FieldTypeV, n: Seq<char>) -> FieldTypeV
    decreases t,
{
    match t {
        FieldTypeV::Named(_) => FieldTypeV::Named(n),
        FieldTypeV::Optional(inner) => FieldTypeV::Optional(Box::new(spec_with_leaf(*inner, n))),
        FieldTypeV::List(inner) => FieldTypeV::List(Box::new(spec_with_leaf(*inner, n))),
    }
}

impl Clone for FieldType {
    /// A clone is equal to the original.
    fn clone(&self) -> (r: Self)
        ensures
            r == *self,
        decreases self,
    {
        match self {
            FieldType::Named(n) => FieldType::Named(n.clone()),
            FieldType::Optional(inner) => FieldType::Optional(Box::new((**inner).clone())),
            FieldType::List(inner) => FieldType::List(Box::new((**inner).clone())),
        }
    }
}

impl FieldType {
    /// The name at the leaf of the shape stack.
    pub fn leaf_name(&self) -> (r: &String)
        ensures
            r@ == spec_leaf_name(self@),
        decreases self,
    {
        match self {
            FieldType::Named(n) => n,
            FieldType::Optional(inner) => inner.leaf_name(),
            FieldType::List(inner) => inner.leaf_name(),
        }
    }

    /// Rebuilds the same shape stack around the leaf name `n`.
    pub fn with_leaf(&self, n: String) -> (r: FieldType)
        ensures
            r@ == spec_with_leaf(self@, n@),
        decreases self,
    {
        match self {
            FieldType::Named(_) => FieldType::Named(n),
            FieldType::Optional(inner) => FieldType::Optional(Box::new(inner.with_leaf(n))),
            FieldType::List(inner) => FieldType::List(Box::new(inner.with_leaf(n))),
        }
    }
}

} // verus!
