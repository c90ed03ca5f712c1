use vstd::prelude::*;
use crate::deprecation::{DeprecationStatus, DeprecationStatusV};
use crate::field_type::{FieldType, FieldTypeV};
use crate::text::{opt_view, str_eq};
use crate::unions::{GqlUnion, GqlUnionV};

verus! {

/// One declared field of an object or interface type.
#[derive(Debug, PartialEq)]
pub struct GqlObjectField {
    pub description: Option<String>,
    pub name: String,
    pub type_: FieldType,
    pub deprecation: DeprecationStatus,
}

/// The mathematical value of a [`GqlObjectField`].
#[verifier::ext_equal]
pub ghost struct GqlObjectFieldV {
    pub description: Option<Seq<char>>,
    pub name: Seq<char>,
    pub type_: FieldTypeV,
    pub deprecation: DeprecationStatusV,
}

impl View for GqlObjectField {
    type V = GqlObjectFieldV;

    open spec fn view(&self) -> GqlObjectFieldV {
        GqlObjectFieldV {
            description: opt_view(self.description),
            name: self.name@,
            type_: self.type_@,
            deprecation: self.deprecation@,
        }
    }
}

/// An object type: a name and its ordered declared fields.
#[derive(Debug, PartialEq)]
pub struct GqlObject {
    pub description: Option<String>,
    pub name: String,
    pub fields: Vec<GqlObjectField>,
    /// Whether generation referenced the type, so that only reachable
    /// types are emitted.
    pub is_required: bool,
}

/// The mathematical value of a [`GqlObject`].
#[verifier::ext_equal]
pub ghost struct GqlObjectV {
    pub description: Option<Seq<char>>,
    pub name: Seq<char>,
    pub fields: Seq<GqlObjectFieldV>,
    pub is_required: bool,
}

impl View for GqlObject {
    type V = GqlObjectV;

    open spec fn view(&self) -> GqlObjectV {
        GqlObjectV {
            description: opt_view(self.description),
            name: self.name@,
            fields: self.fields@.map_values(|f: GqlObjectField| f@),
            is_required: self.is_required,
        }
    }
}

/// An interface type: a name, its own declared fields, and the names of
/// the object types that implement it.
#[derive(Debug, PartialEq)]
pub struct GqlInterface {
    pub description: Option<String>,
    pub name: String,
    pub fields: Vec<GqlObjectField>,
    pub implemented_by: Vec<String>,
    pub is_required: bool,
}

/// The mathematical value of a [`GqlInterface`].
#[verifier::ext_equal]
pub ghost struct GqlInterfaceV {
    pub description: Option<Seq<char>>,
    pub name: Seq<char>,
    pub fields: Seq<GqlObjectFieldV>,
    pub implemented_by: Seq<Seq<char>>,
    pub is_required: bool,
}

impl View for GqlInterface {
    type V = GqlInterfaceV;

    open spec fn view(&self) -> GqlInterfaceV {
        GqlInterfaceV {
            description: opt_view(self.description),
            name: self.name@,
            fields: self.fields@.map_values(|f: GqlObjectField| f@),
            implemented_by: self.implemented_by@.map_values(|n: String| n@),
            is_required: self.is_required,
        }
    }
}

/// The normalized, read-only schema model: every named type, resolvable
/// by name. References between types are by name, which keeps the model a
/// flat store even for cyclic type graphs.
#[derive(Debug, PartialEq)]
pub struct Schema {
    pub objects: Vec<GqlObject>,
    pub interfaces: Vec<GqlInterface>,
    pub unions: Vec<(String, GqlUnion)>,
}

/// The mathematical value of a [`Schema`].
#[verifier::ext_equal]
pub ghost struct SchemaV {
    pub objects: Seq<GqlObjectV>,
    pub interfaces: Seq<GqlInterfaceV>,
    pub unions: Seq<(Seq<char>, GqlUnionV)>,
}

impl View for Schema {
    type V = SchemaV;

    open spec fn view(&self) -> SchemaV {
        SchemaV {
            objects: self.objects@.map_values(|o: GqlObject| o@),
            interfaces: self.interfaces@.map_values(|i: GqlInterface| i@),
            unions: self.unions@.map_values(|u: (String, GqlUnion)| (u.0@, u.1@)),
        }
    }
}

/// The object registered last under `name`, mirroring map insertion where
/// a later definition replaces an earlier one.
pub open spec fn spec_find_object(objects: Seq<GqlObjectV>, name: Seq<char>) -> Option<GqlObjectV>
    decreases objects,
{
    if objects.len() == 0 {
        Option::None
    } else if objects.last().name == name {
        Option::Some(objects.last())
    } else {
        spec_find_object(objects.drop_last(), name)
    }
}

/// The interface registered last under `name`.
pub open spec fn spec_find_interface(interfaces: Seq<GqlInterfaceV>, name: Seq<char>) -> Option<
    GqlInterfaceV,
>
    decreases interfaces,
{
    if interfaces.len() == 0 {
        Option::None
    } else if interfaces.last().name == name {
        Option::Some(interfaces.last())
    } else {
        spec_find_interface(interfaces.drop_last(), name)
    }
}

/// The union registered last under `name`.
pub open spec fn spec_find_union(unions: Seq<(Seq<char>, GqlUnionV)>, name: Seq<char>) -> Option<
    GqlUnionV,
>
    decreases unions,
{
    if unions.len() == 0 {
        Option::None
    } else if unions.last().0 == name {
        Option::Some(unions.last().1)
    } else {
        spec_find_union(unions.drop_last(), name)
    }
}

/// The declared field found first under `name`, in declaration order.
pub open spec fn spec_find_field(fields: Seq<GqlObjectFieldV>, name: Seq<char>) -> Option<
    GqlObjectFieldV,
>
    decreases fields,
{
    if fields.len() == 0 {
        Option::None
    } else if fields[0].name == name {
        Option::Some(fields[0])
    } else {
        spec_find_field(fields.drop_first(), name)
    }
}

/// Looks up a declared field by name in declaration order.
pub fn find_field<'a>(fields: &'a Vec<GqlObjectField>, name: &str) -> (r: Option<
    &'a GqlObjectField,
>)
    ensures
        match r {
            Option::Some(f) => spec_find_field(
                fields@.map_values(|f: GqlObjectField| f@),
                name@,
            ) == Option::Some(f@),
            Option::None => spec_find_field(fields@.map_values(|f: GqlObjectField| f@), name@)
                is None,
        },
{
    let ghost fs = fields@.map_values(|f: GqlObjectField| f@);
    proof {
        assert(fs.skip(0) =~= fs);
    }
    let mut i: usize = 0;
    let n = fields.len();
    while i < n
        invariant
            n == fields.len(),
            0 <= i <= n,
            fs == fields@.map_values(|f: GqlObjectField| f@),
            fs.len() == n,
            spec_find_field(fs.skip(i as int), name@) == spec_find_field(fs, name@),
        decreases n - i,
    {
        proof {
            assert(fs.skip(i as int)[0] == fs[i as int]);
        }
        if str_eq(fields[i].name.as_str(), name) {
            return Option::Some(&fields[i]);
        }
        proof {
            assert(fs.skip(i as int).drop_first() =~= fs.skip(i + 1));
        }
        i += 1;
    }
    proof {
        assert(fs.skip(n as int) =~= Seq::<GqlObjectFieldV>::empty());
    }
    Option::None
}

impl Schema {
    /// An empty schema, to be populated by a loader.
    pub fn new_empty() -> (r: Schema)
        ensures
            r@.objects == Seq::<GqlObjectV>::empty(),
            r@.interfaces == Seq::<GqlInterfaceV>::empty(),
            r@.unions == Seq::<(Seq<char>, GqlUnionV)>::empty(),
    {
        let r = Schema { objects: Vec::new(), interfaces: Vec::new(), unions: Vec::new() };
        proof {
            assert(r@.objects =~= Seq::<GqlObjectV>::empty());
            assert(r@.interfaces =~= Seq::<GqlInterfaceV>::empty());
            assert(r@.unions =~= Seq::<(Seq<char>, GqlUnionV)>::empty());
        }
        r
    }

    /// Registers an object type; a later definition under the same name
    /// wins on lookup.
    pub fn insert_object(&mut self, object: GqlObject)
        ensures
            final(self)@.objects == old(self)@.objects.push(object@),
            final(self)@.interfaces == old(self)@.interfaces,
            final(self)@.unions == old(self)@.unions,
    {
        self.objects.push(object);
        proof {
            assert(self@.objects =~= old(self)@.objects.push(object@));
        }
    }

    /// Registers an interface type.
    pub fn insert_interface(&mut self, interface: GqlInterface)
        ensures
            final(self)@.interfaces == old(self)@.interfaces.push(interface@),
            final(self)@.objects == old(self)@.objects,
            final(self)@.unions == old(self)@.unions,
    {
        self.interfaces.push(interface);
        proof {
            assert(self@.interfaces =~= old(self)@.interfaces.push(interface@));
        }
    }

    /// Registers a union type under `name`.
    pub fn insert_union(&mut self, name: String, union_type: GqlUnion)
        ensures
            final(self)@.unions == old(self)@.unions.push((name@, union_type@)),
            final(self)@.objects == old(self)@.objects,
            final(self)@.interfaces == old(self)@.interfaces,
    {
        self.unions.push((name, union_type));
        proof {
            assert(self@.unions =~= old(self)@.unions.push((name@, union_type@)));
        }
    }

    /// Looks up the object registered last under `name`.
    pub fn get_object<'a>(&'a self, name: &str) -> (r: Option<&'a GqlObject>)
        ensures
            match r {
                Option::Some(o) => spec_find_object(self@.objects, name@) == Option::Some(o@),
                Option::None => spec_find_object(self@.objects, name@) is None,
            },
    {
        proof {
            assert(self@.objects.take(self.objects.len() as int) =~= self@.objects);
        }
        let mut j: usize = self.objects.len();
        while j > 0
            invariant
                0 <= j <= self.objects.len(),
                self@.objects.len() == self.objects.len(),
                spec_find_object(self@.objects.take(j as int), name@) == spec_find_object(
                    self@.objects,
                    name@,
                ),
            decreases j,
        {
            proof {
                assert(self@.objects.take(j as int).last() == self@.objects[j - 1]);
                assert(self@.objects.take(j as int).drop_last() =~= self@.objects.take(j - 1));
            }
            j -= 1;
            if str_eq(self.objects[j].name.as_str(), name) {
                return Option::Some(&self.objects[j]);
            }
        }
        proof {
            assert(self@.objects.take(0) =~= Seq::<GqlObjectV>::empty());
        }
        Option::None
    }

    /// Looks up the interface registered last under `name`.
    pub fn get_interface<'a>(&'a self, name: &str) -> (r: Option<&'a GqlInterface>)
        ensures
            match r {
                Option::Some(i) => spec_find_interface(self@.interfaces, name@) == Option::Some(
                    i@,
                ),
                Option::None => spec_find_interface(self@.interfaces, name@) is None,
            },
    {
        proof {
            assert(self@.interfaces.take(self.interfaces.len() as int) =~= self@.interfaces);
        }
        let mut j: usize = self.interfaces.len();
        while j > 0
            invariant
                0 <= j <= self.interfaces.len(),
                self@.interfaces.len() == self.interfaces.len(),
                spec_find_interface(self@.interfaces.take(j as int), name@) == spec_find_interface(
                    self@.interfaces,
                    name@,
                ),
            decreases j,
        {
            proof {
                assert(self@.interfaces.take(j as int).last() == self@.interfaces[j - 1]);
                assert(self@.interfaces.take(j as int).drop_last() =~= self@.interfaces.take(
                    j - 1,
                ));
            }
            j -= 1;
            if str_eq(self.interfaces[j].name.as_str(), name) {
                return Option::Some(&self.interfaces[j]);
            }
        }
        proof {
            assert(self@.interfaces.take(0) =~= Seq::<GqlInterfaceV>::empty());
        }
        Option::None
    }

    /// Looks up the union registered last under `name`.
    pub fn get_union<'a>(&'a self, name: &str) -> (r: Option<&'a GqlUnion>)
        ensures
            match r {
                Option::Some(u) => spec_find_union(self@.unions, name@) == Option::Some(u@),
                Option::None => spec_find_union(self@.unions, name@) is None,
            },
    {
        proof {
            assert(self@.unions.take(self.unions.len() as int) =~= self@.unions);
        }
        let mut j: usize = self.unions.len();
        while j > 0
            invariant
                0 <= j <= self.unions.len(),
                self@.unions.len() == self.unions.len(),
                spec_find_union(self@.unions.take(j as int), name@) == spec_find_union(
                    self@.unions,
                    name@,
                ),
            decreases j,
        {
            proof {
                assert(self@.unions.take(j as int).last() == self@.unions[j - 1]);
                assert(self@.unions.take(j as int).drop_last() =~= self@.unions.take(j - 1));
            }
            j -= 1;
            if str_eq(self.unions[j].0.as_str(), name) {
                return Option::Some(&self.unions[j].1);
            }
        }
        proof {
            assert(self@.unions.take(0) =~= Seq::<(Seq<char>, GqlUnionV)>::empty());
        }
        Option::None
    }
}

} // verus!
