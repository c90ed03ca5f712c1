use vstd::prelude::*;
use crate::field_type::{FieldType, FieldTypeV};

verus! {

/// One field of a generated record.
#[derive(Debug, PartialEq)]
pub struct IrField {
    /// The JSON response key: the selection's alias when present, else the
    /// field name. Emitters use it to wire deserialization.
    pub name: String,
    /// The target-language field label: the snake-case form of `name`.
    pub rust_name: String,
    /// The field's type, with nested record names already substituted at
    /// the leaf of the shape stack.
    pub type_: FieldType,
    /// Whether the deprecation policy asks the emitter to annotate the
    /// field as deprecated.
    pub deprecated: bool,
}

/// A generated record: one nominal type per selection context.
#[derive(Debug, PartialEq)]
pub struct IrRecord {
    pub name: String,
    pub fields: Vec<IrField>,
}

/// One variant of a generated sum. A variant without a payload stands for
/// a schema member the selection never mentions.
#[derive(Debug, PartialEq)]
pub struct IrVariant {
    pub name: String,
    pub payload: Option<String>,
}

/// A generated discriminated sum over the concrete types of an abstract
/// selection, discriminated by the `tag` JSON field.
#[derive(Debug, PartialEq)]
pub struct IrSum {
    pub name: String,
    pub tag: String,
    pub variants: Vec<IrVariant>,
}

/// One nominal definition of the response IR.
#[derive(Debug, PartialEq)]
pub enum IrDefinition {
    Record(IrRecord),
    Sum(IrSum),
}

/// The response IR an abstract-type or object selection produces: the
/// derives to attach and the definitions in emission order.
#[derive(Debug, PartialEq)]
pub struct IrResponse {
    pub derives: Vec<String>,
    pub definitions: Vec<IrDefinition>,
}

/// The mathematical value of an [`IrField`].
#[verifier::ext_equal]
pub ghost struct IrFieldV {
    pub name: Seq<char>,
    pub rust_name: Seq<char>,
    pub type_: FieldTypeV,
    pub deprecated: bool,
}

/// The mathematical value of an [`IrRecord`].
#[verifier::ext_equal]
pub ghost struct IrRecordV {
    pub name: Seq<char>,
    pub fields: Seq<IrFieldV>,
}

/// The mathematical value of an [`IrVariant`].
#[verifier::ext_equal]
pub ghost struct IrVariantV {
    pub name: Seq<char>,
    pub payload: Option<Seq<char>>,
}

/// The mathematical value of an [`IrSum`].
#[verifier::ext_equal]
pub ghost struct IrSumV {
    pub name: Seq<char>,
    pub tag: Seq<char>,
    pub variants: Seq<IrVariantV>,
}

/// The mathematical value of an [`IrDefinition`].
#[verifier::ext_equal]
pub ghost enum IrDefinitionV {
    Record(IrRecordV),
    Sum(IrSumV),
}

/// The mathematical value of an [`IrResponse`].
#[verifier::ext_equal]
pub ghost struct IrResponseV {
    pub derives: Seq<Seq<char>>,
    pub definitions: Seq<IrDefinitionV>,
}

impl View for IrField {
    type V = IrFieldV;

    open spec fn view(&self) -> IrFieldV {
        IrFieldV {
            name: self.name@,
            rust_name: self.rust_name@,
            type_: self.type_@,
            deprecated: self.deprecated,
        }
    }
}

impl View for IrRecord {
    type V = IrRecordV;

    open spec fn view(&self) -> IrRecordV {
        IrRecordV { name: self.name@, fields: self.fields@.map_values(|f: IrField| f@) }
    }
}

impl View for IrVariant {
    type V = IrVariantV;

    open spec fn view(&self) -> IrVariantV {
        IrVariantV { name: self.name@, payload: crate::text::opt_view(self.payload) }
    }
}

impl View for IrSum {
    type V = IrSumV;

    open spec fn view(&self) -> IrSumV {
        IrSumV {
            name: self.name@,
            tag: self.tag@,
            variants: self.variants@.map_values(|v: IrVariant| v@),
        }
    }
}

impl View for IrDefinition {
    type V = IrDefinitionV;

    open spec fn view(&self) -> IrDefinitionV {
        match self {
            IrDefinition::Record(r) => IrDefinitionV::Record(r@),
            IrDefinition::Sum(s) => IrDefinitionV::Sum(s@),
        }
    }
}

impl View for IrResponse {
    type V = IrResponseV;

    open spec fn view(&self) -> IrResponseV {
        IrResponseV {
            derives: self.derives@.map_values(|d: String| d@),
            definitions: self.definitions@.map_values(|d: IrDefinition| d@),
        }
    }
}

} // verus!
