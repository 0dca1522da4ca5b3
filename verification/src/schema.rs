//! The schema model: passive data describing one struct and its fields,
//! together with the ghost models that contracts are stated over.
//!
//! A schema is constructed fresh for each generation pass by an external
//! front end and is never persisted. Field attributes are ownership hints:
//! `nullable` asks for a null guard before release, `no_drop` suppresses
//! release of an externally owned pointer.

use vstd::prelude::*;
use crate::utils::{attr_models, get_attribute, spec_has_attribute};

verus! {

/// The attribute name that marks a possibly-null pointer field.
pub open spec fn nullable_tag() -> Seq<char> {
    "nullable"@
}

/// The attribute name that marks a pointer field whose memory the
/// generated teardown must not release.
pub open spec fn no_drop_tag() -> Seq<char> {
    "no_drop"@
}

/// Every attribute name is one of the two recognized ownership hints.
pub open spec fn attrs_recognized(attrs: Seq<Seq<char>>) -> bool {
    forall|i: int|
        0 <= i < attrs.len() ==> #[trigger] attrs[i] == nullable_tag() || attrs[i] == no_drop_tag()
}

/// How a released pointer field reclaims its pointee.
#[derive(Clone, Copy, Debug, PartialEq, Eq, Structural)]
pub enum ReleaseStrategy {
    /// Reconstruct and drop a null-terminated byte-sequence owner.
    StringRelease,
    /// Reconstruct and drop a single heap-allocated value of the pointee type.
    GenericRelease,
}

/// The teardown action a field is classified into.
#[derive(Clone, Copy, Debug, PartialEq, Eq, Structural)]
pub enum TeardownAction {
    /// Not a pointer: nothing to release.
    Skip,
    /// Pointer whose release was suppressed by `no_drop`.
    Suppressed,
    /// Unconditional release.
    Release(ReleaseStrategy),
    /// Release guarded by a non-null test.
    GuardedRelease(ReleaseStrategy),
}

/// A generation-time schema error. Generation aborts on the first one and
/// produces no partial output.
#[derive(Clone, Copy, Debug, PartialEq, Eq, Structural)]
pub enum SchemaError {
    /// `nullable` or `no_drop` on a field that is not a raw pointer.
    AttributeOnNonPointer,
    /// A raw pointer whose pointee is itself a raw pointer.
    NestedRawPointer,
    /// An attribute other than the two recognized ownership hints.
    UnknownAttribute,
    /// A positional-field (tuple) struct shape.
    PositionalFields,
    /// A unit struct, or a named-field struct with no fields.
    EmptyFields,
}

/// The shape of one field: either a single-level raw pointer, carrying the
/// textual descriptor of its pointee, or anything else.
#[derive(Clone, Debug, PartialEq, Eq)]
pub enum FieldShape {
    RawPointer {
        /// Textual type descriptor of the pointee; inspected only as text,
        /// never resolved semantically.
        pointee: String,
        /// Whether the pointee is itself a raw pointer (rejected).
        pointee_is_pointer: bool,
    },
    Other,
}

/// One named field with its shape and ownership hints.
#[derive(Clone, Debug, PartialEq, Eq)]
pub struct FieldSchema {
    pub name: String,
    pub shape: FieldShape,
    pub nullable: bool,
    pub no_release: bool,
}

impl FieldSchema {
    /// Build a field schema from the field's parsed attribute names,
    /// reading the two recognized ownership hints and rejecting any other
    /// name.
    pub fn from_attrs(name: String, shape: FieldShape, attrs: &Vec<String>) -> (r: Result<
        FieldSchema,
        SchemaError,
    >)
        ensures
            (match r {
                Ok(f) => attrs_recognized(attr_models(attrs@)) && f@ == (FieldModel {
                    name: name@,
                    shape: shape@,
                    nullable: spec_has_attribute(attr_models(attrs@), nullable_tag()),
                    no_release: spec_has_attribute(attr_models(attrs@), no_drop_tag()),
                }),
                Err(e) => e == SchemaError::UnknownAttribute && !attrs_recognized(
                    attr_models(attrs@),
                ),
            }),
    {
        let nullable_key = String::from_str("nullable");
        let no_drop_key = String::from_str("no_drop");
        let mut i: usize = 0;
        while i < attrs.len()
            invariant
                i <= attrs@.len(),
                nullable_key@ == nullable_tag(),
                no_drop_key@ == no_drop_tag(),
                forall|j: int|
                    0 <= j < i ==> #[trigger] attr_models(attrs@)[j] == nullable_tag()
                        || attr_models(attrs@)[j] == no_drop_tag(),
            decreases attrs@.len() - i,
        {
            let recognized = attrs[i] == nullable_key || attrs[i] == no_drop_key;
            proof {
                assert(attr_models(attrs@)[i as int] == attrs@[i as int]@);
            }
            if !recognized {
                return Err(SchemaError::UnknownAttribute);
            }
            i += 1;
        }
        let nullable = get_attribute(attrs, "nullable");
        let no_release = get_attribute(attrs, "no_drop");
        Ok(FieldSchema { name, shape, nullable, no_release })
    }
}

/// The fields of a struct as the front end saw them. Only `Named` with at
/// least one field is accepted for generation.
#[derive(Clone, Debug, PartialEq, Eq)]
pub enum FieldsSchema {
    Named(Vec<FieldSchema>),
    Positional,
    Unit,
}

/// A whole struct schema: its type name and its ordered fields. Field order
/// is semantically significant: it fixes teardown order.
#[derive(Clone, Debug, PartialEq, Eq)]
pub struct StructSchema {
    pub name: String,
    pub fields: FieldsSchema,
}

/// Ghost model of a field shape.
#[verifier::ext_equal]
pub enum ShapeModel {
    RawPointer { pointee: Seq<char>, pointee_is_pointer: bool },
    Other,
}

/// Ghost model of one field.
#[verifier::ext_equal]
pub struct FieldModel {
    pub name: Seq<char>,
    pub shape: ShapeModel,
    pub nullable: bool,
    pub no_release: bool,
}

/// Ghost model of a struct's fields.
#[verifier::ext_equal]
pub enum FieldsModel {
    Named(Seq<FieldModel>),
    Positional,
    Unit,
}

/// Ghost model of a struct schema.
#[verifier::ext_equal]
pub struct SchemaModel {
    pub name: Seq<char>,
    pub fields: FieldsModel,
}

impl View for FieldShape {
    type V = ShapeModel;

    open spec fn view(&self) -> ShapeModel {
        match self {
            FieldShape::RawPointer { pointee, pointee_is_pointer } => ShapeModel::RawPointer {
                pointee: pointee@,
                pointee_is_pointer: *pointee_is_pointer,
            },
            FieldShape::Other => ShapeModel::Other,
        }
    }
}

impl View for FieldSchema {
    type V = FieldModel;

    open spec fn view(&self) -> FieldModel {
        FieldModel {
            name: self.name@,
            shape: self.shape@,
            nullable: self.nullable,
            no_release: self.no_release,
        }
    }
}

/// The models of a sequence of fields, in order.
pub open spec fn field_models(fields: Seq<FieldSchema>) -> Seq<FieldModel> {
    fields.map_values(|f: FieldSchema| f@)
}

impl View for FieldsSchema {
    type V = FieldsModel;

    open spec fn view(&self) -> FieldsModel {
        match self {
            FieldsSchema::Named(fields) => FieldsModel::Named(field_models(fields@)),
            FieldsSchema::Positional => FieldsModel::Positional,
            FieldsSchema::Unit => FieldsModel::Unit,
        }
    }
}

impl View for StructSchema {
    type V = SchemaModel;

    open spec fn view(&self) -> SchemaModel {
        SchemaModel { name: self.name@, fields: self.fields@ }
    }
}

impl SchemaError {
    /// The descriptive text reported when generation aborts.
    pub open spec fn spec_message(self) -> Seq<char> {
        match self {
            SchemaError::AttributeOnNonPointer => "attribute valid only on raw-pointer fields"@,
            SchemaError::NestedRawPointer => "nested raw pointers unsupported"@,
            SchemaError::UnknownAttribute => "unrecognized field attribute"@,
            SchemaError::PositionalFields => "positional fields are not supported"@,
            SchemaError::EmptyFields => "a struct without named fields cannot be destructed"@,
        }
    }

    /// The descriptive text reported when generation aborts.
    pub fn message(&self) -> (r: &'static str)
        ensures
            r@ == self.spec_message(),
    {
        match self {
            SchemaError::AttributeOnNonPointer => "attribute valid only on raw-pointer fields",
            SchemaError::NestedRawPointer => "nested raw pointers unsupported",
            SchemaError::UnknownAttribute => "unrecognized field attribute",
            SchemaError::PositionalFields => "positional fields are not supported",
            SchemaError::EmptyFields => "a struct without named fields cannot be destructed",
        }
    }
}

} // verus!
