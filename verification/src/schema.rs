//! The schema extractor: from the description of a type definition to a
//! record schema, or to a diagnostic where the definition is no record with
//! named fields.

use crate::definition::{
    distinct_identifiers, DefinitionModel, DefinitionShape, FieldDescriptor, FieldModel,
    ShapeModel, TypeDefinition,
};
use crate::model::{models, outcome_model};
use vstd::prelude::*;

verus! {

/// The normalised description of a record: the name of its type and its
/// named fields in declaration order.
///
/// Every value of this type is well formed: no two fields share an identifier.
#[derive(Debug)]
pub struct RecordSchema {
    name: String,
    fields: Vec<FieldDescriptor>,
}

/// The mathematical model of a [`RecordSchema`].
pub ghost struct SchemaModel {
    pub name: Seq<char>,
    pub fields: Seq<FieldModel>,
}

impl SchemaModel {
    /// A schema is well formed when its field identifiers are unique.
    pub open spec fn well_formed(self) -> bool {
        distinct_identifiers(self.fields)
    }
}

impl View for RecordSchema {
    type V = SchemaModel;

    closed spec fn view(&self) -> SchemaModel {
        SchemaModel { name: self.name@, fields: models(self.fields@) }
    }
}

impl RecordSchema {
    #[verifier::type_invariant]
    spec fn identifiers_are_unique(&self) -> bool {
        self@.well_formed()
    }

    /// The name of the record type.
    pub fn name(&self) -> (name: &String)
        ensures
            name@ == self@.name,
    {
        &self.name
    }

    /// The fields of the record, in declaration order.
    pub fn fields(&self) -> (fields: &Vec<FieldDescriptor>)
        ensures
            models(fields@) == self@.fields,
            self@.well_formed(),
    {
        proof {
            use_type_invariant(self);
        }
        &self.fields
    }
}

/// The diagnostic for a definition that is no record with named fields.
#[derive(Debug, PartialEq, Eq)]
pub struct InvalidShapeError<L> {
    /// What is wrong, in words.
    pub message: String,
    /// The host's reference to the place of the rejected definition.
    pub location: L,
}

/// The mathematical model of an [`InvalidShapeError`].
pub ghost struct ErrorModel<L> {
    pub message: Seq<char>,
    pub location: L,
}

impl<L> View for InvalidShapeError<L> {
    type V = ErrorModel<L>;

    open spec fn view(&self) -> ErrorModel<L> {
        ErrorModel { message: self.message@, location: self.location }
    }
}

/// The message of every [`InvalidShapeError`].
pub open spec fn invalid_shape_message() -> Seq<char> {
    "Must define on a Struct, not Enum"@
}

/// What extraction makes of a definition: the schema of a record with named
/// fields, which has the definition's name and its fields in their order;
/// for every other shape the diagnostic, anchored at the definition's place.
pub open spec fn extraction<L>(definition: DefinitionModel<L>) -> Result<
    SchemaModel,
    ErrorModel<L>,
> {
    match definition.shape {
        ShapeModel::NamedRecord(fields) => Ok(
            SchemaModel { name: definition.name, fields },
        ),
        _ => Err(
            ErrorModel { message: invalid_shape_message(), location: definition.location },
        ),
    }
}

/// A copy of the fields, in the same order.
fn copy_fields(fields: &Vec<FieldDescriptor>) -> (copy: Vec<FieldDescriptor>)
    ensures
        models(copy@) == models(fields@),
{
    let mut copy: Vec<FieldDescriptor> = Vec::new();
    let mut done: usize = 0;
    while done < fields.len()
        invariant
            done <= fields@.len(),
            copy@.len() == done,
            forall|i: int| 0 <= i < done ==> (#[trigger] copy@[i])@ == fields@[i]@,
        decreases fields@.len() - done,
    {
        copy.push(fields[done].clone());
        done += 1;
    }
    copy
}

/// Extracts the record schema from the description of a type definition.
///
/// A definition with named fields, the one without any field included, gives
/// its schema. A sum type, a record with positional fields, a marker type
/// and a union give the diagnostic instead, and no schema.
pub fn get_fields_from_derive_input<L: Copy>(definition: &TypeDefinition<L>) -> (outcome: Result<
    RecordSchema,
    InvalidShapeError<L>,
>)
    ensures
        outcome_model(outcome) == extraction(definition@),
        outcome is Ok <==> definition@.shape is NamedRecord,
        outcome matches Ok(schema) ==> schema@.well_formed(),
{
    match definition.shape() {
        DefinitionShape::NamedRecord(named) => Ok(
            RecordSchema { name: definition.name().clone(), fields: copy_fields(named) },
        ),
        _ => Err(
            InvalidShapeError {
                message: String::from_str("Must define on a Struct, not Enum"),
                location: *definition.location(),
            },
        ),
    }
}

} // verus!
