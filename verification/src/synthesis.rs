//! The three synthesizers. Each reads the fields of a record schema and
//! nothing else, and none depends on another.

use crate::artifact::{
    ClauseModel, FieldDeclaration, FieldDeclarationModel, InitializerClause, SetterModel,
    SetterOperation, TypeExpression, TypeModel,
};
use crate::definition::{FieldDescriptor, FieldModel};
use crate::model::models;
use vstd::prelude::*;

verus! {

/// The builder field that stands for a record field: it has the same
/// identifier, and its type is the optional wrapper around the declared type.
pub open spec fn builder_field(field: FieldModel) -> FieldDeclarationModel {
    FieldDeclarationModel {
        identifier: field.identifier,
        declared_type: TypeModel::Optional(field.declared_type),
    }
}

/// The shape of the builder of a record: the builder field of each record
/// field, in declaration order.
pub open spec fn builder_shape(fields: Seq<FieldModel>) -> Seq<FieldDeclarationModel> {
    Seq::new(fields.len(), |i: int| builder_field(fields[i]))
}

/// The factory clause for a record field: it initialises the builder field
/// of the same identifier.
pub open spec fn initializer_clause(field: FieldModel) -> ClauseModel {
    ClauseModel { field: field.identifier }
}

/// The clauses of the factory of a record: the clause of each record field,
/// in declaration order.
pub open spec fn initializer_clauses(fields: Seq<FieldModel>) -> Seq<ClauseModel> {
    Seq::new(fields.len(), |i: int| initializer_clause(fields[i]))
}

/// The setter for a record field: it is named like the field, takes one
/// parameter of the field's declared type, also named like the field, and
/// assigns the builder field of the same identifier.
pub open spec fn setter_operation(field: FieldModel) -> SetterModel {
    SetterModel {
        name: field.identifier,
        parameter: field.identifier,
        parameter_type: TypeModel::Declared(field.declared_type),
        field: field.identifier,
    }
}

/// The setters of the builder of a record: the setter of each record field,
/// in declaration order.
pub open spec fn setter_operations(fields: Seq<FieldModel>) -> Seq<SetterModel> {
    Seq::new(fields.len(), |i: int| setter_operation(fields[i]))
}

/// Derives the setters of the builder type: one for each field, in
/// declaration order.
pub fn generate_setter_functions(fields: &Vec<FieldDescriptor>) -> (setters: Vec<SetterOperation>)
    ensures
        setters@.len() == fields@.len(),
        forall|i: int|
            0 <= i < fields@.len() ==> (#[trigger] setters@[i])@ == setter_operation(fields@[i]@),
        models(setters@) == setter_operations(models(fields@)),
{
    let mut setters: Vec<SetterOperation> = Vec::new();
    let mut done: usize = 0;
    while done < fields.len()
        invariant
            done <= fields@.len(),
            setters@.len() == done,
            forall|i: int|
                0 <= i < done ==> (#[trigger] setters@[i])@ == setter_operation(fields@[i]@),
        decreases fields@.len() - done,
    {
        let field = &fields[done];
        setters.push(
            SetterOperation {
                name: field.identifier.clone(),
                parameter: field.identifier.clone(),
                parameter_type: TypeExpression::Declared(field.declared_type.clone()),
                field: field.identifier.clone(),
            },
        );
        done += 1;
    }
    setters
}

/// Derives the clauses of the factory: one for each field, in declaration
/// order, each of which starts its builder field in the absent state.
pub fn generate_builder_struct_factory_init_clauses(fields: &Vec<FieldDescriptor>) -> (clauses: Vec<
    InitializerClause,
>)
    ensures
        clauses@.len() == fields@.len(),
        forall|i: int|
            0 <= i < fields@.len() ==> (#[trigger] clauses@[i])@ == initializer_clause(
                fields@[i]@,
            ),
        models(clauses@) == initializer_clauses(models(fields@)),
{
    let mut clauses: Vec<InitializerClause> = Vec::new();
    let mut done: usize = 0;
    while done < fields.len()
        invariant
            done <= fields@.len(),
            clauses@.len() == done,
            forall|i: int|
                0 <= i < done ==> (#[trigger] clauses@[i])@ == initializer_clause(fields@[i]@),
        decreases fields@.len() - done,
    {
        clauses.push(InitializerClause { field: fields[done].identifier.clone() });
        done += 1;
    }
    clauses
}

/// Derives the fields of the builder type: one for each field of the record,
/// in declaration order, under the same identifier and of the optional
/// wrapper around the declared type.
pub fn generate_builder_struct_fields_def(fields: &Vec<FieldDescriptor>) -> (shape: Vec<
    FieldDeclaration,
>)
    ensures
        shape@.len() == fields@.len(),
        forall|i: int|
            0 <= i < fields@.len() ==> (#[trigger] shape@[i])@ == builder_field(fields@[i]@),
        models(shape@) == builder_shape(models(fields@)),
{
    let mut shape: Vec<FieldDeclaration> = Vec::new();
    let mut done: usize = 0;
    while done < fields.len()
        invariant
            done <= fields@.len(),
            shape@.len() == done,
            forall|i: int| 0 <= i < done ==> (#[trigger] shape@[i])@ == builder_field(fields@[i]@),
        decreases fields@.len() - done,
    {
        let field = &fields[done];
        shape.push(
            FieldDeclaration {
                identifier: field.identifier.clone(),
                declared_type: TypeExpression::Optional(field.declared_type.clone()),
            },
        );
        done += 1;
    }
    shape
}

} // verus!
