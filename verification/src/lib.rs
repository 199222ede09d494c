//! Synthesis of builder types from record definitions.
//!
//! Given the description of a record type (its name and its named, typed
//! fields in declaration order), the crate derives a companion builder: a type
//! with one optional field per record field, a factory that yields a builder
//! with every field absent, and one chainable setter per field.
//!
//! [`do_expand`] runs the pipeline and returns the artifact as structure;
//! [`derive`] returns it as Rust source text. Either ends in the artifact or
//! in the diagnostic for a definition that is no record with named fields.

use crate::artifact::{
    ArtifactModel, BuilderDeclaration, BuilderModel, FactoryModel, FactoryOperation,
    GeneratedArtifact,
};
use crate::definition::{DefinitionModel, TypeDefinition};
use crate::model::outcome_model;
use crate::render::{artifact_text, render_artifact};
use crate::schema::{
    extraction, get_fields_from_derive_input, ErrorModel, InvalidShapeError, SchemaModel,
};
use crate::synthesis::{
    builder_shape, generate_builder_struct_factory_init_clauses,
    generate_builder_struct_fields_def, generate_setter_functions, initializer_clauses,
    setter_operations,
};
use vstd::prelude::*;

pub mod artifact;
pub mod definition;
pub mod instance;
pub mod laws;
pub mod model;
pub mod render;
pub mod schema;
pub mod synthesis;

verus! {

/// The name of the builder type of a record type: the record type's name,
/// followed by `Builder`.
pub open spec fn builder_name(origin: Seq<char>) -> Seq<char> {
    origin + "Builder"@
}

/// The name of the factory.
pub open spec fn factory_name() -> Seq<char> {
    "builder"@
}

/// The artifact of a record schema: the builder type with the schema's
/// builder shape; the factory, added to the record type, with a clause for
/// each field; and the setters, one for each field.
pub open spec fn artifact_of(schema: SchemaModel) -> ArtifactModel {
    ArtifactModel {
        builder: BuilderModel {
            name: builder_name(schema.name),
            fields: builder_shape(schema.fields),
        },
        factory: FactoryModel {
            origin: schema.name,
            name: factory_name(),
            builder: builder_name(schema.name),
            clauses: initializer_clauses(schema.fields),
        },
        setters: setter_operations(schema.fields),
    }
}

/// The outcome of the pipeline on a definition: the artifact of the
/// extracted schema, or the diagnostic of the extraction and nothing else.
pub open spec fn expansion<L>(definition: DefinitionModel<L>) -> Result<
    ArtifactModel,
    ErrorModel<L>,
> {
    match extraction(definition) {
        Ok(schema) => Ok(artifact_of(schema)),
        Err(error) => Err(error),
    }
}

/// The outcome of the pipeline as text: the Rust source of the artifact, or
/// the diagnostic.
pub open spec fn derivation<L>(definition: DefinitionModel<L>) -> Result<
    Seq<char>,
    ErrorModel<L>,
> {
    match expansion(definition) {
        Ok(artifact) => Ok(artifact_text(artifact)),
        Err(error) => Err(error),
    }
}

/// Derives the builder of the described type, as Rust source text.
///
/// The text holds the declaration of the builder type, the factory added to
/// the described type, and the setters added to the builder type. A
/// definition that is no record with named fields gives the diagnostic
/// instead, and no text.
pub fn derive<L: Copy>(definition: &TypeDefinition<L>) -> (outcome: Result<
    String,
    InvalidShapeError<L>,
>)
    ensures
        outcome_model(outcome) == derivation(definition@),
        outcome is Ok <==> definition@.shape is NamedRecord,
{
    match do_expand(definition) {
        Ok(artifact) => Ok(render_artifact(&artifact)),
        Err(error) => Err(error),
    }
}

/// Runs the pipeline on the description of a type definition: extracts the
/// record schema, derives the builder's fields, the factory's clauses and the
/// setters from the schema's fields, and assembles them into one artifact.
///
/// A definition that is no record with named fields gives the diagnostic of
/// the extraction instead; nothing is derived then.
pub fn do_expand<L: Copy>(definition: &TypeDefinition<L>) -> (outcome: Result<
    GeneratedArtifact,
    InvalidShapeError<L>,
>)
    ensures
        outcome_model(outcome) == expansion(definition@),
        outcome is Ok <==> definition@.shape is NamedRecord,
{
    let schema = match get_fields_from_derive_input(definition) {
        Ok(schema) => schema,
        Err(error) => {
            return Err(error);
        },
    };
    let fields = schema.fields();
    let mut name_of_builder = schema.name().clone();
    name_of_builder.append("Builder");

    let shape = generate_builder_struct_fields_def(fields);
    let clauses = generate_builder_struct_factory_init_clauses(fields);
    let setters = generate_setter_functions(fields);

    Ok(
        GeneratedArtifact {
            builder: BuilderDeclaration { name: name_of_builder.clone(), fields: shape },
            factory: FactoryOperation {
                origin: schema.name().clone(),
                name: String::from_str("builder"),
                builder: name_of_builder,
                clauses,
            },
            setters,
        },
    )
}

} // verus!
