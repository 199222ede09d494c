//! Laws of the pipeline and of the generated operations, proved from the
//! models that the contracts of the crate's functions are stated over.

use crate::artifact::{FieldDeclarationModel, GeneratedArtifact, SetterModel, TypeModel};
use crate::definition::TypeDefinition;
use crate::instance::{after_setter, fresh_builder, holds_at, SlotModel};
use crate::model::outcome_model;
use crate::schema::{InvalidShapeError, SchemaModel};
use crate::{artifact_of, do_expand};
use vstd::prelude::*;

verus! {

/// The builder is a builder of the schema's record: it holds one field for
/// each field of the record, in declaration order and under its identifier.
pub open spec fn is_builder_of<T>(builder: Seq<SlotModel<T>>, schema: SchemaModel) -> bool {
    &&& builder.len() == schema.fields.len()
    &&& forall|i: int|
        0 <= i < builder.len() ==> (#[trigger] builder[i]).field == schema.fields[i].identifier
}

/// The builder type generated for a record has exactly as many fields as the
/// record. Each stands where the record's field stands, has its identifier,
/// and has the optional wrapper around its declared type as its type.
pub proof fn builder_mirrors_record(schema: SchemaModel)
    ensures
        artifact_of(schema).builder.fields.len() == schema.fields.len(),
        forall|i: int|
            0 <= i < schema.fields.len() ==> #[trigger] artifact_of(schema).builder.fields[i] == (
            FieldDeclarationModel {
                identifier: schema.fields[i].identifier,
                declared_type: TypeModel::Optional(schema.fields[i].declared_type),
            }),
{
}

/// The factory generated for a record yields a builder of that record in
/// which every field is absent.
pub proof fn factory_yields_all_absent<T>(schema: SchemaModel)
    ensures
        is_builder_of(fresh_builder::<T>(artifact_of(schema).factory), schema),
        forall|i: int|
            0 <= i < schema.fields.len() ==> (#[trigger] fresh_builder::<T>(
                artifact_of(schema).factory,
            )[i]).state is None,
{
}

/// The setter generated for the field at `index` takes a value of that
/// field's declared type. Run on a builder of the record, it leaves the
/// field at `index` present with the value and every other field as it was,
/// and what it leaves is again a builder of the record, so that another
/// setter can follow.
pub proof fn setter_assigns_its_field_alone<T>(
    schema: SchemaModel,
    index: int,
    builder: Seq<SlotModel<T>>,
    value: T,
)
    requires
        schema.well_formed(),
        0 <= index < schema.fields.len(),
        is_builder_of(builder, schema),
    ensures
        artifact_of(schema).setters[index].parameter_type == TypeModel::Declared(
            schema.fields[index].declared_type,
        ),
        after_setter(builder, artifact_of(schema).setters[index], value) == builder.update(
            index,
            SlotModel { field: schema.fields[index].identifier, state: Some(value) },
        ),
        after_setter(builder, artifact_of(schema).setters[index], value)[index].state == Some(
            value,
        ),
        forall|i: int|
            0 <= i < builder.len() && i != index ==> #[trigger] after_setter(
                builder,
                artifact_of(schema).setters[index],
                value,
            )[i] == builder[i],
        is_builder_of(after_setter(builder, artifact_of(schema).setters[index], value), schema),
{
    assert(holds_at(builder, artifact_of(schema).setters[index].field, index));
}

/// A setter run twice overwrites: the builder then holds what the second run
/// alone would have left, and nothing of the first value.
pub proof fn setter_overwrites<T>(
    builder: Seq<SlotModel<T>>,
    setter: SetterModel,
    first: T,
    second: T,
)
    ensures
        after_setter(after_setter(builder, setter, first), setter, second) == after_setter(
            builder,
            setter,
            second,
        ),
{
    if exists|position: int| holds_at(builder, setter.field, position) {
        let chosen = choose|position: int| holds_at(builder, setter.field, position);
        assert(holds_at(after_setter(builder, setter, first), setter.field, chosen));
    }
}

/// The pipeline is deterministic: whatever two runs return on two
/// descriptions of the same content is the same structure. Neither the order
/// of the fields nor the shape of a declaration is left open.
pub proof fn expansions_agree<L: Copy>(
    first: TypeDefinition<L>,
    second: TypeDefinition<L>,
    first_outcome: Result<GeneratedArtifact, InvalidShapeError<L>>,
    second_outcome: Result<GeneratedArtifact, InvalidShapeError<L>>,
)
    requires
        first@ == second@,
        call_ensures(do_expand::<L>, (&first,), first_outcome),
        call_ensures(do_expand::<L>, (&second,), second_outcome),
    ensures
        outcome_model(first_outcome) == outcome_model(second_outcome),
{
}

/// So is the pipeline that ends in text: whatever two runs return on two
/// descriptions of the same content is the same text, character by
/// character, or the same diagnostic.
pub proof fn derivations_agree<L: Copy>(
    first: TypeDefinition<L>,
    second: TypeDefinition<L>,
    first_outcome: Result<String, InvalidShapeError<L>>,
    second_outcome: Result<String, InvalidShapeError<L>>,
)
    requires
        first@ == second@,
        call_ensures(crate::derive::<L>, (&first,), first_outcome),
        call_ensures(crate::derive::<L>, (&second,), second_outcome),
    ensures
        outcome_model(first_outcome) == outcome_model(second_outcome),
{
}

} // verus!
