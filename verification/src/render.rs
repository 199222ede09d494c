//! The artifact as Rust source text.
//!
//! An item is written on one line, its tokens a single space apart where a
//! space is called for, and a block without content as `{}`. The three items
//! of an artifact stand on a line each.

use crate::artifact::{
    ArtifactModel, BuilderDeclaration, BuilderModel, ClauseModel, FactoryModel, FactoryOperation,
    FieldDeclaration, FieldDeclarationModel, GeneratedArtifact, InitializerClause, SetterModel,
    SetterOperation, TypeExpression, TypeModel,
};
use crate::model::models;
use vstd::prelude::*;

verus! {

/// The parts in their order, with the separator between each two neighbours.
pub open spec fn separated(parts: Seq<Seq<char>>, separator: Seq<char>) -> Seq<char>
    decreases parts.len(),
{
    if parts.len() == 0 {
        Seq::empty()
    } else if parts.len() == 1 {
        parts[0]
    } else {
        separated(parts.drop_last(), separator) + separator + parts.last()
    }
}

/// A block around a body: `{ body }`, and `{}` around an empty body.
pub open spec fn braced(body: Seq<char>) -> Seq<char> {
    if body.len() == 0 {
        "{}"@
    } else {
        "{ "@ + body + " }"@
    }
}

/// The text of a type: a declared type as the host wrote it, an optional
/// wrapper as `std::option::Option<..>` around the wrapped type.
pub open spec fn type_text(written: TypeModel) -> Seq<char> {
    match written {
        TypeModel::Declared(text) => text,
        TypeModel::Optional(wrapped) => "std::option::Option<"@ + wrapped + ">"@,
    }
}

/// The text of a builder field: `identifier: type`.
pub open spec fn field_text(field: FieldDeclarationModel) -> Seq<char> {
    field.identifier + ": "@ + type_text(field.declared_type)
}

/// The text of each builder field, in order.
pub open spec fn field_texts(fields: Seq<FieldDeclarationModel>) -> Seq<Seq<char>> {
    Seq::new(fields.len(), |i: int| field_text(fields[i]))
}

/// The text of the builder type's declaration.
pub open spec fn builder_text(builder: BuilderModel) -> Seq<char> {
    "pub struct "@ + builder.name + " "@ + braced(separated(field_texts(builder.fields), ", "@))
}

/// The text of a factory clause: the field, initialised as absent.
pub open spec fn clause_text(clause: ClauseModel) -> Seq<char> {
    clause.field + ": std::option::Option::None"@
}

/// The text of each factory clause, in order.
pub open spec fn clause_texts(clauses: Seq<ClauseModel>) -> Seq<Seq<char>> {
    Seq::new(clauses.len(), |i: int| clause_text(clauses[i]))
}

/// The text of the factory, inside the block that adds it to the origin type.
pub open spec fn factory_text(factory: FactoryModel) -> Seq<char> {
    "impl "@ + factory.origin + " "@ + braced(
        "pub fn "@ + factory.name + "() -> "@ + factory.builder + " "@ + braced(
            factory.builder + " "@ + braced(separated(clause_texts(factory.clauses), ", "@)),
        ),
    )
}

/// The text of a setter.
pub open spec fn setter_text(setter: SetterModel) -> Seq<char> {
    "fn "@ + setter.name + "(&mut self, "@ + setter.parameter + ": "@ + type_text(
        setter.parameter_type,
    ) + ") -> &mut Self "@ + braced(
        "self."@ + setter.field + " = std::option::Option::Some("@ + setter.parameter
            + "); self"@,
    )
}

/// The text of each setter, in order.
pub open spec fn setter_texts(setters: Seq<SetterModel>) -> Seq<Seq<char>> {
    Seq::new(setters.len(), |i: int| setter_text(setters[i]))
}

/// The text of the block that adds the setters to the builder type.
pub open spec fn setters_text(builder: Seq<char>, setters: Seq<SetterModel>) -> Seq<char> {
    "impl "@ + builder + " "@ + braced(separated(setter_texts(setters), " "@))
}

/// The text of a whole artifact: the builder type's declaration, the block
/// with the factory, and the block with the setters, each followed by a line
/// break.
pub open spec fn artifact_text(artifact: ArtifactModel) -> Seq<char> {
    builder_text(artifact.builder) + "\n"@ + factory_text(artifact.factory) + "\n"@ + setters_text(
        artifact.builder.name,
        artifact.setters,
    ) + "\n"@
}

/// Joins the parts, with the separator between each two neighbours.
pub fn join(parts: &Vec<String>, separator: &str) -> (text: String)
    ensures
        text@ == separated(models(parts@), separator@),
{
    let mut text = String::new();
    let mut done: usize = 0;
    while done < parts.len()
        invariant
            done <= parts@.len(),
            text@ == separated(models(parts@).take(done as int), separator@),
        decreases parts@.len() - done,
    {
        proof {
            let before = models(parts@).take(done as int);
            let after = models(parts@).take(done + 1);
            assert(after.drop_last() =~= before);
        }
        if done > 0 {
            text.append(separator);
        }
        text.append(parts[done].as_str());
        done += 1;
    }
    assert(models(parts@).take(done as int) =~= models(parts@));
    text
}

/// Writes a block around a body.
pub fn brace(body: &str) -> (text: String)
    ensures
        text@ == braced(body@),
{
    if body.is_empty() {
        String::from_str("{}")
    } else {
        let mut text = String::from_str("{ ");
        text.append(body);
        text.append(" }");
        text
    }
}

/// Writes a type.
pub fn render_type(written: &TypeExpression) -> (text: String)
    ensures
        text@ == type_text(written@),
{
    match written {
        TypeExpression::Declared(declared) => declared.clone(),
        TypeExpression::Optional(wrapped) => {
            let mut text = String::from_str("std::option::Option<");
            text.append(wrapped.as_str());
            text.append(">");
            text
        },
    }
}

/// Writes a builder field.
pub fn render_field(field: &FieldDeclaration) -> (text: String)
    ensures
        text@ == field_text(field@),
{
    let mut text = field.identifier.clone();
    text.append(": ");
    text.append(render_type(&field.declared_type).as_str());
    text
}

/// Writes the declaration of the builder type.
pub fn render_builder(builder: &BuilderDeclaration) -> (text: String)
    ensures
        text@ == builder_text(builder@),
{
    let mut parts: Vec<String> = Vec::new();
    let mut done: usize = 0;
    while done < builder.fields.len()
        invariant
            done <= builder.fields@.len(),
            parts@.len() == done,
            forall|i: int| 0 <= i < done ==> (#[trigger] parts@[i])@ == field_text(builder.fields@[i]@),
        decreases builder.fields@.len() - done,
    {
        parts.push(render_field(&builder.fields[done]));
        done += 1;
    }
    assert(models(parts@) =~= field_texts(builder@.fields));
    let mut text = String::from_str("pub struct ");
    text.append(builder.name.as_str());
    text.append(" ");
    text.append(brace(join(&parts, ", ").as_str()).as_str());
    text
}

/// Writes a factory clause.
pub fn render_clause(clause: &InitializerClause) -> (text: String)
    ensures
        text@ == clause_text(clause@),
{
    let mut text = clause.field.clone();
    text.append(": std::option::Option::None");
    text
}

/// Writes the factory, inside the block that adds it to the origin type.
pub fn render_factory(factory: &FactoryOperation) -> (text: String)
    ensures
        text@ == factory_text(factory@),
{
    let mut parts: Vec<String> = Vec::new();
    let mut done: usize = 0;
    while done < factory.clauses.len()
        invariant
            done <= factory.clauses@.len(),
            parts@.len() == done,
            forall|i: int|
                0 <= i < done ==> (#[trigger] parts@[i])@ == clause_text(factory.clauses@[i]@),
        decreases factory.clauses@.len() - done,
    {
        parts.push(render_clause(&factory.clauses[done]));
        done += 1;
    }
    assert(models(parts@) =~= clause_texts(factory@.clauses));
    let mut value = factory.builder.clone();
    value.append(" ");
    value.append(brace(join(&parts, ", ").as_str()).as_str());
    let mut operation = String::from_str("pub fn ");
    operation.append(factory.name.as_str());
    operation.append("() -> ");
    operation.append(factory.builder.as_str());
    operation.append(" ");
    operation.append(brace(value.as_str()).as_str());
    let mut text = String::from_str("impl ");
    text.append(factory.origin.as_str());
    text.append(" ");
    text.append(brace(operation.as_str()).as_str());
    text
}

/// Writes a setter.
pub fn render_setter(setter: &SetterOperation) -> (text: String)
    ensures
        text@ == setter_text(setter@),
{
    let mut body = String::from_str("self.");
    body.append(setter.field.as_str());
    body.append(" = std::option::Option::Some(");
    body.append(setter.parameter.as_str());
    body.append("); self");
    let mut text = String::from_str("fn ");
    text.append(setter.name.as_str());
    text.append("(&mut self, ");
    text.append(setter.parameter.as_str());
    text.append(": ");
    text.append(render_type(&setter.parameter_type).as_str());
    text.append(") -> &mut Self ");
    text.append(brace(body.as_str()).as_str());
    text
}

/// Writes the block that adds the setters to the builder type.
pub fn render_setters(builder: &str, setters: &Vec<SetterOperation>) -> (text: String)
    ensures
        text@ == setters_text(builder@, models(setters@)),
{
    let mut parts: Vec<String> = Vec::new();
    let mut done: usize = 0;
    while done < setters.len()
        invariant
            done <= setters@.len(),
            parts@.len() == done,
            forall|i: int| 0 <= i < done ==> (#[trigger] parts@[i])@ == setter_text(setters@[i]@),
        decreases setters@.len() - done,
    {
        parts.push(render_setter(&setters[done]));
        done += 1;
    }
    assert(models(parts@) =~= setter_texts(models(setters@)));
    let mut text = String::from_str("impl ");
    text.append(builder);
    text.append(" ");
    text.append(brace(join(&parts, " ").as_str()).as_str());
    text
}

/// Writes a whole artifact.
pub fn render_artifact(artifact: &GeneratedArtifact) -> (text: String)
    ensures
        text@ == artifact_text(artifact@),
{
    let mut text = render_builder(&artifact.builder);
    text.append("\n");
    text.append(render_factory(&artifact.factory).as_str());
    text.append("\n");
    text.append(render_setters(artifact.builder.name.as_str(), &artifact.setters).as_str());
    text.append("\n");
    text
}

} // verus!
