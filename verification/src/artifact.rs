//! The generated artifact: the declaration of the builder type, the factory
//! added to the origin type, and the setters added to the builder type, held
//! as structure and not as text.

use crate::model::models;
use vstd::prelude::*;

verus! {

/// A type as the artifact writes it.
#[derive(Debug, PartialEq, Eq)]
pub enum TypeExpression {
    /// A type of the origin record, as the host wrote it.
    Declared(String),
    /// The optional wrapper around a type of the origin record: a value of it
    /// is either absent or present with a value of that type.
    Optional(String),
}

/// The mathematical model of a [`TypeExpression`].
pub ghost enum TypeModel {
    Declared(Seq<char>),
    Optional(Seq<char>),
}

impl View for TypeExpression {
    type V = TypeModel;

    open spec fn view(&self) -> TypeModel {
        match self {
            TypeExpression::Declared(written) => TypeModel::Declared(written@),
            TypeExpression::Optional(wrapped) => TypeModel::Optional(wrapped@),
        }
    }
}

/// One field of the builder type.
#[derive(Debug, PartialEq, Eq)]
pub struct FieldDeclaration {
    /// The field's name.
    pub identifier: String,
    /// The field's type.
    pub declared_type: TypeExpression,
}

/// The mathematical model of a [`FieldDeclaration`].
pub ghost struct FieldDeclarationModel {
    pub identifier: Seq<char>,
    pub declared_type: TypeModel,
}

impl View for FieldDeclaration {
    type V = FieldDeclarationModel;

    open spec fn view(&self) -> FieldDeclarationModel {
        FieldDeclarationModel { identifier: self.identifier@, declared_type: self.declared_type@ }
    }
}

/// One clause of the factory: it starts the named field of the new builder
/// in the absent state.
#[derive(Debug, PartialEq, Eq)]
pub struct InitializerClause {
    /// The builder field that the clause initialises.
    pub field: String,
}

/// The mathematical model of an [`InitializerClause`].
pub ghost struct ClauseModel {
    pub field: Seq<char>,
}

impl View for InitializerClause {
    type V = ClauseModel;

    open spec fn view(&self) -> ClauseModel {
        ClauseModel { field: self.field@ }
    }
}

/// One setter of the builder type: an operation that takes one value, wraps
/// it as present, assigns it to one field of the receiving builder whatever
/// that field held, and returns the receiver.
#[derive(Debug, PartialEq, Eq)]
pub struct SetterOperation {
    /// The operation's name.
    pub name: String,
    /// The name of its one parameter.
    pub parameter: String,
    /// The type of its one parameter.
    pub parameter_type: TypeExpression,
    /// The builder field that it assigns.
    pub field: String,
}

/// The mathematical model of a [`SetterOperation`].
pub ghost struct SetterModel {
    pub name: Seq<char>,
    pub parameter: Seq<char>,
    pub parameter_type: TypeModel,
    pub field: Seq<char>,
}

impl View for SetterOperation {
    type V = SetterModel;

    open spec fn view(&self) -> SetterModel {
        SetterModel {
            name: self.name@,
            parameter: self.parameter@,
            parameter_type: self.parameter_type@,
            field: self.field@,
        }
    }
}

/// The declaration of the builder type.
#[derive(Debug, PartialEq, Eq)]
pub struct BuilderDeclaration {
    /// The name of the builder type.
    pub name: String,
    /// Its fields, in declaration order.
    pub fields: Vec<FieldDeclaration>,
}

/// The mathematical model of a [`BuilderDeclaration`].
pub ghost struct BuilderModel {
    pub name: Seq<char>,
    pub fields: Seq<FieldDeclarationModel>,
}

impl View for BuilderDeclaration {
    type V = BuilderModel;

    open spec fn view(&self) -> BuilderModel {
        BuilderModel { name: self.name@, fields: models(self.fields@) }
    }
}

/// The factory: an operation without arguments, added to the origin type,
/// that returns a new builder.
#[derive(Debug, PartialEq, Eq)]
pub struct FactoryOperation {
    /// The type that the operation is added to.
    pub origin: String,
    /// The operation's name.
    pub name: String,
    /// The name of the builder type, of which it returns a value.
    pub builder: String,
    /// One clause for each field of the new builder, in declaration order.
    pub clauses: Vec<InitializerClause>,
}

/// The mathematical model of a [`FactoryOperation`].
pub ghost struct FactoryModel {
    pub origin: Seq<char>,
    pub name: Seq<char>,
    pub builder: Seq<char>,
    pub clauses: Seq<ClauseModel>,
}

impl View for FactoryOperation {
    type V = FactoryModel;

    open spec fn view(&self) -> FactoryModel {
        FactoryModel {
            origin: self.origin@,
            name: self.name@,
            builder: self.builder@,
            clauses: models(self.clauses@),
        }
    }
}

/// All that is generated for one record.
#[derive(Debug, PartialEq, Eq)]
pub struct GeneratedArtifact {
    /// The declaration of the builder type.
    pub builder: BuilderDeclaration,
    /// The factory added to the origin type.
    pub factory: FactoryOperation,
    /// The setters added to the builder type, one for each field, in
    /// declaration order.
    pub setters: Vec<SetterOperation>,
}

/// The mathematical model of a [`GeneratedArtifact`].
pub ghost struct ArtifactModel {
    pub builder: BuilderModel,
    pub factory: FactoryModel,
    pub setters: Seq<SetterModel>,
}

impl View for GeneratedArtifact {
    type V = ArtifactModel;

    open spec fn view(&self) -> ArtifactModel {
        ArtifactModel {
            builder: self.builder@,
            factory: self.factory@,
            setters: models(self.setters@),
        }
    }
}

} // verus!
