//! Structural descriptions of type definitions, as a host toolchain supplies them.
//!
//! A description names the type, says which shape its definition has, lists
//! the fields where they are named, and carries the host's reference to the
//! place of the definition in the source.

use crate::model::models;
use vstd::prelude::*;

verus! {

/// One named, typed field of a record definition.
#[derive(Debug, PartialEq, Eq)]
pub struct FieldDescriptor {
    /// The field's name.
    pub identifier: String,
    /// The field's declared type, as the host wrote it.
    pub declared_type: String,
}

/// The mathematical model of a [`FieldDescriptor`].
pub ghost struct FieldModel {
    pub identifier: Seq<char>,
    pub declared_type: Seq<char>,
}

impl View for FieldDescriptor {
    type V = FieldModel;

    open spec fn view(&self) -> FieldModel {
        FieldModel { identifier: self.identifier@, declared_type: self.declared_type@ }
    }
}

impl FieldDescriptor {
    /// Describes the field `identifier: declared_type`.
    pub fn new(identifier: &str, declared_type: &str) -> (field: FieldDescriptor)
        ensures
            field@ == (FieldModel { identifier: identifier@, declared_type: declared_type@ }),
    {
        FieldDescriptor {
            identifier: String::from_str(identifier),
            declared_type: String::from_str(declared_type),
        }
    }
}

impl Clone for FieldDescriptor {
    fn clone(&self) -> (copy: FieldDescriptor)
        ensures
            copy@ == self@,
    {
        FieldDescriptor {
            identifier: self.identifier.clone(),
            declared_type: self.declared_type.clone(),
        }
    }
}

/// No two fields of the list share an identifier.
pub open spec fn distinct_identifiers(fields: Seq<FieldModel>) -> bool {
    forall|i: int, j: int|
        0 <= i < j < fields.len() ==> (#[trigger] fields[i]).identifier != (
        #[trigger] fields[j]).identifier
}

/// Tells whether no two fields of the list share an identifier.
pub fn has_distinct_identifiers(fields: &Vec<FieldDescriptor>) -> (distinct: bool)
    ensures
        distinct == distinct_identifiers(models(fields@)),
{
    let count: usize = fields.len();
    let mut later: usize = 0;
    while later < count
        invariant
            count == fields@.len(),
            later <= count,
            forall|i: int, j: int|
                0 <= i < j < later ==> (#[trigger] fields@[i]).identifier@ != (
                #[trigger] fields@[j]).identifier@,
        decreases count - later,
    {
        let mut earlier: usize = 0;
        while earlier < later
            invariant
                count == fields@.len(),
                later < count,
                earlier <= later,
                forall|i: int|
                    0 <= i < earlier ==> (#[trigger] fields@[i]).identifier@
                        != fields@[later as int].identifier@,
            decreases later - earlier,
        {
            if fields[earlier].identifier == fields[later].identifier {
                proof {
                    let listed = models(fields@);
                    assert(listed[earlier as int].identifier == listed[later as int].identifier);
                }
                return false;
            }
            earlier += 1;
        }
        later += 1;
    }
    true
}

/// The shape of a type definition.
#[derive(Debug, PartialEq, Eq)]
pub enum DefinitionShape {
    /// A record whose fields are named, in declaration order. A record
    /// without any field, written with an empty field list, is of this shape.
    NamedRecord(Vec<FieldDescriptor>),
    /// A record whose fields are positional and have no names.
    PositionalRecord,
    /// A marker type: a definition without any field list.
    Marker,
    /// A sum type: a definition made of variants.
    SumType,
    /// An untagged union: named fields that share their storage.
    Union,
}

/// The mathematical model of a [`DefinitionShape`].
pub ghost enum ShapeModel {
    NamedRecord(Seq<FieldModel>),
    PositionalRecord,
    Marker,
    SumType,
    Union,
}

impl ShapeModel {
    /// A shape is well formed unless it lists two named fields under one identifier.
    pub open spec fn well_formed(self) -> bool {
        self matches ShapeModel::NamedRecord(fields) ==> distinct_identifiers(fields)
    }
}

impl View for DefinitionShape {
    type V = ShapeModel;

    open spec fn view(&self) -> ShapeModel {
        match self {
            DefinitionShape::NamedRecord(fields) => ShapeModel::NamedRecord(models(fields@)),
            DefinitionShape::PositionalRecord => ShapeModel::PositionalRecord,
            DefinitionShape::Marker => ShapeModel::Marker,
            DefinitionShape::SumType => ShapeModel::SumType,
            DefinitionShape::Union => ShapeModel::Union,
        }
    }
}

impl DefinitionShape {
    /// Tells whether the shape is well formed.
    pub fn is_well_formed(&self) -> (well_formed: bool)
        ensures
            well_formed == self@.well_formed(),
    {
        match self {
            DefinitionShape::NamedRecord(fields) => has_distinct_identifiers(fields),
            _ => true,
        }
    }
}

/// The description of one type definition: what a host toolchain hands over
/// after it has parsed the definition.
///
/// `L` is the host's reference to the definition's place in the source. The
/// crate never looks into it; it hands it back in a diagnostic.
///
/// Every value of this type is well formed: where the fields are named, no
/// two of them share an identifier.
#[derive(Debug)]
pub struct TypeDefinition<L> {
    name: String,
    shape: DefinitionShape,
    location: L,
}

/// The mathematical model of a [`TypeDefinition`].
pub ghost struct DefinitionModel<L> {
    pub name: Seq<char>,
    pub shape: ShapeModel,
    pub location: L,
}

impl<L> View for TypeDefinition<L> {
    type V = DefinitionModel<L>;

    closed spec fn view(&self) -> DefinitionModel<L> {
        DefinitionModel { name: self.name@, shape: self.shape@, location: self.location }
    }
}

impl<L> TypeDefinition<L> {
    #[verifier::type_invariant]
    spec fn shape_is_well_formed(&self) -> bool {
        self.shape@.well_formed()
    }

    /// Describes the definition of the type `name`, of the given shape, found
    /// at `location`. There is no such description where the shape is not
    /// well formed.
    pub fn new(name: &str, shape: DefinitionShape, location: L) -> (definition: Option<Self>)
        ensures
            definition is Some <==> shape@.well_formed(),
            definition matches Some(d) ==> d@ == (DefinitionModel {
                name: name@,
                shape: shape@,
                location,
            }),
    {
        if shape.is_well_formed() {
            Some(TypeDefinition { name: String::from_str(name), shape, location })
        } else {
            None
        }
    }

    /// The name of the defined type.
    pub fn name(&self) -> (name: &String)
        ensures
            name@ == self@.name,
    {
        &self.name
    }

    /// The shape of the definition.
    pub fn shape(&self) -> (shape: &DefinitionShape)
        ensures
            shape@ == self@.shape,
            shape@.well_formed(),
    {
        proof {
            use_type_invariant(self);
        }
        &self.shape
    }

    /// The host's reference to the definition's place in the source.
    pub fn location(&self) -> (location: &L)
        ensures
            *location == self@.location,
    {
        &self.location
    }
}

} // verus!
