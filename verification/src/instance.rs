//! What the generated operations do: the builder that the factory yields,
//! and the effect of a setter on a builder.
//!
//! A builder is held as its fields in declaration order, each under its
//! identifier and either absent or present with a value. The values are of
//! any one type `T`; no operation looks into them.

use crate::artifact::{FactoryModel, FactoryOperation, SetterModel, SetterOperation};
use crate::model::models;
use vstd::prelude::*;

verus! {

/// One field of a builder: its identifier, and its state, which is absent
/// (`None`) or present with a value (`Some`).
#[derive(Debug, PartialEq, Eq)]
pub struct Slot<T> {
    /// The field's identifier.
    pub field: String,
    /// The field's state.
    pub state: Option<T>,
}

/// The mathematical model of a [`Slot`].
pub ghost struct SlotModel<T> {
    pub field: Seq<char>,
    pub state: Option<T>,
}

impl<T> View for Slot<T> {
    type V = SlotModel<T>;

    open spec fn view(&self) -> SlotModel<T> {
        SlotModel { field: self.field@, state: self.state }
    }
}

/// A value of a generated builder type. Its model is the sequence of the
/// models of its fields.
#[derive(Debug, PartialEq, Eq)]
pub struct BuilderInstance<T> {
    /// The fields, in declaration order.
    pub slots: Vec<Slot<T>>,
}

impl<T> View for BuilderInstance<T> {
    type V = Seq<SlotModel<T>>;

    open spec fn view(&self) -> Seq<SlotModel<T>> {
        models(self.slots@)
    }
}

/// The builder that a factory yields: one field for each clause, in the
/// order of the clauses, under the clause's identifier and absent.
pub open spec fn fresh_builder<T>(factory: FactoryModel) -> Seq<SlotModel<T>> {
    Seq::new(
        factory.clauses.len(),
        |i: int| SlotModel { field: factory.clauses[i].field, state: None },
    )
}

/// `position` is where the builder holds the field `field`: the first place
/// under that identifier.
pub open spec fn holds_at<T>(builder: Seq<SlotModel<T>>, field: Seq<char>, position: int) -> bool {
    &&& 0 <= position < builder.len()
    &&& builder[position].field == field
    &&& forall|i: int| 0 <= i < position ==> (#[trigger] builder[i]).field != field
}

/// The builder after a setter has run on it with `value`: the field that the
/// setter assigns is present with `value`, whatever it held before, and every
/// other field is as it was. A builder without that field is left as it is.
pub open spec fn after_setter<T>(builder: Seq<SlotModel<T>>, setter: SetterModel, value: T) -> Seq<
    SlotModel<T>,
> {
    if exists|position: int| holds_at(builder, setter.field, position) {
        let position = choose|position: int| holds_at(builder, setter.field, position);
        builder.update(position, SlotModel { field: setter.field, state: Some(value) })
    } else {
        builder
    }
}

impl FactoryOperation {
    /// Runs the factory: returns a new builder with every field absent.
    pub fn invoke<T>(&self) -> (builder: BuilderInstance<T>)
        ensures
            builder@ == fresh_builder::<T>(self@),
    {
        let mut slots: Vec<Slot<T>> = Vec::new();
        let mut done: usize = 0;
        while done < self.clauses.len()
            invariant
                done <= self.clauses@.len(),
                slots@.len() == done,
                forall|i: int|
                    0 <= i < done ==> (#[trigger] slots@[i])@ == (SlotModel::<T> {
                        field: self.clauses@[i].field@,
                        state: None,
                    }),
            decreases self.clauses@.len() - done,
        {
            slots.push(Slot { field: self.clauses[done].field.clone(), state: None });
            done += 1;
        }
        let builder = BuilderInstance { slots };
        builder
    }
}

impl<T> BuilderInstance<T> {
    /// Runs a setter on this builder with `value`, and returns the builder
    /// itself, on which the next setter can run.
    pub fn apply(&mut self, setter: &SetterOperation, value: T) -> (receiver: &mut Self)
        ensures
            *final(self) == *final(receiver),
            receiver@ == after_setter(old(self)@, setter@, value),
    {
        let count: usize = self.slots.len();
        let mut position: usize = 0;
        while position < count && !(self.slots[position].field == setter.field)
            invariant
                *self == *old(self),
                count == self.slots@.len(),
                position <= count,
                forall|i: int|
                    0 <= i < position ==> (#[trigger] self@[i]).field != setter@.field,
            decreases count - position,
        {
            position += 1;
        }
        if position < count {
            assert(holds_at(old(self)@, setter@.field, position as int));
            self.slots[position].state = Some(value);
        }
        self
    }
}

} // verus!
