use builder::artifact::{FactoryOperation, InitializerClause, SetterOperation, TypeExpression};
use builder::instance::{BuilderInstance, Slot};

fn factory_for(fields: &[&str]) -> FactoryOperation {
    FactoryOperation {
        origin: "Person".to_string(),
        name: "builder".to_string(),
        builder: "PersonBuilder".to_string(),
        clauses: fields.iter().map(|field| InitializerClause { field: field.to_string() }).collect(),
    }
}

fn setter_for(field: &str, declared_type: &str) -> SetterOperation {
    SetterOperation {
        name: field.to_string(),
        parameter: field.to_string(),
        parameter_type: TypeExpression::Declared(declared_type.to_string()),
        field: field.to_string(),
    }
}

fn slot(field: &str, state: Option<i64>) -> Slot<i64> {
    Slot { field: field.to_string(), state }
}

#[test]
fn factory_yields_every_field_absent() {
    let builder: BuilderInstance<i64> = factory_for(&["a", "b", "c"]).invoke();
    assert_eq!(
        builder,
        BuilderInstance { slots: vec![slot("a", None), slot("b", None), slot("c", None)] }
    );
}

#[test]
fn factory_without_clauses_yields_an_empty_builder() {
    let builder: BuilderInstance<i64> = factory_for(&[]).invoke();
    assert!(builder.slots.is_empty());
}

#[test]
fn factory_yields_a_new_builder_each_time() {
    let factory = factory_for(&["a"]);
    let mut first: BuilderInstance<i64> = factory.invoke();
    first.apply(&setter_for("a", "i64"), 1);
    let second: BuilderInstance<i64> = factory.invoke();
    assert_eq!(second, BuilderInstance { slots: vec![slot("a", None)] });
    assert_eq!(first, BuilderInstance { slots: vec![slot("a", Some(1))] });
}

#[test]
fn setter_assigns_its_field_and_no_other() {
    let mut builder: BuilderInstance<i64> = factory_for(&["a", "b", "c"]).invoke();
    builder.apply(&setter_for("b", "i64"), 5);
    assert_eq!(
        builder,
        BuilderInstance { slots: vec![slot("a", None), slot("b", Some(5)), slot("c", None)] }
    );
    builder.apply(&setter_for("c", "i64"), 6);
    assert_eq!(
        builder,
        BuilderInstance { slots: vec![slot("a", None), slot("b", Some(5)), slot("c", Some(6))] }
    );
    builder.apply(&setter_for("a", "i64"), 4);
    assert_eq!(
        builder,
        BuilderInstance { slots: vec![slot("a", Some(4)), slot("b", Some(5)), slot("c", Some(6))] }
    );
}

#[test]
fn setter_overwrites_what_the_field_held() {
    let mut builder: BuilderInstance<i64> = factory_for(&["a", "b"]).invoke();
    builder.apply(&setter_for("a", "i64"), 1);
    builder.apply(&setter_for("a", "i64"), 2);
    assert_eq!(builder, BuilderInstance { slots: vec![slot("a", Some(2)), slot("b", None)] });

    let mut once: BuilderInstance<i64> = factory_for(&["a", "b"]).invoke();
    once.apply(&setter_for("a", "i64"), 2);
    assert_eq!(builder, once);
}

#[test]
fn setter_does_not_combine_values() {
    let mut builder: BuilderInstance<Vec<i64>> = factory_for(&["items"]).invoke();
    let setter = setter_for("items", "Vec<i64>");
    builder.apply(&setter, vec![1, 2]);
    builder.apply(&setter, vec![3]);
    assert_eq!(builder.slots[0].state, Some(vec![3]));
}

#[test]
fn setter_keeps_a_zero_like_value_present() {
    let mut builder: BuilderInstance<i64> = factory_for(&["a"]).invoke();
    builder.apply(&setter_for("a", "i64"), 0);
    assert_eq!(builder.slots[0].state, Some(0));
    assert_ne!(builder.slots[0].state, None);
}

#[test]
fn setters_chain_on_one_expression() {
    let mut builder: BuilderInstance<i64> = factory_for(&["a", "b", "c"]).invoke();
    builder
        .apply(&setter_for("c", "i64"), 3)
        .apply(&setter_for("a", "i64"), 1)
        .apply(&setter_for("c", "i64"), 30);
    assert_eq!(
        builder,
        BuilderInstance { slots: vec![slot("a", Some(1)), slot("b", None), slot("c", Some(30))] }
    );
}

#[test]
fn setter_returns_its_receiver() {
    let mut builder: BuilderInstance<i64> = factory_for(&["a"]).invoke();
    let receiver = builder.apply(&setter_for("a", "i64"), 9);
    assert_eq!(receiver.slots, vec![slot("a", Some(9))]);
    receiver.slots[0].state = None;
    assert_eq!(builder.slots, vec![slot("a", None)]);
}

#[test]
fn setter_leaves_a_builder_without_its_field_alone() {
    let mut builder: BuilderInstance<i64> = factory_for(&["a", "b"]).invoke();
    builder.apply(&setter_for("a", "i64"), 1);
    builder.apply(&setter_for("missing", "i64"), 7);
    assert_eq!(builder, BuilderInstance { slots: vec![slot("a", Some(1)), slot("b", None)] });
}

#[test]
fn setter_assigns_the_first_field_of_its_name() {
    let mut builder = BuilderInstance { slots: vec![slot("a", None), slot("b", None), slot("b", None)] };
    builder.apply(&setter_for("b", "i64"), 8);
    assert_eq!(
        builder,
        BuilderInstance { slots: vec![slot("a", None), slot("b", Some(8)), slot("b", None)] }
    );
}

#[test]
fn setter_goes_by_the_field_it_assigns_not_by_its_name() {
    let mut builder: BuilderInstance<i64> = factory_for(&["a", "b"]).invoke();
    let setter = SetterOperation {
        name: "a".to_string(),
        parameter: "value".to_string(),
        parameter_type: TypeExpression::Declared("i64".to_string()),
        field: "b".to_string(),
    };
    builder.apply(&setter, 2);
    assert_eq!(builder, BuilderInstance { slots: vec![slot("a", None), slot("b", Some(2))] });
}
