use builder::definition::{DefinitionShape, FieldDescriptor, TypeDefinition};
use builder::do_expand;
use quote::ToTokens;
use std::str::FromStr;

fn parse(source: &str) -> syn::DeriveInput {
    syn::parse_str(source).unwrap()
}

fn describe(parsed: &syn::DeriveInput) -> Option<TypeDefinition<&syn::DeriveInput>> {
    let shape = match &parsed.data {
        syn::Data::Struct(data) => match &data.fields {
            syn::Fields::Named(fields) => DefinitionShape::NamedRecord(
                fields
                    .named
                    .iter()
                    .map(|field| {
                        FieldDescriptor::new(
                            &field.ident.as_ref().unwrap().to_string(),
                            &field.ty.to_token_stream().to_string(),
                        )
                    })
                    .collect(),
            ),
            syn::Fields::Unnamed(_) => DefinitionShape::PositionalRecord,
            syn::Fields::Unit => DefinitionShape::Marker,
        },
        syn::Data::Enum(_) => DefinitionShape::SumType,
        syn::Data::Union(_) => DefinitionShape::Union,
    };
    TypeDefinition::new(&parsed.ident.to_string(), shape, parsed)
}

fn token_text(text: &str) -> String {
    proc_macro2::TokenStream::from_str(text).unwrap().to_string()
}

#[test]
fn parsed_record_gives_its_builder() {
    let parsed = parse(
        "pub struct Command {
            executable: String,
            args: Vec<String>,
            env: Vec<String>,
            current_dir: Option<String>,
        }",
    );
    let definition = describe(&parsed).unwrap();
    let text = builder::derive(&definition).unwrap();
    let written = "
        pub struct CommandBuilder {
            executable: std::option::Option<String>,
            args: std::option::Option<Vec<String>>,
            env: std::option::Option<Vec<String>>,
            current_dir: std::option::Option<Option<String>>
        }
        impl Command {
            pub fn builder() -> CommandBuilder {
                CommandBuilder {
                    executable: std::option::Option::None,
                    args: std::option::Option::None,
                    env: std::option::Option::None,
                    current_dir: std::option::Option::None
                }
            }
        }
        impl CommandBuilder {
            fn executable(&mut self, executable: String) -> &mut Self {
                self.executable = std::option::Option::Some(executable);
                self
            }
            fn args(&mut self, args: Vec<String>) -> &mut Self {
                self.args = std::option::Option::Some(args);
                self
            }
            fn env(&mut self, env: Vec<String>) -> &mut Self {
                self.env = std::option::Option::Some(env);
                self
            }
            fn current_dir(&mut self, current_dir: Option<String>) -> &mut Self {
                self.current_dir = std::option::Option::Some(current_dir);
                self
            }
        }
    ";
    assert_eq!(token_text(&text), token_text(written));
}

#[test]
fn parsed_record_without_fields_gives_an_empty_builder() {
    let parsed = parse("struct Nothing {}");
    let definition = describe(&parsed).unwrap();
    let artifact = do_expand(&definition).unwrap();
    assert_eq!(artifact.builder.name, "NothingBuilder");
    assert!(artifact.builder.fields.is_empty());
    assert!(artifact.setters.is_empty());
    let text = builder::derive(&definition).unwrap();
    let written = "
        pub struct NothingBuilder {}
        impl Nothing { pub fn builder() -> NothingBuilder { NothingBuilder {} } }
        impl NothingBuilder {}
    ";
    assert_eq!(token_text(&text), token_text(written));
}

#[test]
fn parsed_builder_declaration_has_the_fields_of_the_record() {
    let parsed = parse("struct Point { x: i32, y: i32, label: Option<String> }");
    let definition = describe(&parsed).unwrap();
    let text = builder::derive(&definition).unwrap();
    let declaration = parse(text.lines().next().unwrap());
    assert_eq!(declaration.ident.to_string(), "PointBuilder");
    let fields = match &declaration.data {
        syn::Data::Struct(syn::DataStruct { fields: syn::Fields::Named(named), .. }) => {
            &named.named
        }
        _ => panic!("the builder is no record with named fields"),
    };
    let listed: Vec<(String, syn::Type)> = fields
        .iter()
        .map(|field| (field.ident.as_ref().unwrap().to_string(), field.ty.clone()))
        .collect();
    let expected: Vec<(String, syn::Type)> = vec![
        ("x".to_string(), syn::parse_str("std::option::Option<i32>").unwrap()),
        ("y".to_string(), syn::parse_str("std::option::Option<i32>").unwrap()),
        ("label".to_string(), syn::parse_str("std::option::Option<Option<String>>").unwrap()),
    ];
    assert_eq!(listed, expected);
}

#[test]
fn parsed_sum_type_is_rejected_at_its_definition() {
    let parsed = parse("enum Colour { Red, Green }");
    let definition = describe(&parsed).unwrap();
    let error = do_expand(&definition).unwrap_err();
    assert_eq!(error.message, "Must define on a Struct, not Enum");
    assert!(std::ptr::eq(error.location, &parsed));
}

#[test]
fn parsed_positional_record_is_rejected() {
    let parsed = parse("struct Pair(u8, u8);");
    let definition = describe(&parsed).unwrap();
    let error = builder::derive(&definition).unwrap_err();
    assert_eq!(error.message, "Must define on a Struct, not Enum");
    assert!(std::ptr::eq(error.location, &parsed));
}

#[test]
fn parsed_marker_type_is_rejected() {
    let parsed = parse("struct Token;");
    let definition = describe(&parsed).unwrap();
    let error = builder::derive(&definition).unwrap_err();
    assert_eq!(error.message, "Must define on a Struct, not Enum");
}

#[test]
fn parsed_union_is_rejected() {
    let parsed = parse("union Bits { whole: u32, parts: [u8; 4] }");
    let definition = describe(&parsed).unwrap();
    let error = builder::derive(&definition).unwrap_err();
    assert_eq!(error.message, "Must define on a Struct, not Enum");
}

#[test]
fn parsed_record_with_a_repeated_field_has_no_description() {
    let parsed = parse("struct Twice { x: u8, y: u8, x: u16 }");
    assert!(describe(&parsed).is_none());
}
