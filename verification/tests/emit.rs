use optional_struct::attributes::parse_attributes;
use optional_struct::emit::{create_struct, derive_attribute};
use optional_struct::error::TransformError;
use optional_struct::schema::{
    Annotation, Body, FieldSchema, Generics, ListElement, Literal, StructSchema,
};
use optional_struct::{generate_optional_struct, optional_struct};

fn flag(name: &str) -> Annotation {
    Annotation::Flag { name: name.to_string() }
}

fn list(name: &str, words: &[&str]) -> Annotation {
    Annotation::List {
        name: name.to_string(),
        elements: words.iter().map(|w| ListElement::Word(w.to_string())).collect(),
    }
}

fn field(name: &str, ty: &str) -> FieldSchema {
    FieldSchema { name: name.to_string(), ty: ty.to_string(), annotations: Vec::new() }
}

fn record(name: &str, annotations: Vec<Annotation>, fields: Vec<FieldSchema>) -> StructSchema {
    StructSchema {
        name: name.to_string(),
        generics: Generics { declared: String::new(), applied: String::new() },
        annotations,
        body: Body::Named(fields),
    }
}

/// Source text as a token buffer holds it: the tokens, one space between two.
fn tokens(words: &[&str]) -> String {
    words.join(" ")
}

#[test]
fn derive_attribute_lists_the_traits() {
    assert_eq!(derive_attribute(&Vec::new()).as_str(), "");
    assert_eq!(derive_attribute(&vec!["Debug".to_string()]).as_str(), "# [ derive ( Debug , ) ]");
    assert_eq!(
        derive_attribute(&vec!["Debug".to_string(), "Clone".to_string()]).as_str(),
        "# [ derive ( Debug , Clone , ) ]"
    );
}

#[test]
fn a_record_with_every_kind_of_field() {
    let schema = record(
        "Config",
        vec![
            list("opt_nested_original", &["Inner"]),
            list("opt_nested_generated", &["InnerPatch"]),
        ],
        vec![field("count", "u32"), field("label", "Option < String >"), field("inner", "Inner")],
    );
    let expected = tokens(&[
        "pub", "struct", "OptionalConfig", "{",
        "pub", "count", ":", "Option", "<", "u32", ">", ",",
        "pub", "label", ":", "Option", "<", "String", ">", ",",
        "pub", "inner", ":", "InnerPatch", ",",
        "}",
        "impl", "Config", "{",
        "pub", "fn", "apply_options", "(", "&", "mut", "self", ",", "optional_struct", ":",
        "OptionalConfig", ")", "{",
        "if", "let", "Some", "(", "attribute", ")", "=", "optional_struct", ".", "count", "{",
        "self", ".", "count", "=", "attribute", ";", "}",
        "self", ".", "label", "=", "optional_struct", ".", "label", ";",
        "self", ".", "inner", ".", "apply_options", "(", "optional_struct", ".", "inner", ")", ";",
        "}", "}",
        "impl", "OptionalConfig", "{",
        "pub", "fn", "empty", "(", ")", "->", "OptionalConfig", "{",
        "OptionalConfig", "{",
        "count", ":", "None", ",",
        "label", ":", "None", ",",
        "inner", ":", "InnerPatch", "::", "empty", "(", ")", ",",
        "}", "}", "}",
    ]);
    assert_eq!(optional_struct(&schema), Ok(expected));
}

#[test]
fn the_all_absent_value_names_every_field_as_absent() {
    let schema = record(
        "Pair",
        vec![flag("opt_some_priority")],
        vec![field("left", "u8"), field("right", "Option < u8 >")],
    );
    let code = optional_struct(&schema).unwrap();
    assert!(code.ends_with(
        "impl OptionalPair { pub fn empty ( ) -> OptionalPair { \
         OptionalPair { left : None , right : None , } } }"
    ));
    assert!(code.contains(
        "if let Some ( attribute ) = optional_struct . left { self . left = attribute ; } \
         if let Some ( attribute ) = optional_struct . right { self . right . replace ( attribute ) ; }"
    ));
}

#[test]
fn a_record_without_fields() {
    let expected = tokens(&[
        "pub", "struct", "OptionalNothing", "{", "}",
        "impl", "Nothing", "{",
        "pub", "fn", "apply_options", "(", "&", "mut", "self", ",", "optional_struct", ":",
        "OptionalNothing", ")", "{", "}", "}",
        "impl", "OptionalNothing", "{",
        "pub", "fn", "empty", "(", ")", "->", "OptionalNothing", "{", "OptionalNothing", "{", "}",
        "}", "}",
    ]);
    assert_eq!(optional_struct(&record("Nothing", Vec::new(), Vec::new())), Ok(expected));
}

#[test]
fn generic_parameters_go_along() {
    let mut schema = record("Wrapper", Vec::new(), vec![field("value", "T")]);
    schema.generics = Generics {
        declared: "< 'a , T : Clone + 'a >".to_string(),
        applied: "< 'a , T >".to_string(),
    };
    let expected = tokens(&[
        "pub", "struct", "OptionalWrapper", "<", "'a", ",", "T", ":", "Clone", "+", "'a", ">", "{",
        "pub", "value", ":", "Option", "<", "T", ">", ",",
        "}",
        "impl", "<", "'a", ",", "T", ":", "Clone", "+", "'a", ">", "Wrapper", "<", "'a", ",", "T", ">",
        "{",
        "pub", "fn", "apply_options", "(", "&", "mut", "self", ",", "optional_struct", ":",
        "OptionalWrapper", "<", "'a", ",", "T", ">", ")", "{",
        "if", "let", "Some", "(", "attribute", ")", "=", "optional_struct", ".", "value", "{",
        "self", ".", "value", "=", "attribute", ";", "}",
        "}", "}",
        "impl", "<", "'a", ",", "T", ":", "Clone", "+", "'a", ">", "OptionalWrapper", "<", "'a", ",",
        "T", ">", "{",
        "pub", "fn", "empty", "(", ")", "->", "OptionalWrapper", "<", "'a", ",", "T", ">", "{",
        "OptionalWrapper", "{", "value", ":", "None", ",", "}",
        "}", "}",
    ]);
    assert_eq!(optional_struct(&schema), Ok(expected));
}

#[test]
fn rename_and_derives_shape_the_type() {
    let schema = record(
        "Config",
        vec![
            list("optional_derive", &["Debug", "Clone"]),
            Annotation::NameValue {
                name: "optional_name".to_string(),
                value: Literal::Str("ConfigPatch".to_string()),
            },
        ],
        vec![field("port", "u16")],
    );
    let code = optional_struct(&schema).unwrap();
    assert!(code.starts_with(
        "# [ derive ( Debug , Clone , ) ] pub struct ConfigPatch { pub port : Option < u16 > , }"
    ));
    assert!(code.contains(
        "impl Config { pub fn apply_options ( & mut self , optional_struct : ConfigPatch ) {"
    ));
    assert!(code.contains("impl ConfigPatch { pub fn empty ( ) -> ConfigPatch { ConfigPatch {"));
}

#[test]
fn an_empty_derive_list_derives_nothing() {
    let schema = record("Config", vec![list("optional_derive", &[])], vec![field("port", "u16")]);
    let code = optional_struct(&schema).unwrap();
    assert!(code.starts_with("pub struct OptionalConfig {"));
}

#[test]
fn create_struct_puts_the_parts_together() {
    let schema = record("Config", vec![list("optional_derive", &["Debug"])], Vec::new());
    let data = parse_attributes(&schema).unwrap();
    let fields = vec![field("port", "u16")];
    let generics = Generics { declared: "< T >".to_string(), applied: "< T >".to_string() };
    let code = create_struct(&fields, data, &generics);
    assert_eq!(
        code.as_str(),
        "# [ derive ( Debug , ) ] pub struct OptionalConfig < T > { pub port : Option < u16 > , } \
         impl < T > Config < T > { \
         pub fn apply_options ( & mut self , optional_struct : OptionalConfig < T > ) { \
         if let Some ( attribute ) = optional_struct . port { self . port = attribute ; } } } \
         impl < T > OptionalConfig < T > { \
         pub fn empty ( ) -> OptionalConfig < T > { OptionalConfig { port : None , } } }"
    );
}

#[test]
fn other_shapes_are_turned_down() {
    for body in [Body::Tuple, Body::Unit, Body::Enum] {
        let mut schema = record("Config", Vec::new(), Vec::new());
        schema.body = body;
        assert_eq!(optional_struct(&schema), Err(TransformError::UnsupportedShape));
        assert_eq!(generate_optional_struct(&schema).err(), Some(TransformError::UnsupportedShape));
    }
}

#[test]
fn the_shape_is_looked_at_before_the_annotations() {
    let annotations = || {
        vec![
            flag("mystery"),
            Annotation::NameValue { name: "optional_name".to_string(), value: Literal::Other },
            Annotation::List { name: "optional_derive".to_string(), elements: vec![ListElement::Other] },
        ]
    };
    for body in [Body::Tuple, Body::Unit, Body::Enum] {
        let mut schema = record("Config", annotations(), Vec::new());
        schema.body = body;
        assert_eq!(optional_struct(&schema), Err(TransformError::UnsupportedShape));
    }
    let schema = record("Config", annotations(), Vec::new());
    assert_eq!(optional_struct(&schema), Err(TransformError::UnrecognizedAnnotation));
}

#[test]
fn lenient_lets_an_unknown_flag_pass() {
    let fields = || vec![field("port", "u16")];
    let with = record("Config", vec![flag("opt_lenient"), flag("mystery")], fields());
    let without = record("Config", vec![flag("opt_lenient")], fields());
    assert_eq!(optional_struct(&with), optional_struct(&without));
    assert!(optional_struct(&with).is_ok());

    let strict = record("Config", vec![flag("mystery")], fields());
    assert_eq!(optional_struct(&strict), Err(TransformError::UnrecognizedAnnotation));
    let late = record("Config", vec![flag("mystery"), flag("opt_lenient")], fields());
    assert_eq!(optional_struct(&late), Err(TransformError::UnrecognizedAnnotation));
}

#[test]
fn refusals_reach_the_caller() {
    let fields = || vec![field("port", "u16")];
    let schema = record(
        "Config",
        vec![Annotation::List {
            name: "optional_derive".to_string(),
            elements: vec![ListElement::Other],
        }],
        fields(),
    );
    assert_eq!(optional_struct(&schema), Err(TransformError::InvalidListElement));
    let schema = record(
        "Config",
        vec![Annotation::NameValue { name: "optional_name".to_string(), value: Literal::Other }],
        fields(),
    );
    assert_eq!(optional_struct(&schema), Err(TransformError::InvalidRenameValue));
}

#[test]
fn tokens_and_text_agree() {
    let schema = record("Config", vec![flag("opt_skip_serializing_none")], vec![field("port", "u16")]);
    let tokens = generate_optional_struct(&schema).unwrap();
    assert_eq!(tokens.as_str(), optional_struct(&schema).unwrap());
    assert!(tokens.as_str().starts_with("pub struct OptionalConfig { # [ serde ("));
}
