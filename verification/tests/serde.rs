use optional_struct::error::TransformError;
use optional_struct::optional_struct;
use optional_struct::schema::{
    Annotation, Body, FieldAnnotation, FieldSchema, Generics, ListElement, Literal, StructSchema,
};
use quote::{ToTokens, Tokens};
use serde_json::Value;
use syn::{Attribute, DeriveInput, Field, ItemKind, Lit, MetaItem, NestedMetaItem, VariantData};

const DATA: &str = r#"
    #[optional_derive(Serialize)]
    #[opt_skip_serializing_none]
    struct Data {
        #[opt_passthrough]
        #[serde(rename = "new_key")]
        test: Option<String>,
    }
"#;

fn source<T: ToTokens>(node: &T) -> String {
    let mut tokens = Tokens::new();
    node.to_tokens(&mut tokens);
    tokens.to_string()
}

fn annotation(item: &MetaItem) -> Annotation {
    match *item {
        MetaItem::Word(ref name) => Annotation::Flag { name: name.to_string() },
        MetaItem::NameValue(ref name, ref value) => Annotation::NameValue {
            name: name.to_string(),
            value: match *value {
                Lit::Str(ref text, _) => Literal::Str(text.clone()),
                _ => Literal::Other,
            },
        },
        MetaItem::List(ref name, ref values) => Annotation::List {
            name: name.to_string(),
            elements: values
                .iter()
                .map(|value| match *value {
                    NestedMetaItem::MetaItem(MetaItem::Word(ref ident)) => {
                        ListElement::Word(ident.to_string())
                    }
                    _ => ListElement::Other,
                })
                .collect(),
        },
    }
}

fn field(field: &Field) -> FieldSchema {
    FieldSchema {
        name: field.ident.clone().unwrap().to_string(),
        ty: source(&field.ty),
        annotations: field
            .attrs
            .iter()
            .map(|attr| FieldAnnotation { value: annotation(&attr.value), source: source(attr) })
            .collect(),
    }
}

fn schema(ast: &DeriveInput) -> StructSchema {
    let (_, applied, _) = ast.generics.split_for_impl();
    StructSchema {
        name: ast.ident.to_string(),
        generics: Generics { declared: source(&ast.generics), applied: source(&applied) },
        annotations: ast.attrs.iter().map(|attr| annotation(&attr.value)).collect(),
        body: match ast.body {
            syn::Body::Struct(VariantData::Struct(ref fields)) => {
                Body::Named(fields.iter().map(field).collect())
            }
            syn::Body::Struct(VariantData::Tuple(_)) => Body::Tuple,
            syn::Body::Struct(VariantData::Unit) => Body::Unit,
            syn::Body::Enum(_) => Body::Enum,
        },
    }
}

/// The string that a `name = "value"` entry of a field's `serde` annotations
/// gives for `name`.
fn directive(attrs: &[Attribute], name: &str) -> Option<String> {
    for attr in attrs {
        if let MetaItem::List(ref list, ref entries) = attr.value {
            if list != "serde" {
                continue;
            }
            for entry in entries {
                if let NestedMetaItem::MetaItem(MetaItem::NameValue(ref key, Lit::Str(ref value, _))) =
                    *entry
                {
                    if key == name {
                        return Some(value.clone());
                    }
                }
            }
        }
    }
    None
}

/// What `Serialize`, derived on the declaration of a companion type, writes for
/// a value of it: each field under its name or the name that `rename` gives,
/// and no absent field that bears `skip_serializing_if = "Option::is_none"`.
fn to_string(fields: &[Field], values: &[(&str, Option<String>)]) -> String {
    let mut record = serde_json::Map::new();
    for field in fields {
        let name = field.ident.clone().unwrap().to_string();
        let value = values.iter().find(|(field, _)| *field == name).unwrap().1.clone();
        let key = directive(&field.attrs, "rename").unwrap_or(name);
        let skips_none =
            directive(&field.attrs, "skip_serializing_if").as_deref() == Some("Option::is_none");
        match value {
            Some(text) => {
                record.insert(key, Value::String(text));
            }
            None if skips_none => {}
            None => {
                record.insert(key, Value::Null);
            }
        }
    }
    serde_json::to_string(&Value::Object(record)).unwrap()
}

fn named_fields(code: &str) -> Vec<Field> {
    let items = syn::parse_items(code).unwrap();
    match items[0].node {
        ItemKind::Struct(VariantData::Struct(ref fields), _) => fields.clone(),
        _ => panic!("the companion type is a struct with named fields"),
    }
}

#[test]
fn test_serde() {
    let code = optional_struct(&schema(&syn::parse_derive_input(DATA).unwrap())).unwrap();
    let fields = named_fields(&code);

    let data = [("test", Some("value".into()))];

    assert_eq!(to_string(&fields, &data), "{\"new_key\":\"value\"}");

    let data = [("test", None)];

    assert_eq!(to_string(&fields, &data), "{}");
}

#[test]
fn without_the_skip_flag_an_absent_value_is_written() {
    let declaration = DATA.replace("#[opt_skip_serializing_none]", "");
    let code = optional_struct(&schema(&syn::parse_derive_input(&declaration).unwrap())).unwrap();
    let fields = named_fields(&code);
    assert_eq!(to_string(&fields, &[("test", Some("value".into()))]), "{\"new_key\":\"value\"}");
    assert_eq!(to_string(&fields, &[("test", None)]), "{\"new_key\":null}");
}

#[test]
fn without_the_mark_the_rename_stays_behind() {
    let declaration = DATA.replace("#[opt_passthrough]", "");
    let code = optional_struct(&schema(&syn::parse_derive_input(&declaration).unwrap())).unwrap();
    let fields = named_fields(&code);
    assert_eq!(to_string(&fields, &[("test", Some("value".into()))]), "{\"test\":\"value\"}");
    assert_eq!(to_string(&fields, &[("test", None)]), "{}");
}

#[test]
fn the_generated_text_of_the_declaration() {
    let code = optional_struct(&schema(&syn::parse_derive_input(DATA).unwrap())).unwrap();
    assert_eq!(
        code,
        "# [ derive ( Serialize , ) ] \
         pub struct OptionalData { \
         # [ serde ( rename = \"new_key\" ) ] \
         # [ serde ( skip_serializing_if = \"Option::is_none\" ) ] \
         pub test : Option < String > , \
         } \
         impl Data { \
         pub fn apply_options ( & mut self , optional_struct : OptionalData ) { \
         self . test = optional_struct . test ; \
         } \
         } \
         impl OptionalData { \
         pub fn empty ( ) -> OptionalData { \
         OptionalData { test : None , } \
         } \
         }"
    );
}

#[test]
fn the_generated_code_is_three_items() {
    let declaration = r#"
        /// A record with every kind of field.
        #[optional_name = "Patch"]
        #[optional_derive(Debug, Clone)]
        #[opt_nested_original(Inner)]
        #[opt_nested_generated(InnerPatch)]
        #[opt_some_priority]
        pub struct Record<'a, T: Clone + 'a> where T: Default {
            plain: &'a T,
            maybe: Option<Vec<T>>,
            inner: Inner,
        }
    "#;
    let code = optional_struct(&schema(&syn::parse_derive_input(declaration).unwrap())).unwrap();
    let items = syn::parse_items(&code).unwrap();
    assert_eq!(items.len(), 3);

    assert_eq!(items[0].ident, "Patch");
    assert_eq!(items[0].attrs.len(), 1);
    assert_eq!(source(&items[0].attrs[0]), "# [ derive ( Debug , Clone ) ]");
    match items[0].node {
        ItemKind::Struct(VariantData::Struct(ref fields), ref generics) => {
            assert_eq!(source(generics), "< 'a , T : Clone + 'a >");
            let fields: Vec<(String, String)> = fields
                .iter()
                .map(|field| (field.ident.clone().unwrap().to_string(), source(&field.ty)))
                .collect();
            assert_eq!(
                fields,
                vec![
                    ("plain".to_string(), "Option < & 'a T >".to_string()),
                    ("maybe".to_string(), "Option < Vec < T > >".to_string()),
                    ("inner".to_string(), "InnerPatch".to_string()),
                ]
            );
        }
        _ => panic!("the first item is the companion type"),
    }
    match items[1].node {
        ItemKind::Impl(_, _, ref generics, None, ref target, ref methods) => {
            assert_eq!(source(generics), "< 'a , T : Clone + 'a >");
            assert_eq!(source(&**target), "Record < 'a , T >");
            assert_eq!(methods.len(), 1);
            assert_eq!(methods[0].ident, "apply_options");
        }
        _ => panic!("the second item holds the merge method"),
    }
    match items[2].node {
        ItemKind::Impl(_, _, _, None, ref target, ref methods) => {
            assert_eq!(source(&**target), "Patch < 'a , T >");
            assert_eq!(methods.len(), 1);
            assert_eq!(methods[0].ident, "empty");
        }
        _ => panic!("the third item holds the constructor"),
    }
}

#[test]
fn tuple_and_unit_declarations_are_turned_down() {
    for declaration in [
        "#[opt_lenient] struct Pair(u8, u8);",
        "struct Nothing;",
        "#[optional_name = 5] struct Pair(u8);",
        "#[mystery] enum Either { Left, Right }",
    ] {
        let ast = syn::parse_derive_input(declaration).unwrap();
        assert_eq!(optional_struct(&schema(&ast)), Err(TransformError::UnsupportedShape));
    }
}
