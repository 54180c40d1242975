//! The generated code: the companion type, the method that merges a companion
//! value into the record, and the constructor of the all-absent value.

use crate::attributes::{
    has_lenient, known_flag, law_lenient_passes_unknown_flag, law_unknown_flag_refused,
    parse_attributes, parsed, read_all, starting, without_annotation, Data, DataView,
};
use crate::error::TransformError;
use crate::fields::{create_fields, declarations_text, empties_text, merges_text};
use crate::nested::texts;
use crate::schema::{
    Body, BodyView, FieldSchema, FieldSchemaView, Generics, GenericsView, StructSchema,
    StructSchemaView,
};
use crate::tokens::{no_text, tokens_append, tokens_as_str, tokens_new, tokens_text, TokenText};
use quote::Tokens;
use vstd::prelude::*;

verus! {

/// The traits of a derive list, in their order, a comma behind each.
pub open spec fn derive_list_text(derives: Seq<Seq<char>>) -> Seq<char>
    decreases derives.len(),
{
    if derives.len() == 0 {
        no_text()
    } else {
        derive_list_text(derives.drop_last()).word(derives.last()).word(","@)
    }
}

/// The derive annotation of the companion type. There is none where no trait
/// is to be derived.
pub open spec fn derive_text(derives: Seq<Seq<char>>) -> Seq<char> {
    if derives.len() == 0 {
        no_text()
    } else {
        no_text().word("# [ derive ("@).word(derive_list_text(derives)).word(") ]"@)
    }
}

/// The declaration of the companion type around the declarations of its
/// fields. It takes the record's generic parameters as they were declared.
pub open spec fn type_text(
    data: DataView,
    generics: GenericsView,
    declarations: Seq<char>,
) -> Seq<char> {
    derive_text(data.derives).word("pub struct"@).word(data.optional_struct_name).word(
        generics.declared,
    ).word("{"@).word(declarations).word("}"@)
}

/// The method of the record type that merges a companion value into the
/// record, around the merge statements of the fields. It takes the companion
/// by value, changes the record in place and returns nothing.
pub open spec fn merge_method_text(
    data: DataView,
    generics: GenericsView,
    merges: Seq<char>,
) -> Seq<char> {
    no_text().word("impl"@).word(generics.declared).word(data.original_struct_name).word(
        generics.applied,
    ).word("{ pub fn apply_options ( & mut self , optional_struct :"@).word(
        data.optional_struct_name,
    ).word(generics.applied).word(") {"@).word(merges).word("} }"@)
}

/// The constructor of the all-absent companion value, around the fields'
/// places in it.
pub open spec fn empty_constructor_text(
    data: DataView,
    generics: GenericsView,
    empties: Seq<char>,
) -> Seq<char> {
    no_text().word("impl"@).word(generics.declared).word(data.optional_struct_name).word(
        generics.applied,
    ).word("{ pub fn empty ( ) ->"@).word(data.optional_struct_name).word(generics.applied).word(
        "{"@,
    ).word(data.optional_struct_name).word("{"@).word(empties).word("} } }"@)
}

/// All that is generated for a record with the given fields: the companion
/// type, the merge method and the constructor, in this order and with the
/// fields in theirs.
pub open spec fn struct_text(
    fields: Seq<FieldSchemaView>,
    data: DataView,
    generics: GenericsView,
) -> Seq<char> {
    type_text(
        data,
        generics,
        declarations_text(
            fields,
            data.nested_names,
            data.skip_serializing_none,
            data.some_priority,
        ),
    ).word(
        merge_method_text(
            data,
            generics,
            merges_text(fields, data.nested_names, data.skip_serializing_none, data.some_priority),
        ),
    ).word(
        empty_constructor_text(
            data,
            generics,
            empties_text(fields, data.nested_names, data.skip_serializing_none, data.some_priority),
        ),
    )
}

/// The derive annotation for the given traits.
pub fn derive_attribute(derives: &Vec<String>) -> (attribute: Tokens)
    ensures
        tokens_text(attribute) == derive_text(texts(derives@)),
{
    let mut attribute = tokens_new();
    if derives.len() == 0 {
        return attribute;
    }
    let ghost all = texts(derives@);
    let mut list = tokens_new();
    let mut i: usize = 0;
    while i < derives.len()
        invariant
            i <= derives@.len(),
            all == texts(derives@),
            tokens_text(list) == derive_list_text(all.take(i as int)),
        decreases derives@.len() - i,
    {
        proof {
            let now = all.take(i + 1);
            assert(now.drop_last() =~= all.take(i as int));
            assert(now.last() == derives@[i as int]@);
        }
        tokens_append(&mut list, derives[i].as_str());
        tokens_append(&mut list, ",");
        i += 1;
    }
    assert(all.take(i as int) =~= all);
    tokens_append(&mut attribute, "# [ derive (");
    tokens_append(&mut attribute, tokens_as_str(&list));
    tokens_append(&mut attribute, ") ]");
    attribute
}

/// Puts the generated code together from the settings and the fields.
pub fn create_struct(fields: &Vec<FieldSchema>, data: Data, generics: &Generics) -> (code: Tokens)
    ensures
        tokens_text(code) == struct_text(fields@.map_values(|f: FieldSchema| f@), data@, generics@),
{
    let ghost view = data@;
    let (
        original_struct_name,
        optional_struct_name,
        derives,
        nested_names,
        skip_serializing_none,
        some_priority,
    ) = data.explode();
    let (assigners, attributes, empty) = create_fields(
        fields,
        &nested_names,
        skip_serializing_none,
        some_priority,
    );
    let original = original_struct_name.as_str();
    let optional = optional_struct_name.as_str();
    let declared = generics.declared.as_str();
    let applied = generics.applied.as_str();

    let mut code = derive_attribute(&derives);
    tokens_append(&mut code, "pub struct");
    tokens_append(&mut code, optional);
    tokens_append(&mut code, declared);
    tokens_append(&mut code, "{");
    tokens_append(&mut code, tokens_as_str(&attributes));
    tokens_append(&mut code, "}");

    let mut merge = tokens_new();
    tokens_append(&mut merge, "impl");
    tokens_append(&mut merge, declared);
    tokens_append(&mut merge, original);
    tokens_append(&mut merge, applied);
    tokens_append(&mut merge, "{ pub fn apply_options ( & mut self , optional_struct :");
    tokens_append(&mut merge, optional);
    tokens_append(&mut merge, applied);
    tokens_append(&mut merge, ") {");
    tokens_append(&mut merge, tokens_as_str(&assigners));
    tokens_append(&mut merge, "} }");

    let mut constructor = tokens_new();
    tokens_append(&mut constructor, "impl");
    tokens_append(&mut constructor, declared);
    tokens_append(&mut constructor, optional);
    tokens_append(&mut constructor, applied);
    tokens_append(&mut constructor, "{ pub fn empty ( ) ->");
    tokens_append(&mut constructor, optional);
    tokens_append(&mut constructor, applied);
    tokens_append(&mut constructor, "{");
    tokens_append(&mut constructor, optional);
    tokens_append(&mut constructor, "{");
    tokens_append(&mut constructor, tokens_as_str(&empty));
    tokens_append(&mut constructor, "} } }");

    tokens_append(&mut code, tokens_as_str(&merge));
    tokens_append(&mut code, tokens_as_str(&constructor));
    code
}

/// What is generated for a declaration: the code for a struct with named
/// fields whose annotations are all accepted. Any other shape is turned down
/// before an annotation is read.
pub open spec fn generated(schema: StructSchemaView) -> Result<Seq<char>, TransformError> {
    match schema.body {
        BodyView::Named(fields) => match parsed(schema) {
            Ok(data) => Ok(struct_text(fields, data, schema.generics)),
            Err(e) => Err(e),
        },
        _ => Err(TransformError::UnsupportedShape),
    }
}

/// Generates the companion type of a declaration, with its merge method and
/// its constructor.
pub fn generate_optional_struct(ast: &StructSchema) -> (outcome: Result<Tokens, TransformError>)
    ensures
        match generated(ast@) {
            Ok(text) => outcome is Ok && tokens_text(outcome->Ok_0) == text,
            Err(e) => outcome is Err && outcome->Err_0 == e,
        },
{
    match &ast.body {
        Body::Named(fields) => {
            match parse_attributes(ast) {
                Ok(data) => Ok(create_struct(fields, data, &ast.generics)),
                Err(e) => Err(e),
            }
        },
        _ => Err(TransformError::UnsupportedShape),
    }
}

/// Generates the companion type of a declaration as source text.
pub fn optional_struct(input: &StructSchema) -> (outcome: Result<String, TransformError>)
    ensures
        match generated(input@) {
            Ok(text) => outcome is Ok && outcome->Ok_0@ == text,
            Err(e) => outcome is Err && outcome->Err_0 == e,
        },
{
    match generate_optional_struct(input) {
        Ok(code) => Ok(tokens_as_str(&code).to_owned()),
        Err(e) => Err(e),
    }
}

/// A declaration that is no struct with named fields is turned down as an
/// unsupported shape, whatever its annotations are.
pub proof fn law_unsupported_shape(schema: StructSchemaView)
    requires
        !(schema.body is Named),
    ensures
        generated(schema) == Err::<Seq<char>, TransformError>(TransformError::UnsupportedShape),
{
}

/// An unknown flag behind the flag `opt_lenient` does not stop the generator:
/// what is generated is what is generated without the unknown flag.
pub proof fn law_lenient_tolerance(schema: StructSchemaView, k: int)
    requires
        0 <= k < schema.annotations.len(),
        schema.annotations[k] is Flag,
        !known_flag(schema.annotations[k]->Flag_name),
        has_lenient(schema.annotations.take(k)),
    ensures
        generated(schema) == generated(without_annotation(schema, k)),
{
    law_lenient_passes_unknown_flag(schema, k);
}

/// An unknown flag without the flag `opt_lenient` before it stops the
/// generator: nothing is generated for a struct with named fields, and the
/// reason is the unknown name where the annotations before the flag are all
/// accepted.
pub proof fn law_unknown_flag_stops(schema: StructSchemaView, k: int)
    requires
        schema.body is Named,
        0 <= k < schema.annotations.len(),
        schema.annotations[k] is Flag,
        !known_flag(schema.annotations[k]->Flag_name),
        !has_lenient(schema.annotations.take(k)),
    ensures
        generated(schema) is Err,
        read_all(starting(schema.name), schema.annotations.take(k)) is Ok ==> generated(schema)
            == Err::<Seq<char>, TransformError>(TransformError::UnrecognizedAnnotation),
{
    law_unknown_flag_refused(schema, k);
}

} // verus!
