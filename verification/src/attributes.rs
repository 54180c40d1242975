//! The annotations on the declaration, read in declared order into the
//! settings of the generator.

use crate::error::TransformError;
use crate::nested::{create_nested_names_map, paired_names, texts, NestedNames};
use crate::schema::{
    Annotation, AnnotationView, ListElement, ListElementView, Literal, LiteralView, StructSchema,
    StructSchemaView,
};
use crate::text::same_text;
use vstd::prelude::*;
use vstd::string::*;

verus! {

/// Whether `name` is one of the three flags that the generator knows.
pub open spec fn known_flag(name: Seq<char>) -> bool {
    name == "opt_lenient"@ || name == "opt_skip_serializing_none"@ || name == "opt_some_priority"@
}

/// Whether `name` is one of the three lists that the generator knows.
pub open spec fn known_list(name: Seq<char>) -> bool {
    name == "optional_derive"@ || name == "opt_nested_generated"@ || name == "opt_nested_original"@
}

/// Whether every element of a list is a bare identifier.
pub open spec fn all_words(elements: Seq<ListElementView>) -> bool {
    forall|i: int| 0 <= i < elements.len() ==> elements[i] is Word
}

/// The identifiers of a list whose elements are all bare identifiers.
pub open spec fn words_of(elements: Seq<ListElementView>) -> Seq<Seq<char>> {
    elements.map_values(|e: ListElementView| e->Word_0)
}

/// The identifier that a list element is, if it is one.
pub fn nested_meta_item_to_ident(nested_item: &ListElement) -> (ident: Result<
    &String,
    TransformError,
>)
    ensures
        match ident {
            Ok(name) => nested_item@ == ListElementView::Word(name@),
            Err(e) => nested_item@ is Other && e == TransformError::InvalidListElement,
        },
{
    match nested_item {
        ListElement::Word(name) => Ok(name),
        ListElement::Other => Err(TransformError::InvalidListElement),
    }
}

/// The identifiers of a list, in its order, or the refusal of the first
/// element that is none.
pub fn list_idents(values: &Vec<ListElement>) -> (idents: Result<Vec<String>, TransformError>)
    ensures
        match idents {
            Ok(names) => all_words(values@.map_values(|e: ListElement| e@)) && texts(names@)
                == words_of(values@.map_values(|e: ListElement| e@)),
            Err(e) => !all_words(values@.map_values(|e: ListElement| e@)) && e
                == TransformError::InvalidListElement,
        },
{
    let ghost all = values@.map_values(|e: ListElement| e@);
    let mut names: Vec<String> = Vec::new();
    let mut i: usize = 0;
    while i < values.len()
        invariant
            i <= values@.len(),
            all == values@.map_values(|e: ListElement| e@),
            names@.len() == i,
            forall|k: int| 0 <= k < i ==> all[k] == ListElementView::Word(#[trigger] names@[k]@),
        decreases values@.len() - i,
    {
        match nested_meta_item_to_ident(&values[i]) {
            Ok(name) => {
                names.push(name.clone());
            },
            Err(e) => {
                assert(all[i as int] is Other);
                return Err(e);
            },
        }
        i += 1;
    }
    assert forall|k: int| 0 <= k < all.len() implies all[k] is Word by {
        assert(all[k] == ListElementView::Word(names@[k]@));
    }
    assert(texts(names@) =~= words_of(all));
    Ok(names)
}

/// Reads a flag: sets the setting that it names. A flag of another name is
/// passed over where `lenient` is set by then, and refused where it is not.
pub fn handle_name(
    name: &String,
    lenient: &mut bool,
    skip_serializing_none: &mut bool,
    some_priority: &mut bool,
) -> (outcome: Result<(), TransformError>)
    ensures
        outcome is Ok <==> known_flag(name@) || *old(lenient),
        outcome is Err ==> outcome == Err::<(), TransformError>(
            TransformError::UnrecognizedAnnotation,
        ),
        *final(lenient) == (*old(lenient) || name@ == "opt_lenient"@),
        *final(skip_serializing_none) == (*old(skip_serializing_none) || name@
            == "opt_skip_serializing_none"@),
        *final(some_priority) == (*old(some_priority) || name@ == "opt_some_priority"@),
{
    proof {
        reveal_strlit("opt_lenient");
        reveal_strlit("opt_skip_serializing_none");
        reveal_strlit("opt_some_priority");
        assert("opt_lenient"@.len() == 11);
        assert("opt_skip_serializing_none"@.len() == 25);
        assert("opt_some_priority"@.len() == 17);
    }
    if same_text(name.as_str(), "opt_lenient") {
        *lenient = true;
    } else if same_text(name.as_str(), "opt_skip_serializing_none") {
        *skip_serializing_none = true;
    } else if same_text(name.as_str(), "opt_some_priority") {
        *some_priority = true;
    } else if !*lenient {
        return Err(TransformError::UnrecognizedAnnotation);
    }
    Ok(())
}

/// What reading a list leaves of a list of names: `words` behind `before`
/// where `gathers`, `before` alone where not.
pub open spec fn gathered(gathers: bool, before: Seq<Seq<char>>, words: Seq<Seq<char>>) -> Seq<
    Seq<char>,
> {
    if gathers {
        before + words
    } else {
        before
    }
}

/// How the reading of a list annotation ends: a list of a known name wants
/// bare identifiers only, and a list of another name wants `lenient` set.
pub open spec fn list_outcome(
    name: Seq<char>,
    elements: Seq<ListElementView>,
    lenient: bool,
) -> Result<(), TransformError> {
    if known_list(name) {
        if all_words(elements) {
            Ok(())
        } else {
            Err(TransformError::InvalidListElement)
        }
    } else if lenient {
        Ok(())
    } else {
        Err(TransformError::UnrecognizedAnnotation)
    }
}

/// Reads a list annotation. The derive list takes the place of an earlier
/// one; the two lists of nested names grow by what the annotation holds. A
/// list that is refused changes nothing.
pub fn handle_list(
    name: &String,
    values: &Vec<ListElement>,
    nested_original: &mut Vec<String>,
    nested_generated: &mut Vec<String>,
    derives: &mut Vec<String>,
    lenient: bool,
) -> (outcome: Result<(), TransformError>)
    ensures
        outcome == list_outcome(name@, values@.map_values(|e: ListElement| e@), lenient),
        texts(final(derives)@) == if outcome is Ok && name@ == "optional_derive"@ {
            words_of(values@.map_values(|e: ListElement| e@))
        } else {
            texts(old(derives)@)
        },
        texts(final(nested_generated)@) == gathered(
            outcome is Ok && name@ == "opt_nested_generated"@,
            texts(old(nested_generated)@),
            words_of(values@.map_values(|e: ListElement| e@)),
        ),
        texts(final(nested_original)@) == gathered(
            outcome is Ok && name@ == "opt_nested_original"@,
            texts(old(nested_original)@),
            words_of(values@.map_values(|e: ListElement| e@)),
        ),
{
    proof {
        reveal_strlit("optional_derive");
        reveal_strlit("opt_nested_generated");
        reveal_strlit("opt_nested_original");
        assert("optional_derive"@.len() == 15);
        assert("opt_nested_generated"@.len() == 20);
        assert("opt_nested_original"@.len() == 19);
    }
    let derive = same_text(name.as_str(), "optional_derive");
    let generated = same_text(name.as_str(), "opt_nested_generated");
    let original = same_text(name.as_str(), "opt_nested_original");
    if !(derive || generated || original) {
        if lenient {
            return Ok(());
        }
        return Err(TransformError::UnrecognizedAnnotation);
    }
    let mut idents = match list_idents(values) {
        Ok(idents) => idents,
        Err(e) => {
            return Err(e);
        },
    };
    if derive {
        *derives = idents;
    } else if generated {
        let ghost before = texts(nested_generated@);
        let ghost added = texts(idents@);
        nested_generated.append(&mut idents);
        assert(texts(nested_generated@) =~= before + added);
    } else {
        let ghost before = texts(nested_original@);
        let ghost added = texts(idents@);
        nested_original.append(&mut idents);
        assert(texts(nested_original@) =~= before + added);
    }
    Ok(())
}

/// How the reading of a `name = value` annotation ends: the value must be a
/// string, and the name `optional_name` or `doc`.
pub open spec fn name_value_outcome(name: Seq<char>, value: LiteralView) -> Result<
    (),
    TransformError,
> {
    match value {
        LiteralView::Str(_) => if name == "doc"@ || name == "optional_name"@ {
            Ok(())
        } else {
            Err(TransformError::UnrecognizedAnnotation)
        },
        LiteralView::Other => Err(TransformError::InvalidRenameValue),
    }
}

/// Reads a `name = value` annotation: `optional_name` names the companion
/// type, and documentation is passed over.
pub fn handle_name_value(name: &String, value: &Literal, struct_name: &mut String) -> (outcome:
    Result<(), TransformError>)
    ensures
        outcome == name_value_outcome(name@, value@),
        final(struct_name)@ == if outcome is Ok && name@ == "optional_name"@ {
            value@->Str_0
        } else {
            old(struct_name)@
        },
{
    proof {
        reveal_strlit("doc");
        reveal_strlit("optional_name");
        assert("doc"@.len() == 3);
        assert("optional_name"@.len() == 13);
    }
    match value {
        Literal::Str(name_value) => {
            if same_text(name.as_str(), "doc") {
                Ok(())
            } else if same_text(name.as_str(), "optional_name") {
                *struct_name = name_value.clone();
                Ok(())
            } else {
                Err(TransformError::UnrecognizedAnnotation)
            }
        },
        Literal::Other => Err(TransformError::InvalidRenameValue),
    }
}

/// What the annotations read so far have settled.
pub struct Settings {
    /// The name of the companion type.
    pub struct_name: Seq<char>,
    /// The traits to derive on the companion type, in declared order.
    pub derives: Seq<Seq<char>>,
    /// The record types that have a companion of their own.
    pub nested_original: Seq<Seq<char>>,
    /// The names of those companions, place by place.
    pub nested_generated: Seq<Seq<char>>,
    pub lenient: bool,
    pub skip_serializing_none: bool,
    pub some_priority: bool,
}

/// The settings before any annotation is read: the companion of `name` is
/// called `Optional` and `name`, and nothing else is set.
pub open spec fn starting(name: Seq<char>) -> Settings {
    Settings {
        struct_name: "Optional"@ + name,
        derives: Seq::empty(),
        nested_original: Seq::empty(),
        nested_generated: Seq::empty(),
        lenient: false,
        skip_serializing_none: false,
        some_priority: false,
    }
}

/// The settings after one more annotation, or the reason for which it is
/// refused.
pub open spec fn read(settings: Settings, annotation: AnnotationView) -> Result<
    Settings,
    TransformError,
> {
    match annotation {
        AnnotationView::Flag { name } => if known_flag(name) || settings.lenient {
            Ok(
                Settings {
                    lenient: settings.lenient || name == "opt_lenient"@,
                    skip_serializing_none: settings.skip_serializing_none || name
                        == "opt_skip_serializing_none"@,
                    some_priority: settings.some_priority || name == "opt_some_priority"@,
                    ..settings
                },
            )
        } else {
            Err(TransformError::UnrecognizedAnnotation)
        },
        AnnotationView::NameValue { name, value } => match name_value_outcome(name, value) {
            Ok(_) => Ok(
                Settings {
                    struct_name: if name == "optional_name"@ {
                        value->Str_0
                    } else {
                        settings.struct_name
                    },
                    ..settings
                },
            ),
            Err(e) => Err(e),
        },
        AnnotationView::List { name, elements } => match list_outcome(
            name,
            elements,
            settings.lenient,
        ) {
            Ok(_) => Ok(
                Settings {
                    derives: if name == "optional_derive"@ {
                        words_of(elements)
                    } else {
                        settings.derives
                    },
                    nested_generated: gathered(
                        name == "opt_nested_generated"@,
                        settings.nested_generated,
                        words_of(elements),
                    ),
                    nested_original: gathered(
                        name == "opt_nested_original"@,
                        settings.nested_original,
                        words_of(elements),
                    ),
                    ..settings
                },
            ),
            Err(e) => Err(e),
        },
    }
}

/// The settings after all of `annotations`, read in their order, or the
/// reason for which the first of them that is refused is refused.
pub open spec fn read_all(settings: Settings, annotations: Seq<AnnotationView>) -> Result<
    Settings,
    TransformError,
>
    decreases annotations.len(),
{
    if annotations.len() == 0 {
        Ok(settings)
    } else {
        match read(settings, annotations.first()) {
            Ok(next) => read_all(next, annotations.drop_first()),
            Err(e) => Err(e),
        }
    }
}

/// The settings that the generator works by.
pub struct Data {
    /// The name of the record type.
    pub original_struct_name: String,
    /// The name of the companion type.
    pub optional_struct_name: String,
    /// The traits to derive on the companion type, in declared order.
    pub derives: Vec<String>,
    /// Whether annotations of an unknown name were passed over.
    pub lenient: bool,
    /// The record types that have a companion of their own.
    pub nested_names: NestedNames,
    /// Whether an absent field is left out of serialized output.
    pub skip_serializing_none: bool,
    /// Whether an absent value leaves a present optional field as it is.
    pub some_priority: bool,
}

pub struct DataView {
    pub original_struct_name: Seq<char>,
    pub optional_struct_name: Seq<char>,
    pub derives: Seq<Seq<char>>,
    pub lenient: bool,
    pub nested_names: Map<Seq<char>, Seq<char>>,
    pub skip_serializing_none: bool,
    pub some_priority: bool,
}

impl View for Data {
    type V = DataView;

    open spec fn view(&self) -> DataView {
        DataView {
            original_struct_name: self.original_struct_name@,
            optional_struct_name: self.optional_struct_name@,
            derives: texts(self.derives@),
            lenient: self.lenient,
            nested_names: self.nested_names@,
            skip_serializing_none: self.skip_serializing_none,
            some_priority: self.some_priority,
        }
    }
}

impl Data {
    /// The settings, taken apart: the two names, the derive list, the nested
    /// names, and the two flags that shape the fields.
    pub fn explode(self) -> (parts: (String, String, Vec<String>, NestedNames, bool, bool))
        ensures
            parts.0@ == self@.original_struct_name,
            parts.1@ == self@.optional_struct_name,
            texts(parts.2@) == self@.derives,
            parts.3@ == self@.nested_names,
            parts.4 == self@.skip_serializing_none,
            parts.5 == self@.some_priority,
    {
        (
            self.original_struct_name,
            self.optional_struct_name,
            self.derives,
            self.nested_names,
            self.skip_serializing_none,
            self.some_priority,
        )
    }
}

/// The settings that the annotations of a declaration come to, or the reason
/// for which one of them is refused.
pub open spec fn parsed(schema: StructSchemaView) -> Result<DataView, TransformError> {
    match read_all(starting(schema.name), schema.annotations) {
        Ok(settings) => Ok(
            DataView {
                original_struct_name: schema.name,
                optional_struct_name: settings.struct_name,
                derives: settings.derives,
                lenient: settings.lenient,
                nested_names: paired_names(settings.nested_original, settings.nested_generated),
                skip_serializing_none: settings.skip_serializing_none,
                some_priority: settings.some_priority,
            },
        ),
        Err(e) => Err(e),
    }
}

/// Reads the annotations of a declaration in declared order. A later
/// annotation of a kind overrides or extends an earlier one, and the first
/// one that is refused ends the reading.
pub fn parse_attributes(ast: &StructSchema) -> (outcome: Result<Data, TransformError>)
    ensures
        match parsed(ast@) {
            Ok(data) => outcome is Ok && outcome->Ok_0@ == data,
            Err(e) => outcome is Err && outcome->Err_0 == e,
        },
{
    let original_struct_name = ast.name.clone();
    let mut struct_name = String::from_str("Optional");
    struct_name.append(ast.name.as_str());
    let mut derives: Vec<String> = Vec::new();
    let mut nested_generated: Vec<String> = Vec::new();
    let mut nested_original: Vec<String> = Vec::new();
    let mut lenient = false;
    let mut skip_serializing_none = false;
    let mut some_priority = false;

    let ghost all = ast@.annotations;
    assert(texts(derives@) =~= Seq::<Seq<char>>::empty());
    assert(texts(nested_generated@) =~= Seq::<Seq<char>>::empty());
    assert(texts(nested_original@) =~= Seq::<Seq<char>>::empty());
    assert(all.skip(0) =~= all);
    let mut i: usize = 0;
    while i < ast.annotations.len()
        invariant
            i <= ast.annotations@.len(),
            all == ast@.annotations,
            read_all(starting(ast@.name), all) == read_all(
                Settings {
                    struct_name: struct_name@,
                    derives: texts(derives@),
                    nested_original: texts(nested_original@),
                    nested_generated: texts(nested_generated@),
                    lenient,
                    skip_serializing_none,
                    some_priority,
                },
                all.skip(i as int),
            ),
        decreases ast.annotations@.len() - i,
    {
        proof {
            assert(all.skip(i as int).first() == ast.annotations@[i as int]@);
            assert(all.skip(i as int).drop_first() =~= all.skip(i + 1));
        }
        let outcome = match &ast.annotations[i] {
            Annotation::Flag { name } => handle_name(
                name,
                &mut lenient,
                &mut skip_serializing_none,
                &mut some_priority,
            ),
            Annotation::NameValue { name, value } => handle_name_value(
                name,
                value,
                &mut struct_name,
            ),
            Annotation::List { name, elements } => handle_list(
                name,
                elements,
                &mut nested_original,
                &mut nested_generated,
                &mut derives,
                lenient,
            ),
        };
        if let Err(e) = outcome {
            return Err(e);
        }
        i += 1;
    }
    Ok(
        Data {
            original_struct_name,
            optional_struct_name: struct_name,
            derives,
            lenient,
            nested_names: create_nested_names_map(nested_original, nested_generated),
            skip_serializing_none,
            some_priority,
        },
    )
}

/// Reading two runs of annotations one after the other is reading the first
/// and then, from where it ends, the second.
pub proof fn lemma_read_all_in_two(
    settings: Settings,
    first: Seq<AnnotationView>,
    second: Seq<AnnotationView>,
)
    ensures
        read_all(settings, first + second) == match read_all(settings, first) {
            Ok(between) => read_all(between, second),
            Err(e) => Err(e),
        },
    decreases first.len(),
{
    if first.len() == 0 {
        assert(first + second =~= second);
    } else {
        assert((first + second).first() == first.first());
        assert((first + second).drop_first() =~= first.drop_first() + second);
        if let Ok(next) = read(settings, first.first()) {
            lemma_read_all_in_two(next, first.drop_first(), second);
        }
    }
}

/// Whether the flag `opt_lenient` stands among `annotations`.
pub open spec fn has_lenient(annotations: Seq<AnnotationView>) -> bool {
    exists|j: int|
        0 <= j < annotations.len() && annotations[j] == (AnnotationView::Flag {
            name: "opt_lenient"@,
        })
}

/// After a run of annotations that were all accepted, `lenient` is set where
/// it was set before or the flag `opt_lenient` stands in the run, and nowhere
/// else.
pub proof fn lemma_lenient_comes_from_its_flag(settings: Settings, annotations: Seq<AnnotationView>)
    requires
        read_all(settings, annotations) is Ok,
    ensures
        read_all(settings, annotations)->Ok_0.lenient == (settings.lenient || has_lenient(
            annotations,
        )),
    decreases annotations.len(),
{
    if annotations.len() > 0 {
        let next = read(settings, annotations.first())->Ok_0;
        let rest = annotations.drop_first();
        lemma_lenient_comes_from_its_flag(next, rest);
        let flag = AnnotationView::Flag { name: "opt_lenient"@ };
        if has_lenient(rest) {
            let j = choose|j: int| 0 <= j < rest.len() && rest[j] == flag;
            assert(annotations[j + 1] == flag);
        }
        if has_lenient(annotations) {
            let j = choose|j: int| 0 <= j < annotations.len() && annotations[j] == flag;
            if j > 0 {
                assert(rest[j - 1] == flag);
            }
        }
        if annotations.first() == flag {
            assert(annotations[0] == flag);
        }
    }
}

/// The declaration without the annotation at place `k`.
pub open spec fn without_annotation(schema: StructSchemaView, k: int) -> StructSchemaView {
    StructSchemaView {
        annotations: schema.annotations.take(k) + schema.annotations.skip(k + 1),
        ..schema
    }
}

/// A flag of an unknown name that stands behind the flag `opt_lenient` is
/// passed over: the declaration is read as if the unknown flag were not
/// there.
pub proof fn law_lenient_passes_unknown_flag(schema: StructSchemaView, k: int)
    requires
        0 <= k < schema.annotations.len(),
        schema.annotations[k] is Flag,
        !known_flag(schema.annotations[k]->Flag_name),
        has_lenient(schema.annotations.take(k)),
    ensures
        parsed(schema) == parsed(without_annotation(schema, k)),
{
    let all = schema.annotations;
    let start = starting(schema.name);
    let one = seq![all[k]];
    assert(all =~= all.take(k) + (one + all.skip(k + 1)));
    lemma_read_all_in_two(start, all.take(k), one + all.skip(k + 1));
    lemma_read_all_in_two(start, all.take(k), all.skip(k + 1));
    if let Ok(between) = read_all(start, all.take(k)) {
        lemma_lenient_comes_from_its_flag(start, all.take(k));
        lemma_read_all_in_two(between, one, all.skip(k + 1));
        assert(one.first() == all[k]);
        assert(read(between, all[k]) == Ok::<Settings, TransformError>(between));
        assert(read_all(between, one.drop_first()) == Ok::<Settings, TransformError>(between));
        assert(read_all(between, one) == Ok::<Settings, TransformError>(between));
    }
}

/// A flag of an unknown name is refused where the flag `opt_lenient` does
/// not stand before it: the declaration is turned down, and for the unknown
/// name where every annotation before the flag is accepted.
pub proof fn law_unknown_flag_refused(schema: StructSchemaView, k: int)
    requires
        0 <= k < schema.annotations.len(),
        schema.annotations[k] is Flag,
        !known_flag(schema.annotations[k]->Flag_name),
        !has_lenient(schema.annotations.take(k)),
    ensures
        parsed(schema) is Err,
        read_all(starting(schema.name), schema.annotations.take(k)) is Ok ==> parsed(schema)
            == Err::<DataView, TransformError>(TransformError::UnrecognizedAnnotation),
{
    let all = schema.annotations;
    let start = starting(schema.name);
    let rest = seq![all[k]] + all.skip(k + 1);
    assert(all =~= all.take(k) + rest);
    lemma_read_all_in_two(start, all.take(k), rest);
    if let Ok(between) = read_all(start, all.take(k)) {
        lemma_lenient_comes_from_its_flag(start, all.take(k));
        assert(rest.first() == all[k]);
    }
}

} // verus!
