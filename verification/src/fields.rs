//! What becomes of each field: its declaration in the companion type, the
//! statement that merges it, and its place in the all-absent value.

use crate::nested::NestedNames;
use crate::schema::{
    Annotation, AnnotationView, FieldAnnotation, FieldAnnotationView, FieldSchema, FieldSchemaView,
};
use crate::text::{chars_of, same_text, starts_with, strip_blanks, without_blanks};
use crate::tokens::{no_text, tokens_append, tokens_as_str, tokens_new, tokens_text, TokenText};
use quote::Tokens;
use vstd::prelude::*;

verus! {

/// How a field of the record takes the value that the companion holds for it.
#[derive(Clone, Copy, Debug, PartialEq, Eq, Structural)]
pub enum MergeRule {
    /// The field is optional, and the companion's value takes its place,
    /// present or absent.
    Replace,
    /// The field is optional, and a present value of the companion takes its
    /// place; an absent one leaves the field as it is.
    Fill,
    /// The field is a record with a companion of its own, which is merged
    /// into it.
    Delegate,
    /// A present value of the companion is assigned to the field; an absent
    /// one leaves the field as it is.
    Assign,
}

/// Whether a type expression names the optional wrapper: its text, without
/// blanks, begins with `Option<`.
pub open spec fn is_optional(ty: Seq<char>) -> bool {
    "Option<"@.is_prefix_of(without_blanks(ty))
}

/// The rule for a field of type `ty`. An optional type goes before a nested
/// name, and a nested name before the plain case.
pub open spec fn rule_of(
    ty: Seq<char>,
    nested: Map<Seq<char>, Seq<char>>,
    some_priority: bool,
) -> MergeRule {
    if is_optional(ty) {
        if some_priority {
            MergeRule::Fill
        } else {
            MergeRule::Replace
        }
    } else if nested.contains_key(without_blanks(ty)) {
        MergeRule::Delegate
    } else {
        MergeRule::Assign
    }
}

/// The type of the companion's field: the optional type itself, the nested
/// companion, or the field's type inside the optional wrapper.
pub open spec fn generated_type(
    ty: Seq<char>,
    nested: Map<Seq<char>, Seq<char>>,
    some_priority: bool,
) -> Seq<char> {
    match rule_of(ty, nested, some_priority) {
        MergeRule::Replace | MergeRule::Fill => no_text().word(ty),
        MergeRule::Delegate => no_text().word(nested[without_blanks(ty)]),
        MergeRule::Assign => no_text().word("Option <"@).word(ty).word(">"@),
    }
}

/// Whether an annotation is the mark that passes the next one through.
pub open spec fn is_marker(annotation: AnnotationView) -> bool {
    annotation matches AnnotationView::Flag { name } && name == "opt_passthrough"@
}

/// Whether the annotation at place `i` is passed through: it is no mark, and
/// the one just before it is.
pub open spec fn passes_through(annotations: Seq<FieldAnnotationView>, i: int) -> bool {
    0 < i < annotations.len() && is_marker(annotations[i - 1].value) && !is_marker(
        annotations[i].value,
    )
}

/// The annotations that are passed through, in their order.
pub open spec fn passthrough_text(annotations: Seq<FieldAnnotationView>) -> Seq<char>
    decreases annotations.len(),
{
    if annotations.len() == 0 {
        no_text()
    } else {
        let before = passthrough_text(annotations.drop_last());
        if passes_through(annotations, annotations.len() - 1) {
            before.word(annotations.last().source)
        } else {
            before
        }
    }
}

/// The declaration of the companion's field: the annotations passed through,
/// the directive that leaves an absent value out of serialized output where
/// `skip` asks for it, then the field itself.
pub open spec fn declaration_text(
    field: FieldSchemaView,
    nested: Map<Seq<char>, Seq<char>>,
    skip: bool,
    some_priority: bool,
) -> Seq<char> {
    let passed = passthrough_text(field.annotations);
    let head = if skip {
        passed.word("# [ serde ( skip_serializing_if = \"Option::is_none\" ) ]"@)
    } else {
        passed
    };
    head.word("pub"@).word(field.name).word(":"@).word(
        generated_type(field.ty, nested, some_priority),
    ).word(","@)
}

/// The statement that merges the field `name` by `rule`.
pub open spec fn merge_text(rule: MergeRule, name: Seq<char>) -> Seq<char> {
    match rule {
        MergeRule::Replace => no_text().word("self ."@).word(name).word(
            "= optional_struct ."@,
        ).word(name).word(";"@),
        MergeRule::Fill => no_text().word("if let Some ( attribute ) = optional_struct ."@).word(
            name,
        ).word("{ self ."@).word(name).word(". replace ( attribute ) ; }"@),
        MergeRule::Delegate => no_text().word("self ."@).word(name).word(
            ". apply_options ( optional_struct ."@,
        ).word(name).word(") ;"@),
        MergeRule::Assign => no_text().word("if let Some ( attribute ) = optional_struct ."@).word(
            name,
        ).word("{ self ."@).word(name).word("= attribute ; }"@),
    }
}

/// The field `name` in the all-absent value: the all-absent value of the
/// nested companion under `Delegate`, else no value.
pub open spec fn empty_text(rule: MergeRule, name: Seq<char>, generated: Seq<char>) -> Seq<char> {
    match rule {
        MergeRule::Delegate => no_text().word(name).word(":"@).word(generated).word(
            ":: empty ( ) ,"@,
        ),
        _ => no_text().word(name).word(": None ,"@),
    }
}

/// What the generator makes of one field.
pub struct FieldPlan {
    /// How the field is merged.
    pub rule: MergeRule,
    /// The type of the companion's field.
    pub ty: Tokens,
    /// The field's declaration in the companion type.
    pub declaration: Tokens,
    /// The statement that merges the field.
    pub merge: Tokens,
    /// The field in the all-absent value.
    pub empty: Tokens,
}

pub struct FieldPlanView {
    pub rule: MergeRule,
    pub ty: Seq<char>,
    pub declaration: Seq<char>,
    pub merge: Seq<char>,
    pub empty: Seq<char>,
}

impl View for FieldPlan {
    type V = FieldPlanView;

    open spec fn view(&self) -> FieldPlanView {
        FieldPlanView {
            rule: self.rule,
            ty: tokens_text(self.ty),
            declaration: tokens_text(self.declaration),
            merge: tokens_text(self.merge),
            empty: tokens_text(self.empty),
        }
    }
}

/// The plan for a field under the given settings.
pub open spec fn plan_of(
    field: FieldSchemaView,
    nested: Map<Seq<char>, Seq<char>>,
    skip: bool,
    some_priority: bool,
) -> FieldPlanView {
    let rule = rule_of(field.ty, nested, some_priority);
    FieldPlanView {
        rule,
        ty: generated_type(field.ty, nested, some_priority),
        declaration: declaration_text(field, nested, skip, some_priority),
        merge: merge_text(rule, field.name),
        empty: empty_text(rule, field.name, generated_type(field.ty, nested, some_priority)),
    }
}

/// Whether `annotation` is the mark that passes the next one through.
pub fn marker(annotation: &Annotation) -> (yes: bool)
    ensures
        yes == is_marker(annotation@),
{
    match annotation {
        Annotation::Flag { name } => same_text(name.as_str(), "opt_passthrough"),
        _ => false,
    }
}

/// Copies the annotations that follow a mark. The scan is in one of two
/// states: armed, right after a mark, or waiting for one.
pub fn passthrough(annotations: &Vec<FieldAnnotation>) -> (passed: Tokens)
    ensures
        tokens_text(passed) == passthrough_text(annotations@.map_values(|a: FieldAnnotation| a@)),
{
    let ghost all = annotations@.map_values(|a: FieldAnnotation| a@);
    let mut passed = tokens_new();
    let mut armed = false;
    let mut i: usize = 0;
    while i < annotations.len()
        invariant
            i <= annotations@.len(),
            all == annotations@.map_values(|a: FieldAnnotation| a@),
            armed == (i > 0 && is_marker(all[i - 1].value)),
            tokens_text(passed) == passthrough_text(all.take(i as int)),
        decreases annotations@.len() - i,
    {
        proof {
            let now = all.take(i + 1);
            assert(now.drop_last() =~= all.take(i as int));
            assert(now.last() == all[i as int]);
            assert(i > 0 ==> now[i - 1] == all[i - 1]);
        }
        if marker(&annotations[i].value) {
            armed = true;
        } else if armed {
            tokens_append(&mut passed, annotations[i].source.as_str());
            armed = false;
        }
        i += 1;
    }
    assert(all.take(i as int) =~= all);
    passed
}

/// The statement that merges the field `name` by `rule`.
pub fn merge_statement(rule: MergeRule, name: &str) -> (statement: Tokens)
    ensures
        tokens_text(statement) == merge_text(rule, name@),
{
    let mut statement = tokens_new();
    match rule {
        MergeRule::Replace => {
            tokens_append(&mut statement, "self .");
            tokens_append(&mut statement, name);
            tokens_append(&mut statement, "= optional_struct .");
            tokens_append(&mut statement, name);
            tokens_append(&mut statement, ";");
        },
        MergeRule::Fill => {
            tokens_append(&mut statement, "if let Some ( attribute ) = optional_struct .");
            tokens_append(&mut statement, name);
            tokens_append(&mut statement, "{ self .");
            tokens_append(&mut statement, name);
            tokens_append(&mut statement, ". replace ( attribute ) ; }");
        },
        MergeRule::Delegate => {
            tokens_append(&mut statement, "self .");
            tokens_append(&mut statement, name);
            tokens_append(&mut statement, ". apply_options ( optional_struct .");
            tokens_append(&mut statement, name);
            tokens_append(&mut statement, ") ;");
        },
        MergeRule::Assign => {
            tokens_append(&mut statement, "if let Some ( attribute ) = optional_struct .");
            tokens_append(&mut statement, name);
            tokens_append(&mut statement, "{ self .");
            tokens_append(&mut statement, name);
            tokens_append(&mut statement, "= attribute ; }");
        },
    }
    statement
}

/// Decides what becomes of one field. The decision never fails: every field
/// has a declaration, a merge statement and a place in the all-absent value.
pub fn transform_field(
    field: &FieldSchema,
    nested_names: &NestedNames,
    skip_serializing_none: bool,
    some_priority: bool,
) -> (plan: FieldPlan)
    ensures
        plan@ == plan_of(field@, nested_names@, skip_serializing_none, some_priority),
{
    let bare = strip_blanks(field.ty.as_str());
    let wrapper = chars_of("Option<");
    let mut generated = tokens_new();
    let rule = if starts_with(&bare, &wrapper) {
        tokens_append(&mut generated, field.ty.as_str());
        if some_priority {
            MergeRule::Fill
        } else {
            MergeRule::Replace
        }
    } else {
        match nested_names.get(&bare) {
            Some(name) => {
                tokens_append(&mut generated, name.as_str());
                MergeRule::Delegate
            },
            None => {
                tokens_append(&mut generated, "Option <");
                tokens_append(&mut generated, field.ty.as_str());
                tokens_append(&mut generated, ">");
                MergeRule::Assign
            },
        }
    };

    let mut declaration = passthrough(&field.annotations);
    if skip_serializing_none {
        tokens_append(
            &mut declaration,
            "# [ serde ( skip_serializing_if = \"Option::is_none\" ) ]",
        );
    }
    tokens_append(&mut declaration, "pub");
    tokens_append(&mut declaration, field.name.as_str());
    tokens_append(&mut declaration, ":");
    tokens_append(&mut declaration, tokens_as_str(&generated));
    tokens_append(&mut declaration, ",");

    let mut empty = tokens_new();
    tokens_append(&mut empty, field.name.as_str());
    match rule {
        MergeRule::Delegate => {
            tokens_append(&mut empty, ":");
            tokens_append(&mut empty, tokens_as_str(&generated));
            tokens_append(&mut empty, ":: empty ( ) ,");
        },
        _ => {
            tokens_append(&mut empty, ": None ,");
        },
    }

    FieldPlan {
        rule,
        ty: generated,
        declaration,
        merge: merge_statement(rule, field.name.as_str()),
        empty,
    }
}

/// The plans' merge statements, in the order of the fields.
pub open spec fn merges_text(
    fields: Seq<FieldSchemaView>,
    nested: Map<Seq<char>, Seq<char>>,
    skip: bool,
    some_priority: bool,
) -> Seq<char>
    decreases fields.len(),
{
    if fields.len() == 0 {
        no_text()
    } else {
        merges_text(fields.drop_last(), nested, skip, some_priority).word(
            plan_of(fields.last(), nested, skip, some_priority).merge,
        )
    }
}

/// The plans' declarations, in the order of the fields.
pub open spec fn declarations_text(
    fields: Seq<FieldSchemaView>,
    nested: Map<Seq<char>, Seq<char>>,
    skip: bool,
    some_priority: bool,
) -> Seq<char>
    decreases fields.len(),
{
    if fields.len() == 0 {
        no_text()
    } else {
        declarations_text(fields.drop_last(), nested, skip, some_priority).word(
            plan_of(fields.last(), nested, skip, some_priority).declaration,
        )
    }
}

/// The plans' places in the all-absent value, in the order of the fields.
pub open spec fn empties_text(
    fields: Seq<FieldSchemaView>,
    nested: Map<Seq<char>, Seq<char>>,
    skip: bool,
    some_priority: bool,
) -> Seq<char>
    decreases fields.len(),
{
    if fields.len() == 0 {
        no_text()
    } else {
        empties_text(fields.drop_last(), nested, skip, some_priority).word(
            plan_of(fields.last(), nested, skip, some_priority).empty,
        )
    }
}

/// Plans every field and puts the plans' three parts in a row each: the merge
/// statements, the declarations, and the places in the all-absent value.
pub fn create_fields(
    fields: &Vec<FieldSchema>,
    nested_names: &NestedNames,
    skip_serializing_none: bool,
    some_priority: bool,
) -> (parts: (Tokens, Tokens, Tokens))
    ensures
        tokens_text(parts.0) == merges_text(
            fields@.map_values(|f: FieldSchema| f@),
            nested_names@,
            skip_serializing_none,
            some_priority,
        ),
        tokens_text(parts.1) == declarations_text(
            fields@.map_values(|f: FieldSchema| f@),
            nested_names@,
            skip_serializing_none,
            some_priority,
        ),
        tokens_text(parts.2) == empties_text(
            fields@.map_values(|f: FieldSchema| f@),
            nested_names@,
            skip_serializing_none,
            some_priority,
        ),
{
    let ghost all = fields@.map_values(|f: FieldSchema| f@);
    let ghost nested = nested_names@;
    let mut attributes = tokens_new();
    let mut assigners = tokens_new();
    let mut empty = tokens_new();
    let mut i: usize = 0;
    while i < fields.len()
        invariant
            i <= fields@.len(),
            all == fields@.map_values(|f: FieldSchema| f@),
            nested == nested_names@,
            tokens_text(assigners) == merges_text(
                all.take(i as int),
                nested,
                skip_serializing_none,
                some_priority,
            ),
            tokens_text(attributes) == declarations_text(
                all.take(i as int),
                nested,
                skip_serializing_none,
                some_priority,
            ),
            tokens_text(empty) == empties_text(
                all.take(i as int),
                nested,
                skip_serializing_none,
                some_priority,
            ),
        decreases fields@.len() - i,
    {
        proof {
            let now = all.take(i + 1);
            assert(now.drop_last() =~= all.take(i as int));
            assert(now.last() == fields@[i as int]@);
        }
        let plan = transform_field(&fields[i], nested_names, skip_serializing_none, some_priority);
        tokens_append(&mut assigners, tokens_as_str(&plan.merge));
        tokens_append(&mut attributes, tokens_as_str(&plan.declaration));
        tokens_append(&mut empty, tokens_as_str(&plan.empty));
        i += 1;
    }
    assert(all.take(i as int) =~= all);
    (assigners, attributes, empty)
}

} // verus!
