//! What the generated merge does to a record, rule by rule.
//!
//! The generator emits source text. This module says what that text is to
//! mean once it runs, as a model on values, and proves of the model what a
//! user of the generated code relies on.

use crate::fields::{empty_text, generated_type, is_optional, merge_text, rule_of, MergeRule};
use crate::text::without_blanks;
use crate::tokens::{no_text, TokenText};
use vstd::prelude::*;

verus! {

/// The value of a field of the record.
pub enum Stored<V> {
    /// A field that always holds a value.
    Plain(V),
    /// An optional field.
    Slot(Option<V>),
    /// A field that is itself a record, with the values of its fields.
    Record(Seq<Stored<V>>),
}

/// The value of a field of the companion.
pub enum Offered<V> {
    /// A value that may be absent.
    Slot(Option<V>),
    /// The companion of a nested record, with the values of its fields.
    Record(Seq<Offered<V>>),
}

/// How a field is merged: its rule and, under `Delegate`, the layouts of the
/// nested record's fields.
pub struct Layout {
    pub rule: MergeRule,
    pub fields: Seq<Layout>,
}

/// Whether `stored` is a value of a field with this layout.
pub open spec fn holds<V>(layout: Layout, stored: Stored<V>) -> bool
    decreases layout,
{
    match layout.rule {
        MergeRule::Replace | MergeRule::Fill => stored is Slot,
        MergeRule::Assign => stored is Plain,
        MergeRule::Delegate => stored matches Stored::Record(values) && values.len()
            == layout.fields.len() && forall|i: int|
            0 <= i < layout.fields.len() ==> holds(layout.fields[i], #[trigger] values[i]),
    }
}

/// Whether `offered` is a value that the companion can hold for a field with
/// this layout.
pub open spec fn offers<V>(layout: Layout, offered: Offered<V>) -> bool
    decreases layout,
{
    match layout.rule {
        MergeRule::Delegate => offered matches Offered::Record(values) && values.len()
            == layout.fields.len() && forall|i: int|
            0 <= i < layout.fields.len() ==> offers(layout.fields[i], #[trigger] values[i]),
        _ => offered is Slot,
    }
}

/// The field after the merge of `offered` into `stored`.
pub open spec fn merged<V>(layout: Layout, stored: Stored<V>, offered: Offered<V>) -> Stored<V>
    decreases layout,
{
    match layout.rule {
        MergeRule::Replace => Stored::Slot(offered->Slot_0),
        MergeRule::Fill => if offered->Slot_0 is Some {
            Stored::Slot(offered->Slot_0)
        } else {
            stored
        },
        MergeRule::Assign => if offered->Slot_0 is Some {
            Stored::Plain(offered->Slot_0->0)
        } else {
            stored
        },
        MergeRule::Delegate => Stored::Record(
            Seq::new(
                layout.fields.len(),
                |i: int|
                    if 0 <= i < layout.fields.len() {
                        merged(layout.fields[i], stored->Record_0[i], offered->Record_0[i])
                    } else {
                        stored
                    },
            ),
        ),
    }
}

/// The all-absent value of the companion, for a field with this layout.
pub open spec fn absent<V>(layout: Layout) -> Offered<V>
    decreases layout,
{
    match layout.rule {
        MergeRule::Delegate => Offered::Record(
            Seq::new(
                layout.fields.len(),
                |i: int|
                    if 0 <= i < layout.fields.len() {
                        absent(layout.fields[i])
                    } else {
                        Offered::Slot(None)
                    },
            ),
        ),
        _ => Offered::Slot(None),
    }
}

/// Whether an all-absent value leaves `stored` as it is: every optional
/// field that is merged by `Replace` is absent, as in a record that has just
/// been made with default values.
pub open spec fn fresh<V>(layout: Layout, stored: Stored<V>) -> bool
    decreases layout,
{
    match layout.rule {
        MergeRule::Replace => stored == Stored::<V>::Slot(None),
        MergeRule::Delegate => forall|i: int|
            0 <= i < layout.fields.len() ==> fresh(
                layout.fields[i],
                #[trigger] stored->Record_0[i],
            ),
        _ => true,
    }
}

/// The all-absent value is a value of the companion.
pub proof fn law_absent_is_offered<V>(layout: Layout)
    ensures
        offers(layout, absent::<V>(layout)),
    decreases layout,
{
    if layout.rule == MergeRule::Delegate {
        assert forall|i: int| 0 <= i < layout.fields.len() implies offers(
            layout.fields[i],
            #[trigger] absent::<V>(layout)->Record_0[i],
        ) by {
            law_absent_is_offered::<V>(layout.fields[i]);
        }
    }
}

/// Merging the all-absent value into a fresh record changes nothing.
pub proof fn law_empty_merge_changes_nothing<V>(layout: Layout, stored: Stored<V>)
    requires
        holds(layout, stored),
        fresh(layout, stored),
    ensures
        merged(layout, stored, absent(layout)) == stored,
    decreases layout,
{
    if layout.rule == MergeRule::Delegate {
        let values = stored->Record_0;
        let after = merged(layout, stored, absent(layout))->Record_0;
        assert forall|i: int| 0 <= i < values.len() implies after[i] == values[i] by {
            law_empty_merge_changes_nothing(layout.fields[i], values[i]);
        }
        assert(after =~= values);
    }
}

/// Merging a value a second time changes nothing more.
pub proof fn law_merge_is_idempotent<V>(layout: Layout, stored: Stored<V>, offered: Offered<V>)
    requires
        holds(layout, stored),
        offers(layout, offered),
    ensures
        merged(layout, merged(layout, stored, offered), offered) == merged(layout, stored, offered),
    decreases layout,
{
    if layout.rule == MergeRule::Delegate {
        let values = stored->Record_0;
        let given = offered->Record_0;
        let once = merged(layout, stored, offered)->Record_0;
        let twice = merged(layout, merged(layout, stored, offered), offered)->Record_0;
        assert forall|i: int| 0 <= i < values.len() implies twice[i] == once[i] by {
            law_merge_is_idempotent(layout.fields[i], values[i], given[i]);
        }
        assert(twice =~= once);
    }
}

/// A merge leaves a value of the field's layout behind.
pub proof fn law_merge_keeps_layout<V>(layout: Layout, stored: Stored<V>, offered: Offered<V>)
    requires
        holds(layout, stored),
        offers(layout, offered),
    ensures
        holds(layout, merged(layout, stored, offered)),
    decreases layout,
{
    if layout.rule == MergeRule::Delegate {
        let after = merged(layout, stored, offered)->Record_0;
        assert forall|i: int| 0 <= i < layout.fields.len() implies holds(
            layout.fields[i],
            #[trigger] after[i],
        ) by {
            law_merge_keeps_layout(layout.fields[i], stored->Record_0[i], offered->Record_0[i]);
        }
    }
}

/// The layout of a field that is no record: its rule alone.
pub open spec fn leaf(rule: MergeRule) -> Layout {
    Layout { rule, fields: Seq::empty() }
}

/// Where present values have priority, an optional field is merged by
/// `Fill`: an absent value leaves the field as it is, present or not, and a
/// present value takes the field's place.
pub proof fn law_some_priority_keeps_present<V>(
    ty: Seq<char>,
    nested: Map<Seq<char>, Seq<char>>,
    before: Option<V>,
    value: V,
)
    requires
        is_optional(ty),
    ensures
        rule_of(ty, nested, true) == MergeRule::Fill,
        merged(leaf(MergeRule::Fill), Stored::Slot(before), Offered::Slot(None)) == Stored::Slot(
            before,
        ),
        merged(leaf(MergeRule::Fill), Stored::Slot(before), Offered::Slot(Some(value)))
            == Stored::Slot(Some(value)),
{
}

/// Where present values have no priority, an optional field is merged by
/// `Replace`: the companion's value takes the field's place, and an absent
/// one clears it.
pub proof fn law_replace_overwrites<V>(
    ty: Seq<char>,
    nested: Map<Seq<char>, Seq<char>>,
    before: Option<V>,
    offered: Option<V>,
)
    requires
        is_optional(ty),
    ensures
        rule_of(ty, nested, false) == MergeRule::Replace,
        merged(leaf(MergeRule::Replace), Stored::Slot(before), Offered::Slot(offered))
            == Stored::Slot(offered),
{
}

/// A field that is neither optional nor a nested record is merged by
/// `Assign`: a present value is assigned to it, and an absent one leaves it
/// as it is.
pub proof fn law_assign_overwrites_when_present<V>(
    ty: Seq<char>,
    nested: Map<Seq<char>, Seq<char>>,
    some_priority: bool,
    before: V,
    value: V,
)
    requires
        !is_optional(ty),
        !nested.contains_key(without_blanks(ty)),
    ensures
        rule_of(ty, nested, some_priority) == MergeRule::Assign,
        merged(leaf(MergeRule::Assign), Stored::Plain(before), Offered::<V>::Slot(None))
            == Stored::Plain(before),
        merged(leaf(MergeRule::Assign), Stored::Plain(before), Offered::Slot(Some(value)))
            == Stored::Plain(value),
{
}

/// A field whose type has a companion of its own, and is not optional, is
/// merged by `Delegate`. Its declaration and its place in the all-absent
/// value name that companion, and its merge statement calls the companion's
/// merge. The merge goes field by field through the nested record, each
/// field by its own layout; merging the all-absent value does so too, with
/// the all-absent value of each field.
pub proof fn law_nested_delegates<V>(
    ty: Seq<char>,
    name: Seq<char>,
    nested: Map<Seq<char>, Seq<char>>,
    some_priority: bool,
    fields: Seq<Layout>,
    stored: Seq<Stored<V>>,
    offered: Seq<Offered<V>>,
    i: int,
)
    requires
        !is_optional(ty),
        nested.contains_key(without_blanks(ty)),
        0 <= i < fields.len(),
    ensures
        rule_of(ty, nested, some_priority) == MergeRule::Delegate,
        generated_type(ty, nested, some_priority) == no_text().word(nested[without_blanks(ty)]),
        merge_text(rule_of(ty, nested, some_priority), name) == no_text().word("self ."@).word(
            name,
        ).word(". apply_options ( optional_struct ."@).word(name).word(") ;"@),
        empty_text(
            rule_of(ty, nested, some_priority),
            name,
            generated_type(ty, nested, some_priority),
        ) == no_text().word(name).word(":"@).word(
            generated_type(ty, nested, some_priority),
        ).word(":: empty ( ) ,"@),
        merged(
            Layout { rule: MergeRule::Delegate, fields },
            Stored::Record(stored),
            Offered::Record(offered),
        )->Record_0.len() == fields.len(),
        merged(
            Layout { rule: MergeRule::Delegate, fields },
            Stored::Record(stored),
            Offered::Record(offered),
        )->Record_0[i] == merged(fields[i], stored[i], offered[i]),
        merged(
            Layout { rule: MergeRule::Delegate, fields },
            Stored::Record(stored),
            absent(Layout { rule: MergeRule::Delegate, fields }),
        )->Record_0[i] == merged(fields[i], stored[i], absent(fields[i])),
{
}

} // verus!
