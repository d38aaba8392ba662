//! What is written out for a plan.
//!
//! Every action of a plan becomes one statement of a merge, or one field of
//! the literal that a conversion constructs. [`Written`] says which; what a
//! statement does to the values of a field is what the action means, and
//! its text follows from it alone. Fields that are rejected are written by
//! nobody: their messages are.
//!
//! | written                | merge                                          | merge by reference                                               |
//! |------------------------|------------------------------------------------|------------------------------------------------------------------|
//! | assigned               | `dest.f = self.f;`                             | `target.f = self.f.clone();`                                     |
//! | wrapped                | `dest.f = Some(self.f);`                       | `target.f = Some(self.f.clone());`                               |
//! | unwrapped              | `if let Some(value) = self.f { dest.f = value; }` | `if let Some(value) = self.f.as_ref() { target.f = value.clone(); }` |
//! | any of these, guarded  | `if dest.f.is_none() { .. }`                   | `if target.f.is_none() { .. }`                                   |

use vstd::prelude::*;
use vstd::string::StringExecFns;
use crate::diagnostic::{entry_message, mapping_message, path_text};
use crate::generate::{is_optional, is_plain, inner_type, plan_entry, PlanEntry, PlanEntryView};
use crate::mapping::{Action, FieldOutcome, FieldOutcomeView, MappingErrorView};
use crate::mode::Mode;
use crate::schema::{FieldDescriptorView, TargetPath, TargetPathView};
use crate::types::{same_type, views};
use crate::value::{applied, FieldValue};

verus! {

/// How the source's value is brought into the target.
#[derive(Clone, Copy, Debug, PartialEq, Eq, Structural)]
pub enum Transfer {
    /// Not at all.
    Nothing,
    /// As it is.
    Assigned,
    /// Inside `Some`.
    Wrapped,
    /// Out of `Some`, if it is there.
    Unwrapped,
}

/// What is written out for one field.
#[derive(Clone, Copy, Debug, PartialEq, Eq, Structural)]
pub struct Written {
    pub transfer: Transfer,
    /// The target is written only where it is `None`.
    pub guarded: bool,
    /// The source's value is cloned.
    pub cloned: bool,
}

/// What is written out for an action under a mode.
pub open spec fn written(mode: Mode, action: Action) -> Written {
    Written {
        transfer: match action {
            Action::Assign | Action::PassThrough => Transfer::Assigned,
            Action::Wrap => Transfer::Wrapped,
            Action::ConditionalUnwrap => Transfer::Unwrapped,
            Action::NoOp | Action::Skip => Transfer::Nothing,
        },
        guarded: mode.soft(),
        cloned: mode.borrowing(),
    }
}

/// What the statement does to the value that the target holds.
pub open spec fn effect<T>(statement: Written, source: FieldValue<T>, target: FieldValue<T>) -> FieldValue<T> {
    if statement.guarded && !(target is Absent) {
        target
    } else {
        match statement.transfer {
            Transfer::Nothing => target,
            Transfer::Assigned => source,
            Transfer::Wrapped => FieldValue::Present(Box::new(source)),
            Transfer::Unwrapped => match source {
                FieldValue::Present(value) => *value,
                _ => target,
            },
        }
    }
}

/// The source's value as the statement reads it.
pub open spec fn source_text(statement: Written, field: Seq<char>) -> Seq<char> {
    if statement.cloned {
        "self."@ + field + ".clone()"@
    } else {
        "self."@ + field
    }
}

/// The statement without its guard. `binding` is the name of the target.
pub open spec fn plain_text(statement: Written, field: Seq<char>, binding: Seq<char>) -> Seq<char> {
    match statement.transfer {
        Transfer::Nothing => Seq::empty(),
        Transfer::Assigned => binding + "."@ + field + " = "@ + source_text(statement, field) + ";"@,
        Transfer::Wrapped => binding + "."@ + field + " = Some("@ + source_text(statement, field) + ");"@,
        Transfer::Unwrapped => if statement.cloned {
            "if let Some(value) = self."@ + field + ".as_ref() { "@ + binding + "."@ + field
                + " = value.clone(); }"@
        } else {
            "if let Some(value) = self."@ + field + " { "@ + binding + "."@ + field + " = value; }"@
        },
    }
}

/// The statement as it is written. Where nothing is brought over, nothing
/// is written, guarded or not.
pub open spec fn statement_text(statement: Written, field: Seq<char>, binding: Seq<char>) -> Seq<char> {
    if statement.transfer == Transfer::Nothing {
        Seq::empty()
    } else if statement.guarded {
        "if "@ + binding + "."@ + field + ".is_none() { "@ + plain_text(statement, field, binding) + " }"@
    } else {
        plain_text(statement, field, binding)
    }
}

/// The field of a literal as it is written: nothing, `f: src.f,` or
/// `f: Some(src.f),`. A conversion never unwraps.
pub open spec fn initializer_text(statement: Written, field: Seq<char>) -> Seq<char> {
    match statement.transfer {
        Transfer::Assigned => field + ": src."@ + field + ","@,
        Transfer::Wrapped => field + ": Some(src."@ + field + "),"@,
        Transfer::Nothing | Transfer::Unwrapped => Seq::empty(),
    }
}

/// What is written for the entry of a plan: for a field that is mapped its
/// statement, for one that is rejected nothing.
pub open spec fn entry_statement(mode: Mode, entry: PlanEntryView, binding: Seq<char>) -> Seq<char> {
    match entry.outcome {
        FieldOutcomeView::Mapped(action) => statement_text(written(mode, action), entry.field, binding),
        FieldOutcomeView::Rejected(_) => Seq::empty(),
    }
}

/// What is written for the entry of a plan in a literal.
pub open spec fn entry_initializer(mode: Mode, entry: PlanEntryView) -> Seq<char> {
    match entry.outcome {
        FieldOutcomeView::Mapped(action) => initializer_text(written(mode, action), entry.field),
        FieldOutcomeView::Rejected(_) => Seq::empty(),
    }
}

/// A text on a line of its own, if there is any.
pub open spec fn line(text: Seq<char>) -> Seq<char> {
    if text.len() == 0 {
        text
    } else {
        text + "\n"@
    }
}

/// The statements of a merge, one on a line, in the order of the plan.
pub open spec fn statements(mode: Mode, entries: Seq<PlanEntryView>, binding: Seq<char>) -> Seq<char>
    decreases entries.len(),
{
    if entries.len() == 0 {
        Seq::empty()
    } else {
        statements(mode, entries.drop_last(), binding) + line(entry_statement(mode, entries.last(), binding))
    }
}

/// The fields of a literal, one on a line, in the order of the plan.
pub open spec fn initializers(mode: Mode, entries: Seq<PlanEntryView>) -> Seq<char>
    decreases entries.len(),
{
    if entries.len() == 0 {
        Seq::empty()
    } else {
        initializers(mode, entries.drop_last()) + line(entry_initializer(mode, entries.last()))
    }
}

/// The mode of a merge that consumes its source.
pub open spec fn owned_mode(soft: bool) -> Mode {
    if soft {
        Mode::MergeSoft
    } else {
        Mode::Merge
    }
}

/// The mode of a merge that borrows its source.
pub open spec fn borrowed_mode(soft: bool) -> Mode {
    if soft {
        Mode::MergeRefSoft
    } else {
        Mode::MergeRef
    }
}

/// The mode of a conversion.
pub open spec fn constructing_mode(default_impl: bool) -> Mode {
    if default_impl {
        Mode::IntoDefault
    } else {
        Mode::Into
    }
}

/// The literal that a conversion constructs.
pub open spec fn literal_text(target_path: TargetPathView, entries: Seq<PlanEntryView>, default_impl: bool) -> Seq<
    char,
> {
    let fields = path_text(target_path) + " {\n"@ + initializers(constructing_mode(default_impl), entries);
    if default_impl {
        fields + ".."@ + path_text(target_path) + "::default()\n}"@
    } else {
        fields + "}"@
    }
}

impl Written {
    /// What is written out for an action under a mode.
    pub fn of(mode: Mode, action: Action) -> (statement: Self)
        ensures
            statement == written(mode, action),
    {
        Written {
            transfer: match action {
                Action::Assign | Action::PassThrough => Transfer::Assigned,
                Action::Wrap => Transfer::Wrapped,
                Action::ConditionalUnwrap => Transfer::Unwrapped,
                Action::NoOp | Action::Skip => Transfer::Nothing,
            },
            guarded: mode.is_soft(),
            cloned: mode.is_borrowing(),
        }
    }

    /// The statement of a merge for a field. `binding` is the name of the
    /// target.
    pub fn statement(&self, field: &str, binding: &str) -> (text: String)
        ensures
            text@ == statement_text(*self, field@, binding@),
    {
        let mut plain = String::new();
        match self.transfer {
            Transfer::Nothing => {
                return plain;
            },
            Transfer::Assigned | Transfer::Wrapped => {
                plain.append(binding);
                plain.append(".");
                plain.append(field);
                if self.transfer == Transfer::Wrapped {
                    plain.append(" = Some(");
                } else {
                    plain.append(" = ");
                }
                plain.append("self.");
                plain.append(field);
                if self.cloned {
                    plain.append(".clone()");
                }
                if self.transfer == Transfer::Wrapped {
                    plain.append(");");
                } else {
                    plain.append(";");
                }
                proof {
                    assert(plain@ =~= plain_text(*self, field@, binding@));
                }
            },
            Transfer::Unwrapped => {
                plain.append("if let Some(value) = self.");
                plain.append(field);
                if self.cloned {
                    plain.append(".as_ref() { ");
                } else {
                    plain.append(" { ");
                }
                plain.append(binding);
                plain.append(".");
                plain.append(field);
                if self.cloned {
                    plain.append(" = value.clone(); }");
                } else {
                    plain.append(" = value; }");
                }
                proof {
                    assert(plain@ =~= plain_text(*self, field@, binding@));
                }
            },
        }
        if !self.guarded {
            return plain;
        }
        let mut text = "if ".to_owned();
        text.append(binding);
        text.append(".");
        text.append(field);
        text.append(".is_none() { ");
        text.append(plain.as_str());
        text.append(" }");
        proof {
            assert(text@ =~= statement_text(*self, field@, binding@));
        }
        text
    }

    /// The field of a literal.
    pub fn initializer(&self, field: &str) -> (text: String)
        ensures
            text@ == initializer_text(*self, field@),
    {
        let mut text = String::new();
        match self.transfer {
            Transfer::Assigned => {
                text.append(field);
                text.append(": src.");
                text.append(field);
                text.append(",");
                proof {
                    assert(text@ =~= initializer_text(*self, field@));
                }
            },
            Transfer::Wrapped => {
                text.append(field);
                text.append(": Some(src.");
                text.append(field);
                text.append("),");
                proof {
                    assert(text@ =~= initializer_text(*self, field@));
                }
            },
            Transfer::Nothing | Transfer::Unwrapped => {},
        }
        text
    }
}

/// The statements for the entries of a plan under a mode.
fn write_statements(mode: Mode, entries: &Vec<PlanEntry>, binding: &str) -> (text: String)
    ensures
        text@ == statements(mode, views(entries@), binding@),
{
    let mut text = String::new();
    let ghost all = views(entries@);
    let mut i: usize = 0;
    while i < entries.len()
        invariant
            i <= entries.len(),
            all == views(entries@),
            text@ == statements(mode, all.take(i as int), binding@),
        decreases entries.len() - i,
    {
        proof {
            assert(all.take(i + 1).drop_last() == all.take(i as int));
            assert(all.take(i + 1).last() == entries@[i as int]@);
        }
        let ghost before = text@;
        match &entries[i].outcome {
            FieldOutcome::Mapped(action) => {
                let statement = Written::of(mode, *action).statement(entries[i].field.as_str(), binding);
                if statement.as_str().unicode_len() > 0 {
                    text.append(statement.as_str());
                    text.append("\n");
                }
                proof {
                    assert(text@ =~= before + line(statement@));
                }
            },
            FieldOutcome::Rejected(_) => {
                proof {
                    assert(text@ =~= before + line(Seq::<char>::empty()));
                }
            },
        }
        i += 1;
    }
    proof {
        assert(all.take(all.len() as int) == all);
    }
    text
}

/// Write the body of a merge that consumes its source: one statement for
/// every field that is mapped, on the source `self` and the target `dest`.
/// With `soft` the statements are those of the merge that only fills.
pub fn merge(entries: &Vec<PlanEntry>, soft: bool) -> (body: String)
    ensures
        body@ == statements(owned_mode(soft), views(entries@), "dest"@),
{
    let mode = if soft {
        Mode::MergeSoft
    } else {
        Mode::Merge
    };
    write_statements(mode, entries, "dest")
}

/// Write the body of a merge that borrows its source: one statement for
/// every field that is mapped, on the source `self` and the target
/// `target`. All that is taken from the source is cloned.
pub fn merge_ref(entries: &Vec<PlanEntry>, soft: bool) -> (body: String)
    ensures
        body@ == statements(borrowed_mode(soft), views(entries@), "target"@),
{
    let mode = if soft {
        Mode::MergeRefSoft
    } else {
        Mode::MergeRef
    };
    write_statements(mode, entries, "target")
}

/// Write the literal that a conversion constructs from the source `src`:
/// one field for every field that is mapped, and with `default_impl` the
/// target's default for the rest.
pub fn into(target_path: &TargetPath, entries: &Vec<PlanEntry>, default_impl: bool) -> (literal: String)
    ensures
        literal@ == literal_text(target_path@, views(entries@), default_impl),
{
    let mode = if default_impl {
        Mode::IntoDefault
    } else {
        Mode::Into
    };
    let path = target_path.text();
    let mut text = target_path.text();
    text.append(" {\n");
    let ghost start = text@;
    let ghost all = views(entries@);
    let mut i: usize = 0;
    while i < entries.len()
        invariant
            i <= entries.len(),
            all == views(entries@),
            text@ == start + initializers(mode, all.take(i as int)),
        decreases entries.len() - i,
    {
        proof {
            assert(all.take(i + 1).drop_last() == all.take(i as int));
            assert(all.take(i + 1).last() == entries@[i as int]@);
        }
        let ghost before = text@;
        match &entries[i].outcome {
            FieldOutcome::Mapped(action) => {
                let field = Written::of(mode, *action).initializer(entries[i].field.as_str());
                if field.as_str().unicode_len() > 0 {
                    text.append(field.as_str());
                    text.append("\n");
                }
                proof {
                    assert(text@ =~= before + line(field@));
                    assert(text@ =~= start + (initializers(mode, all.take(i as int)) + line(field@)));
                }
            },
            FieldOutcome::Rejected(_) => {
                proof {
                    assert(text@ =~= start + (initializers(mode, all.take(i as int)) + line(
                        Seq::<char>::empty(),
                    )));
                }
            },
        }
        i += 1;
    }
    proof {
        assert(all.take(all.len() as int) == all);
    }
    if default_impl {
        text.append("..");
        text.append(path.as_str());
        text.append("::default()\n}");
    } else {
        text.append("}");
    }
    proof {
        assert(text@ =~= literal_text(target_path@, all, default_impl));
    }
    text
}

/// Write the literal that a conversion with defaults constructs.
pub fn into_default(target_path: &TargetPath, entries: &Vec<PlanEntry>) -> (literal: String)
    ensures
        literal@ == literal_text(target_path@, views(entries@), true),
{
    into(target_path, entries, true)
}

/// A statement does to the values of a field what its action means.
pub proof fn written_is_what_the_action_means<T>(
    mode: Mode,
    action: Action,
    source: FieldValue<T>,
    target: FieldValue<T>,
)
    ensures
        effect(written(mode, action), source, target) == applied(mode, action, source, target),
{
}

/// Two plain fields of one type are written as one assignment without a
/// condition: `dest.f = self.f;` where the source is consumed, and
/// `target.f = self.f.clone();` where it is borrowed. A plain field into an
/// optional one of its type is written as `dest.f = Some(self.f);` and
/// `target.f = Some(self.f.clone());`. No statement names anything but the
/// source `self` and the target.
pub proof fn assignments_are_written_without_condition(field: Seq<char>)
    ensures
        statement_text(written(Mode::Merge, Action::Assign), field, "dest"@) == "dest"@ + "."@ + field
            + " = "@ + "self."@ + field + ";"@,
        statement_text(written(Mode::MergeRef, Action::Assign), field, "target"@) == "target"@ + "."@ + field
            + " = "@ + "self."@ + field + ".clone()"@ + ";"@,
        statement_text(written(Mode::Merge, Action::Wrap), field, "dest"@) == "dest"@ + "."@ + field
            + " = Some("@ + "self."@ + field + ");"@,
        statement_text(written(Mode::MergeRef, Action::Wrap), field, "target"@) == "target"@ + "."@ + field
            + " = Some("@ + "self."@ + field + ".clone()"@ + ");"@,
{
    assert(statement_text(written(Mode::Merge, Action::Assign), field, "dest"@) =~= "dest"@ + "."@ + field
        + " = "@ + "self."@ + field + ";"@);
    assert(statement_text(written(Mode::MergeRef, Action::Assign), field, "target"@) =~= "target"@ + "."@
        + field + " = "@ + "self."@ + field + ".clone()"@ + ";"@);
    assert(statement_text(written(Mode::Merge, Action::Wrap), field, "dest"@) =~= "dest"@ + "."@ + field
        + " = Some("@ + "self."@ + field + ");"@);
    assert(statement_text(written(Mode::MergeRef, Action::Wrap), field, "target"@) =~= "target"@ + "."@ + field
        + " = Some("@ + "self."@ + field + ".clone()"@ + ");"@);
}

/// For two plain fields of one type a merge that overwrites writes the one
/// assignment and no message: `dest.f = self.f;` where it consumes the
/// source, `target.f = self.f.clone();` where it borrows it.
pub proof fn merge_assigns_plain_fields_of_one_type(source: FieldDescriptorView, target: FieldDescriptorView)
    requires
        is_plain(source),
        is_plain(target),
        same_type(source.ty, target.ty),
    ensures
        entry_statement(Mode::Merge, plan_entry(Mode::Merge, (source, target)), "dest"@) == "dest"@ + "."@
            + source.name + " = "@ + "self."@ + source.name + ";"@,
        entry_statement(Mode::MergeRef, plan_entry(Mode::MergeRef, (source, target)), "target"@) == "target"@
            + "."@ + source.name + " = "@ + "self."@ + source.name + ".clone()"@ + ";"@,
        entry_message(plan_entry(Mode::Merge, (source, target)), Mode::Merge) is None,
        entry_message(plan_entry(Mode::MergeRef, (source, target)), Mode::MergeRef) is None,
{
    assignments_are_written_without_condition(source.name);
}

/// For a plain field and an optional field of its type a merge that
/// overwrites writes the one assignment of `Some` and no message:
/// `dest.f = Some(self.f);` where it consumes the source,
/// `target.f = Some(self.f.clone());` where it borrows it.
pub proof fn merge_wraps_plain_field_into_optional(source: FieldDescriptorView, target: FieldDescriptorView)
    requires
        is_plain(source),
        is_optional(target),
        same_type(source.ty, inner_type(target)),
    ensures
        entry_statement(Mode::Merge, plan_entry(Mode::Merge, (source, target)), "dest"@) == "dest"@ + "."@
            + source.name + " = Some("@ + "self."@ + source.name + ");"@,
        entry_statement(Mode::MergeRef, plan_entry(Mode::MergeRef, (source, target)), "target"@) == "target"@
            + "."@ + source.name + " = Some("@ + "self."@ + source.name + ".clone()"@ + ");"@,
        entry_message(plan_entry(Mode::Merge, (source, target)), Mode::Merge) is None,
        entry_message(plan_entry(Mode::MergeRef, (source, target)), Mode::MergeRef) is None,
{
    assignments_are_written_without_condition(source.name);
}

/// For an optional field and a plain one a merge that overwrites writes no
/// statement at all, whether it consumes the source or borrows it, and
/// words the downgrade.
pub proof fn merge_writes_nothing_for_a_downgrade(source: FieldDescriptorView, target: FieldDescriptorView)
    requires
        is_optional(source),
        is_plain(target),
    ensures
        entry_statement(Mode::Merge, plan_entry(Mode::Merge, (source, target)), "dest"@) == Seq::<char>::empty(),
        entry_statement(Mode::MergeRef, plan_entry(Mode::MergeRef, (source, target)), "target"@) == Seq::<
            char,
        >::empty(),
        entry_message(plan_entry(Mode::Merge, (source, target)), Mode::Merge) == Some(
            source.name + ": "@ + mapping_message(MappingErrorView::OptionalDowngrade, Mode::Merge),
        ),
        entry_message(plan_entry(Mode::MergeRef, (source, target)), Mode::MergeRef) == Some(
            source.name + ": "@ + mapping_message(MappingErrorView::OptionalDowngrade, Mode::MergeRef),
        ),
{
}

} // verus!
