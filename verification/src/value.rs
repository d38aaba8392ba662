//! What an action does to the values of a field.
//!
//! The plan is made from types alone. This module says what carrying it out
//! means for a value of the source and the value that the target holds.

use vstd::prelude::*;
use crate::mapping::Action;
use crate::mode::Mode;

verus! {

/// The value of a field: plain, or optional and then absent or present.
#[derive(Debug, PartialEq, Eq)]
pub enum FieldValue<T> {
    /// A value of a type that is not optional.
    Plain(T),
    /// `None`.
    Absent,
    /// `Some(value)`.
    Present(Box<FieldValue<T>>),
}

/// The value of the target field after the action.
///
/// In a soft mode a target that holds anything but `None` stays as it is.
/// Where the target is constructed, `target` is the value it starts from:
/// its default.
pub open spec fn applied<T>(mode: Mode, action: Action, source: FieldValue<T>, target: FieldValue<T>) -> FieldValue<
    T,
> {
    if mode.soft() && !(target is Absent) {
        target
    } else {
        match action {
            Action::Assign | Action::PassThrough => source,
            Action::Wrap => FieldValue::Present(Box::new(source)),
            Action::ConditionalUnwrap => match source {
                FieldValue::Present(value) => *value,
                _ => target,
            },
            Action::NoOp | Action::Skip => target,
        }
    }
}

/// Carry out an action on the value of a source field and the value that
/// the target field holds, and return what the target field holds then.
pub fn apply<T>(mode: Mode, action: Action, source: FieldValue<T>, target: FieldValue<T>) -> (value: FieldValue<T>)
    ensures
        value == applied(mode, action, source, target),
{
    if mode.is_soft() && !matches!(target, FieldValue::Absent) {
        return target;
    }
    match action {
        Action::Assign | Action::PassThrough => source,
        Action::Wrap => FieldValue::Present(Box::new(source)),
        Action::ConditionalUnwrap => match source {
            FieldValue::Present(value) => *value,
            _ => target,
        },
        Action::NoOp | Action::Skip => target,
    }
}

/// Carrying out an action a second time with the same source changes
/// nothing: a merge, soft or not, is idempotent.
pub proof fn applying_twice_changes_nothing<T>(mode: Mode, action: Action, source: FieldValue<T>, target: FieldValue<T>)
    ensures
        applied(mode, action, source, applied(mode, action, source, target)) == applied(
            mode,
            action,
            source,
            target,
        ),
{
}

/// A soft mode touches a target only where it is absent.
pub proof fn soft_modes_fill_absent_targets_only<T>(
    mode: Mode,
    action: Action,
    source: FieldValue<T>,
    target: FieldValue<T>,
)
    requires
        mode.soft(),
        !(target is Absent),
    ensures
        applied(mode, action, source, target) == target,
{
}

/// In a soft mode the source is wrapped into the target if and only if the
/// target is absent.
pub proof fn soft_wrap_fills_exactly_the_absent<T>(mode: Mode, source: FieldValue<T>, target: FieldValue<T>)
    requires
        mode.soft(),
    ensures
        target is Absent ==> applied(mode, Action::Wrap, source, target) == FieldValue::Present(
            Box::new(source),
        ),
        !(target is Absent) ==> applied(mode, Action::Wrap, source, target) == target,
{
}

/// A field that is skipped holds the value that the target started from:
/// where the target is constructed with defaults, its default.
pub proof fn skipped_field_keeps_its_default<T>(mode: Mode, source: FieldValue<T>, default: FieldValue<T>)
    ensures
        applied(mode, Action::Skip, source, default) == default,
{
}

} // verus!
