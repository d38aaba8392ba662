//! The words for what went wrong.
//!
//! Every error has a message. A message never decides anything: it is made
//! from the error and from nothing else.

use vstd::prelude::*;
use vstd::string::StringExecFns;
use crate::derive::{SourceError, SourceErrorView};
use crate::field::FieldTypeError;
use crate::generate::{
    outcome_views, GenerationError, GenerationErrorView, MappingPlan, MappingPlanView, PlanEntry, PlanEntryView,
    SchemaShapeError,
};
use crate::mapping::{FieldOutcome, FieldOutcomeView, MappingError, MappingErrorView};
use crate::mode::Mode;
use crate::module::{PathResolutionError, PathResolutionErrorView};
use crate::parse::{ArgumentError, ArgumentErrorView, MissingAttribute, MissingAttributeView};
use crate::schema::{TargetPath, TargetPathView};
use crate::types::views;

verus! {

/// The segments with `::` between them.
pub open spec fn joined(segments: Seq<Seq<char>>) -> Seq<char>
    decreases segments.len(),
{
    if segments.len() == 0 {
        Seq::empty()
    } else if segments.len() == 1 {
        segments[0]
    } else {
        joined(segments.drop_last()) + "::"@ + segments.last()
    }
}

/// A path as it is written.
pub open spec fn path_text(path: TargetPathView) -> Seq<char> {
    if path.leading_colon {
        "::"@ + joined(path.segments)
    } else {
        joined(path.segments)
    }
}

/// The message of a [`FieldTypeError`].
pub open spec fn field_type_message(error: FieldTypeError) -> Seq<char> {
    match error {
        FieldTypeError::MissingTypeArgument => "Option doesn't have a type parameter.."@,
        FieldTypeError::ArgumentNotType => "Option path argument isn't a type."@,
        FieldTypeError::UnsupportedShape => "Found a non-path type. This isn't supported in inter-struct yet."@,
    }
}

/// The message of a [`MappingError`] under a mode.
pub open spec fn mapping_message(error: MappingErrorView, mode: Mode) -> Seq<char> {
    match error {
        MappingErrorView::FieldType(error) => field_type_message(error),
        MappingErrorView::TypeMismatch { source, target } => "Type '"@ + source
            + " cannot be merged into field of type '"@ + target + "'."@,
        MappingErrorView::OptionalDowngrade => if mode.constructing() {
            "Inter-struct cannot 'into' an optional into a non-optional value."@
        } else {
            "Inter-struct cannot 'merge' an optional into a non-optional value."@
        },
    }
}

/// The message of a plan entry under a mode: none for a field that is
/// mapped, else the field's name and why it is rejected.
pub open spec fn entry_message(entry: PlanEntryView, mode: Mode) -> Option<Seq<char>> {
    match entry.outcome {
        FieldOutcomeView::Mapped(_) => None,
        FieldOutcomeView::Rejected(error) => Some(entry.field + ": "@ + mapping_message(error, mode)),
    }
}

/// The message of a [`SchemaShapeError`].
pub open spec fn shape_message(error: SchemaShapeError) -> Seq<char> {
    "inter_struct only works on structs with named fields."@
}

/// The message of a [`PathResolutionError`].
pub open spec fn resolution_message(error: PathResolutionErrorView) -> Seq<char> {
    match error {
        PathResolutionErrorView::NotCrateRelative => "inter_struct only supports paths in the current 'crate::' space for now."@,
        PathResolutionErrorView::MissingRecordName => "The path names no struct."@,
        PathResolutionErrorView::FailedToOpenFile(None) => "Failed to open file."@,
        PathResolutionErrorView::FailedToOpenFile(Some(reason)) => "Failed to open file: "@ + reason,
        PathResolutionErrorView::FailedToParseFile(message) => "Failed to parse file: "@ + message,
        PathResolutionErrorView::StructNotFound => "Didn't find struct in file."@,
    }
}

/// The message of a [`MissingAttribute`].
pub open spec fn missing_message(missing: MissingAttributeView) -> Seq<char> {
    missing.derive_name + " requires the '"@ + missing.name + "' attribute."@
}

/// The message of an [`ArgumentError`].
pub open spec fn argument_message(error: ArgumentErrorView) -> Seq<char> {
    match error {
        ArgumentErrorView::NotAnExpression(message) => message,
        ArgumentErrorView::NotParenthesized => "Encountered unknown error while parsing args."@,
        ArgumentErrorView::NeitherPathNorArray => "inter_struct's macro parameters should be either a single path or a vector of paths as str, such as '[\"crate::your::path\"]'."@,
        ArgumentErrorView::NotAString => "Only paths are allowed in inter_struct's attribute."@,
        ArgumentErrorView::NotAPath => "Only paths are allowed in inter_struct's attributes."@,
    }
}

/// The message of a [`SourceError`].
pub open spec fn source_message(error: SourceErrorView) -> Seq<char> {
    match error {
        SourceErrorView::NotParsed(message) => message,
        SourceErrorView::NotAStruct => "expected `struct`"@,
    }
}

/// The message of a [`GenerationError`]. What goes wrong for one target is
/// said after the target's path.
pub open spec fn generation_message(error: GenerationErrorView) -> Seq<char> {
    match error {
        GenerationErrorView::Source(error) => source_message(error),
        GenerationErrorView::Attribute(missing) => missing_message(missing),
        GenerationErrorView::Arguments(error) => argument_message(error),
        GenerationErrorView::Path(target_path, error) => path_text(target_path) + ": "@ + resolution_message(
            error,
        ),
        GenerationErrorView::Shape(target_path, error) => path_text(target_path) + ": "@ + shape_message(error),
    }
}

/// The messages of the entries of a plan, in the order of the entries: one
/// for every field that is rejected.
pub open spec fn entry_messages(entries: Seq<PlanEntryView>, mode: Mode) -> Seq<Seq<char>>
    decreases entries.len(),
{
    if entries.len() == 0 {
        Seq::empty()
    } else {
        let earlier = entry_messages(entries.drop_last(), mode);
        match entry_message(entries.last(), mode) {
            Some(message) => earlier.push(message),
            None => earlier,
        }
    }
}

/// The messages of one outcome: those of the plan's entries, or the one of
/// the reason why there is no plan.
pub open spec fn outcome_messages(outcome: Result<MappingPlanView, GenerationErrorView>) -> Seq<Seq<char>> {
    match outcome {
        Ok(plan) => entry_messages(plan.entries, plan.mode),
        Err(error) => seq![generation_message(error)],
    }
}

/// Every message of every outcome, target by target and field by field.
pub open spec fn all_messages(outcomes: Seq<Result<MappingPlanView, GenerationErrorView>>) -> Seq<Seq<char>>
    decreases outcomes.len(),
{
    if outcomes.len() == 0 {
        Seq::empty()
    } else {
        all_messages(outcomes.drop_last()) + outcome_messages(outcomes.last())
    }
}

/// What an optional message is as a value of the specification.
pub open spec fn message_view(message: Option<String>) -> Option<Seq<char>> {
    match message {
        Some(message) => Some(message@),
        None => None,
    }
}

impl TargetPath {
    /// The path as it is written.
    pub fn text(&self) -> (text: String)
        ensures
            text@ == path_text(self@),
    {
        let mut text = if self.leading_colon {
            "::".to_owned()
        } else {
            String::new()
        };
        let ghost start = text@;
        let ghost segments = views(self.segments@);
        let mut i: usize = 0;
        while i < self.segments.len()
            invariant
                i <= self.segments.len(),
                segments == views(self.segments@),
                text@ == start + joined(segments.take(i as int)),
            decreases self.segments.len() - i,
        {
            proof {
                assert(segments.take(i + 1).drop_last() == segments.take(i as int));
                assert(segments.take(i + 1).last() == self.segments@[i as int]@);
            }
            if i > 0 {
                text.append("::");
            }
            text.append(self.segments[i].as_str());
            proof {
                if i == 0 {
                    assert(joined(segments.take(0)) =~= Seq::<char>::empty());
                    assert(joined(segments.take(1)) == self.segments@[0]@);
                    assert(text@ =~= start + joined(segments.take(1)));
                } else {
                    assert(text@ =~= start + joined(segments.take(i + 1)));
                }
            }
            i += 1;
        }
        proof {
            assert(segments.take(segments.len() as int) == segments);
            if !self.leading_colon {
                assert(start + joined(segments) =~= joined(segments));
            }
        }
        text
    }
}

impl FieldTypeError {
    pub fn message(&self) -> (message: String)
        ensures
            message@ == field_type_message(*self),
    {
        match self {
            FieldTypeError::MissingTypeArgument => "Option doesn't have a type parameter..".to_owned(),
            FieldTypeError::ArgumentNotType => "Option path argument isn't a type.".to_owned(),
            FieldTypeError::UnsupportedShape => {
                "Found a non-path type. This isn't supported in inter-struct yet.".to_owned()
            },
        }
    }
}

impl MappingError {
    pub fn message(&self, mode: Mode) -> (message: String)
        ensures
            message@ == mapping_message(self@, mode),
    {
        match self {
            MappingError::FieldType(error) => error.message(),
            MappingError::TypeMismatch { source, target } => {
                let mut message = "Type '".to_owned();
                message.append(source.as_str());
                message.append(" cannot be merged into field of type '");
                message.append(target.as_str());
                message.append("'.");
                message
            },
            MappingError::OptionalDowngrade => {
                if mode.is_constructing() {
                    "Inter-struct cannot 'into' an optional into a non-optional value.".to_owned()
                } else {
                    "Inter-struct cannot 'merge' an optional into a non-optional value.".to_owned()
                }
            },
        }
    }
}

impl PlanEntry {
    /// Why the field is rejected, if it is.
    pub fn message(&self, mode: Mode) -> (message: Option<String>)
        ensures
            message_view(message) == entry_message(self@, mode),
    {
        match &self.outcome {
            FieldOutcome::Mapped(_) => None,
            FieldOutcome::Rejected(error) => {
                let mut message = self.field.clone();
                message.append(": ");
                message.append(error.message(mode).as_str());
                Some(message)
            },
        }
    }
}

impl SchemaShapeError {
    pub fn message(&self) -> (message: String)
        ensures
            message@ == shape_message(*self),
    {
        "inter_struct only works on structs with named fields.".to_owned()
    }
}

impl PathResolutionError {
    pub fn message(&self) -> (message: String)
        ensures
            message@ == resolution_message(self@),
    {
        match self {
            PathResolutionError::NotCrateRelative => {
                "inter_struct only supports paths in the current 'crate::' space for now.".to_owned()
            },
            PathResolutionError::MissingRecordName => "The path names no struct.".to_owned(),
            PathResolutionError::FailedToOpenFile(None) => "Failed to open file.".to_owned(),
            PathResolutionError::FailedToOpenFile(Some(reason)) => {
                let mut message = "Failed to open file: ".to_owned();
                message.append(reason.as_str());
                message
            },
            PathResolutionError::FailedToParseFile(reason) => {
                let mut message = "Failed to parse file: ".to_owned();
                message.append(reason.as_str());
                message
            },
            PathResolutionError::StructNotFound => "Didn't find struct in file.".to_owned(),
        }
    }
}

impl MissingAttribute {
    pub fn message(&self) -> (message: String)
        ensures
            message@ == missing_message(self@),
    {
        let mut message = self.derive_name.clone();
        message.append(" requires the '");
        message.append(self.name.as_str());
        message.append("' attribute.");
        message
    }
}

impl ArgumentError {
    pub fn message(&self) -> (message: String)
        ensures
            message@ == argument_message(self@),
    {
        match self {
            ArgumentError::NotAnExpression(reason) => reason.clone(),
            ArgumentError::NotParenthesized => "Encountered unknown error while parsing args.".to_owned(),
            ArgumentError::NeitherPathNorArray => {
                "inter_struct's macro parameters should be either a single path or a vector of paths as str, such as '[\"crate::your::path\"]'.".to_owned()
            },
            ArgumentError::NotAString => "Only paths are allowed in inter_struct's attribute.".to_owned(),
            ArgumentError::NotAPath => "Only paths are allowed in inter_struct's attributes.".to_owned(),
        }
    }
}

impl SourceError {
    pub fn message(&self) -> (message: String)
        ensures
            message@ == source_message(self@),
    {
        match self {
            SourceError::NotParsed(reason) => reason.clone(),
            SourceError::NotAStruct => "expected `struct`".to_owned(),
        }
    }
}

impl GenerationError {
    pub fn message(&self) -> (message: String)
        ensures
            message@ == generation_message(self@),
    {
        match self {
            GenerationError::Source(error) => error.message(),
            GenerationError::Attribute(missing) => missing.message(),
            GenerationError::Arguments(error) => error.message(),
            GenerationError::Path(target_path, error) => {
                let mut message = target_path.text();
                message.append(": ");
                message.append(error.message().as_str());
                message
            },
            GenerationError::Shape(target_path, error) => {
                let mut message = target_path.text();
                message.append(": ");
                message.append(error.message().as_str());
                message
            },
        }
    }
}

impl MappingPlan {
    /// Why fields of the plan are rejected: one message for each of them, in
    /// the order of the plan.
    pub fn messages(&self) -> (messages: Vec<String>)
        ensures
            views(messages@) == entry_messages(self@.entries, self.mode),
    {
        let mut messages: Vec<String> = Vec::new();
        let ghost entries = self@.entries;
        let mut i: usize = 0;
        proof {
            assert(views(messages@) =~= Seq::<Seq<char>>::empty());
        }
        while i < self.entries.len()
            invariant
                i <= self.entries.len(),
                entries == self@.entries,
                views(messages@) == entry_messages(entries.take(i as int), self.mode),
            decreases self.entries.len() - i,
        {
            proof {
                assert(entries.take(i + 1).drop_last() == entries.take(i as int));
                assert(entries.take(i + 1).last() == self.entries@[i as int]@);
            }
            let ghost before = views(messages@);
            match self.entries[i].message(self.mode) {
                Some(message) => {
                    messages.push(message);
                    proof {
                        assert(views(messages@) =~= before.push(message@));
                    }
                },
                None => {},
            }
            i += 1;
        }
        proof {
            assert(entries.take(entries.len() as int) == entries);
        }
        messages
    }
}

/// Collect every message there is for the targets of a source: for a target
/// without a plan the reason, for a plan one message per field that it
/// rejects. Nothing is left out and nothing ends the list early.
pub fn diagnostics(impls: &Vec<Result<MappingPlan, GenerationError>>) -> (messages: Vec<String>)
    ensures
        views(messages@) == all_messages(outcome_views(impls@)),
{
    let mut messages: Vec<String> = Vec::new();
    let ghost outcomes = outcome_views(impls@);
    let mut i: usize = 0;
    proof {
        assert(views(messages@) =~= Seq::<Seq<char>>::empty());
    }
    while i < impls.len()
        invariant
            i <= impls.len(),
            outcomes == outcome_views(impls@),
            views(messages@) == all_messages(outcomes.take(i as int)),
        decreases impls.len() - i,
    {
        proof {
            assert(outcomes.take(i + 1).drop_last() == outcomes.take(i as int));
            assert(outcomes.take(i + 1).last() == outcomes[i as int]);
        }
        let ghost before = views(messages@);
        match &impls[i] {
            Ok(plan) => {
                let mut found = plan.messages();
                let ghost added = views(found@);
                messages.append(&mut found);
                proof {
                    assert(views(messages@) =~= before + added);
                }
            },
            Err(error) => {
                let message = error.message();
                messages.push(message);
                proof {
                    assert(views(messages@) =~= before + seq![message@]);
                }
            },
        }
        i += 1;
    }
    proof {
        assert(outcomes.take(outcomes.len() as int) == outcomes);
    }
    messages
}

} // verus!
