//! Finding the record that a path names.
//!
//! The source tree is a plain value: for every directory and every source
//! unit below the root, where it lies and, for a unit, what it holds or why
//! it could not be read. A unit
//! lies where its module does, so `some/thing.rs` and the directory
//! `some/thing` both lie at `some::thing`, and `some/mod.rs` lies at
//! `some::mod`.

use vstd::prelude::*;
use crate::schema::{Declaration, DeclarationView, RecordSchema, RecordSchemaView, TargetPath};
use crate::syntax::{parse_unit, parsed_unit};
use crate::types::views;

verus! {

/// What lies at a place of the source tree.
#[derive(Debug, PartialEq, Eq)]
pub enum SourceNode {
    Directory,
    /// A source unit and its content.
    Unit(String),
    /// A source unit that could not be read, and why.
    Unreadable(String),
}

/// One directory or source unit and the module names that lead to it.
#[derive(Debug, PartialEq, Eq)]
pub struct SourceEntry {
    pub location: Vec<String>,
    pub node: SourceNode,
}

/// Everything below the root directory of a compilation unit.
#[derive(Debug, PartialEq, Eq)]
pub struct SourceTree {
    pub entries: Vec<SourceEntry>,
}

/// Why a path leads to no record.
#[derive(Debug, PartialEq, Eq)]
pub enum PathResolutionError {
    /// The path does not start with `crate`.
    NotCrateRelative,
    /// The path is `crate` alone and names no record.
    MissingRecordName,
    /// The modules of the path lead to no source unit, or to one that
    /// could not be read; then with the reason.
    FailedToOpenFile(Option<String>),
    /// The source unit cannot be parsed; the parser's message.
    FailedToParseFile(String),
    /// The source unit declares no record of that name.
    StructNotFound,
}

/// The view of a [`SourceNode`].
pub enum SourceNodeView {
    Directory,
    Unit(Seq<char>),
    Unreadable(Seq<char>),
}

/// The view of a [`SourceEntry`].
pub struct SourceEntryView {
    pub location: Seq<Seq<char>>,
    pub node: SourceNodeView,
}

/// The view of a [`SourceTree`].
pub struct SourceTreeView {
    pub entries: Seq<SourceEntryView>,
}

/// The view of a [`PathResolutionError`].
pub enum PathResolutionErrorView {
    NotCrateRelative,
    MissingRecordName,
    FailedToOpenFile(Option<Seq<char>>),
    FailedToParseFile(Seq<char>),
    StructNotFound,
}

impl View for SourceNode {
    type V = SourceNodeView;

    open spec fn view(&self) -> SourceNodeView {
        match *self {
            SourceNode::Directory => SourceNodeView::Directory,
            SourceNode::Unit(content) => SourceNodeView::Unit(content@),
            SourceNode::Unreadable(reason) => SourceNodeView::Unreadable(reason@),
        }
    }
}

impl View for SourceEntry {
    type V = SourceEntryView;

    open spec fn view(&self) -> SourceEntryView {
        SourceEntryView { location: views(self.location@), node: self.node@ }
    }
}

impl View for SourceTree {
    type V = SourceTreeView;

    open spec fn view(&self) -> SourceTreeView {
        SourceTreeView { entries: views(self.entries@) }
    }
}

impl View for PathResolutionError {
    type V = PathResolutionErrorView;

    open spec fn view(&self) -> PathResolutionErrorView {
        match *self {
            PathResolutionError::NotCrateRelative => PathResolutionErrorView::NotCrateRelative,
            PathResolutionError::MissingRecordName => PathResolutionErrorView::MissingRecordName,
            PathResolutionError::FailedToOpenFile(None) => PathResolutionErrorView::FailedToOpenFile(None),
            PathResolutionError::FailedToOpenFile(Some(reason)) => PathResolutionErrorView::FailedToOpenFile(
                Some(reason@),
            ),
            PathResolutionError::FailedToParseFile(message) => PathResolutionErrorView::FailedToParseFile(
                message@,
            ),
            PathResolutionError::StructNotFound => PathResolutionErrorView::StructNotFound,
        }
    }
}

/// Where the walk along the modules of a path stands.
pub enum Place {
    /// In the directory at this location.
    Directory(Seq<Seq<char>>),
    /// In the source unit at this location.
    Unit(Seq<Seq<char>>),
    /// Off the tree.
    Lost,
}

/// The first segment of every path that can be resolved.
pub open spec fn crate_ident() -> Seq<char> {
    "crate"@
}

/// The name of the unit that stands for its directory.
pub open spec fn directory_unit() -> Seq<char> {
    "mod"@
}

/// What reading a source unit gave: its content, or the reason why there
/// is none.
pub type Reading = Result<Seq<char>, Seq<char>>;

/// What reading the node gave, if it is a source unit.
pub open spec fn reading(node: SourceNodeView) -> Option<Reading> {
    match node {
        SourceNodeView::Directory => None,
        SourceNodeView::Unit(content) => Some(Ok(content)),
        SourceNodeView::Unreadable(reason) => Some(Err(reason)),
    }
}

/// What reading the first source unit among `entries` that lies at
/// `location` gave.
pub open spec fn unit_among(entries: Seq<SourceEntryView>, location: Seq<Seq<char>>) -> Option<Reading>
    decreases entries.len(),
{
    if entries.len() == 0 {
        None
    } else if entries.first().location == location && reading(entries.first().node) is Some {
        reading(entries.first().node)
    } else {
        unit_among(entries.drop_first(), location)
    }
}

impl SourceTreeView {
    /// A directory lies at `location`.
    pub open spec fn has_directory(self, location: Seq<Seq<char>>) -> bool {
        exists|i: int|
            0 <= i < self.entries.len() && (#[trigger] self.entries[i]).location == location
                && self.entries[i].node is Directory
    }

    /// What reading the source unit at `location` gave, the first where
    /// there are several.
    pub open spec fn unit_at(self, location: Seq<Seq<char>>) -> Option<Reading> {
        unit_among(self.entries, location)
    }

    /// Where the walk stands after the first `steps` of `modules`: from a
    /// directory it goes on into the directory of the next module's name, or
    /// else into the unit of that name; from anywhere else it is lost.
    pub open spec fn walk(self, modules: Seq<Seq<char>>, steps: nat) -> Place
        decreases steps,
    {
        if steps == 0 {
            Place::Directory(Seq::empty())
        } else {
            match self.walk(modules, (steps - 1) as nat) {
                Place::Directory(_) => {
                    let next = modules.take(steps as int);
                    if self.has_directory(next) {
                        Place::Directory(next)
                    } else if self.unit_at(next) is Some {
                        Place::Unit(next)
                    } else {
                        Place::Lost
                    }
                },
                _ => Place::Lost,
            }
        }
    }

    /// What reading the unit that the modules lead to gave: for a directory,
    /// the unit that stands for it.
    pub open spec fn unit_of(self, modules: Seq<Seq<char>>) -> Option<Reading> {
        match self.walk(modules, modules.len()) {
            Place::Directory(location) => self.unit_at(location.push(directory_unit())),
            Place::Unit(location) => self.unit_at(location),
            Place::Lost => None,
        }
    }

    /// Every one of the first `steps` modules is a directory below the one
    /// before.
    pub open spec fn directories_lead(self, modules: Seq<Seq<char>>, steps: nat) -> bool {
        forall|j: int| 1 <= j <= steps ==> self.has_directory(#[trigger] modules.take(j))
    }
}

/// The first record named `name` among the declarations.
pub open spec fn record_among(declarations: Seq<DeclarationView>, name: Seq<char>) -> Option<RecordSchemaView>
    decreases declarations.len(),
{
    if declarations.len() == 0 {
        None
    } else {
        match declarations.first() {
            DeclarationView::Record(record) => if record.ident == name {
                Some(record)
            } else {
                record_among(declarations.drop_first(), name)
            },
            DeclarationView::Other => record_among(declarations.drop_first(), name),
        }
    }
}

/// The record that a source unit declares under `name`.
pub open spec fn record_in_unit(content: Seq<char>, name: Seq<char>) -> Result<
    RecordSchemaView,
    PathResolutionErrorView,
> {
    match parsed_unit(content) {
        Err(message) => Err(PathResolutionErrorView::FailedToParseFile(message)),
        Ok(declarations) => match record_among(declarations, name) {
            Some(record) => Ok(record),
            None => Err(PathResolutionErrorView::StructNotFound),
        },
    }
}

/// The record that the segments of a path lead to in a source tree.
pub open spec fn resolution(tree: SourceTreeView, segments: Seq<Seq<char>>) -> Result<
    RecordSchemaView,
    PathResolutionErrorView,
> {
    if segments.len() == 0 || segments[0] != crate_ident() {
        Err(PathResolutionErrorView::NotCrateRelative)
    } else if segments.len() == 1 {
        Err(PathResolutionErrorView::MissingRecordName)
    } else {
        match tree.unit_of(segments.subrange(1, segments.len() - 1)) {
            None => Err(PathResolutionErrorView::FailedToOpenFile(None)),
            Some(Err(reason)) => Err(PathResolutionErrorView::FailedToOpenFile(Some(reason))),
            Some(Ok(content)) => record_in_unit(content, segments.last()),
        }
    }
}

/// What a record that was looked for is as a value of the specification.
pub open spec fn found_view(record: Option<RecordSchema>) -> Option<RecordSchemaView> {
    match record {
        Some(record) => Some(record@),
        None => None,
    }
}

/// What a unit that was looked for is as a value of the specification.
pub open spec fn reading_view(unit: Option<Result<&String, &String>>) -> Option<Reading> {
    match unit {
        None => None,
        Some(Ok(content)) => Some(Ok(content@)),
        Some(Err(reason)) => Some(Err(reason@)),
    }
}

/// What a resolved path is as a value of the specification.
pub open spec fn resolved_view(record: Result<RecordSchema, PathResolutionError>) -> Result<
    RecordSchemaView,
    PathResolutionErrorView,
> {
    match record {
        Ok(record) => Ok(record@),
        Err(error) => Err(error@),
    }
}

/// Where the walk stands, without the location.
#[derive(Clone, Copy, Debug, PartialEq, Eq, Structural)]
enum Standing {
    Directory,
    Unit,
    Lost,
}

/// Whether two locations are made of the same names.
fn same_location(left: &Vec<String>, right: &Vec<String>) -> (same: bool)
    ensures
        same == (views(left@) == views(right@)),
{
    if left.len() != right.len() {
        assert(views(left@).len() != views(right@).len());
        return false;
    }
    let mut i: usize = 0;
    while i < left.len()
        invariant
            i <= left.len(),
            left.len() == right.len(),
            forall|k: int| 0 <= k < i ==> left@[k]@ == right@[k]@,
        decreases left.len() - i,
    {
        if left[i] != right[i] {
            assert(views(left@)[i as int] != views(right@)[i as int]);
            return false;
        }
        i += 1;
    }
    assert(views(left@) =~= views(right@));
    true
}

impl SourceTree {
    /// Whether a directory lies at `location`.
    pub fn contains_directory(&self, location: &Vec<String>) -> (found: bool)
        ensures
            found == self@.has_directory(views(location@)),
    {
        let mut i: usize = 0;
        while i < self.entries.len()
            invariant
                i <= self.entries.len(),
                forall|k: int|
                    0 <= k < i ==> !((#[trigger] self@.entries[k]).location == views(location@)
                        && self@.entries[k].node is Directory),
            decreases self.entries.len() - i,
        {
            let entry = &self.entries[i];
            assert(self@.entries[i as int] == entry@);
            if matches!(entry.node, SourceNode::Directory) && same_location(&entry.location, location) {
                return true;
            }
            i += 1;
        }
        false
    }

    /// What reading the source unit at `location` gave, the first where
    /// there are several: its content, or the reason why there is none.
    pub fn find_unit(&self, location: &Vec<String>) -> (unit: Option<Result<&String, &String>>)
        ensures
            reading_view(unit) == self@.unit_at(views(location@)),
    {
        let mut i: usize = 0;
        assert(self@.entries.skip(0) == self@.entries);
        while i < self.entries.len()
            invariant
                i <= self.entries.len(),
                self@.unit_at(views(location@)) == unit_among(self@.entries.skip(i as int), views(location@)),
            decreases self.entries.len() - i,
        {
            let entry = &self.entries[i];
            proof {
                assert(self@.entries.skip(i as int).first() == entry@);
                assert(self@.entries.skip(i as int).drop_first() == self@.entries.skip(i + 1));
            }
            if same_location(&entry.location, location) {
                match &entry.node {
                    SourceNode::Unit(content) => {
                        return Some(Ok(content));
                    },
                    SourceNode::Unreadable(reason) => {
                        return Some(Err(reason));
                    },
                    SourceNode::Directory => {},
                }
            }
            i += 1;
        }
        None
    }
}

/// Take the first record named `name` out of the declarations of a unit.
pub fn take_record(declarations: Vec<Declaration>, name: &str) -> (record: Option<RecordSchema>)
    ensures
        found_view(record) == record_among(views(declarations@), name@),
{
    let wanted = name.to_owned();
    let ghost all = views(declarations@);
    let mut remaining = declarations;
    let mut i: usize = 0;
    assert(all.skip(0) == all);
    while i < remaining.len()
        invariant
            i <= remaining.len(),
            views(remaining@) == all,
            all == views(declarations@),
            wanted@ == name@,
            record_among(all, name@) == record_among(all.skip(i as int), name@),
        decreases remaining.len() - i,
    {
        proof {
            assert(all.skip(i as int).first() == remaining@[i as int]@);
            assert(all.skip(i as int).drop_first() == all.skip(i + 1));
        }
        let found = match &remaining[i] {
            Declaration::Record(record) => record.ident == wanted,
            Declaration::Other => false,
        };
        if found {
            return match remaining.swap_remove(i) {
                Declaration::Record(record) => Some(record),
                Declaration::Other => None,
            };
        }
        i += 1;
    }
    None
}

/// Take the record named `name` from the text of a source unit.
pub fn find_record(content: &str, name: &str) -> (record: Result<RecordSchema, PathResolutionError>)
    ensures
        resolved_view(record) == record_in_unit(content@, name@),
{
    match parse_unit(content) {
        Err(message) => Err(PathResolutionError::FailedToParseFile(message)),
        Ok(declarations) => match take_record(declarations, name) {
            Some(record) => Ok(record),
            None => Err(PathResolutionError::StructNotFound),
        },
    }
}

/// Take a path to a record and return that record.
///
/// The path must start with `crate`; its last segment names the record and
/// the segments in between name modules. Only modules that are a directory
/// or a source unit of their own are found: a module that is declared inside
/// a unit leads nowhere, and the path then fails to open a file.
pub fn get_struct_from_path(root: &SourceTree, path: &TargetPath) -> (record: Result<
    RecordSchema,
    PathResolutionError,
>)
    ensures
        resolved_view(record) == resolution(root@, path@.segments),
{
    let segments = &path.segments;
    let crate_ident = "crate".to_owned();
    if segments.len() == 0 || segments[0] != crate_ident {
        return Err(PathResolutionError::NotCrateRelative);
    }
    if segments.len() == 1 {
        return Err(PathResolutionError::MissingRecordName);
    }
    let last: usize = segments.len() - 1;
    let ghost modules = views(segments@).subrange(1, last as int);

    let mut location: Vec<String> = Vec::new();
    let mut standing = Standing::Directory;
    let mut i: usize = 1;
    proof {
        assert(views(location@) =~= Seq::<Seq<char>>::empty());
    }
    while i < last
        invariant
            1 <= i <= last,
            last == segments.len() - 1,
            modules == views(segments@).subrange(1, last as int),
            match root@.walk(modules, (i - 1) as nat) {
                Place::Directory(at) => standing == Standing::Directory && at == views(location@),
                Place::Unit(at) => standing == Standing::Unit && at == views(location@),
                Place::Lost => standing == Standing::Lost,
            },
            standing == Standing::Directory ==> views(location@) == modules.take(i - 1),
        decreases last - i,
    {
        match standing {
            Standing::Directory => {
                let ghost before = views(location@);
                location.push(segments[i].clone());
                proof {
                    assert(views(location@) =~= before.push(segments@[i as int]@));
                    assert(modules.take(i as int) =~= modules.take(i - 1).push(segments@[i as int]@));
                }
                if root.contains_directory(&location) {
                } else if root.find_unit(&location).is_some() {
                    standing = Standing::Unit;
                } else {
                    standing = Standing::Lost;
                }
            },
            _ => {
                standing = Standing::Lost;
            },
        }
        i += 1;
    }
    assert(modules.len() == last - 1);
    let content = match standing {
        Standing::Directory => {
            let ghost before = views(location@);
            location.push("mod".to_owned());
            proof {
                assert(views(location@) =~= before.push(directory_unit()));
            }
            root.find_unit(&location)
        },
        Standing::Unit => root.find_unit(&location),
        Standing::Lost => None,
    };
    match content {
        None => Err(PathResolutionError::FailedToOpenFile(None)),
        Some(Err(reason)) => Err(PathResolutionError::FailedToOpenFile(Some(reason.clone()))),
        Some(Ok(content)) => {
            proof {
                assert(views(segments@).last() == segments@[last as int]@);
            }
            find_record(content.as_str(), segments[last].as_str())
        },
    }
}

/// Where a walk ends: in a directory if every module on the way is a
/// directory; in a unit if every module but the last is a directory and the
/// last is a unit and no directory; and nowhere else.
pub proof fn walk_follows_directories(tree: SourceTreeView, modules: Seq<Seq<char>>, steps: nat)
    ensures
        tree.walk(modules, steps) is Directory <==> tree.directories_lead(modules, steps),
        tree.walk(modules, steps) is Directory ==> tree.walk(modules, steps) == Place::Directory(
            modules.take(steps as int),
        ),
        tree.walk(modules, steps) is Unit <==> steps > 0 && tree.directories_lead(modules, (steps - 1) as nat)
            && !tree.has_directory(modules.take(steps as int)) && tree.unit_at(modules.take(steps as int))
            is Some,
        tree.walk(modules, steps) is Unit ==> tree.walk(modules, steps) == Place::Unit(
            modules.take(steps as int),
        ),
    decreases steps,
{
    if steps == 0 {
        assert(modules.take(0) =~= Seq::<Seq<char>>::empty());
    } else {
        walk_follows_directories(tree, modules, (steps - 1) as nat);
        if tree.directories_lead(modules, steps) {
            assert(tree.has_directory(modules.take(steps as int)));
            assert(tree.directories_lead(modules, (steps - 1) as nat));
        }
        if tree.directories_lead(modules, (steps - 1) as nat) && tree.has_directory(modules.take(steps as int)) {
            assert(tree.directories_lead(modules, steps));
        }
    }
}

/// Resolving the same path twice against an unchanged tree gives the same
/// record, or fails twice in the same way: whatever two trees hold that
/// read the same, and whatever two paths that spell the same, what the one
/// path finds in the one tree is what the other finds in the other.
pub proof fn resolution_is_repeatable(
    tree: &SourceTree,
    path: &TargetPath,
    first: Result<RecordSchema, PathResolutionError>,
    again: &SourceTree,
    same_path: &TargetPath,
    second: Result<RecordSchema, PathResolutionError>,
)
    requires
        tree@ == again@,
        path@ == same_path@,
        resolved_view(first) == resolution(tree@, path@.segments),
        resolved_view(second) == resolution(again@, same_path@.segments),
    ensures
        resolved_view(first) == resolved_view(second),
        first is Ok <==> second is Ok,
        first is Ok ==> first->Ok_0@ == second->Ok_0@,
{
}

} // verus!
