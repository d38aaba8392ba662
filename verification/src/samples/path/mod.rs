//! Records that lie at different depths of the module tree.

use vstd::prelude::*;
use vstd::std_specs::convert::FromSpecImpl;
use crate::samples::RootLevelFile;

pub mod submod;

verus! {

/// A record in the unit that stands for its directory.
pub struct InModFile {
    pub field: String,
}

/// A record that is converted into records all over the module tree.
pub struct TestStruct {
    pub field: String,
}

impl From<TestStruct> for RootLevelFile {
    fn from(src: TestStruct) -> (into: Self) {
        RootLevelFile { field: src.field }
    }
}

impl FromSpecImpl<TestStruct> for RootLevelFile {
    open spec fn obeys_from_spec() -> bool {
        true
    }

    open spec fn from_spec(src: TestStruct) -> Self {
        RootLevelFile { field: src.field }
    }
}

impl From<TestStruct> for InModFile {
    fn from(src: TestStruct) -> (into: Self) {
        InModFile { field: src.field }
    }
}

impl FromSpecImpl<TestStruct> for InModFile {
    open spec fn obeys_from_spec() -> bool {
        true
    }

    open spec fn from_spec(src: TestStruct) -> Self {
        InModFile { field: src.field }
    }
}

} // verus!
