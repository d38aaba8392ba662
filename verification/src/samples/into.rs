//! Records that are converted into one another.

use vstd::prelude::*;
use vstd::std_specs::convert::FromSpecImpl;

verus! {

/// A source with more fields than its targets.
pub struct FromStruct {
    pub normal: String,
    pub optional: Option<String>,
    pub ignored_field: String,
    pub another_ignored_field: Option<String>,
}

/// A source without optional fields.
pub struct FromStructNonOptional {
    pub normal: String,
    pub optional: String,
}

/// A struct with less, but otherwise identical fields.
pub struct IntoStruct {
    pub normal: String,
    pub optional: Option<String>,
}

/// A struct with a few additional fields that should be populated by their
/// `Default` values.
pub struct IntoDefaultStruct {
    pub normal: String,
    pub optional: Option<String>,
    pub normal_additional: String,
    pub optional_additional: Option<String>,
}

impl FromStruct {
    pub fn new() -> (from: Self)
        ensures
            from.normal@ == "from"@,
            from.optional.deep_view() == Some("from"@),
            from.ignored_field@ == "from"@,
            from.another_ignored_field.deep_view() == Some("from"@),
    {
        FromStruct {
            normal: "from".to_owned(),
            optional: Some("from".to_owned()),
            ignored_field: "from".to_owned(),
            another_ignored_field: Some("from".to_owned()),
        }
    }
}

impl FromStructNonOptional {
    pub fn new() -> (from: Self)
        ensures
            from.normal@ == "from_non_optional"@,
            from.optional@ == "from_non_optional"@,
    {
        FromStructNonOptional {
            normal: "from_non_optional".to_owned(),
            optional: "from_non_optional".to_owned(),
        }
    }
}

impl Default for IntoDefaultStruct {
    fn default() -> (default: Self)
        ensures
            default.normal@ == Seq::<char>::empty(),
            default.optional is None,
            default.normal_additional@ == Seq::<char>::empty(),
            default.optional_additional is None,
    {
        IntoDefaultStruct {
            normal: String::new(),
            optional: None,
            normal_additional: String::new(),
            optional_additional: None,
        }
    }
}

impl From<FromStruct> for IntoStruct {
    fn from(src: FromStruct) -> (into: Self) {
        IntoStruct { normal: src.normal, optional: src.optional }
    }
}

impl FromSpecImpl<FromStruct> for IntoStruct {
    open spec fn obeys_from_spec() -> bool {
        true
    }

    open spec fn from_spec(src: FromStruct) -> Self {
        IntoStruct { normal: src.normal, optional: src.optional }
    }
}

impl From<FromStructNonOptional> for IntoStruct {
    fn from(src: FromStructNonOptional) -> (into: Self) {
        IntoStruct { normal: src.normal, optional: Some(src.optional) }
    }
}

impl FromSpecImpl<FromStructNonOptional> for IntoStruct {
    open spec fn obeys_from_spec() -> bool {
        true
    }

    open spec fn from_spec(src: FromStructNonOptional) -> Self {
        IntoStruct { normal: src.normal, optional: Some(src.optional) }
    }
}

impl From<FromStruct> for IntoDefaultStruct {
    fn from(src: FromStruct) -> (into: Self)
        ensures
            into.normal@ == src.normal@,
            into.optional.deep_view() == src.optional.deep_view(),
            into.normal_additional@ == Seq::<char>::empty(),
            into.optional_additional is None,
    {
        IntoDefaultStruct { normal: src.normal, optional: src.optional, ..IntoDefaultStruct::default() }
    }
}

impl FromSpecImpl<FromStruct> for IntoDefaultStruct {
    open spec fn obeys_from_spec() -> bool {
        false
    }

    open spec fn from_spec(src: FromStruct) -> Self {
        arbitrary()
    }
}

impl From<FromStructNonOptional> for IntoDefaultStruct {
    fn from(src: FromStructNonOptional) -> (into: Self)
        ensures
            into.normal@ == src.normal@,
            into.optional.deep_view() == Some(src.optional@),
            into.normal_additional@ == Seq::<char>::empty(),
            into.optional_additional is None,
    {
        IntoDefaultStruct { normal: src.normal, optional: Some(src.optional), ..IntoDefaultStruct::default() }
    }
}

impl FromSpecImpl<FromStructNonOptional> for IntoDefaultStruct {
    open spec fn obeys_from_spec() -> bool {
        false
    }

    open spec fn from_spec(src: FromStructNonOptional) -> Self {
        arbitrary()
    }
}

} // verus!
