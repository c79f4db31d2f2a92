//! The optional scalar: no value, or one value of a primitive kind.
use vstd::prelude::*;

use crate::json::{WireModel, WireValue};
use crate::skip::ShouldSkip;

verus! {

/// A term value: absent, or present as an integer, a boolean or a string.
#[derive(Debug, Clone, PartialEq, Eq)]
pub enum OptionalScalar {
    Absent,
    Int(i64),
    Bool(bool),
    Str(String),
}

/// The mathematical value of an [`OptionalScalar`].
pub enum ScalarModel {
    Absent,
    Int(int),
    Bool(bool),
    Str(Seq<char>),
}

impl View for OptionalScalar {
    type V = ScalarModel;

    open spec fn view(&self) -> ScalarModel {
        match self {
            OptionalScalar::Absent => ScalarModel::Absent,
            OptionalScalar::Int(i) => ScalarModel::Int(*i as int),
            OptionalScalar::Bool(b) => ScalarModel::Bool(*b),
            OptionalScalar::Str(s) => ScalarModel::Str(s@),
        }
    }
}

/// The wire leaf of a scalar: `null` when absent, else the value itself.
pub open spec fn scalar_wire(v: ScalarModel) -> WireModel {
    match v {
        ScalarModel::Absent => WireModel::Null,
        ScalarModel::Int(i) => WireModel::Int(i),
        ScalarModel::Bool(b) => WireModel::Bool(b),
        ScalarModel::Str(s) => WireModel::Str(s),
    }
}

impl OptionalScalar {
    /// Whether no value is held.
    pub fn is_absent(&self) -> (r: bool)
        ensures
            r == (self@ is Absent),
    {
        match self {
            OptionalScalar::Absent => true,
            _ => false,
        }
    }

    /// The wire leaf of this value.
    pub fn to_wire(&self) -> (r: WireValue)
        ensures
            r@ == scalar_wire(self@),
    {
        match self {
            OptionalScalar::Absent => WireValue::Null,
            OptionalScalar::Int(i) => WireValue::Int(*i),
            OptionalScalar::Bool(b) => WireValue::Bool(*b),
            OptionalScalar::Str(s) => WireValue::Str(s.clone()),
        }
    }
}

/// A scalar is left out exactly when it is absent.
impl ShouldSkip for OptionalScalar {
    open spec fn skips(&self) -> bool {
        self@ is Absent
    }

    fn should_skip(&self) -> (r: bool) {
        self.is_absent()
    }
}

impl From<i64> for OptionalScalar {
    fn from(v: i64) -> (r: OptionalScalar) {
        OptionalScalar::Int(v)
    }
}

impl vstd::std_specs::convert::FromSpecImpl<i64> for OptionalScalar {
    open spec fn obeys_from_spec() -> bool {
        true
    }

    open spec fn from_spec(v: i64) -> OptionalScalar {
        OptionalScalar::Int(v)
    }
}

impl From<i32> for OptionalScalar {
    fn from(v: i32) -> (r: OptionalScalar) {
        OptionalScalar::Int(v as i64)
    }
}

impl vstd::std_specs::convert::FromSpecImpl<i32> for OptionalScalar {
    open spec fn obeys_from_spec() -> bool {
        true
    }

    open spec fn from_spec(v: i32) -> OptionalScalar {
        OptionalScalar::Int(v as i64)
    }
}

impl From<u32> for OptionalScalar {
    fn from(v: u32) -> (r: OptionalScalar) {
        OptionalScalar::Int(v as i64)
    }
}

impl vstd::std_specs::convert::FromSpecImpl<u32> for OptionalScalar {
    open spec fn obeys_from_spec() -> bool {
        true
    }

    open spec fn from_spec(v: u32) -> OptionalScalar {
        OptionalScalar::Int(v as i64)
    }
}

impl From<bool> for OptionalScalar {
    fn from(v: bool) -> (r: OptionalScalar) {
        OptionalScalar::Bool(v)
    }
}

impl vstd::std_specs::convert::FromSpecImpl<bool> for OptionalScalar {
    open spec fn obeys_from_spec() -> bool {
        true
    }

    open spec fn from_spec(v: bool) -> OptionalScalar {
        OptionalScalar::Bool(v)
    }
}

impl From<String> for OptionalScalar {
    fn from(v: String) -> (r: OptionalScalar) {
        OptionalScalar::Str(v)
    }
}

impl vstd::std_specs::convert::FromSpecImpl<String> for OptionalScalar {
    open spec fn obeys_from_spec() -> bool {
        true
    }

    open spec fn from_spec(v: String) -> OptionalScalar {
        OptionalScalar::Str(v)
    }
}

impl From<Option<String>> for OptionalScalar {
    fn from(v: Option<String>) -> (r: OptionalScalar) {
        match v {
            Some(x) => OptionalScalar::Str(x),
            None => OptionalScalar::Absent,
        }
    }
}

impl vstd::std_specs::convert::FromSpecImpl<Option<String>> for OptionalScalar {
    open spec fn obeys_from_spec() -> bool {
        true
    }

    open spec fn from_spec(v: Option<String>) -> OptionalScalar {
        match v {
            Some(x) => OptionalScalar::Str(x),
            None => OptionalScalar::Absent,
        }
    }
}

impl From<Option<i64>> for OptionalScalar {
    fn from(v: Option<i64>) -> (r: OptionalScalar) {
        match v {
            Some(x) => OptionalScalar::Int(x),
            None => OptionalScalar::Absent,
        }
    }
}

impl vstd::std_specs::convert::FromSpecImpl<Option<i64>> for OptionalScalar {
    open spec fn obeys_from_spec() -> bool {
        true
    }

    open spec fn from_spec(v: Option<i64>) -> OptionalScalar {
        match v {
            Some(x) => OptionalScalar::Int(x),
            None => OptionalScalar::Absent,
        }
    }
}

} // verus!
