//! The optional attributes shared by many query kinds: a relevance boost and a name tag.
use vstd::prelude::*;

use crate::json::{entries_view, WireModel, WireValue};
use crate::skip::ShouldSkip;

verus! {

/// A relevance weight: the decimal `units / 10^scale`.
#[derive(Debug, Clone, Copy, PartialEq, Eq)]
pub struct Boost {
    pub units: i64,
    pub scale: u8,
}

/// The mathematical value of a [`Boost`]: its digits and its number of fractional digits.
pub struct BoostModel {
    pub units: int,
    pub scale: nat,
}

impl View for Boost {
    type V = BoostModel;

    open spec fn view(&self) -> BoostModel {
        BoostModel { units: self.units as int, scale: self.scale as nat }
    }
}

impl Boost {
    /// The weight `units / 10^scale`, written with `scale` fractional digits.
    pub fn decimal(units: i64, scale: u8) -> (r: Boost)
        ensures
            r@ == (BoostModel { units: units as int, scale: scale as nat }),
    {
        Boost { units, scale }
    }

    /// The wire leaf of this weight.
    pub fn to_wire(&self) -> (r: WireValue)
        ensures
            r@ == WireModel::Decimal(self@.units, self@.scale),
    {
        WireValue::Decimal(self.units, self.scale)
    }
}

impl From<i64> for Boost {
    fn from(v: i64) -> (r: Boost) {
        Boost { units: v, scale: 0 }
    }
}

impl vstd::std_specs::convert::FromSpecImpl<i64> for Boost {
    open spec fn obeys_from_spec() -> bool {
        true
    }

    open spec fn from_spec(v: i64) -> Boost {
        Boost { units: v, scale: 0 }
    }
}

impl From<i32> for Boost {
    fn from(v: i32) -> (r: Boost) {
        Boost { units: v as i64, scale: 0 }
    }
}

impl vstd::std_specs::convert::FromSpecImpl<i32> for Boost {
    open spec fn obeys_from_spec() -> bool {
        true
    }

    open spec fn from_spec(v: i32) -> Boost {
        Boost { units: v as i64, scale: 0 }
    }
}

impl From<u32> for Boost {
    fn from(v: u32) -> (r: Boost) {
        Boost { units: v as i64, scale: 0 }
    }
}

impl vstd::std_specs::convert::FromSpecImpl<u32> for Boost {
    open spec fn obeys_from_spec() -> bool {
        true
    }

    open spec fn from_spec(v: u32) -> Boost {
        Boost { units: v as i64, scale: 0 }
    }
}

/// The relevance boost and the name tag of a query, each unset until given.
#[derive(Debug, Clone, PartialEq, Eq)]
pub struct Conveniences {
    boost: Option<Boost>,
    name: Option<String>,
}

/// The mathematical value of [`Conveniences`].
pub struct ConvModel {
    pub boost: Option<BoostModel>,
    pub name: Option<Seq<char>>,
}

impl ConvModel {
    /// Both attributes unset.
    pub open spec fn unset() -> ConvModel {
        ConvModel { boost: None, name: None }
    }

    /// The same attributes with the boost set to `b`.
    pub open spec fn with_boost(self, b: BoostModel) -> ConvModel {
        ConvModel { boost: Some(b), ..self }
    }

    /// The same attributes with the name tag set to `n`.
    pub open spec fn with_name(self, n: Seq<char>) -> ConvModel {
        ConvModel { name: Some(n), ..self }
    }
}

impl View for Conveniences {
    type V = ConvModel;

    closed spec fn view(&self) -> ConvModel {
        ConvModel {
            boost: match self.boost {
                Some(b) => Some(b@),
                None => None,
            },
            name: match self.name {
                Some(n) => Some(n@),
                None => None,
            },
        }
    }
}

/// The wire key of the boost.
pub open spec fn boost_key() -> Seq<char> {
    "boost"@
}

/// The wire key of the name tag.
pub open spec fn name_key() -> Seq<char> {
    "_name"@
}

/// The members that the set attributes add to a parameter bag: the boost as a
/// decimal, then the name tag; an unset one adds nothing.
pub open spec fn conv_entries(c: ConvModel) -> Seq<(Seq<char>, WireModel)> {
    let b = match c.boost {
        Some(b) => seq![(boost_key(), WireModel::Decimal(b.units, b.scale))],
        None => Seq::empty(),
    };
    let n = match c.name {
        Some(n) => seq![(name_key(), WireModel::Str(n))],
        None => Seq::empty(),
    };
    b + n
}

impl Conveniences {
    /// Both attributes unset.
    pub fn new() -> (r: Conveniences)
        ensures
            r@ == ConvModel::unset(),
    {
        Conveniences { boost: None, name: None }
    }

    /// Sets the relevance boost.
    pub fn boost(self, value: Boost) -> (r: Conveniences)
        ensures
            r@ == self@.with_boost(value@),
    {
        Conveniences { boost: Some(value), ..self }
    }

    /// Sets the name tag, echoed back in responses.
    pub fn name(self, value: &str) -> (r: Conveniences)
        ensures
            r@ == self@.with_name(value@),
    {
        Conveniences { name: Some(String::from_str(value)), ..self }
    }

    /// Appends the members of the set attributes, leaving out the unset ones.
    pub fn push_entries(&self, es: &mut Vec<(String, WireValue)>)
        ensures
            entries_view(final(es)@) == entries_view(old(es)@) + conv_entries(self@),
    {
        let ghost start = es@;
        if !self.boost.should_skip() {
            let b = self.boost.unwrap();
            es.push((String::from_str("boost"), b.to_wire()));
        }
        if !self.name.should_skip() {
            let n = self.name.as_ref().unwrap().clone();
            es.push((String::from_str("_name"), WireValue::Str(n)));
        }
        assert(entries_view(es@) =~= entries_view(start) + conv_entries(self@));
    }
}

} // verus!
