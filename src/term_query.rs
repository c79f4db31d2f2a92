//! The term query: documents that hold an exact term in a field.
use vstd::prelude::*;
use vstd::std_specs::convert::FromSpec;
use vstd::string::StringExecFns;

use crate::json::{
    entries_view, object_text, push_char, string_text, write_object, write_string, WireModel,
    WireValue,
};
use crate::params::{conv_entries, Boost, BoostModel, ConvModel, Conveniences};
use crate::scalar::{scalar_wire, OptionalScalar, ScalarModel};
use crate::skip::ShouldSkip;

verus! {

/// Returns documents that contain an exact term in a provided field.
///
/// Its wire form is `{"term": {<field>: {"value": <term>, "boost": .., "_name": ..}}}`,
/// with each unset attribute left out.
#[derive(Debug, Clone, PartialEq, Eq)]
pub struct TermQuery {
    field: String,
    value: OptionalScalar,
    conv: Conveniences,
}

/// The mathematical value of a [`TermQuery`].
pub struct TermModel {
    pub field: Seq<char>,
    pub value: ScalarModel,
    pub conv: ConvModel,
}

impl TermModel {
    /// A term query on `field` for `value`, with no attribute set.
    pub open spec fn plain(field: Seq<char>, value: ScalarModel) -> TermModel {
        TermModel { field, value, conv: ConvModel::unset() }
    }

    /// The same query with the boost set to `b`.
    pub open spec fn with_boost(self, b: BoostModel) -> TermModel {
        TermModel { conv: self.conv.with_boost(b), ..self }
    }

    /// The same query with the name tag set to `n`.
    pub open spec fn with_name(self, n: Seq<char>) -> TermModel {
        TermModel { conv: self.conv.with_name(n), ..self }
    }
}

impl View for TermQuery {
    type V = TermModel;

    closed spec fn view(&self) -> TermModel {
        TermModel { field: self.field@, value: self.value@, conv: self.conv@ }
    }
}

/// A term query is left out when it has no term.
pub open spec fn term_skips(q: TermModel) -> bool {
    q.value is Absent
}

/// The wire key of the term.
pub open spec fn value_key() -> Seq<char> {
    "value"@
}

/// The parameter bag of a term query: the term, then the set attributes.
pub open spec fn term_entries(q: TermModel) -> Seq<(Seq<char>, WireModel)> {
    seq![(value_key(), scalar_wire(q.value))] + conv_entries(q.conv)
}

/// The JSON text of a term query: the bag under the field name, under the tag `term`.
pub open spec fn term_json(q: TermModel) -> Seq<char> {
    "{\"term\":{"@ + string_text(q.field) + seq![':'] + object_text(term_entries(q)) + "}}"@
}

impl TermQuery {
    /// A term query on `field` for `value`, which may be of any type that converts
    /// into an [`OptionalScalar`]. The field name is kept verbatim; an absent value
    /// gives a query that leaves itself out.
    pub fn new<V>(field: &str, value: V) -> (r: TermQuery) where OptionalScalar: From<V>
        requires
            <OptionalScalar as FromSpec<V>>::obeys_from_spec(),
        ensures
            r@ == TermModel::plain(field@, <OptionalScalar as FromSpec<V>>::from_spec(value)@),
    {
        TermQuery {
            field: String::from_str(field),
            value: OptionalScalar::from(value),
            conv: Conveniences::new(),
        }
    }

    /// Sets the relevance boost, from any type that converts into a [`Boost`].
    pub fn boost<B>(self, value: B) -> (r: TermQuery) where Boost: From<B>
        requires
            <Boost as FromSpec<B>>::obeys_from_spec(),
        ensures
            r@ == self@.with_boost(<Boost as FromSpec<B>>::from_spec(value)@),
    {
        TermQuery { conv: self.conv.boost(Boost::from(value)), ..self }
    }

    /// Sets the name tag, echoed back in responses.
    pub fn name(self, value: &str) -> (r: TermQuery)
        ensures
            r@ == self@.with_name(value@),
    {
        TermQuery { conv: self.conv.name(value), ..self }
    }

    /// The field searched.
    pub fn field(&self) -> (r: &str)
        ensures
            r@ == self@.field,
    {
        self.field.as_str()
    }

    /// The parameter bag, with the unset attributes left out.
    pub fn inner_entries(&self) -> (r: Vec<(String, WireValue)>)
        ensures
            entries_view(r@) == term_entries(self@),
    {
        let mut es: Vec<(String, WireValue)> = Vec::new();
        es.push((String::from_str("value"), self.value.to_wire()));
        self.conv.push_entries(&mut es);
        assert(entries_view(es@) =~= term_entries(self@));
        es
    }

    /// Appends the JSON text of this query.
    pub fn write_json(&self, out: &mut String)
        ensures
            final(out)@ == old(out)@ + term_json(self@),
    {
        let es = self.inner_entries();
        out.append("{\"term\":{");
        write_string(out, self.field.as_str());
        push_char(out, ':');
        write_object(out, &es);
        out.append("}}");
        assert(out@ =~= old(out)@ + term_json(self@));
    }

    /// The JSON text of this query.
    pub fn to_json(&self) -> (r: String)
        ensures
            r@ == term_json(self@),
    {
        let mut out = String::new();
        self.write_json(&mut out);
        assert(out@ =~= term_json(self@));
        out
    }
}

/// A term query is left out exactly when its term is absent.
impl ShouldSkip for TermQuery {
    open spec fn skips(&self) -> bool {
        term_skips(self@)
    }

    fn should_skip(&self) -> (r: bool) {
        self.value.should_skip()
    }
}

} // verus!
