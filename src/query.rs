//! The query family: one variant per query kind.
use vstd::prelude::*;
use vstd::std_specs::convert::FromSpec;

use crate::bool_query::{bool_json, bool_skips, BoolModel, BoolQuery};
use crate::scalar::OptionalScalar;
use crate::skip::ShouldSkip;
use crate::term_query::{term_json, term_skips, TermModel, TermQuery};

verus! {

/// A query of any kind.
#[derive(Debug, Clone, PartialEq, Eq)]
pub enum Query {
    Term(TermQuery),
    Bool(BoolQuery),
}

/// The mathematical value of a [`Query`].
pub enum QueryModel {
    Term(TermModel),
    Bool(BoolModel),
}

impl View for Query {
    type V = QueryModel;

    open spec fn view(&self) -> QueryModel {
        match self {
            Query::Term(q) => QueryModel::Term(q@),
            Query::Bool(q) => QueryModel::Bool(q@),
        }
    }
}

/// Whether a query is left out: by the rule of its kind.
pub open spec fn query_skips(q: QueryModel) -> bool {
    match q {
        QueryModel::Term(t) => term_skips(t),
        QueryModel::Bool(b) => bool_skips(b),
    }
}

/// The JSON text of a query: by the adapter of its kind.
pub open spec fn query_json(q: QueryModel) -> Seq<char> {
    match q {
        QueryModel::Term(t) => term_json(t),
        QueryModel::Bool(b) => bool_json(b),
    }
}

impl Query {
    /// A term query on `field` for `value`, with no attribute set.
    pub fn term<V>(field: &str, value: V) -> (r: TermQuery) where OptionalScalar: From<V>
        requires
            <OptionalScalar as FromSpec<V>>::obeys_from_spec(),
        ensures
            r@ == TermModel::plain(field@, <OptionalScalar as FromSpec<V>>::from_spec(value)@),
    {
        TermQuery::new(field, value)
    }

    /// A boolean query with no clause.
    pub fn bool() -> (r: BoolQuery)
        ensures
            r@ == BoolModel::empty(),
    {
        BoolQuery::new()
    }

    /// The JSON text of this query.
    pub fn to_json(&self) -> (r: String)
        ensures
            r@ == query_json(self@),
    {
        match self {
            Query::Term(q) => q.to_json(),
            Query::Bool(q) => q.to_json(),
        }
    }
}

impl From<TermQuery> for Query {
    fn from(q: TermQuery) -> (r: Query) {
        Query::Term(q)
    }
}

impl vstd::std_specs::convert::FromSpecImpl<TermQuery> for Query {
    open spec fn obeys_from_spec() -> bool {
        true
    }

    open spec fn from_spec(q: TermQuery) -> Query {
        Query::Term(q)
    }
}

impl From<BoolQuery> for Query {
    fn from(q: BoolQuery) -> (r: Query) {
        Query::Bool(q)
    }
}

impl vstd::std_specs::convert::FromSpecImpl<BoolQuery> for Query {
    open spec fn obeys_from_spec() -> bool {
        true
    }

    open spec fn from_spec(q: BoolQuery) -> Query {
        Query::Bool(q)
    }
}

/// A query is left out by the rule of its kind.
impl ShouldSkip for Query {
    open spec fn skips(&self) -> bool {
        query_skips(self@)
    }

    fn should_skip(&self) -> (r: bool) {
        match self {
            Query::Term(q) => q.should_skip(),
            Query::Bool(q) => q.should_skip(),
        }
    }
}

} // verus!
