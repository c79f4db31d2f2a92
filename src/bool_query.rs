//! The boolean query: lists of clauses that documents must, should or must not match.
use vstd::prelude::*;
use vstd::string::StringExecFns;

use crate::json::{join_text, push_char, string_text, write_string};
use crate::skip::ShouldSkip;
use crate::term_query::{term_json, term_skips, TermModel, TermQuery};

verus! {

/// A compound query made of four clause lists. A clause that leaves itself out
/// is never stored; a list with no clause is left out of the wire form.
#[derive(Debug, Clone, PartialEq, Eq)]
pub struct BoolQuery {
    must: Vec<TermQuery>,
    filter: Vec<TermQuery>,
    should: Vec<TermQuery>,
    must_not: Vec<TermQuery>,
}

/// The mathematical value of a [`BoolQuery`].
pub struct BoolModel {
    pub must: Seq<TermModel>,
    pub filter: Seq<TermModel>,
    pub should: Seq<TermModel>,
    pub must_not: Seq<TermModel>,
}

/// The models of a list of clauses.
pub open spec fn clause_models(qs: Seq<TermQuery>) -> Seq<TermModel> {
    qs.map_values(|q: TermQuery| q@)
}

/// A clause list after offering it `q`: unchanged when `q` leaves itself out.
pub open spec fn add_clause(qs: Seq<TermModel>, q: TermModel) -> Seq<TermModel> {
    if term_skips(q) {
        qs
    } else {
        qs.push(q)
    }
}

impl BoolModel {
    /// A boolean query with no clause.
    pub open spec fn empty() -> BoolModel {
        BoolModel { must: Seq::empty(), filter: Seq::empty(), should: Seq::empty(), must_not: Seq::empty() }
    }

    /// The query after offering it a clause that documents must match.
    pub open spec fn add_must(self, q: TermModel) -> BoolModel {
        BoolModel { must: add_clause(self.must, q), ..self }
    }

    /// The query after offering it a clause that documents must match, without scoring.
    pub open spec fn add_filter(self, q: TermModel) -> BoolModel {
        BoolModel { filter: add_clause(self.filter, q), ..self }
    }

    /// The query after offering it a clause that documents should match.
    pub open spec fn add_should(self, q: TermModel) -> BoolModel {
        BoolModel { should: add_clause(self.should, q), ..self }
    }

    /// The query after offering it a clause that documents must not match.
    pub open spec fn add_must_not(self, q: TermModel) -> BoolModel {
        BoolModel { must_not: add_clause(self.must_not, q), ..self }
    }
}

impl View for BoolQuery {
    type V = BoolModel;

    closed spec fn view(&self) -> BoolModel {
        BoolModel {
            must: clause_models(self.must@),
            filter: clause_models(self.filter@),
            should: clause_models(self.should@),
            must_not: clause_models(self.must_not@),
        }
    }
}

/// A boolean query is left out when all of its clause lists are empty.
pub open spec fn bool_skips(b: BoolModel) -> bool {
    b.must.len() == 0 && b.filter.len() == 0 && b.should.len() == 0 && b.must_not.len() == 0
}

/// The JSON texts of the clauses, separated by commas.
pub open spec fn clauses_text(qs: Seq<TermModel>) -> Seq<char> {
    join_text(qs.map_values(|q: TermModel| term_json(q)))
}

/// The member for one clause list: none when the list is empty.
pub open spec fn list_part(key: Seq<char>, qs: Seq<TermModel>) -> Seq<Seq<char>> {
    if qs.len() == 0 {
        Seq::empty()
    } else {
        seq![string_text(key) + seq![':', '['] + clauses_text(qs) + seq![']']]
    }
}

/// The members of the non-empty clause lists, in the order must, filter, should, must_not.
pub open spec fn bool_parts(b: BoolModel) -> Seq<Seq<char>> {
    list_part("must"@, b.must) + list_part("filter"@, b.filter) + list_part("should"@, b.should)
        + list_part("must_not"@, b.must_not)
}

/// The JSON text of a boolean query: the members under the tag `bool`; with no
/// clause, an empty object under the tag.
pub open spec fn bool_json(b: BoolModel) -> Seq<char> {
    "{\"bool\":{"@ + join_text(bool_parts(b)) + "}}"@
}

/// A clause list with its wire key: none when the list is empty.
pub open spec fn list_entry(key: Seq<char>, qs: Seq<TermModel>) -> Seq<(Seq<char>, Seq<TermModel>)> {
    if qs.len() == 0 {
        Seq::empty()
    } else {
        seq![(key, qs)]
    }
}

/// The non-empty clause lists with their wire keys, in the order must, filter, should, must_not.
pub open spec fn bool_lists(b: BoolModel) -> Seq<(Seq<char>, Seq<TermModel>)> {
    list_entry("must"@, b.must) + list_entry("filter"@, b.filter) + list_entry("should"@, b.should)
        + list_entry("must_not"@, b.must_not)
}

/// The model of a list of keyed clause lists.
pub open spec fn keyed_models(ls: Seq<(&str, &Vec<TermQuery>)>) -> Seq<(Seq<char>, Seq<TermModel>)> {
    ls.map_values(|e: (&str, &Vec<TermQuery>)| (e.0@, clause_models(e.1@)))
}

proof fn lemma_join_push(parts: Seq<Seq<char>>, p: Seq<char>)
    ensures
        join_text(parts.push(p)) == if parts.len() == 0 {
            p
        } else {
            join_text(parts) + seq![','] + p
        },
{
    assert(parts.push(p).drop_last() =~= parts);
}

/// Appends the JSON texts of the clauses, separated by commas.
fn write_clauses(out: &mut String, qs: &Vec<TermQuery>)
    ensures
        final(out)@ == old(out)@ + clauses_text(clause_models(qs@)),
{
    let ghost start = out@;
    let mut i: usize = 0;
    while i < qs.len()
        invariant
            i <= qs@.len(),
            out@ == start + clauses_text(clause_models(qs@.subrange(0, i as int))),
        decreases qs@.len() - i,
    {
        if i > 0 {
            push_char(out, ',');
        }
        qs[i].write_json(out);
        proof {
            let pre = clause_models(qs@.subrange(0, i as int)).map_values(|q: TermModel| term_json(q));
            let cur = clause_models(qs@.subrange(0, i + 1)).map_values(|q: TermModel| term_json(q));
            assert(cur =~= pre.push(term_json(qs@[i as int]@)));
            lemma_join_push(pre, term_json(qs@[i as int]@));
            assert(out@ =~= start + clauses_text(clause_models(qs@.subrange(0, i + 1))));
        }
        i = i + 1;
    }
    assert(qs@.subrange(0, qs@.len() as int) =~= qs@);
}

/// Appends the member for one clause list, when the list is not empty.
fn write_list(
    out: &mut String,
    key: &str,
    qs: &Vec<TermQuery>,
    Ghost(prefix): Ghost<Seq<char>>,
    Ghost(parts): Ghost<Seq<Seq<char>>>,
    first: bool,
) -> (r: bool)
    requires
        old(out)@ == prefix + join_text(parts),
        first == (parts.len() == 0),
    ensures
        final(out)@ == prefix + join_text(parts + list_part(key@, clause_models(qs@))),
        r == ((parts + list_part(key@, clause_models(qs@))).len() == 0),
{
    let ghost ms = clause_models(qs@);
    if qs.len() == 0 {
        assert(parts + list_part(key@, ms) =~= parts);
        first
    } else {
        let ghost part = string_text(key@) + seq![':', '['] + clauses_text(ms) + seq![']'];
        if !first {
            push_char(out, ',');
        }
        write_string(out, key);
        push_char(out, ':');
        push_char(out, '[');
        write_clauses(out, qs);
        push_char(out, ']');
        proof {
            assert(parts + list_part(key@, ms) =~= parts.push(part));
            lemma_join_push(parts, part);
            assert(out@ =~= prefix + join_text(parts.push(part)));
        }
        false
    }
}

impl BoolQuery {
    /// A boolean query with no clause.
    pub fn new() -> (r: BoolQuery)
        ensures
            r@ == BoolModel::empty(),
    {
        let r = BoolQuery { must: Vec::new(), filter: Vec::new(), should: Vec::new(), must_not: Vec::new() };
        assert(r@.must =~= Seq::<TermModel>::empty());
        assert(r@.filter =~= Seq::<TermModel>::empty());
        assert(r@.should =~= Seq::<TermModel>::empty());
        assert(r@.must_not =~= Seq::<TermModel>::empty());
        r
    }

    /// Adds a clause that documents must match, unless it leaves itself out.
    pub fn must(self, query: TermQuery) -> (r: BoolQuery)
        ensures
            r@ == self@.add_must(query@),
    {
        let mut r = self;
        let ghost ms = r.must@;
        if !query.should_skip() {
            r.must.push(query);
        }
        assert(r@.must =~= add_clause(clause_models(ms), query@));
        r
    }

    /// Adds a clause that documents must match, without scoring, unless it leaves itself out.
    pub fn filter(self, query: TermQuery) -> (r: BoolQuery)
        ensures
            r@ == self@.add_filter(query@),
    {
        let mut r = self;
        let ghost ms = r.filter@;
        if !query.should_skip() {
            r.filter.push(query);
        }
        assert(r@.filter =~= add_clause(clause_models(ms), query@));
        r
    }

    /// Adds a clause that documents should match, unless it leaves itself out.
    pub fn should(self, query: TermQuery) -> (r: BoolQuery)
        ensures
            r@ == self@.add_should(query@),
    {
        let mut r = self;
        let ghost ms = r.should@;
        if !query.should_skip() {
            r.should.push(query);
        }
        assert(r@.should =~= add_clause(clause_models(ms), query@));
        r
    }

    /// Adds a clause that documents must not match, unless it leaves itself out.
    pub fn must_not(self, query: TermQuery) -> (r: BoolQuery)
        ensures
            r@ == self@.add_must_not(query@),
    {
        let mut r = self;
        let ghost ms = r.must_not@;
        if !query.should_skip() {
            r.must_not.push(query);
        }
        assert(r@.must_not =~= add_clause(clause_models(ms), query@));
        r
    }

    /// The non-empty clause lists with their wire keys, in wire order.
    pub fn clause_lists(&self) -> (r: Vec<(&'static str, &Vec<TermQuery>)>)
        ensures
            keyed_models(r@) == bool_lists(self@),
    {
        let mut r: Vec<(&'static str, &Vec<TermQuery>)> = Vec::new();
        if self.must.len() > 0 {
            r.push(("must", &self.must));
        }
        let ghost r1 = r@;
        if self.filter.len() > 0 {
            r.push(("filter", &self.filter));
        }
        let ghost r2 = r@;
        if self.should.len() > 0 {
            r.push(("should", &self.should));
        }
        let ghost r3 = r@;
        if self.must_not.len() > 0 {
            r.push(("must_not", &self.must_not));
        }
        let ghost m = self@;
        assert(keyed_models(r1) =~= list_entry("must"@, m.must));
        assert(keyed_models(r2) =~= list_entry("must"@, m.must) + list_entry("filter"@, m.filter));
        assert(keyed_models(r3) =~= list_entry("must"@, m.must) + list_entry("filter"@, m.filter)
            + list_entry("should"@, m.should));
        assert(keyed_models(r@) =~= bool_lists(m));
        r
    }

    /// Appends the JSON text of this query.
    pub fn write_json(&self, out: &mut String)
        ensures
            final(out)@ == old(out)@ + bool_json(self@),
    {
        let ghost m = self@;
        out.append("{\"bool\":{");
        let ghost prefix = out@;
        assert(out@ =~= prefix + join_text(Seq::empty()));
        let first = write_list(out, "must", &self.must, Ghost(prefix), Ghost(Seq::empty()), true);
        let ghost p1 = Seq::<Seq<char>>::empty() + list_part("must"@, m.must);
        let first = write_list(out, "filter", &self.filter, Ghost(prefix), Ghost(p1), first);
        let ghost p2 = p1 + list_part("filter"@, m.filter);
        let first = write_list(out, "should", &self.should, Ghost(prefix), Ghost(p2), first);
        let ghost p3 = p2 + list_part("should"@, m.should);
        let _ = write_list(out, "must_not", &self.must_not, Ghost(prefix), Ghost(p3), first);
        let ghost p4 = p3 + list_part("must_not"@, m.must_not);
        assert(p4 =~= bool_parts(m));
        out.append("}}");
        assert(out@ =~= old(out)@ + bool_json(m));
    }

    /// The JSON text of this query.
    pub fn to_json(&self) -> (r: String)
        ensures
            r@ == bool_json(self@),
    {
        let mut out = String::new();
        self.write_json(&mut out);
        assert(out@ =~= bool_json(self@));
        out
    }
}

/// A boolean query is left out exactly when it holds no clause.
impl ShouldSkip for BoolQuery {
    open spec fn skips(&self) -> bool {
        bool_skips(self@)
    }

    fn should_skip(&self) -> (r: bool) {
        self.must.len() == 0 && self.filter.len() == 0 && self.should.len() == 0
            && self.must_not.len() == 0
    }
}

} // verus!
