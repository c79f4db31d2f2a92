//! Laws that relate the builders, the skip predicate and the wire text.
use vstd::prelude::*;

use crate::bool_query::{bool_json, BoolModel};
use crate::json::{string_text, value_text, WireModel};
use crate::params::{boost_key, name_key, BoostModel};
use crate::query::{query_json, query_skips, QueryModel};
use crate::scalar::{scalar_wire, ScalarModel};
use crate::term_query::{term_entries, term_json, term_skips, value_key, TermModel};

verus! {

/// A term query built from a field and a value alone has the value as the only
/// member of its bag, so neither a boost nor a name tag appears in its text.
pub proof fn lemma_plain_term_wire(field: Seq<char>, value: ScalarModel)
    ensures
        term_entries(TermModel::plain(field, value)) == seq![(value_key(), scalar_wire(value))],
        term_json(TermModel::plain(field, value)) == "{\"term\":{"@ + string_text(field) + seq![':', '{']
            + string_text(value_key()) + seq![':'] + value_text(scalar_wire(value)) + seq!['}']
            + "}}"@,
{
    let q = TermModel::plain(field, value);
    assert(term_entries(q) =~= seq![(value_key(), scalar_wire(value))]);
    assert(term_json(q) =~= "{\"term\":{"@ + string_text(field) + seq![':', '{'] + string_text(value_key())
        + seq![':'] + value_text(scalar_wire(value)) + seq!['}'] + "}}"@);
}

/// Setting the boost adds it to the bag as a decimal number; setting the name
/// tag adds it under `_name`; the order in which the two are set does not change
/// the query, hence not its text.
pub proof fn lemma_boost_and_name(q: TermModel, b: BoostModel, n: Seq<char>)
    ensures
        term_entries(TermModel::plain(q.field, q.value).with_boost(b)) == term_entries(
            TermModel::plain(q.field, q.value),
        ).push((boost_key(), WireModel::Decimal(b.units, b.scale))),
        term_entries(TermModel::plain(q.field, q.value).with_name(n)) == term_entries(
            TermModel::plain(q.field, q.value),
        ).push((name_key(), WireModel::Str(n))),
        term_entries(q.with_boost(b)).contains((boost_key(), WireModel::Decimal(b.units, b.scale))),
        term_entries(q.with_name(n)).contains((name_key(), WireModel::Str(n))),
        q.with_boost(b).with_name(n) == q.with_name(n).with_boost(b),
        term_json(q.with_boost(b).with_name(n)) == term_json(q.with_name(n).with_boost(b)),
{
    let p = TermModel::plain(q.field, q.value);
    assert(term_entries(p.with_boost(b)) =~= term_entries(p).push((boost_key(), WireModel::Decimal(b.units, b.scale))));
    assert(term_entries(p.with_name(n)) =~= term_entries(p).push((name_key(), WireModel::Str(n))));
    assert(term_entries(q.with_boost(b))[1] == (boost_key(), WireModel::Decimal(b.units, b.scale)));
    let en = term_entries(q.with_name(n));
    assert(en[en.len() - 1] == (name_key(), WireModel::Str(n)));
    assert(q.with_boost(b).with_name(n) == q.with_name(n).with_boost(b));
}

/// A term query with no value leaves itself out; as the sole filter clause of a
/// boolean query it is dropped, and the boolean query is an empty object under
/// its tag.
pub proof fn lemma_absent_term_in_bool(field: Seq<char>)
    ensures
        term_skips(TermModel::plain(field, ScalarModel::Absent)),
        BoolModel::empty().add_filter(TermModel::plain(field, ScalarModel::Absent)) == BoolModel::empty(),
        bool_json(BoolModel::empty().add_filter(TermModel::plain(field, ScalarModel::Absent)))
            == "{\"bool\":{}}"@,
{
    reveal_strlit("{\"bool\":{}}");
    reveal_strlit("{\"bool\":{");
    reveal_strlit("}}");
    reveal_strlit("must");
    reveal_strlit("filter");
    reveal_strlit("should");
    reveal_strlit("must_not");
    let b = BoolModel::empty();
    assert(crate::bool_query::bool_parts(b) =~= Seq::empty());
    assert(bool_json(b) =~= "{\"bool\":{}}"@);
}

/// The text of a query is a function of its value: two renderings of the same
/// query, with no change between them, are the same characters.
pub proof fn lemma_json_stable(q: QueryModel, first: Seq<char>, second: Seq<char>)
    requires
        first == query_json(q),
        second == query_json(q),
    ensures
        first == second,
{
}

/// The skip decision is a function of the query's value: asking twice on an
/// unchanged query gives the same answer.
pub proof fn lemma_skip_stable(q: QueryModel, first: bool, second: bool)
    requires
        first == query_skips(q),
        second == query_skips(q),
    ensures
        first == second,
{
}

} // verus!
