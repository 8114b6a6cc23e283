//! Query construction: composing a task's match clauses with a sliding
//! time-window clause and rendering the result as the backend's JSON
//! query document.

use vstd::prelude::*;
use vstd::string::StringExecFns;
use crate::strnum::decimal_string;
use crate::strnum::spec_decimal;

verus! {

/// A backend query document: the task's own match clauses (each carried
/// opaquely as the text of one backend-shaped JSON object), the optional
/// negative-match clauses, and the trailing relative time window whose
/// width in minutes equals the task's period.
pub struct QueryDocument {
    pub filter: Vec<String>,
    pub must_not: Option<Vec<String>>,
    pub window_minutes: u32,
}

/// The offset, in minutes before "now", of the window's lower bound.
pub open spec fn window_lower_offset(doc: QueryDocument) -> int {
    doc.window_minutes as int
}

/// The offset, in minutes before "now", of the window's upper bound:
/// the upper bound is "now" itself.
pub open spec fn window_upper_offset(doc: QueryDocument) -> int {
    0
}

/// The window's width in minutes: upper bound minus lower bound, both
/// taken as offsets back from "now".
pub open spec fn window_width_minutes(doc: QueryDocument) -> int {
    window_lower_offset(doc) - window_upper_offset(doc)
}

/// Composes the criteria into a query document.
///
/// The clauses are kept in order and untouched; the synthesized window is
/// exactly as wide as the period, so consecutive polls cover adjacent,
/// non-overlapping windows in the steady state.
pub fn build_query(
    filter_criteria: Vec<String>,
    exclude_criteria: Option<Vec<String>>,
    period_minutes: u32,
) -> (r: QueryDocument)
    requires
        period_minutes > 0,
    ensures
        r.filter == filter_criteria,
        r.must_not == exclude_criteria,
        r.window_minutes == period_minutes,
        window_width_minutes(r) == period_minutes as int,
{
    QueryDocument { filter: filter_criteria, must_not: exclude_criteria, window_minutes: period_minutes }
}

/// The clauses, each followed by a comma: the list text that precedes the
/// synthesized window clause inside the `filter` array.
pub open spec fn spec_clause_list(items: Seq<Seq<char>>) -> Seq<char>
    decreases items.len(),
{
    if items.len() == 0 {
        Seq::empty()
    } else {
        spec_clause_list(items.drop_last()) + items.last() + seq![',']
    }
}

/// The clauses joined by commas, with no trailing comma.
pub open spec fn spec_joined(items: Seq<Seq<char>>) -> Seq<char>
    decreases items.len(),
{
    if items.len() == 0 {
        Seq::empty()
    } else if items.len() == 1 {
        items[0]
    } else {
        spec_joined(items.drop_last()) + seq![','] + items.last()
    }
}

/// The text of the `must_not` branch: `null` when absent, else a JSON array
/// of the clauses.
pub open spec fn spec_must_not_text(m: Option<Seq<Seq<char>>>) -> Seq<char> {
    match m {
        None => "null"@,
        Some(items) => "["@ + spec_joined(items) + "]"@,
    }
}

/// The synthesized range clause: a relative window from `period` minutes
/// before "now" up to "now", resolved by the backend at query time.
pub open spec fn spec_window_clause(period: u32) -> Seq<char> {
    "{\"range\":{\"@timestamp\":{\"gte\":\"now-"@ + spec_decimal(period as nat)
        + "m\",\"lte\":\"now\"}}}"@
}

/// The full query document text: a boolean composition of the match
/// clauses plus the window clause, with the negative branch alongside.
pub open spec fn spec_query_text(
    filter: Seq<Seq<char>>,
    must_not: Option<Seq<Seq<char>>>,
    period: u32,
) -> Seq<char> {
    "{\"query\":{\"bool\":{\"filter\":["@ + spec_clause_list(filter) + spec_window_clause(period)
        + "],\"must_not\":"@ + spec_must_not_text(must_not) + "}}}"@
}

/// Law: the document text is a function of the clause texts and the period
/// alone, so rebuilding from equal criteria yields byte-identical text, and
/// the non-time part does not vary at all between builds.
pub proof fn lemma_query_text_deterministic(d1: QueryDocument, d2: QueryDocument)
    requires
        d1.filter.deep_view() == d2.filter.deep_view(),
        d1.must_not.deep_view() == d2.must_not.deep_view(),
        d1.window_minutes == d2.window_minutes,
    ensures
        spec_query_text(d1.filter.deep_view(), d1.must_not.deep_view(), d1.window_minutes)
            == spec_query_text(d2.filter.deep_view(), d2.must_not.deep_view(), d2.window_minutes),
{
}

/// Appends the clauses joined by commas, with no trailing comma.
fn append_joined(s: &mut String, items: &Vec<String>)
    ensures
        final(s)@ == old(s)@ + spec_joined(items.deep_view()),
{
    let ghost items_v: Seq<Seq<char>> = items.deep_view();
    let mut i: usize = 0;
    while i < items.len()
        invariant
            i <= items.len(),
            items_v == items.deep_view(),
            items_v.len() == items@.len(),
            forall|k: int| 0 <= k < items_v.len() ==> items_v[k] == items@[k]@,
            s@ == old(s)@ + spec_joined(items_v.take(i as int)),
        decreases items.len() - i,
    {
        if i > 0 {
            s.append(",");
        }
        s.append(items[i].as_str());
        proof {
            reveal_strlit(",");
            let t = items_v.take(i as int + 1);
            assert(t.drop_last() =~= items_v.take(i as int));
            assert(t.last() == items_v[i as int]);
            if i == 0 {
                assert(spec_joined(t) == items_v[0]);
            }
            assert(s@ =~= old(s)@ + spec_joined(items_v.take(i as int + 1)));
        }
        i = i + 1;
    }
    proof {
        assert(items_v.take(items@.len() as int) =~= items_v);
    }
}

/// Renders the query document as the backend's JSON text. The clause texts
/// are spliced in unchanged and in order; only the window clause is
/// synthesized, from the period alone.
pub fn render_query(doc: &QueryDocument) -> (r: String)
    ensures
        r@ == spec_query_text(doc.filter.deep_view(), doc.must_not.deep_view(), doc.window_minutes),
{
    let ghost filter_v: Seq<Seq<char>> = doc.filter.deep_view();
    let mut s = String::new();
    s.append("{\"query\":{\"bool\":{\"filter\":[");
    let mut i: usize = 0;
    while i < doc.filter.len()
        invariant
            i <= doc.filter.len(),
            filter_v == doc.filter.deep_view(),
            filter_v.len() == doc.filter@.len(),
            forall|k: int| 0 <= k < filter_v.len() ==> filter_v[k] == doc.filter@[k]@,
            s@ == "{\"query\":{\"bool\":{\"filter\":["@ + spec_clause_list(filter_v.take(i as int)),
        decreases doc.filter.len() - i,
    {
        s.append(doc.filter[i].as_str());
        s.append(",");
        proof {
            reveal_strlit(",");
            let t = filter_v.take(i as int + 1);
            assert(t.drop_last() =~= filter_v.take(i as int));
            assert(t.last() == filter_v[i as int]);
            assert(s@ =~= "{\"query\":{\"bool\":{\"filter\":["@ + spec_clause_list(t));
        }
        i = i + 1;
    }
    proof {
        assert(filter_v.take(doc.filter@.len() as int) =~= filter_v);
    }
    s.append("{\"range\":{\"@timestamp\":{\"gte\":\"now-");
    let digits = decimal_string(doc.window_minutes as u64);
    s.append(digits.as_str());
    s.append("m\",\"lte\":\"now\"}}}");
    s.append("],\"must_not\":");
    match &doc.must_not {
        None => {
            s.append("null");
        },
        Some(items) => {
            s.append("[");
            append_joined(&mut s, items);
            s.append("]");
        },
    }
    s.append("}}}");
    proof {
        assert(s@ =~= spec_query_text(doc.filter.deep_view(), doc.must_not.deep_view(),
            doc.window_minutes));
    }
    s
}

} // verus!
