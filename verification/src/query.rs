//! The filter/query encoder: clauses of the form `column=operator.value`,
//! joined with `&` and prefixed with `?`, in call order.

use vstd::prelude::*;
use vstd::string::*;

verus! {

/// The comparison operators of the filter grammar.
#[derive(Clone, Copy, Debug, PartialEq, Eq, Structural)]
pub enum FilterOp {
    Eq,
    Gt,
    Lt,
    Is,
}

/// The mathematical image of one filter clause: a column, an operator and
/// a value, each string as its character sequence.
pub ghost struct FilterSpec {
    pub col: Seq<char>,
    pub op: FilterOp,
    pub val: Seq<char>,
}

/// One decoded filter clause.
#[derive(Debug, PartialEq, Eq)]
pub struct Filter {
    pub column: String,
    pub op: FilterOp,
    pub value: String,
}

impl View for Filter {
    type V = FilterSpec;

    open spec fn view(&self) -> FilterSpec {
        FilterSpec { col: self.column@, op: self.op, val: self.value@ }
    }
}

/// The wire token of each operator.
pub open spec fn op_token(op: FilterOp) -> Seq<char> {
    match op {
        FilterOp::Eq => "eq"@,
        FilterOp::Gt => "gt"@,
        FilterOp::Lt => "lt"@,
        FilterOp::Is => "is"@,
    }
}

/// The text of one clause: `column=token.value`.
pub open spec fn clause_chars(col: Seq<char>, op: FilterOp, val: Seq<char>) -> Seq<char> {
    col + "="@ + op_token(op) + "."@ + val
}

/// The text of one clause, from its mathematical image.
pub open spec fn clause_spec(f: FilterSpec) -> Seq<char> {
    clause_chars(f.col, f.op, f.val)
}

/// How one clause extends a query string: the first clause is prefixed
/// with `?`, every later one is joined with `&`.
pub open spec fn query_append(q: Seq<char>, clause: Seq<char>) -> Seq<char> {
    if q.len() == 0 {
        "?"@ + clause
    } else {
        q + "&"@ + clause
    }
}

/// The query string a select clause sets: `?select=<fields>`.
pub open spec fn select_query(fields: Seq<char>) -> Seq<char> {
    "?select="@ + fields
}

/// The query string that a chain of filter calls accumulates, starting
/// from the empty query.
pub open spec fn encoded_query(fs: Seq<FilterSpec>) -> Seq<char>
    decreases fs.len(),
{
    if fs.len() == 0 {
        Seq::<char>::empty()
    } else {
        query_append(encoded_query(fs.drop_last()), clause_spec(fs.last()))
    }
}

/// A query base (empty at a builder's creation, `?select=...` after a
/// select) extended by one clause for each later filter call, in order.
pub open spec fn applied_filters(base: Seq<char>, fs: Seq<FilterSpec>) -> Seq<char>
    decreases fs.len(),
{
    if fs.len() == 0 {
        base
    } else {
        query_append(applied_filters(base, fs.drop_last()), clause_spec(fs.last()))
    }
}

/// From an empty base, applying a chain of filters gives exactly the
/// encoded chain.
pub proof fn lemma_applied_filters_from_empty(fs: Seq<FilterSpec>)
    ensures
        applied_filters(Seq::<char>::empty(), fs) == encoded_query(fs),
    decreases fs.len(),
{
    if fs.len() > 0 {
        lemma_applied_filters_from_empty(fs.drop_last());
    }
}

/// The clause texts joined with `&`, in order.
pub open spec fn amp_joined(fs: Seq<FilterSpec>) -> Seq<char>
    decreases fs.len(),
{
    if fs.len() == 0 {
        Seq::<char>::empty()
    } else if fs.len() == 1 {
        clause_spec(fs[0])
    } else {
        clause_spec(fs[0]) + "&"@ + amp_joined(fs.drop_first())
    }
}

proof fn lemma_amp_joined_push(fs: Seq<FilterSpec>, f: FilterSpec)
    requires
        fs.len() > 0,
    ensures
        amp_joined(fs.push(f)) == amp_joined(fs) + "&"@ + clause_spec(f),
    decreases fs.len(),
{
    if fs.len() == 1 {
        assert(fs.push(f).drop_first() =~= seq![f]);
        assert(amp_joined(seq![f]) == clause_spec(f));
        assert(amp_joined(fs.push(f)) == clause_spec(fs[0]) + "&"@ + clause_spec(f));
    } else {
        assert(fs.push(f).drop_first() =~= fs.drop_first().push(f));
        lemma_amp_joined_push(fs.drop_first(), f);
        assert(amp_joined(fs.push(f)) == clause_spec(fs[0]) + "&"@ + (amp_joined(fs.drop_first())
            + "&"@ + clause_spec(f)));
        assert(clause_spec(fs[0]) + "&"@ + (amp_joined(fs.drop_first()) + "&"@ + clause_spec(f))
            =~= (clause_spec(fs[0]) + "&"@ + amp_joined(fs.drop_first())) + "&"@ + clause_spec(
            f,
        ));
    }
}

/// One more filter call extends the encoded chain exactly the way each
/// filter method extends the builder's query string.
pub proof fn lemma_encoded_query_push(fs: Seq<FilterSpec>, f: FilterSpec)
    ensures
        encoded_query(fs.push(f)) == query_append(encoded_query(fs), clause_spec(f)),
{
    assert(fs.push(f).drop_last() =~= fs);
    assert(fs.push(f).last() == f);
}

/// Every non-empty chain of filter calls produces a query string that
/// begins with `?`, holds the clause texts joined with `&`, and keeps
/// them in call order.
pub proof fn lemma_encoded_query_shape(fs: Seq<FilterSpec>)
    requires
        fs.len() > 0,
    ensures
        encoded_query(fs) == "?"@ + amp_joined(fs),
        encoded_query(fs).len() > 0,
        encoded_query(fs)[0] == '?',
    decreases fs.len(),
{
    reveal_strlit("?");
    assert("?"@ =~= seq!['?']);
    if fs.len() == 1 {
        assert(fs.drop_last().len() == 0);
        assert(encoded_query(fs.drop_last()) == Seq::<char>::empty());
        assert(encoded_query(fs) == query_append(Seq::<char>::empty(), clause_spec(fs.last())));
        assert(fs.last() == fs[0]);
    } else {
        let dl = fs.drop_last();
        lemma_encoded_query_shape(dl);
        assert(encoded_query(dl).len() > 0);
        assert(encoded_query(fs) == ("?"@ + amp_joined(dl)) + "&"@ + clause_spec(fs.last()));
        assert(fs =~= dl.push(fs.last()));
        lemma_amp_joined_push(dl, fs.last());
        assert(("?"@ + amp_joined(dl)) + "&"@ + clause_spec(fs.last()) =~= "?"@ + (amp_joined(dl)
            + "&"@ + clause_spec(fs.last())));
    }
    assert(("?"@ + amp_joined(fs))[0] == '?');
}

/// The wire token of an operator.
pub fn op_token_str(op: FilterOp) -> (r: &'static str)
    ensures
        r@ == op_token(op),
{
    match op {
        FilterOp::Eq => "eq",
        FilterOp::Gt => "gt",
        FilterOp::Lt => "lt",
        FilterOp::Is => "is",
    }
}

/// Builds the text of one clause: `column=token.value`.
pub fn clause_of(column: &str, op: FilterOp, value: &str) -> (r: String)
    ensures
        r@ == clause_chars(column@, op, value@),
{
    let mut s = String::from_str(column);
    s.append("=");
    s.append(op_token_str(op));
    s.append(".");
    s.append(value);
    proof {
        assert(s@ =~= clause_chars(column@, op, value@));
    }
    s
}

} // verus!
