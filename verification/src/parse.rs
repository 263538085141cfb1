//! The decoder for the query-string grammar: `?clause&clause&...` with
//! clauses `column=operator.value`. Decoding an encoded filter chain
//! gives the chain back, which is proved below.

use vstd::prelude::*;
use vstd::string::*;
use crate::query::{
    amp_joined, clause_spec, encoded_query, lemma_encoded_query_shape, op_token, Filter,
    FilterOp, FilterSpec,
};

verus! {

/// The index of the first occurrence of `c` in `s`, or -1 when `c` does
/// not occur.
pub open spec fn find_char(s: Seq<char>, c: char) -> int
    decreases s.len(),
{
    if s.len() == 0 {
        -1
    } else if s[0] == c {
        0
    } else {
        let r = find_char(s.drop_first(), c);
        if r < 0 {
            -1
        } else {
            r + 1
        }
    }
}

/// What `find_char` returns: -1 exactly when `c` does not occur; else
/// the least index holding `c`.
pub proof fn lemma_find_char_props(s: Seq<char>, c: char)
    ensures
        find_char(s, c) == -1 ==> forall|i: int| 0 <= i < s.len() ==> s[i] != c,
        find_char(s, c) >= 0 ==> find_char(s, c) < s.len() && s[find_char(s, c)] == c && (forall|
            i: int,
        |
            0 <= i < find_char(s, c) ==> s[i] != c),
    decreases s.len(),
{
    if s.len() == 0 {
    } else if s[0] == c {
    } else {
        lemma_find_char_props(s.drop_first(), c);
        assert(forall|i: int| 1 <= i < s.len() ==> s[i] == s.drop_first()[i - 1]);
    }
}

/// `find_char` returns `k` when `c` stands at `k` and nowhere before.
pub proof fn lemma_find_char_exact(s: Seq<char>, c: char, k: int)
    requires
        0 <= k < s.len(),
        s[k] == c,
        forall|j: int| 0 <= j < k ==> s[j] != c,
    ensures
        find_char(s, c) == k,
{
    lemma_find_char_props(s, c);
}

/// The first `c` in `pre + c + post` stands right after `pre`, when
/// `pre` holds no `c`.
proof fn lemma_find_char_prefix(pre: Seq<char>, c: char, post: Seq<char>)
    requires
        forall|i: int| 0 <= i < pre.len() ==> pre[i] != c,
    ensures
        find_char(pre + seq![c] + post, c) == pre.len(),
{
    let s = pre + seq![c] + post;
    assert(s[pre.len() as int] == c);
    lemma_find_char_exact(s, c, pre.len() as int);
}

/// The operator whose wire token is the two given characters.
pub open spec fn op_of_chars(a: char, b: char) -> Option<FilterOp> {
    if a == 'e' && b == 'q' {
        Some(FilterOp::Eq)
    } else if a == 'g' && b == 't' {
        Some(FilterOp::Gt)
    } else if a == 'l' && b == 't' {
        Some(FilterOp::Lt)
    } else if a == 'i' && b == 's' {
        Some(FilterOp::Is)
    } else {
        None
    }
}

/// Decodes one clause `column=token.value`: the column is everything
/// before the first `=`, then a two-character operator token and a dot,
/// then the value.
pub open spec fn parse_clause(s: Seq<char>) -> Option<FilterSpec> {
    let i = find_char(s, '=');
    if i < 0 {
        None
    } else {
        let col = s.take(i);
        let rest = s.skip(i + 1);
        if rest.len() < 3 || rest[2] != '.' {
            None
        } else {
            match op_of_chars(rest[0], rest[1]) {
                Some(op) => Some(FilterSpec { col, op, val: rest.skip(3) }),
                None => None,
            }
        }
    }
}

/// Decodes a `&`-joined run of clauses, in order.
pub open spec fn parse_clauses(s: Seq<char>) -> Option<Seq<FilterSpec>>
    decreases s.len(),
    via parse_clauses_decreases
{
    let i = find_char(s, '&');
    if i < 0 {
        match parse_clause(s) {
            Some(f) => Some(seq![f]),
            None => None,
        }
    } else {
        match parse_clause(s.take(i)) {
            Some(f) => match parse_clauses(s.skip(i + 1)) {
                Some(fs) => Some(seq![f] + fs),
                None => None,
            },
            None => None,
        }
    }
}

#[via_fn]
proof fn parse_clauses_decreases(s: Seq<char>) {
    lemma_find_char_props(s, '&');
}

/// Decodes a whole query string: a leading `?`, then the clauses.
pub open spec fn parse_query(s: Seq<char>) -> Option<Seq<FilterSpec>> {
    if s.len() > 0 && s[0] == '?' {
        parse_clauses(s.drop_first())
    } else {
        None
    }
}

/// A filter whose encoding the grammar can cut apart again: the column
/// holds neither `=` nor `&`, and the value holds no `&`.
pub open spec fn filter_wf(f: FilterSpec) -> bool {
    &&& forall|i: int| 0 <= i < f.col.len() ==> f.col[i] != '=' && f.col[i] != '&'
    &&& forall|i: int| 0 <= i < f.val.len() ==> f.val[i] != '&'
}

proof fn lemma_op_token_chars(op: FilterOp)
    ensures
        op_token(op).len() == 2,
        op_token(op)[0] != '&' && op_token(op)[1] != '&',
        op_of_chars(op_token(op)[0], op_token(op)[1]) == Some(op),
{
    reveal_strlit("eq");
    reveal_strlit("gt");
    reveal_strlit("lt");
    reveal_strlit("is");
    match op {
        FilterOp::Eq => assert(op_token(op) =~= seq!['e', 'q']),
        FilterOp::Gt => assert(op_token(op) =~= seq!['g', 't']),
        FilterOp::Lt => assert(op_token(op) =~= seq!['l', 't']),
        FilterOp::Is => assert(op_token(op) =~= seq!['i', 's']),
    }
}

/// The encoding of a well-formed filter holds no `&`.
proof fn lemma_clause_no_amp(f: FilterSpec)
    requires
        filter_wf(f),
    ensures
        forall|i: int| 0 <= i < clause_spec(f).len() ==> clause_spec(f)[i] != '&',
{
    reveal_strlit("=");
    reveal_strlit(".");
    lemma_op_token_chars(f.op);
    let c = clause_spec(f);
    assert(c =~= f.col + seq!['='] + op_token(f.op) + seq!['.'] + f.val);
    assert forall|i: int| 0 <= i < c.len() implies c[i] != '&' by {
        let n0 = f.col.len() as int;
        if i < n0 {
            assert(c[i] == f.col[i]);
        } else if i == n0 {
            assert(c[i] == '=');
        } else if i < n0 + 4 {
            assert(c[i] == (op_token(f.op) + seq!['.'])[i - n0 - 1]);
        } else {
            assert(c[i] == f.val[i - n0 - 4]);
        }
    }
}

/// Decoding the encoding of one well-formed filter gives it back.
proof fn lemma_parse_clause_inverts(f: FilterSpec)
    requires
        filter_wf(f),
    ensures
        parse_clause(clause_spec(f)) == Some(f),
{
    reveal_strlit("=");
    reveal_strlit(".");
    lemma_op_token_chars(f.op);
    let tok = op_token(f.op);
    let c = clause_spec(f);
    let post = tok + seq!['.'] + f.val;
    assert(c =~= f.col + seq!['='] + post);
    lemma_find_char_prefix(f.col, '=', post);
    let i = f.col.len() as int;
    assert(find_char(c, '=') == i);
    assert(c.take(i) =~= f.col);
    let rest = c.skip(i + 1);
    assert(rest =~= post);
    assert(rest.len() >= 3);
    assert(rest[0] == tok[0] && rest[1] == tok[1] && rest[2] == '.');
    assert(rest.skip(3) =~= f.val);
    assert(parse_clause(c) == Some(FilterSpec { col: c.take(i), op: f.op, val: rest.skip(3) }));
}

/// Decoding a `&`-joined run of well-formed clause encodings gives the
/// clauses back, in order.
proof fn lemma_parse_clauses_invert(fs: Seq<FilterSpec>)
    requires
        fs.len() > 0,
        forall|i: int| 0 <= i < fs.len() ==> filter_wf(#[trigger] fs[i]),
    ensures
        parse_clauses(amp_joined(fs)) == Some(fs),
    decreases fs.len(),
{
    let s = amp_joined(fs);
    lemma_clause_no_amp(fs[0]);
    if fs.len() == 1 {
        assert(s == clause_spec(fs[0]));
        lemma_find_char_props(s, '&');
        assert(find_char(s, '&') == -1);
        lemma_parse_clause_inverts(fs[0]);
        assert(seq![fs[0]] =~= fs);
    } else {
        let rest = amp_joined(fs.drop_first());
        assert(s == clause_spec(fs[0]) + "&"@ + rest);
        reveal_strlit("&");
        assert(s =~= clause_spec(fs[0]) + seq!['&'] + rest);
        lemma_find_char_prefix(clause_spec(fs[0]), '&', rest);
        let i = clause_spec(fs[0]).len() as int;
        assert(find_char(s, '&') == i);
        assert(s.take(i) =~= clause_spec(fs[0]));
        lemma_parse_clause_inverts(fs[0]);
        assert(s.skip(i + 1) =~= rest);
        lemma_parse_clauses_invert(fs.drop_first());
        assert(seq![fs[0]] + fs.drop_first() =~= fs);
    }
}

/// Round trip: a non-empty chain of well-formed filters, encoded to a
/// query string and decoded again, is exactly the same clause sequence.
pub proof fn lemma_query_round_trip(fs: Seq<FilterSpec>)
    requires
        fs.len() > 0,
        forall|i: int| 0 <= i < fs.len() ==> filter_wf(#[trigger] fs[i]),
    ensures
        parse_query(encoded_query(fs)) == Some(fs),
{
    lemma_encoded_query_shape(fs);
    let s = encoded_query(fs);
    reveal_strlit("?");
    assert(s =~= seq!['?'] + amp_joined(fs));
    assert(s.drop_first() =~= amp_joined(fs));
    lemma_parse_clauses_invert(fs);
}

/// The views of a run of decoded filters.
pub open spec fn filters_view(v: Seq<Filter>) -> Seq<FilterSpec> {
    v.map_values(|f: Filter| f@)
}

/// The index of the first occurrence of `c`, if `c` occurs at all.
fn find_char_str(s: &str, c: char) -> (r: Option<usize>)
    ensures
        r matches Some(i) ==> find_char(s@, c) == i as int,
        r is None ==> find_char(s@, c) == -1,
{
    let n: usize = s.unicode_len();
    let mut i: usize = 0;
    while i < n
        invariant
            n == s@.len(),
            0 <= i <= n,
            forall|j: int| 0 <= j < i ==> s@[j] != c,
        decreases n - i,
    {
        if s.get_char(i) == c {
            proof {
                lemma_find_char_exact(s@, c, i as int);
            }
            return Some(i);
        }
        i += 1;
    }
    proof {
        lemma_find_char_props(s@, c);
    }
    None
}

/// Decodes one clause, or nothing where the text does not follow the
/// clause grammar.
pub fn parse_clause_str(s: &str) -> (r: Option<Filter>)
    ensures
        r matches Some(f) ==> parse_clause(s@) == Some(f@),
        r is None ==> parse_clause(s@) is None,
{
    let n: usize = s.unicode_len();
    let eq_at = find_char_str(s, '=');
    match eq_at {
        None => None,
        Some(i) => {
            proof {
                lemma_find_char_props(s@, '=');
            }
            if n - i - 1 < 3 {
                return None;
            }
            let a = s.get_char(i + 1);
            let b = s.get_char(i + 2);
            let d = s.get_char(i + 3);
            proof {
                assert(s@.skip(i as int + 1).len() >= 3);
                assert(s@.skip(i as int + 1)[0] == a);
                assert(s@.skip(i as int + 1)[1] == b);
                assert(s@.skip(i as int + 1)[2] == d);
            }
            if d != '.' {
                return None;
            }
            let op = if a == 'e' && b == 'q' {
                FilterOp::Eq
            } else if a == 'g' && b == 't' {
                FilterOp::Gt
            } else if a == 'l' && b == 't' {
                FilterOp::Lt
            } else if a == 'i' && b == 's' {
                FilterOp::Is
            } else {
                return None;
            };
            let column = s.substring_char(0, i).to_owned();
            let value = s.substring_char(i + 4, n).to_owned();
            proof {
                assert(column@ =~= s@.take(i as int));
                assert(value@ =~= s@.skip(i as int + 1).skip(3));
            }
            Some(Filter { column, op, value })
        },
    }
}

/// Decodes a `&`-joined run of clauses, or nothing where any clause is
/// malformed.
pub fn parse_clauses_str(s: &str) -> (r: Option<Vec<Filter>>)
    ensures
        r matches Some(v) ==> parse_clauses(s@) == Some(filters_view(v@)),
        r is None ==> parse_clauses(s@) is None,
    decreases s@.len(),
{
    let amp_at = find_char_str(s, '&');
    match amp_at {
        None => {
            match parse_clause_str(s) {
                Some(f) => {
                    let mut v: Vec<Filter> = Vec::new();
                    v.push(f);
                    proof {
                        assert(filters_view(v@) =~= seq![f@]);
                    }
                    Some(v)
                },
                None => None,
            }
        },
        Some(i) => {
            proof {
                lemma_find_char_props(s@, '&');
            }
            let n: usize = s.unicode_len();
            let head = s.substring_char(0, i);
            let tail = s.substring_char(i + 1, n);
            proof {
                assert(head@ =~= s@.take(i as int));
                assert(tail@ =~= s@.skip(i as int + 1));
            }
            match parse_clause_str(head) {
                Some(f) => {
                    match parse_clauses_str(tail) {
                        Some(rest) => {
                            let mut v: Vec<Filter> = Vec::new();
                            v.push(f);
                            let ghost rest_view = rest@;
                            let mut rest_v = rest;
                            v.append(&mut rest_v);
                            proof {
                                assert(filters_view(v@) =~= seq![f@] + filters_view(rest_view));
                            }
                            Some(v)
                        },
                        None => None,
                    }
                },
                None => None,
            }
        },
    }
}

/// Decodes a whole query string: a leading `?`, then the clauses.
pub fn parse_query_str(s: &str) -> (r: Option<Vec<Filter>>)
    ensures
        r matches Some(v) ==> parse_query(s@) == Some(filters_view(v@)),
        r is None ==> parse_query(s@) is None,
{
    let n: usize = s.unicode_len();
    if n == 0 {
        return None;
    }
    if s.get_char(0) != '?' {
        return None;
    }
    let rest = s.substring_char(1, n);
    proof {
        assert(rest@ =~= s@.drop_first());
    }
    parse_clauses_str(rest)
}

} // verus!
