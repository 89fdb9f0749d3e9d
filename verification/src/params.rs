//! Canonical parameter serialization: the request body's fields rendered as
//! `key=value` pairs joined by `&`, in strictly ascending key order,
//! booleans as `true`/`false`, integers in their natural decimal form, and
//! null/array/object fields dropped. The canonical string is the exact byte
//! sequence that gets signed, so its construction is fully specified and the
//! serialization is proved order-independent.

use vstd::multiset::Multiset;
use vstd::prelude::*;
use vstd::relations::antisymmetric;
use vstd::relations::reflexive;
use vstd::relations::sorted_by;
use vstd::relations::strongly_connected;
use vstd::relations::total_ordering;
use vstd::relations::transitive;
use vstd::seq_lib::lemma_sorted_unique;
use vstd::string::StringExecFns;

use crate::text::dec_rep;
use crate::text::lemma_lex_lt_asymmetric;
use crate::text::lemma_lex_lt_connected;
use crate::text::lemma_lex_lt_irreflexive;
use crate::text::lemma_lex_lt_transitive;
use crate::text::lex_le;
use crate::text::lex_lt;
use crate::text::str_lt;
use crate::text::u64_to_dec;

verus! {

broadcast use vstd::seq_lib::group_to_multiset_ensures, vstd::multiset::group_multiset_axioms;

/// One request-body field value. `Skipped` stands for the value kinds the
/// canonical form drops (null, array, object).
pub enum ParamValue {
    Str(String),
    Bool(bool),
    Int(i64),
    Skipped,
}

/// One request-body field.
pub struct Param {
    pub key: String,
    pub value: ParamValue,
}

/// The mathematical content of a field value.
#[verifier::ext_equal]
pub enum ValueView {
    Str(Seq<char>),
    Bool(bool),
    Int(int),
    Skipped,
}

/// The mathematical content of a field: its key and value as plain values.
#[verifier::ext_equal]
pub struct ParamView {
    pub key: Seq<char>,
    pub value: ValueView,
}

impl View for ParamValue {
    type V = ValueView;

    open spec fn view(&self) -> ValueView {
        match *self {
            ParamValue::Str(s) => ValueView::Str(s@),
            ParamValue::Bool(b) => ValueView::Bool(b),
            ParamValue::Int(i) => ValueView::Int(i as int),
            ParamValue::Skipped => ValueView::Skipped,
        }
    }
}

impl View for Param {
    type V = ParamView;

    open spec fn view(&self) -> ParamView {
        ParamView { key: self.key@, value: self.value@ }
    }
}

impl Clone for ParamValue {
    fn clone(&self) -> (r: Self)
        ensures
            r@ == self@,
    {
        match self {
            ParamValue::Str(s) => ParamValue::Str(s.clone()),
            ParamValue::Bool(b) => ParamValue::Bool(*b),
            ParamValue::Int(i) => ParamValue::Int(*i),
            ParamValue::Skipped => ParamValue::Skipped,
        }
    }
}

impl Clone for Param {
    fn clone(&self) -> (r: Self)
        ensures
            r@ == self@,
    {
        Param { key: self.key.clone(), value: self.value.clone() }
    }
}

/// The views of a field sequence.
pub open spec fn views_of(ps: Seq<Param>) -> Seq<ParamView> {
    ps.map_values(|p: Param| p@)
}

/// The decimal rendering of an integer, with a leading `-` when negative.
pub open spec fn int_rep(i: int) -> Seq<char> {
    if i < 0 {
        seq!['-'] + dec_rep((-i) as nat)
    } else {
        dec_rep(i as nat)
    }
}

/// How a field value renders into the canonical string.
pub open spec fn render_value(v: ValueView) -> Seq<char> {
    match v {
        ValueView::Str(s) => s,
        ValueView::Bool(b) => if b {
            "true"@
        } else {
            "false"@
        },
        ValueView::Int(i) => int_rep(i),
        ValueView::Skipped => Seq::empty(),
    }
}

/// `key=value`.
pub open spec fn render_pair(p: ParamView) -> Seq<char> {
    p.key + seq!['='] + render_value(p.value)
}

/// The pairs joined by `&`.
pub open spec fn render_params(ps: Seq<ParamView>) -> Seq<char>
    decreases ps.len(),
{
    if ps.len() == 0 {
        Seq::empty()
    } else if ps.len() == 1 {
        render_pair(ps[0])
    } else {
        render_pair(ps[0]) + seq!['&'] + render_params(ps.drop_first())
    }
}

/// Fields that survive into the canonical string.
pub open spec fn kept(p: ParamView) -> bool {
    !(p.value is Skipped)
}

pub open spec fn value_tag(v: ValueView) -> int {
    match v {
        ValueView::Str(_) => 0,
        ValueView::Bool(_) => 1,
        ValueView::Int(_) => 2,
        ValueView::Skipped => 3,
    }
}

/// A total order on field values, used only to make the canonical sort a
/// total order; ties on keys never reach it in well-formed requests.
pub open spec fn value_le(a: ValueView, b: ValueView) -> bool {
    if value_tag(a) != value_tag(b) {
        value_tag(a) < value_tag(b)
    } else {
        match (a, b) {
            (ValueView::Str(x), ValueView::Str(y)) => lex_le(x, y),
            (ValueView::Bool(x), ValueView::Bool(y)) => !x || y,
            (ValueView::Int(x), ValueView::Int(y)) => x <= y,
            _ => true,
        }
    }
}

/// The canonical order on fields: ascending key, values breaking ties.
pub open spec fn param_le(a: ParamView, b: ParamView) -> bool {
    if a.key != b.key {
        lex_lt(a.key, b.key)
    } else {
        value_le(a.value, b.value)
    }
}

/// The kept fields of a request in canonical order.
pub open spec fn canonical_fields(ps: Seq<ParamView>) -> Seq<ParamView> {
    ps.filter(|p: ParamView| kept(p)).sort_by(|a: ParamView, b: ParamView| param_le(a, b))
}

/// The canonical parameter string of a field sequence: the kept fields,
/// sorted, rendered, and joined.
pub open spec fn canonical_params(ps: Seq<ParamView>) -> Seq<char> {
    render_params(canonical_fields(ps))
}

/// No two fields share a key.
pub open spec fn distinct_keys(s: Seq<ParamView>) -> bool {
    forall|i: int, j: int| 0 <= i < j < s.len() ==> (#[trigger] s[i]).key != (#[trigger] s[j]).key
}

/// The canonical field order is a total order.
pub proof fn lemma_param_le_total_ordering()
    ensures
        total_ordering(|a: ParamView, b: ParamView| param_le(a, b)),
{
    let leq = |a: ParamView, b: ParamView| param_le(a, b);
    assert forall|x: ParamView| #[trigger] leq(x, x) by {
        lemma_lex_lt_irreflexive(x.key);
    }
    assert(reflexive(leq));
    assert forall|x: ParamView, y: ParamView| #[trigger] leq(x, y) && #[trigger] leq(y, x) implies x == y by {
        if x.key != y.key {
            lemma_lex_lt_asymmetric(x.key, y.key);
        } else {
            match (x.value, y.value) {
                (ValueView::Str(a), ValueView::Str(b)) => {
                    lemma_lex_lt_asymmetric(a, b);
                    lemma_lex_lt_connected(a, b);
                    assert(a == b);
                    assert(x =~= y);
                },
                _ => {
                    assert(x =~= y);
                },
            }
        }
    }
    assert(antisymmetric(leq));
    assert forall|x: ParamView, y: ParamView, z: ParamView|
        #[trigger] leq(x, y) && #[trigger] leq(y, z) implies leq(x, z) by {
        lemma_lex_lt_transitive(x.key, y.key, z.key);
        lemma_lex_lt_irreflexive(x.key);
        lemma_lex_lt_irreflexive(y.key);
        lemma_lex_lt_irreflexive(z.key);
        if x.key == y.key && y.key == z.key {
            match (x.value, y.value, z.value) {
                (ValueView::Str(a), ValueView::Str(b), ValueView::Str(c)) => {
                    lemma_lex_lt_transitive(a, b, c);
                },
                _ => {},
            }
        }
    }
    assert(transitive(leq));
    assert forall|x: ParamView, y: ParamView| #[trigger] leq(x, y) || #[trigger] leq(y, x) by {
        if x.key != y.key {
            lemma_lex_lt_connected(x.key, y.key);
        } else {
            match (x.value, y.value) {
                (ValueView::Str(a), ValueView::Str(b)) => {
                    lemma_lex_lt_connected(a, b);
                },
                _ => {},
            }
        }
    }
    assert(strongly_connected(leq));
}

/// Filtering commutes with taking the multiset of a sequence.
proof fn lemma_filter_to_multiset<A>(s: Seq<A>, pred: spec_fn(A) -> bool)
    ensures
        s.filter(pred).to_multiset() =~= s.to_multiset().filter(pred),
    decreases s.len(),
{
    broadcast use vstd::seq_lib::group_to_multiset_ensures;
    broadcast use vstd::multiset::group_multiset_axioms;

    reveal(Seq::filter);
    if s.len() == 0 {
        assert(s.filter(pred) == s);
        assert(s.to_multiset() =~= Multiset::<A>::empty());
    } else {
        let d = s.drop_last();
        let a = s.last();
        lemma_filter_to_multiset(d, pred);
        assert(s =~= d.push(a));
        assert(s.to_multiset() =~= d.to_multiset().insert(a));
        if pred(a) {
            assert(s.filter(pred) == d.filter(pred).push(a));
            assert(s.filter(pred).to_multiset() =~= d.filter(pred).to_multiset().insert(a));
            assert(d.to_multiset().insert(a).filter(pred) =~= d.to_multiset().filter(pred).insert(
                a,
            ));
        } else {
            assert(s.filter(pred) == d.filter(pred));
            assert(d.to_multiset().insert(a).filter(pred) =~= d.to_multiset().filter(pred));
        }
    }
}

/// Canonical parameter serialization is deterministic and independent of the
/// order in which the request's fields are listed: any two field sequences
/// carrying the same fields produce the same canonical string.
pub proof fn lemma_canonical_params_order_independent(a: Seq<ParamView>, b: Seq<ParamView>)
    requires
        a.to_multiset() == b.to_multiset(),
    ensures
        canonical_params(a) == canonical_params(b),
{
    let keep = |p: ParamView| kept(p);
    let leq = |x: ParamView, y: ParamView| param_le(x, y);
    lemma_param_le_total_ordering();
    lemma_filter_to_multiset(a, keep);
    lemma_filter_to_multiset(b, keep);
    a.filter(keep).lemma_sort_by_ensures(leq);
    b.filter(keep).lemma_sort_by_ensures(leq);
    assert(a.filter(keep).sort_by(leq).to_multiset() == b.filter(keep).sort_by(leq).to_multiset());
    lemma_sorted_unique(a.filter(keep).sort_by(leq), b.filter(keep).sort_by(leq), leq);
    assert(a.filter(keep).sort_by(leq) =~= b.filter(keep).sort_by(leq));
}

/// Appending a field extends the rendered string by a separator and a pair.
proof fn lemma_render_push(s: Seq<ParamView>, p: ParamView)
    ensures
        render_params(s.push(p)) == if s.len() == 0 {
            render_pair(p)
        } else {
            render_params(s) + seq!['&'] + render_pair(p)
        },
    decreases s.len(),
{
    let t = s.push(p);
    if s.len() == 0 {
        assert(t.len() == 1);
        assert(t[0] == p);
    } else if s.len() == 1 {
        assert(t.len() == 2);
        assert(t[0] == s[0]);
        assert(t.drop_first() =~= seq![p]);
        assert(render_params(t.drop_first()) == render_pair(p));
    } else {
        assert(t[0] == s[0]);
        assert(t.drop_first() =~= s.drop_first().push(p));
        lemma_render_push(s.drop_first(), p);
        assert(render_params(t) == render_pair(s[0]) + seq!['&'] + (render_params(s.drop_first())
            + seq!['&'] + render_pair(p)));
        assert(render_pair(s[0]) + seq!['&'] + (render_params(s.drop_first()) + seq!['&']
            + render_pair(p)) =~= (render_pair(s[0]) + seq!['&'] + render_params(s.drop_first()))
            + seq!['&'] + render_pair(p));
    }
}

/// Renders `n` in decimal with a sign.
pub fn i64_to_dec(n: i64) -> (r: String)
    ensures
        r@ == int_rep(n as int),
{
    if n >= 0 {
        u64_to_dec(n as u64)
    } else {
        let m: u64 = ((-(n + 1)) as u64) + 1;
        proof {
            assert(m as int == -(n as int));
        }
        let mut s = String::from_str("-");
        let d = u64_to_dec(m);
        s.append(d.as_str());
        proof {
            reveal_strlit("-");
            assert(s@ =~= int_rep(n as int));
        }
        s
    }
}

/// Builds the canonical parameter string of `ps`: kept fields in strictly
/// ascending key order, `key=value` joined by `&`.
pub fn canonicalize(ps: &Vec<Param>) -> (r: String)
    requires
        distinct_keys(views_of(ps@)),
    ensures
        r@ == canonical_params(views_of(ps@)),
{
    let sorted = canonical_fields_vec(ps);
    render(&sorted)
}

/// Builds the kept fields of `ps` in canonical order.
pub fn canonical_fields_vec(ps: &Vec<Param>) -> (r: Vec<Param>)
    requires
        distinct_keys(views_of(ps@)),
    ensures
        views_of(r@) == canonical_fields(views_of(ps@)),
{
    let keep_g = Ghost(|p: ParamView| kept(p));
    let leq_g = Ghost(|x: ParamView, y: ParamView| param_le(x, y));
    // Keep the fields whose values survive serialization.
    let mut kept_v: Vec<Param> = Vec::new();
    let mut i: usize = 0;
    proof {
        reveal(Seq::filter);
        assert(views_of(ps@.subrange(0, 0)) =~= Seq::<ParamView>::empty());
        assert(views_of(ps@.subrange(0, 0)).filter(keep_g@) =~= Seq::<ParamView>::empty());
    }
    while i < ps.len()
        invariant
            0 <= i <= ps@.len(),
            distinct_keys(views_of(ps@)),
            views_of(kept_v@) =~= views_of(ps@.subrange(0, i as int)).filter(keep_g@),
            keep_g@ == (|p: ParamView| kept(p)),
        decreases ps@.len() - i,
    {
        let p = &ps[i];
        let is_kept = match p.value {
            ParamValue::Skipped => false,
            _ => true,
        };
        proof {
            let prev = views_of(ps@.subrange(0, i as int));
            let next = views_of(ps@.subrange(0, i + 1));
            assert(next.drop_last() =~= prev);
            assert(next.last() == ps@[i as int]@);
            reveal(Seq::filter);
        }
        if is_kept {
            let ghost old_kept = kept_v@;
            kept_v.push(p.clone());
            proof {
                assert(views_of(kept_v@) =~= views_of(old_kept).push(ps@[i as int]@));
                assert(views_of(kept_v@) =~= views_of(ps@.subrange(0, i + 1)).filter(keep_g@));
            }
        } else {
            proof {
                assert(views_of(kept_v@) =~= views_of(ps@.subrange(0, i + 1)).filter(keep_g@));
            }
        }
        i = i + 1;
    }
    proof {
        assert(ps@.subrange(0, ps@.len() as int) =~= ps@);
        assert(views_of(kept_v@) =~= views_of(ps@).filter(keep_g@));
        lemma_filter_distinct(views_of(ps@), keep_g@);
    }
    let sorted = sort_params(kept_v);
    proof {
        broadcast use vstd::seq_lib::group_to_multiset_ensures;

        lemma_param_le_total_ordering();
        views_of(ps@).filter(keep_g@).lemma_sort_by_ensures(leq_g@);
        lemma_strict_implies_sorted_by(views_of(sorted@));
        lemma_sorted_unique(
            views_of(sorted@),
            views_of(ps@).filter(keep_g@).sort_by(leq_g@),
            leq_g@,
        );
        assert(views_of(sorted@) =~= views_of(ps@).filter(keep_g@).sort_by(leq_g@));
    }
    sorted
}

/// Every element of a filtered sequence occurs in the original.
proof fn lemma_filter_sub<A>(s: Seq<A>, pred: spec_fn(A) -> bool)
    ensures
        forall|a: int| 0 <= a < s.filter(pred).len() ==> s.contains(#[trigger] s.filter(pred)[a]),
    decreases s.len(),
{
    reveal(Seq::filter);
    if s.len() > 0 {
        let d = s.drop_last();
        lemma_filter_sub(d, pred);
        assert forall|a: int| 0 <= a < s.filter(pred).len() implies s.contains(
            #[trigger] s.filter(pred)[a],
        ) by {
            if pred(s.last()) && a == s.filter(pred).len() - 1 {
                assert(s.filter(pred)[a] == s.last());
                assert(s[s.len() - 1] == s.last());
            } else {
                assert(s.filter(pred)[a] == d.filter(pred)[a]);
                assert(d.contains(d.filter(pred)[a]));
                let j = choose|j: int| 0 <= j < d.len() && d[j] == d.filter(pred)[a];
                assert(s[j] == d[j]);
            }
        }
    }
}

/// Filtering preserves key distinctness.
proof fn lemma_filter_distinct(s: Seq<ParamView>, pred: spec_fn(ParamView) -> bool)
    requires
        distinct_keys(s),
    ensures
        distinct_keys(s.filter(pred)),
    decreases s.len(),
{
    reveal(Seq::filter);
    if s.len() > 0 {
        let d = s.drop_last();
        assert(distinct_keys(d)) by {
            assert(forall|i: int| 0 <= i < d.len() ==> d[i] == s[i]);
        }
        lemma_filter_distinct(d, pred);
        if pred(s.last()) {
            lemma_filter_sub(d, pred);
            assert forall|a: int, b: int| 0 <= a < b < s.filter(pred).len() implies (
            #[trigger] s.filter(pred)[a]).key != (#[trigger] s.filter(pred)[b]).key by {
                if b == s.filter(pred).len() - 1 {
                    assert(s.filter(pred)[a] == d.filter(pred)[a]);
                    assert(d.contains(d.filter(pred)[a]));
                    let j = choose|j: int| 0 <= j < d.len() && d[j] == d.filter(pred)[a];
                    assert(s[j] == d[j]);
                    assert(s.filter(pred)[b] == s.last());
                    assert(s[j].key != s[s.len() - 1].key);
                } else {
                    assert(s.filter(pred)[a] == d.filter(pred)[a]);
                    assert(s.filter(pred)[b] == d.filter(pred)[b]);
                }
            }
        }
    }
}

/// A strictly key-ordered field sequence is sorted by the canonical order.
proof fn lemma_strict_implies_sorted_by(s: Seq<ParamView>)
    requires
        strictly_key_sorted(s),
    ensures
        sorted_by(s, |x: ParamView, y: ParamView| param_le(x, y)),
{
    let leq = |x: ParamView, y: ParamView| param_le(x, y);
    assert forall|i: int, j: int| 0 <= i < j < s.len() implies leq(s[i], s[j]) by {
        lemma_lex_lt_irreflexive(s[i].key);
        assert(s[i].key != s[j].key);
    }
}

/// Strict ascending key order.
pub open spec fn strictly_key_sorted(s: Seq<ParamView>) -> bool {
    forall|i: int, j: int| 0 <= i < j < s.len() ==> lex_lt((#[trigger] s[i]).key, (#[trigger] s[j]).key)
}

/// Insertion sort by key; keys must be distinct.
fn sort_params(ps: Vec<Param>) -> (r: Vec<Param>)
    requires
        distinct_keys(views_of(ps@)),
    ensures
        strictly_key_sorted(views_of(r@)),
        views_of(r@).to_multiset() == views_of(ps@).to_multiset(),
{
    broadcast use vstd::seq_lib::group_to_multiset_ensures;

    let mut out: Vec<Param> = Vec::new();
    let mut i: usize = 0;
    proof {
        assert(views_of(ps@.subrange(0, 0)) =~= Seq::<ParamView>::empty());
        assert(views_of(out@) =~= Seq::<ParamView>::empty());
        assert(views_of(out@).to_multiset() =~= views_of(ps@.subrange(0, 0)).to_multiset());
    }
    while i < ps.len()
        invariant
            0 <= i <= ps@.len(),
            distinct_keys(views_of(ps@)),
            strictly_key_sorted(views_of(out@)),
            views_of(out@).to_multiset() == views_of(ps@.subrange(0, i as int)).to_multiset(),
        decreases ps@.len() - i,
    {
        let p = &ps[i];
        let ghost pv = p@;
        // Every element already placed came from an earlier input position,
        // so its key differs from the key of `p`.
        proof {
            assert forall|a: int| 0 <= a < views_of(out@).len() implies (#[trigger] views_of(
                out@,
            )[a]).key != pv.key by {
                let prefix = views_of(ps@.subrange(0, i as int));
                let x = views_of(out@)[a];
                assert(views_of(out@)[a] == x);
                assert(views_of(out@).contains(x));
                assert(views_of(out@).to_multiset().count(x) > 0);
                assert(prefix.to_multiset().count(x) > 0);
                assert(prefix.contains(x));
                let j = choose|j: int| 0 <= j < prefix.len() && prefix[j] == views_of(out@)[a];
                assert(views_of(ps@)[j] == prefix[j]);
                assert(views_of(ps@)[j].key != views_of(ps@)[i as int].key);
            }
        }
        let mut pos: usize = 0;
        while pos < out.len() && str_lt(out[pos].key.as_str(), p.key.as_str())
            invariant
                0 <= pos <= out@.len(),
                forall|a: int| 0 <= a < pos ==> lex_lt((#[trigger] views_of(out@)[a]).key, pv.key),
                pv == p@,
                strictly_key_sorted(views_of(out@)),
                forall|a: int|
                    0 <= a < views_of(out@).len() ==> (#[trigger] views_of(out@)[a]).key != pv.key,
            decreases out@.len() - pos,
        {
            pos = pos + 1;
        }
        proof {
            if pos < out@.len() {
                lemma_lex_lt_connected(views_of(out@)[pos as int].key, pv.key);
            }
            assert forall|b: int| pos <= b < views_of(out@).len() implies lex_lt(
                pv.key,
                (#[trigger] views_of(out@)[b]).key,
            ) by {
                if b > pos {
                    lemma_lex_lt_transitive(pv.key, views_of(out@)[pos as int].key, views_of(out@)[b].key);
                }
            }
        }
        let ghost old_out = out@;
        out.insert(pos, p.clone());
        i = i + 1;
        proof {
            assert(views_of(out@) =~= views_of(old_out).insert(pos as int, pv));
            let v = views_of(out@);
            let w = views_of(old_out);
            assert forall|a: int, b: int| 0 <= a < b < v.len() implies lex_lt(
                (#[trigger] v[a]).key,
                (#[trigger] v[b]).key,
            ) by {
                assert(forall|c: int| 0 <= c < pos ==> v[c] == w[c]);
                assert(v[pos as int] == pv);
                assert(forall|c: int| pos < c < v.len() ==> v[c] == w[c - 1]);
            }
            // Multiset bookkeeping for the insertion.
            assert(views_of(old_out).insert(pos as int, pv) =~= views_of(old_out).subrange(
                0,
                pos as int,
            ).push(pv) + views_of(old_out).subrange(pos as int, views_of(old_out).len() as int));
            lemma_insert_to_multiset(views_of(old_out), pv, pos as int);
            let prev = views_of(ps@.subrange(0, i - 1));
            let next = views_of(ps@.subrange(0, i as int));
            assert(next.drop_last() =~= prev);
            assert(next.last() == pv);
            assert(next =~= prev.push(pv));
            assert(next.to_multiset() =~= prev.to_multiset().insert(pv));
            assert(views_of(out@).to_multiset() =~= next.to_multiset());
        }
    }
    proof {
        assert(ps@.subrange(0, ps@.len() as int) =~= ps@);
    }
    out
}

/// Inserting anywhere adds one occurrence to the multiset.
proof fn lemma_insert_to_multiset(s: Seq<ParamView>, p: ParamView, pos: int)
    requires
        0 <= pos <= s.len(),
    ensures
        s.insert(pos, p).to_multiset() =~= s.to_multiset().insert(p),
{
    broadcast use vstd::seq_lib::group_to_multiset_ensures;
    broadcast use vstd::multiset::group_multiset_axioms;
    broadcast use vstd::seq_lib::lemma_multiset_commutative;

    let lo = s.subrange(0, pos);
    let hi = s.subrange(pos, s.len() as int);
    assert(s =~= lo + hi);
    assert(s.insert(pos, p) =~= lo.push(p) + hi);
    assert(lo.push(p).to_multiset() =~= lo.to_multiset().insert(p));
    assert((lo.push(p) + hi).to_multiset() =~= lo.push(p).to_multiset().add(hi.to_multiset()));
    assert((lo + hi).to_multiset() =~= lo.to_multiset().add(hi.to_multiset()));
    assert(lo.to_multiset().insert(p).add(hi.to_multiset()) =~= lo.to_multiset().add(
        hi.to_multiset(),
    ).insert(p));
}

/// Renders an already sorted, already filtered field list.
fn render(ps: &Vec<Param>) -> (r: String)
    ensures
        r@ == render_params(views_of(ps@)),
{
    let mut acc = String::new();
    let mut i: usize = 0;
    proof {
        assert(views_of(ps@).take(0) =~= Seq::<ParamView>::empty());
    }
    while i < ps.len()
        invariant
            0 <= i <= ps@.len(),
            acc@ == render_params(views_of(ps@).take(i as int)),
        decreases ps@.len() - i,
    {
        let ghost prefix = views_of(ps@).take(i as int);
        let ghost pv = ps@[i as int]@;
        proof {
            lemma_render_push(prefix, pv);
            assert(views_of(ps@).take(i + 1) =~= prefix.push(pv));
            reveal_strlit("&");
            reveal_strlit("=");
            reveal_strlit("true");
            reveal_strlit("false");
            assert("&"@ =~= seq!['&']);
            assert("="@ =~= seq!['=']);
        }
        if i > 0 {
            acc.append("&");
        }
        let p = &ps[i];
        acc.append(p.key.as_str());
        acc.append("=");
        match &p.value {
            ParamValue::Str(s) => {
                acc.append(s.as_str());
            },
            ParamValue::Bool(b) => {
                if *b {
                    acc.append("true");
                } else {
                    acc.append("false");
                }
            },
            ParamValue::Int(n) => {
                let d = i64_to_dec(*n);
                acc.append(d.as_str());
            },
            ParamValue::Skipped => {},
        }
        proof {
            assert(render_pair(pv) =~= pv.key + seq!['='] + render_value(pv.value));
            if i > 0 {
                assert(acc@ =~= render_params(prefix) + seq!['&'] + render_pair(pv));
            } else {
                assert(acc@ =~= render_pair(pv));
            }
            assert(acc@ == render_params(views_of(ps@).take(i + 1)));
        }
        i = i + 1;
    }
    proof {
        assert(views_of(ps@).take(ps@.len() as int) =~= views_of(ps@));
    }
    acc
}

} // verus!
