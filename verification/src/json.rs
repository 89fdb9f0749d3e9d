//! JSON rendering of a request body from its canonical field list. The
//! rendered object lists the same fields, in the same order, as the
//! canonical parameter string that gets signed, so body and signature are
//! consistent by construction. String values are escaped for `"` and `\`;
//! exchange identifiers never contain control characters, which are passed
//! through unchanged.

use vstd::prelude::*;
use vstd::string::StrSliceExecFns;
use vstd::string::StringExecFns;

use crate::params::int_rep;
use crate::params::i64_to_dec;
use crate::params::Param;
use crate::params::ParamValue;
use crate::params::ParamView;
use crate::params::ValueView;
use crate::params::views_of;

verus! {

/// A string with `"` and `\` escaped by a backslash.
pub open spec fn json_escape(s: Seq<char>) -> Seq<char>
    decreases s.len(),
{
    if s.len() == 0 {
        Seq::empty()
    } else {
        (if s[0] == '"' || s[0] == '\\' {
            seq!['\\', s[0]]
        } else {
            seq![s[0]]
        }) + json_escape(s.drop_first())
    }
}

/// The JSON rendering of one field value.
pub open spec fn json_value(v: ValueView) -> Seq<char> {
    match v {
        ValueView::Str(s) => seq!['"'] + json_escape(s) + seq!['"'],
        ValueView::Bool(b) => if b {
            "true"@
        } else {
            "false"@
        },
        ValueView::Int(i) => int_rep(i),
        ValueView::Skipped => Seq::empty(),
    }
}

/// `"key":value`.
pub open spec fn json_member(p: ParamView) -> Seq<char> {
    seq!['"'] + json_escape(p.key) + seq!['"', ':'] + json_value(p.value)
}

/// The members joined by `,`.
pub open spec fn json_members(ps: Seq<ParamView>) -> Seq<char>
    decreases ps.len(),
{
    if ps.len() == 0 {
        Seq::empty()
    } else if ps.len() == 1 {
        json_member(ps[0])
    } else {
        json_member(ps[0]) + seq![','] + json_members(ps.drop_first())
    }
}

/// The JSON object with the given members.
pub open spec fn json_object(ps: Seq<ParamView>) -> Seq<char> {
    seq!['{'] + json_members(ps) + seq!['}']
}

/// Appending a field extends the member list by a separator and a member.
proof fn lemma_json_members_push(s: Seq<ParamView>, p: ParamView)
    ensures
        json_members(s.push(p)) == if s.len() == 0 {
            json_member(p)
        } else {
            json_members(s) + seq![','] + json_member(p)
        },
    decreases s.len(),
{
    let t = s.push(p);
    if s.len() == 0 {
        assert(t.len() == 1);
        assert(t[0] == p);
    } else if s.len() == 1 {
        assert(t.len() == 2);
        assert(t[0] == s[0]);
        assert(t.drop_first() =~= seq![p]);
        assert(json_members(t.drop_first()) == json_member(p));
    } else {
        assert(t[0] == s[0]);
        assert(t.drop_first() =~= s.drop_first().push(p));
        lemma_json_members_push(s.drop_first(), p);
        assert(json_members(t) == json_member(s[0]) + seq![','] + (json_members(s.drop_first())
            + seq![','] + json_member(p)));
        assert(json_member(s[0]) + seq![','] + (json_members(s.drop_first()) + seq![',']
            + json_member(p)) =~= (json_member(s[0]) + seq![','] + json_members(s.drop_first()))
            + seq![','] + json_member(p));
    }
}

/// Escaping distributes over appending one character.
proof fn lemma_json_escape_push(s: Seq<char>, c: char)
    ensures
        json_escape(s.push(c)) == json_escape(s) + (if c == '"' || c == '\\' {
            seq!['\\', c]
        } else {
            seq![c]
        }),
    decreases s.len(),
{
    let e = (if c == '"' || c == '\\' {
        seq!['\\', c]
    } else {
        seq![c]
    });
    let t = s.push(c);
    if s.len() == 0 {
        assert(t[0] == c);
        assert(t.drop_first() =~= Seq::<char>::empty());
        assert(json_escape(t.drop_first()) =~= Seq::<char>::empty());
        assert(json_escape(t) == e + json_escape(t.drop_first()));
        assert(json_escape(t) =~= e);
        assert(json_escape(s) + e =~= e);
    } else {
        assert(t[0] == s[0]);
        assert(t.drop_first() =~= s.drop_first().push(c));
        lemma_json_escape_push(s.drop_first(), c);
        let h = (if s[0] == '"' || s[0] == '\\' {
            seq!['\\', s[0]]
        } else {
            seq![s[0]]
        });
        assert(json_escape(t) == h + (json_escape(s.drop_first()) + e));
        assert(h + (json_escape(s.drop_first()) + e) =~= (h + json_escape(s.drop_first())) + e);
    }
}

/// Escapes `"` and `\` in a string.
pub fn json_escape_str(s: &str) -> (r: String)
    ensures
        r@ == json_escape(s@),
{
    let len = s.unicode_len();
    let mut acc = String::new();
    let mut i: usize = 0;
    proof {
        assert(s@.subrange(0, 0) =~= Seq::<char>::empty());
    }
    while i < len
        invariant
            0 <= i <= len,
            len == s@.len(),
            acc@ == json_escape(s@.subrange(0, i as int)),
        decreases len - i,
    {
        let c = s.get_char(i);
        proof {
            lemma_json_escape_push(s@.subrange(0, i as int), s@[i as int]);
            assert(s@.subrange(0, i + 1) =~= s@.subrange(0, i as int).push(s@[i as int]));
            reveal_strlit("\\");
            assert("\\"@ =~= seq!['\\']);
        }
        if c == '"' || c == '\\' {
            acc.append("\\");
        }
        let piece = s.substring_char(i, i + 1);
        acc.append(piece);
        proof {
            assert(piece@ =~= seq![s@[i as int]]);
            assert(acc@ =~= json_escape(s@.subrange(0, i + 1)));
        }
        i = i + 1;
    }
    proof {
        assert(s@.subrange(0, s@.len() as int) =~= s@);
    }
    acc
}

/// Renders an already filtered, already ordered field list as a JSON
/// object.
pub fn render_json(ps: &Vec<Param>) -> (r: String)
    ensures
        r@ == json_object(views_of(ps@)),
{
    let mut acc = String::from_str("{");
    let mut i: usize = 0;
    proof {
        reveal_strlit("{");
        assert(views_of(ps@).take(0) =~= Seq::<ParamView>::empty());
        assert(acc@ =~= seq!['{'] + json_members(views_of(ps@).take(0)));
    }
    while i < ps.len()
        invariant
            0 <= i <= ps@.len(),
            acc@ == seq!['{'] + json_members(views_of(ps@).take(i as int)),
        decreases ps@.len() - i,
    {
        let ghost prefix = views_of(ps@).take(i as int);
        let ghost pv = ps@[i as int]@;
        proof {
            lemma_json_members_push(prefix, pv);
            assert(views_of(ps@).take(i + 1) =~= prefix.push(pv));
            reveal_strlit(",");
            reveal_strlit("\"");
            reveal_strlit("\":");
            reveal_strlit("true");
            reveal_strlit("false");
            assert(","@ =~= seq![',']);
            assert("\""@ =~= seq!['"']);
            assert("\":"@ =~= seq!['"', ':']);
        }
        if i > 0 {
            acc.append(",");
        }
        let p = &ps[i];
        acc.append("\"");
        let k = json_escape_str(p.key.as_str());
        acc.append(k.as_str());
        acc.append("\":");
        match &p.value {
            ParamValue::Str(s) => {
                acc.append("\"");
                let v = json_escape_str(s.as_str());
                acc.append(v.as_str());
                acc.append("\"");
            },
            ParamValue::Bool(b) => {
                if *b {
                    acc.append("true");
                } else {
                    acc.append("false");
                }
            },
            ParamValue::Int(n) => {
                let d = i64_to_dec(*n);
                acc.append(d.as_str());
            },
            ParamValue::Skipped => {},
        }
        proof {
            assert(json_member(pv) =~= seq!['"'] + json_escape(pv.key) + seq!['"', ':']
                + json_value(pv.value));
            if i > 0 {
                assert(acc@ =~= seq!['{'] + (json_members(prefix) + seq![','] + json_member(pv)));
            } else {
                assert(acc@ =~= seq!['{'] + json_member(pv));
            }
            assert(acc@ == seq!['{'] + json_members(views_of(ps@).take(i + 1)));
        }
        i = i + 1;
    }
    acc.append("}");
    proof {
        reveal_strlit("}");
        assert(views_of(ps@).take(ps@.len() as int) =~= views_of(ps@));
        assert(acc@ =~= json_object(views_of(ps@)));
    }
    acc
}

} // verus!
