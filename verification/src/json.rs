//! Minimal JSON emission: the library renders outgoing request bodies
//! itself, so the exact shape of every payload — which members appear,
//! and in which order — is part of each builder's contract.
use crate::encoding::{json_string, emit_json_string};
use vstd::prelude::*;
use vstd::string::StringExecFns;

verus! {

/// One member of a JSON object: a key and the already-rendered JSON
/// text of its value.
pub type JsonMember = (Seq<char>, Seq<char>);

/// The rendering of one object member: a quoted key, a colon, the value.
pub open spec fn json_member(p: JsonMember) -> Seq<char> {
    json_string(p.0) + seq![':'] + p.1
}

/// The comma-separated members of an object body.
pub open spec fn json_members(ps: Seq<JsonMember>) -> Seq<char>
    decreases ps.len(),
{
    if ps.len() == 0 {
        Seq::empty()
    } else if ps.len() == 1 {
        json_member(ps[0])
    } else {
        json_member(ps[0]) + seq![','] + json_members(ps.drop_first())
    }
}

/// A complete JSON object over the given members, braces included.
pub open spec fn json_object(ps: Seq<JsonMember>) -> Seq<char> {
    seq!['{'] + json_members(ps) + seq!['}']
}

/// The comma-separated elements of an array body, each already rendered.
pub open spec fn json_elements(es: Seq<Seq<char>>) -> Seq<char>
    decreases es.len(),
{
    if es.len() == 0 {
        Seq::empty()
    } else if es.len() == 1 {
        es[0]
    } else {
        es[0] + seq![','] + json_elements(es.drop_first())
    }
}

/// A complete JSON array over the given elements, brackets included.
pub open spec fn json_array(es: Seq<Seq<char>>) -> Seq<char> {
    seq!['['] + json_elements(es) + seq![']']
}

/// The rendering of a JSON boolean.
pub open spec fn json_bool(b: bool) -> Seq<char> {
    if b {
        seq!['t', 'r', 'u', 'e']
    } else {
        seq!['f', 'a', 'l', 's', 'e']
    }
}

/// Renders a JSON boolean.
pub fn emit_json_bool(b: bool) -> (r: String)
    ensures
        r@ == json_bool(b),
{
    proof {
        reveal_strlit("true");
        reveal_strlit("false");
    }
    let r = if b {
        String::from_str("true")
    } else {
        String::from_str("false")
    };
    proof {
        assert(r@ =~= json_bool(b));
    }
    r
}

/// The members a list of key/value strings denotes.
pub open spec fn members_view(ps: Seq<(String, String)>) -> Seq<JsonMember> {
    ps.map_values(|p: (String, String)| (p.0@, p.1@))
}

pub proof fn lemma_json_members_push(ps: Seq<JsonMember>, p: JsonMember)
    ensures
        ps.len() == 0 ==> json_members(ps.push(p)) == json_member(p),
        ps.len() > 0 ==> json_members(ps.push(p)) == json_members(ps) + seq![','] + json_member(p),
    decreases ps.len(),
{
    if ps.len() == 0 {
        assert(ps.push(p) =~= seq![p]);
        assert(json_members(seq![p]) == json_member(p));
    } else if ps.len() == 1 {
        assert(ps.push(p) =~= seq![ps[0], p]);
        assert(ps.push(p).drop_first() =~= seq![p]);
        assert(json_members(seq![p]) == json_member(p));
        assert(json_members(seq![ps[0], p]) == json_member(ps[0]) + seq![','] + json_member(p));
        assert(json_members(ps) == json_member(ps[0]));
    } else {
        lemma_json_members_push(ps.drop_first(), p);
        assert(ps.push(p).drop_first() =~= ps.drop_first().push(p));
        assert(json_members(ps.push(p)) =~= json_members(ps) + seq![','] + json_member(p));
    }
}

pub proof fn lemma_json_elements_push(es: Seq<Seq<char>>, e: Seq<char>)
    ensures
        es.len() == 0 ==> json_elements(es.push(e)) == e,
        es.len() > 0 ==> json_elements(es.push(e)) == json_elements(es) + seq![','] + e,
    decreases es.len(),
{
    if es.len() == 0 {
        assert(es.push(e) =~= seq![e]);
        assert(json_elements(seq![e]) == e);
    } else if es.len() == 1 {
        assert(es.push(e) =~= seq![es[0], e]);
        assert(es.push(e).drop_first() =~= seq![e]);
        assert(json_elements(seq![e]) == e);
        assert(json_elements(seq![es[0], e]) == es[0] + seq![','] + e);
        assert(json_elements(es) == es[0]);
    } else {
        lemma_json_elements_push(es.drop_first(), e);
        assert(es.push(e).drop_first() =~= es.drop_first().push(e));
        assert(json_elements(es.push(e)) =~= json_elements(es) + seq![','] + e);
    }
}

/// Renders a JSON object from key/value pairs whose values are already
/// JSON text; the members appear in the order given.
pub fn emit_json_object(ps: &Vec<(String, String)>) -> (r: String)
    ensures
        r@ == json_object(members_view(ps@)),
{
    proof {
        reveal_strlit("{");
        reveal_strlit("}");
        reveal_strlit(":");
        reveal_strlit(",");
    }
    let mut body = String::new();
    let mut i: usize = 0;
    while i < ps.len()
        invariant
            i <= ps@.len(),
            body@ == json_members(members_view(ps@).take(i as int)),
        decreases ps@.len() - i,
    {
        if i > 0 {
            body.append(",");
        }
        let key_text = emit_json_string(ps[i].0.as_str());
        body.append(key_text.as_str());
        body.append(":");
        body.append(ps[i].1.as_str());
        proof {
            reveal_strlit(",");
            reveal_strlit(":");
            let mv = members_view(ps@);
            assert(mv.take(i + 1) =~= mv.take(i as int).push(mv[i as int]));
            lemma_json_members_push(mv.take(i as int), mv[i as int]);
            assert(","@ =~= seq![',']);
            assert(":"@ =~= seq![':']);
            assert(body@ =~= json_members(mv.take(i + 1)));
        }
        i = i + 1;
    }
    let mut r = String::from_str("{");
    r.append(body.as_str());
    r.append("}");
    proof {
        assert(members_view(ps@).take(ps@.len() as int) =~= members_view(ps@));
        assert(r@ =~= json_object(members_view(ps@)));
    }
    r
}

/// Renders a JSON array from elements that are already JSON text, in
/// the order given.
pub fn emit_json_array(es: &Vec<String>) -> (r: String)
    ensures
        r@ == json_array(es@.map_values(|e: String| e@)),
{
    proof {
        reveal_strlit("[");
        reveal_strlit("]");
        reveal_strlit(",");
    }
    let mut body = String::new();
    let mut i: usize = 0;
    while i < es.len()
        invariant
            i <= es@.len(),
            body@ == json_elements(es@.map_values(|e: String| e@).take(i as int)),
        decreases es@.len() - i,
    {
        if i > 0 {
            body.append(",");
        }
        body.append(es[i].as_str());
        proof {
            reveal_strlit(",");
            let ev = es@.map_values(|e: String| e@);
            assert(ev.take(i + 1) =~= ev.take(i as int).push(ev[i as int]));
            lemma_json_elements_push(ev.take(i as int), ev[i as int]);
            assert(","@ =~= seq![',']);
            assert(body@ =~= json_elements(ev.take(i + 1)));
        }
        i = i + 1;
    }
    let mut r = String::from_str("[");
    r.append(body.as_str());
    r.append("]");
    proof {
        let ev = es@.map_values(|e: String| e@);
        assert(ev.take(es@.len() as int) =~= ev);
        assert(r@ =~= json_array(ev));
    }
    r
}

} // verus!
