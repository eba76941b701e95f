//! The JSON value model the wire format is read into and written from,
//! and its canonical serialization. Numbers are integral, matching every
//! numeric field of the wire format; the canonical form emits no
//! whitespace and escapes only the quote and backslash characters.

use vstd::prelude::*;

use crate::text::{dec_digits, push_dec_u64, string_of_chars};
use vstd::string::StrSliceExecFns;

verus! {

broadcast use vstd::std_specs::vec::group_vec_axioms;

/// A JSON value. A number is a sign and a magnitude; `neg` is never set
/// when the magnitude is zero.
pub enum Json {
    Null,
    Bool(bool),
    Num { neg: bool, mag: u64 },
    Str(String),
    Arr(Vec<Json>),
    Obj(Vec<(String, Json)>),
}

/// The mathematical image of a `Json` value.
#[verifier::ext_equal]
pub enum JsonV {
    Null,
    Bool(bool),
    Num { neg: bool, mag: u64 },
    Str(Seq<char>),
    Arr(Seq<JsonV>),
    Obj(Seq<(Seq<char>, JsonV)>),
}

pub open spec fn json_view(j: Json) -> JsonV
    decreases j,
{
    match j {
        Json::Null => JsonV::Null,
        Json::Bool(b) => JsonV::Bool(b),
        Json::Num { neg, mag } => JsonV::Num { neg, mag },
        Json::Str(s) => JsonV::Str(s@),
        Json::Arr(v) => JsonV::Arr(json_view_seq(v@)),
        Json::Obj(m) => JsonV::Obj(json_view_members(m@)),
    }
}

pub open spec fn json_view_seq(vs: Seq<Json>) -> Seq<JsonV>
    decreases vs,
{
    if vs.len() == 0 {
        Seq::empty()
    } else {
        seq![json_view(vs[0])] + json_view_seq(vs.drop_first())
    }
}

pub open spec fn json_view_members(ms: Seq<(String, Json)>) -> Seq<(Seq<char>, JsonV)>
    decreases ms,
{
    if ms.len() == 0 {
        Seq::empty()
    } else {
        seq![(ms[0].0@, json_view(ms[0].1))] + json_view_members(ms.drop_first())
    }
}

impl View for Json {
    type V = JsonV;

    open spec fn view(&self) -> JsonV {
        json_view(*self)
    }
}

impl DeepView for Json {
    type V = JsonV;

    open spec fn deep_view(&self) -> JsonV {
        self.view()
    }
}

/// The view of an element list is the element views, pointwise.
pub proof fn lemma_json_view_seq(vs: Seq<Json>)
    ensures
        json_view_seq(vs).len() == vs.len(),
        forall|i: int| 0 <= i < vs.len() ==> json_view_seq(vs)[i] == json_view(vs[i]),
    decreases vs,
{
    if vs.len() > 0 {
        lemma_json_view_seq(vs.drop_first());
    }
}

/// The view of a member list is the member views, pointwise.
pub proof fn lemma_json_view_members(ms: Seq<(String, Json)>)
    ensures
        json_view_members(ms).len() == ms.len(),
        forall|i: int| 0 <= i < ms.len() ==> json_view_members(ms)[i] == (ms[i].0@, json_view(
            ms[i].1,
        )),
    decreases ms,
{
    if ms.len() > 0 {
        lemma_json_view_members(ms.drop_first());
    }
}

/// Pushing an element commutes with taking element views.
pub proof fn lemma_view_seq_push(vs: Seq<Json>, v: Json)
    ensures
        json_view_seq(vs.push(v)) == json_view_seq(vs).push(json_view(v)),
{
    lemma_json_view_seq(vs.push(v));
    lemma_json_view_seq(vs);
    assert(json_view_seq(vs.push(v)) =~= json_view_seq(vs).push(json_view(v)));
}

/// Pushing a member commutes with taking member views.
pub proof fn lemma_view_members_push(ms: Seq<(String, Json)>, key: String, v: Json)
    ensures
        json_view_members(ms.push((key, v))) == json_view_members(ms).push((key@, json_view(v))),
{
    lemma_json_view_members(ms.push((key, v)));
    lemma_json_view_members(ms);
    assert(json_view_members(ms.push((key, v))) =~= json_view_members(ms).push(
        (key@, json_view(v)),
    ));
}

/// Concatenating member lists concatenates their views.
pub proof fn lemma_view_members_concat(a: Seq<(String, Json)>, b: Seq<(String, Json)>)
    ensures
        json_view_members(a + b) == json_view_members(a) + json_view_members(b),
{
    lemma_json_view_members(a);
    lemma_json_view_members(b);
    lemma_json_view_members(a + b);
    assert(json_view_members(a + b) =~= json_view_members(a) + json_view_members(b));
}

// The canonical serialization.

/// How one character of a string value is written: quote and backslash are
/// escaped, everything else stands as itself.
pub open spec fn esc_char(c: char) -> Seq<char> {
    if c == '"' {
        seq!['\\', '"']
    } else if c == '\\' {
        seq!['\\', '\\']
    } else {
        seq![c]
    }
}

/// The escaped body of a string value.
pub open spec fn esc_text(t: Seq<char>) -> Seq<char>
    decreases t.len(),
{
    if t.len() == 0 {
        Seq::empty()
    } else {
        esc_text(t.drop_last()) + esc_char(t.last())
    }
}

/// A string value with its surrounding quotes.
pub open spec fn str_text(t: Seq<char>) -> Seq<char> {
    seq!['"'] + esc_text(t) + seq!['"']
}

/// An integral number: an optional minus sign, then the decimal digits.
pub open spec fn num_text(neg: bool, mag: u64) -> Seq<char> {
    if neg {
        seq!['-'] + dec_digits(mag as int)
    } else {
        dec_digits(mag as int)
    }
}

/// The canonical text of a JSON value.
pub open spec fn json_text(j: JsonV) -> Seq<char>
    decreases j, 1int, 0int,
{
    match j {
        JsonV::Null => seq!['n', 'u', 'l', 'l'],
        JsonV::Bool(b) => if b {
            seq!['t', 'r', 'u', 'e']
        } else {
            seq!['f', 'a', 'l', 's', 'e']
        },
        JsonV::Num { neg, mag } => num_text(neg, mag),
        JsonV::Str(t) => str_text(t),
        JsonV::Arr(vs) => seq!['['] + arr_join(vs, vs.len() as int) + seq![']'],
        JsonV::Obj(ms) => seq!['{'] + obj_join(ms, ms.len() as int) + seq!['}'],
    }
}

/// The first `k` elements of an array body, comma-separated.
pub open spec fn arr_join(vs: Seq<JsonV>, k: int) -> Seq<char>
    decreases vs, 0int, k,
{
    if k <= 0 || k > vs.len() {
        Seq::empty()
    } else if k == 1 {
        json_text(vs[0])
    } else {
        arr_join(vs, k - 1) + seq![','] + json_text(vs[k - 1])
    }
}

/// One object member: quoted key, colon, value.
pub open spec fn member_text(m: (Seq<char>, JsonV)) -> Seq<char>
    decreases m, 1int, 0int,
{
    str_text(m.0) + seq![':'] + json_text(m.1)
}

/// The first `k` members of an object body, comma-separated.
pub open spec fn obj_join(ms: Seq<(Seq<char>, JsonV)>, k: int) -> Seq<char>
    decreases ms, 0int, k,
{
    if k <= 0 || k > ms.len() {
        Seq::empty()
    } else if k == 1 {
        member_text(ms[0])
    } else {
        obj_join(ms, k - 1) + seq![','] + member_text(ms[k - 1])
    }
}

/// Writes the escaped, quoted form of `s`.
fn write_json_string(s: &str, out: &mut Vec<char>)
    ensures
        final(out)@ == old(out)@ + str_text(s@),
{
    out.push('"');
    let n = s.unicode_len();
    let mut i: usize = 0;
    while i < n
        invariant
            i <= n,
            n == s@.len(),
            out@ == old(out)@ + seq!['"'] + esc_text(s@.subrange(0, i as int)),
        decreases n - i,
    {
        let c = s.get_char(i);
        if c == '"' {
            out.push('\\');
            out.push('"');
        } else if c == '\\' {
            out.push('\\');
            out.push('\\');
        } else {
            out.push(c);
        }
        proof {
            let t = s@.subrange(0, i + 1);
            assert(t.drop_last() =~= s@.subrange(0, i as int));
            assert(t.last() == s@[i as int]);
            assert(out@ =~= old(out)@ + seq!['"'] + esc_text(t));
        }
        i = i + 1;
    }
    out.push('"');
    proof {
        assert(s@.subrange(0, n as int) =~= s@);
        assert(out@ =~= old(out)@ + str_text(s@));
    }
}

/// Writes the canonical text of `j`.
#[verifier::loop_isolation(false)]
pub fn write_json(j: &Json, out: &mut Vec<char>)
    ensures
        final(out)@ == old(out)@ + json_text(j@),
    decreases j, 1int, 0int,
{
    match j {
        Json::Null => {
            out.push('n');
            out.push('u');
            out.push('l');
            out.push('l');
            assert(out@ =~= old(out)@ + json_text(j@));
        },
        Json::Bool(b) => {
            if *b {
                out.push('t');
                out.push('r');
                out.push('u');
                out.push('e');
            } else {
                out.push('f');
                out.push('a');
                out.push('l');
                out.push('s');
                out.push('e');
            }
            assert(out@ =~= old(out)@ + json_text(j@));
        },
        Json::Num { neg, mag } => {
            if *neg {
                out.push('-');
            }
            push_dec_u64(out, *mag);
            assert(out@ =~= old(out)@ + json_text(j@));
        },
        Json::Str(s) => {
            write_json_string(s.as_str(), out);
        },
        Json::Arr(v) => {
            let ghost vs = json_view_seq(v@);
            proof {
                lemma_json_view_seq(v@);
            }
            out.push('[');
            let mut k: usize = 0;
            while k < v.len()
                invariant
                    k <= v.len(),
                    vs == json_view_seq(v@),
                    vs.len() == v@.len(),
                    forall|i: int| 0 <= i < v@.len() ==> vs[i] == json_view(v@[i]),
                    out@ == old(out)@ + seq!['['] + arr_join(vs, k as int),
                decreases v.len() - k,
            {
                if k > 0 {
                    out.push(',');
                }
                write_json(&v[k], out);
                assert(out@ =~= old(out)@ + seq!['['] + arr_join(vs, k + 1));
                k = k + 1;
            }
            out.push(']');
            assert(out@ =~= old(out)@ + json_text(j@));
        },
        Json::Obj(m) => {
            let ghost ms = json_view_members(m@);
            proof {
                lemma_json_view_members(m@);
            }
            out.push('{');
            let mut k: usize = 0;
            while k < m.len()
                invariant
                    k <= m.len(),
                    ms == json_view_members(m@),
                    ms.len() == m@.len(),
                    forall|i: int| 0 <= i < m@.len() ==> ms[i] == (m@[i].0@, json_view(m@[i].1)),
                    out@ == old(out)@ + seq!['{'] + obj_join(ms, k as int),
                decreases m.len() - k,
            {
                if k > 0 {
                    out.push(',');
                }
                write_json_string(m[k].0.as_str(), out);
                out.push(':');
                write_json(&m[k].1, out);
                proof {
                    assert(ms[k as int] == (m@[k as int].0@, json_view(m@[k as int].1)));
                    assert(member_text(ms[k as int]) == str_text(ms[k as int].0) + seq![':']
                        + json_text(ms[k as int].1));
                    if k > 0 {
                        assert(obj_join(ms, k + 1) == obj_join(ms, k as int) + seq![',']
                            + member_text(ms[k as int]));
                    } else {
                        assert(obj_join(ms, 1) == member_text(ms[0]));
                    }
                    assert(out@ =~= old(out)@ + seq!['{'] + obj_join(ms, k + 1));
                }
                k = k + 1;
            }
            out.push('}');
            assert(out@ =~= old(out)@ + json_text(j@));
        },
    }
}

/// The canonical text of `j`, as a string.
pub fn json_to_string(j: &Json) -> (r: String)
    ensures
        r@ == json_text(j@),
{
    let mut out: Vec<char> = Vec::new();
    write_json(j, &mut out);
    string_of_chars(&out)
}

} // verus!
