//! Reading JSON text into the value model. The specification parser below
//! defines the accepted grammar; the executable parser returns exactly what
//! the specification parser says, for every input. Numbers must be
//! integral: a fraction or exponent stops the number and then fails the
//! surrounding context.

use vstd::prelude::*;

use crate::json::{
    arr_join, esc_text, json_text, json_view, json_view_members, json_view_seq,
    lemma_view_members_push, lemma_view_seq_push, member_text, obj_join, Json, JsonV,
};
use crate::text::{dec_digits, string_of_chars};

verus! {

broadcast use vstd::std_specs::vec::group_vec_axioms;

/// The whitespace characters the grammar skips between tokens.
pub open spec fn is_ws(c: char) -> bool {
    c == ' ' || c == '\t' || c == '\n' || c == '\r'
}

/// The first position at or after `i` that does not hold whitespace.
pub open spec fn skip_ws(s: Seq<char>, i: int) -> int
    decreases s.len() - i,
{
    if 0 <= i < s.len() && is_ws(s[i]) {
        skip_ws(s, i + 1)
    } else {
        i
    }
}

/// The value of a decimal digit character, `-1` for any other character.
pub open spec fn digit_val(c: char) -> int {
    if c == '0' {
        0
    } else if c == '1' {
        1
    } else if c == '2' {
        2
    } else if c == '3' {
        3
    } else if c == '4' {
        4
    } else if c == '5' {
        5
    } else if c == '6' {
        6
    } else if c == '7' {
        7
    } else if c == '8' {
        8
    } else if c == '9' {
        9
    } else {
        -1
    }
}

/// Whether `c` is a decimal digit.
pub open spec fn is_digit(c: char) -> bool {
    digit_val(c) >= 0
}

/// Folds a run of decimal digits starting at `i` onto `acc`, failing when
/// the value would not fit a 64-bit magnitude.
pub open spec fn parse_digits(s: Seq<char>, i: int, acc: u64) -> Option<(u64, int)>
    decreases s.len() - i,
{
    if 0 <= i < s.len() && is_digit(s[i]) {
        let d = digit_val(s[i]);
        if acc as int * 10 + d <= u64::MAX as int {
            parse_digits(s, i + 1, (acc as int * 10 + d) as u64)
        } else {
            None
        }
    } else {
        Some((acc, i))
    }
}

/// An integral JSON number at `i`: an optional minus sign, then at least
/// one digit. A zero magnitude never carries the sign.
pub open spec fn parse_number(s: Seq<char>, i: int) -> Option<(JsonV, int)> {
    let has_sign = 0 <= i < s.len() && s[i] == '-';
    let j = if has_sign {
        i + 1
    } else {
        i
    };
    if 0 <= j < s.len() && is_digit(s[j]) {
        match parse_digits(s, j, 0u64) {
            Some((mag, e)) => Some((JsonV::Num { neg: has_sign && mag != 0, mag }, e)),
            None => None,
        }
    } else {
        None
    }
}

/// What the character after a backslash stands for, if anything.
pub open spec fn esc_of(c: char) -> Option<char> {
    if c == '"' {
        Some('"')
    } else if c == '\\' {
        Some('\\')
    } else if c == '/' {
        Some('/')
    } else if c == 'n' {
        Some('\n')
    } else if c == 't' {
        Some('\t')
    } else if c == 'r' {
        Some('\r')
    } else if c == 'b' {
        Some('\u{0008}')
    } else if c == 'f' {
        Some('\u{000C}')
    } else {
        None
    }
}

/// The body of a string value from `i` (just after the opening quote) to
/// its closing quote, unescaping as it goes.
pub open spec fn parse_string_body(s: Seq<char>, i: int, acc: Seq<char>) -> Option<
    (Seq<char>, int),
>
    decreases s.len() - i,
{
    if !(0 <= i < s.len()) {
        None
    } else if s[i] == '"' {
        Some((acc, i + 1))
    } else if s[i] == '\\' {
        if i + 1 < s.len() {
            match esc_of(s[i + 1]) {
                Some(c) => parse_string_body(s, i + 2, acc.push(c)),
                None => None,
            }
        } else {
            None
        }
    } else {
        parse_string_body(s, i + 1, acc.push(s[i]))
    }
}

/// A JSON value at `i`, after optional whitespace.
pub open spec fn parse_value(s: Seq<char>, i: int) -> Option<(JsonV, int)>
    decreases s.len() - i, 1int,
{
    let j = skip_ws(s, i);
    if !(i <= j && j < s.len()) {
        None
    } else if s[j] == 'n' {
        if j + 4 <= s.len() && s[j + 1] == 'u' && s[j + 2] == 'l' && s[j + 3] == 'l' {
            Some((JsonV::Null, j + 4))
        } else {
            None
        }
    } else if s[j] == 't' {
        if j + 4 <= s.len() && s[j + 1] == 'r' && s[j + 2] == 'u' && s[j + 3] == 'e' {
            Some((JsonV::Bool(true), j + 4))
        } else {
            None
        }
    } else if s[j] == 'f' {
        if j + 5 <= s.len() && s[j + 1] == 'a' && s[j + 2] == 'l' && s[j + 3] == 's' && s[j + 4]
            == 'e' {
            Some((JsonV::Bool(false), j + 5))
        } else {
            None
        }
    } else if s[j] == '"' {
        match parse_string_body(s, j + 1, Seq::empty()) {
            Some((t, e)) => Some((JsonV::Str(t), e)),
            None => None,
        }
    } else if s[j] == '-' || is_digit(s[j]) {
        parse_number(s, j)
    } else if s[j] == '[' {
        let j2 = skip_ws(s, j + 1);
        if j2 < s.len() && s[j2] == ']' {
            Some((JsonV::Arr(Seq::empty()), j2 + 1))
        } else {
            parse_arr_items(s, j + 1, Seq::empty())
        }
    } else if s[j] == '{' {
        let j2 = skip_ws(s, j + 1);
        if j2 < s.len() && s[j2] == '}' {
            Some((JsonV::Obj(Seq::empty()), j2 + 1))
        } else {
            parse_obj_members(s, j + 1, Seq::empty())
        }
    } else {
        None
    }
}

/// The elements of a non-empty array body from `i`, accumulated onto
/// `acc`, up to and including the closing bracket.
pub open spec fn parse_arr_items(s: Seq<char>, i: int, acc: Seq<JsonV>) -> Option<(JsonV, int)>
    decreases s.len() - i, 2int,
{
    match parse_value(s, i) {
        Some((v, e)) => {
            let j = skip_ws(s, e);
            if !(i <= j && j < s.len()) {
                None
            } else if s[j] == ',' {
                parse_arr_items(s, j + 1, acc.push(v))
            } else if s[j] == ']' {
                Some((JsonV::Arr(acc.push(v)), j + 1))
            } else {
                None
            }
        },
        None => None,
    }
}

/// The members of a non-empty object body from `i`, accumulated onto
/// `acc`, up to and including the closing brace.
pub open spec fn parse_obj_members(s: Seq<char>, i: int, acc: Seq<(Seq<char>, JsonV)>) -> Option<
    (JsonV, int),
>
    decreases s.len() - i, 2int,
{
    let j = skip_ws(s, i);
    if !(i <= j && j < s.len() && s[j] == '"') {
        None
    } else {
        match parse_string_body(s, j + 1, Seq::empty()) {
            Some((key, e1)) => {
                let j1 = skip_ws(s, e1);
                if !(i <= j1 && j1 < s.len() && s[j1] == ':') {
                    None
                } else {
                    match parse_value(s, j1 + 1) {
                        Some((v, e2)) => {
                            let j2 = skip_ws(s, e2);
                            if !(i <= j2 && j2 < s.len()) {
                                None
                            } else if s[j2] == ',' {
                                parse_obj_members(s, j2 + 1, acc.push((key, v)))
                            } else if s[j2] == '}' {
                                Some((JsonV::Obj(acc.push((key, v))), j2 + 1))
                            } else {
                                None
                            }
                        },
                        None => None,
                    }
                }
            },
            None => None,
        }
    }
}

/// A whole JSON document: one value, with nothing but whitespace after it.
pub open spec fn parse_json_text(s: Seq<char>) -> Option<JsonV> {
    match parse_value(s, 0) {
        Some((v, e)) => {
            if 0 <= e <= s.len() && skip_ws(s, e) == s.len() {
                Some(v)
            } else {
                None
            }
        },
        None => None,
    }
}

// The executable parser.

fn ws_char(c: char) -> (r: bool)
    ensures
        r == is_ws(c),
{
    c == ' ' || c == '\t' || c == '\n' || c == '\r'
}

fn is_digit_char(c: char) -> (r: bool)
    ensures
        r == is_digit(c),
{
    c == '0' || c == '1' || c == '2' || c == '3' || c == '4' || c == '5' || c == '6' || c == '7'
        || c == '8' || c == '9'
}

fn digit_value_of(c: char) -> (d: u64)
    requires
        is_digit(c),
    ensures
        d as int == digit_val(c),
{
    if c == '0' {
        0
    } else if c == '1' {
        1
    } else if c == '2' {
        2
    } else if c == '3' {
        3
    } else if c == '4' {
        4
    } else if c == '5' {
        5
    } else if c == '6' {
        6
    } else if c == '7' {
        7
    } else if c == '8' {
        8
    } else {
        9
    }
}

fn esc_char_of(c: char) -> (r: Option<char>)
    ensures
        r == esc_of(c),
{
    if c == '"' {
        Some('"')
    } else if c == '\\' {
        Some('\\')
    } else if c == '/' {
        Some('/')
    } else if c == 'n' {
        Some('\n')
    } else if c == 't' {
        Some('\t')
    } else if c == 'r' {
        Some('\r')
    } else if c == 'b' {
        Some('\u{0008}')
    } else if c == 'f' {
        Some('\u{000C}')
    } else {
        None
    }
}

fn skip_spaces(s: &Vec<char>, i: usize) -> (r: usize)
    requires
        i <= s@.len(),
    ensures
        r as int == skip_ws(s@, i as int),
        i <= r <= s@.len(),
{
    let mut r = i;
    while r < s.len() && ws_char(s[r])
        invariant
            i <= r <= s@.len(),
            skip_ws(s@, i as int) == skip_ws(s@, r as int),
        decreases s@.len() - r,
    {
        r = r + 1;
    }
    r
}

fn scan_digits(s: &Vec<char>, i: usize, acc0: u64) -> (r: Option<(u64, usize)>)
    requires
        i <= s@.len(),
    ensures
        r matches Some(p) ==> parse_digits(s@, i as int, acc0) == Some((p.0, p.1 as int)) && i
            <= p.1 <= s@.len(),
        r is None ==> parse_digits(s@, i as int, acc0) is None,
{
    let mut acc = acc0;
    let mut k = i;
    while k < s.len() && is_digit_char(s[k])
        invariant
            i <= k <= s@.len(),
            parse_digits(s@, i as int, acc0) == parse_digits(s@, k as int, acc),
        decreases s@.len() - k,
    {
        let d = digit_value_of(s[k]);
        proof {
            vstd::arithmetic::div_mod::lemma_fundamental_div_mod((u64::MAX - d) as int, 10);
        }
        if acc > (u64::MAX - d) / 10 {
            assert(acc as int * 10 + d as int > u64::MAX as int);
            return None;
        }
        assert(acc as int * 10 + d as int <= u64::MAX as int);
        acc = acc * 10 + d;
        k = k + 1;
    }
    Some((acc, k))
}

fn scan_number(s: &Vec<char>, i: usize) -> (r: Option<(Json, usize)>)
    requires
        i < s@.len(),
    ensures
        r matches Some(p) ==> parse_number(s@, i as int) == Some((p.0@, p.1 as int)) && i <= p.1
            <= s@.len(),
        r is None ==> parse_number(s@, i as int) is None,
{
    let n = s.len();
    let has_sign = s[i] == '-';
    let j = if has_sign {
        i + 1
    } else {
        i
    };
    if j < s.len() && is_digit_char(s[j]) {
        match scan_digits(s, j, 0) {
            Some((mag, e)) => {
                let neg = has_sign && mag != 0;
                Some((Json::Num { neg, mag }, e))
            },
            None => None,
        }
    } else {
        None
    }
}

fn scan_string_body(s: &Vec<char>, i: usize) -> (r: Option<(String, usize)>)
    requires
        i <= s@.len(),
    ensures
        r matches Some(p) ==> parse_string_body(s@, i as int, Seq::empty()) == Some(
            (p.0@, p.1 as int),
        ) && i <= p.1 <= s@.len(),
        r is None ==> parse_string_body(s@, i as int, Seq::empty()) is None,
{
    let mut acc: Vec<char> = Vec::new();
    let mut k = i;
    loop
        invariant
            i <= k <= s@.len(),
            parse_string_body(s@, i as int, Seq::empty()) == parse_string_body(
                s@,
                k as int,
                acc@,
            ),
        decreases s@.len() - k,
    {
        if k >= s.len() {
            return None;
        }
        let c = s[k];
        if c == '"' {
            let t = string_of_chars(&acc);
            return Some((t, k + 1));
        } else if c == '\\' {
            if k + 1 < s.len() {
                match esc_char_of(s[k + 1]) {
                    Some(ec) => {
                        acc.push(ec);
                        k = k + 2;
                    },
                    None => {
                        return None;
                    },
                }
            } else {
                return None;
            }
        } else {
            acc.push(c);
            k = k + 1;
        }
    }
}

/// Reads the value at `i`; returns exactly what the specification parser
/// returns there.
#[verifier::loop_isolation(false)]
fn scan_value(s: &Vec<char>, i: usize) -> (r: Option<(Json, usize)>)
    requires
        i <= s@.len(),
    ensures
        r matches Some(p) ==> parse_value(s@, i as int) == Some((p.0@, p.1 as int)) && i <= p.1
            <= s@.len(),
        r is None ==> parse_value(s@, i as int) is None,
    decreases s@.len() - i, 1int,
{
    let j = skip_spaces(s, i);
    if j >= s.len() {
        return None;
    }
    let c = s[j];
    if c == 'n' {
        if s.len() - j >= 4 && s[j + 1] == 'u' && s[j + 2] == 'l' && s[j + 3] == 'l' {
            Some((Json::Null, j + 4))
        } else {
            None
        }
    } else if c == 't' {
        if s.len() - j >= 4 && s[j + 1] == 'r' && s[j + 2] == 'u' && s[j + 3] == 'e' {
            Some((Json::Bool(true), j + 4))
        } else {
            None
        }
    } else if c == 'f' {
        if s.len() - j >= 5 && s[j + 1] == 'a' && s[j + 2] == 'l' && s[j + 3] == 's' && s[j + 4]
            == 'e' {
            Some((Json::Bool(false), j + 5))
        } else {
            None
        }
    } else if c == '"' {
        match scan_string_body(s, j + 1) {
            Some((t, e)) => Some((Json::Str(t), e)),
            None => None,
        }
    } else if c == '-' || is_digit_char(c) {
        scan_number(s, j)
    } else if c == '[' {
        let j2 = skip_spaces(s, j + 1);
        if j2 < s.len() && s[j2] == ']' {
            let empty: Vec<Json> = Vec::new();
            proof {
                assert(json_view_seq(empty@) =~= Seq::<JsonV>::empty());
            }
            return Some((Json::Arr(empty), j2 + 1));
        }
        let ghost goal = parse_arr_items(s@, j + 1 as int, Seq::empty());
        let mut acc: Vec<Json> = Vec::new();
        let mut pos = j + 1;
        proof {
            assert(json_view_seq(acc@) =~= Seq::<JsonV>::empty());
        }
        loop
            invariant
                i < pos <= s@.len(),
                parse_arr_items(s@, pos as int, json_view_seq(acc@)) == goal,
                parse_value(s@, i as int) == goal,
            decreases s@.len() - pos,
        {
            match scan_value(s, pos) {
                Some((v, e)) => {
                    let j2 = skip_spaces(s, e);
                    if j2 >= s.len() {
                        return None;
                    }
                    let t = s[j2];
                    if t == ',' {
                        proof {
                            lemma_view_seq_push(acc@, v);
                        }
                        acc.push(v);
                        pos = j2 + 1;
                    } else if t == ']' {
                        proof {
                            lemma_view_seq_push(acc@, v);
                        }
                        acc.push(v);
                        return Some((Json::Arr(acc), j2 + 1));
                    } else {
                        return None;
                    }
                },
                None => {
                    return None;
                },
            }
        }
    } else if c == '{' {
        let j2 = skip_spaces(s, j + 1);
        if j2 < s.len() && s[j2] == '}' {
            let empty: Vec<(String, Json)> = Vec::new();
            proof {
                assert(json_view_members(empty@) =~= Seq::<(Seq<char>, JsonV)>::empty());
            }
            return Some((Json::Obj(empty), j2 + 1));
        }
        let ghost goal = parse_obj_members(s@, j + 1 as int, Seq::empty());
        let mut acc: Vec<(String, Json)> = Vec::new();
        let mut pos = j + 1;
        proof {
            assert(json_view_members(acc@) =~= Seq::<(Seq<char>, JsonV)>::empty());
        }
        loop
            invariant
                i < pos <= s@.len(),
                parse_obj_members(s@, pos as int, json_view_members(acc@)) == goal,
                parse_value(s@, i as int) == goal,
            decreases s@.len() - pos,
        {
            let j0 = skip_spaces(s, pos);
            if j0 >= s.len() {
                return None;
            }
            if s[j0] != '"' {
                return None;
            }
            match scan_string_body(s, j0 + 1) {
                Some((key, e1)) => {
                    let j1 = skip_spaces(s, e1);
                    if j1 >= s.len() {
                        return None;
                    }
                    if s[j1] != ':' {
                        return None;
                    }
                    match scan_value(s, j1 + 1) {
                        Some((v, e2)) => {
                            let j2 = skip_spaces(s, e2);
                            if j2 >= s.len() {
                                return None;
                            }
                            let t = s[j2];
                            if t == ',' {
                                proof {
                                    lemma_view_members_push(acc@, key, v);
                                }
                                acc.push((key, v));
                                pos = j2 + 1;
                            } else if t == '}' {
                                proof {
                                    lemma_view_members_push(acc@, key, v);
                                }
                                acc.push((key, v));
                                return Some((Json::Obj(acc), j2 + 1));
                            } else {
                                return None;
                            }
                        },
                        None => {
                            return None;
                        },
                    }
                },
                None => {
                    return None;
                },
            }
        }
    } else {
        None
    }
}

/// Reads a whole JSON document: one value, with nothing but whitespace
/// after it. Returns exactly what the specification parser returns.
pub fn read_json(s: &Vec<char>) -> (r: Option<Json>)
    ensures
        r matches Some(j) ==> parse_json_text(s@) == Some(j@),
        r is None ==> parse_json_text(s@) is None,
{
    match scan_value(s, 0) {
        Some((v, e)) => {
            let rest = skip_spaces(s, e);
            if rest == s.len() {
                Some(v)
            } else {
                None
            }
        },
        None => None,
    }
}

// What follows relates the parser to the canonical serialization: parsing
// the canonical text of a well-formed value gives that value back.

/// Well-formedness of a value for serialization: a zero magnitude never
/// carries the sign, recursively.
pub open spec fn canon_json(j: JsonV) -> bool
    decreases j,
{
    match j {
        JsonV::Num { neg, mag } => neg ==> mag != 0,
        JsonV::Arr(vs) => forall|q: int| 0 <= q < vs.len() ==> canon_json(#[trigger] vs[q]),
        JsonV::Obj(ms) => forall|q: int| 0 <= q < ms.len() ==> canon_json(#[trigger] ms[q].1),
        _ => true,
    }
}

/// The numeric value of a digit run folded onto `acc`.
spec fn digits_val(ds: Seq<char>, acc: int) -> int
    decreases ds.len(),
{
    if ds.len() == 0 {
        acc
    } else {
        digits_val(ds.drop_first(), acc * 10 + digit_val(ds[0]))
    }
}

proof fn lemma_digits_val_lb(ds: Seq<char>, acc: int)
    requires
        acc >= 0,
        forall|q: int| 0 <= q < ds.len() ==> is_digit(#[trigger] ds[q]),
    ensures
        digits_val(ds, acc) >= acc,
    decreases ds.len(),
{
    if ds.len() > 0 {
        assert(is_digit(ds[0]));
        assert forall|q: int| 0 <= q < ds.drop_first().len() implies is_digit(
            #[trigger] ds.drop_first()[q],
        ) by {
            assert(ds.drop_first()[q] == ds[q + 1]);
        }
        lemma_digits_val_lb(ds.drop_first(), acc * 10 + digit_val(ds[0]));
    }
}

proof fn lemma_digits_val_push(ds: Seq<char>, acc: int, c: char)
    ensures
        digits_val(ds.push(c), acc) == digits_val(ds, acc) * 10 + digit_val(c),
    decreases ds.len(),
{
    if ds.len() == 0 {
        assert(ds.push(c)[0] == c);
        assert(ds.push(c).drop_first() =~= Seq::<char>::empty());
        assert(digits_val(ds.push(c).drop_first(), acc * 10 + digit_val(c)) == acc * 10
            + digit_val(c));
    } else {
        assert(ds.push(c)[0] == ds[0]);
        assert(ds.push(c).drop_first() =~= ds.drop_first().push(c));
        lemma_digits_val_push(ds.drop_first(), acc * 10 + digit_val(ds[0]), c);
    }
}

proof fn lemma_digit_char_val(d: int)
    requires
        0 <= d <= 9,
    ensures
        digit_val(crate::text::digit_char(d)) == d,
{
}

proof fn lemma_dec_digits_all(n: int)
    requires
        n >= 0,
    ensures
        dec_digits(n).len() >= 1,
        forall|q: int| 0 <= q < dec_digits(n).len() ==> is_digit(#[trigger] dec_digits(n)[q]),
    decreases n,
{
    if n < 10 {
        lemma_digit_char_val(n);
    } else {
        assert(n / 10 < n) by (nonlinear_arith)
            requires
                n >= 10,
        ;
        lemma_dec_digits_all(n / 10);
        lemma_digit_char_val(n % 10);
        assert forall|q: int| 0 <= q < dec_digits(n).len() implies is_digit(
            #[trigger] dec_digits(n)[q],
        ) by {
            if q < dec_digits(n / 10).len() {
                assert(dec_digits(n)[q] == dec_digits(n / 10)[q]);
            } else {
                assert(dec_digits(n)[q] == crate::text::digit_char(n % 10));
            }
        }
    }
}

proof fn lemma_dec_digits_val(n: int)
    requires
        n >= 0,
    ensures
        digits_val(dec_digits(n), 0) == n,
    decreases n,
{
    if n < 10 {
        lemma_digit_char_val(n);
        assert(dec_digits(n) =~= Seq::<char>::empty().push(crate::text::digit_char(n)));
        lemma_digits_val_push(Seq::empty(), 0, crate::text::digit_char(n));
    } else {
        assert(n / 10 < n) by (nonlinear_arith)
            requires
                n >= 10,
        ;
        lemma_dec_digits_val(n / 10);
        lemma_digit_char_val(n % 10);
        assert(dec_digits(n) =~= dec_digits(n / 10).push(crate::text::digit_char(n % 10)));
        lemma_digits_val_push(dec_digits(n / 10), 0, crate::text::digit_char(n % 10));
        vstd::arithmetic::div_mod::lemma_fundamental_div_mod(n, 10);
    }
}

proof fn lemma_parse_digits_run(s: Seq<char>, i: int, ds: Seq<char>, acc: u64)
    requires
        0 <= i,
        i + ds.len() <= s.len(),
        forall|q: int| 0 <= q < ds.len() ==> s[i + q] == #[trigger] ds[q],
        forall|q: int| 0 <= q < ds.len() ==> is_digit(#[trigger] ds[q]),
        i + ds.len() == s.len() || !is_digit(s[i + ds.len()]),
        digits_val(ds, acc as int) <= u64::MAX as int,
    ensures
        parse_digits(s, i, acc) == Some((digits_val(ds, acc as int) as u64, i + ds.len())),
    decreases ds.len(),
{
    if ds.len() == 0 {
    } else {
        assert(s[i] == ds[0]);
        assert(is_digit(ds[0]));
        let d = digit_val(ds[0]);
        assert forall|q: int| 0 <= q < ds.drop_first().len() implies is_digit(
            #[trigger] ds.drop_first()[q],
        ) by {
            assert(ds.drop_first()[q] == ds[q + 1]);
        }
        assert(digits_val(ds, acc as int) == digits_val(ds.drop_first(), acc as int * 10 + d));
        lemma_digits_val_lb(ds.drop_first(), acc as int * 10 + d);
        let acc2: u64 = (acc as int * 10 + d) as u64;
        assert forall|q: int| 0 <= q < ds.drop_first().len() implies s[i + 1 + q]
            == #[trigger] ds.drop_first()[q] by {
            assert(ds.drop_first()[q] == ds[q + 1]);
            assert(s[i + 1 + q] == ds[q + 1]);
        }
        lemma_parse_digits_run(s, i + 1, ds.drop_first(), acc2);
    }
}

proof fn lemma_parse_number_text(s: Seq<char>, i: int, neg: bool, mag: u64)
    requires
        neg ==> mag != 0,
        0 <= i,
        i + crate::json::num_text(neg, mag).len() <= s.len(),
        s.subrange(i, i + crate::json::num_text(neg, mag).len()) == crate::json::num_text(
            neg,
            mag,
        ),
        i + crate::json::num_text(neg, mag).len() == s.len() || !is_digit(
            s[i + crate::json::num_text(neg, mag).len()],
        ),
    ensures
        parse_number(s, i) == Some(
            (JsonV::Num { neg, mag }, i + crate::json::num_text(neg, mag).len()),
        ),
{
    let nt = crate::json::num_text(neg, mag);
    let ds = dec_digits(mag as int);
    assert forall|q: int| 0 <= q < nt.len() implies s[i + q] == nt[q] by {
        assert(s.subrange(i, i + nt.len())[q] == s[i + q]);
    }
    lemma_dec_digits_all(mag as int);
    lemma_dec_digits_val(mag as int);
    if neg {
        assert(nt[0] == '-');
        assert(s[i] == '-');
        assert forall|q: int| 0 <= q < ds.len() implies s[i + 1 + q] == #[trigger] ds[q] by {
            assert(nt[1 + q] == ds[q]);
        }
        assert(is_digit(s[i + 1]));
        lemma_parse_digits_run(s, i + 1, ds, 0u64);
    } else {
        assert forall|q: int| 0 <= q < ds.len() implies s[i + q] == #[trigger] ds[q] by {
            assert(nt[q] == ds[q]);
        }
        assert(is_digit(s[i]));
        assert(!is_digit('-'));
        lemma_parse_digits_run(s, i, ds, 0u64);
    }
}

proof fn lemma_esc_text_front(t: Seq<char>)
    requires
        t.len() > 0,
    ensures
        esc_text(t) == crate::json::esc_char(t[0]) + esc_text(t.drop_first()),
    decreases t.len(),
{
    if t.len() == 1 {
        assert(t.drop_last() =~= Seq::<char>::empty());
        assert(t.drop_first() =~= Seq::<char>::empty());
        assert(t.last() == t[0]);
        assert(esc_text(t) =~= crate::json::esc_char(t[0]) + esc_text(t.drop_first()));
    } else {
        lemma_esc_text_front(t.drop_last());
        assert(t.drop_last()[0] == t[0]);
        assert(t.drop_last().drop_first() =~= t.drop_first().drop_last());
        assert(t.drop_first().last() == t.last());
        assert(esc_text(t.drop_first()) == esc_text(t.drop_first().drop_last())
            + crate::json::esc_char(t.drop_first().last()));
        assert(esc_text(t) =~= crate::json::esc_char(t[0]) + esc_text(t.drop_first()));
    }
}

proof fn lemma_parse_string_text(s: Seq<char>, k: int, t: Seq<char>, acc: Seq<char>)
    requires
        0 <= k,
        k + esc_text(t).len() + 1 <= s.len(),
        s.subrange(k, k + esc_text(t).len()) == esc_text(t),
        s[k + esc_text(t).len()] == '"',
    ensures
        parse_string_body(s, k, acc) == Some((acc + t, k + esc_text(t).len() + 1)),
    decreases t.len(),
{
    let et = esc_text(t);
    assert forall|q: int| 0 <= q < et.len() implies s[k + q] == et[q] by {
        assert(s.subrange(k, k + et.len())[q] == s[k + q]);
    }
    if t.len() == 0 {
        assert(et.len() == 0);
        assert(s[k] == '"');
        assert(acc + t =~= acc);
    } else {
        lemma_esc_text_front(t);
        let c = t[0];
        let rest = t.drop_first();
        let ec = crate::json::esc_char(c);
        let ret = esc_text(rest);
        if c == '"' || c == '\\' {
            assert(ec.len() == 2);
            assert(et[0] == '\\');
            assert(et[1] == c);
            assert(s[k] == '\\');
            assert(s[k + 1] == c);
            assert(esc_of(c) == Some(c));
            assert(s.subrange(k + 2, k + 2 + ret.len()) =~= ret) by {
                assert forall|q: int| 0 <= q < ret.len() implies s.subrange(
                    k + 2,
                    k + 2 + ret.len(),
                )[q] == ret[q] by {
                    assert(et[2 + q] == ret[q]);
                    assert(s[k + 2 + q] == et[2 + q]);
                }
            }
            lemma_parse_string_text(s, k + 2, rest, acc.push(c));
            assert(acc.push(c) + rest =~= acc + t);
        } else {
            assert(ec =~= seq![c]);
            assert(et[0] == c);
            assert(s[k] == c);
            assert(s.subrange(k + 1, k + 1 + ret.len()) =~= ret) by {
                assert forall|q: int| 0 <= q < ret.len() implies s.subrange(
                    k + 1,
                    k + 1 + ret.len(),
                )[q] == ret[q] by {
                    assert(et[1 + q] == ret[q]);
                    assert(s[k + 1 + q] == et[1 + q]);
                }
            }
            lemma_parse_string_text(s, k + 1, rest, acc.push(c));
            assert(acc.push(c) + rest =~= acc + t);
        }
    }
}

/// The tail of an array body: elements `q` to `k - 1`, each preceded by a
/// comma.
pub open spec fn arr_rest(vs: Seq<JsonV>, q: int, k: int) -> Seq<char>
    decreases k - q,
{
    if 0 <= q < k && k <= vs.len() {
        seq![','] + json_text(vs[q]) + arr_rest(vs, q + 1, k)
    } else {
        Seq::empty()
    }
}

/// The tail of an object body: members `q` to `k - 1`, each preceded by a
/// comma.
pub open spec fn obj_rest(ms: Seq<(Seq<char>, JsonV)>, q: int, k: int) -> Seq<char>
    decreases k - q,
{
    if 0 <= q < k && k <= ms.len() {
        seq![','] + member_text(ms[q]) + obj_rest(ms, q + 1, k)
    } else {
        Seq::empty()
    }
}

proof fn lemma_arr_rest_snoc(vs: Seq<JsonV>, q: int, k: int)
    requires
        0 <= q <= k - 1,
        k <= vs.len(),
    ensures
        arr_rest(vs, q, k) == arr_rest(vs, q, k - 1) + seq![','] + json_text(vs[k - 1]),
    decreases k - q,
{
    if q == k - 1 {
        assert(arr_rest(vs, q + 1, k) =~= Seq::<char>::empty());
        assert(arr_rest(vs, q, k - 1) =~= Seq::<char>::empty());
        assert(arr_rest(vs, q, k) =~= arr_rest(vs, q, k - 1) + seq![','] + json_text(vs[k - 1]));
    } else {
        lemma_arr_rest_snoc(vs, q + 1, k);
        assert(arr_rest(vs, q, k) =~= arr_rest(vs, q, k - 1) + seq![','] + json_text(vs[k - 1]));
    }
}

proof fn lemma_arr_join_front(vs: Seq<JsonV>, k: int)
    requires
        1 <= k <= vs.len(),
    ensures
        arr_join(vs, k) == json_text(vs[0]) + arr_rest(vs, 1, k),
    decreases k,
{
    if k == 1 {
        assert(arr_join(vs, k) =~= json_text(vs[0]) + arr_rest(vs, 1, k));
    } else {
        lemma_arr_join_front(vs, k - 1);
        lemma_arr_rest_snoc(vs, 1, k);
        assert(arr_join(vs, k) =~= json_text(vs[0]) + arr_rest(vs, 1, k));
    }
}

proof fn lemma_obj_rest_snoc(ms: Seq<(Seq<char>, JsonV)>, q: int, k: int)
    requires
        0 <= q <= k - 1,
        k <= ms.len(),
    ensures
        obj_rest(ms, q, k) == obj_rest(ms, q, k - 1) + seq![','] + member_text(ms[k - 1]),
    decreases k - q,
{
    if q == k - 1 {
        assert(obj_rest(ms, q + 1, k) =~= Seq::<char>::empty());
        assert(obj_rest(ms, q, k - 1) =~= Seq::<char>::empty());
        assert(obj_rest(ms, q, k) =~= obj_rest(ms, q, k - 1) + seq![','] + member_text(ms[k - 1]));
    } else {
        lemma_obj_rest_snoc(ms, q + 1, k);
        assert(obj_rest(ms, q, k) =~= obj_rest(ms, q, k - 1) + seq![','] + member_text(ms[k - 1]));
    }
}

proof fn lemma_obj_join_front(ms: Seq<(Seq<char>, JsonV)>, k: int)
    requires
        1 <= k <= ms.len(),
    ensures
        obj_join(ms, k) == member_text(ms[0]) + obj_rest(ms, 1, k),
    decreases k,
{
    if k == 1 {
        assert(obj_join(ms, k) =~= member_text(ms[0]) + obj_rest(ms, 1, k));
    } else {
        lemma_obj_join_front(ms, k - 1);
        lemma_obj_rest_snoc(ms, 1, k);
        assert(obj_join(ms, k) =~= member_text(ms[0]) + obj_rest(ms, 1, k));
    }
}

proof fn lemma_digit_not_special(c: char)
    requires
        is_digit(c),
    ensures
        !is_ws(c),
        c != ']' && c != '}' && c != ',' && c != ':' && c != '"' && c != '[' && c != '{',
        c != 'n' && c != 't' && c != 'f' && c != '-',
{
}

/// Canonical text is never empty and never opens with whitespace or a
/// closing token.
proof fn lemma_json_text_first(j: JsonV)
    ensures
        json_text(j).len() >= 1,
        !is_ws(json_text(j)[0]),
        json_text(j)[0] != ']' && json_text(j)[0] != '}' && json_text(j)[0] != ','
            && json_text(j)[0] != ':',
{
    match j {
        JsonV::Num { neg, mag } => {
            lemma_dec_digits_all(mag as int);
            if !neg {
                assert(json_text(j)[0] == dec_digits(mag as int)[0]);
                lemma_digit_not_special(dec_digits(mag as int)[0]);
            }
        },
        _ => {},
    }
}

/// Parsing from the start of the canonical text of a well-formed value
/// yields that value and stops right after it.
proof fn lemma_text_value(s: Seq<char>, i: int, j: JsonV)
    requires
        canon_json(j),
        0 <= i,
        i + json_text(j).len() <= s.len(),
        s.subrange(i, i + json_text(j).len()) == json_text(j),
        i + json_text(j).len() == s.len() || !is_digit(s[i + json_text(j).len()]),
    ensures
        parse_value(s, i) == Some((j, i + json_text(j).len())),
    decreases j, 1int, 0int,
{
    let jt = json_text(j);
    assert forall|q: int| 0 <= q < jt.len() implies s[i + q] == jt[q] by {
        assert(s.subrange(i, i + jt.len())[q] == s[i + q]);
    }
    lemma_json_text_first(j);
    assert(s[i] == jt[0]);
    match j {
        JsonV::Null => {
            assert(s[i] == 'n' && s[i + 1] == 'u' && s[i + 2] == 'l' && s[i + 3] == 'l');
        },
        JsonV::Bool(b) => {
            if b {
                assert(s[i] == 't' && s[i + 1] == 'r' && s[i + 2] == 'u' && s[i + 3] == 'e');
            } else {
                assert(s[i] == 'f' && s[i + 1] == 'a' && s[i + 2] == 'l' && s[i + 3] == 's' && s[i
                    + 4] == 'e');
            }
        },
        JsonV::Num { neg, mag } => {
            if !neg {
                lemma_dec_digits_all(mag as int);
                assert(jt[0] == dec_digits(mag as int)[0]);
                lemma_digit_not_special(jt[0]);
            }
            lemma_parse_number_text(s, i, neg, mag);
        },
        JsonV::Str(t) => {
            assert(s[i] == '"');
            let et = esc_text(t);
            assert(s.subrange(i + 1, i + 1 + et.len()) =~= et) by {
                assert forall|q: int| 0 <= q < et.len() implies s.subrange(
                    i + 1,
                    i + 1 + et.len(),
                )[q] == et[q] by {
                    assert(jt[1 + q] == et[q]);
                    assert(s[i + 1 + q] == jt[1 + q]);
                }
            }
            assert(s[i + 1 + et.len()] == jt[1 + et.len() as int]);
            assert(jt[1 + et.len() as int] == '"');
            lemma_parse_string_text(s, i + 1, t, Seq::empty());
            assert(Seq::<char>::empty() + t =~= t);
        },
        JsonV::Arr(vs) => {
            assert(s[i] == '[');
            if vs.len() == 0 {
                assert(jt =~= seq!['[', ']']);
                assert(s[i + 1] == ']');
                assert(vs =~= Seq::<JsonV>::empty());
            } else {
                lemma_arr_join_front(vs, vs.len() as int);
                let body = arr_join(vs, vs.len() as int) + seq![']'];
                assert(jt =~= seq!['['] + body);
                assert(s.subrange(i + 1, i + 1 + body.len()) =~= body) by {
                    assert forall|q: int| 0 <= q < body.len() implies s.subrange(
                        i + 1,
                        i + 1 + body.len(),
                    )[q] == body[q] by {
                        assert(jt[1 + q] == body[q]);
                        assert(s[i + 1 + q] == jt[1 + q]);
                    }
                }
                lemma_json_text_first(vs[0]);
                assert(body[0] == json_text(vs[0])[0]) by {
                    assert(arr_join(vs, vs.len() as int)[0] == json_text(vs[0])[0]);
                }
                assert(s[i + 1] == body[0]);
                assert(!is_ws(s[i + 1]));
                assert(s[i + 1] != ']');
                assert(json_text(vs[0]) + arr_rest(vs, 1, vs.len() as int) + seq![']'] =~= body);
                lemma_text_arr_items(s, i + 1, vs, 0, Seq::empty());
                assert(Seq::<JsonV>::empty() + vs.skip(0) =~= vs);
            }
        },
        JsonV::Obj(ms) => {
            assert(s[i] == '{');
            if ms.len() == 0 {
                assert(jt =~= seq!['{', '}']);
                assert(s[i + 1] == '}');
                assert(ms =~= Seq::<(Seq<char>, JsonV)>::empty());
            } else {
                lemma_obj_join_front(ms, ms.len() as int);
                let body = obj_join(ms, ms.len() as int) + seq!['}'];
                assert(jt =~= seq!['{'] + body);
                assert(s.subrange(i + 1, i + 1 + body.len()) =~= body) by {
                    assert forall|q: int| 0 <= q < body.len() implies s.subrange(
                        i + 1,
                        i + 1 + body.len(),
                    )[q] == body[q] by {
                        assert(jt[1 + q] == body[q]);
                        assert(s[i + 1 + q] == jt[1 + q]);
                    }
                }
                assert(body[0] == member_text(ms[0])[0]) by {
                    assert(obj_join(ms, ms.len() as int)[0] == member_text(ms[0])[0]);
                }
                assert(member_text(ms[0])[0] == '"');
                assert(s[i + 1] == body[0]);
                assert(member_text(ms[0]) + obj_rest(ms, 1, ms.len() as int) + seq!['}'] =~= body);
                lemma_text_obj_members(s, i + 1, ms, 0, Seq::empty());
                assert(Seq::<(Seq<char>, JsonV)>::empty() + ms.skip(0) =~= ms);
            }
        },
    }
}

/// Parsing the remaining elements of a non-empty array body consumes them
/// and the closing bracket.
proof fn lemma_text_arr_items(s: Seq<char>, pos: int, vs: Seq<JsonV>, q: int, acc: Seq<JsonV>)
    requires
        forall|r: int| 0 <= r < vs.len() ==> canon_json(#[trigger] vs[r]),
        0 <= q < vs.len(),
        0 <= pos,
        pos + json_text(vs[q]).len() + arr_rest(vs, q + 1, vs.len() as int).len() + 1 <= s.len(),
        s.subrange(
            pos,
            pos + json_text(vs[q]).len() + arr_rest(vs, q + 1, vs.len() as int).len() + 1,
        ) == json_text(vs[q]) + arr_rest(vs, q + 1, vs.len() as int) + seq![']'],
    ensures
        parse_arr_items(s, pos, acc) == Some(
            (
                JsonV::Arr(acc + vs.skip(q)),
                pos + json_text(vs[q]).len() + arr_rest(vs, q + 1, vs.len() as int).len() + 1,
            ),
        ),
    decreases vs, 0int, vs.len() - q,
{
    let vt = json_text(vs[q]);
    let rst = arr_rest(vs, q + 1, vs.len() as int);
    let rem = vt + rst + seq![']'];
    assert forall|r: int| 0 <= r < rem.len() implies s[pos + r] == rem[r] by {
        assert(s.subrange(pos, pos + rem.len())[r] == s[pos + r]);
    }
    assert(s.subrange(pos, pos + vt.len()) =~= vt) by {
        assert forall|r: int| 0 <= r < vt.len() implies s.subrange(pos, pos + vt.len())[r]
            == vt[r] by {
            assert(rem[r] == vt[r]);
            assert(s[pos + r] == rem[r]);
        }
    }
    assert(rem[vt.len() as int] == rst.push(']')[0]) by {
        assert(rem =~= vt + rst.push(']'));
    }
    if q + 1 < vs.len() {
        assert(rst == seq![','] + json_text(vs[q + 1]) + arr_rest(vs, q + 2, vs.len() as int));
        assert(rst[0] == ',');
        assert(rem[vt.len() as int] == ',');
        assert(!is_digit(','));
    } else {
        assert(rst =~= Seq::<char>::empty());
        assert(rem[vt.len() as int] == ']');
        assert(!is_digit(']'));
    }
    assert(s[pos + vt.len()] == rem[vt.len() as int]);
    lemma_text_value(s, pos, vs[q]);
    let e = pos + vt.len();
    assert(!is_ws(s[e]));
    if q + 1 < vs.len() {
        assert(s[e] == ',');
        let vt2 = json_text(vs[q + 1]);
        let rst2 = arr_rest(vs, q + 2, vs.len() as int);
        let rem2 = vt2 + rst2 + seq![']'];
        assert(rem =~= vt + seq![','] + rem2);
        assert(s.subrange(e + 1, e + 1 + rem2.len()) =~= rem2) by {
            assert forall|r: int| 0 <= r < rem2.len() implies s.subrange(
                e + 1,
                e + 1 + rem2.len(),
            )[r] == rem2[r] by {
                assert(rem[vt.len() + 1 + r] == rem2[r]);
                assert(s[e + 1 + r] == rem[vt.len() + 1 + r]);
            }
        }
        lemma_text_arr_items(s, e + 1, vs, q + 1, acc.push(vs[q]));
        assert(acc.push(vs[q]) + vs.skip(q + 1) =~= acc + vs.skip(q));
    } else {
        assert(s[e] == ']');
        assert(acc.push(vs[q]) =~= acc + vs.skip(q));
    }
}

/// Parsing the remaining members of a non-empty object body consumes them
/// and the closing brace.
proof fn lemma_text_obj_members(
    s: Seq<char>,
    pos: int,
    ms: Seq<(Seq<char>, JsonV)>,
    q: int,
    acc: Seq<(Seq<char>, JsonV)>,
)
    requires
        forall|r: int| 0 <= r < ms.len() ==> canon_json(#[trigger] ms[r].1),
        0 <= q < ms.len(),
        0 <= pos,
        pos + member_text(ms[q]).len() + obj_rest(ms, q + 1, ms.len() as int).len() + 1 <= s.len(),
        s.subrange(
            pos,
            pos + member_text(ms[q]).len() + obj_rest(ms, q + 1, ms.len() as int).len() + 1,
        ) == member_text(ms[q]) + obj_rest(ms, q + 1, ms.len() as int) + seq!['}'],
    ensures
        parse_obj_members(s, pos, acc) == Some(
            (
                JsonV::Obj(acc + ms.skip(q)),
                pos + member_text(ms[q]).len() + obj_rest(ms, q + 1, ms.len() as int).len() + 1,
            ),
        ),
    decreases ms, 0int, ms.len() - q,
{
    let key = ms[q].0;
    let val = ms[q].1;
    let mt = member_text(ms[q]);
    let et = esc_text(key);
    let vt = json_text(val);
    let rst = obj_rest(ms, q + 1, ms.len() as int);
    let rem = mt + rst + seq!['}'];
    assert forall|r: int| 0 <= r < rem.len() implies s[pos + r] == rem[r] by {
        assert(s.subrange(pos, pos + rem.len())[r] == s[pos + r]);
    }
    assert(mt =~= seq!['"'] + et + seq!['"'] + seq![':'] + vt);
    assert forall|r: int| 0 <= r < mt.len() implies s[pos + r] == mt[r] by {
        assert(rem[r] == mt[r]);
    }
    assert(s[pos] == '"') by {
        assert(rem[0] == mt[0]);
        assert(mt[0] == '"');
        assert(s.subrange(pos, pos + rem.len() as int)[0] == rem[0]);
    }
    assert(s.subrange(pos + 1, pos + 1 + et.len()) =~= et) by {
        assert forall|r: int| 0 <= r < et.len() implies s.subrange(pos + 1, pos + 1 + et.len())[r]
            == et[r] by {
            assert(mt[1 + r] == et[r]);
            assert(s[pos + 1 + r] == mt[1 + r]);
        }
    }
    assert(mt[1 + et.len() as int] == '"');
    assert(s[pos + 1 + et.len()] == '"');
    lemma_parse_string_text(s, pos + 1, key, Seq::empty());
    assert(Seq::<char>::empty() + key =~= key);
    let e1 = pos + 1 + et.len() + 1;
    assert(mt[e1 - pos] == ':');
    assert(s[e1] == ':');
    assert(!is_ws(':'));
    let vstart = e1 + 1;
    assert(s.subrange(vstart, vstart + vt.len()) =~= vt) by {
        assert forall|r: int| 0 <= r < vt.len() implies s.subrange(vstart, vstart + vt.len())[r]
            == vt[r] by {
            assert(mt[(vstart - pos) + r] == vt[r]);
            assert(s[vstart + r] == mt[(vstart - pos) + r]);
        }
    }
    let e2 = vstart + vt.len();
    assert(e2 == pos + mt.len());
    assert(rem[mt.len() as int] == rst.push('}')[0]) by {
        assert(rem =~= mt + rst.push('}'));
    }
    if q + 1 < ms.len() {
        assert(rst == seq![','] + member_text(ms[q + 1]) + obj_rest(ms, q + 2, ms.len() as int));
        assert(rst[0] == ',');
        assert(rem[mt.len() as int] == ',');
        assert(!is_digit(','));
    } else {
        assert(rst =~= Seq::<char>::empty());
        assert(rem[mt.len() as int] == '}');
        assert(!is_digit('}'));
    }
    assert(s[e2] == rem[mt.len() as int]);
    lemma_text_value(s, vstart, val);
    assert(!is_ws(s[e2]));
    assert((ms[q].0, ms[q].1) == ms[q]);
    if q + 1 < ms.len() {
        assert(s[e2] == ',');
        let mt2 = member_text(ms[q + 1]);
        let rst2 = obj_rest(ms, q + 2, ms.len() as int);
        let rem2 = mt2 + rst2 + seq!['}'];
        assert(rem =~= mt + seq![','] + rem2);
        assert(s.subrange(e2 + 1, e2 + 1 + rem2.len()) =~= rem2) by {
            assert forall|r: int| 0 <= r < rem2.len() implies s.subrange(
                e2 + 1,
                e2 + 1 + rem2.len(),
            )[r] == rem2[r] by {
                assert(rem[mt.len() + 1 + r] == rem2[r]);
                assert(s[e2 + 1 + r] == rem[mt.len() + 1 + r]);
            }
        }
        lemma_text_obj_members(s, e2 + 1, ms, q + 1, acc.push(ms[q]));
        assert(acc.push(ms[q]) + ms.skip(q + 1) =~= acc + ms.skip(q));
    } else {
        assert(s[e2] == '}');
        assert(acc.push(ms[q]) =~= acc + ms.skip(q));
    }
}

/// Parsing the canonical text of a well-formed value gives that value
/// back: the serializer and the parser form a round trip.
pub proof fn lemma_parse_canonical_text(j: JsonV)
    requires
        canon_json(j),
    ensures
        parse_json_text(json_text(j)) == Some(j),
{
    let s = json_text(j);
    assert(s.subrange(0, s.len() as int) =~= s);
    lemma_text_value(s, 0, j);
}

} // verus!
