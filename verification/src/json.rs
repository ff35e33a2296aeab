//! The JSON subset the remote service speaks, read and written by the
//! library itself so that every decode step carries a contract.
//!
//! `spec_parse_json` is the grammar: objects, arrays, strings with the named
//! escapes (`\" \\ \/ \b \f \n \r \t`) and `\u` escapes of plain scalars
//! (surrogate pairs are not joined), `true`, `false`, `null`, and number
//! tokens kept as their raw text (the library never does arithmetic on
//! them). A raw control character makes a text invalid.

use vstd::prelude::*;
use vstd::string::StrSliceExecFns;
use vstd::string::StringExecFns;
use crate::text::is_digit;
use crate::text::is_hex_digit;
use crate::text::hex_val;
use crate::text::hex_digit_check;
use crate::text::hex_digit_value;
use crate::text::scan;
use crate::text::lemma_scan;

verus! {

/// A JSON value, as contracts speak of it.
#[verifier::ext_equal]
pub enum Jv {
    Null,
    Bool(bool),
    /// The raw number token, e.g. `-12.5e3`.
    Num(Seq<char>),
    /// The decoded text, escapes already resolved.
    Str(Seq<char>),
    Arr(Seq<Jv>),
    Obj(Seq<(Seq<char>, Jv)>),
}

/// A JSON value, as the decoder builds it.
pub enum JsonValue {
    Null,
    Bool(bool),
    /// The raw number token, kept as text.
    Num(String),
    Str(String),
    Arr(Vec<JsonValue>),
    Obj(Vec<(String, JsonValue)>),
}

impl JsonValue {
    /// The value a decoded tree stands for.
    pub open spec fn jv(self) -> Jv
        decreases self,
        via Self::jv_decreases
    {
        match self {
            JsonValue::Null => Jv::Null,
            JsonValue::Bool(b) => Jv::Bool(b),
            JsonValue::Num(s) => Jv::Num(s@),
            JsonValue::Str(s) => Jv::Str(s@),
            JsonValue::Arr(a) => Jv::Arr(
                Seq::new(
                    a@.len(),
                    |i: int|
                        if 0 <= i < a@.len() {
                            a@[i].jv()
                        } else {
                            Jv::Null
                        },
                ),
            ),
            JsonValue::Obj(m) => Jv::Obj(
                Seq::new(
                    m@.len(),
                    |i: int|
                        if 0 <= i < m@.len() {
                            (m@[i].0@, m@[i].1.jv())
                        } else {
                            (Seq::empty(), Jv::Null)
                        },
                ),
            ),
        }
    }

    #[via_fn]
    proof fn jv_decreases(self) {
        broadcast use vstd::std_specs::vec::group_vec_axioms;
        broadcast use vstd::seq::axiom_seq_index_decreases;

        match self {
            JsonValue::Arr(a) => {
                assert forall|i: int| 0 <= i < a@.len() implies decreases_to!(self => a@[i]) by {
                    assert(decreases_to!(self => a));
                    assert(decreases_to!(a => a@));
                    assert(decreases_to!(a@ => a@[i]));
                }
            },
            JsonValue::Obj(m) => {
                assert forall|i: int| 0 <= i < m@.len() implies decreases_to!(self => m@[i].1) by {
                    assert(decreases_to!(self => m));
                    assert(decreases_to!(m => m@));
                    assert(decreases_to!(m@ => m@[i]));
                    assert(decreases_to!(m@[i] => m@[i].1));
                }
            },
            _ => {},
        }
    }
}

impl View for JsonValue {
    type V = Jv;

    open spec fn view(&self) -> Jv {
        (*self).jv()
    }
}

pub open spec fn views_of(a: Seq<JsonValue>) -> Seq<Jv> {
    Seq::new(a.len(), |i: int| a[i]@)
}

pub open spec fn member_views(m: Seq<(String, JsonValue)>) -> Seq<(Seq<char>, Jv)> {
    Seq::new(m.len(), |i: int| (m[i].0@, m[i].1@))
}

pub open spec fn is_ws(c: char) -> bool {
    c == ' ' || c == '\t' || c == '\n' || c == '\r'
}

pub open spec fn is_num_char(c: char) -> bool {
    is_digit(c) || c == '-' || c == '+' || c == '.' || c == 'e' || c == 'E'
}

/// The first index at or after `i` that holds no blank.
pub open spec fn ws_end(s: Seq<char>, i: int) -> int {
    scan(s, i, |c: char| is_ws(c))
}

/// What a backslash escape stands for; `None` for an escape the grammar
/// does not know.
pub open spec fn unescaped(c: char) -> Option<char> {
    if c == '"' {
        Some('"')
    } else if c == '\\' {
        Some('\\')
    } else if c == '/' {
        Some('/')
    } else if c == 'b' {
        Some('\x08')
    } else if c == 'f' {
        Some('\x0c')
    } else if c == 'n' {
        Some('\n')
    } else if c == 'r' {
        Some('\r')
    } else if c == 't' {
        Some('\t')
    } else {
        None
    }
}

/// The value of the four hexadecimal digits at `i`.
pub open spec fn hex4(s: Seq<char>, i: int) -> int {
    hex_val(s[i]) * 4096 + hex_val(s[i + 1]) * 256 + hex_val(s[i + 2]) * 16 + hex_val(s[i + 3])
}

/// A value four hexadecimal digits can name that is a character of its own
/// (not a surrogate half).
pub open spec fn is_plain_scalar(v: int) -> bool {
    0 <= v < 0xD800 || 0xE000 <= v <= 0xFFFF
}

/// Relies on char::from_u32: every value below the surrogate range, and
/// every scalar value above it, names exactly one character.
#[verifier::external_body]
fn char_of_scalar(v: u32) -> (r: char)
    requires
        v < 0xD800 || (0xE000 <= v && v <= 0x10FFFF),
    ensures
        r == (v as char),
{
    match char::from_u32(v) {
        Some(c) => c,
        None => ' ',
    }
}

/// Relies on String::push: appends exactly the one character.
#[verifier::external_body]
fn push_char(s: &mut String, c: char)
    ensures
        final(s)@ == old(s)@.push(c),
{
    s.push(c);
}

/// Reads the inside of a string literal from `i` up to its closing quote;
/// returns the decoded text and the index after the quote.
pub open spec fn spec_parse_string_body(s: Seq<char>, i: int) -> Option<(Seq<char>, int)>
    decreases s.len() - i,
{
    if i < 0 || i >= s.len() {
        None
    } else if s[i] == '"' {
        Some((Seq::empty(), i + 1))
    } else if s[i] == '\\' {
        if i + 1 < s.len() {
            if s[i + 1] == 'u' {
                if i + 6 <= s.len() && is_hex_digit(s[i + 2]) && is_hex_digit(s[i + 3])
                    && is_hex_digit(s[i + 4]) && is_hex_digit(s[i + 5]) && is_plain_scalar(
                    hex4(s, i + 2),
                ) {
                    match spec_parse_string_body(s, i + 6) {
                        Some(t) => Some((seq![(hex4(s, i + 2) as u32) as char] + t.0, t.1)),
                        None => None,
                    }
                } else {
                    None
                }
            } else {
                match unescaped(s[i + 1]) {
                    Some(c) => match spec_parse_string_body(s, i + 2) {
                        Some(t) => Some((seq![c] + t.0, t.1)),
                        None => None,
                    },
                    None => None,
                }
            }
        } else {
            None
        }
    } else if (s[i] as u32) < 32 {
        None
    } else {
        match spec_parse_string_body(s, i + 1) {
            Some(t) => Some((seq![s[i]] + t.0, t.1)),
            None => None,
        }
    }
}

/// Reads one JSON value starting exactly at `i`.
pub open spec fn spec_parse_value(s: Seq<char>, i: int) -> Option<(Jv, int)>
    decreases s.len() - i, 0int,
{
    if i < 0 || i >= s.len() {
        None
    } else {
        let c = s[i];
        if c == 'n' {
            if i + 4 <= s.len() && s[i + 1] == 'u' && s[i + 2] == 'l' && s[i + 3] == 'l' {
                Some((Jv::Null, i + 4))
            } else {
                None
            }
        } else if c == 't' {
            if i + 4 <= s.len() && s[i + 1] == 'r' && s[i + 2] == 'u' && s[i + 3] == 'e' {
                Some((Jv::Bool(true), i + 4))
            } else {
                None
            }
        } else if c == 'f' {
            if i + 5 <= s.len() && s[i + 1] == 'a' && s[i + 2] == 'l' && s[i + 3] == 's' && s[i + 4]
                == 'e' {
                Some((Jv::Bool(false), i + 5))
            } else {
                None
            }
        } else if c == '"' {
            match spec_parse_string_body(s, i + 1) {
                Some(t) => Some((Jv::Str(t.0), t.1)),
                None => None,
            }
        } else if c == '[' {
            let k = ws_end(s, i + 1);
            if i < k && k <= s.len() {
                match spec_parse_elements(s, k) {
                    Some(t) => Some((Jv::Arr(t.0), t.1)),
                    None => None,
                }
            } else {
                None
            }
        } else if c == '{' {
            let k = ws_end(s, i + 1);
            if i < k && k <= s.len() {
                match spec_parse_members(s, k) {
                    Some(t) => Some((Jv::Obj(t.0), t.1)),
                    None => None,
                }
            } else {
                None
            }
        } else if c == '-' || is_digit(c) {
            Some((Jv::Num(s.subrange(i, scan(s, i, |x: char| is_num_char(x)))), scan(s, i, |x: char| is_num_char(x))))
        } else {
            None
        }
    }
}

/// Reads the elements of an array from `i` (the first element or `]`).
pub open spec fn spec_parse_elements(s: Seq<char>, i: int) -> Option<(Seq<Jv>, int)>
    decreases s.len() - i, 1int,
{
    if i < 0 || i >= s.len() {
        None
    } else if s[i] == ']' {
        Some((Seq::empty(), i + 1))
    } else {
        match spec_parse_value(s, i) {
            Some(t) => {
                let k = ws_end(s, t.1);
                if i < k && k < s.len() {
                    if s[k] == ',' {
                        let m = ws_end(s, k + 1);
                        if k < m && m <= s.len() {
                            match spec_parse_elements(s, m) {
                                Some(u) => Some((seq![t.0] + u.0, u.1)),
                                None => None,
                            }
                        } else {
                            None
                        }
                    } else if s[k] == ']' {
                        Some((seq![t.0], k + 1))
                    } else {
                        None
                    }
                } else {
                    None
                }
            },
            None => None,
        }
    }
}

/// Reads the members of an object from `i` (the first key or `}`).
pub open spec fn spec_parse_members(s: Seq<char>, i: int) -> Option<
    (Seq<(Seq<char>, Jv)>, int),
>
    decreases s.len() - i, 1int,
{
    if i < 0 || i >= s.len() {
        None
    } else if s[i] == '}' {
        Some((Seq::empty(), i + 1))
    } else if s[i] == '"' {
        match spec_parse_string_body(s, i + 1) {
            Some(kt) => {
                let k = ws_end(s, kt.1);
                if i < k && k < s.len() && s[k] == ':' {
                    let m = ws_end(s, k + 1);
                    if k < m && m <= s.len() {
                        match spec_parse_value(s, m) {
                            Some(t) => {
                                let q = ws_end(s, t.1);
                                if i < q && q < s.len() {
                                    if s[q] == ',' {
                                        let r = ws_end(s, q + 1);
                                        if q < r && r <= s.len() {
                                            match spec_parse_members(s, r) {
                                                Some(u) => Some(
                                                    (seq![(kt.0, t.0)] + u.0, u.1),
                                                ),
                                                None => None,
                                            }
                                        } else {
                                            None
                                        }
                                    } else if s[q] == '}' {
                                        Some((seq![(kt.0, t.0)], q + 1))
                                    } else {
                                        None
                                    }
                                } else {
                                    None
                                }
                            },
                            None => None,
                        }
                    } else {
                        None
                    }
                } else {
                    None
                }
            },
            None => None,
        }
    } else {
        None
    }
}

/// One JSON value, blanks allowed around it, filling the whole text.
pub open spec fn spec_parse_json(s: Seq<char>) -> Option<Jv> {
    match spec_parse_value(s, ws_end(s, 0)) {
        Some(t) => if ws_end(s, t.1) == s.len() {
            Some(t.0)
        } else {
            None
        },
        None => None,
    }
}

fn ws_check(c: char) -> (r: bool)
    ensures
        r == is_ws(c),
{
    c == ' ' || c == '\t' || c == '\n' || c == '\r'
}

fn num_char_check(c: char) -> (r: bool)
    ensures
        r == is_num_char(c),
{
    crate::text::digit_check(c) || c == '-' || c == '+' || c == '.' || c == 'e' || c == 'E'
}

fn skip_ws(s: &str, n: usize, start: usize) -> (r: usize)
    requires
        n == s@.len(),
        start <= n,
    ensures
        r == ws_end(s@, start as int),
        start <= r <= n,
{
    let mut j = start;
    while j < n && ws_check(s.get_char(j))
        invariant
            start <= j <= n,
            n == s@.len(),
            ws_end(s@, start as int) == ws_end(s@, j as int),
        decreases n - j,
    {
        j = j + 1;
    }
    j
}

fn scan_num(s: &str, n: usize, start: usize) -> (r: usize)
    requires
        n == s@.len(),
        start <= n,
    ensures
        r == scan(s@, start as int, |x: char| is_num_char(x)),
        start <= r <= n,
{
    let mut j = start;
    while j < n && num_char_check(s.get_char(j))
        invariant
            start <= j <= n,
            n == s@.len(),
            scan(s@, start as int, |x: char| is_num_char(x)) == scan(
                s@,
                j as int,
                |x: char| is_num_char(x),
            ),
        decreases n - j,
    {
        j = j + 1;
    }
    j
}

/// Decodes a string literal's inside, from just after the opening quote.
fn parse_string_body(s: &str, n: usize, start: usize) -> (r: Option<(String, usize)>)
    requires
        n == s@.len(),
        start <= n,
    ensures
        match r {
            Some(t) => spec_parse_string_body(s@, start as int) == Some((t.0@, t.1 as int))
                && start < t.1 <= n,
            None => spec_parse_string_body(s@, start as int) is None,
        },
{
    let mut acc = String::new();
    let mut j = start;
    proof {
        let r0 = spec_parse_string_body(s@, start as int);
        if r0 is Some {
            assert(Seq::<char>::empty() + r0.unwrap().0 =~= r0.unwrap().0);
        }
    }
    loop
        invariant
            start <= j <= n,
            n == s@.len(),
            spec_parse_string_body(s@, start as int) == (match spec_parse_string_body(
                s@,
                j as int,
            ) {
                Some(t) => Some((acc@ + t.0, t.1)),
                None => None::<(Seq<char>, int)>,
            }),
        decreases n - j,
    {
        if j >= n {
            return None;
        }
        let c = s.get_char(j);
        if c == '"' {
            proof {
                assert(acc@ + Seq::<char>::empty() =~= acc@);
            }
            return Some((acc, j + 1));
        } else if c == '\\' {
            if j + 1 >= n {
                return None;
            }
            let e = s.get_char(j + 1);
            if e == 'u' {
                if n - j < 6 {
                    return None;
                }
                let h0 = s.get_char(j + 2);
                let h1 = s.get_char(j + 3);
                let h2 = s.get_char(j + 4);
                let h3 = s.get_char(j + 5);
                if !(hex_digit_check(h0) && hex_digit_check(h1) && hex_digit_check(h2)
                    && hex_digit_check(h3)) {
                    return None;
                }
                let v: u32 = hex_digit_value(h0) * 4096 + hex_digit_value(h1) * 256
                    + hex_digit_value(h2) * 16 + hex_digit_value(h3);
                if !(v < 0xD800 || (0xE000 <= v && v <= 0xFFFF)) {
                    return None;
                }
                let ghost a0 = acc@;
                let ghost d = ((hex4(s@, j as int + 2) as u32) as char);
                let c2 = char_of_scalar(v);
                push_char(&mut acc, c2);
                proof {
                    assert(v == hex4(s@, j as int + 2));
                    assert(acc@ =~= a0 + seq![d]);
                    let r2 = spec_parse_string_body(s@, j as int + 6);
                    if r2 is Some {
                        assert(a0 + (seq![d] + r2.unwrap().0) =~= (a0 + seq![d]) + r2.unwrap().0);
                    }
                }
                j = j + 6;
                continue;
            }
            let lit: &str = match e {
                '"' => "\"",
                '\\' => "\\",
                '/' => "/",
                'b' => "\x08",
                'f' => "\x0c",
                'n' => "\n",
                'r' => "\r",
                't' => "\t",
                _ => {
                    return None;
                },
            };
            let ghost a0 = acc@;
            let ghost d = unescaped(s@[j as int + 1]).unwrap();
            proof {
                reveal_strlit("\"");
                reveal_strlit("\\");
                reveal_strlit("/");
                reveal_strlit("\x08");
                reveal_strlit("\x0c");
                reveal_strlit("\n");
                reveal_strlit("\r");
                reveal_strlit("\t");
                assert(lit@ =~= seq![d]);
            }
            acc.append(lit);
            proof {
                let r2 = spec_parse_string_body(s@, j as int + 2);
                if r2 is Some {
                    assert(a0 + (seq![d] + r2.unwrap().0) =~= (a0 + seq![d]) + r2.unwrap().0);
                }
            }
            j = j + 2;
        } else if (c as u32) < 32 {
            return None;
        } else {
            let one = s.substring_char(j, j + 1);
            let ghost a0 = acc@;
            proof {
                assert(one@ =~= seq![s@[j as int]]);
            }
            acc.append(one);
            proof {
                let r2 = spec_parse_string_body(s@, j as int + 1);
                let cs = seq![s@[j as int]];
                if r2 is Some {
                    assert(a0 + (cs + r2.unwrap().0) =~= (a0 + cs) + r2.unwrap().0);
                }
            }
            j = j + 1;
        }
    }
}

/// Reads one JSON value starting exactly at `i`; the decoded tree stands
/// for exactly what `spec_parse_value` says.
fn parse_value(s: &str, n: usize, i: usize) -> (r: Option<(JsonValue, usize)>)
    requires
        n == s@.len(),
        i <= n,
    ensures
        match r {
            Some(t) => spec_parse_value(s@, i as int) == Some((t.0@, t.1 as int)) && i < t.1
                <= n,
            None => spec_parse_value(s@, i as int) is None,
        },
    decreases n - i, 0int,
{
    if i >= n {
        return None;
    }
    let c = s.get_char(i);
    if c == 'n' {
        if n - i >= 4 && s.get_char(i + 1) == 'u' && s.get_char(i + 2) == 'l' && s.get_char(i + 3)
            == 'l' {
            Some((JsonValue::Null, i + 4))
        } else {
            None
        }
    } else if c == 't' {
        if n - i >= 4 && s.get_char(i + 1) == 'r' && s.get_char(i + 2) == 'u' && s.get_char(i + 3)
            == 'e' {
            Some((JsonValue::Bool(true), i + 4))
        } else {
            None
        }
    } else if c == 'f' {
        if n - i >= 5 && s.get_char(i + 1) == 'a' && s.get_char(i + 2) == 'l' && s.get_char(i + 3)
            == 's' && s.get_char(i + 4) == 'e' {
            Some((JsonValue::Bool(false), i + 5))
        } else {
            None
        }
    } else if c == '"' {
        match parse_string_body(s, n, i + 1) {
            Some(t) => Some((JsonValue::Str(t.0), t.1)),
            None => None,
        }
    } else if c == '[' {
        let k = skip_ws(s, n, i + 1);
        match parse_elements(s, n, k) {
            Some(t) => {
                proof {
                    lemma_arr_view(t.0);
                }
                Some((JsonValue::Arr(t.0), t.1))
            },
            None => None,
        }
    } else if c == '{' {
        let k = skip_ws(s, n, i + 1);
        match parse_members(s, n, k) {
            Some(t) => {
                proof {
                    lemma_obj_view(t.0);
                }
                Some((JsonValue::Obj(t.0), t.1))
            },
            None => None,
        }
    } else if c == '-' || crate::text::digit_check(c) {
        let e = scan_num(s, n, i);
        let tok = String::from_str(s.substring_char(i, e));
        proof {
            lemma_scan(s@, i as int, |x: char| is_num_char(x));
        }
        Some((JsonValue::Num(tok), e))
    } else {
        None
    }
}

/// Reads the elements of an array from `i` (the first element or `]`).
fn parse_elements(s: &str, n: usize, i: usize) -> (r: Option<(Vec<JsonValue>, usize)>)
    requires
        n == s@.len(),
        i <= n,
    ensures
        match r {
            Some(t) => spec_parse_elements(s@, i as int) == Some((views_of(t.0@), t.1 as int))
                && i < t.1 <= n,
            None => spec_parse_elements(s@, i as int) is None,
        },
    decreases n - i, 1int,
{
    if i >= n {
        return None;
    }
    if s.get_char(i) == ']' {
        let es: Vec<JsonValue> = Vec::new();
        proof {
            assert(views_of(es@) =~= Seq::<Jv>::empty());
        }
        return Some((es, i + 1));
    }
    match parse_value(s, n, i) {
        None => None,
        Some((v, j)) => {
            let k = skip_ws(s, n, j);
            if k >= n {
                return None;
            }
            let c2 = s.get_char(k);
            if c2 == ',' {
                let m = skip_ws(s, n, k + 1);
                match parse_elements(s, n, m) {
                    None => None,
                    Some((es, j2)) => {
                        let ghost tail = es@;
                        let mut es = es;
                        es.insert(0, v);
                        proof {
                            assert(views_of(es@) =~= seq![v@] + views_of(tail));
                        }
                        Some((es, j2))
                    },
                }
            } else if c2 == ']' {
                let mut es: Vec<JsonValue> = Vec::new();
                es.push(v);
                proof {
                    assert(views_of(es@) =~= seq![v@]);
                }
                Some((es, k + 1))
            } else {
                None
            }
        },
    }
}

/// Reads the members of an object from `i` (the first key or `}`).
fn parse_members(s: &str, n: usize, i: usize) -> (r: Option<(Vec<(String, JsonValue)>, usize)>)
    requires
        n == s@.len(),
        i <= n,
    ensures
        match r {
            Some(t) => spec_parse_members(s@, i as int) == Some((member_views(t.0@), t.1 as int))
                && i < t.1 <= n,
            None => spec_parse_members(s@, i as int) is None,
        },
    decreases n - i, 1int,
{
    if i >= n {
        return None;
    }
    if s.get_char(i) == '}' {
        let ms: Vec<(String, JsonValue)> = Vec::new();
        proof {
            assert(member_views(ms@) =~= Seq::<(Seq<char>, Jv)>::empty());
        }
        return Some((ms, i + 1));
    }
    if s.get_char(i) != '"' {
        return None;
    }
    match parse_string_body(s, n, i + 1) {
        None => None,
        Some((key, j)) => {
            let k = skip_ws(s, n, j);
            if k >= n || s.get_char(k) != ':' {
                return None;
            }
            let m = skip_ws(s, n, k + 1);
            match parse_value(s, n, m) {
                None => None,
                Some((v, j1)) => {
                    let q = skip_ws(s, n, j1);
                    if q >= n {
                        return None;
                    }
                    let c2 = s.get_char(q);
                    if c2 == ',' {
                        let w = skip_ws(s, n, q + 1);
                        match parse_members(s, n, w) {
                            None => None,
                            Some((ms, j2)) => {
                                let ghost tail = ms@;
                                let mut ms = ms;
                                ms.insert(0, (key, v));
                                proof {
                                    assert(member_views(ms@) =~= seq![(key@, v@)] + member_views(
                                        tail,
                                    ));
                                }
                                Some((ms, j2))
                            },
                        }
                    } else if c2 == '}' {
                        let mut ms: Vec<(String, JsonValue)> = Vec::new();
                        ms.push((key, v));
                        proof {
                            assert(member_views(ms@) =~= seq![(key@, v@)]);
                        }
                        Some((ms, q + 1))
                    } else {
                        None
                    }
                },
            }
        },
    }
}

/// Reads a whole JSON text: one value with blanks around it.
pub fn parse_json(s: &str) -> (r: Option<JsonValue>)
    ensures
        match r {
            Some(v) => spec_parse_json(s@) == Some(v@),
            None => spec_parse_json(s@) is None,
        },
{
    let n = s.unicode_len();
    let i = skip_ws(s, n, 0);
    match parse_value(s, n, i) {
        None => None,
        Some((v, j)) => {
            let k = skip_ws(s, n, j);
            if k == n {
                Some(v)
            } else {
                None
            }
        },
    }
}

/// A decoded array stands for the array of what its elements stand for.
pub proof fn lemma_arr_view(a: Vec<JsonValue>)
    ensures
        JsonValue::Arr(a)@ == Jv::Arr(views_of(a@)),
{
    let x = JsonValue::Arr(a)@;
    match x {
        Jv::Arr(xs) => {
            assert forall|i: int| 0 <= i < xs.len() implies xs[i] == views_of(a@)[i] by {
                assert(xs[i] == a@[i].jv());
            }
            assert(xs =~= views_of(a@));
            assert(x =~~= Jv::Arr(views_of(a@)));
        },
        _ => {},
    }
}

/// A decoded object stands for the members of what its entries stand for.
pub proof fn lemma_obj_view(m: Vec<(String, JsonValue)>)
    ensures
        JsonValue::Obj(m)@ == Jv::Obj(member_views(m@)),
{
    let x = JsonValue::Obj(m)@;
    match x {
        Jv::Obj(xs) => {
            assert forall|i: int| 0 <= i < xs.len() implies xs[i] == member_views(m@)[i] by {
                assert(xs[i] == (m@[i].0@, m@[i].1.jv()));
            }
            assert(xs =~= member_views(m@));
            assert(x =~~= Jv::Obj(member_views(m@)));
        },
        _ => {},
    }
}

} // verus!
