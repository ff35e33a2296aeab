//! What the library writes onto the wire: the credentials body, the token,
//! and the session-config file, with the escaping JSON asks for.

use vstd::prelude::*;
use vstd::string::StrSliceExecFns;
use vstd::string::StringExecFns;
use crate::json::Jv;
use crate::json::spec_parse_json;
use crate::json::parse_json;
use crate::decode::jv_obj_str;
use crate::decode::get_str;
use crate::model::Token;
use crate::model::Credentials;

verus! {

/// The character that writes the hexadecimal digit `v`.
pub open spec fn hex_digit_char(v: int) -> char {
    if v == 0 {
        '0'
    } else if v == 1 {
        '1'
    } else if v == 2 {
        '2'
    } else if v == 3 {
        '3'
    } else if v == 4 {
        '4'
    } else if v == 5 {
        '5'
    } else if v == 6 {
        '6'
    } else if v == 7 {
        '7'
    } else if v == 8 {
        '8'
    } else if v == 9 {
        '9'
    } else if v == 10 {
        'a'
    } else if v == 11 {
        'b'
    } else if v == 12 {
        'c'
    } else if v == 13 {
        'd'
    } else if v == 14 {
        'e'
    } else {
        'f'
    }
}

/// How one character is written inside a JSON string literal.
pub open spec fn escaped_char(c: char) -> Seq<char> {
    if c == '"' {
        seq!['\\', '"']
    } else if c == '\\' {
        seq!['\\', '\\']
    } else if c == '\x08' {
        seq!['\\', 'b']
    } else if c == '\x0c' {
        seq!['\\', 'f']
    } else if c == '\n' {
        seq!['\\', 'n']
    } else if c == '\r' {
        seq!['\\', 'r']
    } else if c == '\t' {
        seq!['\\', 't']
    } else if (c as u32) < 32 {
        seq![
            '\\',
            'u',
            '0',
            '0',
            hex_digit_char((c as u32) as int / 16),
            hex_digit_char((c as u32) as int % 16),
        ]
    } else {
        seq![c]
    }
}

fn hex_digit_str(v: u32) -> (r: &'static str)
    requires
        v < 16,
    ensures
        r@ == seq![hex_digit_char(v as int)],
{
    let r: &'static str = if v == 0 {
        "0"
    } else if v == 1 {
        "1"
    } else if v == 2 {
        "2"
    } else if v == 3 {
        "3"
    } else if v == 4 {
        "4"
    } else if v == 5 {
        "5"
    } else if v == 6 {
        "6"
    } else if v == 7 {
        "7"
    } else if v == 8 {
        "8"
    } else if v == 9 {
        "9"
    } else if v == 10 {
        "a"
    } else if v == 11 {
        "b"
    } else if v == 12 {
        "c"
    } else if v == 13 {
        "d"
    } else if v == 14 {
        "e"
    } else {
        "f"
    };
    proof {
        reveal_strlit("0");
        reveal_strlit("1");
        reveal_strlit("2");
        reveal_strlit("3");
        reveal_strlit("4");
        reveal_strlit("5");
        reveal_strlit("6");
        reveal_strlit("7");
        reveal_strlit("8");
        reveal_strlit("9");
        reveal_strlit("a");
        reveal_strlit("b");
        reveal_strlit("c");
        reveal_strlit("d");
        reveal_strlit("e");
        reveal_strlit("f");
        assert(r@ =~= seq![hex_digit_char(v as int)]);
    }
    r
}

pub open spec fn escape(s: Seq<char>) -> Seq<char>
    decreases s.len(),
{
    if s.len() == 0 {
        Seq::empty()
    } else {
        escaped_char(s[0]) + escape(s.drop_first())
    }
}

/// Escaping one character more escapes it at the end.
pub proof fn lemma_escape_push(s: Seq<char>, c: char)
    ensures
        escape(s.push(c)) == escape(s) + escaped_char(c),
    decreases s.len(),
{
    if s.len() == 0 {
        reveal_with_fuel(escape, 2);
        assert(s.push(c).drop_first() =~= Seq::<char>::empty());
        assert(escape(s.push(c)) =~= escaped_char(c));
        assert(escape(s) + escaped_char(c) =~= escaped_char(c));
    } else {
        assert(s.push(c).drop_first() =~= s.drop_first().push(c));
        lemma_escape_push(s.drop_first(), c);
        assert(escape(s.push(c)) == escaped_char(s[0]) + (escape(s.drop_first()) + escaped_char(
            c,
        )));
        assert(escaped_char(s[0]) + (escape(s.drop_first()) + escaped_char(c)) =~= (escaped_char(
            s[0],
        ) + escape(s.drop_first())) + escaped_char(c));
    }
}

/// A string as it stands inside JSON text: quotes around the escaped body.
pub open spec fn quoted(s: Seq<char>) -> Seq<char> {
    seq!['"'] + escape(s) + seq!['"']
}

/// Writes `s` as a JSON string literal; every string has one, a control
/// character without a named escape written as `\u00` and two digits.
pub fn quote(s: &str) -> (r: String)
    ensures
        r@ == quoted(s@),
{
    let n = s.unicode_len();
    let mut out = String::from_str("\"");
    proof {
        reveal_strlit("\"");
        assert(s@.subrange(0, 0) =~= Seq::<char>::empty());
        assert(out@ =~= seq!['"'] + escape(s@.subrange(0, 0)));
    }
    let mut i: usize = 0;
    while i < n
        invariant
            0 <= i <= n,
            n == s@.len(),
            out@ == seq!['"'] + escape(s@.subrange(0, i as int)),
        decreases n - i,
    {
        let c = s.get_char(i);
        let lit: &str = if c == '"' {
            "\\\""
        } else if c == '\\' {
            "\\\\"
        } else if c == '\n' {
            "\\n"
        } else if c == '\r' {
            "\\r"
        } else if c == '\t' {
            "\\t"
        } else if c == '\x08' {
            "\\b"
        } else if c == '\x0c' {
            "\\f"
        } else {
            ""
        };
        let ghost pre = s@.subrange(0, i as int);
        proof {
            reveal_strlit("\\\"");
            reveal_strlit("\\\\");
            reveal_strlit("\\n");
            reveal_strlit("\\r");
            reveal_strlit("\\t");
            reveal_strlit("\\b");
            reveal_strlit("\\f");
            reveal_strlit("");
            lemma_escape_push(pre, s@[i as int]);
            assert(s@.subrange(0, i + 1) =~= pre.push(s@[i as int]));
        }
        if lit.is_empty() {
            if (c as u32) >= 32 {
                let one = s.substring_char(i, i + 1);
                proof {
                    assert(one@ =~= escaped_char(s@[i as int]));
                }
                out.append(one);
            } else {
                let hi = (c as u32) / 16;
                let lo = (c as u32) % 16;
                let ghost mid = out@;
                out.append("\\u00");
                out.append(hex_digit_str(hi));
                out.append(hex_digit_str(lo));
                proof {
                    reveal_strlit("\\u00");
                    assert(out@ =~= mid + escaped_char(s@[i as int]));
                }
            }
        } else {
            proof {
                assert(lit@ =~= escaped_char(s@[i as int]));
            }
            out.append(lit);
        }
        proof {
            assert(out@ =~= seq!['"'] + escape(s@.subrange(0, i + 1)));
        }
        i = i + 1;
    }
    out.append("\"");
    proof {
        reveal_strlit("\"");
        assert(s@.subrange(0, n as int) =~= s@);
        assert(out@ =~= quoted(s@));
    }
    out
}

/// The credentials body: `{"username":…,"password":…,"rememberMe":…}`.
pub open spec fn spec_encode_credentials(u: Seq<char>, p: Seq<char>, remember: bool) -> Seq<
    char,
> {
    "{\"username\":"@ + quoted(u) + ",\"password\":"@ + quoted(p) + ",\"rememberMe\":"@ + (
    if remember {
        "true"@
    } else {
        "false"@
    }) + "}"@
}

/// Writes the authentication request body.
pub fn encode_credentials(c: &Credentials) -> (r: String)
    ensures
        r@ == spec_encode_credentials(c.username@, c.password@, c.remember_me),
{
    let qu = quote(c.username.as_str());
    let qp = quote(c.password.as_str());
    let mut out = String::from_str("{\"username\":");
    out.append(qu.as_str());
    out.append(",\"password\":");
    out.append(qp.as_str());
    out.append(",\"rememberMe\":");
    if c.remember_me {
        out.append("true");
    } else {
        out.append("false");
    }
    out.append("}");
    proof {
        assert(out@ =~= spec_encode_credentials(c.username@, c.password@, c.remember_me));
    }
    out
}

/// A token as the service and the config file write it:
/// `{"idToken":"…"}`.
pub open spec fn spec_encode_token(t: Seq<char>) -> Seq<char> {
    "{\"idToken\":"@ + quoted(t) + "}"@
}

/// Writes a token; every token string has a written form.
pub fn encode_token(t: &Token) -> (r: String)
    ensures
        r@ == spec_encode_token(t@),
{
    let q = quote(t.raw());
    let mut out = String::from_str("{\"idToken\":");
    out.append(q.as_str());
    out.append("}");
    proof {
        assert(out@ =~= spec_encode_token(t@));
    }
    out
}

/// What a token body decodes to: the `idToken` string of the JSON object,
/// if the text is one and has it.
pub open spec fn spec_decode_token(s: Seq<char>) -> Option<Seq<char>> {
    match spec_parse_json(s) {
        Some(v) => jv_obj_str(v, "idToken"@),
        None => None,
    }
}

/// Reads a token body. `None` exactly when the text is not a JSON object
/// carrying a string under `idToken`.
pub fn decode_token(s: &str) -> (r: Option<Token>)
    ensures
        match r {
            Some(t) => spec_decode_token(s@) == Some(t@),
            None => spec_decode_token(s@) is None,
        },
{
    match parse_json(s) {
        Some(v) => match get_str(&v, "idToken") {
            Some(raw) => Some(Token::new(raw)),
            None => None,
        },
        None => None,
    }
}

/// Plain characters (no quote, no backslash, no control) read back as
/// themselves up to the closing quote.
proof fn lemma_psb_plain(t: Seq<char>, i: int, j: int)
    requires
        0 <= i <= j,
        j < t.len(),
        forall|k: int| i <= k < j ==> t[k] != '"' && t[k] != '\\' && (#[trigger] t[k] as u32) >= 32,
        t[j] == '"',
    ensures
        crate::json::spec_parse_string_body(t, i) == Some((t.subrange(i, j), j + 1)),
    decreases j - i,
{
    if i == j {
        assert(t.subrange(i, j) =~= Seq::<char>::empty());
    } else {
        lemma_psb_plain(t, i + 1, j);
        assert(t.subrange(i, j) =~= seq![t[i]] + t.subrange(i + 1, j));
    }
}

/// The escaped form of an encodable string reads back as that string, up
/// to the closing quote.
proof fn lemma_psb_of_escape(t: Seq<char>, s: Seq<char>, i: int)
    requires
        0 <= i,
        i + escape(s).len() + 1 <= t.len(),
        forall|j: int| 0 <= j < escape(s).len() ==> t[i + j] == escape(s)[j],
        t[i + escape(s).len()] == '"',
    ensures
        crate::json::spec_parse_string_body(t, i) == Some((s, i + escape(s).len() + 1)),
    decreases s.len(),
{
    if s.len() == 0 {
        assert(t[i] == '"');
    } else {
        let c = s[0];
        let rest = s.drop_first();
        assert(escape(s) == escaped_char(c) + escape(rest));
        let ec = escaped_char(c);
        assert forall|j: int| 0 <= j < escape(rest).len() implies t[i + ec.len() + j] == escape(
            rest,
        )[j] by {
            assert(t[i + (ec.len() + j)] == escape(s)[ec.len() + j]);
        }
        assert(t[i + ec.len() + escape(rest).len()] == '"') by {
            assert(i + ec.len() + escape(rest).len() == i + escape(s).len());
        }
        lemma_psb_of_escape(t, rest, i + ec.len());
        if ec.len() == 6 {
            assert((c as u32) < 32);
            let hi = (c as u32) as int / 16;
            let lo = (c as u32) as int % 16;
            assert(t[i + 0] == escape(s)[0]);
            assert(t[i + 1] == escape(s)[1]);
            assert(t[i + 2] == escape(s)[2]);
            assert(t[i + 3] == escape(s)[3]);
            assert(t[i + 4] == escape(s)[4]);
            assert(t[i + 5] == escape(s)[5]);
            assert(t[i] == '\\' && t[i + 1] == 'u' && t[i + 2] == '0' && t[i + 3] == '0');
            assert(t[i + 4] == crate::codec::hex_digit_char(hi));
            assert(t[i + 5] == crate::codec::hex_digit_char(lo));
            assert(crate::text::is_hex_digit(t[i + 2]) && crate::text::is_hex_digit(t[i + 3])
                && crate::text::is_hex_digit(t[i + 4]) && crate::text::is_hex_digit(t[i + 5]));
            assert(crate::text::hex_val(t[i + 4]) == hi);
            assert(crate::text::hex_val(t[i + 5]) == lo);
            assert(crate::json::hex4(t, i + 2) == hi * 16 + lo);
            assert(crate::json::hex4(t, i + 2) == c as u32);
            assert(crate::json::is_plain_scalar(crate::json::hex4(t, i + 2)));
            vstd::utf8::char_u32_cast(c, c as u32);
            assert(((crate::json::hex4(t, i + 2) as u32) as char) == c);
            assert(crate::json::spec_parse_string_body(t, i) == Some(
                (seq![c] + rest, i + escape(s).len() + 1),
            ));
            assert(seq![c] + rest =~= s);
        } else if ec.len() == 2 {
            assert(t[i] == escape(s)[0]);
            assert(t[i + 1] == escape(s)[1]);
            assert(t[i] == '\\');
            assert(crate::json::unescaped(t[i + 1]) == Some(c));
            assert(crate::json::spec_parse_string_body(t, i) == Some(
                (seq![c] + rest, i + escape(s).len() + 1),
            ));
            assert(seq![c] + rest =~= s);
        } else {
            assert(ec =~= seq![c]);
            assert(t[i + 0] == escape(s)[0]);
            assert(escape(s)[0] == ec[0]);
            assert(t[i] == c);
            assert(c != '"' && c != '\\' && (c as u32) >= 32);
            assert(crate::json::spec_parse_string_body(t, i) == Some(
                (seq![c] + rest, i + escape(s).len() + 1),
            ));
            assert(seq![c] + rest =~= s);
        }
    }
}

/// Writing a token and reading the text back yields the same token string,
/// whatever the string holds.
pub proof fn lemma_token_round_trip(tok: Seq<char>)
    ensures
        spec_decode_token(spec_encode_token(tok)) == Some(tok),
{
    reveal_strlit("{\"idToken\":");
    reveal_strlit("}");
    reveal_strlit("idToken");
    let s = spec_encode_token(tok);
    let el: int = escape(tok).len() as int;
    assert(s.len() == 11 + 1 + el + 1 + 1);
    assert(s[0] == '{');
    assert(s[1] == '"');
    assert(s[9] == '"');
    assert(s[10] == ':');
    assert(s[11] == '"');
    assert forall|k: int| 2 <= k < 9 implies s[k] != '"' && s[k] != '\\' && (#[trigger] s[k] as u32)
        >= 32 by {
        reveal_strlit("{\"idToken\":");
    }
    lemma_psb_plain(s, 2, 9);
    assert(s.subrange(2, 9) =~= "idToken"@);
    assert forall|j: int| 0 <= j < el implies s[12 + j] == escape(tok)[j] by {
        assert(s[12 + j] == (quoted(tok) + "}"@)[1 + j]);
    }
    assert(s[12 + el] == '"');
    lemma_psb_of_escape(s, tok, 12);
    assert(s[13 + el] == '}');
    assert(crate::json::ws_end(s, 0) == 0);
    assert(crate::json::ws_end(s, 1) == 1);
    assert(crate::json::spec_parse_string_body(s, 2) == Some(("idToken"@, 10int)));
    assert(crate::json::ws_end(s, 10) == 10);
    assert(crate::json::ws_end(s, 11) == 11);
    assert(crate::json::spec_parse_value(s, 11) == Some((Jv::Str(tok), 13 + el)));
    assert(crate::json::ws_end(s, 13 + el) == 13 + el);
    let ms = seq![("idToken"@, Jv::Str(tok))];
    assert(crate::json::spec_parse_members(s, 1) == Some((ms, 14 + el)));
    assert(crate::json::spec_parse_value(s, 0) == Some((Jv::Obj(ms), 14 + el)));
    assert(crate::json::ws_end(s, 14 + el) == s.len() as int);
    assert(spec_parse_json(s) == Some(Jv::Obj(ms)));
    reveal(crate::decode::jv_obj_str);
    reveal(crate::decode::jv_obj_get);
    assert(crate::decode::spec_obj_get(ms, "idToken"@) == Some(Jv::Str(tok)));
}

} // verus!
