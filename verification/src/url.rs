//! Absolute URLs, as the client needs them: scheme, host, optional port,
//! path and query. Every API call replaces only the path of the base URL,
//! so the parts are kept separately.
//!
//! An empty `port` or `query` string stands for an absent part.

use vstd::prelude::*;
use vstd::string::StrSliceExecFns;
use vstd::string::StringExecFns;
use crate::text::is_digit;
use crate::text::dec_val;
use crate::text::all_digits;
use crate::text::digit_check;
use crate::text::digit_value;
use crate::text::scan;
use crate::text::lemma_scan;
use crate::text::lemma_dec_val_prefix;

verus! {

/// The base URL handed to the client could not be read as an absolute URL.
#[derive(Debug, PartialEq, Eq, Structural, Clone, Copy)]
pub enum ConfigError {
    InvalidUrl,
}

/// An absolute URL, split into its parts.
pub struct Url {
    pub scheme: String,
    pub host: String,
    /// Decimal digits; empty when the URL names no port.
    pub port: String,
    pub path: String,
    /// The text after `?`; empty when the URL has no query.
    pub query: String,
}

pub open spec fn is_alpha(c: char) -> bool {
    ('a' <= c && c <= 'z') || ('A' <= c && c <= 'Z')
}

pub open spec fn is_scheme_char(c: char) -> bool {
    is_alpha(c) || is_digit(c) || c == '+' || c == '-' || c == '.'
}

pub open spec fn is_host_char(c: char) -> bool {
    c != '/' && c != ':' && c != '?' && c != '#'
}

/// A character inside a bracketed IPv6 host: hexadecimal digits, colons
/// and dots.
pub open spec fn is_h6_char(c: char) -> bool {
    crate::text::is_hex_digit(c) || c == ':' || c == '.'
}

pub open spec fn is_path_char(c: char) -> bool {
    c != '?' && c != '#'
}

pub open spec fn is_query_char(c: char) -> bool {
    c != '#'
}

pub const CLASS_SCHEME: u8 = 0;

pub const CLASS_HOST: u8 = 1;

pub const CLASS_DIGIT: u8 = 2;

pub const CLASS_PATH: u8 = 3;

pub const CLASS_QUERY: u8 = 4;

pub const CLASS_H6: u8 = 5;

pub open spec fn class_pred(kind: u8) -> spec_fn(char) -> bool {
    |c: char|
        {
            if kind == CLASS_SCHEME {
                is_scheme_char(c)
            } else if kind == CLASS_HOST {
                is_host_char(c)
            } else if kind == CLASS_DIGIT {
                is_digit(c)
            } else if kind == CLASS_PATH {
                is_path_char(c)
            } else if kind == CLASS_QUERY {
                is_query_char(c)
            } else {
                is_h6_char(c)
            }
        }
}

fn class_check(kind: u8, c: char) -> (r: bool)
    ensures
        r == class_pred(kind)(c),
{
    if kind == CLASS_SCHEME {
        ('a' <= c && c <= 'z') || ('A' <= c && c <= 'Z') || digit_check(c) || c == '+' || c == '-'
            || c == '.'
    } else if kind == CLASS_HOST {
        c != '/' && c != ':' && c != '?' && c != '#'
    } else if kind == CLASS_DIGIT {
        digit_check(c)
    } else if kind == CLASS_PATH {
        c != '?' && c != '#'
    } else if kind == CLASS_QUERY {
        c != '#'
    } else {
        crate::text::hex_digit_check(c) || c == ':' || c == '.'
    }
}

/// Walks from `start` while the characters belong to the class `kind`.
fn scan_class(s: &str, n: usize, start: usize, kind: u8) -> (r: usize)
    requires
        n == s@.len(),
        start <= n,
    ensures
        r == scan(s@, start as int, class_pred(kind)),
        start <= r <= n,
{
    let mut i = start;
    while i < n && class_check(kind, s.get_char(i))
        invariant
            start <= i <= n,
            n == s@.len(),
            scan(s@, start as int, class_pred(kind)) == scan(s@, i as int, class_pred(kind)),
        decreases n - i,
    {
        i = i + 1;
    }
    i
}

/// Where the scheme of `s` ends (the run of scheme characters from the start).
pub open spec fn scheme_end(s: Seq<char>) -> int {
    scan(s, 0, class_pred(CLASS_SCHEME))
}

pub open spec fn host_start(s: Seq<char>) -> int {
    scheme_end(s) + 3
}

/// Whether the host is a bracketed IPv6 literal.
pub open spec fn has_bracket(s: Seq<char>) -> bool {
    host_start(s) < s.len() && s[host_start(s)] == '['
}

/// Where the inside of a bracketed host ends (the closing bracket).
pub open spec fn bracket_end(s: Seq<char>) -> int {
    scan(s, host_start(s) + 1, class_pred(CLASS_H6))
}

pub open spec fn host_end(s: Seq<char>) -> int {
    if has_bracket(s) {
        bracket_end(s) + 1
    } else {
        scan(s, host_start(s), class_pred(CLASS_HOST))
    }
}

pub open spec fn has_port(s: Seq<char>) -> bool {
    host_end(s) < s.len() && s[host_end(s)] == ':'
}

pub open spec fn port_end(s: Seq<char>) -> int {
    if has_port(s) {
        scan(s, host_end(s) + 1, class_pred(CLASS_DIGIT))
    } else {
        host_end(s)
    }
}

pub open spec fn has_path(s: Seq<char>) -> bool {
    port_end(s) < s.len() && s[port_end(s)] == '/'
}

pub open spec fn path_end(s: Seq<char>) -> int {
    if has_path(s) {
        scan(s, port_end(s), class_pred(CLASS_PATH))
    } else {
        port_end(s)
    }
}

pub open spec fn has_query(s: Seq<char>) -> bool {
    path_end(s) < s.len() && s[path_end(s)] == '?'
}

/// The grammar of the absolute URLs this client accepts:
/// `scheme "://" host [":" digits] ["/" path] ["?" query]`, where the scheme
/// starts with a letter, the host is non-empty (a plain name, or an IPv6
/// literal in brackets), the port value fits in 16 bits, and `#` appears
/// nowhere.
pub open spec fn url_ok(s: Seq<char>) -> bool {
    let se = scheme_end(s);
    let he = host_end(s);
    &&& se >= 1
    &&& is_alpha(s[0])
    &&& se + 3 <= s.len()
    &&& s[se] == ':'
    &&& s[se + 1] == '/'
    &&& s[se + 2] == '/'
    &&& (if has_bracket(s) {
        bracket_end(s) < s.len() && s[bracket_end(s)] == ']' && bracket_end(s) > host_start(s) + 1
    } else {
        he > host_start(s)
    })
    &&& (has_port(s) ==> port_end(s) > he + 1 && dec_val(s.subrange(he + 1, port_end(s)))
        <= 65535)
    &&& (if has_query(s) {
        scan(s, path_end(s) + 1, class_pred(CLASS_QUERY)) == s.len()
    } else {
        path_end(s) == s.len()
    })
}

/// The scheme part of a string that satisfies `url_ok`.
pub open spec fn spec_scheme(s: Seq<char>) -> Seq<char> {
    s.subrange(0, scheme_end(s))
}

pub open spec fn spec_host(s: Seq<char>) -> Seq<char> {
    s.subrange(host_start(s), host_end(s))
}

pub open spec fn spec_port(s: Seq<char>) -> Seq<char> {
    if has_port(s) {
        s.subrange(host_end(s) + 1, port_end(s))
    } else {
        Seq::empty()
    }
}

pub open spec fn spec_path(s: Seq<char>) -> Seq<char> {
    if has_path(s) {
        s.subrange(port_end(s), path_end(s))
    } else {
        Seq::empty()
    }
}

pub open spec fn spec_query(s: Seq<char>) -> Seq<char> {
    if has_query(s) {
        s.subrange(path_end(s) + 1, s.len() as int)
    } else {
        Seq::empty()
    }
}

/// What the client may assume of a base URL it was built with.
pub open spec fn url_wf(u: Url) -> bool {
    &&& u.scheme@.len() >= 1
    &&& is_alpha(u.scheme@[0])
    &&& (forall|i: int| 0 <= i < u.scheme@.len() ==> is_scheme_char(#[trigger] u.scheme@[i]))
    &&& u.host@.len() >= 1
    &&& (if u.host@[0] == '[' {
        u.host@.len() >= 3 && u.host@.last() == ']' && (forall|i: int|
            1 <= i < u.host@.len() - 1 ==> is_h6_char(#[trigger] u.host@[i]))
    } else {
        forall|i: int| 0 <= i < u.host@.len() ==> is_host_char(#[trigger] u.host@[i])
    })
    &&& (u.port@.len() > 0 ==> all_digits(u.port@) && dec_val(u.port@) <= 65535)
}

/// The digit value of `s@` between `start` and `end`, refused when it is
/// over 65535.
fn parse_port_val(s: &str, start: usize, end: usize) -> (r: Option<u32>)
    requires
        start <= end <= s@.len(),
        forall|i: int| start <= i < end ==> is_digit(#[trigger] s@[i]),
    ensures
        match r {
            Some(v) => v == dec_val(s@.subrange(start as int, end as int)) && v <= 65535,
            None => dec_val(s@.subrange(start as int, end as int)) > 65535,
        },
{
    let mut v: u32 = 0;
    let mut i = start;
    assert(s@.subrange(start as int, start as int) =~= Seq::<char>::empty());
    while i < end
        invariant
            start <= i <= end <= s@.len(),
            forall|j: int| start <= j < end ==> is_digit(#[trigger] s@[j]),
            v == dec_val(s@.subrange(start as int, i as int)),
            v <= 65535,
        decreases end - i,
    {
        let d = digit_value(s.get_char(i));
        proof {
            assert(s@.subrange(start as int, i + 1).drop_last() =~= s@.subrange(
                start as int,
                i as int,
            ));
        }
        let next = v * 10 + d;
        if next > 65535 {
            proof {
                lemma_dec_val_prefix(s@.subrange(start as int, end as int), i + 1 - start);
                assert(s@.subrange(start as int, end as int).take(i + 1 - start) =~= s@.subrange(
                    start as int,
                    i + 1,
                ));
            }
            return None;
        }
        v = next;
        i = i + 1;
    }
    assert(s@.subrange(start as int, end as int) =~= s@.subrange(start as int, i as int));
    Some(v)
}

impl Url {
    /// Reads an absolute URL. Returns `ConfigError::InvalidUrl` exactly when
    /// the string does not satisfy the grammar `url_ok`.
    pub fn parse(s: &str) -> (r: Result<Url, ConfigError>)
        ensures
            r is Ok <==> url_ok(s@),
            r matches Ok(u) ==> {
                &&& u.scheme@ == spec_scheme(s@)
                &&& u.host@ == spec_host(s@)
                &&& u.port@ == spec_port(s@)
                &&& u.path@ == spec_path(s@)
                &&& u.query@ == spec_query(s@)
                &&& url_wf(u)
            },
    {
        let n = s.unicode_len();
        let se = scan_class(s, n, 0, CLASS_SCHEME);
        proof {
            lemma_scan(s@, 0, class_pred(CLASS_SCHEME));
        }
        if se < 1 {
            return Err(ConfigError::InvalidUrl);
        }
        let c0 = s.get_char(0);
        if !(('a' <= c0 && c0 <= 'z') || ('A' <= c0 && c0 <= 'Z')) {
            return Err(ConfigError::InvalidUrl);
        }
        if n - se < 3 {
            return Err(ConfigError::InvalidUrl);
        }
        if s.get_char(se) != ':' || s.get_char(se + 1) != '/' || s.get_char(se + 2) != '/' {
            return Err(ConfigError::InvalidUrl);
        }
        let hs = se + 3;
        let he: usize;
        if hs < n && s.get_char(hs) == '[' {
            let be = scan_class(s, n, hs + 1, CLASS_H6);
            proof {
                lemma_scan(s@, hs as int + 1, class_pred(CLASS_H6));
            }
            if be >= n || s.get_char(be) != ']' || be == hs + 1 {
                return Err(ConfigError::InvalidUrl);
            }
            he = be + 1;
        } else {
            he = scan_class(s, n, hs, CLASS_HOST);
            proof {
                lemma_scan(s@, hs as int, class_pred(CLASS_HOST));
            }
            if he == hs {
                return Err(ConfigError::InvalidUrl);
            }
        }
        let mut port = String::new();
        let mut after: usize = he;
        if he < n && s.get_char(he) == ':' {
            let pe = scan_class(s, n, he + 1, CLASS_DIGIT);
            proof {
                lemma_scan(s@, he + 1, class_pred(CLASS_DIGIT));
            }
            if pe == he + 1 {
                return Err(ConfigError::InvalidUrl);
            }
            match parse_port_val(s, he + 1, pe) {
                Some(_) => {},
                None => {
                    return Err(ConfigError::InvalidUrl);
                },
            }
            port = String::from_str(s.substring_char(he + 1, pe));
            after = pe;
        }
        let mut path = String::new();
        let mut pend: usize = after;
        if after < n && s.get_char(after) == '/' {
            pend = scan_class(s, n, after, CLASS_PATH);
            proof {
                lemma_scan(s@, after as int, class_pred(CLASS_PATH));
            }
            path = String::from_str(s.substring_char(after, pend));
        }
        let mut query = String::new();
        if pend < n && s.get_char(pend) == '?' {
            let qe = scan_class(s, n, pend + 1, CLASS_QUERY);
            if qe != n {
                return Err(ConfigError::InvalidUrl);
            }
            query = String::from_str(s.substring_char(pend + 1, n));
        } else if pend != n {
            return Err(ConfigError::InvalidUrl);
        }
        let scheme = String::from_str(s.substring_char(0, se));
        let host = String::from_str(s.substring_char(hs, he));
        Ok(Url { scheme, host, port, path, query })
    }

    /// The URL written back as one string.
    pub fn render(&self) -> (r: String)
        ensures
            r@ == spec_render(*self),
    {
        let mut out = self.scheme.clone();
        out.append("://");
        out.append(self.host.as_str());
        if !self.port.as_str().is_empty() {
            out.append(":");
            out.append(self.port.as_str());
        }
        if !self.path.as_str().is_empty() && self.path.as_str().get_char(0) != '/' {
            out.append("/");
        }
        out.append(self.path.as_str());
        if !self.query.as_str().is_empty() {
            out.append("?");
            out.append(self.query.as_str());
        }
        proof {
            reveal_strlit("://");
            reveal_strlit(":");
            reveal_strlit("/");
            reveal_strlit("?");
            assert(out@ =~= spec_render(*self));
        }
        out
    }
}

/// `render` writes the parts in order, with a `/` put between host or port
/// and a path that does not bring its own.
pub open spec fn spec_render_parts(
    scheme: Seq<char>,
    host: Seq<char>,
    port: Seq<char>,
    path: Seq<char>,
    query: Seq<char>,
) -> Seq<char> {
    scheme + seq![':', '/', '/'] + host + (if port.len() > 0 {
        seq![':'] + port
    } else {
        Seq::empty()
    }) + (if path.len() > 0 && path[0] != '/' {
        seq!['/']
    } else {
        Seq::empty()
    }) + path + (if query.len() > 0 {
        seq!['?'] + query
    } else {
        Seq::empty()
    })
}

pub open spec fn spec_render(u: Url) -> Seq<char> {
    spec_render_parts(u.scheme@, u.host@, u.port@, u.path@, u.query@)
}

/// Resolving a path against a base URL keeps the scheme, host, port and
/// query of the base and takes the path exactly as given.
pub fn resolve(base: &Url, path: &str) -> (r: Url)
    ensures
        r.scheme@ == base.scheme@,
        r.host@ == base.host@,
        r.port@ == base.port@,
        r.query@ == base.query@,
        r.path@ == path@,
{
    Url {
        scheme: base.scheme.clone(),
        host: base.host.clone(),
        port: base.port.clone(),
        path: String::from_str(path),
        query: base.query.clone(),
    }
}

} // verus!
