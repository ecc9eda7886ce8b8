//! Parsing of the status-service response body.
//!
//! The accepted grammar is a JSON array of objects, each object holding
//! exactly the two members `"name"` and `"color"` (in either order) with
//! string values. String values may use the single-character escapes
//! `\"` `\\` `\/` `\b` `\f` `\n` `\r` `\t`; anything else after a
//! backslash is rejected. Any input outside this grammar is rejected,
//! and the caller falls back to `Mood::Unknown`.
//!
//! Each executable function is proved to return exactly what the
//! corresponding `spec` function denotes, so the grammar below is the
//! single definition of what the library accepts.

use vstd::prelude::*;
use vstd::string::*;
use crate::mood::ServiceStatus;
use crate::mood::StatusView;
use crate::mood::views_of;

verus! {

/// The whitespace characters the grammar skips between tokens.
pub open spec fn is_json_ws(c: char) -> bool {
    c == ' ' || c == '\t' || c == '\n' || c == '\r'
}

/// The first position at or after `i` holding a non-whitespace
/// character (or the end of the input).
pub open spec fn spec_skip_ws(s: Seq<char>, i: int) -> int
    decreases s.len() - i,
{
    if 0 <= i < s.len() && is_json_ws(s[i]) {
        spec_skip_ws(s, i + 1)
    } else {
        i
    }
}

/// The characters that may follow a backslash inside a string value.
pub open spec fn is_escape_code(c: char) -> bool {
    c == '"' || c == '\\' || c == '/' || c == 'b' || c == 'f' || c == 'n' || c == 'r'
        || c == 't'
}

/// The character an escape code stands for.
pub open spec fn unescaped(c: char) -> char {
    if c == 'b' {
        '\u{8}'
    } else if c == 'f' {
        '\u{c}'
    } else if c == 'n' {
        '\n'
    } else if c == 'r' {
        '\r'
    } else if c == 't' {
        '\t'
    } else {
        c
    }
}

/// Parses the body of a string value, starting just after the opening
/// quote. On success: the position just after the closing quote, and
/// the unescaped contents.
pub open spec fn spec_string_body(s: Seq<char>, i: int) -> Option<(int, Seq<char>)>
    decreases s.len() - i,
{
    if !(0 <= i < s.len()) {
        None
    } else if s[i] == '"' {
        Some((i + 1, Seq::empty()))
    } else if s[i] == '\\' {
        if i + 1 < s.len() && is_escape_code(s[i + 1]) {
            match spec_string_body(s, i + 2) {
                Some(p) => Some((p.0, seq![unescaped(s[i + 1])] + p.1)),
                None => None,
            }
        } else {
            None
        }
    } else {
        match spec_string_body(s, i + 1) {
            Some(p) => Some((p.0, seq![s[i]] + p.1)),
            None => None,
        }
    }
}

/// Parses one `"key" : "value"` member, starting at the key's opening
/// quote. On success: the position just after the value's closing
/// quote, the key, and the value.
pub open spec fn spec_member(s: Seq<char>, i: int) -> Option<(int, Seq<char>, Seq<char>)> {
    if 0 <= i < s.len() && s[i] == '"' {
        match spec_string_body(s, i + 1) {
            Some(pk) => {
                let k = spec_skip_ws(s, pk.0);
                if k < s.len() && s[k] == ':' {
                    let v = spec_skip_ws(s, k + 1);
                    if v < s.len() && s[v] == '"' {
                        match spec_string_body(s, v + 1) {
                            Some(pv) => Some((pv.0, pk.1, pv.1)),
                            None => None,
                        }
                    } else {
                        None
                    }
                } else {
                    None
                }
            },
            None => None,
        }
    } else {
        None
    }
}

/// Parses one status object: `{ "name": ..., "color": ... }` with the
/// two members in either order. On success: the position just after the
/// closing brace, and the record's model.
pub open spec fn spec_object(s: Seq<char>, i: int) -> Option<(int, StatusView)> {
    if 0 <= i < s.len() && s[i] == '{' {
        let a = spec_skip_ws(s, i + 1);
        match spec_member(s, a) {
            Some(m1) => {
                let b = spec_skip_ws(s, m1.0);
                if b < s.len() && s[b] == ',' {
                    let c = spec_skip_ws(s, b + 1);
                    match spec_member(s, c) {
                        Some(m2) => {
                            let f = spec_skip_ws(s, m2.0);
                            if f < s.len() && s[f] == '}' {
                                if m1.1 == "name"@ && m2.1 == "color"@ {
                                    Some((f + 1, StatusView { name: m1.2, color: m2.2 }))
                                } else if m1.1 == "color"@ && m2.1 == "name"@ {
                                    Some((f + 1, StatusView { name: m2.2, color: m1.2 }))
                                } else {
                                    None
                                }
                            } else {
                                None
                            }
                        },
                        None => None,
                    }
                } else {
                    None
                }
            },
            None => None,
        }
    } else {
        None
    }
}

/// Parses the non-empty tail of the array: one object, then either the
/// closing bracket or a comma and further objects. On success: the
/// position just after the closing bracket, and the records' models in
/// order.
pub open spec fn spec_items(s: Seq<char>, i: int) -> Option<(int, Seq<StatusView>)>
    decreases s.len() - i
        via spec_items_decreases_proof
{
    match spec_object(s, i) {
        Some(p) => {
            let k = spec_skip_ws(s, p.0);
            if k < s.len() && s[k] == ']' {
                Some((k + 1, seq![p.1]))
            } else if k < s.len() && s[k] == ',' {
                let n = spec_skip_ws(s, k + 1);
                match spec_items(s, n) {
                    Some(q) => Some((q.0, seq![p.1] + q.1)),
                    None => None,
                }
            } else {
                None
            }
        },
        None => None,
    }
}

/// The whole response body: whitespace, an array of status objects,
/// whitespace, end of input. `None` denotes a malformed body.
pub open spec fn spec_statuses(s: Seq<char>) -> Option<Seq<StatusView>> {
    let i = spec_skip_ws(s, 0);
    if i < s.len() && s[i] == '[' {
        let k = spec_skip_ws(s, i + 1);
        if k < s.len() && s[k] == ']' {
            if spec_skip_ws(s, k + 1) == s.len() {
                Some(Seq::empty())
            } else {
                None
            }
        } else {
            match spec_items(s, k) {
                Some(p) => {
                    if spec_skip_ws(s, p.0) == s.len() {
                        Some(p.1)
                    } else {
                        None
                    }
                },
                None => None,
            }
        }
    } else {
        None
    }
}

/// Skipping whitespace never moves backwards nor past the end.
pub proof fn lemma_skip_ws_bounds(s: Seq<char>, i: int)
    requires
        0 <= i <= s.len(),
    ensures
        i <= spec_skip_ws(s, i) <= s.len(),
    decreases s.len() - i,
{
    if i < s.len() && is_json_ws(s[i]) {
        lemma_skip_ws_bounds(s, i + 1);
    }
}

/// A successfully parsed string body ends strictly after its start and
/// within the input.
pub proof fn lemma_string_body_advances(s: Seq<char>, i: int)
    ensures
        (match spec_string_body(s, i) {
            Some(p) => i < p.0 <= s.len(),
            None => true,
        }),
    decreases s.len() - i,
{
    if 0 <= i < s.len() {
        if s[i] == '"' {
        } else if s[i] == '\\' {
            if i + 1 < s.len() && is_escape_code(s[i + 1]) {
                lemma_string_body_advances(s, i + 2);
            }
        } else {
            lemma_string_body_advances(s, i + 1);
        }
    }
}

/// A successfully parsed member ends strictly after its start and
/// within the input.
pub proof fn lemma_member_advances(s: Seq<char>, i: int)
    ensures
        (match spec_member(s, i) {
            Some(p) => i < p.0 <= s.len(),
            None => true,
        }),
{
    if 0 <= i < s.len() && s[i] == '"' {
        lemma_string_body_advances(s, i + 1);
        match spec_string_body(s, i + 1) {
            Some(pk) => {
                lemma_skip_ws_bounds(s, pk.0);
                let k = spec_skip_ws(s, pk.0);
                if k < s.len() && s[k] == ':' {
                    lemma_skip_ws_bounds(s, k + 1);
                    let v = spec_skip_ws(s, k + 1);
                    if v < s.len() && s[v] == '"' {
                        lemma_string_body_advances(s, v + 1);
                    }
                }
            },
            None => {},
        }
    }
}

/// A successfully parsed object ends strictly after its start and
/// within the input.
pub proof fn lemma_object_advances(s: Seq<char>, i: int)
    ensures
        (match spec_object(s, i) {
            Some(p) => i < p.0 <= s.len(),
            None => true,
        }),
{
    if 0 <= i < s.len() && s[i] == '{' {
        lemma_skip_ws_bounds(s, i + 1);
        let a = spec_skip_ws(s, i + 1);
        lemma_member_advances(s, a);
        match spec_member(s, a) {
            Some(m1) => {
                lemma_skip_ws_bounds(s, m1.0);
                let b = spec_skip_ws(s, m1.0);
                if b < s.len() && s[b] == ',' {
                    lemma_skip_ws_bounds(s, b + 1);
                    let c = spec_skip_ws(s, b + 1);
                    lemma_member_advances(s, c);
                    match spec_member(s, c) {
                        Some(m2) => {
                            lemma_skip_ws_bounds(s, m2.0);
                        },
                        None => {},
                    }
                }
            },
            None => {},
        }
    }
}

#[via_fn]
proof fn spec_items_decreases_proof(s: Seq<char>, i: int) {
    lemma_object_advances(s, i);
    match spec_object(s, i) {
        Some(p) => {
            lemma_skip_ws_bounds(s, p.0);
            let k = spec_skip_ws(s, p.0);
            if k < s.len() && s[k] == ',' {
                lemma_skip_ws_bounds(s, k + 1);
            }
        },
        None => {},
    }
}

/// Relies on `String::push`: appends the given character to the string.
#[verifier::external_body]
fn string_push(s: &mut String, c: char)
    ensures
        final(s)@ == old(s)@.push(c),
{
    s.push(c);
}

/// Builds the `String` holding exactly the given characters.
fn chars_to_string(v: &Vec<char>) -> (s: String)
    ensures
        s@ == v@,
{
    let mut s = String::new();
    let mut i: usize = 0;
    while i < v.len()
        invariant
            i <= v@.len(),
            s@ == v@.take(i as int),
        decreases v@.len() - i,
    {
        string_push(&mut s, v[i]);
        proof {
            assert(s@ =~= v@.take(i as int + 1));
        }
        i = i + 1;
    }
    proof {
        assert(v@.take(v@.len() as int) =~= v@);
    }
    s
}

/// The characters of the given string, in order.
pub fn to_chars(s: &str) -> (v: Vec<char>)
    ensures
        v@ == s@,
{
    let n = s.unicode_len();
    let mut v: Vec<char> = Vec::new();
    let mut i: usize = 0;
    while i < n
        invariant
            n == s@.len(),
            i <= n,
            v@ == s@.take(i as int),
        decreases n - i,
    {
        let c = s.get_char(i);
        v.push(c);
        proof {
            assert(v@ =~= s@.take(i as int + 1));
        }
        i = i + 1;
    }
    proof {
        assert(s@.take(n as int) =~= s@);
    }
    v
}

fn ws_char(c: char) -> (b: bool)
    ensures
        b == is_json_ws(c),
{
    c == ' ' || c == '\t' || c == '\n' || c == '\r'
}

fn skip_ws(s: &Vec<char>, i: usize) -> (r: usize)
    requires
        i <= s@.len(),
    ensures
        r as int == spec_skip_ws(s@, i as int),
        i <= r <= s@.len(),
    decreases s@.len() - i,
{
    let mut j = i;
    while j < s.len() && ws_char(s[j])
        invariant
            i <= j <= s@.len(),
            spec_skip_ws(s@, i as int) == spec_skip_ws(s@, j as int),
        decreases s@.len() - j,
    {
        j = j + 1;
    }
    j
}

fn escape_code_char(c: char) -> (b: bool)
    ensures
        b == is_escape_code(c),
{
    c == '"' || c == '\\' || c == '/' || c == 'b' || c == 'f' || c == 'n' || c == 'r'
        || c == 't'
}

fn unescape_char(c: char) -> (r: char)
    ensures
        r == unescaped(c),
{
    if c == 'b' {
        '\u{8}'
    } else if c == 'f' {
        '\u{c}'
    } else if c == 'n' {
        '\n'
    } else if c == 'r' {
        '\r'
    } else if c == 't' {
        '\t'
    } else {
        c
    }
}

fn parse_string_body(s: &Vec<char>, i: usize) -> (r: Option<(usize, Vec<char>)>)
    requires
        i <= s@.len(),
    ensures
        (match r {
            Some(p) => spec_string_body(s@, i as int) == Some((p.0 as int, p.1@))
                && i < p.0 <= s@.len(),
            None => spec_string_body(s@, i as int) is None,
        }),
    decreases s@.len() - i,
{
    if i >= s.len() {
        return None;
    }
    let c = s[i];
    if c == '"' {
        let v: Vec<char> = Vec::new();
        proof {
            assert(v@ =~= Seq::<char>::empty());
        }
        Some((i + 1, v))
    } else if c == '\\' {
        if i + 1 < s.len() && escape_code_char(s[i + 1]) {
            match parse_string_body(s, i + 2) {
                Some((j, mut v)) => {
                    let ghost rest = v@;
                    v.insert(0, unescape_char(s[i + 1]));
                    proof {
                        assert(v@ =~= seq![unescaped(s@[i as int + 1])] + rest);
                    }
                    Some((j, v))
                },
                None => None,
            }
        } else {
            None
        }
    } else {
        match parse_string_body(s, i + 1) {
            Some((j, mut v)) => {
                let ghost rest = v@;
                v.insert(0, c);
                proof {
                    assert(v@ =~= seq![s@[i as int]] + rest);
                }
                Some((j, v))
            },
            None => None,
        }
    }
}

fn parse_member(s: &Vec<char>, i: usize) -> (r: Option<(usize, Vec<char>, Vec<char>)>)
    requires
        i <= s@.len(),
    ensures
        (match r {
            Some(p) => spec_member(s@, i as int) == Some((p.0 as int, p.1@, p.2@))
                && i < p.0 <= s@.len(),
            None => spec_member(s@, i as int) is None,
        }),
{
    if i >= s.len() || s[i] != '"' {
        return None;
    }
    match parse_string_body(s, i + 1) {
        Some((j, key)) => {
            let k = skip_ws(s, j);
            if k < s.len() && s[k] == ':' {
                let v = skip_ws(s, k + 1);
                if v < s.len() && s[v] == '"' {
                    match parse_string_body(s, v + 1) {
                        Some((e, val)) => Some((e, key, val)),
                        None => None,
                    }
                } else {
                    None
                }
            } else {
                None
            }
        },
        None => None,
    }
}

fn parse_object(s: &Vec<char>, i: usize) -> (r: Option<(usize, ServiceStatus)>)
    requires
        i <= s@.len(),
    ensures
        (match r {
            Some(p) => spec_object(s@, i as int) == Some((p.0 as int, p.1@))
                && i < p.0 <= s@.len(),
            None => spec_object(s@, i as int) is None,
        }),
{
    if i >= s.len() || s[i] != '{' {
        return None;
    }
    let a = skip_ws(s, i + 1);
    match parse_member(s, a) {
        Some((j, key1, val1)) => {
            let b = skip_ws(s, j);
            if b < s.len() && s[b] == ',' {
                let c = skip_ws(s, b + 1);
                match parse_member(s, c) {
                    Some((e, key2, val2)) => {
                        let f = skip_ws(s, e);
                        if f < s.len() && s[f] == '}' {
                            let k1 = chars_to_string(&key1);
                            let k2 = chars_to_string(&key2);
                            let name_lit = String::from_str("name");
                            let color_lit = String::from_str("color");
                            if k1 == name_lit && k2 == color_lit {
                                let st = ServiceStatus {
                                    name: chars_to_string(&val1),
                                    color: chars_to_string(&val2),
                                };
                                Some((f + 1, st))
                            } else if k1 == color_lit && k2 == name_lit {
                                let st = ServiceStatus {
                                    name: chars_to_string(&val2),
                                    color: chars_to_string(&val1),
                                };
                                Some((f + 1, st))
                            } else {
                                None
                            }
                        } else {
                            None
                        }
                    },
                    None => None,
                }
            } else {
                None
            }
        },
        None => None,
    }
}

fn parse_items(s: &Vec<char>, i: usize) -> (r: Option<(usize, Vec<ServiceStatus>)>)
    requires
        i <= s@.len(),
    ensures
        (match r {
            Some(p) => spec_items(s@, i as int) == Some((p.0 as int, views_of(p.1@)))
                && i < p.0 <= s@.len(),
            None => spec_items(s@, i as int) is None,
        }),
    decreases s@.len() - i,
{
    match parse_object(s, i) {
        Some((j, st)) => {
            let k = skip_ws(s, j);
            if k < s.len() && s[k] == ']' {
                let mut v: Vec<ServiceStatus> = Vec::new();
                v.push(st);
                proof {
                    assert(views_of(v@) =~= seq![st@]);
                }
                Some((k + 1, v))
            } else if k < s.len() && s[k] == ',' {
                let n = skip_ws(s, k + 1);
                match parse_items(s, n) {
                    Some((e, mut rest)) => {
                        let ghost tail = rest@;
                        rest.insert(0, st);
                        proof {
                            assert(views_of(rest@) =~= seq![st@] + views_of(tail));
                        }
                        Some((e, rest))
                    },
                    None => None,
                }
            } else {
                None
            }
        },
        None => None,
    }
}

/// Parses a whole response body, given as its character sequence.
/// Returns the status records exactly when the body matches the
/// grammar, and `None` otherwise.
pub fn parse_statuses(s: &Vec<char>) -> (r: Option<Vec<ServiceStatus>>)
    ensures
        (match r {
            Some(v) => spec_statuses(s@) == Some(views_of(v@)),
            None => spec_statuses(s@) is None,
        }),
{
    let i = skip_ws(s, 0);
    if i < s.len() && s[i] == '[' {
        let k = skip_ws(s, i + 1);
        if k < s.len() && s[k] == ']' {
            if skip_ws(s, k + 1) == s.len() {
                let v: Vec<ServiceStatus> = Vec::new();
                proof {
                    assert(views_of(v@) =~= Seq::<StatusView>::empty());
                }
                Some(v)
            } else {
                None
            }
        } else {
            match parse_items(s, k) {
                Some((e, v)) => {
                    if skip_ws(s, e) == s.len() {
                        Some(v)
                    } else {
                        None
                    }
                },
                None => None,
            }
        }
    } else {
        None
    }
}

/// Parses a whole response body given as a string slice.
pub fn parse_body(body: &str) -> (r: Option<Vec<ServiceStatus>>)
    ensures
        (match r {
            Some(v) => spec_statuses(body@) == Some(views_of(v@)),
            None => spec_statuses(body@) is None,
        }),
{
    let chars = to_chars(body);
    parse_statuses(&chars)
}

} // verus!
