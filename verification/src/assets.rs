//! The asset index: a JSON document whose top-level object carries an
//! `objects` member mapping arbitrary names to `{hash, size}` entries.
//! Parsing is defined here over character sequences: the grammar
//! accepts objects, arrays, strings (with `\"`, `\\` and `\/` escapes),
//! integers, `true`, `false` and `null`. Every entry whose
//! `hash` member is a string contributes that hash, in document order;
//! anything else is skipped, as the consumer of the original documents
//! does. Each hash is both the integrity check and the storage address
//! `objects/<hash[0:2]>/<hash>` of one content-addressed task.

use vstd::prelude::*;
use vstd::string::StrSliceExecFns;
use vstd::string::StringExecFns;
use crate::model::DownloadTask;
use crate::model::FetchError;
use crate::model::TaskView;

verus! {

pub open spec fn is_ws(c: char) -> bool {
    c == ' ' || c == '\t' || c == '\n' || c == '\r'
}

pub open spec fn is_digit(c: char) -> bool {
    c == '0' || c == '1' || c == '2' || c == '3' || c == '4' || c == '5' || c == '6' || c == '7'
        || c == '8' || c == '9'
}

pub open spec fn is_escape(c: char) -> bool {
    c == '"' || c == '\\' || c == '/'
}

/// First position at or after `i` holding no whitespace.
pub open spec fn skip_ws_spec(s: Seq<char>, i: int) -> int
    decreases s.len() - i,
{
    if 0 <= i < s.len() && is_ws(s[i]) {
        skip_ws_spec(s, i + 1)
    } else {
        i
    }
}

/// First position at or after `i` holding no digit.
pub open spec fn skip_digits_spec(s: Seq<char>, i: int) -> int
    decreases s.len() - i,
{
    if 0 <= i < s.len() && is_digit(s[i]) {
        skip_digits_spec(s, i + 1)
    } else {
        i
    }
}

/// Position just past the closing quote of a string literal whose body
/// starts at `i` (just after the opening quote), if the literal is well
/// formed.
pub open spec fn str_end_spec(s: Seq<char>, i: int) -> Option<int>
    decreases s.len() - i,
{
    if !(0 <= i < s.len()) {
        None
    } else if s[i] == '"' {
        Some(i + 1)
    } else if s[i] == '\\' {
        if i + 2 <= s.len() && is_escape(s[i + 1]) {
            str_end_spec(s, i + 2)
        } else {
            None
        }
    } else {
        str_end_spec(s, i + 1)
    }
}

/// The decoded body of a string literal whose body starts at `i`.
pub open spec fn str_content_spec(s: Seq<char>, i: int) -> Seq<char>
    decreases s.len() - i,
{
    if !(0 <= i < s.len()) {
        Seq::<char>::empty()
    } else if s[i] == '"' {
        Seq::<char>::empty()
    } else if s[i] == '\\' {
        if i + 2 <= s.len() && is_escape(s[i + 1]) {
            seq![s[i + 1]] + str_content_spec(s, i + 2)
        } else {
            Seq::<char>::empty()
        }
    } else {
        seq![s[i]] + str_content_spec(s, i + 1)
    }
}

/// Position just past an integer starting at `i`, if one stands there.
pub open spec fn num_end_spec(s: Seq<char>, i: int) -> Option<int> {
    let i0 = if 0 <= i < s.len() && s[i] == '-' {
        i + 1
    } else {
        i
    };
    let i1 = skip_digits_spec(s, i0);
    if i1 > i0 {
        Some(i1)
    } else {
        None
    }
}

/// Position just past `true`, `false` or `null` starting at `i`, if one
/// stands there.
pub open spec fn lit_end_spec(s: Seq<char>, i: int) -> Option<int> {
    if 0 <= i && i + 4 <= s.len() && s[i] == 't' && s[i + 1] == 'r' && s[i + 2] == 'u' && s[i + 3]
        == 'e' {
        Some(i + 4)
    } else if 0 <= i && i + 5 <= s.len() && s[i] == 'f' && s[i + 1] == 'a' && s[i + 2] == 'l' && s[i
        + 3] == 's' && s[i + 4] == 'e' {
        Some(i + 5)
    } else if 0 <= i && i + 4 <= s.len() && s[i] == 'n' && s[i + 1] == 'u' && s[i + 2] == 'l' && s[i
        + 3] == 'l' {
        Some(i + 4)
    } else {
        None
    }
}

/// Position just past the value starting at `i`, if the text there is a
/// well-formed value of the grammar.
pub open spec fn skip_value(s: Seq<char>, i: int) -> Option<int>
    decreases s.len() - i, 0int,
{
    if !(0 <= i < s.len()) {
        None
    } else if s[i] == '"' {
        str_end_spec(s, i + 1)
    } else if s[i] == '{' {
        let j = skip_ws_spec(s, i + 1);
        if i < j <= s.len() {
            skip_obj_rest(s, j)
        } else {
            None
        }
    } else if s[i] == '[' {
        let j = skip_ws_spec(s, i + 1);
        if i < j <= s.len() {
            skip_arr_rest(s, j)
        } else {
            None
        }
    } else if s[i] == 't' || s[i] == 'f' || s[i] == 'n' {
        lit_end_spec(s, i)
    } else {
        num_end_spec(s, i)
    }
}

/// Walk the members of an object from the first position after its `{`
/// (whitespace already skipped), to just past its `}`.
pub open spec fn skip_obj_rest(s: Seq<char>, i: int) -> Option<int>
    decreases s.len() - i, 1int,
{
    if !(0 <= i < s.len()) {
        None
    } else if s[i] == '}' {
        Some(i + 1)
    } else if s[i] == '"' {
        match str_end_spec(s, i + 1) {
            None => None,
            Some(e) => {
                let c = skip_ws_spec(s, e);
                if 0 <= c < s.len() && s[c] == ':' {
                    let v = skip_ws_spec(s, c + 1);
                    if i < v <= s.len() {
                        match skip_value(s, v) {
                            None => None,
                            Some(ve) => {
                                let nx = skip_ws_spec(s, ve);
                                if 0 <= nx < s.len() && s[nx] == ',' {
                                    let k = skip_ws_spec(s, nx + 1);
                                    if i < k <= s.len() {
                                        skip_obj_rest(s, k)
                                    } else {
                                        None
                                    }
                                } else if 0 <= nx < s.len() && s[nx] == '}' {
                                    Some(nx + 1)
                                } else {
                                    None
                                }
                            },
                        }
                    } else {
                        None
                    }
                } else {
                    None
                }
            },
        }
    } else {
        None
    }
}

/// Walk the elements of an array from the first position after its `[`
/// (whitespace already skipped), to just past its `]`.
pub open spec fn skip_arr_rest(s: Seq<char>, i: int) -> Option<int>
    decreases s.len() - i, 1int,
{
    if !(0 <= i < s.len()) {
        None
    } else if s[i] == ']' {
        Some(i + 1)
    } else {
        match skip_value(s, i) {
            None => None,
            Some(ve) => {
                let nx = skip_ws_spec(s, ve);
                if 0 <= nx < s.len() && s[nx] == ',' {
                    let k = skip_ws_spec(s, nx + 1);
                    if i < k <= s.len() {
                        skip_arr_rest(s, k)
                    } else {
                        None
                    }
                } else if 0 <= nx < s.len() && s[nx] == ']' {
                    Some(nx + 1)
                } else {
                    None
                }
            },
        }
    }
}

/// Walk one `{hash, size}` entry from the first position after its `{`,
/// tracking the last string value seen under a `hash` key (a later
/// non-string `hash` value clears it again).
pub open spec fn parse_entry_rest(s: Seq<char>, i: int, acc: Option<Seq<char>>) -> Option<
    (Option<Seq<char>>, int),
>
    decreases s.len() - i, 1int,
{
    if !(0 <= i < s.len()) {
        None
    } else if s[i] == '}' {
        Some((acc, i + 1))
    } else if s[i] == '"' {
        match str_end_spec(s, i + 1) {
            None => None,
            Some(e) => {
                let key = str_content_spec(s, i + 1);
                let c = skip_ws_spec(s, e);
                if 0 <= c < s.len() && s[c] == ':' {
                    let v = skip_ws_spec(s, c + 1);
                    if i < v <= s.len() {
                        match skip_value(s, v) {
                            None => None,
                            Some(ve) => {
                                let acc2 = if key == "hash"@ {
                                    if 0 <= v < s.len() && s[v] == '"' {
                                        Some(str_content_spec(s, v + 1))
                                    } else {
                                        None
                                    }
                                } else {
                                    acc
                                };
                                let nx = skip_ws_spec(s, ve);
                                if 0 <= nx < s.len() && s[nx] == ',' {
                                    let k = skip_ws_spec(s, nx + 1);
                                    if i < k <= s.len() {
                                        parse_entry_rest(s, k, acc2)
                                    } else {
                                        None
                                    }
                                } else if 0 <= nx < s.len() && s[nx] == '}' {
                                    Some((acc2, nx + 1))
                                } else {
                                    None
                                }
                            },
                        }
                    } else {
                        None
                    }
                } else {
                    None
                }
            },
        }
    } else {
        None
    }
}

/// Walk the members of the `objects` map from the first position after
/// its `{`, collecting the hash of every entry that has one, in document
/// order.
pub open spec fn parse_objects_rest(s: Seq<char>, i: int, acc: Seq<Seq<char>>) -> Option<
    (Seq<Seq<char>>, int),
>
    decreases s.len() - i, 2int,
{
    if !(0 <= i < s.len()) {
        None
    } else if s[i] == '}' {
        Some((acc, i + 1))
    } else if s[i] == '"' {
        match str_end_spec(s, i + 1) {
            None => None,
            Some(e) => {
                let c = skip_ws_spec(s, e);
                if 0 <= c < s.len() && s[c] == ':' {
                    let v = skip_ws_spec(s, c + 1);
                    if i < v <= s.len() {
                        let step: Option<(Seq<Seq<char>>, int)> = if 0 <= v < s.len() && s[v]
                            == '{' {
                            let j = skip_ws_spec(s, v + 1);
                            if v < j <= s.len() {
                                match parse_entry_rest(s, j, None) {
                                    None => None,
                                    Some((h, ve)) => Some(
                                        (
                                            match h {
                                                Some(hh) => acc.push(hh),
                                                None => acc,
                                            },
                                            ve,
                                        ),
                                    ),
                                }
                            } else {
                                None
                            }
                        } else {
                            match skip_value(s, v) {
                                None => None,
                                Some(ve) => Some((acc, ve)),
                            }
                        };
                        match step {
                            None => None,
                            Some((acc2, ve)) => {
                                let nx = skip_ws_spec(s, ve);
                                if 0 <= nx < s.len() && s[nx] == ',' {
                                    let k = skip_ws_spec(s, nx + 1);
                                    if i < k <= s.len() {
                                        parse_objects_rest(s, k, acc2)
                                    } else {
                                        None
                                    }
                                } else if 0 <= nx < s.len() && s[nx] == '}' {
                                    Some((acc2, nx + 1))
                                } else {
                                    None
                                }
                            },
                        }
                    } else {
                        None
                    }
                } else {
                    None
                }
            },
        }
    } else {
        None
    }
}

/// Walk the members of the top-level object from the first position
/// after its `{`, tracking the hash list of the last `objects` member
/// whose value is an object (a later non-object `objects` value clears
/// it again).
pub open spec fn parse_top_rest(s: Seq<char>, i: int, acc: Option<Seq<Seq<char>>>) -> Option<
    (Option<Seq<Seq<char>>>, int),
>
    decreases s.len() - i, 3int,
{
    if !(0 <= i < s.len()) {
        None
    } else if s[i] == '}' {
        Some((acc, i + 1))
    } else if s[i] == '"' {
        match str_end_spec(s, i + 1) {
            None => None,
            Some(e) => {
                let key = str_content_spec(s, i + 1);
                let c = skip_ws_spec(s, e);
                if 0 <= c < s.len() && s[c] == ':' {
                    let v = skip_ws_spec(s, c + 1);
                    if i < v <= s.len() {
                        let step: Option<(Option<Seq<Seq<char>>>, int)> = if key == "objects"@ {
                            if 0 <= v < s.len() && s[v] == '{' {
                                let j = skip_ws_spec(s, v + 1);
                                if v < j <= s.len() {
                                    match parse_objects_rest(s, j, Seq::<Seq<char>>::empty()) {
                                        None => None,
                                        Some((l, ve)) => Some((Some(l), ve)),
                                    }
                                } else {
                                    None
                                }
                            } else {
                                match skip_value(s, v) {
                                    None => None,
                                    Some(ve) => Some((None, ve)),
                                }
                            }
                        } else {
                            match skip_value(s, v) {
                                None => None,
                                Some(ve) => Some((acc, ve)),
                            }
                        };
                        match step {
                            None => None,
                            Some((acc2, ve)) => {
                                let nx = skip_ws_spec(s, ve);
                                if 0 <= nx < s.len() && s[nx] == ',' {
                                    let k = skip_ws_spec(s, nx + 1);
                                    if i < k <= s.len() {
                                        parse_top_rest(s, k, acc2)
                                    } else {
                                        None
                                    }
                                } else if 0 <= nx < s.len() && s[nx] == '}' {
                                    Some((acc2, nx + 1))
                                } else {
                                    None
                                }
                            },
                        }
                    } else {
                        None
                    }
                } else {
                    None
                }
            },
        }
    } else {
        None
    }
}

/// The hashes an asset index document declares: the whole document must
/// be one well-formed value; a top-level object with an object-valued
/// `objects` member yields that map's hashes, and any other well-formed
/// document yields none.
pub open spec fn index_hashes(s: Seq<char>) -> Option<Seq<Seq<char>>> {
    let i0 = skip_ws_spec(s, 0);
    if 0 <= i0 < s.len() && s[i0] == '{' {
        let j = skip_ws_spec(s, i0 + 1);
        match parse_top_rest(s, j, None) {
            None => None,
            Some((acc, e)) => {
                if skip_ws_spec(s, e) == s.len() {
                    Some(
                        match acc {
                            Some(l) => l,
                            None => Seq::<Seq<char>>::empty(),
                        },
                    )
                } else {
                    None
                }
            },
        }
    } else {
        match skip_value(s, i0) {
            None => None,
            Some(e) => {
                if skip_ws_spec(s, e) == s.len() {
                    Some(Seq::<Seq<char>>::empty())
                } else {
                    None
                }
            },
        }
    }
}

/// The view of an optional owned string.
pub open spec fn opt_view(o: Option<String>) -> Option<Seq<char>> {
    match o {
        Some(x) => Some(x@),
        None => None,
    }
}

/// The views of a hash list.
pub open spec fn hashes_view(v: Seq<String>) -> Seq<Seq<char>> {
    v.map_values(|x: String| x@)
}

fn e_skip_ws(s: &str, n: usize, i: usize) -> (r: usize)
    requires
        n == s@.len(),
        i <= n,
    ensures
        i <= r <= n,
        r as int == skip_ws_spec(s@, i as int),
    decreases s@.len() - i,
{
    if i == n {
        return i;
    }
    let ch = s.get_char(i);
    if ch == ' ' || ch == '\t' || ch == '\n' || ch == '\r' {
        e_skip_ws(s, n, i + 1)
    } else {
        i
    }
}

fn e_skip_digits(s: &str, n: usize, i: usize) -> (r: usize)
    requires
        n == s@.len(),
        i <= n,
    ensures
        i <= r <= n,
        r as int == skip_digits_spec(s@, i as int),
    decreases s@.len() - i,
{
    if i == n {
        return i;
    }
    let ch = s.get_char(i);
    if ch == '0' || ch == '1' || ch == '2' || ch == '3' || ch == '4' || ch == '5' || ch == '6'
        || ch == '7' || ch == '8' || ch == '9' {
        e_skip_digits(s, n, i + 1)
    } else {
        i
    }
}

fn e_parse_string(s: &str, n: usize, i: usize) -> (r: Option<(String, usize)>)
    requires
        n == s@.len(),
        i <= n,
    ensures
        match str_end_spec(s@, i as int) {
            Some(e) => r matches Some(p) && p.1 == e && i < p.1 <= n && p.0@ == str_content_spec(
                s@,
                i as int,
            ),
            None => r is None,
        },
    decreases s@.len() - i,
{
    if i == n {
        return None;
    }
    let ch = s.get_char(i);
    if ch == '"' {
        Some((String::new(), i + 1))
    } else if ch == '\\' {
        if i + 1 < n {
            let nx = s.get_char(i + 1);
            if nx == '"' || nx == '\\' || nx == '/' {
                match e_parse_string(s, n, i + 2) {
                    None => None,
                    Some((tail, e)) => {
                        let mut out = String::new();
                        crate::strutil::push_char(&mut out, nx);
                        out.append(tail.as_str());
                        proof {
                            assert(out@ =~= seq![s@[i as int + 1]] + str_content_spec(
                                s@,
                                i as int + 2,
                            ));
                        }
                        Some((out, e))
                    },
                }
            } else {
                None
            }
        } else {
            None
        }
    } else {
        match e_parse_string(s, n, i + 1) {
            None => None,
            Some((tail, e)) => {
                let mut out = String::new();
                crate::strutil::push_char(&mut out, ch);
                out.append(tail.as_str());
                proof {
                    assert(out@ =~= seq![s@[i as int]] + str_content_spec(s@, i as int + 1));
                }
                Some((out, e))
            },
        }
    }
}

fn e_lit_end(s: &str, n: usize, i: usize) -> (r: Option<usize>)
    requires
        n == s@.len(),
        i <= n,
    ensures
        match lit_end_spec(s@, i as int) {
            Some(e) => r matches Some(x) && x == e && i < x <= n,
            None => r is None,
        },
{
    if n - i >= 4 && s.get_char(i) == 't' && s.get_char(i + 1) == 'r' && s.get_char(i + 2) == 'u'
        && s.get_char(i + 3) == 'e' {
        Some(i + 4)
    } else if n - i >= 5 && s.get_char(i) == 'f' && s.get_char(i + 1) == 'a' && s.get_char(i + 2)
        == 'l' && s.get_char(i + 3) == 's' && s.get_char(i + 4) == 'e' {
        Some(i + 5)
    } else if n - i >= 4 && s.get_char(i) == 'n' && s.get_char(i + 1) == 'u' && s.get_char(i + 2)
        == 'l' && s.get_char(i + 3) == 'l' {
        Some(i + 4)
    } else {
        None
    }
}

fn e_num_end(s: &str, n: usize, i: usize) -> (r: Option<usize>)
    requires
        n == s@.len(),
        i <= n,
    ensures
        match num_end_spec(s@, i as int) {
            Some(e) => r matches Some(x) && x == e && i < x <= n,
            None => r is None,
        },
{
    let i0 = if i < n && s.get_char(i) == '-' {
        i + 1
    } else {
        i
    };
    let i1 = e_skip_digits(s, n, i0);
    if i1 > i0 {
        Some(i1)
    } else {
        None
    }
}

fn e_skip_value(s: &str, n: usize, i: usize) -> (r: Option<usize>)
    requires
        n == s@.len(),
        i <= n,
    ensures
        match skip_value(s@, i as int) {
            Some(e) => r matches Some(x) && x == e && i < x <= n,
            None => r is None,
        },
    decreases s@.len() - i, 0int,
{
    if i == n {
        return None;
    }
    let ch = s.get_char(i);
    if ch == '"' {
        match e_parse_string(s, n, i + 1) {
            None => None,
            Some((_, e)) => Some(e),
        }
    } else if ch == '{' {
        let j = e_skip_ws(s, n, i + 1);
        e_skip_obj_rest(s, n, j)
    } else if ch == '[' {
        let j = e_skip_ws(s, n, i + 1);
        e_skip_arr_rest(s, n, j)
    } else if ch == 't' || ch == 'f' || ch == 'n' {
        e_lit_end(s, n, i)
    } else {
        e_num_end(s, n, i)
    }
}

fn e_skip_obj_rest(s: &str, n: usize, i: usize) -> (r: Option<usize>)
    requires
        n == s@.len(),
        i <= n,
    ensures
        match skip_obj_rest(s@, i as int) {
            Some(e) => r matches Some(x) && x == e && i < x <= n,
            None => r is None,
        },
    decreases s@.len() - i, 1int,
{
    if i == n {
        return None;
    }
    let ch = s.get_char(i);
    if ch == '}' {
        Some(i + 1)
    } else if ch == '"' {
        match e_parse_string(s, n, i + 1) {
            None => None,
            Some((_, e)) => {
                let c = e_skip_ws(s, n, e);
                if c < n && s.get_char(c) == ':' {
                    let v = e_skip_ws(s, n, c + 1);
                    match e_skip_value(s, n, v) {
                        None => None,
                        Some(ve) => {
                            let nx = e_skip_ws(s, n, ve);
                            if nx < n && s.get_char(nx) == ',' {
                                let k = e_skip_ws(s, n, nx + 1);
                                e_skip_obj_rest(s, n, k)
                            } else if nx < n && s.get_char(nx) == '}' {
                                Some(nx + 1)
                            } else {
                                None
                            }
                        },
                    }
                } else {
                    None
                }
            },
        }
    } else {
        None
    }
}

fn e_skip_arr_rest(s: &str, n: usize, i: usize) -> (r: Option<usize>)
    requires
        n == s@.len(),
        i <= n,
    ensures
        match skip_arr_rest(s@, i as int) {
            Some(e) => r matches Some(x) && x == e && i < x <= n,
            None => r is None,
        },
    decreases s@.len() - i, 1int,
{
    if i == n {
        return None;
    }
    if s.get_char(i) == ']' {
        return Some(i + 1);
    }
    match e_skip_value(s, n, i) {
        None => None,
        Some(ve) => {
            let nx = e_skip_ws(s, n, ve);
            if nx < n && s.get_char(nx) == ',' {
                let k = e_skip_ws(s, n, nx + 1);
                e_skip_arr_rest(s, n, k)
            } else if nx < n && s.get_char(nx) == ']' {
                Some(nx + 1)
            } else {
                None
            }
        },
    }
}

fn e_parse_entry(
    s: &str,
    n: usize,
    i: usize,
    cur: Option<String>,
    Ghost(gcur): Ghost<Option<Seq<char>>>,
) -> (r: Option<(Option<String>, usize)>)
    requires
        n == s@.len(),
        i <= n,
        opt_view(cur) == gcur,
    ensures
        match parse_entry_rest(s@, i as int, gcur) {
            Some(p) => r matches Some(q) && opt_view(q.0) == p.0 && q.1 == p.1 && i < q.1 <= n,
            None => r is None,
        },
    decreases s@.len() - i, 1int,
{
    if i == n {
        return None;
    }
    let ch = s.get_char(i);
    if ch == '}' {
        return Some((cur, i + 1));
    }
    if ch != '"' {
        return None;
    }
    match e_parse_string(s, n, i + 1) {
        None => None,
        Some((key, e)) => {
            let c = e_skip_ws(s, n, e);
            if c < n && s.get_char(c) == ':' {
                let v = e_skip_ws(s, n, c + 1);
                let is_hash = crate::paths::str_eq(key.as_str(), "hash");
                let step: Option<(Option<String>, usize)> = if v < n && s.get_char(v) == '"' {
                    match e_parse_string(s, n, v + 1) {
                        None => None,
                        Some((sv, ve)) => {
                            if is_hash {
                                Some((Some(sv), ve))
                            } else {
                                Some((cur, ve))
                            }
                        },
                    }
                } else {
                    match e_skip_value(s, n, v) {
                        None => None,
                        Some(ve) => {
                            if is_hash {
                                Some((None, ve))
                            } else {
                                Some((cur, ve))
                            }
                        },
                    }
                };
                match step {
                    None => None,
                    Some((acc2, ve)) => {
                        let ghost gacc2 = opt_view(acc2);
                        let nx = e_skip_ws(s, n, ve);
                        if nx < n && s.get_char(nx) == ',' {
                            let k = e_skip_ws(s, n, nx + 1);
                            e_parse_entry(s, n, k, acc2, Ghost(gacc2))
                        } else if nx < n && s.get_char(nx) == '}' {
                            Some((acc2, nx + 1))
                        } else {
                            None
                        }
                    },
                }
            } else {
                None
            }
        },
    }
}

fn e_parse_objects(
    s: &str,
    n: usize,
    i: usize,
    acc: Vec<String>,
    Ghost(gacc): Ghost<Seq<Seq<char>>>,
) -> (r: Option<(Vec<String>, usize)>)
    requires
        n == s@.len(),
        i <= n,
        hashes_view(acc@) == gacc,
    ensures
        match parse_objects_rest(s@, i as int, gacc) {
            Some(p) => r matches Some(q) && hashes_view(q.0@) == p.0 && q.1 == p.1 && i < q.1 <= n,
            None => r is None,
        },
    decreases s@.len() - i, 2int,
{
    if i == n {
        return None;
    }
    let ch = s.get_char(i);
    if ch == '}' {
        return Some((acc, i + 1));
    }
    if ch != '"' {
        return None;
    }
    match e_parse_string(s, n, i + 1) {
        None => None,
        Some((_, e)) => {
            let c = e_skip_ws(s, n, e);
            if c < n && s.get_char(c) == ':' {
                let v = e_skip_ws(s, n, c + 1);
                let step: Option<(Vec<String>, usize)> = if v < n && s.get_char(v) == '{' {
                    let j = e_skip_ws(s, n, v + 1);
                    match e_parse_entry(s, n, j, None, Ghost(None)) {
                        None => None,
                        Some((hopt, ve)) => {
                            let mut acc2 = acc;
                            match hopt {
                                Some(h) => {
                                    let ghost before = acc2@;
                                    acc2.push(h);
                                    proof {
                                        assert(hashes_view(acc2@) =~= hashes_view(before).push(
                                            h@,
                                        ));
                                    }
                                },
                                None => {},
                            }
                            Some((acc2, ve))
                        },
                    }
                } else {
                    match e_skip_value(s, n, v) {
                        None => None,
                        Some(ve) => Some((acc, ve)),
                    }
                };
                match step {
                    None => None,
                    Some((acc2, ve)) => {
                        let ghost gacc2 = hashes_view(acc2@);
                        let nx = e_skip_ws(s, n, ve);
                        if nx < n && s.get_char(nx) == ',' {
                            let k = e_skip_ws(s, n, nx + 1);
                            e_parse_objects(s, n, k, acc2, Ghost(gacc2))
                        } else if nx < n && s.get_char(nx) == '}' {
                            Some((acc2, nx + 1))
                        } else {
                            None
                        }
                    },
                }
            } else {
                None
            }
        },
    }
}

fn e_parse_top(
    s: &str,
    n: usize,
    i: usize,
    cur: Option<Vec<String>>,
    Ghost(gcur): Ghost<Option<Seq<Seq<char>>>>,
) -> (r: Option<(Option<Vec<String>>, usize)>)
    requires
        n == s@.len(),
        i <= n,
        match cur {
            Some(v) => gcur matches Some(g) && hashes_view(v@) == g,
            None => gcur is None,
        },
    ensures
        match parse_top_rest(s@, i as int, gcur) {
            Some(p) => r matches Some(q) && (match q.0 {
                Some(v) => p.0 matches Some(g) && hashes_view(v@) == g,
                None => p.0 is None,
            }) && q.1 == p.1 && i < q.1 <= n,
            None => r is None,
        },
    decreases s@.len() - i, 3int,
{
    if i == n {
        return None;
    }
    let ch = s.get_char(i);
    if ch == '}' {
        return Some((cur, i + 1));
    }
    if ch != '"' {
        return None;
    }
    match e_parse_string(s, n, i + 1) {
        None => None,
        Some((key, e)) => {
            let c = e_skip_ws(s, n, e);
            if c < n && s.get_char(c) == ':' {
                let v = e_skip_ws(s, n, c + 1);
                let is_objects = crate::paths::str_eq(key.as_str(), "objects");
                let step: Option<(Option<Vec<String>>, usize)> = if is_objects {
                    if v < n && s.get_char(v) == '{' {
                        let j = e_skip_ws(s, n, v + 1);
                        let fresh: Vec<String> = Vec::new();
                        proof {
                            assert(hashes_view(fresh@) =~= Seq::<Seq<char>>::empty());
                        }
                        match e_parse_objects(s, n, j, fresh, Ghost(Seq::empty())) {
                            None => None,
                            Some((l, ve)) => Some((Some(l), ve)),
                        }
                    } else {
                        match e_skip_value(s, n, v) {
                            None => None,
                            Some(ve) => Some((None, ve)),
                        }
                    }
                } else {
                    match e_skip_value(s, n, v) {
                        None => None,
                        Some(ve) => Some((cur, ve)),
                    }
                };
                match step {
                    None => None,
                    Some((acc2, ve)) => {
                        let ghost gacc2: Option<Seq<Seq<char>>> = match &acc2 {
                            Some(l) => Some(hashes_view(l@)),
                            None => None,
                        };
                        let nx = e_skip_ws(s, n, ve);
                        if nx < n && s.get_char(nx) == ',' {
                            let k = e_skip_ws(s, n, nx + 1);
                            e_parse_top(s, n, k, acc2, Ghost(gacc2))
                        } else if nx < n && s.get_char(nx) == '}' {
                            Some((acc2, nx + 1))
                        } else {
                            None
                        }
                    },
                }
            } else {
                None
            }
        },
    }
}

/// Parse an asset index document into its declared hashes, in document
/// order. A document the grammar refuses is a parse error.
pub fn parse_asset_index(doc: &str) -> (r: Result<Vec<String>, FetchError>)
    ensures
        match index_hashes(doc@) {
            Some(hs) => r matches Ok(v) && hashes_view(v@) == hs,
            None => r matches Err(e) && e is Parse,
        },
{
    let n = doc.unicode_len();
    let i0 = e_skip_ws(doc, n, 0);
    if i0 < n && doc.get_char(i0) == '{' {
        let j = e_skip_ws(doc, n, i0 + 1);
        match e_parse_top(doc, n, j, None, Ghost(None)) {
            None => Err(FetchError::Parse),
            Some((accopt, e)) => {
                let t = e_skip_ws(doc, n, e);
                if t == n {
                    match accopt {
                        Some(l) => Ok(l),
                        None => {
                            let empty_list: Vec<String> = Vec::new();
                            proof {
                                assert(hashes_view(empty_list@) =~= Seq::<Seq<char>>::empty());
                            }
                            Ok(empty_list)
                        },
                    }
                } else {
                    Err(FetchError::Parse)
                }
            },
        }
    } else {
        match e_skip_value(doc, n, i0) {
            None => Err(FetchError::Parse),
            Some(e) => {
                let t = e_skip_ws(doc, n, e);
                if t == n {
                    let empty_list: Vec<String> = Vec::new();
                    proof {
                        assert(hashes_view(empty_list@) =~= Seq::<Seq<char>>::empty());
                    }
                    Ok(empty_list)
                } else {
                    Err(FetchError::Parse)
                }
            },
        }
    }
}

/// The task of one content-addressed asset object: fetched from the
/// canonical resource host and stored under
/// `<assets>/objects/<hash[0:2]>/<hash>`, with the hash itself as the
/// expected digest.
pub open spec fn asset_task(h: Seq<char>, assets_dir: Seq<char>) -> TaskView {
    TaskView {
        url: "https://resources.download.minecraft.net/"@ + h.subrange(0, 2) + "/"@ + h,
        path: assets_dir + "/objects/"@ + h.subrange(0, 2) + "/"@ + h,
        sha1: h,
    }
}

/// Expand a hash list into one task per entry, in order. A hash shorter
/// than its two-character storage prefix makes the index malformed.
pub fn expand_asset_tasks(hashes: &Vec<String>, assets_dir: &str) -> (r: Result<
    Vec<DownloadTask>,
    FetchError,
>)
    ensures
        (forall|i: int| 0 <= i < hashes@.len() ==> (#[trigger] hashes@[i])@.len() >= 2) ==> (
        r matches Ok(ts) && ts@.len() == hashes@.len() && forall|i: int|
            0 <= i < hashes@.len() ==> (#[trigger] ts@[i])@ == asset_task(
                hashes@[i]@,
                assets_dir@,
            )),
        (exists|i: int| 0 <= i < hashes@.len() && (#[trigger] hashes@[i])@.len() < 2) ==> (
        r matches Err(e) && e is Parse),
{
    let n = hashes.len();
    let mut out: Vec<DownloadTask> = Vec::new();
    let mut i: usize = 0;
    while i < n
        invariant
            i <= n,
            n == hashes@.len(),
            out@.len() == i,
            forall|j: int| 0 <= j < i ==> (#[trigger] hashes@[j])@.len() >= 2,
            forall|j: int|
                0 <= j < i ==> (#[trigger] out@[j])@ == asset_task(hashes@[j]@, assets_dir@),
        decreases n - i,
    {
        let h = &hashes[i];
        let hn = h.as_str().unicode_len();
        if hn < 2 {
            return Err(FetchError::Parse);
        }
        let prefix = h.as_str().substring_char(0, 2);
        let mut url = String::new();
        url.append("https://resources.download.minecraft.net/");
        url.append(prefix);
        url.append("/");
        url.append(h.as_str());
        let mut path = assets_dir.to_owned();
        path.append("/objects/");
        path.append(prefix);
        path.append("/");
        path.append(h.as_str());
        let task = DownloadTask { url, path, sha1: h.clone() };
        proof {
            assert(task@.url =~= asset_task(hashes@[i as int]@, assets_dir@).url);
            assert(task@.path =~= asset_task(hashes@[i as int]@, assets_dir@).path);
        }
        out.push(task);
        i += 1;
    }
    Ok(out)
}

} // verus!

