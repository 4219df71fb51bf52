//! Parsing of wire text into a JSON value tree.
//!
//! The spec functions here are the grammar: a recursive-descent definition of
//! JSON over a character sequence, each returning the parsed value and the
//! position just past it.  Numbers that are not `i64` integers are kept as
//! their lexeme.  The executable parser is proved to return exactly what the
//! grammar says.

use vstd::prelude::*;
use crate::json::{Json, Jv, jv_of_seq, jv_of_entries, lemma_jv_of_seq_push, lemma_jv_of_entries_push};

verus! {

broadcast use vstd::std_specs::vec::group_vec_axioms, vstd::seq::group_seq_axioms;

/// JSON insignificant whitespace.
pub open spec fn is_ws(c: char) -> bool {
    c == ' ' || c == '\n' || c == '\r' || c == '\t'
}

/// An ASCII decimal digit.
pub open spec fn is_digit(c: char) -> bool {
    48 <= c as u32 <= 57
}

/// The first position at or after `i` that does not hold whitespace.
pub open spec fn ws_after(s: Seq<char>, i: int) -> int
    decreases s.len() - i,
{
    if 0 <= i < s.len() && is_ws(s[i]) {
        ws_after(s, i + 1)
    } else {
        i
    }
}

/// Skipping whitespace stays within the text.
pub proof fn lemma_ws_after(s: Seq<char>, i: int)
    requires
        0 <= i <= s.len(),
    ensures
        i <= ws_after(s, i) <= s.len(),
        forall|j: int| i <= j < ws_after(s, i) ==> is_ws(s[j]),
        ws_after(s, i) < s.len() ==> !is_ws(s[ws_after(s, i)]),
    decreases s.len() - i,
{
    if i < s.len() && is_ws(s[i]) {
        lemma_ws_after(s, i + 1);
    }
}

/// The first position at or after `i` that does not hold a digit.
pub open spec fn digits_end(s: Seq<char>, i: int) -> int
    decreases s.len() - i,
{
    if 0 <= i < s.len() && is_digit(s[i]) {
        digits_end(s, i + 1)
    } else {
        i
    }
}

/// A digit run stays within the text.
pub proof fn lemma_digits_end(s: Seq<char>, i: int)
    requires
        0 <= i <= s.len(),
    ensures
        i <= digits_end(s, i) <= s.len(),
        forall|j: int| i <= j < digits_end(s, i) ==> is_digit(s[j]),
        digits_end(s, i) < s.len() ==> !is_digit(s[digits_end(s, i)]),
    decreases s.len() - i,
{
    if i < s.len() && is_digit(s[i]) {
        lemma_digits_end(s, i + 1);
    }
}

/// The value of the digit run `s[i..j)`.
pub open spec fn digits_val(s: Seq<char>, i: int, j: int) -> int
    decreases j - i,
{
    if i >= j {
        0
    } else {
        digits_val(s, i, j - 1) * 10 + (s[j - 1] as u32 - 48)
    }
}

/// The value of a hexadecimal digit character, if it is one.
pub open spec fn hex_val(c: char) -> Option<int> {
    let u = c as u32;
    if 48 <= u <= 57 {
        Some(u - 48)
    } else if 97 <= u <= 102 {
        Some(u - 87)
    } else if 65 <= u <= 70 {
        Some(u - 55)
    } else {
        None
    }
}

/// The value of the four hexadecimal digits at `s[i..i+4)`.
pub open spec fn hex_quad(s: Seq<char>, i: int) -> Option<int> {
    match (hex_val(s[i]), hex_val(s[i + 1]), hex_val(s[i + 2]), hex_val(s[i + 3])) {
        (Some(a), Some(b), Some(c), Some(d)) => Some(a * 4096 + b * 256 + c * 16 + d),
        _ => None,
    }
}

/// The string body starting at `i` (just after the opening quote): its
/// unescaped characters and the position just past the closing quote.
///
/// Escapes are the standard eight plus `\u`; a high surrogate must be
/// followed by a `\u`-escaped low surrogate, and a lone surrogate or an
/// unescaped control character refuses the string.
pub open spec fn string_at(s: Seq<char>, i: int) -> Option<(Seq<char>, int)>
    decreases s.len() - i, 0int,
{
    if i < 0 || i >= s.len() {
        None
    } else {
        let c = s[i];
        if c == '"' {
            Some((Seq::empty(), i + 1))
        } else if c == '\\' {
            if i + 2 > s.len() {
                None
            } else {
                let e = s[i + 1];
                if e == '"' || e == '\\' || e == '/' {
                    string_tail(s, i + 2, e)
                } else if e == 'b' {
                    string_tail(s, i + 2, '\u{8}')
                } else if e == 'f' {
                    string_tail(s, i + 2, '\u{c}')
                } else if e == 'n' {
                    string_tail(s, i + 2, '\n')
                } else if e == 'r' {
                    string_tail(s, i + 2, '\r')
                } else if e == 't' {
                    string_tail(s, i + 2, '\t')
                } else if e == 'u' {
                    if i + 6 > s.len() {
                        None
                    } else {
                        match hex_quad(s, i + 2) {
                            None => None,
                            Some(cp) => if 0xD800 <= cp < 0xDC00 {
                                if i + 12 > s.len() || s[i + 6] != '\\' || s[i + 7] != 'u' {
                                    None
                                } else {
                                    match hex_quad(s, i + 8) {
                                        None => None,
                                        Some(lo) => if 0xDC00 <= lo < 0xE000 {
                                            string_tail(
                                                s,
                                                i + 12,
                                                ((0x10000 + (cp - 0xD800) * 0x400 + (lo - 0xDC00))
                                                    as u32) as char,
                                            )
                                        } else {
                                            None
                                        },
                                    }
                                }
                            } else if 0xDC00 <= cp < 0xE000 {
                                None
                            } else {
                                string_tail(s, i + 6, (cp as u32) as char)
                            },
                        }
                    }
                } else {
                    None
                }
            }
        } else if (c as u32) < 0x20 {
            None
        } else {
            string_tail(s, i + 1, c)
        }
    }
}

/// One unescaped character followed by the rest of a string body.
pub open spec fn string_tail(s: Seq<char>, i: int, c: char) -> Option<(Seq<char>, int)>
    decreases s.len() - i, 1int,
{
    match string_at(s, i) {
        Some((t, j)) => Some((seq![c] + t, j)),
        None => None,
    }
}

/// The number starting at `i`: an `i64` integer becomes [`Jv::Int`]; a
/// fractional, exponential or out-of-range number keeps its lexeme.
pub open spec fn number_at(s: Seq<char>, i: int) -> Option<(Jv, int)> {
    if i < 0 || i >= s.len() {
        None
    } else {
        let neg = s[i] == '-';
        let d = if neg {
            i + 1
        } else {
            i
        };
        if d >= s.len() || !is_digit(s[d]) {
            None
        } else {
            let de = digits_end(s, d);
            if s[d] == '0' && de > d + 1 {
                None
            } else {
                let fe = if de < s.len() && s[de] == '.' {
                    if digits_end(s, de + 1) == de + 1 {
                        -1
                    } else {
                        digits_end(s, de + 1)
                    }
                } else {
                    de
                };
                if fe < 0 {
                    None
                } else {
                    let q = if fe < s.len() && (s[fe] == 'e' || s[fe] == 'E') {
                        let x = if fe + 1 < s.len() && (s[fe + 1] == '+' || s[fe + 1] == '-') {
                            fe + 2
                        } else {
                            fe + 1
                        };
                        if digits_end(s, x) == x {
                            -1
                        } else {
                            digits_end(s, x)
                        }
                    } else {
                        fe
                    };
                    if q < 0 {
                        None
                    } else if q == de {
                        let val = digits_val(s, d, de);
                        if neg && val <= 0x8000_0000_0000_0000 {
                            Some((Jv::Int(-val), de))
                        } else if !neg && val < 0x8000_0000_0000_0000 {
                            Some((Jv::Int(val), de))
                        } else {
                            Some((Jv::NumText(s.subrange(i, de)), de))
                        }
                    } else {
                        Some((Jv::NumText(s.subrange(i, q)), q))
                    }
                }
            }
        }
    }
}

/// The value starting at `i`, which must not hold whitespace; returns the
/// value and the position just past it.
pub open spec fn value_at(s: Seq<char>, i: int) -> Option<(Jv, int)>
    decreases s.len() - i, 0int,
{
    if i < 0 || i >= s.len() {
        None
    } else {
        let c = s[i];
        if c == 'n' {
            if i + 4 <= s.len() && s.subrange(i, i + 4) == "null"@ {
                Some((Jv::Null, i + 4))
            } else {
                None
            }
        } else if c == 't' {
            if i + 4 <= s.len() && s.subrange(i, i + 4) == "true"@ {
                Some((Jv::Bool(true), i + 4))
            } else {
                None
            }
        } else if c == 'f' {
            if i + 5 <= s.len() && s.subrange(i, i + 5) == "false"@ {
                Some((Jv::Bool(false), i + 5))
            } else {
                None
            }
        } else if c == '"' {
            match string_at(s, i + 1) {
                Some((t, j)) => Some((Jv::Str(t), j)),
                None => None,
            }
        } else if c == '[' {
            let j = ws_after(s, i + 1);
            if j < s.len() && s[j] == ']' {
                Some((Jv::Arr(Seq::empty()), j + 1))
            } else if i < j <= s.len() {
                match elements_at(s, j) {
                    Some((els, e)) => Some((Jv::Arr(els), e)),
                    None => None,
                }
            } else {
                None
            }
        } else if c == '{' {
            let j = ws_after(s, i + 1);
            if j < s.len() && s[j] == '}' {
                Some((Jv::Obj(Seq::empty()), j + 1))
            } else if i < j <= s.len() {
                match members_at(s, j) {
                    Some((ms, e)) => Some((Jv::Obj(ms), e)),
                    None => None,
                }
            } else {
                None
            }
        } else if c == '-' || is_digit(c) {
            number_at(s, i)
        } else {
            None
        }
    }
}

/// The elements of a non-empty array, starting at the first element's first
/// character; returns the elements and the position just past the closing
/// bracket.
pub open spec fn elements_at(s: Seq<char>, i: int) -> Option<(Seq<Jv>, int)>
    decreases s.len() - i, 1int,
{
    match value_at(s, i) {
        None => None,
        Some((v, j)) => {
            let k = ws_after(s, if j < 0 {
                0
            } else {
                j
            });
            if !(i < k < s.len()) {
                None
            } else if s[k] == ',' {
                let m = ws_after(s, k + 1);
                if !(k < m <= s.len()) {
                    None
                } else {
                    match elements_at(s, m) {
                        Some((rest, e)) => Some((seq![v] + rest, e)),
                        None => None,
                    }
                }
            } else if s[k] == ']' {
                Some((seq![v], k + 1))
            } else {
                None
            }
        },
    }
}

/// The entries of a non-empty object, starting at the first key's opening
/// quote; returns the entries and the position just past the closing brace.
pub open spec fn members_at(s: Seq<char>, i: int) -> Option<(Seq<(Seq<char>, Jv)>, int)>
    decreases s.len() - i, 1int,
{
    if !(0 <= i < s.len() && s[i] == '"') {
        None
    } else {
        match string_at(s, i + 1) {
            None => None,
            Some((key, j)) => {
                let k = ws_after(s, if j < 0 {
                    0
                } else {
                    j
                });
                if !(i < k < s.len() && s[k] == ':') {
                    None
                } else {
                    let m = ws_after(s, k + 1);
                    if !(i < m <= s.len()) {
                        None
                    } else {
                        match value_at(s, m) {
                            None => None,
                            Some((v, p)) => {
                                let q = ws_after(s, if p < 0 {
                                    0
                                } else {
                                    p
                                });
                                if !(m < q < s.len()) {
                                    None
                                } else if s[q] == ',' {
                                    let r = ws_after(s, q + 1);
                                    if !(q < r <= s.len()) {
                                        None
                                    } else {
                                        match members_at(s, r) {
                                            Some((rest, e)) => Some(
                                                (seq![(key, v)] + rest, e),
                                            ),
                                            None => None,
                                        }
                                    }
                                } else if s[q] == '}' {
                                    Some((seq![(key, v)], q + 1))
                                } else {
                                    None
                                }
                            },
                        }
                    }
                }
            },
        }
    }
}

/// A whole document: one value, surrounded by whitespace only.
pub open spec fn document(s: Seq<char>) -> Option<Jv> {
    match value_at(s, ws_after(s, 0)) {
        None => None,
        Some((v, j)) => if ws_after(s, if j < 0 {
            0
        } else {
            j
        }) == s.len() {
            Some(v)
        } else {
            None
        },
    }
}


/// Skips whitespace from `i`.
fn ws_skip(s: &Vec<char>, i: usize) -> (r: usize)
    requires
        i <= s@.len(),
    ensures
        r as int == ws_after(s@, i as int),
        i <= r <= s@.len(),
{
    let mut cur: usize = i;
    while cur < s.len() && (s[cur] == ' ' || s[cur] == '\n' || s[cur] == '\r' || s[cur] == '\t')
        invariant
            i <= cur <= s@.len(),
            ws_after(s@, i as int) == ws_after(s@, cur as int),
        decreases s@.len() - cur,
    {
        cur += 1;
    }
    cur
}

/// Skips decimal digits from `i`.
fn digits_skip(s: &Vec<char>, i: usize) -> (r: usize)
    requires
        i <= s@.len(),
    ensures
        r as int == digits_end(s@, i as int),
        i <= r <= s@.len(),
{
    let mut cur: usize = i;
    while cur < s.len() && 48 <= s[cur] as u32 && s[cur] as u32 <= 57
        invariant
            i <= cur <= s@.len(),
            digits_end(s@, i as int) == digits_end(s@, cur as int),
        decreases s@.len() - cur,
    {
        cur += 1;
    }
    cur
}


/// The value of a hexadecimal digit character, if it is one.
fn hexv(c: char) -> (r: Option<u32>)
    ensures
        match r {
            Some(v) => hex_val(c) == Some(v as int),
            None => hex_val(c) is None,
        },
{
    let u = c as u32;
    if 48 <= u && u <= 57 {
        Some(u - 48)
    } else if 97 <= u && u <= 102 {
        Some(u - 87)
    } else if 65 <= u && u <= 70 {
        Some(u - 55)
    } else {
        None
    }
}

/// The value of the four hexadecimal digits at `s[i..i+4)`.
fn hex_quad_at(s: &Vec<char>, i: usize) -> (r: Option<u32>)
    requires
        i + 4 <= s@.len(),
    ensures
        match r {
            Some(v) => hex_quad(s@, i as int) == Some(v as int) && v < 0x10000,
            None => hex_quad(s@, i as int) is None,
        },
{
    let n = s.len();
    let a = hexv(s[i]);
    let b = hexv(s[i + 1]);
    let c = hexv(s[i + 2]);
    let d = hexv(s[i + 3]);
    match (a, b, c, d) {
        (Some(a), Some(b), Some(c), Some(d)) => Some(a * 4096 + b * 256 + c * 16 + d),
        _ => None,
    }
}

/// The string body starting at `i` (just after the opening quote), as the
/// grammar's [`string_at`] gives it.
fn parse_string_at(s: &Vec<char>, i: usize) -> (r: Option<(String, usize)>)
    requires
        i <= s@.len(),
    ensures
        match r {
            Some(tj) => string_at(s@, i as int) == Some((tj.0@, tj.1 as int)) && i < tj.1
                <= s@.len(),
            None => string_at(s@, i as int) is None,
        },
{
    let mut acc = String::new();
    let mut cur: usize = i;
    loop
        invariant
            i <= cur <= s@.len(),
            string_at(s@, i as int) == (match string_at(s@, cur as int) {
                Some((t, j)) => Some((acc@ + t, j)),
                None => None::<(Seq<char>, int)>,
            }),
        decreases s@.len() - cur,
    {
        if cur >= s.len() {
            return None;
        }
        let c = s[cur];
        if c == '"' {
            proof {
                assert(acc@ + Seq::<char>::empty() =~= acc@);
            }
            return Some((acc, cur + 1));
        } else if c == '\\' {
            if s.len() - cur < 2 {
                return None;
            }
            let e = s[cur + 1];
            let step: usize;
            let unescaped: char;
            if e == '"' || e == '\\' || e == '/' {
                step = 2;
                unescaped = e;
            } else if e == 'b' {
                step = 2;
                unescaped = '\u{8}';
            } else if e == 'f' {
                step = 2;
                unescaped = '\u{c}';
            } else if e == 'n' {
                step = 2;
                unescaped = '\n';
            } else if e == 'r' {
                step = 2;
                unescaped = '\r';
            } else if e == 't' {
                step = 2;
                unescaped = '\t';
            } else if e == 'u' {
                if s.len() - cur < 6 {
                    return None;
                }
                let cp = match hex_quad_at(s, cur + 2) {
                    Some(v) => v,
                    None => {
                        return None;
                    },
                };
                if 0xD800 <= cp && cp < 0xDC00 {
                    if s.len() - cur < 12 {
                        return None;
                    }
                    if s[cur + 6] != '\\' || s[cur + 7] != 'u' {
                        return None;
                    }
                    let lo = match hex_quad_at(s, cur + 8) {
                        Some(v) => v,
                        None => {
                            return None;
                        },
                    };
                    if !(0xDC00 <= lo && lo < 0xE000) {
                        return None;
                    }
                    let cp2: u32 = 0x10000 + (cp - 0xD800) * 0x400 + (lo - 0xDC00);
                    let ch = match char::from_u32(cp2) {
                        Some(ch) => ch,
                        None => {
                            proof {
                                assert(false);
                            }
                            return None;
                        },
                    };
                    proof {
                        vstd::utf8::char_u32_cast(ch, cp2);
                    }
                    step = 12;
                    unescaped = ch;
                } else if 0xDC00 <= cp && cp < 0xE000 {
                    return None;
                } else {
                    let ch = match char::from_u32(cp) {
                        Some(ch) => ch,
                        None => {
                            proof {
                                assert(false);
                            }
                            return None;
                        },
                    };
                    proof {
                        vstd::utf8::char_u32_cast(ch, cp);
                    }
                    step = 6;
                    unescaped = ch;
                }
            } else {
                return None;
            }
            proof {
                assert(string_at(s@, cur as int) == string_tail(
                    s@,
                    cur as int + step as int,
                    unescaped,
                ));
            }
            step_string(s, i, &mut acc, &mut cur, step, unescaped);
        } else if (c as u32) < 0x20 {
            return None;
        } else {
            proof {
                assert(string_at(s@, cur as int) == string_tail(s@, cur as int + 1, c));
            }
            step_string(s, i, &mut acc, &mut cur, 1, c);
        }
    }
}

/// Consumes one source step that unescapes to `c`, keeping the running
/// relation between the grammar and the accumulated characters.
fn step_string(s: &Vec<char>, i: usize, acc: &mut String, cur: &mut usize, step: usize, c: char)
    requires
        i <= *old(cur) <= s@.len(),
        *old(cur) + step <= s@.len(),
        1 <= step,
        string_at(s@, i as int) == (match string_tail(s@, *old(cur) + step, c) {
            Some((t, j)) => Some((old(acc)@ + t, j)),
            None => None::<(Seq<char>, int)>,
        }),
    ensures
        *final(cur) == *old(cur) + step,
        i <= *final(cur) <= s@.len(),
        string_at(s@, i as int) == (match string_at(s@, *final(cur) as int) {
            Some((t, j)) => Some((final(acc)@ + t, j)),
            None => None::<(Seq<char>, int)>,
        }),
{
    let n = s.len();
    acc.push(c);
    *cur = *cur + step;
    proof {
        let tail = string_at(s@, *cur as int);
        match tail {
            Some((t, j)) => {
                assert(string_tail(s@, *cur as int, c) == Some((seq![c] + t, j)));
                assert(old(acc)@ + (seq![c] + t) =~= old(acc)@.push(c) + t);
            },
            None => {
                assert(string_tail(s@, *cur as int, c) is None);
            },
        }
    }
}


/// The number starting at `i`, as the grammar's [`number_at`] gives it.
fn parse_number_at(s: &Vec<char>, i: usize) -> (r: Option<(Json, usize)>)
    requires
        i <= s@.len(),
    ensures
        match r {
            Some(vj) => number_at(s@, i as int) == Some((vj.0@, vj.1 as int)) && i < vj.1
                <= s@.len(),
            None => number_at(s@, i as int) is None,
        },
{
    let n = s.len();
    if i >= n {
        return None;
    }
    let neg = s[i] == '-';
    let d: usize = if neg {
        i + 1
    } else {
        i
    };
    if d >= n {
        return None;
    }
    if !(48 <= s[d] as u32 && s[d] as u32 <= 57) {
        return None;
    }
    let de = digits_skip(s, d);
    proof {
        lemma_digits_end(s@, d as int);
    }
    if s[d] == '0' && de > d + 1 {
        return None;
    }
    let mut fe: usize = de;
    if de < n && s[de] == '.' {
        let t = digits_skip(s, de + 1);
        if t == de + 1 {
            return None;
        }
        fe = t;
    }
    let mut q: usize = fe;
    if fe < n && (s[fe] == 'e' || s[fe] == 'E') {
        let x: usize = if fe + 1 < n && (s[fe + 1] == '+' || s[fe + 1] == '-') {
            fe + 2
        } else {
            fe + 1
        };
        let t = digits_skip(s, x);
        if t == x {
            return None;
        }
        q = t;
    }
    if q == de {
        let mut acc: u128 = 0;
        let mut big = false;
        let mut k: usize = d;
        while k < de
            invariant
                d <= k <= de <= s@.len(),
                forall|j: int| d <= j < de ==> is_digit(s@[j]),
                !big ==> acc == digits_val(s@, d as int, k as int) && acc
                    <= 0x8000_0000_0000_0000,
                big ==> digits_val(s@, d as int, k as int) > 0x8000_0000_0000_0000,
            decreases de - k,
        {
            let dg: u128 = (s[k] as u32 - 48) as u128;
            if !big {
                let nv: u128 = acc * 10 + dg;
                if nv > 0x8000_0000_0000_0000 {
                    big = true;
                } else {
                    acc = nv;
                }
            }
            k += 1;
        }
        if neg {
            if big {
                let lex = crate::strings::chars_to_string(s, i, de);
                return Some((Json::NumText(lex), de));
            }
            let v: i64 = if acc == 0x8000_0000_0000_0000 {
                i64::MIN
            } else {
                -(acc as i64)
            };
            return Some((Json::Int(v), de));
        } else {
            if big || acc == 0x8000_0000_0000_0000 {
                let lex = crate::strings::chars_to_string(s, i, de);
                return Some((Json::NumText(lex), de));
            }
            return Some((Json::Int(acc as i64), de));
        }
    } else {
        let lex = crate::strings::chars_to_string(s, i, q);
        return Some((Json::NumText(lex), q));
    }
}


/// The value starting at `i`, as the grammar's [`value_at`] gives it.
fn parse_value_at(s: &Vec<char>, i: usize) -> (r: Option<(Json, usize)>)
    requires
        i <= s@.len(),
    ensures
        match r {
            Some(vj) => value_at(s@, i as int) == Some((vj.0@, vj.1 as int)) && i < vj.1
                <= s@.len(),
            None => value_at(s@, i as int) is None,
        },
    decreases s@.len() - i,
{
    let n = s.len();
    if i >= n {
        return None;
    }
    let c = s[i];
    if c == 'n' {
        proof {
            reveal_strlit("null");
        }
        if n - i >= 4 && s[i + 1] == 'u' && s[i + 2] == 'l' && s[i + 3] == 'l' {
            proof {
                assert(s@.subrange(i as int, i as int + 4) =~= "null"@);
            }
            return Some((Json::Null, i + 4));
        }
        proof {
            if i as int + 4 <= s@.len() {
                let sub = s@.subrange(i as int, i as int + 4);
                assert(sub[1] == s@[i as int + 1] && sub[2] == s@[i as int + 2] && sub[3]
                    == s@[i as int + 3]);
                assert(sub != "null"@);
            }
        }
        return None;
    } else if c == 't' {
        proof {
            reveal_strlit("true");
        }
        if n - i >= 4 && s[i + 1] == 'r' && s[i + 2] == 'u' && s[i + 3] == 'e' {
            proof {
                assert(s@.subrange(i as int, i as int + 4) =~= "true"@);
            }
            return Some((Json::Bool(true), i + 4));
        }
        proof {
            if i as int + 4 <= s@.len() {
                let sub = s@.subrange(i as int, i as int + 4);
                assert(sub[1] == s@[i as int + 1] && sub[2] == s@[i as int + 2] && sub[3]
                    == s@[i as int + 3]);
                assert(sub != "true"@);
            }
        }
        return None;
    } else if c == 'f' {
        proof {
            reveal_strlit("false");
        }
        if n - i >= 5 && s[i + 1] == 'a' && s[i + 2] == 'l' && s[i + 3] == 's' && s[i + 4] == 'e' {
            proof {
                assert(s@.subrange(i as int, i as int + 5) =~= "false"@);
            }
            return Some((Json::Bool(false), i + 5));
        }
        proof {
            if i as int + 5 <= s@.len() {
                let sub = s@.subrange(i as int, i as int + 5);
                assert(sub[1] == s@[i as int + 1] && sub[2] == s@[i as int + 2] && sub[3]
                    == s@[i as int + 3] && sub[4] == s@[i as int + 4]);
                assert(sub != "false"@);
            }
        }
        return None;
    } else if c == '"' {
        match parse_string_at(s, i + 1) {
            Some((t, j)) => {
                return Some((Json::Str(t), j));
            },
            None => {
                return None;
            },
        }
    } else if c == '[' {
        let j = ws_skip(s, i + 1);
        if j < n && s[j] == ']' {
            proof {
                assert(jv_of_seq(Seq::<Json>::empty()) =~= Seq::<Jv>::empty());
            }
            return Some((Json::Arr(Vec::new()), j + 1));
        }
        let mut els: Vec<Json> = Vec::new();
        let mut cur: usize = j;
        loop
            invariant
                n == s@.len(),
                i < n,
                s@[i as int] == '[',
                j as int == ws_after(s@, i as int + 1),
                i < j <= n,
                !(j < n && s@[j as int] == ']'),
                i < cur <= n,
                elements_at(s@, j as int) == (match elements_at(s@, cur as int) {
                    Some((rest, e)) => Some((jv_of_seq(els@) + rest, e)),
                    None => None::<(Seq<Jv>, int)>,
                }),
            decreases s@.len() - cur,
        {
            let rv = parse_value_at(s, cur);
            match rv {
                None => {
                    return None;
                },
                Some((v, j2)) => {
                    let k = ws_skip(s, j2);
                    if !(k < n) {
                        return None;
                    }
                    if s[k] == ',' {
                        let m = ws_skip(s, k + 1);
                        proof {
                            let lifted = elements_at(s@, m as int);
                            lemma_jv_of_seq_push(els@, v);
                            match lifted {
                                Some((rest, e)) => {
                                    assert(jv_of_seq(els@) + (seq![v@] + rest) =~= jv_of_seq(
                                        els@.push(v),
                                    ) + rest);
                                },
                                None => {},
                            }
                        }
                        els.push(v);
                        cur = m;
                    } else if s[k] == ']' {
                        proof {
                            lemma_jv_of_seq_push(els@, v);
                            assert(jv_of_seq(els@) + seq![v@] =~= jv_of_seq(els@.push(v)));
                        }
                        els.push(v);
                        return Some((Json::Arr(els), k + 1));
                    } else {
                        return None;
                    }
                },
            }
        }
    } else if c == '{' {
        let j = ws_skip(s, i + 1);
        if j < n && s[j] == '}' {
            proof {
                assert(jv_of_entries(Seq::<(String, Json)>::empty()) =~= Seq::<
                    (Seq<char>, Jv),
                >::empty());
            }
            return Some((Json::Obj(Vec::new()), j + 1));
        }
        let mut ms: Vec<(String, Json)> = Vec::new();
        let mut cur: usize = j;
        loop
            invariant
                n == s@.len(),
                i < n,
                s@[i as int] == '{',
                j as int == ws_after(s@, i as int + 1),
                i < j <= n,
                !(j < n && s@[j as int] == '}'),
                i < cur <= n,
                members_at(s@, j as int) == (match members_at(s@, cur as int) {
                    Some((rest, e)) => Some((jv_of_entries(ms@) + rest, e)),
                    None => None::<(Seq<(Seq<char>, Jv)>, int)>,
                }),
            decreases s@.len() - cur,
        {
            if !(cur < n && s[cur] == '"') {
                return None;
            }
            let key = match parse_string_at(s, cur + 1) {
                Some((t, j2)) => (t, j2),
                None => {
                    return None;
                },
            };
            let (key, j2) = key;
            let k = ws_skip(s, j2);
            if !(k < n && s[k] == ':') {
                return None;
            }
            let m = ws_skip(s, k + 1);
            let rv = parse_value_at(s, m);
            match rv {
                None => {
                    return None;
                },
                Some((v, p)) => {
                    let q = ws_skip(s, p);
                    if !(q < n) {
                        return None;
                    }
                    if s[q] == ',' {
                        let r2 = ws_skip(s, q + 1);
                        proof {
                            let lifted = members_at(s@, r2 as int);
                            lemma_jv_of_entries_push(ms@, key, v);
                            match lifted {
                                Some((rest, e)) => {
                                    assert(jv_of_entries(ms@) + (seq![(key@, v@)] + rest)
                                        =~= jv_of_entries(ms@.push((key, v))) + rest);
                                },
                                None => {},
                            }
                        }
                        ms.push((key, v));
                        cur = r2;
                    } else if s[q] == '}' {
                        proof {
                            lemma_jv_of_entries_push(ms@, key, v);
                            assert(jv_of_entries(ms@) + seq![(key@, v@)] =~= jv_of_entries(
                                ms@.push((key, v)),
                            ));
                        }
                        ms.push((key, v));
                        return Some((Json::Obj(ms), q + 1));
                    } else {
                        return None;
                    }
                },
            }
        }
    } else if c == '-' || (48 <= c as u32 && c as u32 <= 57) {
        return parse_number_at(s, i);
    } else {
        return None;
    }
}

/// Parses a whole document, as the grammar's [`document`] gives it.
pub fn parse_document(s: &str) -> (r: Option<Json>)
    ensures
        match r {
            Some(v) => document(s@) == Some(v@),
            None => document(s@) is None,
        },
{
    let chars = crate::strings::str_to_chars(s);
    let i = ws_skip(&chars, 0);
    match parse_value_at(&chars, i) {
        None => None,
        Some((v, j)) => {
            let e = ws_skip(&chars, j);
            if e == chars.len() {
                Some(v)
            } else {
                None
            }
        },
    }
}

} // verus!
