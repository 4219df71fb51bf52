//! Serialization of a JSON value tree to wire text.
//!
//! [`text_of`] is the definition of the wire form: integers in decimal,
//! strings quoted with the shortest standard escapes, arrays and objects
//! comma-separated without added whitespace, object entries in build order.

use vstd::prelude::*;
use crate::json::{Json, Jv, jv_of, jv_of_seq, jv_of_entries, lemma_jv_of_seq, lemma_jv_of_entries};

verus! {

broadcast use vstd::std_specs::vec::group_vec_axioms, vstd::seq::group_seq_axioms;

/// The decimal digit character for a value below ten.
pub open spec fn digit_char(d: int) -> char {
    ((48 + d) as u8) as char
}

/// The decimal digits of a non-negative integer, most significant first.
pub open spec fn dec_digits(n: int) -> Seq<char>
    decreases n,
{
    if n < 10 {
        seq![digit_char(n)]
    } else {
        dec_digits(n / 10).push(digit_char(n % 10))
    }
}

/// The wire text of an integer: a minus sign for negatives, then decimal
/// digits.
pub open spec fn int_text(i: int) -> Seq<char> {
    if i < 0 {
        seq!['-'] + dec_digits(-i)
    } else {
        dec_digits(i)
    }
}

/// The lower-case hexadecimal digit character for a value below sixteen.
pub open spec fn hex_char(d: int) -> char {
    if d < 10 {
        digit_char(d)
    } else {
        ((87 + d) as u8) as char
    }
}

/// The escaped wire form of one character inside a JSON string.
pub open spec fn esc_char(c: char) -> Seq<char> {
    if c == '"' {
        seq!['\\', '"']
    } else if c == '\\' {
        seq!['\\', '\\']
    } else if c == '\u{8}' {
        seq!['\\', 'b']
    } else if c == '\u{c}' {
        seq!['\\', 'f']
    } else if c == '\n' {
        seq!['\\', 'n']
    } else if c == '\r' {
        seq!['\\', 'r']
    } else if c == '\t' {
        seq!['\\', 't']
    } else if (c as u32) < 0x20 {
        seq!['\\', 'u', '0', '0', hex_char((c as u32) as int / 16), hex_char((c as u32) as int % 16)]
    } else {
        seq![c]
    }
}

/// The escaped wire form of the characters of a JSON string.
pub open spec fn esc_str(s: Seq<char>) -> Seq<char>
    decreases s,
{
    if s.len() == 0 {
        Seq::empty()
    } else {
        esc_char(s[0]) + esc_str(s.drop_first())
    }
}

/// The wire text of a value.
pub open spec fn text_of(v: Jv) -> Seq<char>
    decreases v,
{
    match v {
        Jv::Null => "null"@,
        Jv::Bool(b) => if b {
            "true"@
        } else {
            "false"@
        },
        Jv::Int(i) => int_text(i),
        Jv::NumText(s) => s,
        Jv::Str(s) => seq!['"'] + esc_str(s) + seq!['"'],
        Jv::Arr(els) => seq!['['] + arr_text(els) + seq![']'],
        Jv::Obj(ms) => seq!['{'] + obj_text(ms) + seq!['}'],
    }
}

/// The comma-separated wire texts of an array's elements.
pub open spec fn arr_text(els: Seq<Jv>) -> Seq<char>
    decreases els,
{
    if els.len() == 0 {
        Seq::empty()
    } else if els.len() == 1 {
        text_of(els[0])
    } else {
        text_of(els[0]) + seq![','] + arr_text(els.drop_first())
    }
}

/// The wire text of one object entry: quoted key, colon, value.
pub open spec fn entry_text(e: (Seq<char>, Jv)) -> Seq<char>
    decreases e,
{
    seq!['"'] + esc_str(e.0) + seq!['"', ':'] + text_of(e.1)
}

/// The comma-separated wire texts of an object's entries.
pub open spec fn obj_text(ms: Seq<(Seq<char>, Jv)>) -> Seq<char>
    decreases ms,
{
    if ms.len() == 0 {
        Seq::empty()
    } else if ms.len() == 1 {
        entry_text(ms[0])
    } else {
        entry_text(ms[0]) + seq![','] + obj_text(ms.drop_first())
    }
}

/// Appending an element extends the joined text by a comma (except first) and
/// the element's text.
proof fn lemma_arr_text_push(els: Seq<Jv>, x: Jv)
    ensures
        arr_text(els.push(x)) == if els.len() == 0 {
            text_of(x)
        } else {
            arr_text(els) + seq![','] + text_of(x)
        },
    decreases els,
{
    if els.len() == 0 {
        assert(els.push(x)[0] == x);
        assert(els.push(x).len() == 1);
        assert(arr_text(els.push(x)) == text_of(x));
    } else {
        lemma_arr_text_push(els.drop_first(), x);
        assert(els.push(x).drop_first() =~= els.drop_first().push(x));
        assert(els.push(x)[0] == els[0]);
        if els.len() == 1 {
            assert(arr_text(els) == text_of(els[0]));
            assert(arr_text(els.push(x)) == text_of(els[0]) + seq![','] + arr_text(
                els.drop_first().push(x),
            ));
            assert(arr_text(els.drop_first().push(x)) == text_of(x));
        } else {
            assert(arr_text(els.push(x)) == text_of(els[0]) + seq![','] + (arr_text(
                els.drop_first(),
            ) + seq![','] + text_of(x)));
            assert(text_of(els[0]) + seq![','] + (arr_text(els.drop_first()) + seq![','] + text_of(
                x,
            )) =~= (text_of(els[0]) + seq![','] + arr_text(els.drop_first())) + seq![','] + text_of(
                x,
            ));
        }
    }
}

/// Appending an entry extends the joined text likewise.
proof fn lemma_obj_text_push(ms: Seq<(Seq<char>, Jv)>, e: (Seq<char>, Jv))
    ensures
        obj_text(ms.push(e)) == if ms.len() == 0 {
            entry_text(e)
        } else {
            obj_text(ms) + seq![','] + entry_text(e)
        },
    decreases ms,
{
    if ms.len() == 0 {
        assert(ms.push(e)[0] == e);
        assert(obj_text(ms.push(e)) == entry_text(e));
    } else {
        lemma_obj_text_push(ms.drop_first(), e);
        assert(ms.push(e).drop_first() =~= ms.drop_first().push(e));
        assert(ms.push(e)[0] == ms[0]);
        if ms.len() == 1 {
            assert(obj_text(ms.push(e)) == entry_text(ms[0]) + seq![','] + obj_text(
                ms.drop_first().push(e),
            ));
        } else {
            assert(entry_text(ms[0]) + seq![','] + (obj_text(ms.drop_first()) + seq![',']
                + entry_text(e)) =~= (entry_text(ms[0]) + seq![','] + obj_text(ms.drop_first()))
                + seq![','] + entry_text(e));
        }
    }
}

/// Appends the decimal digits of `n` to `out`.
fn write_u64(n: u64, out: &mut String)
    ensures
        final(out)@ == old(out)@ + dec_digits(n as int),
    decreases n,
{
    if n < 10 {
        out.push((48 + n as u8) as char);
        assert(out@ =~= old(out)@ + dec_digits(n as int));
    } else {
        write_u64(n / 10, out);
        out.push((48 + (n % 10) as u8) as char);
        assert(out@ =~= old(out)@ + dec_digits(n as int));
    }
}

/// Appends the wire text of the integer `i` to `out`.
pub fn write_int(i: i64, out: &mut String)
    ensures
        final(out)@ == old(out)@ + int_text(i as int),
{
    if i < 0 {
        out.push('-');
        let m: u64 = if i == i64::MIN {
            9223372036854775808u64
        } else {
            (-i) as u64
        };
        assert(m as int == -(i as int));
        write_u64(m, out);
        assert(out@ =~= old(out)@ + int_text(i as int));
    } else {
        write_u64(i as u64, out);
    }
}

/// Appends the quoted, escaped wire form of `s` to `out`.
fn write_quoted(s: &str, out: &mut String)
    ensures
        final(out)@ == old(out)@ + seq!['"'] + esc_str(s@) + seq!['"'],
{
    out.push('"');
    let n = s.unicode_len();
    let mut i: usize = 0;
    while i < n
        invariant
            n == s@.len(),
            i <= n,
            out@ == old(out)@ + seq!['"'] + esc_str(s@.take(i as int)),
        decreases n - i,
    {
        let c = s.get_char(i);
        if c == '"' {
            out.push('\\');
            out.push('"');
        } else if c == '\\' {
            out.push('\\');
            out.push('\\');
        } else if c == '\u{8}' {
            out.push('\\');
            out.push('b');
        } else if c == '\u{c}' {
            out.push('\\');
            out.push('f');
        } else if c == '\n' {
            out.push('\\');
            out.push('n');
        } else if c == '\r' {
            out.push('\\');
            out.push('r');
        } else if c == '\t' {
            out.push('\\');
            out.push('t');
        } else if (c as u32) < 0x20 {
            out.push('\\');
            out.push('u');
            out.push('0');
            out.push('0');
            let hi = (c as u32) / 16;
            let lo = (c as u32) % 16;
            out.push(if hi < 10 {
                (48 + hi as u8) as char
            } else {
                (87 + hi as u8) as char
            });
            out.push(if lo < 10 {
                (48 + lo as u8) as char
            } else {
                (87 + lo as u8) as char
            });
        } else {
            out.push(c);
        }
        proof {
            lemma_esc_str_push(s@, i as int);
            assert(out@ =~= old(out)@ + seq!['"'] + esc_str(s@.take(i as int + 1)));
        }
        i += 1;
    }
    out.push('"');
    proof {
        assert(s@.take(n as int) =~= s@);
        assert(out@ =~= old(out)@ + seq!['"'] + esc_str(s@) + seq!['"']);
    }
}

/// Escaping one more character appends that character's escape.
proof fn lemma_esc_str_push(s: Seq<char>, i: int)
    requires
        0 <= i < s.len(),
    ensures
        esc_str(s.take(i + 1)) == esc_str(s.take(i)) + esc_char(s[i]),
    decreases i,
{
    if i == 0 {
        assert(s.take(1).len() == 1);
        assert(s.take(1)[0] == s[0]);
        assert(s.take(1).drop_first() =~= s.take(0));
        assert(esc_str(s.take(0)) == Seq::<char>::empty());
        assert(esc_str(s.take(1)) =~= esc_char(s[0]));
        assert(esc_str(s.take(0)) + esc_char(s[0]) =~= esc_char(s[0]));
    } else {
        lemma_esc_str_push(s.drop_first(), i - 1);
        assert(s.take(i + 1)[0] == s[0]);
        assert(s.take(i + 1).drop_first() =~= s.drop_first().take(i));
        assert(s.take(i).drop_first() =~= s.drop_first().take(i - 1));
        assert(s.drop_first()[i - 1] == s[i]);
        assert(esc_str(s.take(i + 1)) == esc_char(s[0]) + esc_str(s.drop_first().take(i)));
        assert(esc_str(s.take(i)) == esc_char(s[0]) + esc_str(s.drop_first().take(i - 1)));
        assert(esc_char(s[0]) + (esc_str(s.drop_first().take(i - 1)) + esc_char(s[i])) =~= (esc_char(
            s[0],
        ) + esc_str(s.drop_first().take(i - 1))) + esc_char(s[i]));
    }
}

/// Appends the wire text of `v` to `out`.
pub fn write_value(v: &Json, out: &mut String)
    ensures
        final(out)@ == old(out)@ + text_of(v@),
    decreases *v,
{
    match v {
        Json::Null => {
            out.append("null");
        },
        Json::Bool(b) => {
            if *b {
                out.append("true");
            } else {
                out.append("false");
            }
        },
        Json::Int(i) => {
            write_int(*i, out);
        },
        Json::NumText(s) => {
            out.append(s.as_str());
        },
        Json::Str(s) => {
            write_quoted(s.as_str(), out);
        },
        Json::Arr(els) => {
            out.push('[');
            let ghost evs = jv_of_seq(els@);
            proof {
                lemma_jv_of_seq(els@);
            }
            let mut i: usize = 0;
            while i < els.len()
                invariant
                    *v == Json::Arr(*els),
                    i <= els@.len(),
                    evs == jv_of_seq(els@),
                    evs.len() == els@.len(),
                    forall|j: int| 0 <= j < els@.len() ==> evs[j] == jv_of(els@[j]),
                    out@ == old(out)@ + seq!['['] + arr_text(evs.take(i as int)),
                decreases els@.len() - i,
            {
                if i > 0 {
                    out.push(',');
                }
                proof {
                    assert(decreases_to!(*v => (*v)->Arr_0));
                    assert(decreases_to!((*v)->Arr_0 => (*v)->Arr_0@));
                    assert(decreases_to!((*v)->Arr_0@ => (*v)->Arr_0@[i as int]));
                    assert(decreases_to!(*v => els@[i as int]));
                }
                write_value(&els[i], out);
                proof {
                    lemma_arr_text_push(evs.take(i as int), evs[i as int]);
                    assert(evs.take(i as int).push(evs[i as int]) =~= evs.take(i as int + 1));
                    assert(out@ =~= old(out)@ + seq!['['] + arr_text(evs.take(i as int + 1)));
                }
                i += 1;
            }
            out.push(']');
            proof {
                assert(evs.take(els@.len() as int) =~= evs);
                assert(out@ =~= old(out)@ + text_of(v@));
            }
        },
        Json::Obj(ms) => {
            out.push('{');
            let ghost mvs = jv_of_entries(ms@);
            proof {
                lemma_jv_of_entries(ms@);
            }
            let mut i: usize = 0;
            while i < ms.len()
                invariant
                    *v == Json::Obj(*ms),
                    i <= ms@.len(),
                    mvs == jv_of_entries(ms@),
                    mvs.len() == ms@.len(),
                    forall|j: int|
                        0 <= j < ms@.len() ==> mvs[j] == (ms@[j].0@, jv_of(ms@[j].1)),
                    out@ == old(out)@ + seq!['{'] + obj_text(mvs.take(i as int)),
                decreases ms@.len() - i,
            {
                if i > 0 {
                    out.push(',');
                }
                write_quoted(ms[i].0.as_str(), out);
                out.push(':');
                proof {
                    assert(decreases_to!(*v => (*v)->Obj_0));
                    assert(decreases_to!((*v)->Obj_0 => (*v)->Obj_0@));
                    assert(decreases_to!((*v)->Obj_0@ => (*v)->Obj_0@[i as int]));
                    assert(decreases_to!((*v)->Obj_0@[i as int] => (*v)->Obj_0@[i as int].1));
                    assert(decreases_to!(*v => ms@[i as int].1));
                }
                write_value(&ms[i].1, out);
                proof {
                    lemma_obj_text_push(mvs.take(i as int), mvs[i as int]);
                    assert(mvs.take(i as int).push(mvs[i as int]) =~= mvs.take(i as int + 1));
                    assert(out@ =~= old(out)@ + seq!['{'] + obj_text(mvs.take(i as int + 1)));
                }
                i += 1;
            }
            out.push('}');
            proof {
                assert(mvs.take(ms@.len() as int) =~= mvs);
                assert(out@ =~= old(out)@ + text_of(v@));
            }
        },
    }
}

/// The decimal text of an unsigned value, as a fresh string.
pub fn u64_to_string(n: u64) -> (r: String)
    ensures
        r@ == dec_digits(n as int),
{
    let mut out = String::new();
    write_u64(n, &mut out);
    out
}

/// The wire text of `v` as a fresh string.
pub fn to_text(v: &Json) -> (r: String)
    ensures
        r@ == text_of(v@),
{
    let mut out = String::new();
    write_value(v, &mut out);
    out
}

} // verus!
