//! A verified JSON emitter for [`Value`] trees: the exact character
//! sequence of every outbound request body is pinned by specification,
//! so the transport only moves bytes.
//!
//! Strings are escaped as the wire demands: quote, backslash and the
//! common control characters by their two-character forms, any other
//! control character as a `\u00..` sequence.  A `Num` value carries a
//! JSON number literal and is emitted verbatim.

use vstd::prelude::*;
use vstd::string::{StrSliceExecFns, StringExecFns};
use crate::value::Value;

verus! {

/// The character for one digit value, hexadecimal included.
pub open spec fn digit_char(n: int) -> char {
    if n == 0 {
        '0'
    } else if n == 1 {
        '1'
    } else if n == 2 {
        '2'
    } else if n == 3 {
        '3'
    } else if n == 4 {
        '4'
    } else if n == 5 {
        '5'
    } else if n == 6 {
        '6'
    } else if n == 7 {
        '7'
    } else if n == 8 {
        '8'
    } else if n == 9 {
        '9'
    } else if n == 10 {
        'a'
    } else if n == 11 {
        'b'
    } else if n == 12 {
        'c'
    } else if n == 13 {
        'd'
    } else if n == 14 {
        'e'
    } else {
        'f'
    }
}

/// The escape of one string character.
pub open spec fn esc_char(c: char) -> Seq<char> {
    if c == '"' {
        seq!['\\', '"']
    } else if c == '\\' {
        seq!['\\', '\\']
    } else if c == '\n' {
        seq!['\\', 'n']
    } else if c == '\r' {
        seq!['\\', 'r']
    } else if c == '\t' {
        seq!['\\', 't']
    } else if c == '\u{8}' {
        seq!['\\', 'b']
    } else if c == '\u{c}' {
        seq!['\\', 'f']
    } else if (c as int) < 32 {
        seq!['\\', 'u', '0', '0', digit_char((c as int) / 16), digit_char((c as int) % 16)]
    } else {
        seq![c]
    }
}

/// The escape of a whole string, character by character.
pub open spec fn esc_seq(s: Seq<char>) -> Seq<char>
    decreases s.len(),
{
    if s.len() == 0 {
        Seq::empty()
    } else {
        esc_seq(s.drop_last()) + esc_char(s.last())
    }
}

/// The decimal representation of a non-negative integer.
pub open spec fn dec_rep(n: int) -> Seq<char>
    decreases n,
{
    if n < 10 {
        seq![digit_char(n)]
    } else {
        dec_rep(n / 10) + seq![digit_char(n % 10)]
    }
}

/// The decimal representation of an integer, sign included.
pub open spec fn int_rep(i: int) -> Seq<char> {
    if i >= 0 {
        dec_rep(i)
    } else {
        seq!['-'] + dec_rep(-i)
    }
}

/// The JSON text of a value.
pub open spec fn json_of(v: Value) -> Seq<char>
    decreases v, 0int,
{
    match v {
        Value::Null => "null"@,
        Value::Bool(b) => if b {
            "true"@
        } else {
            "false"@
        },
        Value::Int(i) => int_rep(i as int),
        Value::Num(s) => s@,
        Value::Text(s) => seq!['"'] + esc_seq(s@) + seq!['"'],
        Value::Arr(items) => seq!['['] + arr_rep(items@, items@.len() as int) + seq![']'],
        Value::Obj(fields) => seq!['{'] + obj_rep(fields@, fields@.len() as int) + seq!['}'],
    }
}

/// The JSON text of the first `n` array items, comma-separated.
pub open spec fn arr_rep(items: Seq<Value>, n: int) -> Seq<char>
    decreases items, n,
{
    if n <= 0 || n > items.len() {
        Seq::empty()
    } else {
        arr_rep(items, n - 1) + (if n > 1 {
            seq![',']
        } else {
            Seq::empty()
        }) + json_of(items[n - 1])
    }
}

/// The JSON text of the first `n` object fields, comma-separated, each
/// an escaped key and its value.
pub open spec fn obj_rep(fields: Seq<(String, Value)>, n: int) -> Seq<char>
    decreases fields, n,
{
    if n <= 0 || n > fields.len() {
        Seq::empty()
    } else {
        obj_rep(fields, n - 1) + (if n > 1 {
            seq![',']
        } else {
            Seq::empty()
        }) + seq!['"'] + esc_seq(fields[n - 1].0@) + seq!['"', ':'] + json_of(fields[n - 1].1)
    }
}

/// Relies on `String::push`: appends exactly the one character.
#[verifier::external_body]
fn push_char(s: &mut String, c: char)
    ensures
        final(s)@ == old(s)@.push(c),
{
    s.push(c);
}

/// The character for one digit value.
fn digit_char_of(n: u32) -> (c: char)
    requires
        n < 16,
    ensures
        c == digit_char(n as int),
{
    if n == 0 {
        '0'
    } else if n == 1 {
        '1'
    } else if n == 2 {
        '2'
    } else if n == 3 {
        '3'
    } else if n == 4 {
        '4'
    } else if n == 5 {
        '5'
    } else if n == 6 {
        '6'
    } else if n == 7 {
        '7'
    } else if n == 8 {
        '8'
    } else if n == 9 {
        '9'
    } else if n == 10 {
        'a'
    } else if n == 11 {
        'b'
    } else if n == 12 {
        'c'
    } else if n == 13 {
        'd'
    } else if n == 14 {
        'e'
    } else {
        'f'
    }
}

/// Appends the escape of one character.
fn push_escaped_char(out: &mut String, c: char)
    ensures
        final(out)@ == old(out)@ + esc_char(c),
{
    if c == '"' {
        push_char(out, '\\');
        push_char(out, '"');
    } else if c == '\\' {
        push_char(out, '\\');
        push_char(out, '\\');
    } else if c == '\n' {
        push_char(out, '\\');
        push_char(out, 'n');
    } else if c == '\r' {
        push_char(out, '\\');
        push_char(out, 'r');
    } else if c == '\t' {
        push_char(out, '\\');
        push_char(out, 't');
    } else if c == '\u{8}' {
        push_char(out, '\\');
        push_char(out, 'b');
    } else if c == '\u{c}' {
        push_char(out, '\\');
        push_char(out, 'f');
    } else if (c as u32) < 32 {
        push_char(out, '\\');
        push_char(out, 'u');
        push_char(out, '0');
        push_char(out, '0');
        push_char(out, digit_char_of((c as u32) / 16));
        push_char(out, digit_char_of((c as u32) % 16));
    } else {
        push_char(out, c);
    }
    proof {
        assert(out@ =~= old(out)@ + esc_char(c));
    }
}

/// Appends the escaped form of a whole string.
fn push_escaped(out: &mut String, s: &str)
    ensures
        final(out)@ == old(out)@ + esc_seq(s@),
{
    let n: usize = s.unicode_len();
    let mut i: usize = 0;
    while i < n
        invariant
            n == s@.len(),
            i <= n,
            out@ == old(out)@ + esc_seq(s@.take(i as int)),
        decreases n - i,
    {
        let c: char = s.get_char(i);
        push_escaped_char(out, c);
        proof {
            assert(s@.take(i + 1 as int).drop_last() =~= s@.take(i as int));
            assert(s@.take(i + 1 as int).last() == s@[i as int]);
            assert(out@ =~= old(out)@ + esc_seq(s@.take(i + 1 as int)));
        }
        i = i + 1;
    }
    proof {
        assert(s@.take(n as int) =~= s@);
    }
}

/// Appends the decimal representation of a non-negative integer.
fn push_u64(out: &mut String, n: u64)
    ensures
        final(out)@ == old(out)@ + dec_rep(n as int),
    decreases n,
{
    if n >= 10 {
        push_u64(out, n / 10);
    }
    push_char(out, digit_char_of((n % 10) as u32));
    proof {
        assert(out@ =~= old(out)@ + dec_rep(n as int));
    }
}

/// Appends the decimal representation of an integer, sign included.
fn push_i64(out: &mut String, i: i64)
    ensures
        final(out)@ == old(out)@ + int_rep(i as int),
{
    if i >= 0 {
        push_u64(out, i as u64);
    } else {
        push_char(out, '-');
        let magnitude: u64 = ((-(i + 1)) as u64) + 1;
        proof {
            assert(magnitude == -(i as int));
        }
        push_u64(out, magnitude);
        proof {
            assert(out@ =~= old(out)@ + int_rep(i as int));
        }
    }
}

/// Appends the JSON text of a value.
#[verifier::loop_isolation(false)]
fn push_json(out: &mut String, v: &Value)
    ensures
        final(out)@ == old(out)@ + json_of(*v),
    decreases v,
{
    match v {
        Value::Null => {
            out.append("null");
        },
        Value::Bool(b) => {
            if *b {
                out.append("true");
            } else {
                out.append("false");
            }
        },
        Value::Int(i) => {
            push_i64(out, *i);
        },
        Value::Num(s) => {
            out.append(s.as_str());
        },
        Value::Text(s) => {
            push_char(out, '"');
            push_escaped(out, s.as_str());
            push_char(out, '"');
            proof {
                assert(out@ =~= old(out)@ + json_of(*v));
            }
        },
        Value::Arr(items) => {
            push_char(out, '[');
            proof {
                assert(out@ =~= old(out)@ + seq!['['] + arr_rep(items@, 0int));
            }
            let mut i: usize = 0;
            while i < items.len()
                invariant
                    i <= items.len(),
                    out@ == old(out)@ + seq!['['] + arr_rep(items@, i as int),
                decreases items.len() - i,
            {
                if i > 0 {
                    push_char(out, ',');
                }
                proof {
                    assert(decreases_to!(*v => (*v)->Arr_0));
                    assert(decreases_to!(*items => items@));
                    assert(decreases_to!(items@ => items@[i as int]));
                }
                push_json(out, &items[i]);
                proof {
                    assert(out@ =~= old(out)@ + seq!['['] + arr_rep(items@, i + 1 as int));
                }
                i = i + 1;
            }
            push_char(out, ']');
            proof {
                assert(out@ =~= old(out)@ + json_of(*v));
            }
        },
        Value::Obj(fields) => {
            push_char(out, '{');
            proof {
                assert(out@ =~= old(out)@ + seq!['{'] + obj_rep(fields@, 0int));
            }
            let mut i: usize = 0;
            while i < fields.len()
                invariant
                    i <= fields.len(),
                    out@ == old(out)@ + seq!['{'] + obj_rep(fields@, i as int),
                decreases fields.len() - i,
            {
                if i > 0 {
                    push_char(out, ',');
                }
                push_char(out, '"');
                push_escaped(out, fields[i].0.as_str());
                push_char(out, '"');
                push_char(out, ':');
                proof {
                    assert(decreases_to!(*v => (*v)->Obj_0));
                    assert(decreases_to!(*fields => fields@));
                    assert(decreases_to!(fields@ => fields@[i as int]));
                    assert(decreases_to!(fields@[i as int] => fields@[i as int].1));
                }
                push_json(out, &fields[i].1);
                proof {
                    assert(out@ =~= old(out)@ + seq!['{'] + obj_rep(fields@, i + 1 as int));
                }
                i = i + 1;
            }
            push_char(out, '}');
            proof {
                assert(out@ =~= old(out)@ + json_of(*v));
            }
        },
    }
}

/// The JSON text of a value, exactly as specified by [`json_of`].
pub fn to_json_string(v: &Value) -> (r: String)
    ensures
        r@ == json_of(*v),
{
    let mut out: String = String::new();
    push_json(&mut out, v);
    out
}

} // verus!
