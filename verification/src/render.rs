//! Rendering values to text, for REPL output or debugging.
//!
//! A number renders in decimal, a glyph as its literal character, a
//! list as its rendered elements between brackets, and a callable as an
//! opaque tag built from its stable synthetic id, never from a memory
//! address, so rendering is deterministic. List rendering descends at
//! most `RENDER_DEPTH` levels of nesting; a list buried deeper than
//! that renders as an elided placeholder. The depth budget is far
//! beyond what the host call stack survives, so in practice every list
//! renders in full.

use vstd::prelude::*;
use vstd::string::StringExecFns;
use crate::list::list_elems;
use crate::value::Value;

verus! {

/// How many levels of list nesting are rendered in full.
pub const RENDER_DEPTH: u64 = 1000000;

/// The decimal digit characters, least significant last.
pub open spec fn digit_char(d: int) -> char
    recommends
        0 <= d < 10,
{
    if d == 0 {
        '0'
    } else if d == 1 {
        '1'
    } else if d == 2 {
        '2'
    } else if d == 3 {
        '3'
    } else if d == 4 {
        '4'
    } else if d == 5 {
        '5'
    } else if d == 6 {
        '6'
    } else if d == 7 {
        '7'
    } else if d == 8 {
        '8'
    } else {
        '9'
    }
}

/// The decimal rendering of a non-negative integer, without sign.
pub open spec fn dec_digits(n: nat) -> Seq<char>
    decreases n,
{
    if n < 10 {
        seq![digit_char(n as int)]
    } else {
        dec_digits(n / 10).push(digit_char((n % 10) as int))
    }
}

/// The decimal rendering of an integer, with a leading minus sign when
/// negative.
pub open spec fn dec_int(v: int) -> Seq<char> {
    if v < 0 {
        seq!['-'] + dec_digits((-v) as nat)
    } else {
        dec_digits(v as nat)
    }
}

/// The text a value renders to, descending at most `fuel` levels of
/// list nesting.
pub open spec fn render_value(v: Value, fuel: nat) -> Seq<char>
    decreases fuel, 0int,
{
    match v {
        Value::Number(n) => dec_int(n.value as int),
        Value::Glyph(g) => seq![g],
        Value::List(l) => if fuel == 0 {
            seq!['[', '?', ']']
        } else {
            seq!['['] + render_items(list_elems(l), (fuel - 1) as nat) + seq![']']
        },
        Value::Function(c) => "function@"@ + dec_digits(c.id as nat),
        Value::Builtin(b) => "builtin@"@ + dec_digits(b.id as nat),
    }
}

/// The rendered elements of a list, separated by a comma and a space.
pub open spec fn render_items(elems: Seq<Value>, fuel: nat) -> Seq<char>
    decreases fuel, elems.len() + 1,
{
    if elems.len() == 0 {
        Seq::<char>::empty()
    } else if elems.len() == 1 {
        render_value(elems[0], fuel)
    } else {
        render_value(elems[0], fuel) + seq![',', ' '] + render_items(elems.drop_first(), fuel)
    }
}

/// Extending an element sequence on the right extends its rendering on
/// the right, with a separator exactly when the sequence was non-empty.
proof fn lemma_render_items_snoc(elems: Seq<Value>, x: Value, fuel: nat)
    ensures
        render_items(elems.push(x), fuel) == if elems.len() == 0 {
            render_value(x, fuel)
        } else {
            render_items(elems, fuel) + seq![',', ' '] + render_value(x, fuel)
        },
    decreases elems.len(),
{
    if elems.len() == 0 {
        assert(elems.push(x) =~= seq![x]);
    } else {
        assert(elems.push(x).drop_first() =~= elems.drop_first().push(x));
        lemma_render_items_snoc(elems.drop_first(), x, fuel);
        if elems.len() == 1 {
            assert(render_items(elems, fuel) == render_value(elems[0], fuel));
        }
        assert(render_items(elems.push(x), fuel) == render_value(elems[0], fuel) + seq![',', ' ']
            + render_items(elems.drop_first().push(x), fuel));
    }
}

/// Relies on `String::push`: appends one character at the end.
#[verifier::external_body]
fn push_char(s: &mut String, c: char)
    ensures
        final(s)@ == old(s)@.push(c),
{
    s.push(c)
}

/// One decimal digit as a character.
fn digit(d: u64) -> (c: char)
    requires
        d < 10,
    ensures
        c == digit_char(d as int),
{
    if d == 0 {
        '0'
    } else if d == 1 {
        '1'
    } else if d == 2 {
        '2'
    } else if d == 3 {
        '3'
    } else if d == 4 {
        '4'
    } else if d == 5 {
        '5'
    } else if d == 6 {
        '6'
    } else if d == 7 {
        '7'
    } else if d == 8 {
        '8'
    } else {
        '9'
    }
}

/// Appends the decimal rendering of `n`.
fn push_u64_dec(s: &mut String, n: u64)
    ensures
        final(s)@ == old(s)@ + dec_digits(n as nat),
    decreases n,
{
    if n < 10 {
        push_char(s, digit(n));
        proof {
            assert(old(s)@.push(digit_char(n as int)) =~= old(s)@ + dec_digits(n as nat));
        }
    } else {
        push_u64_dec(s, n / 10);
        push_char(s, digit(n % 10));
        proof {
            assert((old(s)@ + dec_digits((n / 10) as nat)).push(digit_char((n % 10) as int))
                =~= old(s)@ + dec_digits(n as nat));
        }
    }
}

/// Appends the decimal rendering of `v`, sign included.
fn push_i64_dec(s: &mut String, v: i64)
    ensures
        final(s)@ == old(s)@ + dec_int(v as int),
{
    if v < 0 {
        push_char(s, '-');
        let mag: u64 = if v == i64::MIN {
            9223372036854775808u64
        } else {
            (-v) as u64
        };
        push_u64_dec(s, mag);
        proof {
            assert(old(s)@.push('-') + dec_digits(mag as nat) =~= old(s)@ + dec_int(v as int));
        }
    } else {
        push_u64_dec(s, v as u64);
    }
}

impl Value {
    /// Appends this value's rendering, descending at most `fuel` levels
    /// of list nesting.
    fn render_into(&self, s: &mut String, fuel: u64)
        ensures
            final(s)@ == old(s)@ + render_value(*self, fuel as nat),
        decreases fuel, 0int,
    {
        match self {
            Value::Number(n) => push_i64_dec(s, n.value),
            Value::Glyph(g) => {
                push_char(s, *g);
                proof {
                    assert(old(s)@.push(*g) =~= old(s)@ + seq![*g]);
                }
            },
            Value::List(l) => {
                if fuel == 0 {
                    push_char(s, '[');
                    push_char(s, '?');
                    push_char(s, ']');
                    proof {
                        assert(old(s)@.push('[').push('?').push(']') =~= old(s)@ + seq![
                            '[',
                            '?',
                            ']',
                        ]);
                    }
                } else {
                    let inner: u64 = fuel - 1;
                    push_char(s, '[');
                    let items = l.to_vec();
                    let ghost elems: Seq<Value> = list_elems(*l);
                    let mut i: usize = 0;
                    proof {
                        assert(elems.take(0) =~= Seq::<Value>::empty());
                        assert(old(s)@.push('[') =~= old(s)@ + seq!['['] + render_items(
                            elems.take(0),
                            inner as nat,
                        ));
                    }
                    while i < items.len()
                        invariant
                            inner == fuel - 1,
                            i <= items@.len(),
                            items@ == elems,
                            s@ == old(s)@ + seq!['['] + render_items(
                                elems.take(i as int),
                                inner as nat,
                            ),
                        decreases fuel, items@.len() - i,
                    {
                        if i > 0 {
                            push_char(s, ',');
                            push_char(s, ' ');
                        }
                        items[i].render_into(s, inner);
                        proof {
                            lemma_render_items_snoc(elems.take(i as int), elems[i as int],
                                inner as nat);
                            assert(elems.take(i as int).push(elems[i as int]) =~= elems.take(
                                i + 1,
                            ));
                        }
                        i = i + 1;
                    }
                    proof {
                        assert(elems.take(elems.len() as int) =~= elems);
                    }
                    push_char(s, ']');
                    proof {
                        assert((old(s)@ + seq!['['] + render_items(elems, inner as nat)).push(']')
                            =~= old(s)@ + render_value(*self, fuel as nat));
                    }
                }
            },
            Value::Function(c) => {
                s.append("function@");
                push_u64_dec(s, c.id);
                proof {
                    assert(old(s)@ + "function@"@ + dec_digits(c.id as nat) =~= old(s)@
                        + render_value(*self, fuel as nat));
                }
            },
            Value::Builtin(b) => {
                s.append("builtin@");
                push_u64_dec(s, b.id);
                proof {
                    assert(old(s)@ + "builtin@"@ + dec_digits(b.id as nat) =~= old(s)@
                        + render_value(*self, fuel as nat));
                }
            },
        }
    }

    /// Renders this value to text.
    pub fn render(&self) -> (s: String)
        ensures
            s@ == render_value(*self, RENDER_DEPTH as nat),
    {
        let mut s = String::new();
        self.render_into(&mut s, RENDER_DEPTH);
        s
    }
}

} // verus!
