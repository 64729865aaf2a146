//! The framework configuration document and its serialization.
//!
//! `JsonValue` models the configuration document as plain values, and
//! `write_json` pretty-prints it (two-space indentation, escaped strings).
//! The exact character sequence produced is given by `spec_json`, so callers
//! can reason about the serialized text down to the character.

use vstd::prelude::*;

verus! {

broadcast use vstd::std_specs::vec::axiom_vec_index_decreases;

/// A configuration document: a tree of plain values.
#[derive(Debug)]
pub enum JsonValue {
    Null,
    Bool(bool),
    Int(i64),
    Str(String),
    Arr(Vec<JsonValue>),
    Obj(Vec<(String, JsonValue)>),
}

/// The decimal digit for `n` (`n < 10`).
pub open spec fn spec_digit(n: nat) -> char {
    if n == 0 {
        '0'
    } else if n == 1 {
        '1'
    } else if n == 2 {
        '2'
    } else if n == 3 {
        '3'
    } else if n == 4 {
        '4'
    } else if n == 5 {
        '5'
    } else if n == 6 {
        '6'
    } else if n == 7 {
        '7'
    } else if n == 8 {
        '8'
    } else {
        '9'
    }
}

/// The lowercase hexadecimal digit for `n` (`n < 16`).
pub open spec fn spec_hex_digit(n: nat) -> char {
    if n < 10 {
        spec_digit(n)
    } else if n == 10 {
        'a'
    } else if n == 11 {
        'b'
    } else if n == 12 {
        'c'
    } else if n == 13 {
        'd'
    } else if n == 14 {
        'e'
    } else {
        'f'
    }
}

/// The decimal digits of `n`, most significant first.
pub open spec fn spec_nat_chars(n: nat) -> Seq<char>
    decreases n,
{
    if n < 10 {
        seq![spec_digit(n)]
    } else {
        spec_nat_chars(n / 10) + seq![spec_digit(n % 10)]
    }
}

/// The decimal rendering of `i`, with a leading minus sign if negative.
pub open spec fn spec_int_chars(i: int) -> Seq<char> {
    if i < 0 {
        seq!['-'] + spec_nat_chars((-i) as nat)
    } else {
        spec_nat_chars(i as nat)
    }
}

/// How one character is written inside a JSON string literal: quote and
/// backslash are escaped, common control characters use their short escapes,
/// all other control characters use a `\u00..` escape.
pub open spec fn spec_escape_char(c: char) -> Seq<char> {
    if c == '"' {
        seq!['\\', '"']
    } else if c == '\\' {
        seq!['\\', '\\']
    } else if c == '\n' {
        seq!['\\', 'n']
    } else if c == '\r' {
        seq!['\\', 'r']
    } else if c == '\t' {
        seq!['\\', 't']
    } else if (c as u32) < 32 {
        seq!['\\', 'u', '0', '0', spec_hex_digit((c as u32 / 16) as nat), spec_hex_digit(
            (c as u32 % 16) as nat,
        )]
    } else {
        seq![c]
    }
}

/// The body of a JSON string literal holding the characters `s`.
pub open spec fn spec_escape(s: Seq<char>) -> Seq<char>
    decreases s.len(),
{
    if s.len() == 0 {
        Seq::<char>::empty()
    } else {
        spec_escape_char(s[0]) + spec_escape(s.drop_first())
    }
}

/// The indentation at nesting depth `ind`: two spaces per level.
pub open spec fn spec_indent(ind: nat) -> Seq<char> {
    Seq::<char>::new(2 * ind, |i: int| ' ')
}

/// The pretty-printed form of `v` at nesting depth `ind`.
pub open spec fn spec_json(v: JsonValue, ind: nat) -> Seq<char>
    decreases v, 1int,
{
    match v {
        JsonValue::Null => seq!['n', 'u', 'l', 'l'],
        JsonValue::Bool(b) => if b {
            seq!['t', 'r', 'u', 'e']
        } else {
            seq!['f', 'a', 'l', 's', 'e']
        },
        JsonValue::Int(i) => spec_int_chars(i as int),
        JsonValue::Str(s) => seq!['"'] + spec_escape(s@) + seq!['"'],
        JsonValue::Arr(elems) => if elems@.len() == 0 {
            seq!['[', ']']
        } else {
            seq!['[', '\n'] + spec_items(elems, 0, (ind + 1) as nat) + seq!['\n'] + spec_indent(
                ind,
            ) + seq![']']
        },
        JsonValue::Obj(fields) => if fields@.len() == 0 {
            seq!['{', '}']
        } else {
            seq!['{', '\n'] + spec_fields(fields, 0, (ind + 1) as nat) + seq!['\n'] + spec_indent(
                ind,
            ) + seq!['}']
        },
    }
}

/// The pretty-printed elements of an array from index `i` on, one per line,
/// separated by commas.
pub open spec fn spec_items(elems: Vec<JsonValue>, i: int, ind: nat) -> Seq<char>
    decreases elems, elems@.len() - i,
{
    if i < 0 || i >= elems@.len() {
        Seq::<char>::empty()
    } else {
        let entry = spec_indent(ind) + spec_json(elems@[i], ind);
        if i + 1 == elems@.len() {
            entry
        } else {
            entry + seq![',', '\n'] + spec_items(elems, i + 1, ind)
        }
    }
}

/// The pretty-printed members of an object from index `i` on: quoted key,
/// colon, value, one member per line, separated by commas.
pub open spec fn spec_fields(fields: Vec<(String, JsonValue)>, i: int, ind: nat) -> Seq<char>
    decreases fields, fields@.len() - i,
{
    if i < 0 || i >= fields@.len() {
        Seq::<char>::empty()
    } else {
        let entry = spec_indent(ind) + seq!['"'] + spec_escape(fields@[i].0@) + seq!['"', ':', ' ']
            + spec_json(fields@[i].1, ind);
        if i + 1 == fields@.len() {
            entry
        } else {
            entry + seq![',', '\n'] + spec_fields(fields, i + 1, ind)
        }
    }
}

/// Appends one character.
pub(crate) fn push1(out: &mut Vec<char>, c: char)
    ensures
        final(out)@ == old(out)@ + seq![c],
{
    out.push(c);
    proof {
        assert(old(out)@.push(c) =~= old(out)@ + seq![c]);
    }
}

/// The decimal digit for `n` (`n < 10`).
fn digit_char(n: u64) -> (r: char)
    requires
        n < 10,
    ensures
        r == spec_digit(n as nat),
{
    if n == 0 {
        '0'
    } else if n == 1 {
        '1'
    } else if n == 2 {
        '2'
    } else if n == 3 {
        '3'
    } else if n == 4 {
        '4'
    } else if n == 5 {
        '5'
    } else if n == 6 {
        '6'
    } else if n == 7 {
        '7'
    } else if n == 8 {
        '8'
    } else {
        '9'
    }
}

/// The lowercase hexadecimal digit for `n` (`n < 16`).
fn hex_char(n: u32) -> (r: char)
    requires
        n < 16,
    ensures
        r == spec_hex_digit(n as nat),
{
    if n < 10 {
        digit_char(n as u64)
    } else if n == 10 {
        'a'
    } else if n == 11 {
        'b'
    } else if n == 12 {
        'c'
    } else if n == 13 {
        'd'
    } else if n == 14 {
        'e'
    } else {
        'f'
    }
}

/// Appends the decimal digits of `n`.
fn push_nat_chars(out: &mut Vec<char>, n: u64)
    ensures
        final(out)@ == old(out)@ + spec_nat_chars(n as nat),
    decreases n,
{
    if n < 10 {
        let c = digit_char(n);
        push1(out, c);
    } else {
        push_nat_chars(out, n / 10);
        let c = digit_char(n % 10);
        push1(out, c);
        proof {
            assert(old(out)@ + spec_nat_chars((n / 10) as nat) + seq![spec_digit((n % 10) as nat)]
                =~= old(out)@ + (spec_nat_chars((n / 10) as nat) + seq![
                    spec_digit((n % 10) as nat),
                ]));
        }
    }
}

/// Appends the decimal rendering of `i`.
fn push_int_chars(out: &mut Vec<char>, i: i64)
    ensures
        final(out)@ == old(out)@ + spec_int_chars(i as int),
{
    if i >= 0 {
        push_nat_chars(out, i as u64);
    } else {
        push1(out, '-');
        let p: i64 = -(i + 1);
        let m: u64 = (p as u64) + 1;
        assert(m as int == -(i as int));
        push_nat_chars(out, m);
        proof {
            assert(old(out)@ + seq!['-'] + spec_nat_chars(m as nat) =~= old(out)@ + (seq!['-']
                + spec_nat_chars(m as nat)));
        }
    }
}

/// Appends the escaped form of one string-literal character.
fn push_escaped_char(out: &mut Vec<char>, c: char)
    ensures
        final(out)@ == old(out)@ + spec_escape_char(c),
{
    if c == '"' {
        push1(out, '\\');
        push1(out, '"');
        proof {
            assert(old(out)@ + seq!['\\'] + seq!['"'] =~= old(out)@ + spec_escape_char(c));
        }
    } else if c == '\\' {
        push1(out, '\\');
        push1(out, '\\');
        proof {
            assert(old(out)@ + seq!['\\'] + seq!['\\'] =~= old(out)@ + spec_escape_char(c));
        }
    } else if c == '\n' {
        push1(out, '\\');
        push1(out, 'n');
        proof {
            assert(old(out)@ + seq!['\\'] + seq!['n'] =~= old(out)@ + spec_escape_char(c));
        }
    } else if c == '\r' {
        push1(out, '\\');
        push1(out, 'r');
        proof {
            assert(old(out)@ + seq!['\\'] + seq!['r'] =~= old(out)@ + spec_escape_char(c));
        }
    } else if c == '\t' {
        push1(out, '\\');
        push1(out, 't');
        proof {
            assert(old(out)@ + seq!['\\'] + seq!['t'] =~= old(out)@ + spec_escape_char(c));
        }
    } else if (c as u32) < 32 {
        let n = c as u32;
        push1(out, '\\');
        push1(out, 'u');
        push1(out, '0');
        push1(out, '0');
        let hi = hex_char(n / 16);
        push1(out, hi);
        let lo = hex_char(n % 16);
        push1(out, lo);
        proof {
            assert(old(out)@ + seq!['\\'] + seq!['u'] + seq!['0'] + seq!['0'] + seq![
                spec_hex_digit((c as u32 / 16) as nat),
            ] + seq![spec_hex_digit((c as u32 % 16) as nat)] =~= old(out)@ + spec_escape_char(c));
        }
    } else {
        push1(out, c);
    }
}

/// Appending a character to a string appends its escape to the escaped form.
pub proof fn lemma_escape_append(s: Seq<char>, c: char)
    ensures
        spec_escape(s.push(c)) == spec_escape(s) + spec_escape_char(c),
    decreases s.len(),
{
    if s.len() == 0 {
        assert(s.push(c)[0] == c);
        assert(s =~= Seq::<char>::empty());
        assert(s.push(c).drop_first() =~= s);
        assert(spec_escape(s) == Seq::<char>::empty());
        assert(spec_escape(s.push(c)) =~= spec_escape(s) + spec_escape_char(c));
    } else {
        assert(s.push(c)[0] == s[0]);
        assert(s.push(c).drop_first() =~= s.drop_first().push(c));
        lemma_escape_append(s.drop_first(), c);
        assert(spec_escape_char(s[0]) + (spec_escape(s.drop_first()) + spec_escape_char(c))
            =~= (spec_escape_char(s[0]) + spec_escape(s.drop_first())) + spec_escape_char(c));
    }
}

/// Appends the escaped form of all of `s`.
pub(crate) fn escape_into(out: &mut Vec<char>, s: &Vec<char>)
    ensures
        final(out)@ == old(out)@ + spec_escape(s@),
{
    let mut i: usize = 0;
    proof {
        assert(s@.subrange(0, 0) =~= Seq::<char>::empty());
        assert(spec_escape(s@.subrange(0, 0)) == Seq::<char>::empty());
        assert(old(out)@ + Seq::<char>::empty() =~= old(out)@);
    }
    while i < s.len()
        invariant
            0 <= i <= s@.len(),
            out@ == old(out)@ + spec_escape(s@.subrange(0, i as int)),
        decreases s@.len() - i,
    {
        let c = s[i];
        push_escaped_char(out, c);
        proof {
            lemma_escape_append(s@.subrange(0, i as int), s@[i as int]);
            assert(s@.subrange(0, i as int).push(s@[i as int]) =~= s@.subrange(0, i + 1 as int));
            assert(old(out)@ + spec_escape(s@.subrange(0, i as int)) + spec_escape_char(s@[i as int])
                =~= old(out)@ + spec_escape(s@.subrange(0, i + 1 as int)));
        }
        i = i + 1;
    }
    proof {
        assert(s@.subrange(0, s@.len() as int) =~= s@);
    }
}

/// A plain string — one without quotes, backslashes or control characters —
/// escapes to itself.
pub proof fn lemma_escape_plain(s: Seq<char>)
    requires
        forall|i: int| 0 <= i < s.len() ==> s[i] != '"' && s[i] != '\\' && (s[i] as u32) >= 32,
    ensures
        spec_escape(s) == s,
    decreases s.len(),
{
    if s.len() > 0 {
        assert forall|i: int| 0 <= i < s.drop_first().len() implies s.drop_first()[i] != '"'
            && s.drop_first()[i] != '\\' && (s.drop_first()[i] as u32) >= 32 by {
            assert(s.drop_first()[i] == s[i + 1]);
        }
        lemma_escape_plain(s.drop_first());
        assert(spec_escape_char(s[0]) == seq![s[0]]);
        assert(spec_escape(s) =~= s);
    }
}

/// Escaping cannot produce a brace: braces pass through only literally.
pub proof fn lemma_escape_brace_free(s: Seq<char>, b: char)
    requires
        b == '{' || b == '}',
        !s.contains(b),
    ensures
        !spec_escape(s).contains(b),
    decreases s.len(),
{
    if s.len() > 0 {
        assert(!s.drop_first().contains(b)) by {
            if s.drop_first().contains(b) {
                let j = choose|j: int|
                    0 <= j < s.drop_first().len() && s.drop_first()[j] == b;
                assert(s[j + 1] == b);
            }
        }
        lemma_escape_brace_free(s.drop_first(), b);
        assert(s[0] != b);
        let head = spec_escape_char(s[0]);
        assert forall|j: int| 0 <= j < head.len() implies head[j] != b by {}
        assert forall|j: int| 0 <= j < spec_escape(s).len() implies spec_escape(s)[j] != b by {
            if j < head.len() {
            } else {
                assert(spec_escape(s)[j] == spec_escape(s.drop_first())[j - head.len()]);
            }
        }
    }
}

/// Escaping never shortens a string.
pub proof fn lemma_escape_longer(s: Seq<char>)
    ensures
        spec_escape(s).len() >= s.len(),
    decreases s.len(),
{
    if s.len() > 0 {
        lemma_escape_longer(s.drop_first());
    }
}

/// Appends the pretty-printed form of `v`.  `indent` holds the current
/// indentation, two spaces per nesting level.
pub(crate) fn write_json(v: &JsonValue, indent: &Vec<char>, Ghost(ind): Ghost<nat>, out: &mut Vec<char>)
    requires
        indent@ == spec_indent(ind),
    ensures
        final(out)@ == old(out)@ + spec_json(*v, ind),
    decreases *v, 1int,
{
    match v {
        JsonValue::Null => {
            push1(out, 'n');
            push1(out, 'u');
            push1(out, 'l');
            push1(out, 'l');
            proof {
                assert(old(out)@ + seq!['n'] + seq!['u'] + seq!['l'] + seq!['l'] =~= old(out)@
                    + spec_json(*v, ind));
            }
        },
        JsonValue::Bool(b) => {
            if *b {
                push1(out, 't');
                push1(out, 'r');
                push1(out, 'u');
                push1(out, 'e');
                proof {
                    assert(old(out)@ + seq!['t'] + seq!['r'] + seq!['u'] + seq!['e'] =~= old(out)@
                        + spec_json(*v, ind));
                }
            } else {
                push1(out, 'f');
                push1(out, 'a');
                push1(out, 'l');
                push1(out, 's');
                push1(out, 'e');
                proof {
                    assert(old(out)@ + seq!['f'] + seq!['a'] + seq!['l'] + seq!['s'] + seq!['e']
                        =~= old(out)@ + spec_json(*v, ind));
                }
            }
        },
        JsonValue::Int(i) => {
            push_int_chars(out, *i);
        },
        JsonValue::Str(s) => {
            push1(out, '"');
            let cs = crate::text::chars_of(s.as_str());
            escape_into(out, &cs);
            push1(out, '"');
            proof {
                assert(old(out)@ + seq!['"'] + spec_escape(s@) + seq!['"'] =~= old(out)@
                    + spec_json(*v, ind));
            }
        },
        JsonValue::Arr(elems) => {
            if elems.len() == 0 {
                push1(out, '[');
                push1(out, ']');
                proof {
                    assert(old(out)@ + seq!['['] + seq![']'] =~= old(out)@ + spec_json(*v, ind));
                }
            } else {
                let mut ci: Vec<char> = Vec::new();
                crate::subst::push_all(&mut ci, indent);
                push1(&mut ci, ' ');
                push1(&mut ci, ' ');
                proof {
                    assert(ci@ =~= spec_indent(ind + 1));
                }
                push1(out, '[');
                push1(out, '\n');
                write_items(elems, 0, &ci, Ghost((ind + 1) as nat), out);
                push1(out, '\n');
                crate::subst::push_all(out, indent);
                push1(out, ']');
                proof {
                    assert(old(out)@ + seq!['['] + seq!['\n'] + spec_items(
                        *elems,
                        0,
                        (ind + 1) as nat,
                    ) + seq!['\n'] + spec_indent(ind) + seq![']'] =~= old(out)@ + spec_json(
                        *v,
                        ind,
                    ));
                }
            }
        },
        JsonValue::Obj(fields) => {
            if fields.len() == 0 {
                push1(out, '{');
                push1(out, '}');
                proof {
                    assert(old(out)@ + seq!['{'] + seq!['}'] =~= old(out)@ + spec_json(*v, ind));
                }
            } else {
                let mut ci: Vec<char> = Vec::new();
                crate::subst::push_all(&mut ci, indent);
                push1(&mut ci, ' ');
                push1(&mut ci, ' ');
                proof {
                    assert(ci@ =~= spec_indent(ind + 1));
                }
                push1(out, '{');
                push1(out, '\n');
                write_fields(fields, 0, &ci, Ghost((ind + 1) as nat), out);
                push1(out, '\n');
                crate::subst::push_all(out, indent);
                push1(out, '}');
                proof {
                    assert(old(out)@ + seq!['{'] + seq!['\n'] + spec_fields(
                        *fields,
                        0,
                        (ind + 1) as nat,
                    ) + seq!['\n'] + spec_indent(ind) + seq!['}'] =~= old(out)@ + spec_json(
                        *v,
                        ind,
                    ));
                }
            }
        },
    }
}

/// Appends the array elements from index `i` on.
fn write_items(
    elems: &Vec<JsonValue>,
    i: usize,
    indent: &Vec<char>,
    Ghost(ind): Ghost<nat>,
    out: &mut Vec<char>,
)
    requires
        i < elems@.len(),
        indent@ == spec_indent(ind),
    ensures
        final(out)@ == old(out)@ + spec_items(*elems, i as int, ind),
    decreases *elems, elems@.len() - i,
{
    let n = elems.len();
    crate::subst::push_all(out, indent);
    write_json(&elems[i], indent, Ghost(ind), out);
    if i + 1 < n {
        push1(out, ',');
        push1(out, '\n');
        write_items(elems, i + 1, indent, Ghost(ind), out);
        proof {
            assert(old(out)@ + indent@ + spec_json(elems@[i as int], ind) + seq![','] + seq!['\n']
                + spec_items(*elems, i + 1, ind) =~= old(out)@ + spec_items(*elems, i as int, ind));
        }
    } else {
        proof {
            assert(old(out)@ + indent@ + spec_json(elems@[i as int], ind) =~= old(out)@
                + spec_items(*elems, i as int, ind));
        }
    }
}

/// Appends the object members from index `i` on.
fn write_fields(
    fields: &Vec<(String, JsonValue)>,
    i: usize,
    indent: &Vec<char>,
    Ghost(ind): Ghost<nat>,
    out: &mut Vec<char>,
)
    requires
        i < fields@.len(),
        indent@ == spec_indent(ind),
    ensures
        final(out)@ == old(out)@ + spec_fields(*fields, i as int, ind),
    decreases *fields, fields@.len() - i,
{
    crate::subst::push_all(out, indent);
    push1(out, '"');
    let cs = crate::text::chars_of(fields[i].0.as_str());
    escape_into(out, &cs);
    push1(out, '"');
    push1(out, ':');
    push1(out, ' ');
    let n = fields.len();
    write_json(&fields[i].1, indent, Ghost(ind), out);
    if i + 1 < n {
        push1(out, ',');
        push1(out, '\n');
        write_fields(fields, i + 1, indent, Ghost(ind), out);
        proof {
            assert(old(out)@ + indent@ + seq!['"'] + spec_escape(fields@[i as int].0@) + seq!['"']
                + seq![':'] + seq![' '] + spec_json(fields@[i as int].1, ind) + seq![','] + seq![
                '\n',
            ] + spec_fields(*fields, i + 1, ind) =~= old(out)@ + spec_fields(
                *fields,
                i as int,
                ind,
            ));
        }
    } else {
        proof {
            assert(old(out)@ + indent@ + seq!['"'] + spec_escape(fields@[i as int].0@) + seq!['"']
                + seq![':'] + seq![' '] + spec_json(fields@[i as int].1, ind) =~= old(out)@
                + spec_fields(*fields, i as int, ind));
        }
    }
}

} // verus!
