//! A JSON document tree, its mathematical model, and an exact text writer.
//!
//! `JsonValue` is the executable tree; its view `JsonV` is the model all
//! contracts speak of. `spec_json_text` gives the exact character sequence
//! the writer emits, so a request builder's output is pinned down to the
//! byte. Numbers are integers: the wire contract of this API carries ids,
//! quantities and limits as integers, and prices as strings.

use vstd::prelude::*;
use vstd::string::StrSliceExecFns;
use vstd::string::StringExecFns;
use crate::text::spec_int_text;
use crate::error::PromError;
use crate::text::i64_text;

verus! {

/// An executable JSON document tree.
#[derive(Debug)]
pub enum JsonValue {
    Null,
    Bool(bool),
    Int(i64),
    Str(String),
    Arr(Vec<JsonValue>),
    Obj(Vec<(String, JsonValue)>),
}

/// The mathematical model of a JSON tree.
#[verifier::ext_equal]
pub enum JsonV {
    Null,
    Bool(bool),
    Int(int),
    Str(Seq<char>),
    Arr(Seq<JsonV>),
    Obj(Seq<(Seq<char>, JsonV)>),
}

impl View for JsonValue {
    type V = JsonV;

    open spec fn view(&self) -> JsonV
        decreases self,
    {
        match self {
            JsonValue::Null => JsonV::Null,
            JsonValue::Bool(b) => JsonV::Bool(*b),
            JsonValue::Int(i) => JsonV::Int(*i as int),
            JsonValue::Str(s) => JsonV::Str(s@),
            JsonValue::Arr(a) => JsonV::Arr(spec_arr_view(a@)),
            JsonValue::Obj(fields) => JsonV::Obj(spec_obj_view(fields@)),
        }
    }
}

/// The models of a sequence of trees, element by element.
pub open spec fn spec_arr_view(a: Seq<JsonValue>) -> Seq<JsonV>
    decreases a,
{
    if a.len() == 0 {
        Seq::empty()
    } else {
        seq![a[0]@] + spec_arr_view(a.subrange(1, a.len() as int))
    }
}

/// The models of a sequence of object fields, key and value, in order.
pub open spec fn spec_obj_view(fields: Seq<(String, JsonValue)>) -> Seq<(Seq<char>, JsonV)>
    decreases fields,
{
    if fields.len() == 0 {
        Seq::empty()
    } else {
        seq![(fields[0].0@, fields[0].1@)] + spec_obj_view(
            fields.subrange(1, fields.len() as int),
        )
    }
}

/// The character for one hexadecimal digit, lower case.
pub open spec fn spec_hex_digit(d: nat) -> char {
    if d < 10 {
        crate::text::spec_digit_char(d)
    } else if d == 10 {
        'a'
    } else if d == 11 {
        'b'
    } else if d == 12 {
        'c'
    } else if d == 13 {
        'd'
    } else if d == 14 {
        'e'
    } else {
        'f'
    }
}

/// The escape of one character inside a JSON string literal: the quote,
/// the backslash and every control character are escaped, the common
/// controls by their short forms and the rest as `\u00..`.
pub open spec fn spec_escaped_char(c: char) -> Seq<char> {
    if c == '"' {
        seq!['\\', '"']
    } else if c == '\\' {
        seq!['\\', '\\']
    } else if c == '\n' {
        seq!['\\', 'n']
    } else if c == '\t' {
        seq!['\\', 't']
    } else if c == '\r' {
        seq!['\\', 'r']
    } else if (c as u32) < 32 {
        seq![
            '\\',
            'u',
            '0',
            '0',
            spec_hex_digit(((c as u32) / 16) as nat),
            spec_hex_digit(((c as u32) % 16) as nat),
        ]
    } else {
        seq![c]
    }
}

/// The escape of a whole string, character by character.
pub open spec fn spec_escape(s: Seq<char>) -> Seq<char>
    decreases s.len(),
{
    if s.len() == 0 {
        Seq::empty()
    } else {
        spec_escape(s.subrange(0, s.len() - 1)) + spec_escaped_char(s[s.len() - 1])
    }
}

/// A JSON string literal: the escaped characters between double quotes.
pub open spec fn spec_string_text(s: Seq<char>) -> Seq<char> {
    seq!['"'] + spec_escape(s) + seq!['"']
}

/// The exact text the writer emits for a JSON tree: no whitespace,
/// fields and elements in order, strings escaped, integers in decimal.
pub open spec fn spec_json_text(j: JsonV) -> Seq<char>
    decreases j,
{
    match j {
        JsonV::Null => "null"@,
        JsonV::Bool(b) => if b {
            "true"@
        } else {
            "false"@
        },
        JsonV::Int(i) => spec_int_text(i),
        JsonV::Str(s) => spec_string_text(s),
        JsonV::Arr(a) => seq!['['] + spec_arr_text(a) + seq![']'],
        JsonV::Obj(fields) => seq!['{'] + spec_obj_text(fields) + seq!['}'],
    }
}

/// The comma-separated texts of array elements.
pub open spec fn spec_arr_text(a: Seq<JsonV>) -> Seq<char>
    decreases a,
{
    if a.len() == 0 {
        Seq::empty()
    } else if a.len() == 1 {
        spec_json_text(a[0])
    } else {
        spec_arr_text(a.subrange(0, a.len() - 1)) + seq![','] + spec_json_text(a[a.len() - 1])
    }
}

/// The comma-separated `"key":value` texts of object fields.
pub open spec fn spec_obj_text(fields: Seq<(Seq<char>, JsonV)>) -> Seq<char>
    decreases fields,
{
    if fields.len() == 0 {
        Seq::empty()
    } else if fields.len() == 1 {
        spec_field_text(fields[0])
    } else {
        spec_obj_text(fields.subrange(0, fields.len() - 1)) + seq![','] + spec_field_text(
            fields[fields.len() - 1],
        )
    }
}

/// The `"key":value` text of one object field.
pub open spec fn spec_field_text(field: (Seq<char>, JsonV)) -> Seq<char>
    decreases field,
{
    spec_string_text(field.0) + seq![':'] + spec_json_text(field.1)
}

/// The value under `key` in a JSON object: the first binding wins.
/// `None` when the tree is no object or the key is absent.
pub open spec fn spec_lookup(j: JsonV, key: Seq<char>) -> Option<JsonV>
    decreases j,
{
    match j {
        JsonV::Obj(fields) => spec_lookup_fields(fields, key),
        _ => None,
    }
}

/// The value under `key` among object fields, first binding first.
pub open spec fn spec_lookup_fields(fields: Seq<(Seq<char>, JsonV)>, key: Seq<char>) -> Option<
    JsonV,
>
    decreases fields.len(),
{
    if fields.len() == 0 {
        None
    } else if fields[0].0 == key {
        Some(fields[0].1)
    } else {
        spec_lookup_fields(fields.subrange(1, fields.len() as int), key)
    }
}

/// The model of a sequence of trees indexes element by element.
pub proof fn lemma_arr_view_index(a: Seq<JsonValue>)
    ensures
        spec_arr_view(a).len() == a.len(),
        forall|i: int| 0 <= i < a.len() ==> spec_arr_view(a)[i] == a[i]@,
    decreases a.len(),
{
    if a.len() > 0 {
        let tail = a.subrange(1, a.len() as int);
        lemma_arr_view_index(tail);
        assert(spec_arr_view(a) == seq![a[0]@] + spec_arr_view(tail));
        assert(spec_arr_view(a).len() == a.len());
        assert forall|i: int| 0 <= i < a.len() implies spec_arr_view(a)[i] == a[i]@ by {
            if i > 0 {
                assert(tail[i - 1] == a[i]);
                assert(spec_arr_view(a)[i] == spec_arr_view(tail)[i - 1]);
            }
        }
    }
}

/// The model of a sequence of object fields indexes field by field.
pub proof fn lemma_obj_view_index(fields: Seq<(String, JsonValue)>)
    ensures
        spec_obj_view(fields).len() == fields.len(),
        forall|i: int|
            0 <= i < fields.len() ==> spec_obj_view(fields)[i] == (fields[i].0@, fields[i].1@),
    decreases fields.len(),
{
    if fields.len() > 0 {
        let tail = fields.subrange(1, fields.len() as int);
        lemma_obj_view_index(tail);
        assert(spec_obj_view(fields) == seq![(fields[0].0@, fields[0].1@)] + spec_obj_view(tail));
        assert(spec_obj_view(fields).len() == fields.len());
        assert forall|i: int|
            0 <= i < fields.len() implies spec_obj_view(fields)[i] == (
            fields[i].0@,
            fields[i].1@,
        ) by {
            if i > 0 {
                assert(tail[i - 1] == fields[i]);
                assert(spec_obj_view(fields)[i] == spec_obj_view(tail)[i - 1]);
            }
        }
    }
}

/// Escaping one more character extends the escape of the prefix.
pub proof fn lemma_escape_push(p: Seq<char>, c: char)
    ensures
        spec_escape(p.push(c)) == spec_escape(p) + spec_escaped_char(c),
{
    assert(p.push(c).subrange(0, p.push(c).len() - 1) =~= p);
    assert(p.push(c)[p.push(c).len() - 1] == c);
}

/// One more element extends the comma-separated array text.
pub proof fn lemma_arr_text_push(p: Seq<JsonV>, x: JsonV)
    ensures
        spec_arr_text(p.push(x)) == if p.len() == 0 {
            spec_json_text(x)
        } else {
            spec_arr_text(p) + seq![','] + spec_json_text(x)
        },
{
    assert(p.push(x).subrange(0, p.push(x).len() - 1) =~= p);
    assert(p.push(x)[p.push(x).len() - 1] == x);
}

/// One more field extends the comma-separated object text.
pub proof fn lemma_obj_text_push(p: Seq<(Seq<char>, JsonV)>, x: (Seq<char>, JsonV))
    ensures
        spec_obj_text(p.push(x)) == if p.len() == 0 {
            spec_field_text(x)
        } else {
            spec_obj_text(p) + seq![','] + spec_field_text(x)
        },
{
    assert(p.push(x).subrange(0, p.push(x).len() - 1) =~= p);
    assert(p.push(x)[p.push(x).len() - 1] == x);
}

/// Relies on String::push: appends the given character to the end of the string.
#[verifier::external_body]
pub(crate) fn push_char(out: &mut String, c: char)
    ensures
        final(out)@ == old(out)@ + seq![c],
{
    out.push(c);
}

/// The hexadecimal digit character of a value below sixteen.
fn hex_digit_char(d: u32) -> (r: char)
    requires
        d < 16,
    ensures
        r == spec_hex_digit(d as nat),
{
    if d == 0 {
        '0'
    } else if d == 1 {
        '1'
    } else if d == 2 {
        '2'
    } else if d == 3 {
        '3'
    } else if d == 4 {
        '4'
    } else if d == 5 {
        '5'
    } else if d == 6 {
        '6'
    } else if d == 7 {
        '7'
    } else if d == 8 {
        '8'
    } else if d == 9 {
        '9'
    } else if d == 10 {
        'a'
    } else if d == 11 {
        'b'
    } else if d == 12 {
        'c'
    } else if d == 13 {
        'd'
    } else if d == 14 {
        'e'
    } else {
        'f'
    }
}

/// Appends the escaped characters of `s` to `out`.
fn write_escaped(out: &mut String, s: &str)
    ensures
        final(out)@ == old(out)@ + spec_escape(s@),
{
    let n = s.unicode_len();
    let mut i: usize = 0;
    while i < n
        invariant
            n == s@.len(),
            i <= n,
            out@ == old(out)@ + spec_escape(s@.subrange(0, i as int)),
        decreases n - i,
    {
        let c = s.get_char(i);
        proof {
            assert(s@.subrange(0, i + 1) =~= s@.subrange(0, i as int).push(s@[i as int]));
            lemma_escape_push(s@.subrange(0, i as int), s@[i as int]);
        }
        if c == '"' {
            push_char(out, '\\');
            push_char(out, '"');
        } else if c == '\\' {
            push_char(out, '\\');
            push_char(out, '\\');
        } else if c == '\n' {
            push_char(out, '\\');
            push_char(out, 'n');
        } else if c == '\t' {
            push_char(out, '\\');
            push_char(out, 't');
        } else if c == '\r' {
            push_char(out, '\\');
            push_char(out, 'r');
        } else if (c as u32) < 32 {
            let code = c as u32;
            push_char(out, '\\');
            push_char(out, 'u');
            push_char(out, '0');
            push_char(out, '0');
            push_char(out, hex_digit_char(code / 16));
            push_char(out, hex_digit_char(code % 16));
            proof {
                assert(out@ =~= old(out)@ + spec_escape(s@.subrange(0, i as int))
                    + spec_escaped_char(s@[i as int]));
            }
        } else {
            push_char(out, c);
        }
        i = i + 1;
    }
    proof {
        assert(s@.subrange(0, n as int) =~= s@);
    }
}

/// Appends the JSON string literal for `s` to `out`.
fn write_string_text(out: &mut String, s: &str)
    ensures
        final(out)@ == old(out)@ + spec_string_text(s@),
{
    push_char(out, '"');
    write_escaped(out, s);
    push_char(out, '"');
}

/// Appends the exact text of the tree `j` to `out`.
fn write_json_into(out: &mut String, j: &JsonValue)
    ensures
        final(out)@ == old(out)@ + spec_json_text(j@),
    decreases j,
{
    match j {
        JsonValue::Null => {
            proof {
                reveal_strlit("null");
            }
            out.append("null");
        },
        JsonValue::Bool(b) => {
            proof {
                reveal_strlit("true");
                reveal_strlit("false");
            }
            if *b {
                out.append("true");
            } else {
                out.append("false");
            }
        },
        JsonValue::Int(i) => {
            let t = i64_text(*i);
            out.append(t.as_str());
        },
        JsonValue::Str(s) => {
            write_string_text(out, s.as_str());
        },
        JsonValue::Arr(a) => {
            push_char(out, '[');
            let ghost base: Seq<char> = out@;
            let mut k: usize = 0;
            while k < a.len()
                invariant
                    k <= a.len(),
                    base == old(out)@ + seq!['['],
                    out@ == base + spec_arr_text(spec_arr_view(a@.subrange(0, k as int))),
                    forall|i: int| 0 <= i < a.len() ==> decreases_to!(*j => a@[i]),
                decreases a.len() - k,
            {
                if k > 0 {
                    push_char(out, ',');
                }
                proof {
                    lemma_arr_view_push(a@.subrange(0, k as int), a@[k as int]);
                    lemma_arr_text_push(
                        spec_arr_view(a@.subrange(0, k as int)),
                        a@[k as int]@,
                    );
                    lemma_arr_view_index(a@.subrange(0, k as int));
                    assert(a@.subrange(0, k + 1) =~= a@.subrange(0, k as int).push(a@[k as int]));
                }
                write_json_into(out, &a[k]);
                k = k + 1;
            }
            proof {
                assert(a@.subrange(0, a@.len() as int) =~= a@);
            }
            push_char(out, ']');
        },
        JsonValue::Obj(fields) => {
            push_char(out, '{');
            let ghost base: Seq<char> = out@;
            let mut k: usize = 0;
            while k < fields.len()
                invariant
                    k <= fields.len(),
                    base == old(out)@ + seq!['{'],
                    out@ == base + spec_obj_text(spec_obj_view(fields@.subrange(0, k as int))),
                    forall|i: int| 0 <= i < fields.len() ==> decreases_to!(*j => fields@[i].1),
                decreases fields.len() - k,
            {
                if k > 0 {
                    push_char(out, ',');
                }
                proof {
                    lemma_obj_view_push(fields@.subrange(0, k as int), fields@[k as int]);
                    lemma_obj_text_push(
                        spec_obj_view(fields@.subrange(0, k as int)),
                        (fields@[k as int].0@, fields@[k as int].1@),
                    );
                    lemma_obj_view_index(fields@.subrange(0, k as int));
                    assert(fields@.subrange(0, k + 1) =~= fields@.subrange(0, k as int).push(
                        fields@[k as int],
                    ));
                }
                write_string_text(out, fields[k].0.as_str());
                push_char(out, ':');
                write_json_into(out, &fields[k].1);
                k = k + 1;
            }
            proof {
                assert(fields@.subrange(0, fields@.len() as int) =~= fields@);
            }
            push_char(out, '}');
        },
    }
}

/// One more element extends the model of a tree sequence.
pub proof fn lemma_arr_view_push(p: Seq<JsonValue>, x: JsonValue)
    ensures
        spec_arr_view(p.push(x)) == spec_arr_view(p).push(x@),
    decreases p.len(),
{
    let q = p.push(x);
    assert(q[0] == if p.len() == 0 {
        x
    } else {
        p[0]
    });
    assert(spec_arr_view(q) == seq![q[0]@] + spec_arr_view(q.subrange(1, q.len() as int)));
    if p.len() == 0 {
        assert(q.subrange(1, q.len() as int) =~= Seq::<JsonValue>::empty());
        assert(spec_arr_view(q) =~= spec_arr_view(p).push(x@));
    } else {
        let tail = p.subrange(1, p.len() as int);
        assert(q.subrange(1, q.len() as int) =~= tail.push(x));
        lemma_arr_view_push(tail, x);
        assert(spec_arr_view(p) == seq![p[0]@] + spec_arr_view(tail));
        assert(spec_arr_view(q) =~= spec_arr_view(p).push(x@));
    }
}

/// One more field extends the model of a field sequence.
pub proof fn lemma_obj_view_push(p: Seq<(String, JsonValue)>, x: (String, JsonValue))
    ensures
        spec_obj_view(p.push(x)) == spec_obj_view(p).push((x.0@, x.1@)),
    decreases p.len(),
{
    let q = p.push(x);
    assert(q[0] == if p.len() == 0 {
        x
    } else {
        p[0]
    });
    assert(spec_obj_view(q) == seq![(q[0].0@, q[0].1@)] + spec_obj_view(
        q.subrange(1, q.len() as int),
    ));
    if p.len() == 0 {
        assert(q.subrange(1, q.len() as int) =~= Seq::<(String, JsonValue)>::empty());
        assert(spec_obj_view(q) =~= spec_obj_view(p).push((x.0@, x.1@)));
    } else {
        let tail = p.subrange(1, p.len() as int);
        assert(q.subrange(1, q.len() as int) =~= tail.push(x));
        lemma_obj_view_push(tail, x);
        assert(spec_obj_view(p) == seq![(p[0].0@, p[0].1@)] + spec_obj_view(tail));
        assert(spec_obj_view(q) =~= spec_obj_view(p).push((x.0@, x.1@)));
    }
}

/// The first match wins: a key found at `k`, with no match before it,
/// is what the lookup returns.
proof fn lemma_lookup_first_match(g: Seq<(Seq<char>, JsonV)>, key: Seq<char>, k: int)
    requires
        0 <= k < g.len(),
        forall|i: int| 0 <= i < k ==> g[i].0 != key,
        g[k].0 == key,
    ensures
        spec_lookup_fields(g, key) == Some(g[k].1),
    decreases k,
{
    if k > 0 {
        let tail = g.subrange(1, g.len() as int);
        assert(forall|i: int| 0 <= i < k - 1 ==> tail[i] == g[i + 1]);
        assert(tail[k - 1] == g[k]);
        lemma_lookup_first_match(tail, key, k - 1);
    }
}

/// A key that matches no field is absent.
proof fn lemma_lookup_no_match(g: Seq<(Seq<char>, JsonV)>, key: Seq<char>)
    requires
        forall|i: int| 0 <= i < g.len() ==> g[i].0 != key,
    ensures
        spec_lookup_fields(g, key) is None,
    decreases g.len(),
{
    if g.len() > 0 {
        let tail = g.subrange(1, g.len() as int);
        assert(forall|i: int| 0 <= i < tail.len() ==> tail[i] == g[i + 1]);
        lemma_lookup_no_match(tail, key);
    }
}

/// Finds the value under `key` in an object tree; `None` when the tree is
/// no object or no field carries the key.
pub fn get_field<'a>(j: &'a JsonValue, key: &str) -> (r: Option<&'a JsonValue>)
    ensures
        match r {
            Some(v) => spec_lookup(j@, key@) == Some(v@),
            None => spec_lookup(j@, key@) is None,
        },
{
    match j {
        JsonValue::Obj(fields) => {
            proof {
                lemma_obj_view_index(fields@);
            }
            let ghost g = spec_obj_view(fields@);
            let mut k: usize = 0;
            while k < fields.len()
                invariant
                    k <= fields@.len(),
                    g == spec_obj_view(fields@),
                    j@ == JsonV::Obj(g),
                    g.len() == fields@.len(),
                    forall|i: int| 0 <= i < fields@.len() ==> g[i] == (fields@[i].0@, fields@[i].1@),
                    forall|i: int| 0 <= i < k ==> g[i].0 != key@,
                decreases fields@.len() - k,
            {
                if crate::text::str_eq(fields[k].0.as_str(), key) {
                    proof {
                        assert(j@ == JsonV::Obj(g));
                        lemma_lookup_first_match(g, key@, k as int);
                    }
                    return Some(&fields[k].1);
                }
                k = k + 1;
            }
            proof {
                assert(j@ == JsonV::Obj(g));
                lemma_lookup_no_match(g, key@);
            }
            None
        },
        _ => None,
    }
}

/// Reads any field: `Err` exactly when the key is absent (or the tree is
/// no object).
pub fn get_any_field<'a>(j: &'a JsonValue, key: &str) -> (r: Result<&'a JsonValue, PromError>)
    ensures
        match r {
            Ok(v) => spec_lookup(j@, key@) == Some(v@),
            Err(e) => spec_lookup(j@, key@) is None && e == PromError::Decode,
        },
{
    match get_field(j, key) {
        Some(v) => Ok(v),
        None => Err(PromError::Decode),
    }
}

/// Reads a string field: `Err` exactly when the value under `key` is no
/// JSON string.
pub fn get_str_field(j: &JsonValue, key: &str) -> (r: Result<String, PromError>)
    ensures
        match r {
            Ok(s) => spec_lookup(j@, key@) == Some(JsonV::Str(s@)),
            Err(e) => !(spec_lookup(j@, key@) matches Some(JsonV::Str(_))) && e
                == PromError::Decode,
        },
{
    match get_field(j, key) {
        Some(JsonValue::Str(s)) => Ok(s.clone()),
        _ => Err(PromError::Decode),
    }
}

/// Reads an optional string field: absent and `null` both read as `None`;
/// `Err` exactly when a value of another kind is present.
pub fn get_opt_str_field(j: &JsonValue, key: &str) -> (r: Result<Option<String>, PromError>)
    ensures
        match r {
            Ok(o) => match o {
                Some(s) => spec_lookup(j@, key@) == Some(JsonV::Str(s@)),
                None => spec_lookup(j@, key@) is None || spec_lookup(j@, key@) == Some(
                    JsonV::Null,
                ),
            },
            Err(e) => (spec_lookup(j@, key@) matches Some(v) && !(v is Null) && !(v is Str)) && e
                == PromError::Decode,
        },
{
    match get_field(j, key) {
        Some(JsonValue::Str(s)) => Ok(Some(s.clone())),
        Some(JsonValue::Null) => Ok(None),
        Some(_) => Err(PromError::Decode),
        None => Ok(None),
    }
}

/// Reads an integer field: `Err` exactly when the value under `key` is no
/// JSON integer.
pub fn get_i64_field(j: &JsonValue, key: &str) -> (r: Result<i64, PromError>)
    ensures
        match r {
            Ok(n) => spec_lookup(j@, key@) == Some(JsonV::Int(n as int)),
            Err(e) => !(spec_lookup(j@, key@) matches Some(JsonV::Int(_))) && e
                == PromError::Decode,
        },
{
    match get_field(j, key) {
        Some(JsonValue::Int(n)) => Ok(*n),
        _ => Err(PromError::Decode),
    }
}

/// Reads an integer field that must fit in 32 bits: `Err` exactly when the
/// value is no JSON integer or lies outside the `i32` range.
pub fn get_i32_field(j: &JsonValue, key: &str) -> (r: Result<i32, PromError>)
    ensures
        match r {
            Ok(n) => spec_lookup(j@, key@) == Some(JsonV::Int(n as int)),
            Err(e) => !(spec_lookup(j@, key@) matches Some(JsonV::Int(v)) && i32::MIN <= v
                <= i32::MAX) && e == PromError::Decode,
        },
{
    match get_i64_field(j, key) {
        Ok(n) => {
            if n >= i32::MIN as i64 && n <= i32::MAX as i64 {
                Ok(n as i32)
            } else {
                Err(PromError::Decode)
            }
        },
        Err(e) => Err(e),
    }
}

/// Reads an array field: `Err` exactly when the value under `key` is no
/// JSON array.
pub fn get_arr_field<'a>(j: &'a JsonValue, key: &str) -> (r: Result<
    &'a Vec<JsonValue>,
    PromError,
>)
    ensures
        match r {
            Ok(a) => spec_lookup(j@, key@) == Some(JsonV::Arr(spec_arr_view(a@))),
            Err(e) => !(spec_lookup(j@, key@) matches Some(JsonV::Arr(_))) && e
                == PromError::Decode,
        },
{
    match get_field(j, key) {
        Some(JsonValue::Arr(a)) => Ok(a),
        _ => Err(PromError::Decode),
    }
}

/// Renders a JSON tree as its exact wire text.
pub fn write_json(j: &JsonValue) -> (r: String)
    ensures
        r@ == spec_json_text(j@),
{
    let mut out = String::new();
    write_json_into(&mut out, j);
    out
}

} // verus!
