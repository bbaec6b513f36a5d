//! Reading a JSON tree back off its wire text.
//!
//! The parser accepts the compact form the writer emits: no whitespace
//! between tokens, integers in plain decimal, strings escaping the quote,
//! the backslash and every control character, each in its one canonical
//! form. Its soundness is exact: whenever it returns a tree, the consumed
//! text is precisely that tree's text, so writing the result reproduces
//! the input character for character.

use vstd::prelude::*;
use vstd::string::StrSliceExecFns;
use crate::error::PromError;
use crate::json::JsonValue;
use crate::json::lemma_arr_view_push;
use crate::json::lemma_arr_view_index;
use crate::json::lemma_obj_view_index;
use crate::json::lemma_obj_view_push;
use crate::json::spec_arr_text;
use crate::json::spec_arr_view;
use crate::json::spec_escape;
use crate::json::spec_escaped_char;
use crate::json::spec_field_text;
use crate::json::spec_json_text;
use crate::json::spec_obj_text;
use crate::json::spec_obj_view;
use crate::json::spec_string_text;
use crate::json::spec_hex_digit;
use crate::text::spec_digit_char;
use crate::text::spec_int_text;
use crate::text::spec_nat_text;

verus! {

/// The digit of a decimal character, ten for any other character.
fn digit_of(c: char) -> (r: u64)
    ensures
        r < 10 ==> c == spec_digit_char(r as nat),
        r >= 10 ==> forall|d: nat| d < 10 ==> c != spec_digit_char(d),
{
    if c == '0' {
        0
    } else if c == '1' {
        1
    } else if c == '2' {
        2
    } else if c == '3' {
        3
    } else if c == '4' {
        4
    } else if c == '5' {
        5
    } else if c == '6' {
        6
    } else if c == '7' {
        7
    } else if c == '8' {
        8
    } else if c == '9' {
        9
    } else {
        10
    }
}

/// The value of a hexadecimal digit character, sixteen for any other
/// character.
fn hex_digit_of(c: char) -> (r: u32)
    ensures
        r < 16 ==> c == spec_hex_digit(r as nat),
        r >= 16 ==> forall|d: nat| d < 16 ==> c != spec_hex_digit(d),
{
    if c == '0' {
        0
    } else if c == '1' {
        1
    } else if c == '2' {
        2
    } else if c == '3' {
        3
    } else if c == '4' {
        4
    } else if c == '5' {
        5
    } else if c == '6' {
        6
    } else if c == '7' {
        7
    } else if c == '8' {
        8
    } else if c == '9' {
        9
    } else if c == 'a' {
        10
    } else if c == 'b' {
        11
    } else if c == 'c' {
        12
    } else if c == 'd' {
        13
    } else if c == 'e' {
        14
    } else if c == 'f' {
        15
    } else {
        16
    }
}

/// Appending one digit extends a decimal rendering.
proof fn lemma_nat_text_step(val: nat, d: nat)
    requires
        val > 0,
        d < 10,
    ensures
        spec_nat_text(val * 10 + d) == spec_nat_text(val) + seq![spec_digit_char(d)],
{
    let v = val * 10 + d;
    assert(v >= 10) by (nonlinear_arith)
        requires
            val > 0,
            d < 10,
            v == val * 10 + d,
    ;
    assert(v / 10 == val && v % 10 == d) by (nonlinear_arith)
        requires
            val > 0,
            d < 10,
            v == val * 10 + d,
    ;
}

/// Parses the decimal integer at `i`; on success the consumed characters
/// are exactly the decimal rendering of the value.
fn parse_int(s: &str, i: usize, n: usize) -> (r: Result<(i64, usize), PromError>)
    requires
        n == s@.len(),
        i < n,
    ensures
        match r {
            Ok((v, j)) => i < j <= n && s@.subrange(i as int, j as int) == spec_int_text(
                v as int,
            ),
            Err(e) => e == PromError::Decode,
        },
{
    let neg = s.get_char(i) == '-';
    let d0: usize = if neg {
        i + 1
    } else {
        i
    };
    if d0 >= n {
        return Err(PromError::Decode);
    }
    let first = digit_of(s.get_char(d0));
    if first >= 10 {
        return Err(PromError::Decode);
    }
    let mut val: u64 = first;
    let mut j: usize = d0 + 1;
    proof {
        assert(s@.subrange(d0 as int, j as int) =~= seq![spec_digit_char(first as nat)]);
    }
    while j < n
        invariant
            n == s@.len(),
            d0 < j <= n,
            s@.subrange(d0 as int, j as int) == spec_nat_text(val as nat),
        decreases n - j,
    {
        let d = digit_of(s.get_char(j));
        if d >= 10 {
            break ;
        }
        if val == 0 {
            // a further digit after a leading zero has no decimal rendering
            return Err(PromError::Decode);
        }
        if val > (u64::MAX - 9) / 10 {
            return Err(PromError::Decode);
        }
        proof {
            lemma_nat_text_step(val as nat, d as nat);
            assert(s@.subrange(d0 as int, j + 1) =~= s@.subrange(d0 as int, j as int).push(
                s@[j as int],
            ));
        }
        val = val * 10 + d;
        j = j + 1;
    }
    if neg {
        if val == 0 {
            // a minus sign before zero has no decimal rendering
            return Err(PromError::Decode);
        }
        let v: i64 = if val <= i64::MAX as u64 {
            -(val as i64)
        } else if val == i64::MAX as u64 + 1 {
            i64::MIN
        } else {
            return Err(PromError::Decode);
        };
        proof {
            assert(-(v as int) == val as int);
            assert(s@.subrange(i as int, j as int) =~= seq!['-'] + s@.subrange(
                d0 as int,
                j as int,
            ));
        }
        Ok((v, j))
    } else {
        if val > i64::MAX as u64 {
            return Err(PromError::Decode);
        }
        Ok((val as i64, j))
    }
}

/// Parses the string literal at `i`; on success the consumed characters
/// are exactly the literal of the returned content.
fn parse_string(s: &str, i: usize, n: usize) -> (r: Result<(String, usize), PromError>)
    requires
        n == s@.len(),
        i < n,
        s@[i as int] == '"',
    ensures
        match r {
            Ok((v, j)) => i < j <= n && s@.subrange(i as int, j as int) == spec_string_text(v@),
            Err(e) => e == PromError::Decode,
        },
{
    let mut content = String::new();
    let mut j: usize = i + 1;
    loop
        invariant
            n == s@.len(),
            i < j <= n,
            s@[i as int] == '"',
            s@.subrange(i + 1, j as int) == spec_escape(content@),
        decreases n - j,
    {
        if j >= n {
            return Err(PromError::Decode);
        }
        let c = s.get_char(j);
        if c == '"' {
            proof {
                assert(s@.subrange(i as int, j + 1) =~= seq!['"'] + spec_escape(content@)
                    + seq!['"']);
            }
            return Ok((content, j + 1));
        } else if c == '\\' {
            if j + 1 >= n {
                return Err(PromError::Decode);
            }
            let d = s.get_char(j + 1);
            if d == '"' || d == '\\' || d == 'n' || d == 't' || d == 'r' {
                let e: char = if d == 'n' {
                    '\n'
                } else if d == 't' {
                    '\t'
                } else if d == 'r' {
                    '\r'
                } else {
                    d
                };
                let ghost p = content@;
                crate::json::push_char(&mut content, e);
                proof {
                    assert(content@ =~= p.push(e));
                    crate::json::lemma_escape_push(p, e);
                    assert(spec_escaped_char(e) =~= seq!['\\', d]);
                    assert(s@.subrange(i + 1, j + 2) =~= s@.subrange(i + 1, j as int) + seq![
                        '\\',
                        d,
                    ]);
                }
                j = j + 2;
            } else if d == 'u' {
                if n - j < 6 {
                    return Err(PromError::Decode);
                }
                if s.get_char(j + 2) != '0' || s.get_char(j + 3) != '0' {
                    return Err(PromError::Decode);
                }
                let h1 = hex_digit_of(s.get_char(j + 4));
                let h2 = hex_digit_of(s.get_char(j + 5));
                if h1 >= 16 || h2 >= 16 {
                    return Err(PromError::Decode);
                }
                let code: u32 = h1 * 16 + h2;
                // only control characters without a short form travel as \u00..
                if code >= 32 || code == 9 || code == 10 || code == 13 {
                    return Err(PromError::Decode);
                }
                let e: char = (code as u8) as char;
                let ghost p = content@;
                crate::json::push_char(&mut content, e);
                proof {
                    assert((e as u32) == code);
                    assert(e != '"' && e != '\\' && e != '\n' && e != '\t' && e != '\r');
                    assert(code / 16 == h1 && code % 16 == h2) by (nonlinear_arith)
                        requires
                            code == h1 * 16 + h2,
                            h2 < 16,
                    ;
                    assert(content@ =~= p.push(e));
                    crate::json::lemma_escape_push(p, e);
                    assert(spec_escaped_char(e) =~= seq![
                        '\\',
                        'u',
                        '0',
                        '0',
                        spec_hex_digit(h1 as nat),
                        spec_hex_digit(h2 as nat),
                    ]);
                    assert(s@.subrange(i + 1, j + 6) =~= s@.subrange(i + 1, j as int) + seq![
                        '\\',
                        'u',
                        '0',
                        '0',
                        s@[j + 4],
                        s@[j + 5],
                    ]);
                }
                j = j + 6;
            } else {
                return Err(PromError::Decode);
            }
        } else if (c as u32) < 32 {
            // a raw control character has no place inside the compact form
            return Err(PromError::Decode);
        } else {
            let ghost p = content@;
            crate::json::push_char(&mut content, c);
            proof {
                assert(content@ =~= p.push(c));
                crate::json::lemma_escape_push(p, c);
                assert(spec_escaped_char(c) =~= seq![c]);
                assert(s@.subrange(i + 1, j + 1) =~= s@.subrange(i + 1, j as int) + seq![c]);
            }
            j = j + 1;
        }
    }
}

/// Checks that the literal token `lit` stands at `i`.
fn expect_literal(s: &str, i: usize, n: usize, lit: &str) -> (r: bool)
    requires
        n == s@.len(),
        i <= n,
    ensures
        r ==> i + lit@.len() <= n && s@.subrange(i as int, i + lit@.len()) == lit@,
{
    let m = lit.unicode_len();
    if n - i < m {
        return false;
    }
    let mut k: usize = 0;
    while k < m
        invariant
            n == s@.len(),
            m == lit@.len(),
            i + m <= n,
            k <= m,
            forall|t: int| 0 <= t < k ==> s@[i + t] == lit@[t],
        decreases m - k,
    {
        if s.get_char(i + k) != lit.get_char(k) {
            return false;
        }
        k = k + 1;
    }
    proof {
        assert(s@.subrange(i as int, i + lit@.len()) =~= lit@);
    }
    true
}

/// Parses the value at `i`; on success the consumed characters are exactly
/// the returned tree's text.
fn parse_value(s: &str, i: usize, n: usize) -> (r: Result<(JsonValue, usize), PromError>)
    requires
        n == s@.len(),
        i <= n,
    ensures
        match r {
            Ok((v, j)) => i < j <= n && s@.subrange(i as int, j as int) == spec_json_text(v@),
            Err(e) => e == PromError::Decode,
        },
    decreases n - i, 1int,
{
    if i >= n {
        return Err(PromError::Decode);
    }
    let c = s.get_char(i);
    if c == 'n' {
        if expect_literal(s, i, n, "null") {
            proof {
                reveal_strlit("null");
            }
            Ok((JsonValue::Null, i + 4))
        } else {
            Err(PromError::Decode)
        }
    } else if c == 't' {
        if expect_literal(s, i, n, "true") {
            proof {
                reveal_strlit("true");
            }
            Ok((JsonValue::Bool(true), i + 4))
        } else {
            Err(PromError::Decode)
        }
    } else if c == 'f' {
        if expect_literal(s, i, n, "false") {
            proof {
                reveal_strlit("false");
            }
            Ok((JsonValue::Bool(false), i + 5))
        } else {
            Err(PromError::Decode)
        }
    } else if c == '"' {
        match parse_string(s, i, n) {
            Ok((content, j)) => Ok((JsonValue::Str(content), j)),
            Err(e) => Err(e),
        }
    } else if c == '[' {
        parse_array(s, i, n)
    } else if c == '{' {
        parse_object(s, i, n)
    } else {
        match parse_int(s, i, n) {
            Ok((v, j)) => Ok((JsonValue::Int(v), j)),
            Err(e) => Err(e),
        }
    }
}

/// Parses the array at `i`.
fn parse_array(s: &str, i: usize, n: usize) -> (r: Result<(JsonValue, usize), PromError>)
    requires
        n == s@.len(),
        i < n,
        s@[i as int] == '[',
    ensures
        match r {
            Ok((v, j)) => i < j <= n && s@.subrange(i as int, j as int) == spec_json_text(v@),
            Err(e) => e == PromError::Decode,
        },
    decreases n - i, 0int,
{
    let mut items: Vec<JsonValue> = Vec::new();
    let mut cur: usize = i + 1;
    if cur < n && s.get_char(cur) == ']' {
        let v = JsonValue::Arr(items);
        proof {
            assert(s@.subrange(i as int, cur + 1) =~= seq!['['] + spec_arr_text(
                spec_arr_view(Seq::<JsonValue>::empty()),
            ) + seq![']']);
        }
        return Ok((v, cur + 1));
    }
    loop
        invariant
            n == s@.len(),
            i < cur <= n,
            s@[i as int] == '[',
            items@.len() == 0 ==> cur == i + 1,
            items@.len() > 0 ==> s@.subrange(i + 1, cur as int) == spec_arr_text(
                spec_arr_view(items@),
            ) + seq![','],
        decreases n - cur,
    {
        let (v, j) = match parse_value(s, cur, n) {
            Ok(p) => p,
            Err(e) => {
                return Err(e);
            },
        };
        let ghost old_items = items@;
        let ghost gv = v;
        proof {
            lemma_arr_view_index(old_items);
            lemma_arr_view_push(old_items, gv);
            crate::json::lemma_arr_text_push(spec_arr_view(old_items), gv@);
        }
        items.push(v);
        proof {
            assert(items@ == old_items.push(gv));
            if old_items.len() == 0 {
                assert(s@.subrange(i + 1, j as int) == spec_json_text(gv@));
            } else {
                assert(s@.subrange(i + 1, j as int) =~= s@.subrange(i + 1, cur as int) + s@
                    .subrange(cur as int, j as int));
            }
            assert(s@.subrange(i + 1, j as int) =~= spec_arr_text(spec_arr_view(items@)));
        }
        cur = j;
        if cur >= n {
            return Err(PromError::Decode);
        }
        let c = s.get_char(cur);
        if c == ']' {
            proof {
                assert(s@.subrange(i as int, cur + 1) =~= seq!['['] + spec_arr_text(
                    spec_arr_view(items@),
                ) + seq![']']);
            }
            return Ok((JsonValue::Arr(items), cur + 1));
        } else if c == ',' {
            proof {
                assert(s@.subrange(i + 1, cur + 1) =~= s@.subrange(i + 1, cur as int) + seq![
                    ',',
                ]);
            }
            cur = cur + 1;
        } else {
            return Err(PromError::Decode);
        }
    }
}

/// Parses the object at `i`.
fn parse_object(s: &str, i: usize, n: usize) -> (r: Result<(JsonValue, usize), PromError>)
    requires
        n == s@.len(),
        i < n,
        s@[i as int] == '{',
    ensures
        match r {
            Ok((v, j)) => i < j <= n && s@.subrange(i as int, j as int) == spec_json_text(v@),
            Err(e) => e == PromError::Decode,
        },
    decreases n - i, 0int,
{
    let mut fields: Vec<(String, JsonValue)> = Vec::new();
    let mut cur: usize = i + 1;
    if cur < n && s.get_char(cur) == '}' {
        let v = JsonValue::Obj(fields);
        proof {
            assert(s@.subrange(i as int, cur + 1) =~= seq!['{'] + spec_obj_text(
                spec_obj_view(Seq::<(String, JsonValue)>::empty()),
            ) + seq!['}']);
        }
        return Ok((v, cur + 1));
    }
    loop
        invariant
            n == s@.len(),
            i < cur <= n,
            s@[i as int] == '{',
            fields@.len() == 0 ==> cur == i + 1,
            fields@.len() > 0 ==> s@.subrange(i + 1, cur as int) == spec_obj_text(
                spec_obj_view(fields@),
            ) + seq![','],
        decreases n - cur,
    {
        if cur >= n || s.get_char(cur) != '"' {
            return Err(PromError::Decode);
        }
        let (key, jk) = match parse_string(s, cur, n) {
            Ok(p) => p,
            Err(e) => {
                return Err(e);
            },
        };
        if jk >= n || s.get_char(jk) != ':' {
            return Err(PromError::Decode);
        }
        let (v, j) = match parse_value(s, jk + 1, n) {
            Ok(p) => p,
            Err(e) => {
                return Err(e);
            },
        };
        let ghost old_fields = fields@;
        let ghost gx: (String, JsonValue) = (key, v);
        proof {
            lemma_obj_view_index(old_fields);
            lemma_obj_view_push(old_fields, gx);
            crate::json::lemma_obj_text_push(spec_obj_view(old_fields), (gx.0@, gx.1@));
            assert(s@.subrange(cur as int, j as int) =~= s@.subrange(cur as int, jk as int)
                + seq![':'] + s@.subrange(jk + 1, j as int));
            assert(s@.subrange(cur as int, j as int) == spec_field_text((gx.0@, gx.1@)));
        }
        fields.push((key, v));
        proof {
            assert(fields@ == old_fields.push(gx));
            if old_fields.len() == 0 {
                assert(s@.subrange(i + 1, j as int) =~= s@.subrange(cur as int, j as int));
            } else {
                assert(s@.subrange(i + 1, j as int) =~= s@.subrange(i + 1, cur as int) + s@
                    .subrange(cur as int, j as int));
            }
            assert(s@.subrange(i + 1, j as int) =~= spec_obj_text(spec_obj_view(fields@)));
        }
        cur = j;
        if cur >= n {
            return Err(PromError::Decode);
        }
        let c = s.get_char(cur);
        if c == '}' {
            proof {
                assert(s@.subrange(i as int, cur + 1) =~= seq!['{'] + spec_obj_text(
                    spec_obj_view(fields@),
                ) + seq!['}']);
            }
            return Ok((JsonValue::Obj(fields), cur + 1));
        } else if c == ',' {
            proof {
                assert(s@.subrange(i + 1, cur + 1) =~= s@.subrange(i + 1, cur as int) + seq![
                    ',',
                ]);
            }
            cur = cur + 1;
        } else {
            return Err(PromError::Decode);
        }
    }
}

/// Parses a whole body in the writer's compact form. Soundness is exact:
/// on `Ok` the input is character for character the text of the returned
/// tree, so `write_json` inverts this function. Which texts are accepted
/// is not stated: a blanket completeness claim would be false of the
/// model, whose integers are unbounded while the tree carries 64 bits.
pub fn parse_json(s: &str) -> (r: Result<JsonValue, PromError>)
    ensures
        match r {
            Ok(v) => s@ == spec_json_text(v@),
            Err(e) => e == PromError::Decode,
        },
{
    let n = s.unicode_len();
    match parse_value(s, 0, n) {
        Ok((v, j)) => {
            if j == n {
                proof {
                    assert(s@.subrange(0, n as int) =~= s@);
                }
                Ok(v)
            } else {
                Err(PromError::Decode)
            }
        },
        Err(e) => Err(e),
    }
}

} // verus!
