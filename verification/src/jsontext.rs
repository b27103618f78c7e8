//! JSON syntax over character sequences.
//!
//! The override file is a JSON document.  This module defines, as spec
//! functions over `Seq<char>`, what a JSON value is and where it ends, and
//! provides verified executable scanners that follow those definitions
//! exactly.  Strings are decoded (escapes included); numbers, booleans and
//! nulls are only validated and skipped, since no caller reads them.
//!
//! Every position-taking spec function receives the whole text `s` and a
//! position `i`; a scanner returns the position just past what it consumed.

use crate::text::char_from_u32;
use vstd::prelude::*;

verus! {

/// JSON insignificant whitespace: space, tab, line feed, carriage return.
pub open spec fn is_json_ws(c: char) -> bool {
    c == ' ' || c == '\t' || c == '\n' || c == '\r'
}

/// First position at or after `i` holding no JSON whitespace.
pub open spec fn skip_ws(s: Seq<char>, i: int) -> int
    decreases s.len() - i,
{
    if 0 <= i < s.len() && is_json_ws(s[i]) {
        skip_ws(s, i + 1)
    } else {
        i
    }
}

/// Skipping whitespace neither moves backwards nor leaves the text.
pub proof fn lemma_skip_ws(s: Seq<char>, i: int)
    requires
        0 <= i <= s.len(),
    ensures
        i <= skip_ws(s, i) <= s.len(),
    decreases s.len() - i,
{
    if i < s.len() && is_json_ws(s[i]) {
        lemma_skip_ws(s, i + 1);
    }
}

/// Decimal digit.
pub open spec fn is_digit(c: char) -> bool {
    48 <= c as u32 <= 57
}

/// Value of one hexadecimal digit, if `c` is one.
pub open spec fn hex_val(c: char) -> Option<u32> {
    let u = c as u32;
    if 48 <= u <= 57 {
        Some((u - 48) as u32)
    } else if 97 <= u <= 102 {
        Some((u - 87) as u32)
    } else if 65 <= u <= 70 {
        Some((u - 55) as u32)
    } else {
        None
    }
}

/// Value of the four hexadecimal digits starting at `i`, if they are there.
pub open spec fn hex4(s: Seq<char>, i: int) -> Option<u32> {
    if 0 <= i && i + 4 <= s.len() {
        match (hex_val(s[i]), hex_val(s[i + 1]), hex_val(s[i + 2]), hex_val(s[i + 3])) {
            (Some(a), Some(b), Some(c), Some(d)) => Some(
                (0x1000 * a + 0x100 * b + 0x10 * c + d) as u32,
            ),
            _ => None,
        }
    } else {
        None
    }
}

/// Decodes the escape whose introducing backslash stands just before `i`:
/// the decoded character and the position after the escape.  A high
/// surrogate must be completed by a second `\u` escape holding a low
/// surrogate; a lone surrogate is refused.
pub open spec fn esc(s: Seq<char>, i: int) -> Option<(char, int)> {
    if !(0 <= i < s.len()) {
        None
    } else {
        let c = s[i];
        if c == '"' {
            Some(('"', i + 1))
        } else if c == '\\' {
            Some(('\\', i + 1))
        } else if c == '/' {
            Some(('/', i + 1))
        } else if c == 'b' {
            Some(('\u{0008}', i + 1))
        } else if c == 'f' {
            Some(('\u{000C}', i + 1))
        } else if c == 'n' {
            Some(('\n', i + 1))
        } else if c == 'r' {
            Some(('\r', i + 1))
        } else if c == 't' {
            Some(('\t', i + 1))
        } else if c == 'u' {
            match hex4(s, i + 1) {
                None => None,
                Some(h) => {
                    if 0xD800 <= h < 0xDC00 {
                        if i + 7 <= s.len() && s[i + 5] == '\\' && s[i + 6] == 'u' {
                            match hex4(s, i + 7) {
                                None => None,
                                Some(l) => {
                                    if 0xDC00 <= l < 0xE000 {
                                        Some(
                                            (
                                                ((0x10000 + (h - 0xD800) * 0x400 + (l
                                                    - 0xDC00)) as u32) as char,
                                                i + 11,
                                            ),
                                        )
                                    } else {
                                        None
                                    }
                                },
                            }
                        } else {
                            None
                        }
                    } else if 0xDC00 <= h < 0xE000 {
                        None
                    } else {
                        Some((h as char, i + 5))
                    }
                },
            }
        } else {
            None
        }
    }
}

/// Decodes a string body beginning at `i`, just after the opening quote:
/// the decoded content and the position after the closing quote.  Raw
/// control characters below 0x20 are refused.
pub open spec fn str_body(s: Seq<char>, i: int) -> Option<(Seq<char>, int)>
    decreases s.len() - i,
{
    if !(0 <= i < s.len()) {
        None
    } else {
        let c = s[i];
        if c == '"' {
            Some((Seq::empty(), i + 1))
        } else if c == '\\' {
            match esc(s, i + 1) {
                None => None,
                Some((ch, j)) => if i < j {
                    match str_body(s, j) {
                        None => None,
                        Some((rest, e)) => Some((seq![ch] + rest, e)),
                    }
                } else {
                    None
                },
            }
        } else if (c as u32) < 0x20 {
            None
        } else {
            match str_body(s, i + 1) {
                None => None,
                Some((rest, e)) => Some((seq![c] + rest, e)),
            }
        }
    }
}

/// Decodes the string literal starting at `i` (at its opening quote).
pub open spec fn parse_string(s: Seq<char>, i: int) -> Option<(Seq<char>, int)> {
    if 0 <= i < s.len() && s[i] == '"' {
        str_body(s, i + 1)
    } else {
        None
    }
}

/// First position at or after `i` holding no decimal digit.
pub open spec fn digits_end(s: Seq<char>, i: int) -> int
    decreases s.len() - i,
{
    if 0 <= i < s.len() && is_digit(s[i]) {
        digits_end(s, i + 1)
    } else {
        i
    }
}

/// A digit run neither moves backwards nor leaves the text.
pub proof fn lemma_digits_end(s: Seq<char>, i: int)
    requires
        0 <= i <= s.len(),
    ensures
        i <= digits_end(s, i) <= s.len(),
    decreases s.len() - i,
{
    if i < s.len() && is_digit(s[i]) {
        lemma_digits_end(s, i + 1);
    }
}

/// End of the integer part starting at `i`: a single `0`, or a nonzero
/// digit followed by any digits.
pub open spec fn int_end(s: Seq<char>, i: int) -> Option<int> {
    if !(0 <= i < s.len()) {
        None
    } else if s[i] == '0' {
        Some(i + 1)
    } else if is_digit(s[i]) {
        Some(digits_end(s, i))
    } else {
        None
    }
}

/// End of the optional fraction part standing at `i`.
pub open spec fn frac_end(s: Seq<char>, i: int) -> Option<int> {
    if 0 <= i < s.len() && s[i] == '.' {
        if i + 1 < s.len() && is_digit(s[i + 1]) {
            Some(digits_end(s, i + 1))
        } else {
            None
        }
    } else {
        Some(i)
    }
}

/// End of the optional exponent part standing at `i`.
pub open spec fn exp_end(s: Seq<char>, i: int) -> Option<int> {
    if 0 <= i < s.len() && (s[i] == 'e' || s[i] == 'E') {
        let j = if i + 1 < s.len() && (s[i + 1] == '+' || s[i + 1] == '-') {
            i + 2
        } else {
            i + 1
        };
        if 0 <= j < s.len() && is_digit(s[j]) {
            Some(digits_end(s, j))
        } else {
            None
        }
    } else {
        Some(i)
    }
}

/// End of the JSON number starting at `i`.
pub open spec fn number_end(s: Seq<char>, i: int) -> Option<int> {
    let st = if 0 <= i < s.len() && s[i] == '-' {
        i + 1
    } else {
        i
    };
    match int_end(s, st) {
        None => None,
        Some(j) => match frac_end(s, j) {
            None => None,
            Some(k) => exp_end(s, k),
        },
    }
}

/// Whether the literal `null` stands at `i`.
pub open spec fn null_at(s: Seq<char>, i: int) -> bool {
    0 <= i && i + 4 <= s.len() && s[i] == 'n' && s[i + 1] == 'u' && s[i + 2] == 'l' && s[i + 3]
        == 'l'
}

/// End of the JSON value starting at `i` (no leading whitespace expected):
/// the position just past the value, or `None` where no value stands there.
pub open spec fn skip_value(s: Seq<char>, i: int) -> Option<int>
    decreases s.len() - i, 0int,
{
    if !(0 <= i < s.len()) {
        None
    } else {
        let c = s[i];
        if c == '"' {
            match parse_string(s, i) {
                None => None,
                Some((content, e)) => Some(e),
            }
        } else if c == '[' {
            let j = skip_ws(s, i + 1);
            if i < j <= s.len() {
                arr_tail(s, j)
            } else {
                None
            }
        } else if c == '{' {
            let j = skip_ws(s, i + 1);
            if i < j <= s.len() {
                obj_tail(s, j)
            } else {
                None
            }
        } else if c == 't' {
            if i + 4 <= s.len() && s[i + 1] == 'r' && s[i + 2] == 'u' && s[i + 3] == 'e' {
                Some(i + 4)
            } else {
                None
            }
        } else if c == 'f' {
            if i + 5 <= s.len() && s[i + 1] == 'a' && s[i + 2] == 'l' && s[i + 3] == 's' && s[i + 4]
                == 'e' {
                Some(i + 5)
            } else {
                None
            }
        } else if c == 'n' {
            if null_at(s, i) {
                Some(i + 4)
            } else {
                None
            }
        } else if c == '-' || is_digit(c) {
            number_end(s, i)
        } else {
            None
        }
    }
}

/// End of an array whose opening bracket and following whitespace are
/// behind `i`: either the closing bracket stands here, or items follow.
pub open spec fn arr_tail(s: Seq<char>, i: int) -> Option<int>
    decreases s.len() - i, 2int,
{
    if !(0 <= i < s.len()) {
        None
    } else if s[i] == ']' {
        Some(i + 1)
    } else {
        arr_items(s, i)
    }
}

/// End of the item list whose next item starts at `i`.
pub open spec fn arr_items(s: Seq<char>, i: int) -> Option<int>
    decreases s.len() - i, 1int,
{
    match skip_value(s, i) {
        None => None,
        Some(j) => {
            let k = skip_ws(s, j);
            if 0 <= k < s.len() && s[k] == ']' {
                Some(k + 1)
            } else if 0 <= k < s.len() && s[k] == ',' {
                let m = skip_ws(s, k + 1);
                if i < m <= s.len() {
                    arr_items(s, m)
                } else {
                    None
                }
            } else {
                None
            }
        },
    }
}

/// End of an object whose opening brace and following whitespace are
/// behind `i`: either the closing brace stands here, or members follow.
pub open spec fn obj_tail(s: Seq<char>, i: int) -> Option<int>
    decreases s.len() - i, 2int,
{
    if !(0 <= i < s.len()) {
        None
    } else if s[i] == '}' {
        Some(i + 1)
    } else {
        obj_members(s, i)
    }
}

/// End of the member list whose next member's key starts at `i`.
pub open spec fn obj_members(s: Seq<char>, i: int) -> Option<int>
    decreases s.len() - i, 1int,
{
    match parse_string(s, i) {
        None => None,
        Some((key, j)) => {
            let c1 = skip_ws(s, j);
            if 0 <= c1 < s.len() && s[c1] == ':' {
                let vi = skip_ws(s, c1 + 1);
                if i < vi <= s.len() {
                    match skip_value(s, vi) {
                        None => None,
                        Some(w) => {
                            let k = skip_ws(s, w);
                            if 0 <= k < s.len() && s[k] == '}' {
                                Some(k + 1)
                            } else if 0 <= k < s.len() && s[k] == ',' {
                                let m = skip_ws(s, k + 1);
                                if i < m <= s.len() {
                                    obj_members(s, m)
                                } else {
                                    None
                                }
                            } else {
                                None
                            }
                        },
                    }
                } else {
                    None
                }
            } else {
                None
            }
        },
    }
}

/// Whether the whole text is one JSON array with nothing but whitespace
/// around it.
pub open spec fn is_json_array_doc(s: Seq<char>) -> bool {
    let i = skip_ws(s, 0);
    0 <= i < s.len() && s[i] == '[' && (match skip_value(s, i) {
        Some(e) => skip_ws(s, e) == s.len(),
        None => false,
    })
}

/// Scanner for [`skip_ws`].
pub fn skip_ws_x(s: &Vec<char>, i: usize) -> (r: usize)
    requires
        i <= s@.len(),
    ensures
        r as int == skip_ws(s@, i as int),
        i <= r <= s@.len(),
{
    let mut j = i;
    while j < s.len() && (s[j] == ' ' || s[j] == '\t' || s[j] == '\n' || s[j] == '\r')
        invariant
            i <= j <= s@.len(),
            skip_ws(s@, i as int) == skip_ws(s@, j as int),
        decreases s@.len() - j,
    {
        j = j + 1;
    }
    j
}

/// Scanner for [`hex_val`].
fn hex_val_x(c: char) -> (r: Option<u32>)
    ensures
        r == hex_val(c),
{
    let u = c as u32;
    if 48 <= u && u <= 57 {
        Some(u - 48)
    } else if 97 <= u && u <= 102 {
        Some(u - 87)
    } else if 65 <= u && u <= 70 {
        Some(u - 55)
    } else {
        None
    }
}

/// Scanner for [`hex4`].
fn hex4_x(s: &Vec<char>, i: usize) -> (r: Option<u32>)
    requires
        i <= s@.len(),
    ensures
        r == hex4(s@, i as int),
{
    if s.len() - i < 4 {
        return None;
    }
    match (hex_val_x(s[i]), hex_val_x(s[i + 1]), hex_val_x(s[i + 2]), hex_val_x(s[i + 3])) {
        (Some(a), Some(b), Some(c), Some(d)) => Some(0x1000 * a + 0x100 * b + 0x10 * c + d),
        _ => None,
    }
}

/// Scanner for [`esc`].
fn esc_x(s: &Vec<char>, i: usize) -> (r: Option<(char, usize)>)
    requires
        i <= s@.len(),
    ensures
        match r {
            Some((c, j)) => esc(s@, i as int) == Some((c, j as int)) && i < j <= s@.len(),
            None => esc(s@, i as int) is None,
        },
{
    if i >= s.len() {
        return None;
    }
    let c = s[i];
    if c == '"' {
        Some(('"', i + 1))
    } else if c == '\\' {
        Some(('\\', i + 1))
    } else if c == '/' {
        Some(('/', i + 1))
    } else if c == 'b' {
        Some(('\u{0008}', i + 1))
    } else if c == 'f' {
        Some(('\u{000C}', i + 1))
    } else if c == 'n' {
        Some(('\n', i + 1))
    } else if c == 'r' {
        Some(('\r', i + 1))
    } else if c == 't' {
        Some(('\t', i + 1))
    } else if c == 'u' {
        match hex4_x(s, i + 1) {
            None => None,
            Some(h) => {
                if 0xD800 <= h && h < 0xDC00 {
                    if s.len() - i >= 7 && s[i + 5] == '\\' && s[i + 6] == 'u' {
                        match hex4_x(s, i + 7) {
                            None => None,
                            Some(l) => {
                                if 0xDC00 <= l && l < 0xE000 {
                                    let u = 0x10000 + (h - 0xD800) * 0x400 + (l - 0xDC00);
                                    match char_from_u32(u) {
                                        Some(ch) => Some((ch, i + 11)),
                                        None => None,
                                    }
                                } else {
                                    None
                                }
                            },
                        }
                    } else {
                        None
                    }
                } else if 0xDC00 <= h && h < 0xE000 {
                    None
                } else {
                    match char_from_u32(h) {
                        Some(ch) => Some((ch, i + 5)),
                        None => None,
                    }
                }
            },
        }
    } else {
        None
    }
}

/// Scanner for [`parse_string`]: the decoded content and the position after
/// the closing quote.
pub fn parse_string_x(s: &Vec<char>, i: usize) -> (r: Option<(Vec<char>, usize)>)
    requires
        i <= s@.len(),
    ensures
        match r {
            Some((v, j)) => parse_string(s@, i as int) == Some((v@, j as int)) && i < j <= s@.len(),
            None => parse_string(s@, i as int) is None,
        },
{
    if i >= s.len() || s[i] != '"' {
        return None;
    }
    let mut j = i + 1;
    let mut acc: Vec<char> = Vec::new();
    loop
        invariant
            i + 1 <= j <= s@.len(),
            s@[i as int] == '"',
            str_body(s@, i as int + 1) == (match str_body(s@, j as int) {
                Some((rest, e)) => Some((acc@ + rest, e)),
                None => None::<(Seq<char>, int)>,
            }),
        decreases s@.len() - j,
    {
        if j >= s.len() {
            return None;
        }
        let c = s[j];
        if c == '"' {
            proof {
                assert(str_body(s@, j as int) == Some((Seq::<char>::empty(), j as int + 1)));
                assert(acc@ + Seq::<char>::empty() =~= acc@);
            }
            return Some((acc, j + 1));
        }
        if c == '\\' {
            match esc_x(s, j + 1) {
                None => {
                    return None;
                },
                Some((ch, j2)) => {
                    proof {
                        if str_body(s@, j2 as int) is Some {
                            let (rest, e) = str_body(s@, j2 as int)->Some_0;
                            assert(str_body(s@, j as int) == Some((seq![ch] + rest, e)));
                            assert(acc@ + (seq![ch] + rest) =~= (acc@ + seq![ch]) + rest);
                        } else {
                            assert(str_body(s@, j as int) is None);
                        }
                    }
                    acc.push(ch);
                    j = j2;
                },
            }
        } else if (c as u32) < 0x20 {
            return None;
        } else {
            proof {
                if str_body(s@, j as int + 1) is Some {
                    let (rest, e) = str_body(s@, j as int + 1)->Some_0;
                    assert(str_body(s@, j as int) == Some((seq![c] + rest, e)));
                    assert(acc@ + (seq![c] + rest) =~= (acc@ + seq![c]) + rest);
                } else {
                    assert(str_body(s@, j as int) is None);
                }
            }
            acc.push(c);
            j = j + 1;
        }
    }
}

/// Scanner for [`digits_end`].
fn digits_end_x(s: &Vec<char>, i: usize) -> (r: usize)
    requires
        i <= s@.len(),
    ensures
        r as int == digits_end(s@, i as int),
        i <= r <= s@.len(),
{
    let mut j = i;
    while j < s.len() && 48 <= s[j] as u32 && s[j] as u32 <= 57
        invariant
            i <= j <= s@.len(),
            digits_end(s@, i as int) == digits_end(s@, j as int),
        decreases s@.len() - j,
    {
        j = j + 1;
    }
    j
}

/// Scanner for [`number_end`].
fn number_end_x(s: &Vec<char>, i: usize) -> (r: Option<usize>)
    requires
        i <= s@.len(),
    ensures
        match r {
            Some(j) => number_end(s@, i as int) == Some(j as int) && i < j <= s@.len(),
            None => number_end(s@, i as int) is None,
        },
{
    if i >= s.len() {
        return None;
    }
    let st = if s[i] == '-' {
        i + 1
    } else {
        i
    };
    // integer part
    let j = if st >= s.len() {
        return None;
    } else if s[st] == '0' {
        st + 1
    } else if 48 <= s[st] as u32 && s[st] as u32 <= 57 {
        proof {
            lemma_digits_end(s@, st + 1);
        }
        digits_end_x(s, st)
    } else {
        return None;
    };
    // fraction part
    let k = if j < s.len() && s[j] == '.' {
        if j + 1 < s.len() && 48 <= s[j + 1] as u32 && s[j + 1] as u32 <= 57 {
            digits_end_x(s, j + 1)
        } else {
            return None;
        }
    } else {
        j
    };
    // exponent part
    if k < s.len() && (s[k] == 'e' || s[k] == 'E') {
        let m = if k + 1 < s.len() && (s[k + 1] == '+' || s[k + 1] == '-') {
            k + 2
        } else {
            k + 1
        };
        if m < s.len() && 48 <= s[m] as u32 && s[m] as u32 <= 57 {
            Some(digits_end_x(s, m))
        } else {
            None
        }
    } else {
        Some(k)
    }
}

/// Scanner for [`skip_value`].
pub fn skip_value_x(s: &Vec<char>, i: usize) -> (r: Option<usize>)
    requires
        i <= s@.len(),
    ensures
        match r {
            Some(j) => skip_value(s@, i as int) == Some(j as int) && i < j <= s@.len(),
            None => skip_value(s@, i as int) is None,
        },
    decreases s@.len() - i, 0int,
{
    if i >= s.len() {
        return None;
    }
    let c = s[i];
    if c == '"' {
        match parse_string_x(s, i) {
            Some((content, e)) => Some(e),
            None => None,
        }
    } else if c == '[' {
        let j = skip_ws_x(s, i + 1);
        arr_tail_x(s, j)
    } else if c == '{' {
        let j = skip_ws_x(s, i + 1);
        obj_tail_x(s, j)
    } else if c == 't' {
        if s.len() - i >= 4 && s[i + 1] == 'r' && s[i + 2] == 'u' && s[i + 3] == 'e' {
            Some(i + 4)
        } else {
            None
        }
    } else if c == 'f' {
        if s.len() - i >= 5 && s[i + 1] == 'a' && s[i + 2] == 'l' && s[i + 3] == 's' && s[i + 4]
            == 'e' {
            Some(i + 5)
        } else {
            None
        }
    } else if c == 'n' {
        if s.len() - i >= 4 && s[i + 1] == 'u' && s[i + 2] == 'l' && s[i + 3] == 'l' {
            Some(i + 4)
        } else {
            None
        }
    } else if c == '-' || (48 <= c as u32 && c as u32 <= 57) {
        number_end_x(s, i)
    } else {
        None
    }
}

/// Scanner for [`arr_tail`].
fn arr_tail_x(s: &Vec<char>, i: usize) -> (r: Option<usize>)
    requires
        i <= s@.len(),
    ensures
        match r {
            Some(j) => arr_tail(s@, i as int) == Some(j as int) && i < j <= s@.len(),
            None => arr_tail(s@, i as int) is None,
        },
    decreases s@.len() - i, 2int,
{
    if i >= s.len() {
        return None;
    }
    if s[i] == ']' {
        Some(i + 1)
    } else {
        arr_items_x(s, i)
    }
}

/// Scanner for [`arr_items`].
fn arr_items_x(s: &Vec<char>, i: usize) -> (r: Option<usize>)
    requires
        i <= s@.len(),
    ensures
        match r {
            Some(j) => arr_items(s@, i as int) == Some(j as int) && i < j <= s@.len(),
            None => arr_items(s@, i as int) is None,
        },
    decreases s@.len() - i, 1int,
{
    match skip_value_x(s, i) {
        None => None,
        Some(j) => {
            let k = skip_ws_x(s, j);
            if k < s.len() && s[k] == ']' {
                Some(k + 1)
            } else if k < s.len() && s[k] == ',' {
                let m = skip_ws_x(s, k + 1);
                arr_items_x(s, m)
            } else {
                None
            }
        },
    }
}

/// Scanner for [`obj_tail`].
fn obj_tail_x(s: &Vec<char>, i: usize) -> (r: Option<usize>)
    requires
        i <= s@.len(),
    ensures
        match r {
            Some(j) => obj_tail(s@, i as int) == Some(j as int) && i < j <= s@.len(),
            None => obj_tail(s@, i as int) is None,
        },
    decreases s@.len() - i, 2int,
{
    if i >= s.len() {
        return None;
    }
    if s[i] == '}' {
        Some(i + 1)
    } else {
        obj_members_x(s, i)
    }
}

/// Scanner for [`obj_members`].
fn obj_members_x(s: &Vec<char>, i: usize) -> (r: Option<usize>)
    requires
        i <= s@.len(),
    ensures
        match r {
            Some(j) => obj_members(s@, i as int) == Some(j as int) && i < j <= s@.len(),
            None => obj_members(s@, i as int) is None,
        },
    decreases s@.len() - i, 1int,
{
    match parse_string_x(s, i) {
        None => None,
        Some((key, j)) => {
            let c1 = skip_ws_x(s, j);
            if c1 < s.len() && s[c1] == ':' {
                let vi = skip_ws_x(s, c1 + 1);
                match skip_value_x(s, vi) {
                    None => None,
                    Some(w) => {
                        let k = skip_ws_x(s, w);
                        if k < s.len() && s[k] == '}' {
                            Some(k + 1)
                        } else if k < s.len() && s[k] == ',' {
                            let m = skip_ws_x(s, k + 1);
                            obj_members_x(s, m)
                        } else {
                            None
                        }
                    },
                }
            } else {
                None
            }
        },
    }
}

} // verus!
