//! Decoding of inbound frames. A frame is one JSON object whose members
//! are the execution-request fields; the grammar accepted here is the
//! object form of JSON with string, number, `true`, `false` and `null`
//! member values (nested objects and arrays are not request fields and
//! are refused), strings carrying the standard escapes, `\u` escapes
//! and escaped surrogate pairs for supplementary characters (a lone
//! surrogate is refused), and numbers in the JSON number grammar. A
//! number's content is ignored: a number can only stand in a field the
//! request does not read.

use vstd::prelude::*;
use crate::request::ExecutionRequest;
use crate::request::RequestView;
use crate::text::chars_to_string;
use crate::text::chars_eq_str;
use crate::text::str_to_chars;
use vstd::string::StringExecFns;

verus! {

/// The whitespace JSON allows between tokens.
pub open spec fn is_ws(c: char) -> bool {
    c == ' ' || c == '\t' || c == '\n' || c == '\r'
}

/// A hexadecimal digit, either case.
pub open spec fn is_hex(c: char) -> bool {
    ('0' <= c && c <= '9') || ('a' <= c && c <= 'f') || ('A' <= c && c <= 'F')
}

/// The value of a hexadecimal digit.
pub open spec fn hex_val(c: char) -> int {
    if '0' <= c && c <= '9' {
        (c as u32) - 0x30
    } else if 'a' <= c && c <= 'f' {
        (c as u32) - 0x61 + 10
    } else {
        (c as u32) - 0x41 + 10
    }
}

/// The character a simple escape stands for, if the escape is legal.
pub open spec fn simple_escape(e: char) -> Option<char> {
    if e == '"' {
        Some('"')
    } else if e == '\\' {
        Some('\\')
    } else if e == '/' {
        Some('/')
    } else if e == 'b' {
        Some('\u{8}')
    } else if e == 'f' {
        Some('\u{c}')
    } else if e == 'n' {
        Some('\n')
    } else if e == 'r' {
        Some('\r')
    } else if e == 't' {
        Some('\t')
    } else {
        None
    }
}

/// The first position at or after `i` holding no whitespace.
pub open spec fn spec_skip_ws(s: Seq<char>, i: int) -> int
    decreases s.len() - i,
{
    if 0 <= i < s.len() && is_ws(s[i]) {
        spec_skip_ws(s, i + 1)
    } else {
        i
    }
}

/// The string content starting just after an opening quote: the decoded
/// characters and the position just after the closing quote.
pub open spec fn spec_string_body(s: Seq<char>, i: int) -> Option<(Seq<char>, int)>
    decreases s.len() - i,
{
    if !(0 <= i < s.len()) {
        None
    } else if s[i] == '"' {
        Some((Seq::empty(), i + 1))
    } else if s[i] == '\\' {
        if i + 1 < s.len() {
            let e = s[i + 1];
            if e == 'u' {
                if i + 5 < s.len() && is_hex(s[i + 2]) && is_hex(s[i + 3]) && is_hex(s[i + 4])
                    && is_hex(s[i + 5]) {
                    let code = hex_val(s[i + 2]) * 0x1000 + hex_val(s[i + 3]) * 0x100 + hex_val(
                        s[i + 4],
                    ) * 0x10 + hex_val(s[i + 5]);
                    if 0xD800 <= code < 0xDC00 {
                        // a high surrogate: only as the first half of an
                        // escaped pair naming one supplementary character
                        if i + 11 < s.len() && s[i + 6] == '\\' && s[i + 7] == 'u' && is_hex(
                            s[i + 8],
                        ) && is_hex(s[i + 9]) && is_hex(s[i + 10]) && is_hex(s[i + 11]) {
                            let low = hex_val(s[i + 8]) * 0x1000 + hex_val(s[i + 9]) * 0x100
                                + hex_val(s[i + 10]) * 0x10 + hex_val(s[i + 11]);
                            if 0xDC00 <= low < 0xE000 {
                                let combined = 0x10000 + (code - 0xD800) * 0x400 + (low - 0xDC00);
                                match spec_string_body(s, i + 12) {
                                    Some((rest, j)) => Some(
                                        (seq![((combined as u32) as char)] + rest, j),
                                    ),
                                    None => None,
                                }
                            } else {
                                None
                            }
                        } else {
                            None
                        }
                    } else if 0xDC00 <= code < 0xE000 {
                        None
                    } else {
                        match spec_string_body(s, i + 6) {
                            Some((rest, j)) => Some((seq![((code as u32) as char)] + rest, j)),
                            None => None,
                        }
                    }
                } else {
                    None
                }
            } else {
                match simple_escape(e) {
                    Some(c) => match spec_string_body(s, i + 2) {
                        Some((rest, j)) => Some((seq![c] + rest, j)),
                        None => None,
                    },
                    None => None,
                }
            }
        } else {
            None
        }
    } else if (s[i] as u32) < 0x20 {
        None
    } else {
        match spec_string_body(s, i + 1) {
            Some((rest, j)) => Some((seq![s[i]] + rest, j)),
            None => None,
        }
    }
}

/// A decimal digit.
pub open spec fn is_digit(c: char) -> bool {
    '0' <= c && c <= '9'
}

/// The first position at or after `i` past a run of decimal digits.
pub open spec fn spec_digits_end(s: Seq<char>, i: int) -> int
    decreases s.len() - i,
{
    if 0 <= i < s.len() && is_digit(s[i]) {
        spec_digits_end(s, i + 1)
    } else {
        i
    }
}

pub proof fn lemma_digits_end_bounds(s: Seq<char>, i: int)
    requires
        0 <= i <= s.len(),
    ensures
        i <= spec_digits_end(s, i) <= s.len(),
    decreases s.len() - i,
{
    if 0 <= i < s.len() && is_digit(s[i]) {
        lemma_digits_end_bounds(s, i + 1);
    }
}

/// The position just after the fraction part starting at `b`, if the
/// text there is a legal fraction or none at all.
pub open spec fn spec_frac_end(s: Seq<char>, b: int) -> Option<int> {
    if 0 <= b < s.len() && s[b] == '.' {
        if b + 1 < s.len() && is_digit(s[b + 1]) {
            Some(spec_digits_end(s, b + 1))
        } else {
            None
        }
    } else {
        Some(b)
    }
}

/// The position just after the exponent part starting at `c`, if the
/// text there is a legal exponent or none at all.
pub open spec fn spec_exp_end(s: Seq<char>, c: int) -> Option<int> {
    if 0 <= c < s.len() && (s[c] == 'e' || s[c] == 'E') {
        let d = if c + 1 < s.len() && (s[c + 1] == '+' || s[c + 1] == '-') {
            c + 2
        } else {
            c + 1
        };
        if d < s.len() && is_digit(s[d]) {
            Some(spec_digits_end(s, d))
        } else {
            None
        }
    } else {
        Some(c)
    }
}

/// The position just after the JSON number starting at `i`, if one
/// starts there: an optional minus, an integer part without a leading
/// zero, an optional fraction, an optional exponent.
pub open spec fn spec_number_end(s: Seq<char>, i: int) -> Option<int> {
    let a = if 0 <= i < s.len() && s[i] == '-' {
        i + 1
    } else {
        i
    };
    if 0 <= a < s.len() && is_digit(s[a]) {
        let b = if s[a] == '0' {
            a + 1
        } else {
            spec_digits_end(s, a)
        };
        match spec_frac_end(s, b) {
            Some(c) => spec_exp_end(s, c),
            None => None,
        }
    } else {
        None
    }
}

/// The shape of a member value: a string, an explicit `null`, or some
/// other scalar (number or boolean) whose content the request ignores.
pub enum ScalarView {
    Str(Seq<char>),
    Null,
    Other,
}

/// One member value starting at `i`: its shape and the position just
/// after it.
pub open spec fn spec_value(s: Seq<char>, i: int) -> Option<(ScalarView, int)> {
    if !(0 <= i < s.len()) {
        None
    } else if s[i] == '"' {
        match spec_string_body(s, i + 1) {
            Some((v, j)) => Some((ScalarView::Str(v), j)),
            None => None,
        }
    } else if s[i] == 't' {
        if i + 3 < s.len() && s[i + 1] == 'r' && s[i + 2] == 'u' && s[i + 3] == 'e' {
            Some((ScalarView::Other, i + 4))
        } else {
            None
        }
    } else if s[i] == 'f' {
        if i + 4 < s.len() && s[i + 1] == 'a' && s[i + 2] == 'l' && s[i + 3] == 's' && s[i + 4]
            == 'e' {
            Some((ScalarView::Other, i + 5))
        } else {
            None
        }
    } else if s[i] == 'n' {
        if i + 3 < s.len() && s[i + 1] == 'u' && s[i + 2] == 'l' && s[i + 3] == 'l' {
            Some((ScalarView::Null, i + 4))
        } else {
            None
        }
    } else if s[i] == '-' || ('0' <= s[i] && s[i] <= '9') {
        match spec_number_end(s, i) {
            Some(j) => Some((ScalarView::Other, j)),
            None => None,
        }
    } else {
        None
    }
}

/// The request fields collected while walking the object's members.
/// `model` and `session_id` distinguish "absent" from "present as null".
pub struct FieldsView {
    pub project_path: Option<Seq<char>>,
    pub prompt: Option<Seq<char>>,
    pub model: Option<Option<Seq<char>>>,
    pub session_id: Option<Option<Seq<char>>>,
    pub command_type: Option<Seq<char>>,
}

/// No field seen yet.
pub open spec fn empty_fields() -> FieldsView {
    FieldsView {
        project_path: None,
        prompt: None,
        model: None,
        session_id: None,
        command_type: None,
    }
}

/// Records one member: a known key takes its value (a repeated key or a
/// wrongly-typed value refuses the frame), an unknown key is ignored.
pub open spec fn spec_apply_field(acc: FieldsView, key: Seq<char>, val: ScalarView) -> Option<
    FieldsView,
> {
    if key == "project_path"@ {
        if acc.project_path is Some {
            None
        } else {
            match val {
                ScalarView::Str(v) => Some(FieldsView { project_path: Some(v), ..acc }),
                _ => None,
            }
        }
    } else if key == "prompt"@ {
        if acc.prompt is Some {
            None
        } else {
            match val {
                ScalarView::Str(v) => Some(FieldsView { prompt: Some(v), ..acc }),
                _ => None,
            }
        }
    } else if key == "command_type"@ {
        if acc.command_type is Some {
            None
        } else {
            match val {
                ScalarView::Str(v) => Some(FieldsView { command_type: Some(v), ..acc }),
                _ => None,
            }
        }
    } else if key == "model"@ {
        if acc.model is Some {
            None
        } else {
            match val {
                ScalarView::Str(v) => Some(FieldsView { model: Some(Some(v)), ..acc }),
                ScalarView::Null => Some(FieldsView { model: Some(None), ..acc }),
                ScalarView::Other => None,
            }
        }
    } else if key == "session_id"@ {
        if acc.session_id is Some {
            None
        } else {
            match val {
                ScalarView::Str(v) => Some(FieldsView { session_id: Some(Some(v)), ..acc }),
                ScalarView::Null => Some(FieldsView { session_id: Some(None), ..acc }),
                ScalarView::Other => None,
            }
        }
    } else {
        Some(acc)
    }
}

/// One `key: value` member starting at `i` (at the key's opening quote);
/// the updated fields and the position just after the value.
pub open spec fn spec_pair(s: Seq<char>, i: int, acc: FieldsView) -> Option<(FieldsView, int)> {
    if 0 <= i < s.len() && s[i] == '"' {
        match spec_string_body(s, i + 1) {
            Some((key, j)) => {
                let k = spec_skip_ws(s, j);
                if k < s.len() && s[k] == ':' {
                    let m = spec_skip_ws(s, k + 1);
                    match spec_value(s, m) {
                        Some((val, n)) => match spec_apply_field(acc, key, val) {
                            Some(acc2) => Some((acc2, n)),
                            None => None,
                        },
                        None => None,
                    }
                } else {
                    None
                }
            },
            None => None,
        }
    } else {
        None
    }
}

/// The members of the object from the first pair at `i` to the closing
/// brace; the collected fields and the position just after the brace.
pub open spec fn spec_members(s: Seq<char>, i: int, acc: FieldsView) -> Option<(FieldsView, int)>
    decreases s.len() - i,
{
    match spec_pair(s, i, acc) {
        Some((acc2, j)) => {
            let k = spec_skip_ws(s, j);
            if k < s.len() && s[k] == ',' {
                let m = spec_skip_ws(s, k + 1);
                if i < m <= s.len() {
                    spec_members(s, m, acc2)
                } else {
                    None
                }
            } else if k < s.len() && s[k] == '}' {
                Some((acc2, k + 1))
            } else {
                None
            }
        },
        None => None,
    }
}

/// The object starting at `i`: its fields and the position just after
/// its closing brace.
pub open spec fn spec_object(s: Seq<char>, i: int) -> Option<(FieldsView, int)> {
    if 0 <= i < s.len() && s[i] == '{' {
        let j = spec_skip_ws(s, i + 1);
        if j < s.len() && s[j] == '}' {
            Some((empty_fields(), j + 1))
        } else {
            spec_members(s, j, empty_fields())
        }
    } else {
        None
    }
}

/// Flattens "absent" and "present as null" into one absent case.
pub open spec fn flatten_opt(o: Option<Option<Seq<char>>>) -> Option<Seq<char>> {
    match o {
        Some(inner) => inner,
        None => None,
    }
}

/// The fields of `parse_frame`'s result assembled from the collected
/// members, when the three mandatory ones are present.
pub open spec fn finish_fields(acc: FieldsView) -> Option<RequestView> {
    match (acc.project_path, acc.prompt, acc.command_type) {
        (Some(pp), Some(pr), Some(ct)) => Some(
            RequestView {
            project_path: pp,
            prompt: pr,
            model: flatten_opt(acc.model),
            session_id: flatten_opt(acc.session_id),
            command_type: ct,
        },
        ),
        _ => None,
    }
}

/// A whole frame: optional whitespace, one object, optional whitespace,
/// end of input; the three mandatory fields must be present.
pub open spec fn parse_frame(s: Seq<char>) -> Option<RequestView> {
    let i = spec_skip_ws(s, 0);
    match spec_object(s, i) {
        Some((acc, j)) => {
            if spec_skip_ws(s, j) == s.len() {
                finish_fields(acc)
            } else {
                None
            }
        },
        None => None,
    }
}

/// Relies on `char::from_u32`: every value outside the surrogate range
/// and at most 0x10FFFF is a scalar value and yields the character with
/// that code.
#[verifier::external_body]
fn char_from_code(code: u32) -> (r: char)
    requires
        code < 0xD800 || (0xE000 <= code && code <= 0x10FFFF),
    ensures
        r == ((code as u32) as char),
{
    char::from_u32(code).unwrap()
}

fn skip_ws(s: &Vec<char>, i: usize) -> (r: usize)
    requires
        i <= s@.len(),
    ensures
        r as int == spec_skip_ws(s@, i as int),
        i <= r <= s@.len(),
{
    let mut j = i;
    while j < s.len() && (s[j] == ' ' || s[j] == '\t' || s[j] == '\n' || s[j] == '\r')
        invariant
            i <= j <= s@.len(),
            spec_skip_ws(s@, i as int) == spec_skip_ws(s@, j as int),
        decreases s@.len() - j,
    {
        j = j + 1;
    }
    j
}

fn digits_end(s: &Vec<char>, i: usize) -> (r: usize)
    requires
        i <= s@.len(),
    ensures
        r as int == spec_digits_end(s@, i as int),
        i <= r <= s@.len(),
{
    let mut j = i;
    while j < s.len() && '0' <= s[j] && s[j] <= '9'
        invariant
            i <= j <= s@.len(),
            spec_digits_end(s@, i as int) == spec_digits_end(s@, j as int),
        decreases s@.len() - j,
    {
        j = j + 1;
    }
    j
}

fn number_end(s: &Vec<char>, i: usize) -> (r: Option<usize>)
    requires
        i <= s@.len(),
    ensures
        match r {
            Some(j) => spec_number_end(s@, i as int) == Some(j as int) && i < j <= s@.len(),
            None => spec_number_end(s@, i as int) is None,
        },
{
    let a = if i < s.len() && s[i] == '-' {
        i + 1
    } else {
        i
    };
    if a < s.len() && '0' <= s[a] && s[a] <= '9' {
        let b = if s[a] == '0' {
            a + 1
        } else {
            proof {
                lemma_digits_end_bounds(s@, a as int + 1);
            }
            digits_end(s, a)
        };
        let frac: Option<usize> = if b < s.len() && s[b] == '.' {
            if b + 1 < s.len() && '0' <= s[b + 1] && s[b + 1] <= '9' {
                Some(digits_end(s, b + 1))
            } else {
                None
            }
        } else {
            Some(b)
        };
        match frac {
            Some(c) => {
                if c < s.len() && (s[c] == 'e' || s[c] == 'E') {
                    let d = if c + 1 < s.len() && (s[c + 1] == '+' || s[c + 1] == '-') {
                        c + 2
                    } else {
                        c + 1
                    };
                    if d < s.len() && '0' <= s[d] && s[d] <= '9' {
                        Some(digits_end(s, d))
                    } else {
                        None
                    }
                } else {
                    Some(c)
                }
            },
            None => None,
        }
    } else {
        None
    }
}

fn hex_digit_val(c: char) -> (r: u32)
    requires
        is_hex(c),
    ensures
        r as int == hex_val(c),
        r < 16,
{
    if '0' <= c && c <= '9' {
        (c as u32) - 0x30
    } else if 'a' <= c && c <= 'f' {
        (c as u32) - 0x61 + 10
    } else {
        (c as u32) - 0x41 + 10
    }
}

fn is_hex_char(c: char) -> (r: bool)
    ensures
        r == is_hex(c),
{
    ('0' <= c && c <= '9') || ('a' <= c && c <= 'f') || ('A' <= c && c <= 'F')
}

fn parse_string_body(s: &Vec<char>, i: usize) -> (r: Option<(Vec<char>, usize)>)
    requires
        i <= s@.len(),
    ensures
        match r {
            Some((v, j)) => spec_string_body(s@, i as int) == Some((v@, j as int)) && i < j
                <= s@.len(),
            None => spec_string_body(s@, i as int) is None,
        },
    decreases s@.len() - i,
{
    if i >= s.len() {
        return None;
    }
    let c = s[i];
    if c == '"' {
        return Some((Vec::new(), i + 1));
    }
    if c == '\\' {
        if s.len() - i <= 1 {
            return None;
        }
        let e = s[i + 1];
        if e == 'u' {
            if s.len() - i > 5 && is_hex_char(s[i + 2]) && is_hex_char(s[i + 3]) && is_hex_char(
                s[i + 4],
            ) && is_hex_char(s[i + 5]) {
                let code = hex_digit_val(s[i + 2]) * 0x1000 + hex_digit_val(s[i + 3]) * 0x100
                    + hex_digit_val(s[i + 4]) * 0x10 + hex_digit_val(s[i + 5]);
                if 0xD800 <= code && code < 0xDC00 {
                    if s.len() - i > 11 && s[i + 6] == '\\' && s[i + 7] == 'u' && is_hex_char(
                        s[i + 8],
                    ) && is_hex_char(s[i + 9]) && is_hex_char(s[i + 10]) && is_hex_char(
                        s[i + 11],
                    ) {
                        let low = hex_digit_val(s[i + 8]) * 0x1000 + hex_digit_val(s[i + 9])
                            * 0x100 + hex_digit_val(s[i + 10]) * 0x10 + hex_digit_val(s[i + 11]);
                        if 0xDC00 <= low && low < 0xE000 {
                            let combined = 0x10000 + (code - 0xD800) * 0x400 + (low - 0xDC00);
                            match parse_string_body(s, i + 12) {
                                Some((rest, j)) => {
                                    let mut v = rest;
                                    v.insert(0, char_from_code(combined));
                                    proof {
                                        assert(v@ =~= seq![((combined as u32) as char)]
                                            + v@.drop_first());
                                    }
                                    Some((v, j))
                                },
                                None => None,
                            }
                        } else {
                            None
                        }
                    } else {
                        None
                    }
                } else if 0xDC00 <= code && code < 0xE000 {
                    None
                } else {
                    match parse_string_body(s, i + 6) {
                        Some((rest, j)) => {
                            let mut v = rest;
                            v.insert(0, char_from_code(code));
                            proof {
                                assert(v@ =~= seq![((code as u32) as char)] + v@.drop_first());
                            }
                            Some((v, j))
                        },
                        None => None,
                    }
                }
            } else {
                None
            }
        } else {
            let un: Option<char> = if e == '"' {
                Some('"')
            } else if e == '\\' {
                Some('\\')
            } else if e == '/' {
                Some('/')
            } else if e == 'b' {
                Some('\u{8}')
            } else if e == 'f' {
                Some('\u{c}')
            } else if e == 'n' {
                Some('\n')
            } else if e == 'r' {
                Some('\r')
            } else if e == 't' {
                Some('\t')
            } else {
                None
            };
            match un {
                Some(u) => match parse_string_body(s, i + 2) {
                    Some((rest, j)) => {
                        let mut v = rest;
                        v.insert(0, u);
                        proof {
                            assert(v@ =~= seq![u] + v@.drop_first());
                        }
                        Some((v, j))
                    },
                    None => None,
                },
                None => None,
            }
        }
    } else if (c as u32) < 0x20 {
        None
    } else {
        match parse_string_body(s, i + 1) {
            Some((rest, j)) => {
                let mut v = rest;
                v.insert(0, c);
                proof {
                    assert(v@ =~= seq![c] + v@.drop_first());
                }
                Some((v, j))
            },
            None => None,
        }
    }
}

/// A member value as the decoder holds it.
enum Scalar {
    Str(Vec<char>),
    Null,
    Other,
}

/// The shape of a decoded member value.
spec fn scalar_view(sc: Scalar) -> ScalarView {
    match sc {
        Scalar::Str(v) => ScalarView::Str(v@),
        Scalar::Null => ScalarView::Null,
        Scalar::Other => ScalarView::Other,
    }
}

fn parse_value(s: &Vec<char>, i: usize) -> (r: Option<(Scalar, usize)>)
    requires
        i <= s@.len(),
    ensures
        match r {
            Some((v, j)) => spec_value(s@, i as int) == Some((scalar_view(v), j as int)) && i < j
                <= s@.len(),
            None => spec_value(s@, i as int) is None,
        },
{
    if i >= s.len() {
        return None;
    }
    let c = s[i];
    if c == '"' {
        match parse_string_body(s, i + 1) {
            Some((v, j)) => Some((Scalar::Str(v), j)),
            None => None,
        }
    } else if c == 't' {
        if s.len() - i > 3 && s[i + 1] == 'r' && s[i + 2] == 'u' && s[i + 3] == 'e' {
            Some((Scalar::Other, i + 4))
        } else {
            None
        }
    } else if c == 'f' {
        if s.len() - i > 4 && s[i + 1] == 'a' && s[i + 2] == 'l' && s[i + 3] == 's' && s[i + 4]
            == 'e' {
            Some((Scalar::Other, i + 5))
        } else {
            None
        }
    } else if c == 'n' {
        if s.len() - i > 3 && s[i + 1] == 'u' && s[i + 2] == 'l' && s[i + 3] == 'l' {
            Some((Scalar::Null, i + 4))
        } else {
            None
        }
    } else if c == '-' || ('0' <= c && c <= '9') {
        match number_end(s, i) {
            Some(j) => Some((Scalar::Other, j)),
            None => None,
        }
    } else {
        None
    }
}

/// The request fields collected so far while decoding.
struct FieldsAcc {
    project_path: Option<Vec<char>>,
    prompt: Option<Vec<char>>,
    model: Option<Option<Vec<char>>>,
    session_id: Option<Option<Vec<char>>>,
    command_type: Option<Vec<char>>,
}

spec fn opt_chars_view(o: Option<Vec<char>>) -> Option<Seq<char>> {
    match o {
        Some(v) => Some(v@),
        None => None,
    }
}

spec fn opt_opt_chars_view(o: Option<Option<Vec<char>>>) -> Option<Option<Seq<char>>> {
    match o {
        Some(inner) => Some(opt_chars_view(inner)),
        None => None,
    }
}

spec fn fields_view(acc: FieldsAcc) -> FieldsView {
    FieldsView {
        project_path: opt_chars_view(acc.project_path),
        prompt: opt_chars_view(acc.prompt),
        model: opt_opt_chars_view(acc.model),
        session_id: opt_opt_chars_view(acc.session_id),
        command_type: opt_chars_view(acc.command_type),
    }
}

fn apply_field(acc: FieldsAcc, key: &Vec<char>, val: Scalar) -> (r: Option<FieldsAcc>)
    ensures
        match r {
            Some(acc2) => spec_apply_field(fields_view(acc), key@, scalar_view(val)) == Some(
                fields_view(acc2),
            ),
            None => spec_apply_field(fields_view(acc), key@, scalar_view(val)) is None,
        },
{
    if chars_eq_str(key, "project_path") {
        if acc.project_path.is_some() {
            None
        } else {
            match val {
                Scalar::Str(v) => Some(FieldsAcc { project_path: Some(v), ..acc }),
                _ => None,
            }
        }
    } else if chars_eq_str(key, "prompt") {
        if acc.prompt.is_some() {
            None
        } else {
            match val {
                Scalar::Str(v) => Some(FieldsAcc { prompt: Some(v), ..acc }),
                _ => None,
            }
        }
    } else if chars_eq_str(key, "command_type") {
        if acc.command_type.is_some() {
            None
        } else {
            match val {
                Scalar::Str(v) => Some(FieldsAcc { command_type: Some(v), ..acc }),
                _ => None,
            }
        }
    } else if chars_eq_str(key, "model") {
        if acc.model.is_some() {
            None
        } else {
            match val {
                Scalar::Str(v) => Some(FieldsAcc { model: Some(Some(v)), ..acc }),
                Scalar::Null => Some(FieldsAcc { model: Some(None), ..acc }),
                Scalar::Other => None,
            }
        }
    } else if chars_eq_str(key, "session_id") {
        if acc.session_id.is_some() {
            None
        } else {
            match val {
                Scalar::Str(v) => Some(FieldsAcc { session_id: Some(Some(v)), ..acc }),
                Scalar::Null => Some(FieldsAcc { session_id: Some(None), ..acc }),
                Scalar::Other => None,
            }
        }
    } else {
        Some(acc)
    }
}

fn parse_pair(s: &Vec<char>, i: usize, acc: FieldsAcc) -> (r: Option<(FieldsAcc, usize)>)
    requires
        i <= s@.len(),
    ensures
        match r {
            Some((acc2, j)) => spec_pair(s@, i as int, fields_view(acc)) == Some(
                (fields_view(acc2), j as int),
            ) && i < j <= s@.len(),
            None => spec_pair(s@, i as int, fields_view(acc)) is None,
        },
{
    if i >= s.len() || s[i] != '"' {
        return None;
    }
    match parse_string_body(s, i + 1) {
        Some((key, j)) => {
            let k = skip_ws(s, j);
            if k < s.len() && s[k] == ':' {
                let m = skip_ws(s, k + 1);
                match parse_value(s, m) {
                    Some((val, n)) => match apply_field(acc, &key, val) {
                        Some(acc2) => Some((acc2, n)),
                        None => None,
                    },
                    None => None,
                }
            } else {
                None
            }
        },
        None => None,
    }
}

fn parse_members(s: &Vec<char>, i: usize, acc: FieldsAcc) -> (r: Option<(FieldsAcc, usize)>)
    requires
        i <= s@.len(),
    ensures
        match r {
            Some((acc2, j)) => spec_members(s@, i as int, fields_view(acc)) == Some(
                (fields_view(acc2), j as int),
            ) && i < j <= s@.len(),
            None => spec_members(s@, i as int, fields_view(acc)) is None,
        },
    decreases s@.len() - i,
{
    match parse_pair(s, i, acc) {
        Some((acc2, j)) => {
            let k = skip_ws(s, j);
            if k < s.len() && s[k] == ',' {
                let m = skip_ws(s, k + 1);
                if i < m && m <= s.len() {
                    parse_members(s, m, acc2)
                } else {
                    None
                }
            } else if k < s.len() && s[k] == '}' {
                Some((acc2, k + 1))
            } else {
                None
            }
        },
        None => None,
    }
}

/// Decodes one inbound frame into an execution request. The result is
/// exactly what the frame grammar (`parse_frame`) yields: `Ok` for every
/// frame the grammar accepts, and the parse-failure message for every
/// frame it refuses.
pub fn decode_request(text: &str) -> (r: Result<ExecutionRequest, String>)
    ensures
        match r {
            Ok(req) => parse_frame(text@) == Some(req@),
            Err(m) => parse_frame(text@) is None && m@
                == "Failed to parse request: invalid execution request"@,
        },
{
    let s = str_to_chars(text);
    let err_msg = "Failed to parse request: invalid execution request";
    let i = skip_ws(&s, 0);
    let obj: Option<(FieldsAcc, usize)> = if i < s.len() && s[i] == '{' {
        let j = skip_ws(&s, i + 1);
        if j < s.len() && s[j] == '}' {
            Some(
                (
                    FieldsAcc {
                        project_path: None,
                        prompt: None,
                        model: None,
                        session_id: None,
                        command_type: None,
                    },
                    j + 1,
                ),
            )
        } else {
            parse_members(
                &s,
                j,
                FieldsAcc {
                    project_path: None,
                    prompt: None,
                    model: None,
                    session_id: None,
                    command_type: None,
                },
            )
        }
    } else {
        None
    };
    match obj {
        Some((acc, j)) => {
            if skip_ws(&s, j) == s.len() {
                match (acc.project_path, acc.prompt, acc.command_type) {
                    (Some(pp), Some(pr), Some(ct)) => {
                        let model = match acc.model {
                            Some(Some(v)) => Some(chars_to_string(&v)),
                            _ => None,
                        };
                        let session_id = match acc.session_id {
                            Some(Some(v)) => Some(chars_to_string(&v)),
                            _ => None,
                        };
                        Ok(
                            ExecutionRequest {
                                project_path: chars_to_string(&pp),
                                prompt: chars_to_string(&pr),
                                model,
                                session_id,
                                command_type: chars_to_string(&ct),
                            },
                        )
                    },
                    _ => Err(String::from_str(err_msg)),
                }
            } else {
                Err(String::from_str(err_msg))
            }
        },
        None => Err(String::from_str(err_msg)),
    }
}

} // verus!
