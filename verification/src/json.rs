//! Token layer of the upstream response parser.
//!
//! The upstream service answers with a JSON object in one of two documented
//! shapes.  This module parses the individual tokens of that object language:
//! whitespace, strings with the simple escapes, numbers, and the bare
//! literals.  Each executable parser returns exactly what its specification
//! function describes, so the grammar the relay accepts is stated once, in
//! spec land, and proved of the code.
//!
//! Strings support the single-character escapes of JSON; a `\u` escape is
//! outside the accepted grammar and makes the enclosing parse fail.

use vstd::prelude::*;

verus! {

/// True for the four whitespace bytes that JSON allows between tokens.
pub open spec fn is_ws(b: u8) -> bool {
    b == 0x20 || b == 0x09 || b == 0x0a || b == 0x0d
}

/// Index of the first byte at or after `i` that is not JSON whitespace.
pub open spec fn skip_ws(s: Seq<u8>, i: int) -> int
    decreases s.len() - i when 0 <= i <= s.len()
{
    if i < s.len() && is_ws(s[i]) {
        skip_ws(s, i + 1)
    } else {
        i
    }
}

pub fn ws_end(s: &Vec<u8>, i: usize) -> (r: usize)
    requires
        i <= s.len(),
    ensures
        r == skip_ws(s@, i as int),
        i <= r <= s.len(),
    decreases s.len() - i,
{
    if i < s.len() && (s[i] == 0x20 || s[i] == 0x09 || s[i] == 0x0a || s[i] == 0x0d) {
        ws_end(s, i + 1)
    } else {
        i
    }
}

/// The byte that a single-character escape `\x` stands for, if `x` is one of
/// the eight JSON escapes this grammar accepts.
pub open spec fn esc(b: u8) -> Option<u8> {
    if b == 0x22 {
        Some(0x22)
    } else if b == 0x5c {
        Some(0x5c)
    } else if b == 0x2f {
        Some(0x2f)
    } else if b == 0x62 {
        Some(0x08)
    } else if b == 0x66 {
        Some(0x0c)
    } else if b == 0x6e {
        Some(0x0a)
    } else if b == 0x72 {
        Some(0x0d)
    } else if b == 0x74 {
        Some(0x09)
    } else {
        None
    }
}

pub fn esc_byte(b: u8) -> (r: Option<u8>)
    ensures
        r == esc(b),
{
    if b == 0x22 {
        Some(0x22)
    } else if b == 0x5c {
        Some(0x5c)
    } else if b == 0x2f {
        Some(0x2f)
    } else if b == 0x62 {
        Some(0x08)
    } else if b == 0x66 {
        Some(0x0c)
    } else if b == 0x6e {
        Some(0x0a)
    } else if b == 0x72 {
        Some(0x0d)
    } else if b == 0x74 {
        Some(0x09)
    } else {
        None
    }
}

/// Content and end position of a string body starting at `i`, just after the
/// opening quote.  The returned position is one past the closing quote.
/// Control bytes and unsupported escapes make the string fail.
pub open spec fn str_body(s: Seq<u8>, i: int) -> Option<(Seq<u8>, int)>
    decreases s.len() - i when 0 <= i <= s.len()
{
    if i >= s.len() {
        None
    } else if s[i] == 0x22 {
        Some((Seq::empty(), i + 1))
    } else if s[i] == 0x5c {
        if i + 1 < s.len() && esc(s[i + 1]) is Some {
            match str_body(s, i + 2) {
                Some((t, j)) => Some((t.insert(0, esc(s[i + 1]).unwrap()), j)),
                None => None,
            }
        } else {
            None
        }
    } else if s[i] < 0x20 {
        None
    } else {
        match str_body(s, i + 1) {
            Some((t, j)) => Some((t.insert(0, s[i]), j)),
            None => None,
        }
    }
}

pub fn parse_str_body(s: &Vec<u8>, i: usize) -> (r: Option<(Vec<u8>, usize)>)
    requires
        i <= s.len(),
    ensures
        match r {
            Some(p) => str_body(s@, i as int) == Some((p.0@, p.1 as int)) && i < p.1 <= s.len(),
            None => str_body(s@, i as int) is None,
        },
    decreases s.len() - i,
{
    if i >= s.len() {
        None
    } else {
        let c = s[i];
        if c == 0x22 {
            Some((Vec::new(), i + 1))
        } else if c == 0x5c {
            if i + 1 < s.len() {
                match esc_byte(s[i + 1]) {
                    Some(e) => match parse_str_body(s, i + 2) {
                        Some((mut t, j)) => {
                            t.insert(0, e);
                            Some((t, j))
                        },
                        None => None,
                    },
                    None => None,
                }
            } else {
                None
            }
        } else if c < 0x20 {
            None
        } else {
            match parse_str_body(s, i + 1) {
                Some((mut t, j)) => {
                    t.insert(0, c);
                    Some((t, j))
                },
                None => None,
            }
        }
    }
}

/// A quoted string token at `i`: the opening quote, the body, the closing
/// quote.
pub open spec fn str_token(s: Seq<u8>, i: int) -> Option<(Seq<u8>, int)> {
    if 0 <= i < s.len() && s[i] == 0x22 {
        str_body(s, i + 1)
    } else {
        None
    }
}

pub fn parse_str_token(s: &Vec<u8>, i: usize) -> (r: Option<(Vec<u8>, usize)>)
    requires
        i <= s.len(),
    ensures
        match r {
            Some(p) => str_token(s@, i as int) == Some((p.0@, p.1 as int)) && i < p.1 <= s.len(),
            None => str_token(s@, i as int) is None,
        },
{
    if i < s.len() && s[i] == 0x22 {
        parse_str_body(s, i + 1)
    } else {
        None
    }
}

pub open spec fn is_digit(b: u8) -> bool {
    0x30 <= b <= 0x39
}

/// Index of the first byte at or after `i` that is not a decimal digit.
pub open spec fn skip_digits(s: Seq<u8>, i: int) -> int
    decreases s.len() - i when 0 <= i <= s.len()
{
    if i < s.len() && is_digit(s[i]) {
        skip_digits(s, i + 1)
    } else {
        i
    }
}

pub fn digits_end(s: &Vec<u8>, i: usize) -> (r: usize)
    requires
        i <= s.len(),
    ensures
        r == skip_digits(s@, i as int),
        i <= r <= s.len(),
        forall|k: int| i <= k < r ==> is_digit(s@[k]),
    decreases s.len() - i,
{
    if i < s.len() && 0x30 <= s[i] && s[i] <= 0x39 {
        digits_end(s, i + 1)
    } else {
        i
    }
}

/// Numeric value of the digit run `s[i..j]`, most significant digit first.
pub open spec fn digits_val(s: Seq<u8>, i: int, j: int) -> int
    decreases j - i when i <= j
{
    if j <= i {
        0
    } else {
        digits_val(s, i, j - 1) * 10 + (s[j - 1] - 0x30)
    }
}

/// Value of a digit run, or `None` if it exceeds `u64::MAX`.
pub fn digits_value(s: &Vec<u8>, i: usize, j: usize) -> (r: Option<u64>)
    requires
        i <= j <= s.len(),
        forall|k: int| i <= k < j ==> is_digit(s@[k]),
    ensures
        match r {
            Some(v) => v == digits_val(s@, i as int, j as int),
            None => digits_val(s@, i as int, j as int) > u64::MAX,
        },
    decreases j - i,
{
    if j <= i {
        Some(0)
    } else {
        match digits_value(s, i, j - 1) {
            Some(h) => {
                let d: u8 = s[j - 1] - 0x30;
                if h <= (u64::MAX - d as u64) / 10 {
                    proof {
                        assert(h * 10 + d <= u64::MAX) by (nonlinear_arith)
                            requires
                                h <= (u64::MAX - d as u64) / 10,
                                d <= 9,
                        ;
                    }
                    Some(h * 10 + d as u64)
                } else {
                    proof {
                        assert(h * 10 + d > u64::MAX) by (nonlinear_arith)
                            requires
                                h > (u64::MAX - d as u64) / 10,
                                d <= 9,
                                h <= u64::MAX,
                        ;
                    }
                    None
                }
            },
            None => {
                proof {
                    let hv = digits_val(s@, i as int, j - 1 as int);
                    assert(hv * 10 + (s@[j - 1] - 0x30) > u64::MAX) by (nonlinear_arith)
                        requires
                            hv > u64::MAX,
                            s@[j - 1] >= 0x30,
                    ;
                }
                None
            },
        }
    }
}

/// End of an optional fraction part at `i`: either there is no `.`, or a `.`
/// followed by at least one digit.
pub open spec fn frac_end(s: Seq<u8>, i: int) -> Option<int> {
    if 0 <= i < s.len() && s[i] == 0x2e {
        if skip_digits(s, i + 1) == i + 1 {
            None
        } else {
            Some(skip_digits(s, i + 1))
        }
    } else {
        Some(i)
    }
}

/// End of an optional exponent part at `i`: either no `e`/`E`, or one with an
/// optional sign and at least one digit.
pub open spec fn exp_end(s: Seq<u8>, i: int) -> Option<int> {
    if 0 <= i < s.len() && (s[i] == 0x65 || s[i] == 0x45) {
        let j = if i + 1 < s.len() && (s[i + 1] == 0x2b || s[i + 1] == 0x2d) {
            i + 2
        } else {
            i + 1
        };
        if skip_digits(s, j) == j {
            None
        } else {
            Some(skip_digits(s, j))
        }
    } else {
        Some(i)
    }
}

/// A JSON number token at `i`.  The first component is its value when the
/// token is a plain non-negative integer that fits in a `u64`, and `None`
/// when it is negative, fractional, in exponent form, or too large; the
/// second component is the position after the token.
pub open spec fn num_token(s: Seq<u8>, i: int) -> Option<(Option<u64>, int)> {
    let i1 = if 0 <= i < s.len() && s[i] == 0x2d {
        i + 1
    } else {
        i
    };
    let d_end = skip_digits(s, i1);
    if d_end == i1 {
        None
    } else if s[i1] == 0x30 && d_end > i1 + 1 {
        None
    } else {
        match frac_end(s, d_end) {
            None => None,
            Some(f_end) => match exp_end(s, f_end) {
                None => None,
                Some(e_end) => {
                    if i1 == i && f_end == d_end && e_end == f_end && digits_val(s, i1, d_end)
                        <= u64::MAX {
                        Some((Some(digits_val(s, i1, d_end) as u64), e_end))
                    } else {
                        Some((None, e_end))
                    }
                },
            },
        }
    }
}

pub fn parse_num_token(s: &Vec<u8>, i: usize) -> (r: Option<(Option<u64>, usize)>)
    requires
        i <= s.len(),
    ensures
        match r {
            Some(p) => num_token(s@, i as int) == Some((p.0, p.1 as int)) && i < p.1 <= s.len(),
            None => num_token(s@, i as int) is None,
        },
{
    let i1: usize = if i < s.len() && s[i] == 0x2d {
        i + 1
    } else {
        i
    };
    let d_end = digits_end(s, i1);
    if d_end == i1 {
        None
    } else if s[i1] == 0x30 && d_end > i1 + 1 {
        None
    } else {
        let f_end: usize = if d_end < s.len() && s[d_end] == 0x2e {
            let fe = digits_end(s, d_end + 1);
            if fe == d_end + 1 {
                return None;
            }
            fe
        } else {
            d_end
        };
        assert(frac_end(s@, d_end as int) == Some::<int>(f_end as int));
        let e_end: usize = if f_end < s.len() && (s[f_end] == 0x65 || s[f_end] == 0x45) {
            let j: usize = if f_end + 1 < s.len() && (s[f_end + 1] == 0x2b || s[f_end + 1]
                == 0x2d) {
                f_end + 2
            } else {
                f_end + 1
            };
            let ee = digits_end(s, j);
            if ee == j {
                return None;
            }
            ee
        } else {
            f_end
        };
        assert(exp_end(s@, f_end as int) == Some::<int>(e_end as int));
        if i1 == i && f_end == d_end && e_end == f_end {
            match digits_value(s, i1, d_end) {
                Some(v) => Some((Some(v), e_end)),
                None => Some((None, e_end)),
            }
        } else {
            Some((None, e_end))
        }
    }
}

} // verus!
