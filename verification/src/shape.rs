//! Shape layer of the upstream response parser.
//!
//! The upstream service answers every upload with a JSON object in exactly
//! one of two shapes: a compression descriptor
//! `{input:{size,type}, output:{height,width,ratio,size,type,url}}`, or an
//! application error `{error, message}`.  The two are told apart
//! structurally, by which members are present, never by status code.
//!
//! The parser walks the members of the top-level object in any order,
//! collecting the recognized fields into accumulators.  A recognized member
//! must carry the type the shape gives it, and may appear at most once;
//! unrecognized members are skipped, their value a scalar or an object of
//! scalars.  After the closing brace only whitespace may follow.  The
//! descriptor shape wins when both shapes' members are present, mirroring a
//! reader that attempts the success shape first.

use vstd::prelude::*;
use crate::json::{
    skip_ws, ws_end, str_body, str_token, parse_str_token, num_token, parse_num_token,
};
use crate::bytes::bytes_eq;

verus! {

// ---------------------------------------------------------------------------
// Member names of the two shapes.
// ---------------------------------------------------------------------------

/// The bytes of `"input"`.
pub open spec fn key_input() -> Seq<u8> {
    seq![0x69u8, 0x6eu8, 0x70u8, 0x75u8, 0x74u8]
}

/// The bytes of `"output"`.
pub open spec fn key_output() -> Seq<u8> {
    seq![0x6fu8, 0x75u8, 0x74u8, 0x70u8, 0x75u8, 0x74u8]
}

/// The bytes of `"error"`.
pub open spec fn key_error() -> Seq<u8> {
    seq![0x65u8, 0x72u8, 0x72u8, 0x6fu8, 0x72u8]
}

/// The bytes of `"message"`.
pub open spec fn key_message() -> Seq<u8> {
    seq![0x6du8, 0x65u8, 0x73u8, 0x73u8, 0x61u8, 0x67u8, 0x65u8]
}

/// The bytes of `"size"`.
pub open spec fn key_size() -> Seq<u8> {
    seq![0x73u8, 0x69u8, 0x7au8, 0x65u8]
}

/// The bytes of `"type"`.
pub open spec fn key_type() -> Seq<u8> {
    seq![0x74u8, 0x79u8, 0x70u8, 0x65u8]
}

/// The bytes of `"height"`.
pub open spec fn key_height() -> Seq<u8> {
    seq![0x68u8, 0x65u8, 0x69u8, 0x67u8, 0x68u8, 0x74u8]
}

/// The bytes of `"width"`.
pub open spec fn key_width() -> Seq<u8> {
    seq![0x77u8, 0x69u8, 0x64u8, 0x74u8, 0x68u8]
}

/// The bytes of `"ratio"`.
pub open spec fn key_ratio() -> Seq<u8> {
    seq![0x72u8, 0x61u8, 0x74u8, 0x69u8, 0x6fu8]
}

/// The bytes of `"url"`.
pub open spec fn key_url() -> Seq<u8> {
    seq![0x75u8, 0x72u8, 0x6cu8]
}

fn key_input_vec() -> (v: Vec<u8>)
    ensures
        v@ == key_input(),
{
    let mut v: Vec<u8> = Vec::new();
    v.push(0x69u8);
    v.push(0x6eu8);
    v.push(0x70u8);
    v.push(0x75u8);
    v.push(0x74u8);
    proof {
        assert(v@ =~= key_input());
    }
    v
}

fn key_output_vec() -> (v: Vec<u8>)
    ensures
        v@ == key_output(),
{
    let mut v: Vec<u8> = Vec::new();
    v.push(0x6fu8);
    v.push(0x75u8);
    v.push(0x74u8);
    v.push(0x70u8);
    v.push(0x75u8);
    v.push(0x74u8);
    proof {
        assert(v@ =~= key_output());
    }
    v
}

fn key_error_vec() -> (v: Vec<u8>)
    ensures
        v@ == key_error(),
{
    let mut v: Vec<u8> = Vec::new();
    v.push(0x65u8);
    v.push(0x72u8);
    v.push(0x72u8);
    v.push(0x6fu8);
    v.push(0x72u8);
    proof {
        assert(v@ =~= key_error());
    }
    v
}

fn key_message_vec() -> (v: Vec<u8>)
    ensures
        v@ == key_message(),
{
    let mut v: Vec<u8> = Vec::new();
    v.push(0x6du8);
    v.push(0x65u8);
    v.push(0x73u8);
    v.push(0x73u8);
    v.push(0x61u8);
    v.push(0x67u8);
    v.push(0x65u8);
    proof {
        assert(v@ =~= key_message());
    }
    v
}

fn key_size_vec() -> (v: Vec<u8>)
    ensures
        v@ == key_size(),
{
    let mut v: Vec<u8> = Vec::new();
    v.push(0x73u8);
    v.push(0x69u8);
    v.push(0x7au8);
    v.push(0x65u8);
    proof {
        assert(v@ =~= key_size());
    }
    v
}

fn key_type_vec() -> (v: Vec<u8>)
    ensures
        v@ == key_type(),
{
    let mut v: Vec<u8> = Vec::new();
    v.push(0x74u8);
    v.push(0x79u8);
    v.push(0x70u8);
    v.push(0x65u8);
    proof {
        assert(v@ =~= key_type());
    }
    v
}

fn key_height_vec() -> (v: Vec<u8>)
    ensures
        v@ == key_height(),
{
    let mut v: Vec<u8> = Vec::new();
    v.push(0x68u8);
    v.push(0x65u8);
    v.push(0x69u8);
    v.push(0x67u8);
    v.push(0x68u8);
    v.push(0x74u8);
    proof {
        assert(v@ =~= key_height());
    }
    v
}

fn key_width_vec() -> (v: Vec<u8>)
    ensures
        v@ == key_width(),
{
    let mut v: Vec<u8> = Vec::new();
    v.push(0x77u8);
    v.push(0x69u8);
    v.push(0x64u8);
    v.push(0x74u8);
    v.push(0x68u8);
    proof {
        assert(v@ =~= key_width());
    }
    v
}

fn key_ratio_vec() -> (v: Vec<u8>)
    ensures
        v@ == key_ratio(),
{
    let mut v: Vec<u8> = Vec::new();
    v.push(0x72u8);
    v.push(0x61u8);
    v.push(0x74u8);
    v.push(0x69u8);
    v.push(0x6fu8);
    proof {
        assert(v@ =~= key_ratio());
    }
    v
}

fn key_url_vec() -> (v: Vec<u8>)
    ensures
        v@ == key_url(),
{
    let mut v: Vec<u8> = Vec::new();
    v.push(0x75u8);
    v.push(0x72u8);
    v.push(0x6cu8);
    proof {
        assert(v@ =~= key_url());
    }
    v
}

// ---------------------------------------------------------------------------
// Skipping values of unrecognized members.
// ---------------------------------------------------------------------------

/// End position of a scalar JSON value at `i`: a string, a number, `true`,
/// `false` or `null`.
pub open spec fn skip_scalar(s: Seq<u8>, i: int) -> Option<int> {
    if i < 0 || i >= s.len() {
        None
    } else if s[i] == 0x22 {
        match str_body(s, i + 1) {
            Some((t, j)) => Some(j),
            None => None,
        }
    } else if s[i] == 0x74 {
        if i + 4 <= s.len() && s[i + 1] == 0x72 && s[i + 2] == 0x75 && s[i + 3] == 0x65 {
            Some(i + 4)
        } else {
            None
        }
    } else if s[i] == 0x66 {
        if i + 5 <= s.len() && s[i + 1] == 0x61 && s[i + 2] == 0x6c && s[i + 3] == 0x73 && s[i + 4]
            == 0x65 {
            Some(i + 5)
        } else {
            None
        }
    } else if s[i] == 0x6e {
        if i + 4 <= s.len() && s[i + 1] == 0x75 && s[i + 2] == 0x6c && s[i + 3] == 0x6c {
            Some(i + 4)
        } else {
            None
        }
    } else {
        match num_token(s, i) {
            Some((v, j)) => Some(j),
            None => None,
        }
    }
}

pub fn parse_skip_scalar(s: &Vec<u8>, i: usize) -> (r: Option<usize>)
    requires
        i <= s.len(),
    ensures
        match r {
            Some(j) => skip_scalar(s@, i as int) == Some(j as int) && i < j <= s.len(),
            None => skip_scalar(s@, i as int) is None,
        },
{
    if i >= s.len() {
        None
    } else if s[i] == 0x22 {
        match parse_str_token(s, i) {
            Some((t, j)) => Some(j),
            None => None,
        }
    } else if s[i] == 0x74 {
        if s.len() - i >= 4 && s[i + 1] == 0x72 && s[i + 2] == 0x75 && s[i + 3] == 0x65 {
            Some(i + 4)
        } else {
            None
        }
    } else if s[i] == 0x66 {
        if s.len() - i >= 5 && s[i + 1] == 0x61 && s[i + 2] == 0x6c && s[i + 3] == 0x73 && s[i + 4]
            == 0x65 {
            Some(i + 5)
        } else {
            None
        }
    } else if s[i] == 0x6e {
        if s.len() - i >= 4 && s[i + 1] == 0x75 && s[i + 2] == 0x6c && s[i + 3] == 0x6c {
            Some(i + 4)
        } else {
            None
        }
    } else {
        match parse_num_token(s, i) {
            Some((v, j)) => Some(j),
            None => None,
        }
    }
}

/// Members of an object of scalars, entered at the first member name.
/// Returns the position one past the closing brace.
pub open spec fn flat_members(s: Seq<u8>, i: int) -> Option<int>
    decreases s.len() - i when 0 <= i <= s.len()
{
    match str_token(s, i) {
        None => None,
        Some((key, j)) => if !(i < j <= s.len()) {
            None
        } else {
            let k = skip_ws(s, j);
            if !(k <= s.len()) {
                None
            } else if k < s.len() && s[k] == 0x3a {
                let m = skip_ws(s, k + 1);
                if !(m <= s.len()) {
                    None
                } else {
                    match skip_scalar(s, m) {
                        None => None,
                        Some(p) => if !(m < p <= s.len() && i < p) {
                            None
                        } else {
                            let q = skip_ws(s, p);
                            if !(q <= s.len()) {
                                None
                            } else if q < s.len() && s[q] == 0x2c {
                                let r2 = skip_ws(s, q + 1);
                                if !(i < r2 <= s.len()) {
                                    None
                                } else {
                                    flat_members(s, r2)
                                }
                            } else if q < s.len() && s[q] == 0x7d {
                                Some(q + 1)
                            } else {
                                None
                            }
                        },
                    }
                }
            } else {
                None
            }
        },
    }
}

pub fn parse_flat_members(s: &Vec<u8>, i: usize) -> (r: Option<usize>)
    requires
        i <= s.len(),
    ensures
        match r {
            Some(j) => flat_members(s@, i as int) == Some(j as int) && i < j <= s.len(),
            None => flat_members(s@, i as int) is None,
        },
    decreases s.len() - i,
{
    match parse_str_token(s, i) {
        None => None,
        Some((key, j)) => {
            let k = ws_end(s, j);
            if k < s.len() && s[k] == 0x3a {
                let m = ws_end(s, k + 1);
                match parse_skip_scalar(s, m) {
                    None => None,
                    Some(p) => {
                        let q = ws_end(s, p);
                        if q < s.len() && s[q] == 0x2c {
                            let r2 = ws_end(s, q + 1);
                            parse_flat_members(s, r2)
                        } else if q < s.len() && s[q] == 0x7d {
                            Some(q + 1)
                        } else {
                            None
                        }
                    },
                }
            } else {
                None
            }
        },
    }
}

/// An unrecognized member's value: a scalar, or an object of scalars.
pub open spec fn skip_unknown(s: Seq<u8>, i: int) -> Option<int> {
    if 0 <= i < s.len() && s[i] == 0x7b {
        let w = skip_ws(s, i + 1);
        if !(w <= s.len()) {
            None
        } else if w < s.len() && s[w] == 0x7d {
            Some(w + 1)
        } else {
            flat_members(s, w)
        }
    } else {
        skip_scalar(s, i)
    }
}

pub fn parse_skip_unknown(s: &Vec<u8>, i: usize) -> (r: Option<usize>)
    requires
        i <= s.len(),
    ensures
        match r {
            Some(j) => skip_unknown(s@, i as int) == Some(j as int) && i < j <= s.len(),
            None => skip_unknown(s@, i as int) is None,
        },
{
    if i < s.len() && s[i] == 0x7b {
        let w = ws_end(s, i + 1);
        if w < s.len() && s[w] == 0x7d {
            Some(w + 1)
        } else {
            parse_flat_members(s, w)
        }
    } else {
        parse_skip_scalar(s, i)
    }
}

// ---------------------------------------------------------------------------
// Accumulators for the recognized members.
// ---------------------------------------------------------------------------

/// Fields of the descriptor's `input` facet seen so far.  A numeric field
/// holds `Some(None)` when the member was present but not a plain integer
/// that fits in a `u64`.
pub ghost struct InAccS {
    pub size: Option<Option<u64>>,
    pub typ: Option<Seq<u8>>,
}

/// Fields of the descriptor's `output` facet seen so far.  `ratio` only
/// records presence: the relay never reads the number, which need not be
/// integral.
pub ghost struct OutAccS {
    pub height: Option<Option<u64>>,
    pub width: Option<Option<u64>>,
    pub ratio: bool,
    pub size: Option<Option<u64>>,
    pub typ: Option<Seq<u8>>,
    pub url: Option<Seq<u8>>,
}

/// Members of the top-level object seen so far.
pub ghost struct TopAccS {
    pub input: Option<InAccS>,
    pub output: Option<OutAccS>,
    pub error: Option<Seq<u8>>,
    pub message: Option<Seq<u8>>,
}

pub open spec fn empty_in() -> InAccS {
    InAccS { size: None, typ: None }
}

pub open spec fn empty_out() -> OutAccS {
    OutAccS { height: None, width: None, ratio: false, size: None, typ: None, url: None }
}

pub open spec fn empty_top() -> TopAccS {
    TopAccS { input: None, output: None, error: None, message: None }
}

pub struct InAcc {
    pub size: Option<Option<u64>>,
    pub typ: Option<Vec<u8>>,
}

impl View for InAcc {
    type V = InAccS;

    open spec fn view(&self) -> InAccS {
        InAccS {
            size: self.size,
            typ: match self.typ {
                Some(v) => Some(v@),
                None => None,
            },
        }
    }
}

pub struct OutAcc {
    pub height: Option<Option<u64>>,
    pub width: Option<Option<u64>>,
    pub ratio: bool,
    pub size: Option<Option<u64>>,
    pub typ: Option<Vec<u8>>,
    pub url: Option<Vec<u8>>,
}

impl View for OutAcc {
    type V = OutAccS;

    open spec fn view(&self) -> OutAccS {
        OutAccS {
            height: self.height,
            width: self.width,
            ratio: self.ratio,
            size: self.size,
            typ: match self.typ {
                Some(v) => Some(v@),
                None => None,
            },
            url: match self.url {
                Some(v) => Some(v@),
                None => None,
            },
        }
    }
}

pub struct TopAcc {
    pub input: Option<InAcc>,
    pub output: Option<OutAcc>,
    pub error: Option<Vec<u8>>,
    pub message: Option<Vec<u8>>,
}

impl View for TopAcc {
    type V = TopAccS;

    open spec fn view(&self) -> TopAccS {
        TopAccS {
            input: match self.input {
                Some(a) => Some(a@),
                None => None,
            },
            output: match self.output {
                Some(a) => Some(a@),
                None => None,
            },
            error: match self.error {
                Some(v) => Some(v@),
                None => None,
            },
            message: match self.message {
                Some(v) => Some(v@),
                None => None,
            },
        }
    }
}

// ---------------------------------------------------------------------------
// The `input` facet.
// ---------------------------------------------------------------------------

/// One recognized or skipped member value of the `input` object, the member
/// name already read.  A recognized member seen a second time fails.
pub open spec fn in_field(s: Seq<u8>, m: int, key: Seq<u8>, acc: InAccS) -> Option<(InAccS, int)> {
    if key == key_size() {
        if acc.size is Some {
            None
        } else {
            match num_token(s, m) {
                Some((v, p)) => Some((InAccS { size: Some(v), typ: acc.typ }, p)),
                None => None,
            }
        }
    } else if key == key_type() {
        if acc.typ is Some {
            None
        } else {
            match str_token(s, m) {
                Some((t, p)) => Some((InAccS { size: acc.size, typ: Some(t) }, p)),
                None => None,
            }
        }
    } else {
        match skip_scalar(s, m) {
            Some(p) => Some((acc, p)),
            None => None,
        }
    }
}

fn exec_in_field(s: &Vec<u8>, m: usize, key: &Vec<u8>, acc: InAcc) -> (r: Option<(InAcc, usize)>)
    requires
        m <= s.len(),
    ensures
        match r {
            Some(p) => in_field(s@, m as int, key@, acc@) == Some((p.0@, p.1 as int)) && m < p.1
                <= s.len(),
            None => in_field(s@, m as int, key@, acc@) is None,
        },
{
    if bytes_eq(key, &key_size_vec()) {
        if acc.size.is_some() {
            None
        } else {
            match parse_num_token(s, m) {
                Some((v, p)) => Some((InAcc { size: Some(v), typ: acc.typ }, p)),
                None => None,
            }
        }
    } else if bytes_eq(key, &key_type_vec()) {
        if acc.typ.is_some() {
            None
        } else {
            match parse_str_token(s, m) {
                Some((t, p)) => Some((InAcc { size: acc.size, typ: Some(t) }, p)),
                None => None,
            }
        }
    } else {
        match parse_skip_scalar(s, m) {
            Some(p) => Some((acc, p)),
            None => None,
        }
    }
}

/// Members of the `input` object, entered at the first member name.
pub open spec fn in_members(s: Seq<u8>, i: int, acc: InAccS) -> Option<(InAccS, int)>
    decreases s.len() - i when 0 <= i <= s.len()
{
    match str_token(s, i) {
        None => None,
        Some((key, j)) => if !(i < j <= s.len()) {
            None
        } else {
            let k = skip_ws(s, j);
            if !(k <= s.len()) {
                None
            } else if k < s.len() && s[k] == 0x3a {
                let m = skip_ws(s, k + 1);
                if !(m <= s.len()) {
                    None
                } else {
                    match in_field(s, m, key, acc) {
                        None => None,
                        Some((acc2, p)) => if !(m < p <= s.len() && i < p) {
                            None
                        } else {
                            let q = skip_ws(s, p);
                            if !(q <= s.len()) {
                                None
                            } else if q < s.len() && s[q] == 0x2c {
                                let r2 = skip_ws(s, q + 1);
                                if !(i < r2 <= s.len()) {
                                    None
                                } else {
                                    in_members(s, r2, acc2)
                                }
                            } else if q < s.len() && s[q] == 0x7d {
                                Some((acc2, q + 1))
                            } else {
                                None
                            }
                        },
                    }
                }
            } else {
                None
            }
        },
    }
}

fn exec_in_members(s: &Vec<u8>, i: usize, acc: InAcc) -> (r: Option<(InAcc, usize)>)
    requires
        i <= s.len(),
    ensures
        match r {
            Some(p) => in_members(s@, i as int, acc@) == Some((p.0@, p.1 as int)) && i < p.1
                <= s.len(),
            None => in_members(s@, i as int, acc@) is None,
        },
    decreases s.len() - i,
{
    match parse_str_token(s, i) {
        None => None,
        Some((key, j)) => {
            let k = ws_end(s, j);
            if k < s.len() && s[k] == 0x3a {
                let m = ws_end(s, k + 1);
                match exec_in_field(s, m, &key, acc) {
                    None => None,
                    Some((acc2, p)) => {
                        let q = ws_end(s, p);
                        if q < s.len() && s[q] == 0x2c {
                            let r2 = ws_end(s, q + 1);
                            exec_in_members(s, r2, acc2)
                        } else if q < s.len() && s[q] == 0x7d {
                            Some((acc2, q + 1))
                        } else {
                            None
                        }
                    },
                }
            } else {
                None
            }
        },
    }
}

/// The whole `input` object, entered at its opening brace.
pub open spec fn in_object(s: Seq<u8>, i: int) -> Option<(InAccS, int)> {
    if 0 <= i < s.len() && s[i] == 0x7b {
        let w = skip_ws(s, i + 1);
        if !(w <= s.len()) {
            None
        } else if w < s.len() && s[w] == 0x7d {
            Some((empty_in(), w + 1))
        } else {
            in_members(s, w, empty_in())
        }
    } else {
        None
    }
}

fn exec_in_object(s: &Vec<u8>, i: usize) -> (r: Option<(InAcc, usize)>)
    requires
        i <= s.len(),
    ensures
        match r {
            Some(p) => in_object(s@, i as int) == Some((p.0@, p.1 as int)) && i < p.1 <= s.len(),
            None => in_object(s@, i as int) is None,
        },
{
    if i < s.len() && s[i] == 0x7b {
        let w = ws_end(s, i + 1);
        if w < s.len() && s[w] == 0x7d {
            let a = InAcc { size: None, typ: None };
            assert(a@ == empty_in());
            Some((a, w + 1))
        } else {
            exec_in_members(s, w, InAcc { size: None, typ: None })
        }
    } else {
        None
    }
}

// ---------------------------------------------------------------------------
// The `output` facet.
// ---------------------------------------------------------------------------

/// One recognized or skipped member value of the `output` object.
pub open spec fn out_field(s: Seq<u8>, m: int, key: Seq<u8>, acc: OutAccS) -> Option<
    (OutAccS, int),
> {
    if key == key_height() {
        if acc.height is Some {
            None
        } else {
            match num_token(s, m) {
                Some((v, p)) => Some((OutAccS { height: Some(v), ..acc }, p)),
                None => None,
            }
        }
    } else if key == key_width() {
        if acc.width is Some {
            None
        } else {
            match num_token(s, m) {
                Some((v, p)) => Some((OutAccS { width: Some(v), ..acc }, p)),
                None => None,
            }
        }
    } else if key == key_ratio() {
        if acc.ratio {
            None
        } else {
            match num_token(s, m) {
                Some((v, p)) => Some((OutAccS { ratio: true, ..acc }, p)),
                None => None,
            }
        }
    } else if key == key_size() {
        if acc.size is Some {
            None
        } else {
            match num_token(s, m) {
                Some((v, p)) => Some((OutAccS { size: Some(v), ..acc }, p)),
                None => None,
            }
        }
    } else if key == key_type() {
        if acc.typ is Some {
            None
        } else {
            match str_token(s, m) {
                Some((t, p)) => Some((OutAccS { typ: Some(t), ..acc }, p)),
                None => None,
            }
        }
    } else if key == key_url() {
        if acc.url is Some {
            None
        } else {
            match str_token(s, m) {
                Some((t, p)) => Some((OutAccS { url: Some(t), ..acc }, p)),
                None => None,
            }
        }
    } else {
        match skip_scalar(s, m) {
            Some(p) => Some((acc, p)),
            None => None,
        }
    }
}

fn exec_out_field(s: &Vec<u8>, m: usize, key: &Vec<u8>, acc: OutAcc) -> (r: Option<(OutAcc, usize)>)
    requires
        m <= s.len(),
    ensures
        match r {
            Some(p) => out_field(s@, m as int, key@, acc@) == Some((p.0@, p.1 as int)) && m < p.1
                <= s.len(),
            None => out_field(s@, m as int, key@, acc@) is None,
        },
{
    if bytes_eq(key, &key_height_vec()) {
        if acc.height.is_some() {
            None
        } else {
            match parse_num_token(s, m) {
                Some((v, p)) => Some((OutAcc { height: Some(v), ..acc }, p)),
                None => None,
            }
        }
    } else if bytes_eq(key, &key_width_vec()) {
        if acc.width.is_some() {
            None
        } else {
            match parse_num_token(s, m) {
                Some((v, p)) => Some((OutAcc { width: Some(v), ..acc }, p)),
                None => None,
            }
        }
    } else if bytes_eq(key, &key_ratio_vec()) {
        if acc.ratio {
            None
        } else {
            match parse_num_token(s, m) {
                Some((v, p)) => Some((OutAcc { ratio: true, ..acc }, p)),
                None => None,
            }
        }
    } else if bytes_eq(key, &key_size_vec()) {
        if acc.size.is_some() {
            None
        } else {
            match parse_num_token(s, m) {
                Some((v, p)) => Some((OutAcc { size: Some(v), ..acc }, p)),
                None => None,
            }
        }
    } else if bytes_eq(key, &key_type_vec()) {
        if acc.typ.is_some() {
            None
        } else {
            match parse_str_token(s, m) {
                Some((t, p)) => Some((OutAcc { typ: Some(t), ..acc }, p)),
                None => None,
            }
        }
    } else if bytes_eq(key, &key_url_vec()) {
        if acc.url.is_some() {
            None
        } else {
            match parse_str_token(s, m) {
                Some((t, p)) => Some((OutAcc { url: Some(t), ..acc }, p)),
                None => None,
            }
        }
    } else {
        match parse_skip_scalar(s, m) {
            Some(p) => Some((acc, p)),
            None => None,
        }
    }
}

/// Members of the `output` object, entered at the first member name.
pub open spec fn out_members(s: Seq<u8>, i: int, acc: OutAccS) -> Option<(OutAccS, int)>
    decreases s.len() - i when 0 <= i <= s.len()
{
    match str_token(s, i) {
        None => None,
        Some((key, j)) => if !(i < j <= s.len()) {
            None
        } else {
            let k = skip_ws(s, j);
            if !(k <= s.len()) {
                None
            } else if k < s.len() && s[k] == 0x3a {
                let m = skip_ws(s, k + 1);
                if !(m <= s.len()) {
                    None
                } else {
                    match out_field(s, m, key, acc) {
                        None => None,
                        Some((acc2, p)) => if !(m < p <= s.len() && i < p) {
                            None
                        } else {
                            let q = skip_ws(s, p);
                            if !(q <= s.len()) {
                                None
                            } else if q < s.len() && s[q] == 0x2c {
                                let r2 = skip_ws(s, q + 1);
                                if !(i < r2 <= s.len()) {
                                    None
                                } else {
                                    out_members(s, r2, acc2)
                                }
                            } else if q < s.len() && s[q] == 0x7d {
                                Some((acc2, q + 1))
                            } else {
                                None
                            }
                        },
                    }
                }
            } else {
                None
            }
        },
    }
}

fn exec_out_members(s: &Vec<u8>, i: usize, acc: OutAcc) -> (r: Option<(OutAcc, usize)>)
    requires
        i <= s.len(),
    ensures
        match r {
            Some(p) => out_members(s@, i as int, acc@) == Some((p.0@, p.1 as int)) && i < p.1
                <= s.len(),
            None => out_members(s@, i as int, acc@) is None,
        },
    decreases s.len() - i,
{
    match parse_str_token(s, i) {
        None => None,
        Some((key, j)) => {
            let k = ws_end(s, j);
            if k < s.len() && s[k] == 0x3a {
                let m = ws_end(s, k + 1);
                match exec_out_field(s, m, &key, acc) {
                    None => None,
                    Some((acc2, p)) => {
                        let q = ws_end(s, p);
                        if q < s.len() && s[q] == 0x2c {
                            let r2 = ws_end(s, q + 1);
                            exec_out_members(s, r2, acc2)
                        } else if q < s.len() && s[q] == 0x7d {
                            Some((acc2, q + 1))
                        } else {
                            None
                        }
                    },
                }
            } else {
                None
            }
        },
    }
}

/// The whole `output` object, entered at its opening brace.
pub open spec fn out_object(s: Seq<u8>, i: int) -> Option<(OutAccS, int)> {
    if 0 <= i < s.len() && s[i] == 0x7b {
        let w = skip_ws(s, i + 1);
        if !(w <= s.len()) {
            None
        } else if w < s.len() && s[w] == 0x7d {
            Some((empty_out(), w + 1))
        } else {
            out_members(s, w, empty_out())
        }
    } else {
        None
    }
}

fn exec_out_object(s: &Vec<u8>, i: usize) -> (r: Option<(OutAcc, usize)>)
    requires
        i <= s.len(),
    ensures
        match r {
            Some(p) => out_object(s@, i as int) == Some((p.0@, p.1 as int)) && i < p.1 <= s.len(),
            None => out_object(s@, i as int) is None,
        },
{
    if i < s.len() && s[i] == 0x7b {
        let w = ws_end(s, i + 1);
        if w < s.len() && s[w] == 0x7d {
            let a = OutAcc { height: None, width: None, ratio: false, size: None, typ: None, url: None };
            assert(a@ == empty_out());
            Some((a, w + 1))
        } else {
            exec_out_members(
                s,
                w,
                OutAcc { height: None, width: None, ratio: false, size: None, typ: None, url: None },
            )
        }
    } else {
        None
    }
}

// ---------------------------------------------------------------------------
// The top-level object.
// ---------------------------------------------------------------------------

/// One recognized or skipped member value of the top-level object.
pub open spec fn top_field(s: Seq<u8>, m: int, key: Seq<u8>, acc: TopAccS) -> Option<
    (TopAccS, int),
> {
    if key == key_input() {
        if acc.input is Some {
            None
        } else {
            match in_object(s, m) {
                Some((a, p)) => Some((TopAccS { input: Some(a), ..acc }, p)),
                None => None,
            }
        }
    } else if key == key_output() {
        if acc.output is Some {
            None
        } else {
            match out_object(s, m) {
                Some((a, p)) => Some((TopAccS { output: Some(a), ..acc }, p)),
                None => None,
            }
        }
    } else if key == key_error() {
        if acc.error is Some {
            None
        } else {
            match str_token(s, m) {
                Some((t, p)) => Some((TopAccS { error: Some(t), ..acc }, p)),
                None => None,
            }
        }
    } else if key == key_message() {
        if acc.message is Some {
            None
        } else {
            match str_token(s, m) {
                Some((t, p)) => Some((TopAccS { message: Some(t), ..acc }, p)),
                None => None,
            }
        }
    } else {
        match skip_unknown(s, m) {
            Some(p) => Some((acc, p)),
            None => None,
        }
    }
}

fn exec_top_field(s: &Vec<u8>, m: usize, key: &Vec<u8>, acc: TopAcc) -> (r: Option<(TopAcc, usize)>)
    requires
        m <= s.len(),
    ensures
        match r {
            Some(p) => top_field(s@, m as int, key@, acc@) == Some((p.0@, p.1 as int)) && m < p.1
                <= s.len(),
            None => top_field(s@, m as int, key@, acc@) is None,
        },
{
    if bytes_eq(key, &key_input_vec()) {
        if acc.input.is_some() {
            None
        } else {
            match exec_in_object(s, m) {
                Some((a, p)) => Some((TopAcc { input: Some(a), ..acc }, p)),
                None => None,
            }
        }
    } else if bytes_eq(key, &key_output_vec()) {
        if acc.output.is_some() {
            None
        } else {
            match exec_out_object(s, m) {
                Some((a, p)) => Some((TopAcc { output: Some(a), ..acc }, p)),
                None => None,
            }
        }
    } else if bytes_eq(key, &key_error_vec()) {
        if acc.error.is_some() {
            None
        } else {
            match parse_str_token(s, m) {
                Some((t, p)) => Some((TopAcc { error: Some(t), ..acc }, p)),
                None => None,
            }
        }
    } else if bytes_eq(key, &key_message_vec()) {
        if acc.message.is_some() {
            None
        } else {
            match parse_str_token(s, m) {
                Some((t, p)) => Some((TopAcc { message: Some(t), ..acc }, p)),
                None => None,
            }
        }
    } else {
        match parse_skip_unknown(s, m) {
            Some(p) => Some((acc, p)),
            None => None,
        }
    }
}

/// Members of the top-level object, entered at the first member name.
pub open spec fn top_members(s: Seq<u8>, i: int, acc: TopAccS) -> Option<(TopAccS, int)>
    decreases s.len() - i when 0 <= i <= s.len()
{
    match str_token(s, i) {
        None => None,
        Some((key, j)) => if !(i < j <= s.len()) {
            None
        } else {
            let k = skip_ws(s, j);
            if !(k <= s.len()) {
                None
            } else if k < s.len() && s[k] == 0x3a {
                let m = skip_ws(s, k + 1);
                if !(m <= s.len()) {
                    None
                } else {
                    match top_field(s, m, key, acc) {
                        None => None,
                        Some((acc2, p)) => if !(m < p <= s.len() && i < p) {
                            None
                        } else {
                            let q = skip_ws(s, p);
                            if !(q <= s.len()) {
                                None
                            } else if q < s.len() && s[q] == 0x2c {
                                let r2 = skip_ws(s, q + 1);
                                if !(i < r2 <= s.len()) {
                                    None
                                } else {
                                    top_members(s, r2, acc2)
                                }
                            } else if q < s.len() && s[q] == 0x7d {
                                Some((acc2, q + 1))
                            } else {
                                None
                            }
                        },
                    }
                }
            } else {
                None
            }
        },
    }
}

fn exec_top_members(s: &Vec<u8>, i: usize, acc: TopAcc) -> (r: Option<(TopAcc, usize)>)
    requires
        i <= s.len(),
    ensures
        match r {
            Some(p) => top_members(s@, i as int, acc@) == Some((p.0@, p.1 as int)) && i < p.1
                <= s.len(),
            None => top_members(s@, i as int, acc@) is None,
        },
    decreases s.len() - i,
{
    match parse_str_token(s, i) {
        None => None,
        Some((key, j)) => {
            let k = ws_end(s, j);
            if k < s.len() && s[k] == 0x3a {
                let m = ws_end(s, k + 1);
                match exec_top_field(s, m, &key, acc) {
                    None => None,
                    Some((acc2, p)) => {
                        let q = ws_end(s, p);
                        if q < s.len() && s[q] == 0x2c {
                            let r2 = ws_end(s, q + 1);
                            exec_top_members(s, r2, acc2)
                        } else if q < s.len() && s[q] == 0x7d {
                            Some((acc2, q + 1))
                        } else {
                            None
                        }
                    },
                }
            } else {
                None
            }
        },
    }
}


// ---------------------------------------------------------------------------
// Classification of a fully parsed top-level object.
// ---------------------------------------------------------------------------

/// Mathematical form of a compression descriptor.
pub ghost struct DescS {
    pub input_size: u32,
    pub input_type: Seq<u8>,
    pub output_height: u32,
    pub output_width: u32,
    pub output_size: u32,
    pub output_type: Seq<u8>,
    pub url: Seq<u8>,
}

/// The success payload of an upload: what the upstream service reports about
/// the compressed artifact, including the one-shot retrieval URL.
pub struct CompressionDescriptor {
    pub input_size: u32,
    pub input_type: Vec<u8>,
    pub output_height: u32,
    pub output_width: u32,
    pub output_size: u32,
    pub output_type: Vec<u8>,
    pub url: Vec<u8>,
}

impl View for CompressionDescriptor {
    type V = DescS;

    open spec fn view(&self) -> DescS {
        DescS {
            input_size: self.input_size,
            input_type: self.input_type@,
            output_height: self.output_height,
            output_width: self.output_width,
            output_size: self.output_size,
            output_type: self.output_type@,
            url: self.url@,
        }
    }
}

/// Mathematical form of a parsed upstream response body.
pub ghost enum UpstreamParseS {
    Descriptor(DescS),
    ApiError { code: Seq<u8>, message: Seq<u8> },
    Malformed,
}

/// A parsed upstream response body: the descriptor shape, the error shape,
/// or neither.
pub enum UpstreamParse {
    Descriptor(CompressionDescriptor),
    ApiError { code: Vec<u8>, message: Vec<u8> },
    Malformed,
}

impl View for UpstreamParse {
    type V = UpstreamParseS;

    open spec fn view(&self) -> UpstreamParseS {
        match self {
            UpstreamParse::Descriptor(d) => UpstreamParseS::Descriptor(d@),
            UpstreamParse::ApiError { code, message } => UpstreamParseS::ApiError {
                code: code@,
                message: message@,
            },
            UpstreamParse::Malformed => UpstreamParseS::Malformed,
        }
    }
}

/// The descriptor that the collected members form, if every member of the
/// descriptor shape is present and each dimension and size is an integer
/// that fits in a `u32`.
pub open spec fn desc_of(t: TopAccS) -> Option<DescS> {
    match (t.input, t.output) {
        (Some(ia), Some(oa)) => match (ia.size, ia.typ, oa.height, oa.width, oa.size, oa.typ, oa.url) {
            (
                Some(Some(isz)),
                Some(ityp),
                Some(Some(h)),
                Some(Some(w)),
                Some(Some(osz)),
                Some(otyp),
                Some(u),
            ) => if oa.ratio && isz <= u32::MAX && h <= u32::MAX && w <= u32::MAX && osz
                <= u32::MAX {
                Some(
                    DescS {
                        input_size: isz as u32,
                        input_type: ityp,
                        output_height: h as u32,
                        output_width: w as u32,
                        output_size: osz as u32,
                        output_type: otyp,
                        url: u,
                    },
                )
            } else {
                None
            },
            _ => None,
        },
        _ => None,
    }
}

/// What a completed top-level object means: the descriptor shape when it is
/// complete, otherwise the error shape when `error` and `message` are both
/// present, otherwise neither.
pub open spec fn classify(t: TopAccS) -> UpstreamParseS {
    match desc_of(t) {
        Some(d) => UpstreamParseS::Descriptor(d),
        None => match (t.error, t.message) {
            (Some(c), Some(m)) => UpstreamParseS::ApiError { code: c, message: m },
            _ => UpstreamParseS::Malformed,
        },
    }
}

fn exec_classify(t: TopAcc) -> (r: UpstreamParse)
    ensures
        r@ == classify(t@),
{
    let TopAcc { input, output, error, message } = t;
    match (input, output) {
        (Some(ia), Some(oa)) => {
            let InAcc { size: i_size, typ: i_typ } = ia;
            let OutAcc { height, width, ratio, size: o_size, typ: o_typ, url } = oa;
            match (i_size, i_typ, height, width, o_size, o_typ, url) {
                (
                    Some(Some(isz)),
                    Some(ityp),
                    Some(Some(h)),
                    Some(Some(w)),
                    Some(Some(osz)),
                    Some(otyp),
                    Some(u),
                ) => {
                    if ratio && isz <= u32::MAX as u64 && h <= u32::MAX as u64 && w <= u32::MAX
                        as u64 && osz <= u32::MAX as u64 {
                        UpstreamParse::Descriptor(
                            CompressionDescriptor {
                                input_size: isz as u32,
                                input_type: ityp,
                                output_height: h as u32,
                                output_width: w as u32,
                                output_size: osz as u32,
                                output_type: otyp,
                                url: u,
                            },
                        )
                    } else {
                        match (error, message) {
                            (Some(c), Some(m)) => UpstreamParse::ApiError {
                                code: c,
                                message: m,
                            },
                            _ => UpstreamParse::Malformed,
                        }
                    }
                },
                _ => match (error, message) {
                    (Some(c), Some(m)) => UpstreamParse::ApiError { code: c, message: m },
                    _ => UpstreamParse::Malformed,
                },
            }
        },
        _ => match (error, message) {
            (Some(c), Some(m)) => UpstreamParse::ApiError { code: c, message: m },
            _ => UpstreamParse::Malformed,
        },
    }
}

// ---------------------------------------------------------------------------
// The whole response body.
// ---------------------------------------------------------------------------

/// What an upstream response body means: one whole JSON object of the
/// accepted grammar, surrounded by nothing but whitespace, classified into
/// the descriptor shape or the error shape; everything else is malformed.
pub open spec fn spec_parse_upstream(s: Seq<u8>) -> UpstreamParseS {
    let w = skip_ws(s, 0);
    if 0 <= w < s.len() && s[w] == 0x7b {
        let w2 = skip_ws(s, w + 1);
        let parsed = if !(w2 <= s.len()) {
            None
        } else if w2 < s.len() && s[w2] == 0x7d {
            Some((empty_top(), w2 + 1))
        } else {
            top_members(s, w2, empty_top())
        };
        match parsed {
            None => UpstreamParseS::Malformed,
            Some((acc, p)) => if 0 <= p <= s.len() && skip_ws(s, p) == s.len() {
                classify(acc)
            } else {
                UpstreamParseS::Malformed
            },
        }
    } else {
        UpstreamParseS::Malformed
    }
}

/// Parse one upstream response body.  This is the single place where the
/// relay decides which of the two documented shapes the upstream service
/// answered with.
pub fn parse_upstream_response(s: &Vec<u8>) -> (r: UpstreamParse)
    ensures
        r@ == spec_parse_upstream(s@),
{
    let w = ws_end(s, 0);
    if w < s.len() && s[w] == 0x7b {
        let w2 = ws_end(s, w + 1);
        let parsed: Option<(TopAcc, usize)> = if w2 < s.len() && s[w2] == 0x7d {
            let a = TopAcc { input: None, output: None, error: None, message: None };
            assert(a@ == empty_top());
            Some((a, w2 + 1))
        } else {
            exec_top_members(s, w2, TopAcc { input: None, output: None, error: None, message: None })
        };
        match parsed {
            None => UpstreamParse::Malformed,
            Some((acc, p)) => {
                if ws_end(s, p) == s.len() {
                    exec_classify(acc)
                } else {
                    UpstreamParse::Malformed
                }
            },
        }
    } else {
        UpstreamParse::Malformed
    }
}

} // verus!
