//! The subscription-form endpoint: form decoding and the (stub) handler.
//!
//! `POST /subscriptions` carries an `application/x-www-form-urlencoded`
//! body with the required fields `email` and `name`.  The decoding is
//! specified here from the ground up, over the body's bytes: segments are
//! separated by `&`, a segment splits at its first `=` into key and
//! value, and both sides are percent-decoded (`+` stands for a space,
//! `%XX` for the byte with hex code `XX`).  A field's decoded bytes are
//! then assembled as UTF-8; a malformed escape, a value that is not valid
//! UTF-8, and a body in which a required field is missing or repeated
//! are rejected.

use vstd::prelude::*;
use vstd::slice::{slice_subrange, slice_to_vec};
use vstd::string::StringSliceAdditionalSpecFns;
use vstd::utf8::{encode_utf8, valid_utf8};

verus! {

/// The two fields a subscription form must carry.
#[derive(Debug)]
pub struct FormData {
    pub email: String,
    pub name: String,
}

/// A plain model of the HTTP reply the endpoint produces: a status code and
/// a response body.
pub struct HttpReply {
    pub status: u16,
    pub body: String,
}

/// Why a request body was rejected by the form-decoding layer.
#[derive(Clone, Copy, PartialEq, Eq, Structural, Debug)]
pub enum FormError {
    /// A percent escape is malformed, or a field's decoded bytes are not
    /// valid UTF-8.
    Malformed,
    /// A required field does not occur.
    MissingField,
    /// A required field occurs more than once.
    DuplicateField,
}


// The byte codes of the characters the grammar keys on: '%', '+', the
// space, '=', '&', and the hex-digit ranges 0-9, a-f, A-F.
pub const BYTE_PERCENT: u8 = 0x25;

pub const BYTE_PLUS: u8 = 0x2b;

pub const BYTE_SPACE: u8 = 0x20;

pub const BYTE_EQ: u8 = 0x3d;

pub const BYTE_AMP: u8 = 0x26;

pub const BYTE_0: u8 = 0x30;

pub const BYTE_9: u8 = 0x39;

pub const BYTE_LC_A: u8 = 0x61;

pub const BYTE_LC_F: u8 = 0x66;

pub const BYTE_UC_A: u8 = 0x41;

pub const BYTE_UC_F: u8 = 0x46;

pub open spec fn is_hex_digit(b: u8) -> bool {
    (BYTE_0 <= b && b <= BYTE_9) || (BYTE_LC_A <= b && b <= BYTE_LC_F) || (BYTE_UC_A <= b && b <= BYTE_UC_F)
}

pub open spec fn hex_value(b: u8) -> int {
    if BYTE_0 <= b && b <= BYTE_9 {
        b - BYTE_0
    } else if BYTE_LC_A <= b && b <= BYTE_LC_F {
        b - BYTE_LC_A + 10
    } else {
        b - BYTE_UC_A + 10
    }
}

/// What percent-decoding a piece of a form body yields: `+` becomes a
/// space, `%XX` with two hex digits becomes the byte with that code,
/// every other byte stands for itself.  `None` on a malformed escape.
pub open spec fn decoded(s: Seq<u8>) -> Option<Seq<u8>>
    decreases s.len(),
{
    if s.len() == 0 {
        Some(Seq::empty())
    } else if s[0] == BYTE_PERCENT {
        if s.len() >= 3 && is_hex_digit(s[1]) && is_hex_digit(s[2]) {
            let v = 16 * hex_value(s[1]) + hex_value(s[2]);
            match decoded(s.skip(3)) {
                Some(t) => Some(seq![v as u8] + t),
                None => None,
            }
        } else {
            None
        }
    } else {
        let b = if s[0] == BYTE_PLUS {
            BYTE_SPACE
        } else {
            s[0]
        };
        match decoded(s.skip(1)) {
            Some(t) => Some(seq![b] + t),
            None => None,
        }
    }
}

/// The index of the first occurrence of `b` in `s`, or -1 if there is none.
pub open spec fn find_byte(s: Seq<u8>, b: u8) -> int
    decreases s.len(),
{
    if s.len() == 0 {
        -1
    } else if s[0] == b {
        0
    } else {
        let r = find_byte(s.skip(1), b);
        if r < 0 {
            -1
        } else {
            1 + r
        }
    }
}

proof fn lemma_find_byte_bounds(s: Seq<u8>, b: u8)
    ensures
        -1 <= find_byte(s, b) < s.len(),
    decreases s.len(),
{
    if s.len() > 0 && s[0] != b {
        lemma_find_byte_bounds(s.skip(1), b);
    }
}

/// What one `key=value` segment decodes to: it splits at its first `=`
/// (no `=` means an empty value), and both sides percent-decode.
pub open spec fn pair_of(seg: Seq<u8>) -> Option<(Seq<u8>, Seq<u8>)> {
    let i = find_byte(seg, BYTE_EQ);
    let rawk = if 0 <= i <= seg.len() {
        seg.take(i)
    } else {
        seg
    };
    let rawv = if 0 <= i < seg.len() {
        seg.skip(i + 1)
    } else {
        Seq::<u8>::empty()
    };
    match (decoded(rawk), decoded(rawv)) {
        (Some(k), Some(v)) => Some((k, v)),
        _ => None,
    }
}

/// What a whole form body decodes to: the key/value pairs of its
/// `&`-separated segments, in order, empty segments skipped.  `None` as
/// soon as one segment is malformed.
pub open spec fn pairs_of(s: Seq<u8>) -> Option<Seq<(Seq<u8>, Seq<u8>)>>
    decreases s.len(),
{
    if s.len() == 0 {
        Some(Seq::empty())
    } else {
        let i = find_byte(s, BYTE_AMP);
        if !(0 <= i < s.len()) {
            match pair_of(s) {
                Some(p) => Some(seq![p]),
                None => None,
            }
        } else {
            let seg = s.take(i);
            match pairs_of(s.skip(i + 1)) {
                None => None,
                Some(rest) => {
                    if seg.len() == 0 {
                        Some(rest)
                    } else {
                        match pair_of(seg) {
                            Some(p) => Some(seq![p] + rest),
                            None => None,
                        }
                    }
                },
            }
        }
    }
}

/// The views of a vector of decoded key/value pairs.
pub open spec fn pairs_view(v: Seq<(Vec<u8>, Vec<u8>)>) -> Seq<(Seq<u8>, Seq<u8>)> {
    v.map(|i: int, p: (Vec<u8>, Vec<u8>)| (p.0@, p.1@))
}

/// How often `k` occurs as a key among the pairs.
pub open spec fn count_key(ps: Seq<(Seq<u8>, Seq<u8>)>, k: Seq<u8>) -> int
    decreases ps.len(),
{
    if ps.len() == 0 {
        0
    } else {
        (if ps[0].0 == k {
            1int
        } else {
            0int
        }) + count_key(ps.skip(1), k)
    }
}

/// The value of the first pair whose key is `k`.
pub open spec fn value_for(ps: Seq<(Seq<u8>, Seq<u8>)>, k: Seq<u8>) -> Seq<u8>
    decreases ps.len(),
{
    if ps.len() == 0 {
        Seq::empty()
    } else if ps[0].0 == k {
        ps[0].1
    } else {
        value_for(ps.skip(1), k)
    }
}

proof fn lemma_count_key_bounds(ps: Seq<(Seq<u8>, Seq<u8>)>, k: Seq<u8>)
    ensures
        0 <= count_key(ps, k) <= ps.len(),
    decreases ps.len(),
{
    if ps.len() > 0 {
        lemma_count_key_bounds(ps.skip(1), k);
    }
}

/// The bytes of the `email` key.
pub open spec fn email_key() -> Seq<u8> {
    "email".spec_bytes()
}

/// The bytes of the `name` key.
pub open spec fn name_key() -> Seq<u8> {
    "name".spec_bytes()
}

/// A body the endpoint accepts: well-formed, each required field present
/// exactly once, and both field values valid UTF-8.
pub open spec fn accepted_form(body: &str) -> bool {
    match pairs_of(body.spec_bytes()) {
        Some(ps) => count_key(ps, email_key()) == 1 && count_key(ps, name_key()) == 1
            && valid_utf8(value_for(ps, email_key())) && valid_utf8(value_for(ps, name_key())),
        None => false,
    }
}

/// Relies on `String::from_utf8`: it succeeds exactly on valid UTF-8 and
/// the string then holds those very bytes.
#[verifier::external_body]
fn utf8_to_string(v: Vec<u8>) -> (r: Option<String>)
    ensures
        r is Some <==> valid_utf8(v@),
        r matches Some(s) ==> encode_utf8(s@) == v@,
{
    match String::from_utf8(v) {
        Ok(s) => Some(s),
        Err(_) => None,
    }
}

fn hex_digit_value(b: u8) -> (r: Option<u8>)
    ensures
        match r {
            Some(v) => is_hex_digit(b) && v as int == hex_value(b) && v < 16,
            None => !is_hex_digit(b),
        },
{
    if BYTE_0 <= b && b <= BYTE_9 {
        Some(b - BYTE_0)
    } else if BYTE_LC_A <= b && b <= BYTE_LC_F {
        Some(b - BYTE_LC_A + 10)
    } else if BYTE_UC_A <= b && b <= BYTE_UC_F {
        Some(b - BYTE_UC_A + 10)
    } else {
        None
    }
}

fn percent_decode(s: &[u8]) -> (r: Option<Vec<u8>>)
    ensures
        match r {
            Some(t) => decoded(s@) == Some(t@),
            None => decoded(s@) is None,
        },
    decreases s@.len(),
{
    let n = s.len();
    if n == 0 {
        let out: Vec<u8> = Vec::new();
        proof {
            assert(s@ =~= Seq::<u8>::empty());
            assert(decoded(s@) == Some(out@));
        }
        return Some(out);
    }
    if s[0] == BYTE_PERCENT {
        if n < 3 {
            return None;
        }
        match (hex_digit_value(s[1]), hex_digit_value(s[2])) {
            (Some(a), Some(b)) => {
                let v: u8 = a * 16 + b;
                let rest = slice_subrange(s, 3, n);
                match percent_decode(rest) {
                    Some(mut t) => {
                        let ghost gt = t@;
                        let mut out: Vec<u8> = Vec::new();
                        out.push(v);
                        out.append(&mut t);
                        proof {
                            assert(rest@ == s@.skip(3));
                            assert(out@ =~= seq![v] + gt);
                        }
                        Some(out)
                    },
                    None => None,
                }
            },
            _ => None,
        }
    } else {
        let d: u8 = if s[0] == BYTE_PLUS {
            BYTE_SPACE
        } else {
            s[0]
        };
        let rest = slice_subrange(s, 1, n);
        match percent_decode(rest) {
            Some(mut t) => {
                let ghost gt = t@;
                let mut out: Vec<u8> = Vec::new();
                out.push(d);
                out.append(&mut t);
                proof {
                    assert(rest@ == s@.skip(1));
                    assert(out@ =~= seq![d] + gt);
                }
                Some(out)
            },
            None => None,
        }
    }
}

fn find_in(s: &[u8], b: u8) -> (r: Option<usize>)
    ensures
        match r {
            Some(i) => find_byte(s@, b) == i as int && i < s@.len(),
            None => find_byte(s@, b) == -1,
        },
    decreases s@.len(),
{
    let n = s.len();
    if n == 0 {
        None
    } else if s[0] == b {
        Some(0)
    } else {
        let rest = slice_subrange(s, 1, n);
        proof {
            assert(rest@ == s@.skip(1));
            lemma_find_byte_bounds(rest@, b);
        }
        match find_in(rest, b) {
            Some(i) => Some(i + 1),
            None => None,
        }
    }
}

fn parse_pair_seg(seg: &[u8]) -> (r: Option<(Vec<u8>, Vec<u8>)>)
    ensures
        match r {
            Some(p) => pair_of(seg@) == Some((p.0@, p.1@)),
            None => pair_of(seg@) is None,
        },
{
    let n = seg.len();
    let (rawk, rawv) = match find_in(seg, BYTE_EQ) {
        Some(i) => {
            let k = slice_subrange(seg, 0, i);
            let v = slice_subrange(seg, i + 1, n);
            proof {
                assert(k@ == seg@.take(find_byte(seg@, BYTE_EQ)));
                assert(v@ == seg@.skip(find_byte(seg@, BYTE_EQ) + 1));
            }
            (k, v)
        },
        None => {
            let k = slice_subrange(seg, 0, n);
            let v = slice_subrange(seg, n, n);
            proof {
                assert(k@ =~= seg@);
                assert(v@ =~= Seq::<u8>::empty());
            }
            (k, v)
        },
    };
    match (percent_decode(rawk), percent_decode(rawv)) {
        (Some(k), Some(v)) => Some((k, v)),
        _ => None,
    }
}

fn parse_pairs(s: &[u8]) -> (r: Option<Vec<(Vec<u8>, Vec<u8>)>>)
    ensures
        match r {
            Some(v) => pairs_of(s@) == Some(pairs_view(v@)),
            None => pairs_of(s@) is None,
        },
    decreases s@.len(),
{
    let n = s.len();
    if n == 0 {
        let out: Vec<(Vec<u8>, Vec<u8>)> = Vec::new();
        proof {
            assert(s@ =~= Seq::<u8>::empty());
            assert(pairs_view(out@) =~= Seq::<(Seq<u8>, Seq<u8>)>::empty());
        }
        return Some(out);
    }
    match find_in(s, BYTE_AMP) {
        None => {
            match parse_pair_seg(s) {
                Some(p) => {
                    let ghost gp = (p.0@, p.1@);
                    let mut out: Vec<(Vec<u8>, Vec<u8>)> = Vec::new();
                    out.push(p);
                    proof {
                        assert(pairs_view(out@) =~= seq![gp]);
                    }
                    Some(out)
                },
                None => None,
            }
        },
        Some(i) => {
            let seg = slice_subrange(s, 0, i);
            let rest_str = slice_subrange(s, i + 1, n);
            proof {
                assert(seg@ == s@.take(i as int));
                assert(rest_str@ == s@.skip(i as int + 1));
            }
            match parse_pairs(rest_str) {
                None => None,
                Some(mut ps) => {
                    if i == 0 {
                        proof {
                            assert(seg@.len() == 0);
                        }
                        Some(ps)
                    } else {
                        match parse_pair_seg(seg) {
                            Some(p) => {
                                let ghost gp = (p.0@, p.1@);
                                let ghost gps = pairs_view(ps@);
                                let mut out: Vec<(Vec<u8>, Vec<u8>)> = Vec::new();
                                out.push(p);
                                out.append(&mut ps);
                                proof {
                                    assert(pairs_view(out@) =~= seq![gp] + gps);
                                }
                                Some(out)
                            },
                            None => None,
                        }
                    }
                },
            }
        },
    }
}

fn bytes_eq(a: &[u8], b: &[u8]) -> (r: bool)
    ensures
        r <==> a@ == b@,
{
    let n = a.len();
    if n != b.len() {
        return false;
    }
    let mut i: usize = 0;
    while i < n
        invariant
            a@.len() == n,
            b@.len() == n,
            i <= n,
            forall|j: int| 0 <= j < i ==> a@[j] == b@[j],
        decreases n - i,
    {
        if a[i] != b[i] {
            return false;
        }
        i = i + 1;
    }
    proof {
        assert(a@ =~= b@);
    }
    true
}

/// The count of pairs from index `i` on whose key is `key`, and the value
/// of the first of them (or an empty value if there is none).
fn lookup_from(pairs: &Vec<(Vec<u8>, Vec<u8>)>, i: usize, key: &[u8]) -> (r: (usize, Vec<u8>))
    requires
        i <= pairs.len(),
    ensures
        r.0 == count_key(pairs_view(pairs@).skip(i as int), key@),
        count_key(pairs_view(pairs@).skip(i as int), key@) > 0 ==> r.1@ == value_for(
            pairs_view(pairs@).skip(i as int),
            key@,
        ),
    decreases pairs.len() - i,
{
    let ghost pv = pairs_view(pairs@);
    if i == pairs.len() {
        proof {
            assert(pv.skip(i as int) =~= Seq::<(Seq<u8>, Seq<u8>)>::empty());
        }
        (0, Vec::new())
    } else {
        let (c_rest, v_rest) = lookup_from(pairs, i + 1, key);
        proof {
            assert(pv.skip(i as int).skip(1) =~= pv.skip(i as int + 1));
            assert(pv.skip(i as int)[0] == pv[i as int]);
            lemma_count_key_bounds(pv.skip(i as int + 1), key@);
        }
        if bytes_eq(pairs[i].0.as_slice(), key) {
            (c_rest + 1, slice_to_vec(pairs[i].1.as_slice()))
        } else {
            (c_rest, v_rest)
        }
    }
}

/// Decodes a form body into its two required fields.  The contract pins
/// the outcome down for every body: a body whose segments do not decode
/// is rejected as malformed; otherwise the body is accepted exactly when
/// each of `email` and `name` occurs exactly once among the decoded keys
/// and both values assemble as UTF-8, and the fields then carry those
/// pairs' decoded values.
pub fn parse_form(body: &str) -> (r: Result<FormData, FormError>)
    ensures
        match pairs_of(body.spec_bytes()) {
            None => r == Err::<FormData, FormError>(FormError::Malformed),
            Some(ps) => {
                &&& (r is Ok <==> count_key(ps, email_key()) == 1 && count_key(ps, name_key())
                    == 1 && valid_utf8(value_for(ps, email_key())) && valid_utf8(
                    value_for(ps, name_key()),
                ))
                &&& (r matches Ok(fd) ==> encode_utf8(fd.email@) == value_for(ps, email_key())
                    && encode_utf8(fd.name@) == value_for(ps, name_key()))
                &&& (r == Err::<FormData, FormError>(FormError::MissingField) <==> (count_key(
                    ps,
                    email_key(),
                ) == 0 || count_key(ps, name_key()) == 0))
                &&& (r == Err::<FormData, FormError>(FormError::DuplicateField) <==> (count_key(
                    ps,
                    email_key(),
                ) >= 1 && count_key(ps, name_key()) >= 1 && (count_key(ps, email_key()) > 1
                    || count_key(ps, name_key()) > 1)))
                &&& (r == Err::<FormData, FormError>(FormError::Malformed) <==> (count_key(
                    ps,
                    email_key(),
                ) == 1 && count_key(ps, name_key()) == 1 && (!valid_utf8(
                    value_for(ps, email_key()),
                ) || !valid_utf8(value_for(ps, name_key())))))
            },
        },
{
    let bytes: &[u8] = body.as_bytes();
    let pairs = match parse_pairs(bytes) {
        None => {
            return Err(FormError::Malformed);
        },
        Some(v) => v,
    };
    let ghost ps = pairs_view(pairs@);
    proof {
        assert(ps.skip(0) =~= ps);
    }
    let ek: &[u8] = "email".as_bytes();
    let nk: &[u8] = "name".as_bytes();
    let (email_count, email_bytes) = lookup_from(&pairs, 0, ek);
    let (name_count, name_bytes) = lookup_from(&pairs, 0, nk);
    if email_count == 0 || name_count == 0 {
        return Err(FormError::MissingField);
    }
    if email_count > 1 || name_count > 1 {
        return Err(FormError::DuplicateField);
    }
    let email = match utf8_to_string(email_bytes) {
        None => {
            return Err(FormError::Malformed);
        },
        Some(s) => s,
    };
    let name = match utf8_to_string(name_bytes) {
        None => {
            return Err(FormError::Malformed);
        },
        Some(s) => s,
    };
    Ok(FormData { email, name })
}

/// The stub handler behind `POST /subscriptions`: it accepts the decoded
/// form, discards the values, and always responds with success and an
/// empty body.
pub fn subscribe(form: FormData) -> (r: HttpReply)
    ensures
        r.status == 200,
        r.body@ == Seq::<char>::empty(),
{
    let _ = form.email;
    let _ = form.name;
    HttpReply { status: 200, body: String::new() }
}

/// The whole endpoint on a raw request body: decode the form, then hand
/// it to [`subscribe`].  Answers 200 with an empty body exactly when the
/// body carries each required field once (with well-formed values), and
/// 400 with an empty body otherwise (the form-decoding layer's
/// rejection).
pub fn handle_subscriptions(body: &str) -> (r: HttpReply)
    ensures
        r.body@ == Seq::<char>::empty(),
        r.status == 200 <==> accepted_form(body),
        r.status == 200 || r.status == 400,
{
    match parse_form(body) {
        Ok(fd) => subscribe(fd),
        Err(_) => HttpReply { status: 400, body: String::new() },
    }
}

} // verus!
