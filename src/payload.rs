use vstd::prelude::*;
use crate::wire::{
    base64_of, decimal, digit_value, digits_value, encode_base64, is_digit, json_string_literal,
    lemma_decimal, push_decimal, quote_json,
};

verus! {

/// Security parameters of a v2 dispersal request, for its one quorum.
#[derive(Debug, Clone, Copy, PartialEq, Eq, Structural)]
pub struct SecurityParams {
    pub quorum_id: u32,
    pub adversary_threshold: u32,
    pub quorum_threshold: u32,
}

/// The v1 wire payload: `{"data":<literal>}`.
pub open spec fn v1_wire(data: Seq<char>) -> Seq<char> {
    "{\"data\":"@ + json_string_literal(data) + "}"@
}

/// The security-parameter part of a v2 payload, from the comma after the data on.
pub open spec fn params_wire(p: SecurityParams) -> Seq<char> {
    ",\"security_params\":[{\"quorum_id\":"@ + decimal(p.quorum_id as nat)
        + ",\"adversary_threshold\":"@ + decimal(p.adversary_threshold as nat)
        + ",\"quorum_threshold\":"@ + decimal(p.quorum_threshold as nat) + "}]}"@
}

/// The v2 wire payload: `{"data":<literal>,"security_params":[{...}]}`.
pub open spec fn v2_wire(data: Seq<char>, p: SecurityParams) -> Seq<char> {
    "{\"data\":"@ + json_string_literal(data) + params_wire(p)
}

pub struct EigenDaBlobPayloadView {
    pub data: Seq<char>,
    pub security_params: Option<SecurityParams>,
}

pub open spec fn payload_wire(p: EigenDaBlobPayloadView) -> Seq<char> {
    match p.security_params {
        None => v1_wire(p.data),
        Some(sp) => v2_wire(p.data, sp),
    }
}

/// The body of a dispersal request: base64 data, with security parameters in the v2 shape.
#[derive(Clone, Debug, PartialEq, Eq)]
pub struct EigenDaBlobPayload {
    data: String,
    security_params: Option<SecurityParams>,
}

impl View for EigenDaBlobPayload {
    type V = EigenDaBlobPayloadView;

    closed spec fn view(&self) -> EigenDaBlobPayloadView {
        EigenDaBlobPayloadView { data: self.data@, security_params: self.security_params }
    }
}

impl EigenDaBlobPayload {
    /// A v1 payload of already encoded data.
    pub fn new(data: String) -> (r: Self)
        ensures
            r@ == (EigenDaBlobPayloadView { data: data@, security_params: None }),
    {
        EigenDaBlobPayload { data, security_params: None }
    }

    /// A v2 payload of already encoded data.
    pub fn with_security_params(data: String, params: SecurityParams) -> (r: Self)
        ensures
            r@ == (EigenDaBlobPayloadView { data: data@, security_params: Some(params) }),
    {
        EigenDaBlobPayload { data, security_params: Some(params) }
    }

    /// A v2 payload of raw bytes, base64-encoded, for one quorum. The thresholds are passed on
    /// as given: the network, not the client, refuses ones out of order.
    pub fn encode(raw: &[u8], quorum_id: u32, adversary_threshold: u32, quorum_threshold: u32) -> (r:
        Self)
        ensures
            r@ == (EigenDaBlobPayloadView {
                data: base64_of(raw@),
                security_params: Some(SecurityParams { quorum_id, adversary_threshold, quorum_threshold }),
            }),
    {
        EigenDaBlobPayload {
            data: encode_base64(raw),
            security_params: Some(SecurityParams { quorum_id, adversary_threshold, quorum_threshold }),
        }
    }

    pub fn data(&self) -> (r: &String)
        ensures
            r@ == self@.data,
    {
        &self.data
    }

    pub fn security_params(&self) -> (r: Option<SecurityParams>)
        ensures
            r == self@.security_params,
    {
        self.security_params
    }

    /// The JSON text sent on the wire.
    pub fn to_wire(&self) -> (r: String)
        ensures
            r@ == payload_wire(self@),
    {
        let mut s = String::from_str("{\"data\":");
        let quoted = quote_json(self.data.as_str());
        s.append(quoted.as_str());
        match self.security_params {
            None => {
                s.append("}");
            },
            Some(p) => {
                s.append(",\"security_params\":[{\"quorum_id\":");
                push_decimal(&mut s, p.quorum_id as u128);
                s.append(",\"adversary_threshold\":");
                push_decimal(&mut s, p.adversary_threshold as u128);
                s.append(",\"quorum_threshold\":");
                push_decimal(&mut s, p.quorum_threshold as u128);
                s.append("}]}");
            },
        }
        assert(s@ =~= payload_wire(self@));
        s
    }
}

/// `s` without the suffix `lit`, when it ends with it.
pub open spec fn strip_suffix(s: Seq<char>, lit: Seq<char>) -> Option<Seq<char>> {
    if s.len() >= lit.len() && s.subrange(s.len() - lit.len(), s.len() as int) == lit {
        Some(s.subrange(0, s.len() - lit.len()))
    } else {
        None
    }
}

/// How many digits end `s`.
pub open spec fn trailing_digit_count(s: Seq<char>) -> nat
    decreases s.len(),
{
    if s.len() > 0 && is_digit(s.last()) {
        1 + trailing_digit_count(s.drop_last())
    } else {
        0
    }
}

/// `s` split before the run of digits that ends it, with the run's value; `None` when no
/// digit ends it or the value does not fit in a `u32`.
pub open spec fn split_number(s: Seq<char>) -> Option<(Seq<char>, nat)> {
    let n = trailing_digit_count(s);
    let v = digits_value(s.subrange(s.len() - n, s.len() as int));
    if n == 0 || v > u32::MAX {
        None
    } else {
        Some((s.subrange(0, s.len() - n), v))
    }
}

/// The security parameters of a v2 payload, read from its end; `None` when the text does not
/// have the v2 shape.
pub open spec fn parse_v2_params(s: Seq<char>) -> Option<SecurityParams> {
    match strip_suffix(s, "}]}"@) {
        None => None,
        Some(s1) => match split_number(s1) {
            None => None,
            Some((s2, qt)) => match strip_suffix(s2, ",\"quorum_threshold\":"@) {
                None => None,
                Some(s3) => match split_number(s3) {
                    None => None,
                    Some((s4, at)) => match strip_suffix(s4, ",\"adversary_threshold\":"@) {
                        None => None,
                        Some(s5) => match split_number(s5) {
                            None => None,
                            Some((s6, qid)) => match strip_suffix(
                                s6,
                                ",\"security_params\":[{\"quorum_id\":"@,
                            ) {
                                None => None,
                                Some(s7) => if "{\"data\":"@.is_prefix_of(s7) {
                                    Some(
                                        SecurityParams {
                                            quorum_id: qid as u32,
                                            adversary_threshold: at as u32,
                                            quorum_threshold: qt as u32,
                                        },
                                    )
                                } else {
                                    None
                                },
                            },
                        },
                    },
                },
            },
        },
    }
}

proof fn lemma_strip_suffix(prefix: Seq<char>, lit: Seq<char>)
    ensures
        strip_suffix(prefix + lit, lit) == Some(prefix),
{
    let s = prefix + lit;
    assert(s.subrange(s.len() - lit.len(), s.len() as int) =~= lit);
    assert(s.subrange(0, s.len() - lit.len()) =~= prefix);
}

proof fn lemma_trailing_digits(prefix: Seq<char>, digits: Seq<char>)
    requires
        prefix.len() > 0,
        !is_digit(prefix.last()),
        forall|i: int| 0 <= i < digits.len() ==> is_digit(#[trigger] digits[i]),
    ensures
        trailing_digit_count(prefix + digits) == digits.len(),
    decreases digits.len(),
{
    if digits.len() == 0 {
        assert(prefix + digits =~= prefix);
    } else {
        let d = digits.drop_last();
        assert forall|i: int| 0 <= i < d.len() implies is_digit(#[trigger] d[i]) by {
            assert(d[i] == digits[i]);
        }
        lemma_trailing_digits(prefix, d);
        assert((prefix + digits).drop_last() =~= prefix + d);
        assert((prefix + digits).last() == digits.last());
    }
}

proof fn lemma_split_decimal(prefix: Seq<char>, n: nat)
    requires
        prefix.len() > 0,
        !is_digit(prefix.last()),
        n <= u32::MAX,
    ensures
        split_number(prefix + decimal(n)) == Some((prefix, n)),
{
    lemma_decimal(n);
    lemma_trailing_digits(prefix, decimal(n));
    let s = prefix + decimal(n);
    assert(s.subrange(s.len() - decimal(n).len(), s.len() as int) =~= decimal(n));
    assert(s.subrange(0, s.len() - decimal(n).len()) =~= prefix);
}

/// Reading the v2 payload written for some data and parameters gives the parameters back.
pub proof fn lemma_v2_round_trip(data: Seq<char>, p: SecurityParams)
    ensures
        parse_v2_params(v2_wire(data, p)) == Some(p),
{
    reveal_strlit("{\"data\":");
    reveal_strlit(",\"security_params\":[{\"quorum_id\":");
    reveal_strlit(",\"adversary_threshold\":");
    reveal_strlit(",\"quorum_threshold\":");
    reveal_strlit("}]}");
    let k1 = ",\"security_params\":[{\"quorum_id\":"@;
    let k2 = ",\"adversary_threshold\":"@;
    let k3 = ",\"quorum_threshold\":"@;
    let e = "}]}"@;
    let a0 = "{\"data\":"@ + json_string_literal(data);
    let a1 = a0 + k1;
    let a2 = a1 + decimal(p.quorum_id as nat);
    let a3 = a2 + k2;
    let a4 = a3 + decimal(p.adversary_threshold as nat);
    let a5 = a4 + k3;
    let a6 = a5 + decimal(p.quorum_threshold as nat);
    assert(v2_wire(data, p) =~= a6 + e);
    lemma_strip_suffix(a6, e);
    assert(a5.last() == ':');
    lemma_split_decimal(a5, p.quorum_threshold as nat);
    lemma_strip_suffix(a4, k3);
    assert(a3.last() == ':');
    lemma_split_decimal(a3, p.adversary_threshold as nat);
    lemma_strip_suffix(a2, k2);
    assert(a1.last() == ':');
    lemma_split_decimal(a1, p.quorum_id as nat);
    lemma_strip_suffix(a0, k1);
    assert("{\"data\":"@.is_prefix_of(a0)) by {
        assert(a0.subrange(0, "{\"data\":"@.len() as int) =~= "{\"data\":"@);
    }
}

proof fn lemma_digits_value_prefix(s: Seq<char>, k: int)
    requires
        0 <= k <= s.len(),
    ensures
        digits_value(s.subrange(0, k)) <= digits_value(s),
    decreases s.len(),
{
    if k == s.len() {
        assert(s.subrange(0, k) =~= s);
    } else {
        lemma_digits_value_prefix(s.drop_last(), k);
        assert(s.drop_last().subrange(0, k) =~= s.subrange(0, k));
    }
}

/// Where `text[..end]` would end without the suffix `lit`.
fn strip_literal(text: &str, end: usize, lit: &str) -> (r: Option<usize>)
    requires
        end <= text@.len(),
    ensures
        r matches Some(e) ==> e <= end && strip_suffix(text@.subrange(0, end as int), lit@) == Some(
            text@.subrange(0, e as int),
        ),
        r is None ==> strip_suffix(text@.subrange(0, end as int), lit@) is None,
{
    let ghost s = text@.subrange(0, end as int);
    let m = lit.unicode_len();
    if m > end {
        return None;
    }
    let start = end - m;
    let mut j: usize = 0;
    while j < m
        invariant
            m == lit@.len(),
            start + m == end,
            end <= text@.len(),
            j <= m,
            s == text@.subrange(0, end as int),
            forall|t: int| 0 <= t < j ==> text@[start + t] == lit@[t],
        decreases m - j,
    {
        if text.get_char(start + j) != lit.get_char(j) {
            assert(s.subrange(s.len() - lit@.len(), s.len() as int)[j as int] != lit@[j as int]);
            return None;
        }
        j = j + 1;
    }
    assert(s.subrange(s.len() - lit@.len(), s.len() as int) =~= lit@);
    assert(s.subrange(0, s.len() - lit@.len()) =~= text@.subrange(0, start as int));
    Some(start)
}

/// Whether `text[..end]` starts with `lit`.
fn starts_with_literal(text: &str, end: usize, lit: &str) -> (r: bool)
    requires
        end <= text@.len(),
    ensures
        r == lit@.is_prefix_of(text@.subrange(0, end as int)),
{
    let ghost s = text@.subrange(0, end as int);
    let m = lit.unicode_len();
    if m > end {
        return false;
    }
    let mut j: usize = 0;
    while j < m
        invariant
            m == lit@.len(),
            m <= end,
            end <= text@.len(),
            j <= m,
            s == text@.subrange(0, end as int),
            forall|t: int| 0 <= t < j ==> text@[t] == lit@[t],
        decreases m - j,
    {
        if text.get_char(j) != lit.get_char(j) {
            assert(s.subrange(0, m as int)[j as int] != lit@[j as int]);
            return false;
        }
        j = j + 1;
    }
    assert(s.subrange(0, m as int) =~= lit@);
    true
}

fn digit_before(text: &str, i: usize) -> (r: bool)
    requires
        0 < i <= text@.len(),
    ensures
        r == is_digit(text@[i - 1]),
{
    let c = text.get_char(i - 1);
    '0' <= c && c <= '9'
}

/// Splits `text[..end]` before the digits that end it, with their value.
fn split_trailing_number(text: &str, end: usize) -> (r: Option<(usize, u32)>)
    requires
        end <= text@.len(),
    ensures
        r matches Some((e, v)) ==> e <= end,
        r matches Some((e, v)) ==> split_number(text@.subrange(0, end as int)) == Some(
            (text@.subrange(0, e as int), v as nat),
        ),
        r is None ==> split_number(text@.subrange(0, end as int)) is None,
{
    let ghost s = text@.subrange(0, end as int);
    let mut i: usize = end;
    while i > 0 && digit_before(text, i)
        invariant
            i <= end,
            end <= text@.len(),
            s == text@.subrange(0, end as int),
            trailing_digit_count(s) == (end - i) + trailing_digit_count(text@.subrange(0, i as int)),
            forall|t: int| i <= t < end ==> is_digit(#[trigger] text@[t]),
        decreases i,
    {
        let ghost p = text@.subrange(0, i as int);
        assert(p.drop_last() =~= text@.subrange(0, i - 1));
        i = i - 1;
    }
    proof {
        if i > 0 {
            assert(text@.subrange(0, i as int).last() == text@[i - 1]);
        }
    }
    assert(trailing_digit_count(s) == end - i);
    if i == end {
        return None;
    }
    let ghost run = s.subrange(s.len() - (end - i), s.len() as int);
    assert(run =~= text@.subrange(i as int, end as int));
    let mut acc: u64 = 0;
    let mut j: usize = i;
    assert(text@.subrange(i as int, i as int) =~= Seq::<char>::empty());
    while j < end
        invariant
            i <= j <= end,
            end <= text@.len(),
            run == text@.subrange(i as int, end as int),
            s == text@.subrange(0, end as int),
            trailing_digit_count(s) == end - i,
            run == s.subrange(s.len() - (end - i), s.len() as int),
            forall|t: int| i <= t < end ==> is_digit(#[trigger] text@[t]),
            acc == digits_value(text@.subrange(i as int, j as int)),
            acc <= u32::MAX,
        decreases end - j,
    {
        let c = text.get_char(j);
        let d = (c as u32 - '0' as u32) as u64;
        let next = acc * 10 + d;
        assert(text@.subrange(i as int, j + 1).drop_last() =~= text@.subrange(i as int, j as int));
        assert(text@.subrange(i as int, j + 1).last() == c);
        assert(d == digit_value(c));
        assert(digits_value(text@.subrange(i as int, j + 1)) == next);
        if next > u32::MAX as u64 {
            proof {
                assert(run.subrange(0, j + 1 - i) =~= text@.subrange(i as int, j + 1));
                lemma_digits_value_prefix(run, j + 1 - i);
                assert(digits_value(run) > u32::MAX);
            }
            return None;
        }
        acc = next;
        j = j + 1;
    }
    assert(s.subrange(0, s.len() - (end - i)) =~= text@.subrange(0, i as int));
    Some((i, acc as u32))
}

/// The security parameters of a v2 payload; `None` when the text does not have the v2 shape.
pub fn security_params_of(wire: &str) -> (r: Option<SecurityParams>)
    ensures
        r == parse_v2_params(wire@),
{
    let n = wire.unicode_len();
    assert(wire@.subrange(0, n as int) =~= wire@);
    let e1 = match strip_literal(wire, n, "}]}") {
        Some(e) => e,
        None => return None,
    };
    let (e2, quorum_threshold) = match split_trailing_number(wire, e1) {
        Some(x) => x,
        None => return None,
    };
    let e3 = match strip_literal(wire, e2, ",\"quorum_threshold\":") {
        Some(e) => e,
        None => return None,
    };
    let (e4, adversary_threshold) = match split_trailing_number(wire, e3) {
        Some(x) => x,
        None => return None,
    };
    let e5 = match strip_literal(wire, e4, ",\"adversary_threshold\":") {
        Some(e) => e,
        None => return None,
    };
    let (e6, quorum_id) = match split_trailing_number(wire, e5) {
        Some(x) => x,
        None => return None,
    };
    let e7 = match strip_literal(wire, e6, ",\"security_params\":[{\"quorum_id\":") {
        Some(e) => e,
        None => return None,
    };
    if starts_with_literal(wire, e7, "{\"data\":") {
        Some(SecurityParams { quorum_id, adversary_threshold, quorum_threshold })
    } else {
        None
    }
}

} // verus!
