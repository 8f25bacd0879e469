use vstd::prelude::*;
use vstd::string::StringExecFns;
use vstd::utf8::encode_utf8;

use crate::text::push_char;

verus! {

/// A request parameter's value, before it is rendered as text.
#[derive(Debug, Clone, PartialEq, Eq)]
pub enum ParamValue {
    /// Text that is sent as it is (enums go here in their wire form).
    Text(String),
    Unsigned(u64),
    Signed(i64),
    Flag(bool),
}

/// One `(key, value)` field of a request; `None` is an absent optional
/// field, which is left out of the query entirely.
#[derive(Debug, Clone, PartialEq, Eq)]
pub struct Param {
    pub key: String,
    pub value: Option<ParamValue>,
}

/// The character of a decimal digit.
pub open spec fn digit_char(d: nat) -> char {
    (d + 48) as char
}

/// Base-ten rendering of a natural number, most significant digit first,
/// without sign, separators or leading zeros.
pub open spec fn decimal(n: nat) -> Seq<char>
    decreases n,
{
    if n < 10 {
        seq![digit_char(n)]
    } else {
        decimal(n / 10).push(digit_char(n % 10))
    }
}

/// The textual form of a value: integers in base ten with a leading `-`
/// when negative, flags as `true` / `false`.
pub open spec fn value_text(v: ParamValue) -> Seq<char> {
    match v {
        ParamValue::Text(s) => s@,
        ParamValue::Unsigned(n) => decimal(n as nat),
        ParamValue::Signed(n) => if n < 0 {
            seq!['-'] + decimal((-n) as nat)
        } else {
            decimal(n as nat)
        },
        ParamValue::Flag(b) => if b {
            "true"@
        } else {
            "false"@
        },
    }
}

/// Bytes that form encoding leaves as they are: ASCII letters and digits,
/// and `*`, `-`, `.`, `_`.
pub open spec fn is_unreserved(b: u8) -> bool {
    (48 <= b && b <= 57) || (65 <= b && b <= 90) || (97 <= b && b <= 122) || b == 42 || b == 45
        || b == 46 || b == 95
}

/// Upper-case hexadecimal digit of a nibble.
pub open spec fn hex_upper(d: nat) -> char {
    if d < 10 {
        (d + 48) as char
    } else {
        (d + 55) as char
    }
}

/// Form encoding of one byte: kept, a space as `+`, or `%XX`.
pub open spec fn escape_byte(b: u8) -> Seq<char> {
    if is_unreserved(b) {
        seq![b as char]
    } else if b == 32 {
        seq!['+']
    } else {
        seq!['%', hex_upper(b as nat / 16), hex_upper(b as nat % 16)]
    }
}

pub open spec fn escape_bytes(bs: Seq<u8>) -> Seq<char>
    decreases bs.len(),
{
    if bs.len() == 0 {
        seq![]
    } else {
        escape_bytes(bs.drop_last()) + escape_byte(bs.last())
    }
}

/// Form encoding (`application/x-www-form-urlencoded`) of a text, byte by
/// byte over its UTF-8 encoding.
pub open spec fn form_escape(s: Seq<char>) -> Seq<char> {
    escape_bytes(encode_utf8(s))
}

/// `key=value`, both escaped.
pub open spec fn pair_text(key: Seq<char>, value: Seq<char>) -> Seq<char> {
    form_escape(key) + seq!['='] + form_escape(value)
}

/// The rendered pairs of the present fields, in the order given.
pub open spec fn present_pairs(ps: Seq<Param>) -> Seq<Seq<char>>
    decreases ps.len(),
{
    if ps.len() == 0 {
        seq![]
    } else {
        let prev = present_pairs(ps.drop_last());
        match ps.last().value {
            None => prev,
            Some(v) => prev.push(pair_text(ps.last().key@, value_text(v))),
        }
    }
}

/// Parts joined by `&`, with no separator before the first or after the last.
pub open spec fn join_amp(parts: Seq<Seq<char>>) -> Seq<char>
    decreases parts.len(),
{
    if parts.len() == 0 {
        seq![]
    } else if parts.len() == 1 {
        parts[0]
    } else {
        join_amp(parts.drop_last()) + seq!['&'] + parts.last()
    }
}

/// Two query strings joined by `&`, where either may be empty.
pub open spec fn join2(a: Seq<char>, b: Seq<char>) -> Seq<char> {
    if a.len() == 0 {
        b
    } else if b.len() == 0 {
        a
    } else {
        a + seq!['&'] + b
    }
}

/// The canonical query string of a parameter list.
pub open spec fn canonical_query(ps: Seq<Param>) -> Seq<char> {
    join_amp(present_pairs(ps))
}

/// The canonical query of a signed request: the parameters, then
/// `recvWindow` and `timestamp`, always present and always last.
pub open spec fn signed_query(ps: Seq<Param>, recv_window: u64, timestamp: u64) -> Seq<char> {
    join2(
        canonical_query(ps),
        "recvWindow="@ + decimal(recv_window as nat) + "&timestamp="@ + decimal(timestamp as nat),
    )
}

fn digit(d: u64) -> (c: char)
    requires
        d < 10,
    ensures
        c == digit_char(d as nat),
{
    ((d as u8) + 48) as char
}

fn hex_digit(d: u8) -> (c: char)
    requires
        d < 16,
    ensures
        c == hex_upper(d as nat),
{
    if d < 10 {
        (d + 48) as char
    } else {
        (d + 55) as char
    }
}

/// Appends the decimal rendering of `n`.
pub fn push_decimal(out: &mut String, n: u64)
    ensures
        final(out)@ == old(out)@ + decimal(n as nat),
    decreases n,
{
    if n >= 10 {
        push_decimal(out, n / 10);
    }
    push_char(out, digit(n % 10));
}

/// Appends the form encoding of `s`.
pub fn push_escaped(out: &mut String, s: &str)
    ensures
        final(out)@ == old(out)@ + form_escape(s@),
{
    let ghost start = out@;
    let bytes = s.as_bytes();
    let mut i: usize = 0;
    assert(bytes@.take(0) =~= Seq::<u8>::empty());
    while i < bytes.len()
        invariant
            0 <= i <= bytes@.len(),
            bytes@ == encode_utf8(s@),
            out@ == start + escape_bytes(bytes@.take(i as int)),
        decreases bytes@.len() - i,
    {
        let b = bytes[i];
        let ghost before = out@;
        if (48 <= b && b <= 57) || (65 <= b && b <= 90) || (97 <= b && b <= 122) || b == 42 || b
            == 45 || b == 46 || b == 95 {
            push_char(out, b as char);
        } else if b == 32 {
            push_char(out, '+');
        } else {
            push_char(out, '%');
            push_char(out, hex_digit(b / 16));
            push_char(out, hex_digit(b % 16));
        }
        assert(out@ =~= before + escape_byte(b));
        assert(bytes@.take(i + 1).drop_last() =~= bytes@.take(i as int));
        i = i + 1;
    }
    assert(bytes@.take(i as int) =~= bytes@);
}

/// Renders a value as text.
pub fn value_string(v: &ParamValue) -> (r: String)
    ensures
        r@ == value_text(*v),
{
    match v {
        ParamValue::Text(s) => s.clone(),
        ParamValue::Unsigned(n) => {
            let mut out = String::new();
            push_decimal(&mut out, *n);
            out
        },
        ParamValue::Signed(n) => {
            let mut out = String::new();
            if *n < 0 {
                push_char(&mut out, '-');
                let m: u64 = ((-(*n + 1)) as u64) + 1;
                push_decimal(&mut out, m);
            } else {
                push_decimal(&mut out, *n as u64);
            }
            out
        },
        ParamValue::Flag(b) => {
            if *b {
                String::from_str("true")
            } else {
                String::from_str("false")
            }
        },
    }
}

/// Renders parameters as a canonical query string: each present field as
/// `key=value` (form encoded), in the order given, joined by `&`; absent
/// fields are left out.
pub fn build_request(params: &Vec<Param>) -> (r: String)
    ensures
        r@ == canonical_query(params@),
{
    let mut out = String::new();
    let mut any = false;
    let mut i: usize = 0;
    assert(params@.take(0) =~= Seq::<Param>::empty());
    while i < params.len()
        invariant
            0 <= i <= params@.len(),
            out@ == join_amp(present_pairs(params@.take(i as int))),
            any == (present_pairs(params@.take(i as int)).len() > 0),
        decreases params@.len() - i,
    {
        let p = &params[i];
        let ghost prev = present_pairs(params@.take(i as int));
        assert(params@.take(i + 1).drop_last() =~= params@.take(i as int));
        assert(params@.take(i + 1).last() == params@[i as int]);
        match &p.value {
            None => {},
            Some(v) => {
                let ghost before = out@;
                if any {
                    push_char(&mut out, '&');
                }
                push_escaped(&mut out, p.key.as_str());
                push_char(&mut out, '=');
                let text = value_string(v);
                push_escaped(&mut out, text.as_str());
                let ghost pair = pair_text(p.key@, value_text(*v));
                assert(prev.push(pair).drop_last() =~= prev);
                if any {
                    assert(out@ =~= before + seq!['&'] + pair);
                } else {
                    assert(out@ =~= pair);
                }
                any = true;
            },
        }
        i = i + 1;
    }
    assert(params@.take(i as int) =~= params@);
    out
}

/// Renders a signed request's query: the canonical parameters, then
/// `recvWindow=<recv_window>&timestamp=<timestamp>`.
pub fn build_signed_request(params: &Vec<Param>, recv_window: u64, timestamp: u64) -> (r: String)
    ensures
        r@ == signed_query(params@, recv_window, timestamp),
{
    let mut out = build_request(params);
    let ghost head = out@;
    let empty = out.as_str().is_empty();
    if !empty {
        push_char(&mut out, '&');
    }
    out.append("recvWindow=");
    push_decimal(&mut out, recv_window);
    out.append("&timestamp=");
    push_decimal(&mut out, timestamp);
    let ghost tail = "recvWindow="@ + decimal(recv_window as nat) + "&timestamp="@ + decimal(
        timestamp as nat,
    );
    proof {
        reveal_strlit("recvWindow=");
        reveal_strlit("&timestamp=");
    }
    if empty {
        assert(out@ =~= tail);
    } else {
        assert(out@ =~= head + seq!['&'] + tail);
    }
    out
}

proof fn present_pairs_concat(a: Seq<Param>, b: Seq<Param>)
    ensures
        present_pairs(a + b) == present_pairs(a) + present_pairs(b),
    decreases b.len(),
{
    if b.len() == 0 {
        assert(a + b =~= a);
        assert(present_pairs(a) + present_pairs(b) =~= present_pairs(a));
    } else {
        present_pairs_concat(a, b.drop_last());
        assert((a + b).drop_last() =~= a + b.drop_last());
        assert((a + b).last() == b.last());
        match b.last().value {
            None => {},
            Some(v) => {
                assert(present_pairs(a + b) =~= present_pairs(a) + present_pairs(b));
            },
        }
    }
}

proof fn present_pairs_nonempty(ps: Seq<Param>)
    ensures
        forall|i: int| 0 <= i < present_pairs(ps).len() ==> #[trigger] present_pairs(ps)[i].len() > 0,
    decreases ps.len(),
{
    if ps.len() > 0 {
        present_pairs_nonempty(ps.drop_last());
        let prev = present_pairs(ps.drop_last());
        match ps.last().value {
            None => {},
            Some(v) => {
                let pair = pair_text(ps.last().key@, value_text(v));
                assert(pair.len() > 0);
                assert forall|i: int| 0 <= i < prev.push(pair).len() implies #[trigger] prev.push(
                    pair,
                )[i].len() > 0 by {
                    if i < prev.len() {
                        assert(prev.push(pair)[i] == prev[i]);
                    }
                }
            },
        }
    }
}

proof fn join_amp_nonempty(parts: Seq<Seq<char>>)
    requires
        parts.len() > 0,
        forall|i: int| 0 <= i < parts.len() ==> #[trigger] parts[i].len() > 0,
    ensures
        join_amp(parts).len() > 0,
    decreases parts.len(),
{
    if parts.len() > 1 {
        join_amp_nonempty(parts.drop_last());
    }
}

proof fn join_amp_concat(x: Seq<Seq<char>>, y: Seq<Seq<char>>)
    requires
        forall|i: int| 0 <= i < x.len() ==> #[trigger] x[i].len() > 0,
        forall|i: int| 0 <= i < y.len() ==> #[trigger] y[i].len() > 0,
    ensures
        join_amp(x + y) == join2(join_amp(x), join_amp(y)),
    decreases y.len(),
{
    if y.len() == 0 {
        assert(x + y =~= x);
    } else if y.len() == 1 {
        if x.len() == 0 {
            assert(x + y =~= y);
        } else {
            join_amp_nonempty(x);
            assert((x + y).drop_last() =~= x);
        }
    } else {
        let yd = y.drop_last();
        join_amp_concat(x, yd);
        join_amp_nonempty(yd);
        assert((x + y).drop_last() =~= x + yd);
        assert((x + y).last() == y.last());
        if x.len() > 0 {
            join_amp_nonempty(x);
            assert(join_amp(x + y) =~= join2(join_amp(x), join_amp(y)));
        }
    }
}

/// Field order is kept: the query of `a` followed by `b` is the query of
/// `a`, then `&`, then the query of `b` (without a separator where either
/// side renders empty).
pub proof fn lemma_query_keeps_order(a: Seq<Param>, b: Seq<Param>)
    ensures
        canonical_query(a + b) == join2(canonical_query(a), canonical_query(b)),
{
    present_pairs_concat(a, b);
    present_pairs_nonempty(a);
    present_pairs_nonempty(b);
    join_amp_concat(present_pairs(a), present_pairs(b));
}

/// An absent optional field leaves no trace in the query: no key, no empty
/// value, no extra separator.
pub proof fn lemma_absent_field_omitted(a: Seq<Param>, field: Param, b: Seq<Param>)
    requires
        field.value is None,
    ensures
        canonical_query(a + seq![field] + b) == canonical_query(a + b),
{
    present_pairs_concat(a + seq![field], b);
    present_pairs_concat(a, seq![field]);
    present_pairs_concat(a, b);
    assert(seq![field].drop_last() =~= Seq::<Param>::empty());
    assert(seq![field].last() == field);
    assert(present_pairs(Seq::<Param>::empty()) =~= Seq::<Seq<char>>::empty());
    assert(present_pairs(seq![field]) =~= Seq::<Seq<char>>::empty());
    assert(present_pairs(a) + present_pairs(seq![field]) =~= present_pairs(a));
}

} // verus!
