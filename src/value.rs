//! Typed identifier values and the conversion of identifier text into them.

use vstd::prelude::*;

verus! {

/// Declared representation of an entity type's identifier field.
#[derive(Clone, Copy, Debug, PartialEq, Eq, Structural, PartialOrd, Ord, Hash)]
pub enum IdType {
    /// Plain text.
    String,
    /// A byte sequence written in hexadecimal, optionally after `0x`.
    Bytes,
    /// A signed 64-bit integer written in decimal.
    Int8,
}

/// Position of an identifier representation in the order of declaration.
pub open spec fn id_type_rank(t: IdType) -> int {
    match t {
        IdType::String => 0,
        IdType::Bytes => 1,
        IdType::Int8 => 2,
    }
}

/// A typed scalar: the converted form of an identifier.
#[derive(Clone, Debug, PartialEq, Eq)]
pub enum Value {
    String(String),
    Bytes(Vec<u8>),
    Int8(i64),
}

/// Mathematical form of a [`Value`].
pub enum ValueModel {
    Text(Seq<char>),
    Bytes(Seq<u8>),
    Int8(i64),
}

impl View for Value {
    type V = ValueModel;

    open spec fn view(&self) -> ValueModel {
        match self {
            Value::String(s) => ValueModel::Text(s@),
            Value::Bytes(b) => ValueModel::Bytes(b@),
            Value::Int8(n) => ValueModel::Int8(*n),
        }
    }
}

/// Why an identifier could not be converted.
#[derive(Clone, Copy, Debug, PartialEq, Eq, Structural)]
pub enum ConversionErrorKind {
    /// Not an even number of hexadecimal digits.
    InvalidHex,
    /// Not an optional sign followed by one or more decimal digits.
    InvalidInteger,
    /// A well-formed integer outside the range of `i64`.
    IntegerOutOfRange,
}

/// Failure to convert an identifier into its declared representation.
#[derive(Clone, Debug, PartialEq, Eq)]
pub struct ConversionError {
    pub kind: ConversionErrorKind,
    /// The identifier text that was rejected.
    pub id: String,
}

// ---------------------------------------------------------------- hex

pub open spec fn is_hex_char(c: char) -> bool {
    ('0' <= c && c <= '9') || ('a' <= c && c <= 'f') || ('A' <= c && c <= 'F')
}

pub open spec fn hex_val(c: char) -> int {
    if '0' <= c && c <= '9' {
        c as int - '0' as int
    } else if 'a' <= c && c <= 'f' {
        c as int - 'a' as int + 10
    } else {
        c as int - 'A' as int + 10
    }
}

/// The identifier text with one leading `0x` removed, if there is one.
pub open spec fn hex_body(s: Seq<char>) -> Seq<char> {
    if s.len() >= 2 && s[0] == '0' && s[1] == 'x' {
        s.skip(2)
    } else {
        s
    }
}

/// An even number of hexadecimal digits.
pub open spec fn valid_hex(t: Seq<char>) -> bool {
    t.len() % 2 == 0 && forall|i: int| 0 <= i < t.len() ==> is_hex_char(#[trigger] t[i])
}

/// The bytes that pairs of hexadecimal digits stand for, high digit first.
pub open spec fn hex_bytes(t: Seq<char>) -> Seq<u8> {
    Seq::new(t.len() / 2, |k: int| (hex_val(t[2 * k]) * 16 + hex_val(t[2 * k + 1])) as u8)
}

fn hex_digit(c: char) -> (r: Option<u8>)
    ensures
        r is Some <==> is_hex_char(c),
        r matches Some(v) ==> v as int == hex_val(c) && v < 16,
{
    if '0' <= c && c <= '9' {
        Some(((c as u32) - ('0' as u32)) as u8)
    } else if 'a' <= c && c <= 'f' {
        Some(((c as u32) - ('a' as u32) + 10) as u8)
    } else if 'A' <= c && c <= 'F' {
        Some(((c as u32) - ('A' as u32) + 10) as u8)
    } else {
        None
    }
}

/// Decodes hexadecimal text, after an optional `0x`, into bytes.
pub fn decode_hex(s: &str) -> (r: Option<Vec<u8>>)
    ensures
        r is Some <==> valid_hex(hex_body(s@)),
        r matches Some(b) ==> b@ == hex_bytes(hex_body(s@)),
{
    let n = s.unicode_len();
    let start: usize = if n >= 2 && s.get_char(0) == '0' && s.get_char(1) == 'x' {
        2
    } else {
        0
    };
    let ghost body = hex_body(s@);
    assert(body =~= s@.subrange(start as int, n as int));
    if (n - start) % 2 != 0 {
        return None;
    }
    let mut out: Vec<u8> = Vec::new();
    let mut i: usize = start;
    while i < n
        invariant
            n == s@.len(),
            start <= i <= n,
            (i - start) % 2 == 0,
            (n - start) % 2 == 0,
            body == hex_body(s@),
            body == s@.subrange(start as int, n as int),
            forall|j: int| 0 <= j < i - start ==> is_hex_char(#[trigger] body[j]),
            out@ == hex_bytes(body).subrange(0, (i - start) / 2),
        decreases n - i,
    {
        let hi = hex_digit(s.get_char(i));
        let lo = hex_digit(s.get_char(i + 1));
        if hi.is_none() {
            assert(!is_hex_char(body[i - start]));
            return None;
        }
        if lo.is_none() {
            assert(!is_hex_char(body[i + 1 - start]));
            return None;
        }
        let h = hi.unwrap();
        let l = lo.unwrap();
        out.push(h * 16 + l);
        proof {
            let k = (i - start) / 2;
            assert(2 * k == i - start);
            assert(hex_bytes(body)[k] == (h * 16 + l) as u8);
            assert(out@ =~= hex_bytes(body).subrange(0, k + 1));
        }
        i += 2;
    }
    assert(out@ =~= hex_bytes(body));
    Some(out)
}


// ---------------------------------------------------------------- integers

pub open spec fn is_dec_char(c: char) -> bool {
    '0' <= c && c <= '9'
}

pub open spec fn dec_val(c: char) -> int {
    c as int - '0' as int
}

/// Whether the text starts with a `+` or `-` sign.
pub open spec fn has_sign(s: Seq<char>) -> bool {
    s.len() > 0 && (s[0] == '+' || s[0] == '-')
}

/// The digits of an integer's text: everything after the sign, if any.
pub open spec fn int_digits(s: Seq<char>) -> Seq<char> {
    if has_sign(s) {
        s.skip(1)
    } else {
        s
    }
}

/// An optional sign followed by one or more decimal digits.
pub open spec fn well_formed_int(s: Seq<char>) -> bool {
    let d = int_digits(s);
    d.len() > 0 && forall|i: int| 0 <= i < d.len() ==> is_dec_char(#[trigger] d[i])
}

/// The number that a sequence of decimal digits stands for.
pub open spec fn digits_value(d: Seq<char>) -> int
    decreases d.len(),
{
    if d.len() == 0 {
        0
    } else {
        digits_value(d.drop_last()) * 10 + dec_val(d.last())
    }
}

/// The number that a well-formed integer text stands for.
pub open spec fn int_value(s: Seq<char>) -> int {
    if s.len() > 0 && s[0] == '-' {
        -digits_value(int_digits(s))
    } else {
        digits_value(int_digits(s))
    }
}

pub open spec fn in_i64_range(n: int) -> bool {
    i64::MIN <= n <= i64::MAX
}

proof fn lemma_digits_value_prefix(d: Seq<char>, k: int)
    requires
        0 <= k <= d.len(),
        forall|i: int| 0 <= i < d.len() ==> is_dec_char(#[trigger] d[i]),
    ensures
        0 <= digits_value(d.subrange(0, k)) <= digits_value(d),
    decreases d.len(),
{
    if k == d.len() {
        assert(d.subrange(0, k) =~= d);
        lemma_digits_value_nonneg(d);
    } else {
        let p = d.drop_last();
        assert forall|i: int| 0 <= i < p.len() implies is_dec_char(#[trigger] p[i]) by {
            assert(p[i] == d[i]);
        }
        lemma_digits_value_prefix(p, k);
        assert(p.subrange(0, k) =~= d.subrange(0, k));
        assert(is_dec_char(d[d.len() - 1]));
    }
}

proof fn lemma_digits_value_nonneg(d: Seq<char>)
    requires
        forall|i: int| 0 <= i < d.len() ==> is_dec_char(#[trigger] d[i]),
    ensures
        digits_value(d) >= 0,
    decreases d.len(),
{
    if d.len() > 0 {
        let p = d.drop_last();
        assert forall|i: int| 0 <= i < p.len() implies is_dec_char(#[trigger] p[i]) by {
            assert(p[i] == d[i]);
        }
        lemma_digits_value_nonneg(p);
        assert(is_dec_char(d[d.len() - 1]));
    }
}

/// Magnitude of the largest negative `i64`.
const I64_MIN_MAGNITUDE: u64 = 9223372036854775808;

/// Parses an optionally signed decimal integer into an `i64`.
pub fn parse_i64(s: &str) -> (r: Result<i64, ConversionErrorKind>)
    ensures
        r matches Ok(v) ==> well_formed_int(s@) && in_i64_range(int_value(s@)) && v as int
            == int_value(s@),
        r matches Err(k) ==> if !well_formed_int(s@) {
            k == ConversionErrorKind::InvalidInteger
        } else {
            !in_i64_range(int_value(s@)) && k == ConversionErrorKind::IntegerOutOfRange
        },
{
    let n = s.unicode_len();
    let mut start: usize = 0;
    let mut negative = false;
    if n > 0 {
        let c = s.get_char(0);
        if c == '+' || c == '-' {
            start = 1;
            negative = c == '-';
        }
    }
    let ghost d = int_digits(s@);
    assert(d =~= s@.subrange(start as int, n as int));
    if start >= n {
        return Err(ConversionErrorKind::InvalidInteger);
    }
    let mut i: usize = start;
    while i < n
        invariant
            n == s@.len(),
            start <= i <= n,
            d == int_digits(s@),
            d == s@.subrange(start as int, n as int),
            forall|j: int| 0 <= j < i - start ==> is_dec_char(#[trigger] d[j]),
        decreases n - i,
    {
        let c = s.get_char(i);
        if !('0' <= c && c <= '9') {
            assert(!is_dec_char(d[i - start]));
            return Err(ConversionErrorKind::InvalidInteger);
        }
        i += 1;
    }
    assert(well_formed_int(s@));
    let mut acc: u64 = 0;
    let mut j: usize = start;
    while j < n
        invariant
            n == s@.len(),
            start <= j <= n,
            d == int_digits(s@),
            negative == (s@.len() > 0 && s@[0] == '-'),
            d == s@.subrange(start as int, n as int),
            forall|k: int| 0 <= k < d.len() ==> is_dec_char(#[trigger] d[k]),
            acc as int == digits_value(d.subrange(0, j - start)),
            acc <= I64_MIN_MAGNITUDE,
        decreases n - j,
    {
        let c = s.get_char(j);
        assert(c == d[j - start]);
        let digit: u64 = ((c as u32) - ('0' as u32)) as u64;
        proof {
            let next = d.subrange(0, j - start + 1);
            assert(next.drop_last() =~= d.subrange(0, j - start));
            assert(digits_value(next) == acc * 10 + digit);
        }
        if acc > I64_MIN_MAGNITUDE / 10 || (acc == I64_MIN_MAGNITUDE / 10 && digit > 8) {
            proof {
                lemma_digits_value_prefix(d, j - start + 1);
            }
            return Err(ConversionErrorKind::IntegerOutOfRange);
        }
        acc = acc * 10 + digit;
        j += 1;
    }
    assert(d.subrange(0, n - start) =~= d);
    if negative {
        if acc == I64_MIN_MAGNITUDE {
            Ok(i64::MIN)
        } else {
            Ok(-(acc as i64))
        }
    } else if acc > i64::MAX as u64 {
        Err(ConversionErrorKind::IntegerOutOfRange)
    } else {
        Ok(acc as i64)
    }
}


// ---------------------------------------------------------------- dispatch

/// What converting identifier text `s` under representation `t` yields.
pub open spec fn parse_id_spec(t: IdType, s: Seq<char>) -> Result<ValueModel, ConversionErrorKind> {
    match t {
        IdType::String => Ok(ValueModel::Text(s)),
        IdType::Bytes => if valid_hex(hex_body(s)) {
            Ok(ValueModel::Bytes(hex_bytes(hex_body(s))))
        } else {
            Err(ConversionErrorKind::InvalidHex)
        },
        IdType::Int8 => if !well_formed_int(s) {
            Err(ConversionErrorKind::InvalidInteger)
        } else if !in_i64_range(int_value(s)) {
            Err(ConversionErrorKind::IntegerOutOfRange)
        } else {
            Ok(ValueModel::Int8(int_value(s) as i64))
        },
    }
}

impl IdType {
    /// Converts identifier text into a value of this representation.
    pub fn parse(&self, id: &str) -> (r: Result<Value, ConversionError>)
        ensures
            match r {
                Ok(v) => parse_id_spec(*self, id@) == Ok::<ValueModel, ConversionErrorKind>(v@),
                Err(e) => parse_id_spec(*self, id@) == Err::<ValueModel, ConversionErrorKind>(
                    e.kind,
                ) && e.id@ == id@,
            },
    {
        match self {
            IdType::String => Ok(Value::String(id.to_owned())),
            IdType::Bytes => match decode_hex(id) {
                Some(b) => Ok(Value::Bytes(b)),
                None => Err(ConversionError { kind: ConversionErrorKind::InvalidHex, id: id.to_owned() }),
            },
            IdType::Int8 => match parse_i64(id) {
                Ok(n) => Ok(Value::Int8(n)),
                Err(kind) => Err(ConversionError { kind, id: id.to_owned() }),
            },
        }
    }
}

} // verus!
