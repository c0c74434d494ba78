//! Scalar fields and their wire tokens.
//!
//! A field travels as a token of bytes followed by a null byte. Integers are
//! written as signed decimal ASCII, strings as their UTF-8 bytes, and
//! floating values as decimal ASCII text that the codec carries unchanged;
//! an unset floating value has a token of its own.

use vstd::prelude::*;
use vstd::utf8::*;

verus! {

/// The kind of scalar that a position of a message layout holds. The wire
/// carries no tag: the layout decides how a token is read.
#[derive(Debug, Clone, Copy, PartialEq, Eq, Structural)]
pub enum FieldKind {
    Integer,
    Floating,
    Text,
}

/// One field of a message.
#[derive(Debug, Clone, PartialEq, Eq)]
pub enum IBField {
    /// A signed 64-bit integer.
    IBInteger(i64),
    /// A UTF-8 string without null characters; the empty string is a value.
    IBString(String),
    /// A floating value, held as its decimal text (`-12.5`, `3`, `.25`).
    IBFloat(String),
    /// The unset floating value.
    IBUnset,
}

/// What a field stands for.
pub enum FieldValue {
    Integer(int),
    Text(Seq<char>),
    Floating(Seq<char>),
    Unset,
}

impl View for IBField {
    type V = FieldValue;

    open spec fn view(&self) -> FieldValue {
        match self {
            IBField::IBInteger(v) => FieldValue::Integer(*v as int),
            IBField::IBString(s) => FieldValue::Text(s@),
            IBField::IBFloat(s) => FieldValue::Floating(s@),
            IBField::IBUnset => FieldValue::Unset,
        }
    }
}

pub open spec fn is_digit(b: u8) -> bool {
    48 <= b <= 57
}

/// The ASCII digit for `d < 10`.
pub open spec fn digit_byte(d: nat) -> u8 {
    (d + 48) as u8
}

/// The decimal digits of `n`, without leading zeros.
pub open spec fn nat_text(n: nat) -> Seq<u8>
    decreases n,
{
    if n < 10 {
        seq![digit_byte(n)]
    } else {
        nat_text(n / 10).push(digit_byte(n % 10))
    }
}

/// The decimal text of `v`, with a leading `-` when it is negative.
pub open spec fn int_text(v: int) -> Seq<u8> {
    if v < 0 {
        seq![45u8] + nat_text((-v) as nat)
    } else {
        nat_text(v as nat)
    }
}

pub open spec fn all_digits(s: Seq<u8>) -> bool {
    s.len() > 0 && forall|i: int| 0 <= i < s.len() ==> is_digit(#[trigger] s[i])
}

/// The number that a run of decimal digits stands for.
pub open spec fn digits_value(s: Seq<u8>) -> nat
    decreases s.len(),
{
    if s.len() == 0 {
        0
    } else {
        digits_value(s.drop_last()) * 10 + (s.last() - 48) as nat
    }
}

/// An optional `-` followed by at least one decimal digit.
pub open spec fn is_int_token(t: Seq<u8>) -> bool {
    all_digits(t) || (t.len() > 1 && t[0] == 45 && all_digits(t.drop_first()))
}

pub open spec fn int_value(t: Seq<u8>) -> int {
    if t.len() > 0 && t[0] == 45 {
        -(digits_value(t.drop_first()) as int)
    } else {
        digits_value(t) as int
    }
}

/// The text after an optional leading `-`.
pub open spec fn unsigned_part(t: Seq<u8>) -> Seq<u8> {
    if t.len() > 0 && t[0] == 45 {
        t.drop_first()
    } else {
        t
    }
}

/// Decimal text: an optional `-`, then digits with at most one `.`, and at
/// least one digit.
pub open spec fn is_decimal_token(t: Seq<u8>) -> bool {
    let u = unsigned_part(t);
    &&& forall|i: int| 0 <= i < u.len() ==> is_digit(#[trigger] u[i]) || u[i] == 46
    &&& forall|i: int, j: int|
        #![trigger u[i], u[j]]
        0 <= i < u.len() && 0 <= j < u.len() && u[i] == 46 && u[j] == 46 ==> i == j
    &&& exists|i: int| 0 <= i < u.len() && is_digit(#[trigger] u[i])
}

/// The token of the unset floating value, `1.7976931348623157E308`.
pub open spec fn unset_token() -> Seq<u8> {
    seq![
        49u8, 46, 55, 57, 55, 54, 57, 51, 49, 51, 52, 56, 54, 50, 51, 49, 53, 55, 69, 51, 48, 56,
    ]
}

/// The token that carries a field (without its terminating null byte).
pub open spec fn field_bytes(f: FieldValue) -> Seq<u8> {
    match f {
        FieldValue::Integer(v) => int_text(v),
        FieldValue::Text(s) => encode_utf8(s),
        FieldValue::Floating(s) => encode_utf8(s),
        FieldValue::Unset => unset_token(),
    }
}

pub open spec fn field_kind(f: FieldValue) -> FieldKind {
    match f {
        FieldValue::Integer(_) => FieldKind::Integer,
        FieldValue::Text(_) => FieldKind::Text,
        FieldValue::Floating(_) => FieldKind::Floating,
        FieldValue::Unset => FieldKind::Floating,
    }
}

/// A field that can travel: an integer within 64 bits, a string without a
/// null character, a floating value written as decimal text.
pub open spec fn field_ok(f: FieldValue) -> bool {
    match f {
        FieldValue::Integer(v) => i64::MIN <= v <= i64::MAX,
        FieldValue::Text(s) => !encode_utf8(s).contains(0u8),
        FieldValue::Floating(s) => is_decimal_token(encode_utf8(s)),
        FieldValue::Unset => true,
    }
}

/// The field that a token reads as, at a position of kind `k`.
pub open spec fn parse_field(t: Seq<u8>, k: FieldKind) -> Option<FieldValue> {
    match k {
        FieldKind::Integer => if is_int_token(t) && i64::MIN <= int_value(t) <= i64::MAX {
            Some(FieldValue::Integer(int_value(t)))
        } else {
            None
        },
        FieldKind::Text => if valid_utf8(t) {
            Some(FieldValue::Text(decode_utf8(t)))
        } else {
            None
        },
        FieldKind::Floating => if t == unset_token() {
            Some(FieldValue::Unset)
        } else if is_decimal_token(t) && valid_utf8(t) {
            Some(FieldValue::Floating(decode_utf8(t)))
        } else {
            None
        },
    }
}

proof fn lemma_nat_text(n: nat)
    ensures
        all_digits(nat_text(n)),
        digits_value(nat_text(n)) == n,
    decreases n,
{
    let s = nat_text(n);
    if n < 10 {
        assert(s.drop_last() =~= Seq::<u8>::empty());
        assert(s.last() == (n + 48) as u8);
        assert(digits_value(s.drop_last()) == 0);
        assert(digits_value(s) == n);
    } else {
        lemma_nat_text(n / 10);
        assert(s.drop_last() == nat_text(n / 10));
        assert(s.last() == (n % 10 + 48) as u8);
        assert(digits_value(s) == (n / 10) * 10 + n % 10);
        assert((n / 10) * 10 + n % 10 == n);
        assert forall|i: int| 0 <= i < s.len() implies is_digit(#[trigger] s[i]) by {
            if i < s.len() - 1 {
                assert(s[i] == nat_text(n / 10)[i]);
            }
        }
    }
}

proof fn lemma_int_text(v: int)
    ensures
        is_int_token(int_text(v)),
        int_value(int_text(v)) == v,
{
    let m: nat = if v < 0 { (-v) as nat } else { v as nat };
    lemma_nat_text(m);
    let t = int_text(v);
    if v < 0 {
        assert(t.drop_first() == nat_text(m));
    } else {
        assert(is_digit(t[0]));
    }
}

proof fn lemma_unset_not_decimal()
    ensures
        !is_decimal_token(unset_token()),
{
    let u = unsigned_part(unset_token());
    assert(u == unset_token());
    assert(u[18] == 69);
}

/// A field that can travel reads back, from its own token and at a position
/// of its own kind, as the same field.
pub proof fn lemma_field_round_trip(f: FieldValue)
    requires
        field_ok(f),
    ensures
        parse_field(field_bytes(f), field_kind(f)) == Some(f),
{
    broadcast use encode_utf8_valid_utf8, encode_utf8_decode_utf8;

    match f {
        FieldValue::Integer(v) => {
            lemma_int_text(v);
        },
        FieldValue::Text(s) => {},
        FieldValue::Floating(s) => {
            lemma_unset_not_decimal();
        },
        FieldValue::Unset => {},
    }
}

/// Appends `src` to `out`.
pub fn push_bytes(src: &[u8], out: &mut Vec<u8>)
    ensures
        final(out)@ == old(out)@ + src@,
{
    let mut i: usize = 0;
    while i < src.len()
        invariant
            i <= src@.len(),
            out@ == old(out)@ + src@.subrange(0, i as int),
        decreases src@.len() - i,
    {
        out.push(src[i]);
        assert(src@.subrange(0, i + 1) == src@.subrange(0, i as int).push(src@[i as int]));
        i = i + 1;
    }
    assert(src@.subrange(0, src@.len() as int) == src@);
}

/// Whether two byte strings are equal.
pub fn bytes_eq(a: &[u8], b: &[u8]) -> (r: bool)
    ensures
        r == (a@ == b@),
{
    if a.len() != b.len() {
        return false;
    }
    let mut i: usize = 0;
    while i < a.len()
        invariant
            i <= a@.len(),
            a@.len() == b@.len(),
            forall|k: int| 0 <= k < i ==> a@[k] == b@[k],
        decreases a@.len() - i,
    {
        if a[i] != b[i] {
            return false;
        }
        i = i + 1;
    }
    assert(a@ =~= b@);
    true
}

fn push_nat_text(n: u64, out: &mut Vec<u8>)
    ensures
        final(out)@ == old(out)@ + nat_text(n as nat),
    decreases n,
{
    if n < 10 {
        out.push((n + 48) as u8);
    } else {
        push_nat_text(n / 10, out);
        out.push((n % 10 + 48) as u8);
    }
}

/// Appends the decimal text of `v` to `out`.
pub fn push_int_text(v: i64, out: &mut Vec<u8>)
    ensures
        final(out)@ == old(out)@ + int_text(v as int),
{
    if v < 0 {
        out.push(45);
        let m: u64 = (-(v as i128)) as u64;
        push_nat_text(m, out);
    } else {
        push_nat_text(v as u64, out);
    }
}

/// The bytes of the unset floating token.
pub fn unset_token_bytes() -> (r: Vec<u8>)
    ensures
        r@ == unset_token(),
{
    let r: Vec<u8> = vec![
        49u8, 46, 55, 57, 55, 54, 57, 51, 49, 51, 52, 56, 54, 50, 51, 49, 53, 55, 69, 51, 48, 56,
    ];
    assert(r@ =~= unset_token());
    r
}

/// Appends the token of `f` and its terminating null byte to `out`.
pub fn encode_field(f: &IBField, out: &mut Vec<u8>)
    ensures
        final(out)@ == old(out)@ + field_bytes(f@) + seq![0u8],
{
    match f {
        IBField::IBInteger(v) => push_int_text(*v, out),
        IBField::IBString(s) => push_bytes(s.as_str().as_bytes(), out),
        IBField::IBFloat(s) => push_bytes(s.as_str().as_bytes(), out),
        IBField::IBUnset => {
            let u = unset_token_bytes();
            push_bytes(u.as_slice(), out);
        },
    }
    out.push(0);
}

/// Relies on `String::from_utf8`: it succeeds exactly on valid UTF-8 and the
/// string then holds the characters that the bytes encode.
#[verifier::external_body]
pub(crate) fn utf8_string(b: &[u8]) -> (r: Option<String>)
    ensures
        r is Some <==> valid_utf8(b@),
        r matches Some(s) ==> s@ == decode_utf8(b@),
{
    String::from_utf8(b.to_vec()).ok()
}

/// Reads an integer token: an optional `-`, then decimal digits, within 64 bits.
pub fn parse_int(t: &[u8]) -> (r: Option<i64>)
    ensures
        r == (if is_int_token(t@) && i64::MIN <= int_value(t@) <= i64::MAX {
            Some(int_value(t@) as i64)
        } else {
            None::<i64>
        }),
{
    let neg = t.len() > 0 && t[0] == 45;
    let start: usize = if neg { 1 } else { 0 };
    if t.len() <= start {
        return None;
    }
    let ghost u = t@.subrange(start as int, t@.len() as int);
    assert(neg ==> u == t@.drop_first());
    assert(!neg ==> u == t@);
    let bound: u128 = if neg { 0x8000000000000000 } else { 0x7fffffffffffffff };
    let mut acc: u128 = 0;
    let mut big = false;
    let mut i: usize = start;
    while i < t.len()
        invariant
            start <= i <= t@.len(),
            u == t@.subrange(start as int, t@.len() as int),
            neg == (t@.len() > 0 && t@[0] == 45),
            neg ==> u == t@.drop_first() && bound == 0x8000000000000000,
            !neg ==> u == t@ && bound == 0x7fffffffffffffff,
            forall|k: int| start <= k < i ==> is_digit(#[trigger] t@[k]),
            !big ==> acc == digits_value(t@.subrange(start as int, i as int)) && acc <= bound,
            big ==> digits_value(t@.subrange(start as int, i as int)) > bound,
        decreases t@.len() - i,
    {
        let b = t[i];
        if !(48 <= b && b <= 57) {
            assert(u[i - start] == b);
            assert(!all_digits(u));
            assert(!is_digit(t@[0]) || !all_digits(t@));
            return None;
        }
        let ghost prev = t@.subrange(start as int, i as int);
        assert(t@.subrange(start as int, i + 1).drop_last() == prev);
        if !big {
            let nv: u128 = acc * 10 + (b - 48) as u128;
            if nv > bound {
                big = true;
            } else {
                acc = nv;
            }
        }
        i = i + 1;
    }
    assert(t@.subrange(start as int, t@.len() as int) == u);
    assert(all_digits(u)) by {
        assert forall|k: int| 0 <= k < u.len() implies is_digit(#[trigger] u[k]) by {
            assert(u[k] == t@[start + k]);
        }
    }
    if big {
        return None;
    }
    if neg {
        Some((-(acc as i128)) as i64)
    } else {
        Some(acc as i64)
    }
}

/// Whether `t` is decimal text.
pub fn is_decimal(t: &[u8]) -> (r: bool)
    ensures
        r == is_decimal_token(t@),
{
    let start: usize = if t.len() > 0 && t[0] == 45 { 1 } else { 0 };
    let ghost u = unsigned_part(t@);
    assert(u == t@.subrange(start as int, t@.len() as int));
    let mut dot = false;
    let mut digit = false;
    let ghost mut dot_at: int = 0;
    let ghost mut digit_at: int = 0;
    let mut i: usize = start;
    while i < t.len()
        invariant
            start <= i <= t@.len(),
            u == t@.subrange(start as int, t@.len() as int),
            u == unsigned_part(t@),
            forall|k: int| 0 <= k < i - start ==> is_digit(#[trigger] u[k]) || u[k] == 46,
            dot ==> 0 <= dot_at < i - start && u[dot_at] == 46,
            !dot ==> forall|k: int| 0 <= k < i - start ==> #[trigger] u[k] != 46,
            dot ==> forall|k: int| 0 <= k < i - start && #[trigger] u[k] == 46 ==> k == dot_at,
            digit ==> 0 <= digit_at < i - start && is_digit(u[digit_at]),
            !digit ==> forall|k: int| 0 <= k < i - start ==> !is_digit(#[trigger] u[k]),
        decreases t@.len() - i,
    {
        let b = t[i];
        assert(u[i - start] == b);
        if b == 46 {
            if dot {
                assert(u[dot_at] == 46 && u[i - start] == 46);
                return false;
            }
            dot = true;
            proof {
                dot_at = i - start;
            }
        } else if 48 <= b && b <= 57 {
            if !digit {
                digit = true;
                proof {
                    digit_at = i - start;
                }
            }
        } else {
            return false;
        }
        i = i + 1;
    }
    if digit {
        assert(is_digit(u[digit_at]));
    }
    digit
}

/// Reads a token as a field of kind `k`.
pub fn decode_field(t: &[u8], k: FieldKind) -> (r: Option<IBField>)
    ensures
        match r {
            Some(f) => parse_field(t@, k) == Some(f@),
            None => parse_field(t@, k) is None,
        },
{
    match k {
        FieldKind::Integer => match parse_int(t) {
            Some(v) => Some(IBField::IBInteger(v)),
            None => None,
        },
        FieldKind::Text => match utf8_string(t) {
            Some(s) => Some(IBField::IBString(s)),
            None => None,
        },
        FieldKind::Floating => {
            let u = unset_token_bytes();
            if bytes_eq(t, u.as_slice()) {
                Some(IBField::IBUnset)
            } else if is_decimal(t) {
                match utf8_string(t) {
                    Some(s) => Some(IBField::IBFloat(s)),
                    None => None,
                }
            } else {
                None
            }
        },
    }
}

impl IBField {
    /// Whether the field can travel on the wire.
    pub fn is_valid(&self) -> (r: bool)
        ensures
            r == field_ok(self@),
    {
        match self {
            IBField::IBInteger(_) => true,
            IBField::IBString(s) => !contains_null(s.as_str().as_bytes()),
            IBField::IBFloat(s) => is_decimal(s.as_str().as_bytes()),
            IBField::IBUnset => true,
        }
    }
}

/// Whether `b` holds a null byte.
pub fn contains_null(b: &[u8]) -> (r: bool)
    ensures
        r == b@.contains(0u8),
{
    let mut i: usize = 0;
    while i < b.len()
        invariant
            i <= b@.len(),
            forall|k: int| 0 <= k < i ==> b@[k] != 0,
        decreases b@.len() - i,
    {
        if b[i] == 0 {
            assert(b@[i as int] == 0);
            return true;
        }
        i = i + 1;
    }
    false
}

} // verus!
