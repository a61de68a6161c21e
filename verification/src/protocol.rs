//! The two command shapes this layer issues -- a read by key and a
//! write with an expiry option -- and the model of the responses it
//! reads back: an opaque success/failure plus a decoded integer payload.

use vstd::prelude::*;
use vstd::arithmetic::div_mod::lemma_fundamental_div_mod;

use crate::common::CacheError;

verus! {

/// Options attached to a write: the expiry, in seconds, after which the
/// backing store drops the entry.
#[derive(Debug, Copy, Clone, PartialEq, Eq, Structural)]
pub struct SetOptions {
    pub expiry_seconds: u64,
}

/// A command sent to the backing store.
#[derive(Debug)]
pub enum Command {
    /// Read the value stored under `key`.
    Get { key: String },
    /// Store `value` under `key` with the given expiry options.
    SetEx { key: String, value: u64, options: SetOptions },
}

/// The mathematical value of a [`Command`].
pub enum CommandView {
    Get { key: Seq<char> },
    SetEx { key: Seq<char>, value: u64, expiry_seconds: u64 },
}

impl View for Command {
    type V = CommandView;

    open spec fn view(&self) -> CommandView {
        match self {
            Command::Get { key } => CommandView::Get { key: key@ },
            Command::SetEx { key, value, options } => CommandView::SetEx {
                key: key@,
                value: *value,
                expiry_seconds: options.expiry_seconds,
            },
        }
    }
}

/// A response from the backing store, as far as this layer reads it:
/// an integer, a bulk byte string, a bare success, an absent entry, or
/// an error the transport reported.
#[derive(Debug)]
pub enum Value {
    /// No entry is stored under the requested key.
    Nil,
    /// The command succeeded with no payload.
    Okay,
    /// An integer payload.
    Int(i64),
    /// A byte-string payload.
    Data(Vec<u8>),
    /// The transport or the store reported a failure.
    ServerError,
}

/// The mathematical value of a [`Value`].
pub enum ValueView {
    Nil,
    Okay,
    Int(i64),
    Data(Seq<u8>),
    ServerError,
}

impl View for Value {
    type V = ValueView;

    open spec fn view(&self) -> ValueView {
        match self {
            Value::Nil => ValueView::Nil,
            Value::Okay => ValueView::Okay,
            Value::Int(i) => ValueView::Int(*i),
            Value::Data(bytes) => ValueView::Data(bytes@),
            Value::ServerError => ValueView::ServerError,
        }
    }
}

/// Whether two commands are the same request.
pub fn command_eq(a: &Command, b: &Command) -> (r: bool)
    ensures
        r == (a@ == b@),
{
    match (a, b) {
        (Command::Get { key: ka }, Command::Get { key: kb }) => ka.eq(kb),
        (
            Command::SetEx { key: ka, value: va, options: oa },
            Command::SetEx { key: kb, value: vb, options: ob },
        ) => ka.eq(kb) && va == vb && oa.expiry_seconds == ob.expiry_seconds,
        _ => false,
    }
}

pub open spec fn is_digit(b: u8) -> bool {
    48 <= b && b <= 57
}

pub open spec fn all_digits(s: Seq<u8>) -> bool {
    forall|i: int| 0 <= i < s.len() ==> is_digit(#[trigger] s[i])
}

/// The integer a byte string denotes when read as decimal digits.
pub open spec fn decimal_value(s: Seq<u8>) -> int
    decreases s.len(),
{
    if s.len() == 0 {
        0
    } else {
        decimal_value(s.drop_last()) * 10 + (s.last() - 48)
    }
}

/// A byte string that decodes to a 64-bit unsigned integer: nonempty,
/// all decimal digits, and within range.
pub open spec fn is_u64_decimal(s: Seq<u8>) -> bool {
    s.len() > 0 && all_digits(s) && decimal_value(s) <= u64::MAX
}

/// The canonical decimal digits of a nonnegative integer, most
/// significant first, as the backing store renders a stored integer.
pub open spec fn u64_digits(n: int) -> Seq<u8>
    decreases n,
{
    if n < 10 {
        seq![(48 + n) as u8]
    } else {
        u64_digits(n / 10).push((48 + n % 10) as u8)
    }
}

proof fn lemma_all_digits_drop_last(s: Seq<u8>)
    requires
        all_digits(s),
        s.len() > 0,
    ensures
        all_digits(s.drop_last()),
{
}

proof fn lemma_decimal_value_nonneg(s: Seq<u8>)
    requires
        all_digits(s),
    ensures
        decimal_value(s) >= 0,
    decreases s.len(),
{
    if s.len() > 0 {
        lemma_all_digits_drop_last(s);
        lemma_decimal_value_nonneg(s.drop_last());
    }
}

proof fn lemma_decimal_value_push(s: Seq<u8>, b: u8)
    ensures
        decimal_value(s.push(b)) == decimal_value(s) * 10 + (b - 48),
{
    assert(s.push(b).drop_last() =~= s);
    assert(s.push(b).last() == b);
}

/// Reading more digits never decreases the denoted value.
proof fn lemma_decimal_value_take_le(s: Seq<u8>, j: int)
    requires
        all_digits(s),
        0 <= j <= s.len(),
    ensures
        decimal_value(s.take(j)) <= decimal_value(s),
    decreases s.len() - j,
{
    if j < s.len() {
        assert(s.take(j + 1).drop_last() =~= s.take(j));
        assert(s.take(j + 1).last() == s[j]);
        assert(all_digits(s.take(j))) by {
            assert(forall|i: int| 0 <= i < j ==> s.take(j)[i] == s[i]);
        }
        lemma_decimal_value_nonneg(s.take(j));
        assert(decimal_value(s.take(j + 1)) == decimal_value(s.take(j)) * 10 + (s[j] - 48));
        lemma_decimal_value_take_le(s, j + 1);
    } else {
        assert(s.take(j) =~= s);
    }
}

/// Law: rendering a 64-bit value as decimal digits and reading the
/// digits back yields the value itself.
pub proof fn lemma_u64_digits_round_trip(n: int)
    requires
        0 <= n <= u64::MAX,
    ensures
        u64_digits(n).len() > 0,
        all_digits(u64_digits(n)),
        decimal_value(u64_digits(n)) == n,
    decreases n,
{
    if n < 10 {
        let s = seq![(48 + n) as u8];
        assert(s.drop_last() =~= Seq::<u8>::empty());
        assert(decimal_value(Seq::<u8>::empty()) == 0);
        assert(s.last() == (48 + n) as u8);
        assert(decimal_value(s) == decimal_value(s.drop_last()) * 10 + (s.last() - 48));
    } else {
        lemma_fundamental_div_mod(n, 10);
        lemma_u64_digits_round_trip(n / 10);
        let p = u64_digits(n / 10);
        let b = (48 + n % 10) as u8;
        lemma_decimal_value_push(p, b);
        assert(all_digits(p.push(b))) by {
            assert(forall|i: int| 0 <= i < p.len() ==> p.push(b)[i] == p[i]);
            assert(p.push(b).last() == b);
        }
    }
}

/// Reads a decimal 64-bit unsigned integer from a byte string; `None`
/// exactly when the bytes are not such a rendering.
pub fn parse_u64_decimal(bytes: &Vec<u8>) -> (r: Option<u64>)
    ensures
        is_u64_decimal(bytes@) ==> r == Some(decimal_value(bytes@) as u64),
        !is_u64_decimal(bytes@) ==> r is None,
{
    if bytes.len() == 0 {
        return None;
    }
    let mut acc: u64 = 0;
    let mut i: usize = 0;
    while i < bytes.len()
        invariant
            0 <= i <= bytes@.len(),
            all_digits(bytes@.take(i as int)),
            acc == decimal_value(bytes@.take(i as int)),
        decreases bytes@.len() - i,
    {
        let b = bytes[i];
        if b < 48 || b > 57 {
            return None;
        }
        let d = (b - 48) as u64;
        proof {
            assert(bytes@.take(i + 1).drop_last() =~= bytes@.take(i as int));
            assert(bytes@.take(i + 1).last() == bytes@[i as int]);
            assert(all_digits(bytes@.take(i + 1)));
            lemma_decimal_value_push(bytes@.take(i as int), bytes@[i as int]);
        }
        if acc > (u64::MAX - d) / 10 {
            proof {
                lemma_fundamental_div_mod((u64::MAX - d) as int, 10);
                assert(acc * 10 + d > u64::MAX) by (nonlinear_arith)
                    requires
                        acc > ((u64::MAX - d) as int) / 10,
                        (u64::MAX - d) as int == 10 * (((u64::MAX - d) as int) / 10) + (((
                        u64::MAX - d) as int) % 10),
                        0 <= ((u64::MAX - d) as int) % 10 < 10,
                        0 <= d <= 9,
                ;
                if all_digits(bytes@) {
                    lemma_decimal_value_take_le(bytes@, i + 1);
                }
            }
            return None;
        }
        proof {
            lemma_fundamental_div_mod((u64::MAX - d) as int, 10);
            assert(acc * 10 + d <= u64::MAX) by (nonlinear_arith)
                requires
                    acc <= ((u64::MAX - d) as int) / 10,
                    (u64::MAX - d) as int == 10 * (((u64::MAX - d) as int) / 10) + (((u64::MAX
                        - d) as int) % 10),
                    0 <= ((u64::MAX - d) as int) % 10 < 10,
                    0 <= d <= 9,
            ;
        }
        acc = acc * 10 + d;
        i = i + 1;
    }
    proof {
        assert(bytes@.take(bytes@.len() as int) =~= bytes@);
        lemma_decimal_value_nonneg(bytes@);
    }
    Some(acc)
}

/// How a read response is collapsed to a value or to `FailedQuery`:
/// only a nonnegative integer or a decimal byte string decodes; every
/// malformed or error response surfaces `FailedQuery`.
pub open spec fn spec_decode_u64(v: ValueView) -> Result<u64, CacheError> {
    match v {
        ValueView::Int(i) => if i >= 0 {
            Ok(i as u64)
        } else {
            Err(CacheError::FailedQuery)
        },
        ValueView::Data(bytes) => if is_u64_decimal(bytes) {
            Ok(decimal_value(bytes) as u64)
        } else {
            Err(CacheError::FailedQuery)
        },
        _ => Err(CacheError::FailedQuery),
    }
}

/// How a write response is collapsed: only a bare success is accepted;
/// every malformed or error response surfaces `FailedQuery`.
pub open spec fn spec_decode_unit(v: ValueView) -> Result<(), CacheError> {
    match v {
        ValueView::Okay => Ok(()),
        _ => Err(CacheError::FailedQuery),
    }
}

/// Decodes the response to a read into the stored 64-bit value.
pub fn decode_u64(v: Value) -> (r: Result<u64, CacheError>)
    ensures
        r == spec_decode_u64(v@),
{
    match v {
        Value::Int(i) => if i >= 0 {
            Ok(i as u64)
        } else {
            Err(CacheError::FailedQuery)
        },
        Value::Data(bytes) => match parse_u64_decimal(&bytes) {
            Some(n) => Ok(n),
            None => Err(CacheError::FailedQuery),
        },
        _ => Err(CacheError::FailedQuery),
    }
}

/// Decodes the response to a write into a bare success.
pub fn decode_unit(v: Value) -> (r: Result<(), CacheError>)
    ensures
        r == spec_decode_unit(v@),
{
    match v {
        Value::Okay => Ok(()),
        _ => Err(CacheError::FailedQuery),
    }
}

} // verus!
