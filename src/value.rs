use vstd::prelude::*;

verus! {

/// A value that is either a signed integer or a piece of text.
#[derive(Debug)]
pub enum Value {
    Number(i64),
    Text(String),
}

/// Why an operation on values was refused.
#[derive(Debug, Clone, Copy, PartialEq, Eq, Structural)]
pub enum EvalError {
    /// The value has the right variant but lies outside the operation's domain.
    DomainError,
    /// The operation does not accept this variant, or this pairing of variants.
    TypeError,
}

/// `k` is the integer square root of `n`: the largest non-negative `k`
/// whose square does not exceed `n`.
pub open spec fn is_floor_sqrt(n: int, k: int) -> bool {
    &&& 0 <= k
    &&& k * k <= n
    &&& n < (k + 1) * (k + 1)
}

/// Whether `v` is the `Number` variant.
pub open spec fn is_number_spec(v: Value) -> bool {
    v is Number
}

/// Returns true exactly when `v` holds a number.
pub fn is_number(v: &Value) -> (r: bool)
    ensures
        r == is_number_spec(*v),
{
    match v {
        Value::Number(_) => true,
        _ => false,
    }
}

/// Building a value and then asking whether it is a number gives the answer
/// its variant dictates: yes for every `Number(n)`, no for every `Text(s)`.
/// The answer depends on the value alone, so asking again, any number of
/// times, gives the same answer, and asking leaves the value as it was.
pub proof fn lemma_construct_then_inspect(n: i64, s: String)
    ensures
        is_number_spec(Value::Number(n)),
        !is_number_spec(Value::Text(s)),
        forall|v: Value| #[trigger] is_number_spec(v) == (v is Number),
{
}

/// Smallest integer whose square exceeds every `i64`.
const SQRT_BOUND: u64 = 3037000500;

/// The integer square root of a non-negative `n`, computed exactly by
/// bisection over `[0, SQRT_BOUND)`.
fn floor_sqrt(n: i64) -> (k: i64)
    requires
        n >= 0,
    ensures
        is_floor_sqrt(n as int, k as int),
{
    let target: u64 = n as u64;
    let mut lo: u64 = 0;
    let mut hi: u64 = SQRT_BOUND;
    assert(target < SQRT_BOUND * SQRT_BOUND);
    while hi - lo > 1
        invariant
            lo < hi <= SQRT_BOUND,
            target == n,
            lo * lo <= target,
            target < hi * hi,
        decreases hi - lo,
    {
        let mid: u64 = lo + (hi - lo) / 2;
        assert(mid * mid <= SQRT_BOUND * SQRT_BOUND) by (nonlinear_arith)
            requires
                mid < SQRT_BOUND,
        ;
        if mid * mid <= target {
            lo = mid;
        } else {
            hi = mid;
        }
    }
    assert(hi == lo + 1);
    lo as i64
}

/// The integer square root of a non-negative number.
///
/// The root is computed in integers, with no floating-point rounding, so
/// the result is exact for every `i64`, the largest included: `Number(k)` with `k * k <= n` and
/// `n < (k + 1) * (k + 1)`. A negative number is a `DomainError`; text is a
/// `TypeError`.
pub fn sqrt(v: &Value) -> (r: Result<Value, EvalError>)
    ensures
        match *v {
            Value::Number(n) => if n >= 0 {
                r matches Ok(Value::Number(k)) && is_floor_sqrt(n as int, k as int)
            } else {
                r == Err::<Value, EvalError>(EvalError::DomainError)
            },
            Value::Text(_) => r == Err::<Value, EvalError>(EvalError::TypeError),
        },
{
    match v {
        Value::Number(n) if *n >= 0 => Ok(Value::Number(floor_sqrt(*n))),
        Value::Number(_) => Err(EvalError::DomainError),
        _ => Err(EvalError::TypeError),
    }
}

/// Whether adding `a` and `b` stays inside `i64` (always so for a pair that
/// is not two numbers).
pub open spec fn sum_fits(a: Value, b: Value) -> bool {
    match (a, b) {
        (Value::Number(x), Value::Number(y)) => i64::MIN <= x + y <= i64::MAX,
        _ => true,
    }
}

/// Adds two values of the same variant: numbers by integer addition, text by
/// concatenation. A mixed pair is a `TypeError`.
///
/// Integer overflow traps, as in a debug build: a pair of numbers whose sum
/// leaves `i64` is outside the domain of this function.
pub fn add_values(a: Value, b: Value) -> (r: Result<Value, EvalError>)
    requires
        sum_fits(a, b),
    ensures
        match (a, b) {
            (Value::Number(x), Value::Number(y)) => r == Ok::<Value, EvalError>(
                Value::Number((x + y) as i64),
            ),
            (Value::Text(s), Value::Text(t)) => r matches Ok(Value::Text(u)) && u@ == s@ + t@,
            _ => r == Err::<Value, EvalError>(EvalError::TypeError),
        },
{
    match (a, b) {
        (Value::Number(na), Value::Number(nb)) => Ok(Value::Number(na + nb)),
        (Value::Text(sa), Value::Text(sb)) => Ok(Value::Text(sa.concat(sb.as_str()))),
        _ => Err(EvalError::TypeError),
    }
}

} // verus!
