//! Conditions on a measured value, as they are written on the command line:
//! a comparison operator in front of a number, and a percentage that holds
//! only under such a condition.

use vstd::prelude::*;
use vstd::std_specs::cmp::{PartialEqSpec, PartialOrdIs, PartialOrdSpec};
use vstd::string::StrSliceExecFns;

verus! {

/// A comparison operator.
#[derive(Clone, Copy, Debug, PartialEq, Eq, Structural)]
pub enum Comparison {
    Equal,
    NotEqual,
    LessThan,
    LessThanOrEqual,
    GreaterThan,
    GreaterThanOrEqual,
}

/// A condition on a value: how it has to compare with a threshold.
#[derive(Debug, Clone)]
pub enum CompareThreshold<T> {
    Equal(T),
    NotEqual(T),
    LessThan(T),
    LessThanOrEqual(T),
    GreaterThan(T),
    GreaterThanOrEqual(T),
}

impl<T: PartialOrd> CompareThreshold<T> {
    /// Whether `v` meets the condition, in the order that `T` defines.
    pub open spec fn holds_for(&self, v: T) -> bool {
        match self {
            CompareThreshold::Equal(t) => v.eq_spec(t),
            CompareThreshold::NotEqual(t) => !v.eq_spec(t),
            CompareThreshold::LessThan(t) => v.is_lt(t),
            CompareThreshold::LessThanOrEqual(t) => v.is_le(t),
            CompareThreshold::GreaterThan(t) => v.is_gt(t),
            CompareThreshold::GreaterThanOrEqual(t) => v.is_ge(t),
        }
    }

    /// The condition that `v` compares with `t` as `op` says.
    pub fn with(op: Comparison, t: T) -> (c: CompareThreshold<T>)
        ensures
            c == match op {
                Comparison::Equal => CompareThreshold::Equal(t),
                Comparison::NotEqual => CompareThreshold::NotEqual(t),
                Comparison::LessThan => CompareThreshold::LessThan(t),
                Comparison::LessThanOrEqual => CompareThreshold::LessThanOrEqual(t),
                Comparison::GreaterThan => CompareThreshold::GreaterThan(t),
                Comparison::GreaterThanOrEqual => CompareThreshold::GreaterThanOrEqual(t),
            },
    {
        match op {
            Comparison::Equal => CompareThreshold::Equal(t),
            Comparison::NotEqual => CompareThreshold::NotEqual(t),
            Comparison::LessThan => CompareThreshold::LessThan(t),
            Comparison::LessThanOrEqual => CompareThreshold::LessThanOrEqual(t),
            Comparison::GreaterThan => CompareThreshold::GreaterThan(t),
            Comparison::GreaterThanOrEqual => CompareThreshold::GreaterThanOrEqual(t),
        }
    }

    /// Whether `v` meets the condition.
    ///
    /// The result is stated for types whose comparisons follow their
    /// specification, as those of the integers do.
    pub fn matches(&self, v: T) -> (r: bool)
        ensures
            T::obeys_eq_spec() && T::obeys_partial_cmp_spec() ==> r == self.holds_for(v),
    {
        match self {
            CompareThreshold::Equal(t) => v == *t,
            CompareThreshold::NotEqual(t) => v != *t,
            CompareThreshold::LessThan(t) => v < *t,
            CompareThreshold::LessThanOrEqual(t) => v <= *t,
            CompareThreshold::GreaterThan(t) => v > *t,
            CompareThreshold::GreaterThanOrEqual(t) => v >= *t,
        }
    }
}

/// A percentage, and the condition under which it holds.
#[derive(Debug, Clone)]
pub struct PercentThreshold<T> {
    pub value: i32,
    /// The condition, if the percentage has one.
    pub compare: Option<CompareThreshold<T>>,
}

/// The text is no percentage with an optional condition.
#[derive(Clone, Copy, Debug, PartialEq, Eq, Structural)]
pub struct PercentThresholdParseError;

/// The text does not begin with a comparison operator.
#[derive(Clone, Copy, Debug, PartialEq, Eq, Structural)]
pub struct CompareThresholdParseError;

impl<T: PartialOrd> PercentThreshold<T> {
    /// The percentage `value`, to hold where `compare` is met, or always
    /// where there is no condition.
    pub fn new(value: i32, compare: Option<CompareThreshold<T>>) -> (p: PercentThreshold<T>)
        ensures
            p.value == value,
            p.compare == compare,
    {
        PercentThreshold { value, compare }
    }

    /// Whether the percentage holds for the measured value `v`: always
    /// without a condition, and else where `v` meets the condition.
    pub fn matches(&self, v: T) -> (r: bool)
        ensures
            self.compare is None ==> r,
            T::obeys_eq_spec() && T::obeys_partial_cmp_spec() ==> r == match self.compare {
                Some(c) => c.holds_for(v),
                None => true,
            },
    {
        match &self.compare {
            Some(c) => c.matches(v),
            None => true,
        }
    }
}

/// The operator that `s` begins with and the number of characters it
/// takes. The operators of two characters, `==`, `!=`, `<=` and `>=`, come
/// before those of one, `=`, `!`, `<` and `>`.
pub open spec fn leading_operator(s: Seq<char>) -> Option<(Comparison, int)> {
    if s.len() >= 2 && s[0] == '=' && s[1] == '=' {
        Some((Comparison::Equal, 2))
    } else if s.len() >= 2 && s[0] == '!' && s[1] == '=' {
        Some((Comparison::NotEqual, 2))
    } else if s.len() >= 2 && s[0] == '<' && s[1] == '=' {
        Some((Comparison::LessThanOrEqual, 2))
    } else if s.len() >= 2 && s[0] == '>' && s[1] == '=' {
        Some((Comparison::GreaterThanOrEqual, 2))
    } else if s.len() >= 1 && s[0] == '=' {
        Some((Comparison::Equal, 1))
    } else if s.len() >= 1 && s[0] == '!' {
        Some((Comparison::NotEqual, 1))
    } else if s.len() >= 1 && s[0] == '<' {
        Some((Comparison::LessThan, 1))
    } else if s.len() >= 1 && s[0] == '>' {
        Some((Comparison::GreaterThan, 1))
    } else {
        None
    }
}

/// The operator that `s` begins with and what follows it, the text of the
/// threshold.
pub open spec fn comparison_parts(s: Seq<char>) -> Option<(Comparison, Seq<char>)> {
    match leading_operator(s) {
        Some((op, n)) => Some((op, s.skip(n))),
        None => None,
    }
}

/// Splits a condition into its operator and the text of its threshold.
/// Fails where the text begins with no operator.
pub fn split_comparison(s: &str) -> (r: Result<(Comparison, &str), CompareThresholdParseError>)
    ensures
        match r {
            Ok((op, rest)) => comparison_parts(s@) == Some((op, rest@)),
            Err(_) => comparison_parts(s@) is None,
        },
{
    let n = s.unicode_len();
    if n == 0 {
        return Err(CompareThresholdParseError);
    }
    let first = s.get_char(0);
    let with_equals = n >= 2 && s.get_char(1) == '=';
    let (op, taken): (Comparison, usize) = if first == '=' {
        (Comparison::Equal, if with_equals { 2 } else { 1 })
    } else if first == '!' {
        (Comparison::NotEqual, if with_equals { 2 } else { 1 })
    } else if first == '<' {
        if with_equals {
            (Comparison::LessThanOrEqual, 2)
        } else {
            (Comparison::LessThan, 1)
        }
    } else if first == '>' {
        if with_equals {
            (Comparison::GreaterThanOrEqual, 2)
        } else {
            (Comparison::GreaterThan, 1)
        }
    } else {
        return Err(CompareThresholdParseError);
    };
    let rest = s.substring_char(taken, n);
    assert(rest@ == s@.skip(taken as int));
    Ok((op, rest))
}

/// Whether `c` is one of the ten digits.
pub open spec fn is_digit(c: char) -> bool {
    '0' <= c && c <= '9'
}

/// Every character is a digit.
pub open spec fn all_digits(s: Seq<char>) -> bool {
    forall|i: int| 0 <= i < s.len() ==> is_digit(#[trigger] s[i])
}

/// The number that a row of digits writes in base ten.
pub open spec fn decimal(s: Seq<char>) -> int
    decreases s.len(),
{
    if s.len() == 0 {
        0
    } else {
        decimal(s.drop_last()) * 10 + (s.last() as int - '0' as int)
    }
}

/// The integer that `s` writes: an optional `+` or `-` and then at least
/// one digit, with nothing before, between or after.
pub open spec fn signed_decimal(s: Seq<char>) -> Option<int> {
    let signed = s.len() > 0 && (s[0] == '-' || s[0] == '+');
    let body = if signed {
        s.skip(1)
    } else {
        s
    };
    if body.len() == 0 || !all_digits(body) {
        None
    } else if signed && s[0] == '-' {
        Some(-decimal(body))
    } else {
        Some(decimal(body))
    }
}

/// The integer that `s` writes, where an `i32` holds it.
pub open spec fn value_of(s: Seq<char>) -> Option<i32> {
    match signed_decimal(s) {
        Some(v) => if i32::MIN <= v <= i32::MAX {
            Some(v as i32)
        } else {
            None
        },
        None => None,
    }
}

/// Whether `i` is the place of the first `@` in `s`.
pub open spec fn is_first_at(s: Seq<char>, i: int) -> bool {
    0 <= i < s.len() && s[i] == '@' && forall|j: int| 0 <= j < i ==> s[j] != '@'
}

/// `s` split at its first `@`: what stands before it and what stands after
/// it. Without an `@` the whole of `s` stands before.
pub open spec fn split_at_first(s: Seq<char>) -> (Seq<char>, Option<Seq<char>>) {
    if exists|i: int| is_first_at(s, i) {
        let i = choose|i: int| is_first_at(s, i);
        (s.take(i), Some(s.skip(i + 1)))
    } else {
        (s, None)
    }
}

/// What `N` or `N@C` writes: the percentage `N` and, of the condition `C`,
/// its operator and the text of its threshold. `None` where `N` writes no
/// `i32` or `C` begins with no operator.
pub open spec fn percent_threshold_parts(s: Seq<char>) -> Option<
    (i32, Option<(Comparison, Seq<char>)>),
> {
    let (number, condition) = split_at_first(s);
    match (value_of(number), condition) {
        (Some(v), None) => Some((v, None)),
        (Some(v), Some(c)) => match comparison_parts(c) {
            Some(parts) => Some((v, Some(parts))),
            None => None,
        },
        (None, _) => None,
    }
}

/// Reads a percentage: the integer that `s` writes, where an `i32` holds it.
pub fn parse_value(s: &str) -> (r: Option<i32>)
    ensures
        r == value_of(s@),
{
    let n = s.unicode_len();
    if n == 0 {
        return None;
    }
    let c0 = s.get_char(0);
    let negative = c0 == '-';
    let start: usize = if c0 == '-' || c0 == '+' {
        1
    } else {
        0
    };
    if start == n {
        return None;
    }
    let ghost body = s@.skip(start as int);
    assert(s@.skip(0) == s@);
    assert(signed_decimal(s@) == if !all_digits(body) {
        None
    } else if negative {
        Some(-decimal(body))
    } else {
        Some(decimal(body))
    });
    let mut acc: i64 = 0;
    let mut beyond = false;
    let mut i: usize = start;
    while i < n
        invariant
            start <= i <= n,
            n == s@.len(),
            body == s@.skip(start as int),
            !all_digits(body) ==> signed_decimal(s@) is None,
            all_digits(body.take(i - start)),
            !beyond ==> acc == decimal(body.take(i - start)) && 0 <= acc <= 2147483648,
            beyond ==> decimal(body.take(i - start)) > 2147483648,
        decreases n - i,
    {
        let c = s.get_char(i);
        if !(c >= '0' && c <= '9') {
            assert(body[i - start] == c);
            assert(!all_digits(body));
            return None;
        }
        proof {
            let k = i - start;
            assert(body.take(k + 1).drop_last() == body.take(k));
            assert(body.take(k + 1).last() == c);
        }
        if !beyond {
            acc = acc * 10 + (c as u32 - 48) as i64;
            if acc > 2147483648 {
                beyond = true;
            }
        }
        i = i + 1;
    }
    assert(body.take(n - start) == body);
    assert(all_digits(body));
    if beyond {
        None
    } else if negative {
        Some((-acc) as i32)
    } else if acc <= 2147483647 {
        Some(acc as i32)
    } else {
        None
    }
}

/// Splits the text of a percentage with an optional condition at the first
/// `@`: the percentage before it, the condition after it.
pub fn split_threshold(s: &str) -> (r: (&str, Option<&str>))
    ensures
        r.0@ == split_at_first(s@).0,
        match r.1 {
            Some(c) => split_at_first(s@).1 == Some(c@),
            None => split_at_first(s@).1 is None,
        },
{
    let n = s.unicode_len();
    let mut i: usize = 0;
    while i < n
        invariant
            i <= n,
            n == s@.len(),
            forall|j: int| 0 <= j < i ==> s@[j] != '@',
        decreases n - i,
    {
        if s.get_char(i) == '@' {
            let head = s.substring_char(0, i);
            let tail = s.substring_char(i + 1, n);
            proof {
                assert(is_first_at(s@, i as int));
                let k = choose|k: int| is_first_at(s@, k);
                assert(k == i);
                assert(head@ == s@.take(i as int));
                assert(tail@ == s@.skip(i + 1));
            }
            return (head, Some(tail));
        }
        i = i + 1;
    }
    (s, None)
}

/// Reads `N` or `N@C`, where `N` writes a percentage and `C` is a
/// condition: gives the percentage and, of a condition, its operator and
/// the text of its threshold. The threshold itself is left to the caller
/// to read.
pub fn split_percent_threshold(s: &str) -> (r: Result<
    (i32, Option<(Comparison, &str)>),
    PercentThresholdParseError,
>)
    ensures
        match r {
            Ok((value, None)) => percent_threshold_parts(s@) == Some(
                (value, None::<(Comparison, Seq<char>)>),
            ),
            Ok((value, Some((op, rest)))) => percent_threshold_parts(s@) == Some(
                (value, Some((op, rest@))),
            ),
            Err(_) => percent_threshold_parts(s@) is None,
        },
{
    let (number, condition) = split_threshold(s);
    let value = match parse_value(number) {
        Some(v) => v,
        None => {
            return Err(PercentThresholdParseError);
        },
    };
    match condition {
        Some(c) => match split_comparison(c) {
            Ok(parts) => Ok((value, Some(parts))),
            Err(_) => Err(PercentThresholdParseError),
        },
        None => Ok((value, None)),
    }
}

} // verus!
