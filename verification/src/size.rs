//! Sizes with 1024-based unit multipliers and the three-way size
//! comparison (`GreaterThan`, `LessThan`, `EqualTo`) applied to an
//! entry's byte length.

use vstd::prelude::*;

verus! {

/// A byte quantity: a non-negative count of one of five 1024-based units.
#[derive(Clone, Copy, Debug, PartialEq, Eq, Structural)]
pub enum Size {
    Kilobyte(u64),
    Megabyte(u64),
    Gigabyte(u64),
    Terabyte(u64),
    Petabyte(u64),
}

impl Size {
    /// The unit's multiplier in bytes.
    pub open spec fn multiplier(self) -> int {
        match self {
            Size::Kilobyte(_) => 1024,
            Size::Megabyte(_) => 1048576,
            Size::Gigabyte(_) => 1073741824,
            Size::Terabyte(_) => 1099511627776,
            Size::Petabyte(_) => 1125899906842624,
        }
    }

    /// The unit count this size was written with.
    pub open spec fn count(self) -> u64 {
        match self {
            Size::Kilobyte(v) => v,
            Size::Megabyte(v) => v,
            Size::Gigabyte(v) => v,
            Size::Terabyte(v) => v,
            Size::Petabyte(v) => v,
        }
    }

    /// The size in bytes, as an unbounded integer.
    pub open spec fn bytes(self) -> int {
        self.count() * self.multiplier()
    }

    /// Whether the byte count is representable as a `u64`.
    pub open spec fn fits_u64(self) -> bool {
        self.bytes() <= u64::MAX
    }

    /// The size in bytes.
    pub fn to_bytes(&self) -> (r: u64)
        requires
            self.fits_u64(),
        ensures
            r == self.bytes(),
    {
        match self {
            Size::Kilobyte(v) => *v * 1024,
            Size::Megabyte(v) => *v * 1048576,
            Size::Gigabyte(v) => *v * 1073741824,
            Size::Terabyte(v) => *v * 1099511627776,
            Size::Petabyte(v) => *v * 1125899906842624,
        }
    }

    /// The size in bytes, or `None` when it does not fit in a `u64`.
    fn checked_bytes(&self) -> (r: Option<u64>)
        ensures
            match r {
                Some(b) => self.fits_u64() && b == self.bytes(),
                None => !self.fits_u64(),
            },
    {
        match self {
            Size::Kilobyte(v) => v.checked_mul(1024),
            Size::Megabyte(v) => v.checked_mul(1048576),
            Size::Gigabyte(v) => v.checked_mul(1073741824),
            Size::Terabyte(v) => v.checked_mul(1099511627776),
            Size::Petabyte(v) => v.checked_mul(1125899906842624),
        }
    }
}

/// A comparison of an entry's byte length against a size threshold.
/// `EqualTo` means within 512 bytes of the threshold, both bounds
/// exclusive; the other two are strict.
#[derive(Clone, Copy, Debug, PartialEq, Eq, Structural)]
pub enum SizeComparison {
    GreaterThan(Size),
    LessThan(Size),
    EqualTo(Size),
}

impl SizeComparison {
    /// The inputs on which `check` evaluates within `u64` arithmetic:
    /// the threshold fits, and for the approximate window the bounds
    /// `threshold - 512` and `threshold + 512` both fit.
    pub open spec fn in_range(self) -> bool {
        match self {
            SizeComparison::GreaterThan(s) => s.fits_u64(),
            SizeComparison::LessThan(s) => s.fits_u64(),
            SizeComparison::EqualTo(s) => 512 <= s.bytes() && s.bytes() + 512 <= u64::MAX,
        }
    }

    /// Whether a byte length satisfies the comparison.
    pub open spec fn satisfied_by(self, bytes: u64) -> bool {
        match self {
            SizeComparison::GreaterThan(s) => bytes > s.bytes(),
            SizeComparison::LessThan(s) => bytes < s.bytes(),
            SizeComparison::EqualTo(s) => s.bytes() - 512 < bytes && bytes < s.bytes() + 512,
        }
    }

    /// Decide whether an entry of `bytes` bytes satisfies the comparison.
    pub fn check(&self, bytes: u64) -> (r: bool)
        requires
            self.in_range(),
        ensures
            r == self.satisfied_by(bytes),
    {
        match self {
            SizeComparison::GreaterThan(v) => bytes > v.to_bytes(),
            SizeComparison::LessThan(v) => bytes < v.to_bytes(),
            SizeComparison::EqualTo(v) => {
                let t = v.to_bytes();
                bytes > t - 512 && bytes < t + 512
            },
        }
    }

    /// Decide whether the comparison is within `u64` range, so that
    /// `check` may be called on it.
    pub fn is_in_range(&self) -> (r: bool)
        ensures
            r == self.in_range(),
    {
        match self {
            SizeComparison::GreaterThan(s) => s.checked_bytes().is_some(),
            SizeComparison::LessThan(s) => s.checked_bytes().is_some(),
            SizeComparison::EqualTo(s) => match s.checked_bytes() {
                Some(b) => 512 <= b && b <= u64::MAX - 512,
                None => false,
            },
        }
    }
}

/// Why a size expression failed to parse.
#[derive(Clone, Copy, Debug, PartialEq, Eq, Structural)]
pub enum SizeParseError {
    /// No decimal digit where the count was expected.
    MissingDigits,
    /// The decimal count does not fit in a `u64`.
    Overflow,
    /// The character after the count is not one of `k`, `M`, `G`, `T`, `P`,
    /// or the unit is missing altogether.
    InvalidUnit,
    /// Characters remain after the unit.
    TrailingInput,
}

impl SizeParseError {
    /// A short description of the failure.
    pub fn message(&self) -> String {
        match self {
            SizeParseError::MissingDigits => "expected one or more decimal digits".to_owned(),
            SizeParseError::Overflow => "count does not fit in 64 bits".to_owned(),
            SizeParseError::InvalidUnit => "expected a unit: one of k, M, G, T, P".to_owned(),
            SizeParseError::TrailingInput => "unexpected characters after the unit".to_owned(),
        }
    }
}

/// Whether `c` is a decimal digit.
pub open spec fn is_size_digit(c: char) -> bool {
    '0' <= c && c <= '9'
}

/// The numeric value of a decimal digit.
pub open spec fn digit_value(c: char) -> int {
    c as u32 - '0' as u32
}

/// The value of a string of decimal digits, most significant first.
pub open spec fn digits_value(s: Seq<char>) -> int
    decreases s.len(),
{
    if s.len() == 0 {
        0
    } else {
        digits_value(s.drop_last()) * 10 + digit_value(s.last())
    }
}

/// How many decimal digits stand at the front of `s`.
pub open spec fn digit_prefix_len(s: Seq<char>) -> int
    decreases s.len(),
{
    if s.len() > 0 && is_size_digit(s[0]) {
        1 + digit_prefix_len(s.subrange(1, s.len() as int))
    } else {
        0
    }
}

/// The expression after the optional leading sign.
pub open spec fn unsigned_part(s: Seq<char>) -> Seq<char> {
    if s.len() > 0 && (s[0] == '+' || s[0] == '-') {
        s.subrange(1, s.len() as int)
    } else {
        s
    }
}

/// Whether `c` is one of the five unit letters.
pub open spec fn is_unit_char(c: char) -> bool {
    c == 'k' || c == 'M' || c == 'G' || c == 'T' || c == 'P'
}

/// The size that count `v` of the unit written `c` denotes.
pub open spec fn size_of_unit(c: char, v: u64) -> Size {
    if c == 'k' {
        Size::Kilobyte(v)
    } else if c == 'M' {
        Size::Megabyte(v)
    } else if c == 'G' {
        Size::Gigabyte(v)
    } else if c == 'T' {
        Size::Terabyte(v)
    } else {
        Size::Petabyte(v)
    }
}

/// The comparison that the expression's leading sign selects: `+` means
/// greater than, `-` means less than, no sign means the approximate match.
pub open spec fn comparison_of_sign(s: Seq<char>, size: Size) -> SizeComparison {
    if s.len() > 0 && s[0] == '+' {
        SizeComparison::GreaterThan(size)
    } else if s.len() > 0 && s[0] == '-' {
        SizeComparison::LessThan(size)
    } else {
        SizeComparison::EqualTo(size)
    }
}

/// The grammar of a size expression: an optional sign, one or more
/// decimal digits that fit in a `u64`, exactly one unit letter, and
/// nothing after it.
pub open spec fn spec_parse(s: Seq<char>) -> Result<SizeComparison, SizeParseError> {
    let r = unsigned_part(s);
    let n = digit_prefix_len(r);
    if n == 0 {
        Err(SizeParseError::MissingDigits)
    } else if digits_value(r.subrange(0, n)) > u64::MAX {
        Err(SizeParseError::Overflow)
    } else if n == r.len() || !is_unit_char(r[n]) {
        Err(SizeParseError::InvalidUnit)
    } else if n + 1 < r.len() {
        Err(SizeParseError::TrailingInput)
    } else {
        Ok(comparison_of_sign(s, size_of_unit(r[n], digits_value(r.subrange(0, n)) as u64)))
    }
}

/// The leading digits of `s` number exactly `k` when the first `k`
/// characters are digits and the next one, if any, is not.
proof fn lemma_digit_prefix_len_is(s: Seq<char>, k: int)
    requires
        0 <= k <= s.len(),
        forall|j: int| 0 <= j < k ==> is_size_digit(s[j]),
        k == s.len() || !is_size_digit(s[k]),
    ensures
        digit_prefix_len(s) == k,
    decreases s.len(),
{
    if k == 0 {
    } else {
        let t = s.subrange(1, s.len() as int);
        assert(forall|j: int| 0 <= j < k - 1 ==> is_size_digit(#[trigger] t[j]));
        lemma_digit_prefix_len_is(t, k - 1);
    }
}

/// A digit string's value is never negative.
proof fn lemma_digits_value_nonneg(s: Seq<char>)
    requires
        forall|j: int| 0 <= j < s.len() ==> is_size_digit(s[j]),
    ensures
        digits_value(s) >= 0,
    decreases s.len(),
{
    if s.len() > 0 {
        lemma_digits_value_nonneg(s.drop_last());
    }
}

/// Parse a size-comparison expression: an optional `+` or `-` sign,
/// a decimal count, and a unit letter, with end of input immediately
/// after the unit. The result is exactly what the grammar in
/// [`spec_parse`] gives.
pub fn parse(input: &str) -> (r: Result<SizeComparison, SizeParseError>)
    ensures
        r == spec_parse(input@),
{
    let len = input.unicode_len();
    let ghost s = input@;

    let mut plus: bool = false;
    let mut minus: bool = false;
    if len > 0 {
        let c0 = input.get_char(0);
        if c0 == '+' {
            plus = true;
        } else if c0 == '-' {
            minus = true;
        }
    }
    let start: usize = if plus || minus {
        1
    } else {
        0
    };
    let ghost rest = unsigned_part(s);
    proof {
        assert(rest =~= s.subrange(start as int, len as int));
    }

    let mut i: usize = start;
    let mut value: u64 = 0;
    let mut overflow: bool = false;
    loop
        invariant
            s == input@,
            start <= i <= len,
            len == s.len(),
            rest == s.subrange(start as int, len as int),
            start == 0 || start == 1,
            forall|j: int| start <= j < i ==> is_size_digit(s[j]),
            if overflow {
                digits_value(rest.subrange(0, i - start)) > u64::MAX
            } else {
                value == digits_value(rest.subrange(0, i - start))
            },
        ensures
            i == len || (i < len && !is_size_digit(s[i as int])),
        decreases len - i,
    {
        if i >= len {
            break;
        }
        let c = input.get_char(i);
        if !('0' <= c && c <= '9') {
            break;
        }
        let d: u64 = (c as u32 - '0' as u32) as u64;
        proof {
            let pre = rest.subrange(0, i - start);
            let post = rest.subrange(0, i + 1 - start);
            assert(post.drop_last() =~= pre);
            assert(post.last() == s[i as int]);
            if overflow {
                assert(forall|j: int| 0 <= j < pre.len() ==> is_size_digit(#[trigger] pre[j]));
                lemma_digits_value_nonneg(pre);
            }
        }
        if !overflow {
            let grown = value.checked_mul(10);
            match grown {
                Some(v10) => {
                    match v10.checked_add(d) {
                        Some(v) => {
                            value = v;
                        },
                        None => {
                            overflow = true;
                        },
                    }
                },
                None => {
                    overflow = true;
                },
            }
        }
        i = i + 1;
    }

    let ghost n_digits = i - start;
    proof {
        assert(forall|j: int| 0 <= j < n_digits ==> is_size_digit(#[trigger] rest[j]));
        if i < len {
            assert(rest[n_digits] == s[i as int]);
        }
        lemma_digit_prefix_len_is(rest, n_digits);
    }

    if i == start {
        return Err(SizeParseError::MissingDigits);
    }
    if overflow {
        return Err(SizeParseError::Overflow);
    }
    if i >= len {
        return Err(SizeParseError::InvalidUnit);
    }
    let unit = input.get_char(i);
    let size = match unit {
        'k' => Size::Kilobyte(value),
        'M' => Size::Megabyte(value),
        'G' => Size::Gigabyte(value),
        'T' => Size::Terabyte(value),
        'P' => Size::Petabyte(value),
        _ => {
            return Err(SizeParseError::InvalidUnit);
        },
    };
    if i + 1 < len {
        return Err(SizeParseError::TrailingInput);
    }
    if plus {
        Ok(SizeComparison::GreaterThan(size))
    } else if minus {
        Ok(SizeComparison::LessThan(size))
    } else {
        Ok(SizeComparison::EqualTo(size))
    }
}

/// Parse a size expression, with the failure rendered as text.
impl core::str::FromStr for SizeComparison {
    type Err = String;

    fn from_str(s: &str) -> Result<Self, String> {
        match parse(s) {
            Ok(c) => Ok(c),
            Err(e) => Err(e.message()),
        }
    }
}

} // verus!

