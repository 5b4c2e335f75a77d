//! Decimal integers as `str::parse` reads them: an optional sign, then one
//! or more ASCII digits, and nothing else.
use vstd::prelude::*;
use vstd::string::*;

verus! {

/// Why a text is not an integer of the wanted type.
#[derive(PartialEq, Eq, Structural, Clone, Copy, Debug)]
pub enum IntErrorKind {
    Empty,
    InvalidDigit,
    PosOverflow,
    NegOverflow,
}

impl IntErrorKind {
    /// The description `ParseIntError` displays for this kind.
    pub fn message(&self) -> (r: &'static str)
        ensures
            r@ == int_error_message(*self),
    {
        match self {
            IntErrorKind::Empty => "cannot parse integer from empty string",
            IntErrorKind::InvalidDigit => "invalid digit found in string",
            IntErrorKind::PosOverflow => "number too large to fit in target type",
            IntErrorKind::NegOverflow => "number too small to fit in target type",
        }
    }
}

pub open spec fn int_error_message(k: IntErrorKind) -> Seq<char> {
    match k {
        IntErrorKind::Empty => "cannot parse integer from empty string"@,
        IntErrorKind::InvalidDigit => "invalid digit found in string"@,
        IntErrorKind::PosOverflow => "number too large to fit in target type"@,
        IntErrorKind::NegOverflow => "number too small to fit in target type"@,
    }
}

pub open spec fn is_digit(c: char) -> bool {
    '0' <= c && c <= '9'
}

pub open spec fn all_digits(s: Seq<char>) -> bool {
    forall|i: int| 0 <= i < s.len() ==> is_digit(#[trigger] s[i])
}

pub open spec fn digit_value(c: char) -> nat {
    (c as u32 - '0' as u32) as nat
}

/// The number that a run of digits denotes.
pub open spec fn digits_value(s: Seq<char>) -> nat
    decreases s.len(),
{
    if s.len() == 0 {
        0
    } else {
        digits_value(s.drop_last()) * 10 + digit_value(s.last())
    }
}

/// Whether `s` has a leading sign among those allowed.
pub open spec fn has_sign(s: Seq<char>, signed: bool) -> bool {
    s.len() > 0 && (s[0] == '+' || (signed && s[0] == '-'))
}

/// The digits part of `s`, after a leading sign if there is one.
pub open spec fn digits_part(s: Seq<char>, signed: bool) -> Seq<char> {
    if has_sign(s, signed) {
        s.drop_first()
    } else {
        s
    }
}

pub open spec fn is_negative(s: Seq<char>, signed: bool) -> bool {
    signed && s.len() > 0 && s[0] == '-'
}

/// Whether `s` has the shape of a decimal integer.
pub open spec fn well_formed(s: Seq<char>, signed: bool) -> bool {
    digits_part(s, signed).len() > 0 && all_digits(digits_part(s, signed))
}

/// The value of a well-formed `s`.
pub open spec fn int_value(s: Seq<char>, signed: bool) -> int {
    if is_negative(s, signed) {
        -(digits_value(digits_part(s, signed)) as int)
    } else {
        digits_value(digits_part(s, signed)) as int
    }
}

/// Reads digits left to right as `str::parse` does: the first character
/// that is not a digit, or the first digit that takes the value past
/// `limit`, ends the reading with that error.
pub open spec fn scan_digits(d: Seq<char>, limit: nat) -> Result<nat, IntErrorKind>
    decreases d.len(),
{
    if d.len() == 0 {
        Ok(0)
    } else {
        match scan_digits(d.drop_last(), limit) {
            Err(k) => Err(k),
            Ok(v) => if !is_digit(d.last()) {
                Err(IntErrorKind::InvalidDigit)
            } else if v * 10 + digit_value(d.last()) > limit {
                Err(IntErrorKind::PosOverflow)
            } else {
                Ok(v * 10 + digit_value(d.last()))
            },
        }
    }
}

/// What parsing `s` gives: the value, or the kind of error.
pub open spec fn parse_spec(s: Seq<char>, signed: bool, limit: nat) -> Result<int, IntErrorKind> {
    if s.len() == 0 {
        Err(IntErrorKind::Empty)
    } else if digits_part(s, signed).len() == 0 {
        Err(IntErrorKind::InvalidDigit)
    } else {
        match scan_digits(digits_part(s, signed), limit) {
            Ok(v) => Ok(if is_negative(s, signed) { -(v as int) } else { v as int }),
            Err(k) => Err(if k == IntErrorKind::PosOverflow && is_negative(s, signed) {
                IntErrorKind::NegOverflow
            } else {
                k
            }),
        }
    }
}

/// The largest magnitude an `i64` may have with the sign of `s`.
pub open spec fn i64_limit(s: Seq<char>) -> nat {
    if is_negative(s, true) {
        0x8000_0000_0000_0000
    } else {
        0x7fff_ffff_ffff_ffff
    }
}

/// What `usize::from_str` gives for `s`.
pub open spec fn usize_parse(s: Seq<char>) -> Result<int, IntErrorKind> {
    parse_spec(s, false, usize::MAX as nat)
}

/// What `i64::from_str` gives for `s`.
pub open spec fn i64_parse(s: Seq<char>) -> Result<int, IntErrorKind> {
    parse_spec(s, true, i64_limit(s))
}

proof fn lemma_digits_step(s: Seq<char>, i: int)
    requires
        0 <= i < s.len(),
    ensures
        digits_value(s.take(i + 1)) == digits_value(s.take(i)) * 10 + digit_value(s[i]),
{
    assert(s.take(i + 1).drop_last() =~= s.take(i));
}

proof fn lemma_scan_err_extends(d: Seq<char>, i: int, limit: nat)
    requires
        0 <= i <= d.len(),
    ensures
        scan_digits(d.take(i), limit) is Err ==> scan_digits(d, limit) == scan_digits(d.take(i), limit),
    decreases d.len() - i,
{
    if i < d.len() {
        assert(d.take(i + 1).drop_last() =~= d.take(i));
        lemma_scan_err_extends(d, i + 1, limit);
    } else {
        assert(d.take(i) =~= d);
    }
}

proof fn lemma_digits_monotone(s: Seq<char>, i: int, j: int)
    requires
        0 <= i <= j <= s.len(),
        all_digits(s),
    ensures
        digits_value(s.take(i)) <= digits_value(s.take(j)),
    decreases j - i,
{
    if i < j {
        lemma_digits_monotone(s, i, j - 1);
        lemma_digits_step(s, j - 1);
    }
}

/// Reads the digits of `s` from index `start` on, as a magnitude of at most
/// `limit`.
fn parse_magnitude(s: &str, start: usize, limit: u64, signed: bool) -> (r: Result<u64, IntErrorKind>)
    requires
        start <= s@.len(),
        start == (if has_sign(s@, signed) { 1int } else { 0 }),
        limit >= 9,
    ensures
        match r {
            Ok(m) => well_formed(s@, signed) && m as int == digits_value(digits_part(s@, signed))
                && m <= limit,
            Err(k) => !(well_formed(s@, signed) && digits_value(digits_part(s@, signed)) <= limit)
                && (k == IntErrorKind::Empty <==> s@.len() == 0),
        },
        match parse_spec(s@, signed, limit as nat) {
            Ok(v) => r matches Ok(m) && (if is_negative(s@, signed) { -(m as int) } else { m as int }) == v,
            Err(k) => r == Err::<u64, IntErrorKind>(k),
        },
{
    let n = s.unicode_len();
    let ghost d = digits_part(s@, signed);
    proof {
        assert(d =~= s@.skip(start as int));
        assert(d.take(0) =~= Seq::<char>::empty());
    }
    if n == 0 {
        return Err(IntErrorKind::Empty);
    }
    if start == n {
        return Err(IntErrorKind::InvalidDigit);
    }
    let mut v: u64 = 0;
    let mut i: usize = start;
    while i < n
        invariant
            n == s@.len(),
            start <= i <= n,
            d =~= s@.skip(start as int),
            d == digits_part(s@, signed),
            limit >= 9,
            start == (if has_sign(s@, signed) { 1int } else { 0 }),
            all_digits(d.take(i - start)),
            scan_digits(d.take(i - start), limit as nat) == Ok::<nat, IntErrorKind>(v as nat),
            v as int == digits_value(d.take(i - start)),
            v <= limit,
        decreases n - i,
    {
        let c = s.get_char(i);
        proof {
            assert(d[i - start] == c);
            assert(d.take(i - start + 1).drop_last() =~= d.take(i - start));
            assert(d.take(i - start + 1).last() == c);
            if i - start + 1 < d.len() {
                lemma_scan_err_extends(d, i - start + 1, limit as nat);
            } else {
                assert(d.take(i - start + 1) =~= d);
            }
        }
        if c < '0' || c > '9' {
            proof {
                assert(!is_digit(d[i - start]));
            }
            return Err(IntErrorKind::InvalidDigit);
        }
        let dv = (c as u32 - '0' as u32) as u64;
        assert(dv <= 9);
        proof {
            lemma_digits_step(d, i - start);
            assert(all_digits(d.take(i - start + 1))) by {
                assert forall|j: int| 0 <= j < d.take(i - start + 1).len() implies is_digit(
                    #[trigger] d.take(i - start + 1)[j],
                ) by {
                    if j < i - start {
                        assert(d.take(i - start)[j] == d.take(i - start + 1)[j]);
                    }
                };
            };
        }
        if v > (limit - dv) / 10 {
            proof {
                assert(v * 10 + dv > limit) by (nonlinear_arith)
                    requires
                        v > (limit - dv) / 10,
                        dv <= 9,
                        dv <= limit || true,
                ;
                if all_digits(d) {
                    lemma_digits_monotone(d, i - start + 1, d.len() as int);
                    assert(d.take(d.len() as int) =~= d);
                }
            }
            if signed && !(s.get_char(0) == '-') || !signed {
                return Err(IntErrorKind::PosOverflow);
            } else {
                return Err(IntErrorKind::NegOverflow);
            }
        }
        proof {
            assert(v * 10 + dv <= limit) by (nonlinear_arith)
                requires
                    v <= (limit - dv) / 10,
                    dv <= limit,
            ;
        }
        v = v * 10 + dv;
        i = i + 1;
    }
    proof {
        assert(d.take(i - start) =~= d);
    }
    Ok(v)
}

/// Parses an unsigned integer that fits in a `usize`.
pub fn parse_usize(s: &str) -> (r: Result<usize, IntErrorKind>)
    ensures
        match usize_parse(s@) {
            Ok(v) => r == Ok::<usize, IntErrorKind>(v as usize),
            Err(k) => r == Err::<usize, IntErrorKind>(k),
        },
        match r {
            Ok(n) => well_formed(s@, false) && n as int == int_value(s@, false),
            Err(k) => !(well_formed(s@, false) && int_value(s@, false) <= usize::MAX)
                && (k == IntErrorKind::Empty <==> s@.len() == 0),
        },
{
    let start: usize = if s.unicode_len() > 0 && s.get_char(0) == '+' {
        1
    } else {
        0
    };
    match parse_magnitude(s, start, usize::MAX as u64, false) {
        Ok(m) => Ok(m as usize),
        Err(k) => Err(k),
    }
}

/// Parses a signed integer that fits in an `i64`.
pub fn parse_i64(s: &str) -> (r: Result<i64, IntErrorKind>)
    ensures
        match i64_parse(s@) {
            Ok(v) => r == Ok::<i64, IntErrorKind>(v as i64),
            Err(k) => r == Err::<i64, IntErrorKind>(k),
        },
        match r {
            Ok(n) => well_formed(s@, true) && n as int == int_value(s@, true),
            Err(k) => !(well_formed(s@, true) && i64::MIN <= int_value(s@, true) <= i64::MAX)
                && (k == IntErrorKind::Empty <==> s@.len() == 0),
        },
{
    let len = s.unicode_len();
    let negative = len > 0 && s.get_char(0) == '-';
    let start: usize = if len > 0 && (s.get_char(0) == '+' || s.get_char(0) == '-') {
        1
    } else {
        0
    };
    let limit: u64 = if negative {
        0x8000_0000_0000_0000
    } else {
        0x7fff_ffff_ffff_ffff
    };
    match parse_magnitude(s, start, limit, true) {
        Ok(m) => {
            if negative {
                if m == 0x8000_0000_0000_0000 {
                    Ok(i64::MIN)
                } else {
                    Ok(-(m as i64))
                }
            } else {
                Ok(m as i64)
            }
        },
        Err(k) => Err(k),
    }
}

} // verus!
