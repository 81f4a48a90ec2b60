use vstd::prelude::*;
use vstd::string::*;

verus! {

/// Why a text is not a decimal `i32`.
#[derive(Debug, Clone, Copy, PartialEq, Eq, Structural)]
pub enum IntParseError {
    /// The text is empty.
    Empty,
    /// A character other than a digit stands where a digit is needed, or a
    /// sign stands alone.
    InvalidDigit,
    /// The digits denote a number above `i32::MAX`.
    PosOverflow,
    /// The digits, negated, denote a number below `i32::MIN`.
    NegOverflow,
}

impl IntParseError {
    /// What is wrong, in words.
    pub open spec fn message_text(self) -> Seq<char> {
        match self {
            IntParseError::Empty => "cannot parse integer from empty string"@,
            IntParseError::InvalidDigit => "invalid digit found in string"@,
            IntParseError::PosOverflow => "number too large to fit in target type"@,
            IntParseError::NegOverflow => "number too small to fit in target type"@,
        }
    }

    /// What is wrong, in words.
    pub fn message(self) -> (text: &'static str)
        ensures
            text@ == self.message_text(),
    {
        match self {
            IntParseError::Empty => "cannot parse integer from empty string",
            IntParseError::InvalidDigit => "invalid digit found in string",
            IntParseError::PosOverflow => "number too large to fit in target type",
            IntParseError::NegOverflow => "number too small to fit in target type",
        }
    }
}

pub open spec fn is_digit(c: char) -> bool {
    '0' <= c && c <= '9'
}

pub open spec fn digit_of(c: char) -> nat {
    (c as u32 - '0' as u32) as nat
}

/// The number that a run of digits denotes; the empty run denotes zero.
pub open spec fn digits_value(s: Seq<char>) -> nat
    decreases s.len(),
{
    if s.len() == 0 {
        0
    } else {
        digits_value(s.drop_last()) * 10 + digit_of(s.last())
    }
}

/// Length of the longest prefix of `s` made of digits only.
pub open spec fn digit_run(s: Seq<char>) -> nat
    decreases s.len(),
{
    if s.len() == 0 || !is_digit(s[0]) {
        0
    } else {
        1 + digit_run(s.skip(1))
    }
}

/// Whether the text starts with a minus sign.
pub open spec fn is_negative(s: Seq<char>) -> bool {
    s.len() > 0 && s[0] == '-'
}

/// The text without its leading sign, if it has one.
pub open spec fn unsigned_part(s: Seq<char>) -> Seq<char> {
    if s.len() > 0 && (s[0] == '-' || s[0] == '+') {
        s.skip(1)
    } else {
        s
    }
}

/// What reading `s` as a decimal `i32` gives: an optional `+` or `-`, then
/// one or more digits and nothing else. Digits that leave the range before
/// the first foreign character are reported as an overflow.
pub open spec fn parse_i32_spec(s: Seq<char>) -> Result<int, IntParseError> {
    let body = unsigned_part(s);
    let run = digit_run(body);
    let magnitude = digits_value(body.subrange(0, run as int));
    if s.len() == 0 {
        Err(IntParseError::Empty)
    } else if body.len() == 0 {
        Err(IntParseError::InvalidDigit)
    } else if is_negative(s) && magnitude > 0x8000_0000 {
        Err(IntParseError::NegOverflow)
    } else if !is_negative(s) && magnitude > 0x7fff_ffff {
        Err(IntParseError::PosOverflow)
    } else if run < body.len() {
        Err(IntParseError::InvalidDigit)
    } else if is_negative(s) {
        Ok(-(magnitude as int))
    } else {
        Ok(magnitude as int)
    }
}

/// A digit run's value never shrinks when the run is extended.
pub proof fn lemma_digits_value_grows(s: Seq<char>, i: int, j: int)
    requires
        0 <= i <= j <= s.len(),
    ensures
        digits_value(s.subrange(0, i)) <= digits_value(s.subrange(0, j)),
    decreases j - i,
{
    if i < j {
        lemma_digits_value_grows(s, i, j - 1);
        assert(s.subrange(0, j).drop_last() =~= s.subrange(0, j - 1));
    }
}

/// The digit run covers exactly the leading digits.
pub proof fn lemma_digit_run(s: Seq<char>)
    ensures
        digit_run(s) <= s.len(),
        forall|k: int| 0 <= k < digit_run(s) ==> is_digit(#[trigger] s[k]),
        digit_run(s) < s.len() ==> !is_digit(s[digit_run(s) as int]),
    decreases s.len(),
{
    if s.len() > 0 && is_digit(s[0]) {
        let rest = s.skip(1);
        lemma_digit_run(rest);
        assert forall|k: int| 0 <= k < digit_run(s) implies is_digit(#[trigger] s[k]) by {
            if k > 0 {
                assert(s[k] == rest[k - 1]);
            }
        }
        if digit_run(s) < s.len() {
            assert(s[digit_run(s) as int] == rest[digit_run(rest) as int]);
        }
    }
}

/// A prefix of digits followed by the end or by a foreign character is the
/// digit run.
pub proof fn lemma_digit_run_is(s: Seq<char>, n: int)
    requires
        0 <= n <= s.len(),
        forall|k: int| 0 <= k < n ==> is_digit(#[trigger] s[k]),
        n < s.len() ==> !is_digit(s[n]),
    ensures
        digit_run(s) == n,
{
    lemma_digit_run(s);
    let r = digit_run(s) as int;
    if r < n {
        assert(is_digit(s[r]));
    } else if r > n {
        assert(is_digit(s[n]));
    }
}

/// The first `n` characters of `s` are digits.
pub open spec fn digits_upto(s: Seq<char>, n: int) -> bool {
    forall|k: int| 0 <= k < n ==> is_digit(#[trigger] s[k])
}

/// Reads `chars`, from position `from` on, as a decimal `i32`.
pub fn parse_i32_from(chars: &Vec<char>, from: usize) -> (parsed: Result<i32, IntParseError>)
    requires
        from <= chars@.len(),
    ensures
        match parsed {
            Ok(v) => parse_i32_spec(chars@.skip(from as int)) == Ok::<int, IntParseError>(v as int),
            Err(e) => parse_i32_spec(chars@.skip(from as int)) == Err::<int, IntParseError>(e),
        },
{
    let ghost s = chars@.skip(from as int);
    let n = chars.len();
    if from == n {
        return Err(IntParseError::Empty);
    }
    let first = chars[from];
    assert(s[0] == first);
    let negative = first == '-';
    let start: usize = if first == '-' || first == '+' {
        from + 1
    } else {
        from
    };
    let ghost body = unsigned_part(s);
    assert(body =~= chars@.skip(start as int));
    if start == n {
        return Err(IntParseError::InvalidDigit);
    }
    let limit: u64 = if negative {
        0x8000_0000
    } else {
        0x7fff_ffff
    };
    let mut acc: u64 = 0;
    let mut i: usize = start;
    while i < n
        invariant
            start <= i <= n,
            n == chars@.len(),
            s == chars@.skip(from as int),
            s.len() > 0,
            body == unsigned_part(s),
            body == chars@.skip(start as int),
            body.len() > 0,
            negative == is_negative(s),
            limit == if negative { 0x8000_0000u64 } else { 0x7fff_ffffu64 },
            digits_upto(body, i - start),
            acc == digits_value(body.subrange(0, i - start)),
            acc <= limit <= 0x8000_0000,
        decreases n - i,
    {
        let c = chars[i];
        assert(body[i - start] == c);
        if !(c >= '0' && c <= '9') {
            proof {
                lemma_digit_run_is(body, i - start);
            }
            return Err(IntParseError::InvalidDigit);
        }
        let d: u64 = (c as u32 - '0' as u32) as u64;
        let next: u64 = acc * 10 + d;
        proof {
            assert(body.subrange(0, i - start + 1).drop_last() =~= body.subrange(0, i - start));
            assert(next == digits_value(body.subrange(0, i - start + 1)));
        }
        if next > limit {
            proof {
                lemma_digit_run(body);
                let run = digit_run(body) as int;
                if run <= i - start {
                    assert(is_digit(body[run]));
                }
                lemma_digits_value_grows(body, i - start + 1, run);
            }
            return Err(
                if negative {
                    IntParseError::NegOverflow
                } else {
                    IntParseError::PosOverflow
                },
            );
        }
        acc = next;
        i = i + 1;
    }
    proof {
        lemma_digit_run_is(body, n - start);
        assert(body.subrange(0, n - start) =~= body);
    }
    if negative {
        if acc == 0x8000_0000 {
            Ok(i32::MIN)
        } else {
            Ok(-(acc as i32))
        }
    } else {
        Ok(acc as i32)
    }
}

/// The text without a leading plus sign, if it has one.
pub open spec fn without_plus(s: Seq<char>) -> Seq<char> {
    if s.len() > 0 && s[0] == '+' {
        s.skip(1)
    } else {
        s
    }
}

/// What reading `s` as a decimal `u64` gives: an optional `+`, then one or
/// more digits and nothing else, denoting a number that a `u64` holds.
pub open spec fn parse_u64_spec(s: Seq<char>) -> Option<int> {
    let body = without_plus(s);
    if body.len() > 0 && digits_upto(body, body.len() as int) && digits_value(body) <= u64::MAX {
        Some(digits_value(body) as int)
    } else {
        None
    }
}

/// Reads the characters of `chars` from `from` up to `to` as a decimal `u64`.
pub fn parse_u64_range(chars: &Vec<char>, from: usize, to: usize) -> (parsed: Option<u64>)
    requires
        from <= to <= chars@.len(),
    ensures
        match parsed {
            Some(v) => parse_u64_spec(chars@.subrange(from as int, to as int)) == Some(v as int),
            None => parse_u64_spec(chars@.subrange(from as int, to as int)) is None,
        },
{
    let ghost s = chars@.subrange(from as int, to as int);
    if from == to {
        return None;
    }
    assert(s[0] == chars@[from as int]);
    let start: usize = if chars[from] == '+' {
        from + 1
    } else {
        from
    };
    let ghost body = without_plus(s);
    assert(body =~= chars@.subrange(start as int, to as int));
    if start == to {
        return None;
    }
    let mut acc: u128 = 0;
    let mut i: usize = start;
    while i < to
        invariant
            start <= i <= to <= chars@.len(),
            s == chars@.subrange(from as int, to as int),
            body == without_plus(s),
            body == chars@.subrange(start as int, to as int),
            body.len() > 0,
            digits_upto(body, i - start),
            acc == digits_value(body.subrange(0, i - start)),
            acc <= u64::MAX,
        decreases to - i,
    {
        let c = chars[i];
        assert(body[i - start] == c);
        if !(c >= '0' && c <= '9') {
            return None;
        }
        let d: u128 = (c as u32 - '0' as u32) as u128;
        let next: u128 = acc * 10 + d;
        proof {
            assert(body.subrange(0, i - start + 1).drop_last() =~= body.subrange(0, i - start));
        }
        if next > u64::MAX as u128 {
            proof {
                if digits_upto(body, body.len() as int) {
                    lemma_digits_value_grows(body, i - start + 1, body.len() as int);
                    assert(body.subrange(0, body.len() as int) =~= body);
                }
            }
            return None;
        }
        acc = next;
        i = i + 1;
    }
    proof {
        assert(body.subrange(0, to - start) =~= body);
    }
    Some(acc as u64)
}

/// The character that writes the digit `d`.
pub open spec fn digit_char(d: nat) -> char {
    if d == 0 {
        '0'
    } else if d == 1 {
        '1'
    } else if d == 2 {
        '2'
    } else if d == 3 {
        '3'
    } else if d == 4 {
        '4'
    } else if d == 5 {
        '5'
    } else if d == 6 {
        '6'
    } else if d == 7 {
        '7'
    } else if d == 8 {
        '8'
    } else {
        '9'
    }
}

/// The decimal writing of `n`, without leading zeros.
pub open spec fn decimal_text(n: nat) -> Seq<char>
    decreases n,
{
    if n < 10 {
        seq![digit_char(n)]
    } else {
        decimal_text(n / 10).push(digit_char(n % 10))
    }
}

/// The decimal writing of a signed number: a minus sign before a negative one.
pub open spec fn signed_decimal_text(n: int) -> Seq<char> {
    if n < 0 {
        seq!['-'] + decimal_text((-n) as nat)
    } else {
        decimal_text(n as nat)
    }
}

fn digit_str(d: u64) -> (text: &'static str)
    requires
        d < 10,
    ensures
        text@ == seq![digit_char(d as nat)],
{
    proof {
        reveal_strlit("0");
        reveal_strlit("1");
        reveal_strlit("2");
        reveal_strlit("3");
        reveal_strlit("4");
        reveal_strlit("5");
        reveal_strlit("6");
        reveal_strlit("7");
        reveal_strlit("8");
        reveal_strlit("9");
    }
    let text = if d == 0 {
        "0"
    } else if d == 1 {
        "1"
    } else if d == 2 {
        "2"
    } else if d == 3 {
        "3"
    } else if d == 4 {
        "4"
    } else if d == 5 {
        "5"
    } else if d == 6 {
        "6"
    } else if d == 7 {
        "7"
    } else if d == 8 {
        "8"
    } else {
        "9"
    };
    assert(text@ =~= seq![digit_char(d as nat)]);
    text
}

/// Appends the decimal writing of `n` to `out`.
pub fn push_decimal(out: &mut String, n: u64)
    ensures
        final(out)@ == old(out)@ + decimal_text(n as nat),
    decreases n,
{
    if n >= 10 {
        push_decimal(out, n / 10);
    }
    out.append(digit_str(n % 10));
    assert(final(out)@ =~= old(out)@ + decimal_text(n as nat)) by {
        if n >= 10 {
            assert(decimal_text(n as nat) == decimal_text((n / 10) as nat).push(
                digit_char((n % 10) as nat),
            ));
        }
    }
}

/// Appends the decimal writing of the signed number `n` to `out`.
pub fn push_signed_decimal(out: &mut String, n: i64)
    ensures
        final(out)@ == old(out)@ + signed_decimal_text(n as int),
{
    if n < 0 {
        proof {
            reveal_strlit("-");
        }
        out.append("-");
        let magnitude: u64 = if n == i64::MIN {
            0x8000_0000_0000_0000
        } else {
            (-n) as u64
        };
        push_decimal(out, magnitude);
        assert(final(out)@ =~= old(out)@ + signed_decimal_text(n as int));
    } else {
        push_decimal(out, n as u64);
    }
}

/// The decimal writing of a number is made of digits, at least one, and
/// denotes the number.
pub proof fn lemma_decimal_text_denotes(n: nat)
    ensures
        decimal_text(n).len() >= 1,
        digits_upto(decimal_text(n), decimal_text(n).len() as int),
        digits_value(decimal_text(n)) == n,
    decreases n,
{
    let d = n % 10;
    assert(is_digit(digit_char(d)) && digit_of(digit_char(d)) == d);
    if n < 10 {
        let s = seq![digit_char(n)];
        assert(s.drop_last() =~= Seq::<char>::empty());
        assert(digits_value(s.drop_last()) == 0);
    } else {
        lemma_decimal_text_denotes(n / 10);
        let head = decimal_text(n / 10);
        let s = head.push(digit_char(d));
        assert(s.drop_last() =~= head);
        assert forall|k: int| 0 <= k < s.len() implies is_digit(#[trigger] s[k]) by {
            if k < head.len() {
                assert(s[k] == head[k]);
            }
        }
    }
}

/// What is written is read back: the decimal writing of a number that an
/// `i32` holds is read as that number.
pub proof fn lemma_written_number_is_read_back(n: int)
    requires
        i32::MIN <= n <= i32::MAX,
    ensures
        parse_i32_spec(signed_decimal_text(n)) == Ok::<int, IntParseError>(n),
{
    let magnitude = if n < 0 {
        (-n) as nat
    } else {
        n as nat
    };
    lemma_decimal_text_denotes(magnitude);
    let digits = decimal_text(magnitude);
    let s = signed_decimal_text(n);
    assert(is_digit(digits[0]));
    if n < 0 {
        assert(s[0] == '-');
        assert(s.skip(1) =~= digits);
    } else {
        assert(s == digits);
    }
    let body = unsigned_part(s);
    assert(body == digits);
    lemma_digit_run_is(body, body.len() as int);
    assert(body.subrange(0, body.len() as int) =~= body);
}

} // verus!
