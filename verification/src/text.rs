//! Decimal text for unsigned numbers: how a number is written into a level
//! file and how it is read back.

use vstd::prelude::*;

verus! {

/// Why a piece of text is not an unsigned 32-bit number.
#[derive(Debug, Copy, Clone, PartialEq, Eq, Structural)]
pub enum NumberError {
    /// The text holds no character at all.
    Empty,
    /// A character that is not a decimal digit was met (a lone `+` counts as one).
    InvalidDigit,
    /// The digits read so far already exceed `u32::MAX`.
    Overflow,
}

impl NumberError {
    /// The text of the error.
    pub open spec fn message_text(self) -> Seq<char> {
        match self {
            NumberError::Empty => "cannot parse integer from empty string"@,
            NumberError::InvalidDigit => "invalid digit found in string"@,
            NumberError::Overflow => "number too large to fit in target type"@,
        }
    }

    /// The error in words.
    pub fn message(&self) -> (s: String)
        ensures
            s@ == self.message_text(),
    {
        match self {
            NumberError::Empty => String::from_str("cannot parse integer from empty string"),
            NumberError::InvalidDigit => String::from_str("invalid digit found in string"),
            NumberError::Overflow => String::from_str("number too large to fit in target type"),
        }
    }
}

/// Whether `c` is one of the ten decimal digits.
pub open spec fn is_digit(c: char) -> bool {
    '0' <= c && c <= '9'
}

/// The number that the digit `c` stands for.
pub open spec fn digit_value(c: char) -> nat {
    (c as int - '0' as int) as nat
}

/// The digit that stands for the number `d`, which is below ten.
pub open spec fn digit_char(d: nat) -> char {
    ('0' as int + d) as char
}

/// Whether `s` holds decimal digits only.
pub open spec fn all_digits(s: Seq<char>) -> bool {
    forall|i: int| 0 <= i < s.len() ==> is_digit(#[trigger] s[i])
}

/// The number that a run of decimal digits denotes, most significant digit first.
pub open spec fn decimal_value(s: Seq<char>) -> nat
    decreases s.len(),
{
    if s.len() == 0 {
        0
    } else {
        10 * decimal_value(s.drop_last()) + digit_value(s.last())
    }
}

/// The shortest decimal text of `n`: no sign, no leading zero but for `0` itself.
pub open spec fn decimal_text(n: nat) -> Seq<char>
    decreases n,
{
    if n < 10 {
        seq![digit_char(n)]
    } else {
        decimal_text(n / 10).push(digit_char(n % 10))
    }
}

/// Some run of leading digits of `d` already denotes more than `u32::MAX`.
pub open spec fn overflows(d: Seq<char>) -> bool {
    exists|k: int|
        0 <= k <= d.len() && all_digits(#[trigger] d.take(k)) && decimal_value(d.take(k))
            > u32::MAX
}

/// What a non-empty run of characters after the optional sign reads as.
pub open spec fn parse_digits(d: Seq<char>) -> Result<u32, NumberError> {
    if overflows(d) {
        Err(NumberError::Overflow)
    } else if !all_digits(d) {
        Err(NumberError::InvalidDigit)
    } else {
        Ok(decimal_value(d) as u32)
    }
}

/// What a piece of text reads as: an optional `+`, then one or more decimal
/// digits whose value fits in 32 bits. Nothing else is a number.
pub open spec fn parse_number(s: Seq<char>) -> Result<u32, NumberError> {
    if s.len() == 0 {
        Err(NumberError::Empty)
    } else {
        let d = if s[0] == '+' {
            s.skip(1)
        } else {
            s
        };
        if d.len() == 0 {
            Err(NumberError::InvalidDigit)
        } else {
            parse_digits(d)
        }
    }
}

/// The value of a run of digits is at least the value of each of its prefixes.
pub proof fn lemma_decimal_value_prefix(s: Seq<char>, k: int)
    requires
        0 <= k <= s.len(),
    ensures
        decimal_value(s.take(k)) <= decimal_value(s),
    decreases s.len(),
{
    if k == s.len() {
        assert(s.take(k) =~= s);
    } else {
        assert(s.drop_last().take(k) =~= s.take(k));
        lemma_decimal_value_prefix(s.drop_last(), k);
    }
}

/// Reading one more digit multiplies by ten and adds the digit.
pub proof fn lemma_decimal_value_step(s: Seq<char>, k: int)
    requires
        0 <= k < s.len(),
    ensures
        decimal_value(s.take(k + 1)) == 10 * decimal_value(s.take(k)) + digit_value(s[k]),
{
    assert(s.take(k + 1).drop_last() =~= s.take(k));
    assert(s.take(k + 1).last() == s[k]);
}

/// The decimal text of a number is made of digits only, is not empty,
/// and denotes that number.
pub proof fn lemma_decimal_text_value(n: nat)
    ensures
        decimal_text(n).len() >= 1,
        all_digits(decimal_text(n)),
        decimal_value(decimal_text(n)) == n,
    decreases n,
{
    if n < 10 {
        let t = decimal_text(n);
        assert(t.len() == 1);
        assert(t[0] == digit_char(n));
        assert(t.drop_last() =~= Seq::<char>::empty());
        assert(decimal_value(t.drop_last()) == 0);
    } else {
        lemma_decimal_text_value(n / 10);
        let head = decimal_text(n / 10);
        let t = head.push(digit_char(n % 10));
        assert(t.drop_last() =~= head);
        assert(t.last() == digit_char(n % 10));
        assert forall|i: int| 0 <= i < t.len() implies is_digit(#[trigger] t[i]) by {
            if i < head.len() {
                assert(t[i] == head[i]);
            }
        }
    }
}

/// The decimal text of a number that fits in 32 bits reads back as that number.
pub proof fn lemma_parse_decimal_text(n: u32)
    ensures
        parse_number(decimal_text(n as nat)) == Ok::<u32, NumberError>(n),
{
    let t = decimal_text(n as nat);
    lemma_decimal_text_value(n as nat);
    assert(t[0] != '+');
    assert forall|k: int| 0 <= k <= t.len() implies decimal_value(#[trigger] t.take(k))
        <= u32::MAX by {
        lemma_decimal_value_prefix(t, k);
    }
}

fn digit_str(d: u64) -> (s: &'static str)
    requires
        d < 10,
    ensures
        s@ == seq![digit_char(d as nat)],
{
    proof {
        reveal_strlit("0");
        reveal_strlit("1");
        reveal_strlit("2");
        reveal_strlit("3");
        reveal_strlit("4");
        reveal_strlit("5");
        reveal_strlit("6");
        reveal_strlit("7");
        reveal_strlit("8");
        reveal_strlit("9");
    }
    let s = match d {
        0 => "0",
        1 => "1",
        2 => "2",
        3 => "3",
        4 => "4",
        5 => "5",
        6 => "6",
        7 => "7",
        8 => "8",
        _ => "9",
    };
    assert(s@ =~= seq![digit_char(d as nat)]);
    s
}

/// Appends the decimal text of `n` to `out`.
pub fn push_decimal(out: &mut String, n: u64)
    ensures
        final(out)@ == old(out)@ + decimal_text(n as nat),
    decreases n,
{
    if n >= 10 {
        push_decimal(out, n / 10);
    }
    out.append(digit_str(n % 10));
    proof {
        if n >= 10 {
            assert(old(out)@ + decimal_text((n / 10) as nat) + seq![digit_char((n % 10) as nat)]
                =~= old(out)@ + decimal_text(n as nat));
        }
    }
}

/// The characters of `s`, one by one.
pub fn chars_of(s: &str) -> (v: Vec<char>)
    ensures
        v@ == s@,
{
    let n = s.unicode_len();
    let mut v: Vec<char> = Vec::new();
    let mut i: usize = 0;
    while i < n
        invariant
            n == s@.len(),
            i <= n,
            v@ == s@.take(i as int),
        decreases n - i,
    {
        v.push(s.get_char(i));
        assert(s@.take(i as int).push(s@[i as int]) =~= s@.take(i + 1));
        i = i + 1;
    }
    assert(s@.take(n as int) =~= s@);
    v
}

/// Reads the characters of `v` from `from` up to `to` as an unsigned number.
pub fn parse_number_in(v: &Vec<char>, from: usize, to: usize) -> (r: Result<u32, NumberError>)
    requires
        from <= to <= v.len(),
    ensures
        r == parse_number(v@.subrange(from as int, to as int)),
{
    let ghost s = v@.subrange(from as int, to as int);
    if from == to {
        return Err(NumberError::Empty);
    }
    let start: usize = if v[from] == '+' {
        from + 1
    } else {
        from
    };
    let ghost d = v@.subrange(start as int, to as int);
    proof {
        assert(s[0] == v@[from as int]);
        if v@[from as int] == '+' {
            assert(s.skip(1) =~= d);
        } else {
            assert(s =~= d);
        }
    }
    if start == to {
        return Err(NumberError::InvalidDigit);
    }
    assert(parse_number(s) == parse_digits(d));
    let mut acc: u32 = 0;
    let mut i: usize = start;
    while i < to
        invariant
            start <= i <= to <= v.len(),
            d == v@.subrange(start as int, to as int),
            parse_number(v@.subrange(from as int, to as int)) == parse_digits(d),
            all_digits(d.take(i - start)),
            acc == decimal_value(d.take(i - start)),
        decreases to - i,
    {
        let c = v[i];
        let ghost k = i - start;
        assert(d[k] == c);
        if !(c >= '0' && c <= '9') {
            proof {
                assert(!all_digits(d));
                assert forall|j: int|
                    0 <= j <= d.len() && all_digits(#[trigger] d.take(j)) implies decimal_value(
                    d.take(j),
                ) <= u32::MAX by {
                    if j > k {
                        assert(d.take(j)[k] == d[k]);
                    } else {
                        assert(d.take(k).take(j) =~= d.take(j));
                        lemma_decimal_value_prefix(d.take(k), j);
                    }
                }
            }
            return Err(NumberError::InvalidDigit);
        }
        let digit: u32 = c as u32 - '0' as u32;
        proof {
            lemma_decimal_value_step(d, k);
            assert forall|j: int| 0 <= j < k + 1 implies is_digit(#[trigger] d.take(k + 1)[j]) by {
                if j < k {
                    assert(d.take(k)[j] == d[j]);
                }
            }
        }
        if acc > (u32::MAX - digit) / 10 {
            proof {
                assert(10 * acc + digit > u32::MAX);
                assert(all_digits(d.take(k + 1)));
            }
            return Err(NumberError::Overflow);
        }
        acc = acc * 10 + digit;
        i = i + 1;
    }
    proof {
        assert(d.take(to - start) =~= d);
        assert forall|j: int|
            0 <= j <= d.len() && all_digits(#[trigger] d.take(j)) implies decimal_value(d.take(j))
            <= u32::MAX by {
            lemma_decimal_value_prefix(d, j);
        }
    }
    Ok(acc)
}

/// Whether two pieces of text hold the same characters.
pub fn same_text(a: &str, b: &str) -> (r: bool)
    ensures
        r == (a@ == b@),
{
    let va = chars_of(a);
    let vb = chars_of(b);
    if va.len() != vb.len() {
        return false;
    }
    let mut i: usize = 0;
    while i < va.len()
        invariant
            i <= va.len(),
            va.len() == vb.len(),
            va@ == a@,
            vb@ == b@,
            va@.take(i as int) == vb@.take(i as int),
        decreases va.len() - i,
    {
        if va[i] != vb[i] {
            return false;
        }
        assert(va@.take(i + 1) =~= va@.take(i as int).push(va@[i as int]));
        assert(vb@.take(i + 1) =~= vb@.take(i as int).push(vb@[i as int]));
        i = i + 1;
    }
    assert(va@.take(va.len() as int) =~= va@);
    assert(vb@.take(vb.len() as int) =~= vb@);
    true
}

} // verus!
