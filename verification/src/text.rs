//! Decimal and boolean text, in both directions.
//!
//! The settings of the program (environment variables, registry values) are
//! text; these functions read them as numbers and truth values the way
//! Rust's `FromStr` does, and write numbers and truth values as `Display` does.
use vstd::prelude::*;

verus! {

// ---------------------------------------------------------------------------
// Specification: writing
// ---------------------------------------------------------------------------

/// The decimal digit `d` (`0 <= d <= 9`) as a character.
pub open spec fn digit_char(d: int) -> char {
    if d == 0 {
        '0'
    } else if d == 1 {
        '1'
    } else if d == 2 {
        '2'
    } else if d == 3 {
        '3'
    } else if d == 4 {
        '4'
    } else if d == 5 {
        '5'
    } else if d == 6 {
        '6'
    } else if d == 7 {
        '7'
    } else if d == 8 {
        '8'
    } else {
        '9'
    }
}

/// The shortest decimal writing of `n`, most significant digit first.
pub open spec fn decimal(n: nat) -> Seq<char>
    decreases n,
{
    if n < 10 {
        seq![digit_char(n as int)]
    } else {
        decimal(n / 10).push(digit_char((n % 10) as int))
    }
}

/// How `Display` writes the integer `n`: a minus sign before the digits
/// of a negative number, no sign before the others.
pub open spec fn int_text(n: int) -> Seq<char> {
    if n < 0 {
        seq!['-'] + decimal((-n) as nat)
    } else {
        decimal(n as nat)
    }
}

/// The text `true`.
pub open spec fn true_text() -> Seq<char> {
    seq!['t', 'r', 'u', 'e']
}

/// The text `false`.
pub open spec fn false_text() -> Seq<char> {
    seq!['f', 'a', 'l', 's', 'e']
}

/// How `Display` writes the truth value `b`.
pub open spec fn bool_text(b: bool) -> Seq<char> {
    if b {
        true_text()
    } else {
        false_text()
    }
}

// ---------------------------------------------------------------------------
// Specification: reading
// ---------------------------------------------------------------------------

/// `c` is one of the ASCII digits `0` to `9`.
pub open spec fn is_digit(c: char) -> bool {
    '0' <= c && c <= '9'
}

/// Every character of `s` is an ASCII digit.
pub open spec fn all_digits(s: Seq<char>) -> bool {
    forall|i: int| 0 <= i < s.len() ==> is_digit(#[trigger] s[i])
}

/// The number that the digits `s` stand for, most significant first.
pub open spec fn digits_value(s: Seq<char>) -> int
    decreases s.len(),
{
    if s.len() == 0 {
        0
    } else {
        digits_value(s.drop_last()) * 10 + ((s.last() as int) - 48)
    }
}

/// `s` is a non-empty run of ASCII digits.
pub open spec fn is_numeral(s: Seq<char>) -> bool {
    s.len() > 0 && all_digits(s)
}

/// The number that `s` writes with an optional `+` before its digits
/// (the form that `FromStr` accepts for unsigned integers), before any range check.
pub open spec fn unsigned_text_value(s: Seq<char>) -> Option<int> {
    let body = if s.len() > 0 && s[0] == '+' {
        s.drop_first()
    } else {
        s
    };
    if is_numeral(body) {
        Some(digits_value(body))
    } else {
        None
    }
}

/// The number that `s` writes with an optional `+` or `-` before its digits
/// (the form that `FromStr` accepts for signed integers), before any range check.
pub open spec fn signed_text_value(s: Seq<char>) -> Option<int> {
    if s.len() > 0 && s[0] == '-' {
        if is_numeral(s.drop_first()) {
            Some(-digits_value(s.drop_first()))
        } else {
            None
        }
    } else {
        unsigned_text_value(s)
    }
}

/// What `u64::from_str` gives for `s`, with the error as `None`.
pub open spec fn u64_from_text(s: Seq<char>) -> Option<u64> {
    match unsigned_text_value(s) {
        Some(v) => if v <= u64::MAX {
            Some(v as u64)
        } else {
            None
        },
        None => None,
    }
}

/// What `i64::from_str` gives for `s`, with the error as `None`.
pub open spec fn i64_from_text(s: Seq<char>) -> Option<i64> {
    match signed_text_value(s) {
        Some(v) => if i64::MIN <= v <= i64::MAX {
            Some(v as i64)
        } else {
            None
        },
        None => None,
    }
}

/// What `i32::from_str` gives for `s`, with the error as `None`.
pub open spec fn i32_from_text(s: Seq<char>) -> Option<i32> {
    match signed_text_value(s) {
        Some(v) => if i32::MIN <= v <= i32::MAX {
            Some(v as i32)
        } else {
            None
        },
        None => None,
    }
}

/// What `bool::from_str` gives for `s`: only `true` and `false` are read.
pub open spec fn bool_from_text(s: Seq<char>) -> Option<bool> {
    if s == true_text() {
        Some(true)
    } else if s == false_text() {
        Some(false)
    } else {
        None
    }
}

// ---------------------------------------------------------------------------
// Lemmas
// ---------------------------------------------------------------------------

/// A run of digits stands for a number no smaller than zero.
pub proof fn lemma_digits_value_nonneg(s: Seq<char>)
    requires
        all_digits(s),
    ensures
        digits_value(s) >= 0,
    decreases s.len(),
{
    if s.len() > 0 {
        assert(all_digits(s.drop_last()));
        lemma_digits_value_nonneg(s.drop_last());
        assert(is_digit(s[s.len() - 1]));
    }
}

/// Appending a digit multiplies by ten and adds the digit.
proof fn lemma_digits_value_push(s: Seq<char>, c: char)
    ensures
        digits_value(s.push(c)) == digits_value(s) * 10 + ((c as int) - 48),
{
    assert(s.push(c).drop_last() =~= s);
}

/// Writing a truth value and reading it back gives the same truth value.
pub proof fn lemma_bool_text_round_trip(b: bool)
    ensures
        bool_from_text(bool_text(b)) == Some(b),
{
    assert(false_text() != true_text()) by {
        assert(false_text().len() != true_text().len());
    }
}

/// The only texts that read as a truth value are the two that write one.
pub proof fn lemma_bool_from_text_only_written(s: Seq<char>)
    requires
        bool_from_text(s) is Some,
    ensures
        s == bool_text(bool_from_text(s).unwrap()),
{
}

// ---------------------------------------------------------------------------
// Executable: writing
// ---------------------------------------------------------------------------

/// `String::push`: appends one character.
#[verifier::external_body]
fn push_char(s: &mut String, c: char)
    ensures
        final(s)@ == old(s)@.push(c),
{
    s.push(c);
}

fn digit_to_char(d: u64) -> (c: char)
    requires
        d < 10,
    ensures
        c == digit_char(d as int),
{
    if d == 0 {
        '0'
    } else if d == 1 {
        '1'
    } else if d == 2 {
        '2'
    } else if d == 3 {
        '3'
    } else if d == 4 {
        '4'
    } else if d == 5 {
        '5'
    } else if d == 6 {
        '6'
    } else if d == 7 {
        '7'
    } else if d == 8 {
        '8'
    } else {
        '9'
    }
}

fn push_decimal(s: &mut String, n: u64)
    ensures
        final(s)@ == old(s)@ + decimal(n as nat),
    decreases n,
{
    let ghost start = s@;
    if n >= 10 {
        push_decimal(s, n / 10);
    }
    let ghost mid = s@;
    push_char(s, digit_to_char(n % 10));
    proof {
        if n >= 10 {
            assert(s@ =~= start + decimal((n / 10) as nat).push(digit_char((n % 10) as int)));
        } else {
            assert(mid == start);
            assert(s@ =~= start + seq![digit_char(n as int)]);
        }
    }
}

/// Appends the decimal writing of `n` to `s`, as `write!(s, "{}", n)` does.
pub fn push_int(s: &mut String, n: i64)
    ensures
        final(s)@ == old(s)@ + int_text(n as int),
{
    if n < 0 {
        let ghost start = s@;
        push_char(s, '-');
        let magnitude: u64 = (0i128 - (n as i128)) as u64;
        push_decimal(s, magnitude);
        assert(s@ =~= start + int_text(n as int));
    } else {
        push_decimal(s, n as u64);
    }
}

/// `n.to_string()`.
pub fn int_to_string(n: i64) -> (r: String)
    ensures
        r@ == int_text(n as int),
{
    let mut s = String::new();
    push_int(&mut s, n);
    assert(s@ =~= int_text(n as int));
    s
}

/// `b.to_string()`: `true` or `false`.
pub fn bool_to_string(b: bool) -> (r: String)
    ensures
        r@ == bool_text(b),
{
    let mut s = String::new();
    if b {
        push_char(&mut s, 't');
        push_char(&mut s, 'r');
        push_char(&mut s, 'u');
        push_char(&mut s, 'e');
    } else {
        push_char(&mut s, 'f');
        push_char(&mut s, 'a');
        push_char(&mut s, 'l');
        push_char(&mut s, 's');
        push_char(&mut s, 'e');
    }
    assert(s@ =~= bool_text(b));
    s
}

// ---------------------------------------------------------------------------
// Executable: reading
// ---------------------------------------------------------------------------

/// Whether two texts are the same, character by character.
pub fn text_equal(a: &str, b: &str) -> (r: bool)
    ensures
        r == (a@ == b@),
{
    let n = a.unicode_len();
    let m = b.unicode_len();
    if n != m {
        return false;
    }
    let mut i: usize = 0;
    while i < n
        invariant
            n == a@.len(),
            m == b@.len(),
            n == m,
            i <= n,
            forall|j: int| 0 <= j < i ==> a@[j] == b@[j],
        decreases n - i,
    {
        if a.get_char(i) != b.get_char(i) {
            return false;
        }
        i += 1;
    }
    assert(a@ =~= b@);
    true
}

/// Reads the digits of `s` from position `start` to its end.
/// `None` when they are not a non-empty run of digits, or when their value
/// exceeds `u64::MAX`.
fn read_digits(s: &str, start: usize) -> (r: Option<u64>)
    requires
        start <= s@.len(),
    ensures
        ({
            let body = s@.subrange(start as int, s@.len() as int);
            match r {
                Some(v) => is_numeral(body) && v == digits_value(body),
                None => !is_numeral(body) || digits_value(body) > u64::MAX,
            }
        }),
{
    let len = s.unicode_len();
    if start == len {
        return None;
    }
    let mut acc: u64 = 0;
    let mut overflow = false;
    let mut i = start;
    assert(s@.subrange(start as int, start as int) =~= Seq::<char>::empty());
    while i < len
        invariant
            len == s@.len(),
            start < len,
            start <= i <= len,
            all_digits(s@.subrange(start as int, i as int)),
            !overflow ==> acc == digits_value(s@.subrange(start as int, i as int)),
            overflow ==> digits_value(s@.subrange(start as int, i as int)) > u64::MAX,
        decreases len - i,
    {
        let c = s.get_char(i);
        if c < '0' || c > '9' {
            proof {
                let body = s@.subrange(start as int, len as int);
                assert(body[i - start] == c);
            }
            return None;
        }
        let ghost prefix = s@.subrange(start as int, i as int);
        let ghost next = s@.subrange(start as int, i + 1);
        assert(next =~= prefix.push(c));
        proof {
            lemma_digits_value_push(prefix, c);
            lemma_digits_value_nonneg(prefix);
        }
        let d: u64 = (c as u32 - 48) as u64;
        if !overflow {
            match acc.checked_mul(10) {
                Some(m) => match m.checked_add(d) {
                    Some(v) => {
                        acc = v;
                    },
                    None => {
                        overflow = true;
                    },
                },
                None => {
                    overflow = true;
                },
            }
        }
        i += 1;
    }
    assert(s@.subrange(start as int, len as int) =~= s@.subrange(start as int, i as int));
    if overflow {
        None
    } else {
        Some(acc)
    }
}

/// `s.parse::<u64>().ok()`.
pub fn parse_u64(s: &str) -> (r: Option<u64>)
    ensures
        r == u64_from_text(s@),
        r matches Some(m) ==> unsigned_text_value(s@) == Some(m as int),
{
    let len = s.unicode_len();
    let start: usize = if len > 0 && s.get_char(0) == '+' {
        1
    } else {
        0
    };
    let r = read_digits(s, start);
    proof {
        if start == 1 {
            assert(s@.subrange(1, s@.len() as int) =~= s@.drop_first());
        } else {
            assert(s@.subrange(0, s@.len() as int) =~= s@);
        }
    }
    r
}

/// `s.parse::<i64>().ok()`.
pub fn parse_i64(s: &str) -> (r: Option<i64>)
    ensures
        r == i64_from_text(s@),
{
    let len = s.unicode_len();
    if len > 0 && s.get_char(0) == '-' {
        let r = read_digits(s, 1);
        assert(s@.subrange(1, s@.len() as int) =~= s@.drop_first());
        match r {
            Some(m) => {
                if m <= 0x8000_0000_0000_0000u64 {
                    let v: i64 = (0i128 - (m as i128)) as i64;
                    assert(signed_text_value(s@) == Some(-(m as int)));
                    Some(v)
                } else {
                    None
                }
            },
            None => {
                proof {
                    if is_numeral(s@.drop_first()) {
                        assert(signed_text_value(s@) == Some(-digits_value(s@.drop_first())));
                    }
                }
                None
            },
        }
    } else {
        assert(!(s@.len() > 0 && s@[0] == '-'));
        assert(signed_text_value(s@) == unsigned_text_value(s@));
        match parse_u64(s) {
            Some(m) => {
                if m <= 0x7fff_ffff_ffff_ffffu64 {
                    Some(m as i64)
                } else {
                    None
                }
            },
            None => {
                proof {
                    if let Some(v) = unsigned_text_value(s@) {
                        assert(v > u64::MAX);
                    }
                }
                None
            },
        }
    }
}

/// `s.parse::<i32>().ok()`.
pub fn parse_i32(s: &str) -> (r: Option<i32>)
    ensures
        r == i32_from_text(s@),
{
    match parse_i64(s) {
        Some(v) => {
            if -0x8000_0000i64 <= v && v <= 0x7fff_ffffi64 {
                Some(v as i32)
            } else {
                None
            }
        },
        None => None,
    }
}

/// `s.parse::<bool>().ok()`.
pub fn parse_bool(s: &str) -> (r: Option<bool>)
    ensures
        r == bool_from_text(s@),
{
    let t = bool_to_string(true);
    let f = bool_to_string(false);
    if text_equal(s, t.as_str()) {
        Some(true)
    } else if text_equal(s, f.as_str()) {
        Some(false)
    } else {
        None
    }
}

} // verus!
