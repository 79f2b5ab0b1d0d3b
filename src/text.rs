//! Small verified string helpers: equality, decimal parsing and formatting.

use vstd::prelude::*;

verus! {

/// True when every character of `s` is an ASCII decimal digit.
pub open spec fn all_digits(s: Seq<char>) -> bool {
    forall|i: int| 0 <= i < s.len() ==> '0' <= #[trigger] s[i] && s[i] <= '9'
}

/// The numeric value of a character that is a decimal digit.
pub open spec fn digit_value(c: char) -> nat {
    (c as u32 - '0' as u32) as nat
}

/// The value of a string of decimal digits, most significant first.
pub open spec fn digits_value(s: Seq<char>) -> nat
    decreases s.len(),
{
    if s.len() == 0 {
        0
    } else {
        digits_value(s.drop_last()) * 10 + digit_value(s.last())
    }
}

/// The digits of an unsigned number in its textual form: a leading `+` is allowed.
pub open spec fn unsigned_body(s: Seq<char>) -> Seq<char> {
    if s.len() > 0 && s[0] == '+' {
        s.drop_first()
    } else {
        s
    }
}

/// What parsing `s` as an unsigned integer no larger than `max` gives.
pub open spec fn parse_unsigned(s: Seq<char>, max: nat) -> Option<nat> {
    let d = unsigned_body(s);
    if d.len() > 0 && all_digits(d) && digits_value(d) <= max {
        Some(digits_value(d))
    } else {
        None
    }
}

/// The character for a digit below ten.
pub open spec fn digit_char(d: nat) -> char {
    seq!['0', '1', '2', '3', '4', '5', '6', '7', '8', '9'][d as int]
}

/// The decimal form of `n`, without leading zeros.
pub open spec fn decimal_of(n: nat) -> Seq<char>
    decreases n,
{
    if n < 10 {
        seq![digit_char(n)]
    } else {
        decimal_of(n / 10).push(digit_char(n % 10))
    }
}

/// Character-wise equality of two strings.
pub fn str_eq(a: &str, b: &str) -> (r: bool)
    ensures
        r == (a@ == b@),
{
    let n = a.unicode_len();
    if n != b.unicode_len() {
        return false;
    }
    let mut i: usize = 0;
    while i < n
        invariant
            n == a@.len(),
            n == b@.len(),
            i <= n,
            forall|j: int| 0 <= j < i ==> a@[j] == b@[j],
        decreases n - i,
    {
        if a.get_char(i) != b.get_char(i) {
            return false;
        }
        i = i + 1;
    }
    assert(a@ =~= b@);
    true
}

proof fn lemma_digits_value_grows(s: Seq<char>, i: int)
    requires
        0 <= i <= s.len(),
    ensures
        digits_value(s.take(i)) <= digits_value(s),
    decreases s.len() - i,
{
    if i < s.len() {
        lemma_digits_value_grows(s, i + 1);
        assert(s.take(i + 1).drop_last() =~= s.take(i));
    } else {
        assert(s.take(i) =~= s);
    }
}

/// Parses `s` as an unsigned integer no larger than `max`, in the textual form
/// that std's integer parsing accepts for unsigned types.
pub fn parse_unsigned_max(s: &str, max: u64) -> (r: Option<u64>)
    ensures
        r matches Some(v) ==> parse_unsigned(s@, max as nat) == Some(v as nat),
        r is None ==> parse_unsigned(s@, max as nat) is None,
{
    let n = s.unicode_len();
    let mut i: usize = 0;
    if n > 0 && s.get_char(0) == '+' {
        i = 1;
    }
    let ghost body = unsigned_body(s@);
    let ghost start = i as int;
    assert(body =~= s@.subrange(start, n as int));
    if i == n {
        return None;
    }
    let mut acc: u64 = 0;
    while i < n
        invariant
            n == s@.len(),
            0 <= start <= i <= n,
            body.len() == n - start,
            body == unsigned_body(s@),
            body =~= s@.subrange(start, n as int),
            all_digits(body.take(i - start)),
            acc as nat == digits_value(body.take(i - start)),
            acc <= max,
        decreases n - i,
    {
        let c = s.get_char(i);
        assert(body[i - start] == c);
        if c < '0' || c > '9' {
            assert(!all_digits(body)) by {
                assert(!('0' <= body[i - start] && body[i - start] <= '9'));
            }
            return None;
        }
        let d: u64 = (c as u32 - '0' as u32) as u64;
        assert(body.take(i + 1 - start).drop_last() =~= body.take(i - start));
        assert(body.take(i + 1 - start).last() == c);
        if d > max || acc > (max - d) / 10 {
            assert(acc * 10 + d > max) by (nonlinear_arith)
                requires
                    d > max || acc > (max - d) / 10,
                    acc >= 0,
            ;
            proof {
                lemma_digits_value_grows(body, i + 1 - start);
            }
            return None;
        }
        assert(acc * 10 + d <= max) by (nonlinear_arith)
            requires
                acc <= (max - d) / 10,
                d <= max,
        ;
        acc = acc * 10 + d;
        i = i + 1;
    }
    assert(body.take(n - start) =~= body);
    Some(acc)
}

fn digit_str(d: u64) -> (r: &'static str)
    requires
        d < 10,
    ensures
        r@ == seq![digit_char(d as nat)],
{
    let digits: [&'static str; 10] = ["0", "1", "2", "3", "4", "5", "6", "7", "8", "9"];
    proof {
        reveal_strlit("0");
        reveal_strlit("1");
        reveal_strlit("2");
        reveal_strlit("3");
        reveal_strlit("4");
        reveal_strlit("5");
        reveal_strlit("6");
        reveal_strlit("7");
        reveal_strlit("8");
        reveal_strlit("9");
    }
    assert(forall|i: int| 0 <= i < 10 ==> #[trigger] digits@[i]@ =~= seq![digit_char(i as nat)]);
    digits[d as usize]
}

/// Appends the decimal form of `n` to `s`.
pub fn push_decimal(s: &mut String, n: u64)
    ensures
        final(s)@ == old(s)@ + decimal_of(n as nat),
    decreases n,
{
    if n >= 10 {
        push_decimal(s, n / 10);
    }
    s.append(digit_str(n % 10));
    proof {
        if n < 10 {
            assert(n as nat % 10 == n as nat);
        }
    }
    assert(s@ =~= old(s)@ + decimal_of(n as nat));
}

} // verus!
