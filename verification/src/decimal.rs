//! Numbers written in decimal, as process ids and ports appear on command
//! lines and in the output of system tools.

use vstd::prelude::*;

verus! {

/// The character of the decimal digit `d`, for `d` below 10.
pub open spec fn digit_char(d: nat) -> char {
    ((0x30 + d) as u8) as char
}

/// A character is a decimal digit, `0` to `9`.
pub open spec fn is_digit(c: char) -> bool {
    0x30 <= c as u32 <= 0x39
}

/// The number that a decimal digit stands for.
pub open spec fn digit_value(c: char) -> nat {
    (c as u32 - 0x30) as nat
}

/// The decimal digits of `n`, most significant first, without leading zeros.
pub open spec fn decimal(n: nat) -> Seq<char>
    decreases n,
{
    if n < 10 {
        seq![digit_char(n)]
    } else {
        decimal(n / 10).push(digit_char(n % 10))
    }
}

/// The number that a non-empty sequence of decimal digits stands for;
/// `None` for the empty sequence and for one that holds anything else.
pub open spec fn decimal_value(s: Seq<char>) -> Option<nat>
    decreases s.len(),
{
    if s.len() == 0 || !is_digit(s.last()) {
        None
    } else if s.len() == 1 {
        Some(digit_value(s.last()))
    } else {
        match decimal_value(s.drop_last()) {
            Some(v) => Some(v * 10 + digit_value(s.last())),
            None => None,
        }
    }
}

/// The 32-bit number that `s` stands for: decimal digits, with an optional
/// `+` before them, whose value fits. `None` for everything else.
pub open spec fn parsed_u32(s: Seq<char>) -> Option<u32> {
    let digits = if s.len() > 0 && s[0] == '+' {
        s.drop_first()
    } else {
        s
    };
    match decimal_value(digits) {
        Some(v) => if v <= u32::MAX {
            Some(v as u32)
        } else {
            None
        },
        None => None,
    }
}

/// Appends the decimal digits of `n` to `out`.
pub fn push_decimal(out: &mut Vec<char>, n: u64)
    ensures
        final(out)@ == old(out)@ + decimal(n as nat),
{
    let mut low: Vec<char> = Vec::new();
    let mut rest: u64 = n;
    while rest >= 10
        invariant
            decimal(n as nat) == decimal(rest as nat) + low@.reverse(),
        decreases rest,
    {
        let d: u8 = (rest % 10) as u8;
        let c: char = (0x30u8 + d) as char;
        assert(c == digit_char((rest % 10) as nat));
        assert(low@.push(c).reverse() =~= seq![c] + low@.reverse());
        assert(decimal(rest as nat) + low@.reverse() =~= decimal((rest / 10) as nat) + (seq![c]
            + low@.reverse()));
        low.push(c);
        rest = rest / 10;
    }
    let first: char = (0x30u8 + (rest as u8)) as char;
    assert(decimal(rest as nat) =~= seq![first]);
    out.push(first);
    let mut i: usize = low.len();
    while i > 0
        invariant
            i <= low.len(),
            out@ == old(out)@ + seq![first] + low@.reverse().take(low.len() - i),
        decreases i,
    {
        i -= 1;
        out.push(low[i]);
        assert(low@.reverse().take(low.len() - i) =~= low@.reverse().take(low.len() - i - 1).push(
            low@[i as int],
        ));
    }
    assert(low@.reverse().take(low.len() as int) =~= low@.reverse());
    assert(old(out)@ + seq![first] + low@.reverse() =~= old(out)@ + (seq![first]
        + low@.reverse()));
}

/// The decimal digits of `n`.
pub fn decimal_chars(n: u64) -> (out: Vec<char>)
    ensures
        out@ == decimal(n as nat),
{
    let mut out: Vec<char> = Vec::new();
    push_decimal(&mut out, n);
    out
}

/// Every non-empty prefix of a sequence of digits is one too, and stands for
/// no more than the whole.
pub proof fn lemma_decimal_value_prefix(s: Seq<char>, k: int)
    requires
        0 < k <= s.len(),
        decimal_value(s) is Some,
    ensures
        decimal_value(s.take(k)) is Some,
        decimal_value(s.take(k))->0 <= decimal_value(s)->0,
    decreases s.len(),
{
    if k == s.len() {
        assert(s.take(k) =~= s);
    } else {
        assert(s.drop_last().take(k) =~= s.take(k));
        lemma_decimal_value_prefix(s.drop_last(), k);
    }
}

/// The decimal digits of a number are digits, and stand for the number.
pub proof fn lemma_decimal_value_of_decimal(n: nat)
    ensures
        decimal(n).len() >= 1,
        forall|i: int| 0 <= i < decimal(n).len() ==> is_digit(#[trigger] decimal(n)[i]),
        decimal_value(decimal(n)) == Some(n),
    decreases n,
{
    if n >= 10 {
        let head = decimal(n / 10);
        lemma_decimal_value_of_decimal(n / 10);
        assert(decimal(n).drop_last() =~= head);
        assert(decimal(n).last() == digit_char(n % 10));
    }
}

/// A process id or port that was written in decimal is read back as
/// itself.
pub proof fn lemma_parse_reads_decimal(n: u32)
    ensures
        parsed_u32(decimal(n as nat)) == Some(n),
{
    lemma_decimal_value_of_decimal(n as nat);
    assert(is_digit(decimal(n as nat)[0]));
}

/// Reads the characters `v[lo..hi]` as a 32-bit number.
pub fn parse_u32(v: &Vec<char>, lo: usize, hi: usize) -> (r: Option<u32>)
    requires
        lo <= hi <= v.len(),
    ensures
        r == parsed_u32(v@.subrange(lo as int, hi as int)),
{
    let ghost whole = v@.subrange(lo as int, hi as int);
    let mut i: usize = lo;
    if i < hi && v[i] == '+' {
        assert(whole.drop_first() =~= v@.subrange(lo + 1, hi as int));
        i += 1;
    }
    let start: usize = i;
    let ghost digits = v@.subrange(start as int, hi as int);
    if start == hi {
        return None;
    }
    let mut acc: u64 = 0;
    while i < hi
        invariant
            start <= i <= hi <= v.len(),
            start < hi,
            lo <= start,
            digits == v@.subrange(start as int, hi as int),
            parsed_u32(v@.subrange(lo as int, hi as int)) == match decimal_value(digits) {
                Some(x) => if x <= u32::MAX {
                    Some(x as u32)
                } else {
                    None
                },
                None => None,
            },
            acc <= u32::MAX,
            i == start ==> acc == 0,
            i > start ==> decimal_value(digits.take(i - start)) == Some(acc as nat),
        decreases hi - i,
    {
        let n: u32 = v[i] as u32;
        let ghost upto = digits.take(i + 1 - start);
        assert(upto.last() == v@[i as int]);
        assert(upto.drop_last() =~= digits.take(i - start));
        if n < 0x30 || n > 0x39 {
            proof {
                if decimal_value(digits) is Some {
                    lemma_decimal_value_prefix(digits, i + 1 - start);
                }
            }
            return None;
        }
        acc = acc * 10 + (n - 0x30) as u64;
        if acc > u32::MAX as u64 {
            proof {
                if decimal_value(digits) is Some {
                    lemma_decimal_value_prefix(digits, i + 1 - start);
                }
            }
            return None;
        }
        i += 1;
    }
    assert(digits.take(hi - start) =~= digits);
    Some(acc as u32)
}

} // verus!
