//! How the host turns numbers into text and text into numbers.
use vstd::prelude::*;
use crate::env::Num;

verus! {

pub open spec fn is_digit(b: u8) -> bool {
    48 <= b <= 57
}

pub open spec fn all_digits(s: Seq<u8>) -> bool {
    forall|i: int| 0 <= i < s.len() ==> is_digit(#[trigger] s[i])
}

/// The value of a run of decimal digits.
pub open spec fn digits_value(s: Seq<u8>) -> int
    decreases s.len(),
{
    if s.len() == 0 {
        0
    } else {
        digits_value(s.drop_last()) * 10 + (s.last() - 48)
    }
}

pub open spec fn pow10(k: nat) -> int
    decreases k,
{
    if k == 0 {
        1
    } else {
        10 * pow10((k - 1) as nat)
    }
}

/// How the host reads text as a number: the empty text is zero; an optional
/// minus sign followed by one to eighteen decimal digits is that integer; any
/// other text is not a number.
pub open spec fn number_of_text(s: Seq<u8>) -> Num {
    if s.len() == 0 {
        Num::Int(0)
    } else if s[0] == 45 && 2 <= s.len() <= 19 && all_digits(s.skip(1)) {
        Num::Int((-digits_value(s.skip(1))) as i64)
    } else if s.len() <= 18 && all_digits(s) {
        Num::Int(digits_value(s) as i64)
    } else {
        Num::NaN
    }
}

/// The decimal digits of a natural number, most significant first.
pub open spec fn digits_of(n: nat) -> Seq<u8>
    decreases n,
{
    if n < 10 {
        seq![(48 + n) as u8]
    } else {
        digits_of(n / 10).push((48 + n % 10) as u8)
    }
}

/// The decimal text of an integer.
pub open spec fn decimal_of(n: int) -> Seq<u8> {
    if n < 0 {
        seq![45u8] + digits_of((-n) as nat)
    } else {
        digits_of(n as nat)
    }
}

proof fn lemma_digits_bound(s: Seq<u8>)
    requires
        all_digits(s),
    ensures
        0 <= digits_value(s) < pow10(s.len()),
    decreases s.len(),
{
    if s.len() > 0 {
        let p = s.drop_last();
        assert(all_digits(p)) by {
            assert forall|i: int| 0 <= i < p.len() implies is_digit(#[trigger] p[i]) by {
                assert(p[i] == s[i]);
            }
        }
        lemma_digits_bound(p);
        assert(is_digit(s[s.len() - 1]));
        let v = digits_value(p);
        let k = pow10(p.len());
        assert(pow10(s.len()) == 10 * k);
        assert(v * 10 + 9 < 10 * k) by (nonlinear_arith)
            requires
                0 <= v < k,
        ;
    }
}

/// Reads a run of one to eighteen digits.
fn read_digits(s: &[u8], start: usize) -> (r: i64)
    requires
        start < s@.len(),
        s@.len() - start <= 18,
        all_digits(s@.skip(start as int)),
    ensures
        r == digits_value(s@.skip(start as int)),
        r >= 0,
{
    let mut acc: i64 = 0;
    let mut i: usize = start;
    proof {
        lemma_digits_bound(s@.skip(start as int));
    }
    while i < s.len()
        invariant
            start <= i <= s@.len(),
            s@.len() - start <= 18,
            all_digits(s@.skip(start as int)),
            acc == digits_value(s@.subrange(start as int, i as int)),
            0 <= acc < pow10((i - start) as nat),
        decreases s@.len() - i,
    {
        let ghost prefix = s@.subrange(start as int, i as int);
        let ghost next = s@.subrange(start as int, i + 1);
        assert(next.drop_last() =~= prefix);
        assert(is_digit(s@.skip(start as int)[i - start]));
        let d = s[i] - 48;
        proof {
            assert(all_digits(next)) by {
                assert forall|j: int| 0 <= j < next.len() implies is_digit(#[trigger] next[j]) by {
                    assert(next[j] == s@.skip(start as int)[j]);
                }
            }
            lemma_digits_bound(next);
            assert(pow10((i + 1 - start) as nat) <= pow10(18)) by {
                lemma_pow10_mono((i + 1 - start) as nat, 18);
            }
            reveal_with_fuel(pow10, 19);
            assert(pow10(18) == 1000000000000000000);
        }
        acc = acc * 10 + d as i64;
        i = i + 1;
    }
    assert(s@.subrange(start as int, s@.len() as int) =~= s@.skip(start as int));
    acc
}

proof fn lemma_pow10_mono(a: nat, b: nat)
    requires
        a <= b,
    ensures
        pow10(a) <= pow10(b),
        pow10(a) >= 1,
    decreases b,
{
    if a < b {
        lemma_pow10_mono(a, (b - 1) as nat);
    } else if a > 0 {
        lemma_pow10_mono((a - 1) as nat, (a - 1) as nat);
    }
}

/// Reads text as a number, by the host's rule.
pub fn parse_number(s: &[u8]) -> (r: Num)
    ensures
        r == number_of_text(s@),
{
    let n = s.len();
    if n == 0 {
        return Num::Int(0);
    }
    if s[0] == 45 && n >= 2 && n <= 19 {
        if !all_digits_from(s, 1) {
            return Num::NaN;
        }
        let v = read_digits(s, 1);
        return Num::Int(-v);
    }
    if n <= 18 && all_digits_from(s, 0) {
        assert(s@.skip(0) =~= s@);
        let v = read_digits(s, 0);
        return Num::Int(v);
    }
    proof {
        if s@.len() <= 18 {
            assert(s@.skip(0) =~= s@);
        }
    }
    Num::NaN
}

fn all_digits_from(s: &[u8], start: usize) -> (r: bool)
    requires
        start <= s@.len(),
    ensures
        r == all_digits(s@.skip(start as int)),
{
    let mut i: usize = start;
    while i < s.len()
        invariant
            start <= i <= s@.len(),
            forall|j: int| start <= j < i ==> is_digit(#[trigger] s@[j]),
        decreases s@.len() - i,
    {
        if s[i] < 48 || s[i] > 57 {
            assert(s@.skip(start as int)[i - start] == s@[i as int]);
            return false;
        }
        i = i + 1;
    }
    assert forall|j: int| 0 <= j < s@.skip(start as int).len() implies is_digit(#[trigger] s@.skip(start as int)[j]) by {
        assert(s@.skip(start as int)[j] == s@[start + j]);
    }
    true
}

/// Writes an integer in decimal, as the host does.
pub fn format_int(n: i64) -> (r: Vec<u8>)
    ensures
        r@ == decimal_of(n as int),
{
    let mut rem: u64 = if n < 0 { (0i128 - n as i128) as u64 } else { n as u64 };
    let ghost m: nat = if n < 0 { (-n) as nat } else { n as nat };
    let mut out: Vec<u8> = Vec::new();
    while rem >= 10
        invariant
            digits_of(m) == digits_of(rem as nat) + out@,
        decreases rem,
    {
        let d = (rem % 10) as u8;
        let ghost before = out@;
        out.insert(0, 48 + d);
        proof {
            assert(digits_of(rem as nat) == digits_of((rem / 10) as nat).push((48 + rem % 10) as u8));
            assert(digits_of((rem / 10) as nat).push((48 + rem % 10) as u8) + before
                =~= digits_of((rem / 10) as nat) + out@);
        }
        rem = rem / 10;
    }
    out.insert(0, 48 + rem as u8);
    assert(digits_of(rem as nat) == seq![(48 + rem) as u8]);
    assert(digits_of(m) =~= out@);
    if n < 0 {
        out.insert(0, 45);
        assert(decimal_of(n as int) =~= out@);
    }
    out
}

} // verus!
