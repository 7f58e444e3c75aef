//! Small verified helpers on strings, seen as sequences of characters.

use vstd::prelude::*;
use vstd::string::StrSliceExecFns;

verus! {

/// The characters of a string, in order.
pub fn chars_of(s: &str) -> (r: Vec<char>)
    ensures
        r@ == s@,
{
    let mut r: Vec<char> = Vec::new();
    for c in it: s.chars()
        invariant
            r@ == it.seq().take(it.index() as int),
            it.seq() == s@,
    {
        r.push(c);
        assert(it.seq().take(it.index() + 1) =~= it.seq().take(it.index() as int).push(c));
    }
    assert(r@ =~= s@);
    r
}

/// Whether two strings hold the same characters.
pub fn str_equal(a: &str, b: &str) -> (r: bool)
    ensures
        r == (a@ == b@),
{
    let x = chars_of(a);
    let y = chars_of(b);
    if x.len() != y.len() {
        return false;
    }
    let mut i: usize = 0;
    while i < x.len()
        invariant
            i <= x.len(),
            x.len() == y.len(),
            x@ == a@,
            y@ == b@,
            forall|k: int| 0 <= k < i ==> x@[k] == y@[k],
        decreases x.len() - i,
    {
        if x[i] != y[i] {
            return false;
        }
        i += 1;
    }
    assert(x@ =~= y@);
    true
}

/// The character of a decimal digit.
pub open spec fn digit_char(d: int) -> char {
    if d == 0 {
        '0'
    } else if d == 1 {
        '1'
    } else if d == 2 {
        '2'
    } else if d == 3 {
        '3'
    } else if d == 4 {
        '4'
    } else if d == 5 {
        '5'
    } else if d == 6 {
        '6'
    } else if d == 7 {
        '7'
    } else if d == 8 {
        '8'
    } else {
        '9'
    }
}

/// The decimal digits of a natural number, without leading zeros.
pub open spec fn digits(n: nat) -> Seq<char>
    decreases n,
{
    if n < 10 {
        seq![digit_char(n as int)]
    } else {
        digits(n / 10).push(digit_char((n % 10) as int))
    }
}

/// An integer in decimal, with a `-` in front where it is negative.
pub open spec fn decimal(n: int) -> Seq<char> {
    if n < 0 {
        seq!['-'] + digits((-n) as nat)
    } else {
        digits(n as nat)
    }
}

/// The text of one decimal digit.
fn digit_text(d: u64) -> (r: &'static str)
    requires
        d < 10,
    ensures
        r@ == seq![digit_char(d as int)],
{
    proof {
        reveal_strlit("0");
        reveal_strlit("1");
        reveal_strlit("2");
        reveal_strlit("3");
        reveal_strlit("4");
        reveal_strlit("5");
        reveal_strlit("6");
        reveal_strlit("7");
        reveal_strlit("8");
        reveal_strlit("9");
    }
    let r = if d == 0 {
        "0"
    } else if d == 1 {
        "1"
    } else if d == 2 {
        "2"
    } else if d == 3 {
        "3"
    } else if d == 4 {
        "4"
    } else if d == 5 {
        "5"
    } else if d == 6 {
        "6"
    } else if d == 7 {
        "7"
    } else if d == 8 {
        "8"
    } else {
        "9"
    };
    assert(r@ =~= seq![digit_char(d as int)]);
    r
}

/// A natural number in decimal.
pub fn digits_string(n: u64) -> (r: String)
    ensures
        r@ == digits(n as nat),
{
    let mut rest: u64 = n / 10;
    let mut r: String = digit_text(n % 10).to_owned();
    let ghost mut low: Seq<char> = r@;
    while rest > 0
        invariant
            r@ == low,
            low.len() > 0,
            digits(n as nat) == if rest == 0 {
                low
            } else {
                digits(rest as nat) + low
            },
        decreases rest,
    {
        let d = digit_text(rest % 10);
        let next = rest / 10;
        proof {
            if next == 0 {
                assert(digits(rest as nat) =~= d@);
            } else {
                assert(digits(rest as nat) =~= digits(next as nat) + d@);
            }
            assert((digits(next as nat) + d@) + low =~= digits(next as nat) + (d@ + low));
            low = d@ + low;
        }
        r = d.to_owned().concat(r.as_str());
        rest = next;
    }
    r
}

/// An integer in decimal.
pub fn decimal_string(n: i64) -> (r: String)
    ensures
        r@ == decimal(n as int),
{
    if n < 0 {
        let magnitude: u64 = ((-(n + 1)) as u64) + 1;
        proof {
            reveal_strlit("-");
        }
        let r = "-".to_owned().concat(digits_string(magnitude).as_str());
        assert(r@ =~= decimal(n as int)) by {
            assert("-"@ =~= seq!['-']);
        }
        r
    } else {
        digits_string(n as u64)
    }
}

/// The number that a text of decimal digits denotes, read from the left with
/// `acc` as what was read before; `None` where a character is no digit.
pub open spec fn digits_value(s: Seq<char>, acc: nat) -> Option<nat>
    decreases s.len(),
{
    if s.len() == 0 {
        Some(acc)
    } else if '0' <= s[0] && s[0] <= '9' {
        digits_value(s.drop_first(), acc * 10 + (s[0] as nat - '0' as nat) as nat)
    } else {
        None
    }
}

/// The number that a text denotes as an unsigned decimal: one or more
/// digits, after at most one `+`.
pub open spec fn unsigned_value(s: Seq<char>) -> Option<nat> {
    let body = if s.len() > 0 && s[0] == '+' {
        s.drop_first()
    } else {
        s
    };
    if body.len() == 0 {
        None
    } else {
        digits_value(body, 0)
    }
}

/// What is read grows with what was read before.
proof fn lemma_digits_value_monotone(s: Seq<char>, a: nat, b: nat)
    requires
        a <= b,
        digits_value(s, a) is Some,
    ensures
        digits_value(s, b) is Some,
        digits_value(s, a).unwrap() <= digits_value(s, b).unwrap(),
        a <= digits_value(s, a).unwrap(),
    decreases s.len(),
{
    if s.len() > 0 {
        let d = (s[0] as nat - '0' as nat) as nat;
        lemma_digits_value_monotone(s.drop_first(), a * 10 + d, b * 10 + d);
    }
}

/// Reads an unsigned decimal of at most 32 bits: `None` where the text is no
/// unsigned decimal or denotes more than `u32::MAX`.
pub fn parse_u32(s: &str) -> (r: Option<u32>)
    ensures
        r == (match unsigned_value(s@) {
            Some(n) => if n <= u32::MAX {
                Some(n as u32)
            } else {
                None
            },
            None => None,
        }),
{
    let v = chars_of(s);
    let start: usize = if v.len() > 0 && v[0] == '+' {
        1
    } else {
        0
    };
    if start == v.len() {
        return None;
    }
    let ghost body = v@.skip(start as int);
    assert(body =~= if s@.len() > 0 && s@[0] == '+' {
        s@.drop_first()
    } else {
        s@
    });
    assert(unsigned_value(s@) == digits_value(body, 0));
    let mut acc: u64 = 0;
    let mut i: usize = start;
    while i < v.len()
        invariant
            start <= i <= v.len(),
            acc <= u32::MAX,
            unsigned_value(s@) == digits_value(v@.skip(i as int), acc as nat),
        decreases v.len() - i,
    {
        let c = v[i];
        let ghost tail = v@.skip(i as int);
        assert(tail[0] == c);
        assert(tail.drop_first() =~= v@.skip(i + 1));
        if !('0' <= c && c <= '9') {
            return None;
        }
        let d: u64 = (c as u64) - ('0' as u64);
        let next: u64 = acc * 10 + d;
        if next > 0xffff_ffff {
            proof {
                if digits_value(v@.skip(i + 1), next as nat) is Some {
                    lemma_digits_value_monotone(v@.skip(i + 1), next as nat, next as nat);
                }
            }
            return None;
        }
        acc = next;
        i += 1;
    }
    assert(v@.skip(i as int).len() == 0);
    Some(acc as u32)
}

} // verus!
