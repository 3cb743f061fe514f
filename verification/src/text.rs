//! Small verified string helpers.
use vstd::prelude::*;
use vstd::utf8::{encode_utf8, encode_utf8_decode_utf8};

verus! {

/// Whether two strings hold the same characters (compared byte by byte).
pub fn str_eq(a: &str, b: &str) -> (r: bool)
    ensures
        r == (a@ == b@),
{
    let x = a.as_bytes();
    let y = b.as_bytes();
    proof {
        encode_utf8_decode_utf8(a@);
        encode_utf8_decode_utf8(b@);
    }
    if x.len() != y.len() {
        return false;
    }
    let mut i: usize = 0;
    while i < x.len()
        invariant
            x@ == encode_utf8(a@),
            y@ == encode_utf8(b@),
            x@.len() == y@.len(),
            i <= x@.len(),
            forall|j: int| 0 <= j < i ==> x@[j] == y@[j],
        decreases x@.len() - i,
    {
        if x[i] != y[i] {
            return false;
        }
        i = i + 1;
    }
    assert(x@ =~= y@);
    true
}

/// `String::push`: appends `c` at the end of `s`.
#[verifier::external_body]
pub(crate) fn push_char(s: &mut String, c: char)
    ensures
        final(s)@ == old(s)@.push(c),
{
    s.push(c)
}

/// The decimal digits of `n` (no sign, no leading zeros; `0` for zero).
pub open spec fn decimal(n: nat) -> Seq<char>
    decreases n,
{
    if n < 10 {
        seq![digit_char(n)]
    } else {
        decimal(n / 10).push(digit_char(n % 10))
    }
}

pub open spec fn digit_char(d: nat) -> char {
    (('0' as u32) + d) as char
}

/// The decimal text of an integer, with a leading `-` when negative.
pub open spec fn decimal_int(n: int) -> Seq<char> {
    if n < 0 {
        seq!['-'] + decimal((-n) as nat)
    } else {
        decimal(n as nat)
    }
}

/// Whether `c` is one of the ASCII digits `0` to `9`.
pub open spec fn is_ascii_digit(c: char) -> bool {
    '0' <= c <= '9'
}

/// The number that a text of ASCII digits stands for in base 10.
pub open spec fn base10_value(s: Seq<char>) -> int
    decreases s.len(),
{
    if s.len() == 0 {
        0
    } else {
        base10_value(s.drop_last()) * 10 + (s.last() as u32 - '0' as u32)
    }
}

/// The decimal text of a number is made of ASCII digits, starts with a
/// non-zero digit unless it is `0`, and reads back as that number in base 10.
pub proof fn lemma_decimal_reads_back(n: nat)
    ensures
        decimal(n).len() >= 1,
        forall|i: int| 0 <= i < decimal(n).len() ==> is_ascii_digit(#[trigger] decimal(n)[i]),
        base10_value(decimal(n)) == n,
        n > 0 ==> decimal(n)[0] != '0',
    decreases n,
{
    let d = n % 10;
    assert(('0' as u32) == 48);
    assert((digit_char(d) as u32) == 48 + d) by {
        assert(48 + d < 0xD800);
    }
    if n >= 10 {
        lemma_decimal_reads_back(n / 10);
        let prev = decimal(n / 10);
        let s = prev.push(digit_char(d));
        assert(s.drop_last() =~= prev);
        assert forall|i: int| 0 <= i < s.len() implies is_ascii_digit(#[trigger] s[i]) by {
            if i < prev.len() {
                assert(s[i] == prev[i]);
            }
        }
        assert(s[0] == prev[0]);
        assert(base10_value(s) == base10_value(prev) * 10 + d);
        assert(n == (n / 10) * 10 + d);
    } else {
        assert(d == n);
        let s = seq![digit_char(n)];
        assert(s.drop_last() =~= Seq::<char>::empty());
        assert(s.last() == digit_char(n));
        assert(base10_value(s) == base10_value(Seq::<char>::empty()) * 10 + (s.last() as u32 - '0' as u32));
    }
}

/// The decimal text of an integer is its magnitude's digits, after a `-`
/// exactly when it is negative.
pub proof fn lemma_decimal_int_reads_back(n: int)
    ensures
        n < 0 ==> decimal_int(n)[0] == '-' && decimal_int(n).drop_first() == decimal((-n) as nat)
            && base10_value(decimal_int(n).drop_first()) == -n,
        n >= 0 ==> decimal_int(n) == decimal(n as nat) && base10_value(decimal_int(n)) == n
            && decimal_int(n)[0] != '-',
{
    if n < 0 {
        lemma_decimal_reads_back((-n) as nat);
        assert((seq!['-'] + decimal((-n) as nat)).drop_first() =~= decimal((-n) as nat));
    } else {
        lemma_decimal_reads_back(n as nat);
        assert(is_ascii_digit(decimal(n as nat)[0]));
    }
}

/// Append the decimal digits of `n` to `out` (what `{}` prints for an
/// unsigned integer).
pub fn push_decimal(out: &mut String, n: u64)
    ensures
        final(out)@ == old(out)@ + decimal(n as nat),
    decreases n,
{
    if n >= 10 {
        push_decimal(out, n / 10);
    }
    let d = (n % 10) as u32;
    let c = char_from_digit(d);
    push_char(out, c);
    proof {
        if n >= 10 {
            assert(decimal(n as nat) == decimal((n / 10) as nat).push(digit_char((n % 10) as nat)));
        }
    }
}

fn char_from_digit(d: u32) -> (c: char)
    requires
        d < 10,
    ensures
        c == digit_char(d as nat),
{
    match d {
        0 => '0',
        1 => '1',
        2 => '2',
        3 => '3',
        4 => '4',
        5 => '5',
        6 => '6',
        7 => '7',
        8 => '8',
        _ => '9',
    }
}

/// Append the decimal text of `n` to `out` (what `{}` prints for a signed
/// integer).
pub fn push_decimal_i64(out: &mut String, n: i64)
    ensures
        final(out)@ == old(out)@ + decimal_int(n as int),
{
    if n < 0 {
        push_char(out, '-');
        let magnitude: u64 = if n == i64::MIN {
            9223372036854775808u64
        } else {
            (-n) as u64
        };
        push_decimal(out, magnitude);
        assert(seq!['-'] + decimal((-n) as nat) =~= seq!['-'].add(decimal(magnitude as nat)));
        assert(old(out)@.push('-') + decimal(magnitude as nat) =~= old(out)@ + (seq!['-'] + decimal(magnitude as nat)));
    } else {
        push_decimal(out, n as u64);
    }
}

} // verus!
