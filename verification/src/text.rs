//! Small text utilities shared by the wire encoders and parsers:
//! decimal rendering of integers, conversions between `&str`, `Vec<char>`
//! and `String`, and verified string equality.

use vstd::prelude::*;
use vstd::string::StrSliceExecFns;

verus! {

/// Relies on `String::push` of std: appends the given character to the
/// end of the string.
pub assume_specification[ String::push ](s: &mut String, c: char)
    ensures
        final(s)@ == old(s)@.push(c),
;

/// The decimal digit character for a value below ten.
pub open spec fn dec_digit(d: nat) -> char {
    if d == 0 {
        '0'
    } else if d == 1 {
        '1'
    } else if d == 2 {
        '2'
    } else if d == 3 {
        '3'
    } else if d == 4 {
        '4'
    } else if d == 5 {
        '5'
    } else if d == 6 {
        '6'
    } else if d == 7 {
        '7'
    } else if d == 8 {
        '8'
    } else {
        '9'
    }
}

/// Decimal rendering of a natural number, most significant digit first.
pub open spec fn dec_nat(n: nat) -> Seq<char>
    decreases n,
{
    if n < 10 {
        seq![dec_digit(n)]
    } else {
        dec_nat(n / 10).push(dec_digit(n % 10))
    }
}

/// Decimal rendering of an integer: a minus sign for negative values.
pub open spec fn dec_int(n: int) -> Seq<char> {
    if n < 0 {
        seq!['-'] + dec_nat((-n) as nat)
    } else {
        dec_nat(n as nat)
    }
}

fn digit_char(d: u8) -> (c: char)
    requires
        d < 10,
    ensures
        c == dec_digit(d as nat),
{
    if d == 0 {
        '0'
    } else if d == 1 {
        '1'
    } else if d == 2 {
        '2'
    } else if d == 3 {
        '3'
    } else if d == 4 {
        '4'
    } else if d == 5 {
        '5'
    } else if d == 6 {
        '6'
    } else if d == 7 {
        '7'
    } else if d == 8 {
        '8'
    } else {
        '9'
    }
}

/// Decimal rendering of an unsigned value.
pub fn render_u64(n: u64) -> (r: String)
    ensures
        r@ == dec_nat(n as nat),
    decreases n,
{
    if n < 10 {
        let mut s = String::new();
        s.push(digit_char(n as u8));
        s
    } else {
        let mut s = render_u64(n / 10);
        s.push(digit_char((n % 10) as u8));
        s
    }
}

/// Decimal rendering of a signed value, total over the type.
pub fn render_i64(n: i64) -> (r: String)
    ensures
        r@ == dec_int(n as int),
{
    if n < 0 {
        let mut s = String::new();
        s.push('-');
        let mag = if n == i64::MIN {
            render_u64(9223372036854775808u64)
        } else {
            render_u64((-n) as u64)
        };
        s.append(mag.as_str());
        assert(s@ =~= dec_int(n as int));
        s
    } else {
        render_u64(n as u64)
    }
}

/// Decimal rendering of an `i32`, total over the type.
pub fn render_i32(n: i32) -> (r: String)
    ensures
        r@ == dec_int(n as int),
{
    render_i64(n as i64)
}

/// The characters of a string slice, in order.
pub fn chars_of(s: &str) -> (v: Vec<char>)
    ensures
        v@ == s@,
{
    let n = s.unicode_len();
    let mut v: Vec<char> = Vec::new();
    let mut i: usize = 0;
    while i < n
        invariant
            i <= n,
            n == s@.len(),
            v@ == s@.subrange(0, i as int),
        decreases n - i,
    {
        v.push(s.get_char(i));
        assert(v@ =~= s@.subrange(0, i + 1 as int));
        i += 1;
    }
    assert(v@ =~= s@);
    v
}

/// Character-wise string equality, proved against the views.
pub fn str_eq(a: &str, b: &str) -> (r: bool)
    ensures
        r == (a@ == b@),
{
    let na = a.unicode_len();
    let nb = b.unicode_len();
    if na != nb {
        assert(a@ != b@);
        return false;
    }
    let mut i: usize = 0;
    while i < na
        invariant
            i <= na,
            na == a@.len(),
            na == b@.len(),
            forall|k: int| 0 <= k < i ==> a@[k] == b@[k],
        decreases na - i,
    {
        if a.get_char(i) != b.get_char(i) {
            return false;
        }
        i += 1;
    }
    assert(a@ =~= b@);
    true
}

/// Every character of a decimal rendering of a natural number is a
/// digit character.
pub proof fn lemma_dec_nat_chars(n: nat)
    ensures
        forall|i: int|
            0 <= i < dec_nat(n).len() ==> 48 <= #[trigger] (dec_nat(n)[i] as u32) <= 57,
    decreases n,
{
    if n < 10 {
        assert(dec_nat(n)[0] == dec_digit(n));
    } else {
        lemma_dec_nat_chars(n / 10);
        assert(dec_nat(n) == dec_nat(n / 10).push(dec_digit(n % 10)));
        assert(forall|i: int|
            0 <= i < dec_nat(n).len() ==> 48 <= #[trigger] (dec_nat(n)[i] as u32) <= 57) by {
            assert(forall|i: int|
                0 <= i < dec_nat(n / 10).len() ==> dec_nat(n)[i] == dec_nat(n / 10)[i]);
            assert(dec_nat(n)[dec_nat(n).len() - 1] == dec_digit(n % 10));
        }
    }
}

/// Every character of a decimal rendering of an integer is a digit
/// character or the minus sign.
pub proof fn lemma_dec_int_chars(n: int)
    ensures
        forall|i: int|
            0 <= i < dec_int(n).len() ==> (48 <= #[trigger] (dec_int(n)[i] as u32) <= 57
                || dec_int(n)[i] == '-'),
{
    if n < 0 {
        lemma_dec_nat_chars((-n) as nat);
        assert(dec_int(n)[0] == '-');
        assert(forall|i: int|
            1 <= i < dec_int(n).len() ==> dec_int(n)[i] == dec_nat((-n) as nat)[i - 1]);
    } else {
        lemma_dec_nat_chars(n as nat);
    }
}

} // verus!
