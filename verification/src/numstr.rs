//! Decimal text of integers, in both directions: rendering a number as its
//! digit string, and parsing a digit string the way `str::parse` does
//! (optional sign, at least one digit, nothing else, value in range).

use vstd::prelude::*;
use vstd::string::*;

verus! {

pub open spec fn is_digit(c: char) -> bool {
    ('0' as int) <= (c as int) && (c as int) <= ('9' as int)
}

pub open spec fn digit_val(c: char) -> int {
    (c as int) - ('0' as int)
}

pub open spec fn all_digits(s: Seq<char>) -> bool {
    forall|i: int| 0 <= i < s.len() ==> is_digit(#[trigger] s[i])
}

/// Value of a digit string, most significant digit first.
pub open spec fn digits_val(s: Seq<char>) -> int
    decreases s.len(),
{
    if s.len() == 0 {
        0
    } else {
        digits_val(s.drop_last()) * 10 + digit_val(s.last())
    }
}

pub open spec fn digit_char(d: int) -> char {
    if d == 0 {
        '0'
    } else if d == 1 {
        '1'
    } else if d == 2 {
        '2'
    } else if d == 3 {
        '3'
    } else if d == 4 {
        '4'
    } else if d == 5 {
        '5'
    } else if d == 6 {
        '6'
    } else if d == 7 {
        '7'
    } else if d == 8 {
        '8'
    } else {
        '9'
    }
}

/// Decimal digit string of a non-negative number, no leading zeros.
pub open spec fn dec_digits(n: nat) -> Seq<char>
    decreases n,
{
    if n < 10 {
        seq![digit_char(n as int)]
    } else {
        dec_digits(n / 10) + seq![digit_char((n % 10) as int)]
    }
}

/// Decimal text of an integer, with a leading minus sign when negative.
pub open spec fn dec_int(n: int) -> Seq<char> {
    if n < 0 {
        seq!['-'] + dec_digits((-n) as nat)
    } else {
        dec_digits(n as nat)
    }
}

pub open spec fn pow10(n: nat) -> int
    decreases n,
{
    if n == 0 {
        1
    } else {
        10 * pow10((n - 1) as nat)
    }
}

pub proof fn lemma_pow10_pos(n: nat)
    ensures
        pow10(n) >= 1,
    decreases n,
{
    if n > 0 {
        lemma_pow10_pos((n - 1) as nat);
    }
}

pub proof fn lemma_pow10_mono(a: nat, b: nat)
    requires
        a <= b,
    ensures
        1 <= pow10(a) <= pow10(b),
    decreases b,
{
    lemma_pow10_pos(a);
    if a < b {
        lemma_pow10_mono(a, (b - 1) as nat);
    }
}

pub proof fn lemma_digits_val_bound(s: Seq<char>)
    requires
        all_digits(s),
    ensures
        0 <= digits_val(s) < pow10(s.len()),
    decreases s.len(),
{
    if s.len() == 0 {
    } else {
        let p = s.drop_last();
        assert(all_digits(p));
        lemma_digits_val_bound(p);
        assert(is_digit(s[s.len() - 1]));
        assert(digits_val(p) * 10 + digit_val(s.last()) < pow10(s.len())) by (nonlinear_arith)
            requires
                0 <= digits_val(p) < pow10(p.len()),
                0 <= digit_val(s.last()) < 10,
                pow10(s.len()) == 10 * pow10(p.len()),
                p.len() == s.len() - 1,
        ;
    }
}

pub proof fn lemma_digits_val_lower(s: Seq<char>)
    requires
        all_digits(s),
        s.len() > 0,
        s[0] != '0',
    ensures
        digits_val(s) >= pow10((s.len() - 1) as nat),
    decreases s.len(),
{
    assert(is_digit(s[0]));
    if s.len() == 1 {
        assert(s.last() == s[0]);
        assert(digits_val(s.drop_last()) == 0);
        assert(digit_val(s[0]) >= 1);
        assert(pow10(0) == 1);
    } else {
        let p = s.drop_last();
        assert(all_digits(p));
        assert(p[0] == s[0]);
        lemma_digits_val_lower(p);
        assert(is_digit(s[s.len() - 1]));
        assert(digits_val(p) * 10 + digit_val(s.last()) >= pow10((s.len() - 1) as nat))
            by (nonlinear_arith)
            requires
                digits_val(p) >= pow10((p.len() - 1) as nat),
                0 <= digit_val(s.last()),
                pow10((s.len() - 1) as nat) == 10 * pow10((s.len() - 2) as nat),
                p.len() == s.len() - 1,
                s.len() >= 2,
        ;
    }
}

/// A single leading zero does not change the value of a digit string.
proof fn lemma_drop_leading_zero(s: Seq<char>)
    requires
        s.len() > 0,
        s[0] == '0',
    ensures
        digits_val(s) == digits_val(s.drop_first()),
    decreases s.len(),
{
    if s.len() == 1 {
        assert(digits_val(s.drop_last()) == 0);
        assert(digit_val('0') == 0);
        assert(digits_val(s.drop_first()) == 0);
    } else {
        let p = s.drop_last();
        let t = s.drop_first();
        assert(p[0] == '0');
        lemma_drop_leading_zero(p);
        assert(p.drop_first() =~= t.drop_last());
        assert(t.last() == s.last());
        assert(t.len() > 0);
        assert(digits_val(t) == digits_val(t.drop_last()) * 10 + digit_val(t.last()));
        assert(digits_val(s) == digits_val(p) * 10 + digit_val(s.last()));
    }
}

/// Leading zeros do not change the value of a digit string.
pub proof fn lemma_leading_zeros(s: Seq<char>, k: int)
    requires
        0 <= k <= s.len(),
        forall|j: int| 0 <= j < k ==> s[j] == '0',
    ensures
        digits_val(s) == digits_val(s.subrange(k, s.len() as int)),
    decreases k,
{
    if k == 0 {
        assert(s.subrange(0, s.len() as int) =~= s);
    } else {
        lemma_drop_leading_zero(s);
        let t = s.drop_first();
        assert(forall|j: int| 0 <= j < k - 1 ==> t[j] == '0');
        lemma_leading_zeros(t, k - 1);
        assert(t.subrange(k - 1, t.len() as int) =~= s.subrange(k, s.len() as int));
    }
}

fn digit_str(d: u64) -> (r: &'static str)
    requires
        d < 10,
    ensures
        r@ =~= seq![digit_char(d as int)],
{
    proof {
        reveal_strlit("0");
        reveal_strlit("1");
        reveal_strlit("2");
        reveal_strlit("3");
        reveal_strlit("4");
        reveal_strlit("5");
        reveal_strlit("6");
        reveal_strlit("7");
        reveal_strlit("8");
        reveal_strlit("9");
    }
    if d == 0 {
        "0"
    } else if d == 1 {
        "1"
    } else if d == 2 {
        "2"
    } else if d == 3 {
        "3"
    } else if d == 4 {
        "4"
    } else if d == 5 {
        "5"
    } else if d == 6 {
        "6"
    } else if d == 7 {
        "7"
    } else if d == 8 {
        "8"
    } else {
        "9"
    }
}

/// Decimal rendering of a `u64`.
pub fn u64_to_dec(n: u64) -> (r: String)
    ensures
        r@ == dec_digits(n as nat),
    decreases n,
{
    if n < 10 {
        digit_str(n).to_owned()
    } else {
        let q: u64 = n / 10;
        let d: u64 = n % 10;
        proof {
            assert(q < n) by (nonlinear_arith)
                requires
                    n >= 10,
                    q == n / 10,
            ;
        }
        let prefix = u64_to_dec(q);
        let r = prefix.concat(digit_str(d));
        proof {
            assert(r@ =~= dec_digits(n as nat));
        }
        r
    }
}

/// Decimal rendering of an `i64`, minus sign included when negative.
pub fn i64_to_dec(n: i64) -> (r: String)
    ensures
        r@ == dec_int(n as int),
{
    if n >= 0 {
        u64_to_dec(n as u64)
    } else {
        let mag: u64 = (-(n as i128)) as u64;
        proof {
            reveal_strlit("-");
        }
        let r = String::from_str("-").concat(u64_to_dec(mag).as_str());
        proof {
            assert(r@ =~= dec_int(n as int));
        }
        r
    }
}

/// What `str::parse::<i64>` accepts: an optional sign, one or more digits,
/// nothing else, and a value within the type's range.
pub open spec fn spec_parse_i64(s: Seq<char>) -> Option<i64> {
    let signed = s.len() > 0 && (s[0] == '+' || s[0] == '-');
    let neg = s.len() > 0 && s[0] == '-';
    let ds = if signed {
        s.drop_first()
    } else {
        s
    };
    if ds.len() == 0 || !all_digits(ds) {
        None
    } else {
        let v = if neg {
            -digits_val(ds)
        } else {
            digits_val(ds)
        };
        if i64::MIN <= v <= i64::MAX {
            Some(v as i64)
        } else {
            None
        }
    }
}

/// Parses a decimal `i64` exactly as `str::parse` would, `None` on any
/// rejection (empty digits, stray characters, out of range).
pub fn parse_i64(s: &str) -> (r: Option<i64>)
    ensures
        r == spec_parse_i64(s@),
{
    let len = s.unicode_len();
    let mut pos: usize = 0;
    let mut neg: bool = false;
    if len > 0 {
        let c0 = s.get_char(0);
        if c0 == '+' {
            pos = 1;
        } else if c0 == '-' {
            neg = true;
            pos = 1;
        }
    }
    let ghost ds = s@.subrange(pos as int, len as int);
    proof {
        if pos == 1 {
            assert(s@.drop_first() =~= ds);
        } else {
            assert(ds =~= s@);
        }
    }
    if pos >= len {
        return None;
    }
    // Every remaining character must be a digit.
    let mut i: usize = pos;
    while i < len
        invariant
            len == s@.len(),
            pos <= i <= len,
            pos < len,
            ds == s@.subrange(pos as int, len as int),
            neg == (s@.len() > 0 && s@[0] == '-'),
            (s@.len() > 0 && (s@[0] == '+' || s@[0] == '-')) ==> (pos == 1 && ds
                == s@.drop_first()),
            !(s@.len() > 0 && (s@[0] == '+' || s@[0] == '-')) ==> (pos == 0 && ds == s@),
            forall|j: int| pos <= j < i ==> is_digit(#[trigger] s@[j]),
        decreases len - i,
    {
        let c = s.get_char(i);
        if !(c >= '0' && c <= '9') {
            proof {
                assert(ds[i - pos] == s@[i as int]);
                assert(!all_digits(ds));
            }
            return None;
        }
        i += 1;
    }
    proof {
        assert(forall|j: int| 0 <= j < ds.len() ==> ds[j] == s@[j + pos]);
        assert(all_digits(ds));
    }
    // Skip leading zeros.
    let mut z: usize = pos;
    while z < len && s.get_char(z) == '0'
        invariant
            len == s@.len(),
            pos <= z <= len,
            forall|j: int| pos <= j < z ==> s@[j] == '0',
        decreases len - z,
    {
        z += 1;
    }
    let ghost nz = s@.subrange(z as int, len as int);
    proof {
        assert(forall|j: int| 0 <= j < nz.len() ==> nz[j] == s@[j + z]);
        assert(all_digits(nz));
        assert(forall|j: int| 0 <= j < z - pos ==> ds[j] == '0');
        assert(ds.subrange(z - pos, ds.len() as int) =~= nz);
        lemma_leading_zeros(ds, z - pos);
        assert(digits_val(ds) == digits_val(nz));
    }
    if len - z > 19 {
        // Too many significant digits: out of range for either sign.
        proof {
            assert(nz[0] == s@[z as int]);
            assert(nz[0] != '0');
            lemma_digits_val_lower(nz);
            lemma_pow10_mono(19, (nz.len() - 1) as nat);
            assert(pow10(19) == 10000000000000000000) by {
                reveal_with_fuel(pow10, 21);
            }
        }
        return None;
    }
    // Accumulate; at most 19 digits, so the value stays below 10^19 < u64::MAX.
    let mut val: u64 = 0;
    let mut i2: usize = z;
    while i2 < len
        invariant
            len == s@.len(),
            pos <= z <= i2 <= len,
            len - z <= 19,
            nz == s@.subrange(z as int, len as int),
            all_digits(nz),
            val == digits_val(s@.subrange(z as int, i2 as int)),
            val < pow10((i2 - z) as nat),
        decreases len - i2,
    {
        let c = s.get_char(i2);
        proof {
            assert(nz[i2 - z] == s@[i2 as int]);
            assert(is_digit(s@[i2 as int]));
            lemma_pow10_mono((i2 - z) as nat, 18);
            assert(pow10(18) == 1000000000000000000) by {
                reveal_with_fuel(pow10, 20);
            }
        }
        let d: u64 = (c as u64) - ('0' as u64);
        proof {
            assert(val * 10 + d < pow10((i2 - z + 1) as nat)) by (nonlinear_arith)
                requires
                    0 <= val < pow10((i2 - z) as nat),
                    0 <= d < 10,
                    pow10((i2 - z + 1) as nat) == 10 * pow10((i2 - z) as nat),
            ;
            lemma_pow10_mono((i2 - z + 1) as nat, 19);
            assert(pow10(19) == 10000000000000000000) by {
                reveal_with_fuel(pow10, 21);
            }
        }
        val = val * 10 + d;
        proof {
            let prev = s@.subrange(z as int, i2 as int);
            let cur = s@.subrange(z as int, i2 + 1);
            assert(cur.drop_last() =~= prev);
            assert(cur.last() == s@[i2 as int]);
            assert(digit_val(s@[i2 as int]) == d);
        }
        i2 += 1;
    }
    proof {
        assert(s@.subrange(z as int, len as int) =~= nz);
        assert(val == digits_val(nz));
        assert(digits_val(ds) == val);
        assert(ds.len() > 0);
    }
    if neg {
        if val <= 9223372036854775807u64 {
            Some(-(val as i64))
        } else if val == 9223372036854775808u64 {
            Some(i64::MIN)
        } else {
            None
        }
    } else {
        if val <= 9223372036854775807u64 {
            Some(val as i64)
        } else {
            None
        }
    }
}

} // verus!
