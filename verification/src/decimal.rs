//! Decimal text of unsigned integers, as written by the address getter and
//! read back by the injector.

use vstd::prelude::*;

verus! {

/// The ASCII digit for `d` (`d < 10`).
pub open spec fn digit_byte(d: nat) -> u8 {
    (48 + d) as u8
}

/// The shortest decimal text of `n` (so `0` is written as `"0"`).
pub open spec fn decimal(n: nat) -> Seq<u8>
    decreases n,
{
    if n < 10 {
        seq![digit_byte(n)]
    } else {
        decimal(n / 10).push(digit_byte(n % 10))
    }
}

/// `10` to the power `k`.
pub open spec fn pow10(k: nat) -> nat
    decreases k,
{
    if k == 0 {
        1
    } else {
        10 * pow10((k - 1) as nat)
    }
}

/// A number below `10^k` has at most `k` digits (and always at least one).
pub proof fn lemma_decimal_len(n: nat, k: nat)
    requires
        n < pow10(k),
    ensures
        1 <= decimal(n).len(),
        k >= 1 ==> decimal(n).len() <= k,
    decreases n,
{
    if n >= 10 {
        assert(k >= 2) by {
            if k == 0 {
            } else if k == 1 {
                assert(pow10(0) == 1);
            }
        }
        assert(pow10(k) == 10 * pow10((k - 1) as nat));
        lemma_decimal_len(n / 10, (k - 1) as nat);
    }
}

/// `usize::MAX` has at most twenty decimal digits.
pub proof fn lemma_usize_fits_twenty_digits(n: usize)
    ensures
        (n as nat) < pow10(20),
{
    reveal_with_fuel(pow10, 21);
    assert(pow10(20) == 100000000000000000000nat);
}

/// Writes `num` in decimal at the end of `buf` and returns the written part,
/// the last bytes of `buf`; the bytes before it are left as they were.
/// Zero writes nothing, so the result is then empty.
pub fn usize_to_str(num: usize, buf: &mut [u8; 20]) -> (r: &[u8])
    ensures
        num == 0 ==> r@.len() == 0,
        num > 0 ==> r@ == decimal(num as nat),
        r@.len() <= 20,
        final(buf)@.len() == 20,
        final(buf)@.subrange(20 - r@.len(), 20) == r@,
        forall|j: int| 0 <= j < 20 - r@.len() ==> final(buf)@[j] == old(buf)@[j],
{
    let ghost n0: nat = num as nat;
    let mut num = num;
    let mut i: usize = 20;
    proof {
        lemma_usize_fits_twenty_digits(num);
        lemma_decimal_len(n0, 20);
    }
    while num > 0
        invariant
            i <= 20,
            decimal(n0).len() <= 20,
            n0 == 0 ==> i == 20,
            num > 0 ==> n0 > 0,
            num > 0 ==> decimal(n0) == decimal(num as nat) + buf@.subrange(i as int, 20),
            num == 0 && n0 > 0 ==> decimal(n0) == buf@.subrange(i as int, 20),
            buf@.len() == 20,
            forall|j: int| 0 <= j < i ==> buf@[j] == old(buf)@[j],
        decreases num,
    {
        proof {
            lemma_usize_fits_twenty_digits(num);
            lemma_decimal_len(num as nat, 20);
        }
        assert(i >= 1);
        let ghost old_buf = buf@;
        let ghost old_num = num as nat;
        i -= 1;
        let d: u8 = (num % 10) as u8;
        buf[i] = 48u8 + d;
        num /= 10;
        assert(buf@.subrange(i as int, 20) =~= seq![digit_byte(old_num % 10)] + old_buf.subrange(
            i + 1,
            20,
        ));
        if num > 0 {
            assert(decimal(old_num) == decimal(num as nat).push(digit_byte(old_num % 10)));
            assert(decimal(n0) =~= decimal(num as nat) + buf@.subrange(i as int, 20));
        } else {
            assert(decimal(old_num) == seq![digit_byte(old_num)]);
            assert(decimal(n0) =~= buf@.subrange(i as int, 20));
        }
    }
    &buf[i..20]
}


/// Whether `b` is an ASCII decimal digit.
pub open spec fn is_digit(b: u8) -> bool {
    48 <= b <= 57
}

/// Whether every byte of `s` is an ASCII decimal digit.
pub open spec fn all_digits(s: Seq<u8>) -> bool {
    forall|i: int| 0 <= i < s.len() ==> #[trigger] is_digit(s[i])
}

/// The number that the digits `s` spell, most significant first.
pub open spec fn digits_value(s: Seq<u8>) -> nat
    decreases s.len(),
{
    if s.len() == 0 {
        0
    } else {
        digits_value(s.drop_last()) * 10 + (s.last() - 48) as nat
    }
}

/// What parsing `s` as a `usize` gives: an optional `+` sign followed by at
/// least one digit, with a value that fits in `usize`.
pub open spec fn parsed_usize(s: Seq<u8>) -> Option<usize> {
    let body = if s.len() > 0 && s[0] == 43 {
        s.drop_first()
    } else {
        s
    };
    if body.len() > 0 && all_digits(body) && digits_value(body) <= usize::MAX {
        Some(digits_value(body) as usize)
    } else {
        None
    }
}

/// Parses the decimal text that the address getter prints.
pub fn parse_usize(text: &[u8]) -> (r: Option<usize>)
    ensures
        r == parsed_usize(text@),
{
    let len = text.len();
    let mut start: usize = 0;
    if len > 0 && text[0] == 43u8 {
        start = 1;
    }
    let ghost body = text@.subrange(start as int, len as int);
    assert(body =~= (if text@.len() > 0 && text@[0] == 43 {
        text@.drop_first()
    } else {
        text@
    }));
    if start == len {
        return None;
    }
    let mut acc: usize = 0;
    let mut j: usize = start;
    while j < len
        invariant
            start <= j <= len,
            len == text@.len(),
            body == text@.subrange(start as int, len as int),
            body == (if text@.len() > 0 && text@[0] == 43 {
                text@.drop_first()
            } else {
                text@
            }),
            all_digits(text@.subrange(start as int, j as int)),
            acc as nat == digits_value(text@.subrange(start as int, j as int)),
        decreases len - j,
    {
        let b = text[j];
        let ghost prefix = text@.subrange(start as int, j as int);
        let ghost next = text@.subrange(start as int, j + 1);
        assert(next.drop_last() =~= prefix);
        if b < 48u8 || b > 57u8 {
            assert(!is_digit(body[j - start]));
            assert(!all_digits(body));
            assert(parsed_usize(text@) is None);
            return None;
        }
        let d: usize = (b - 48u8) as usize;
        assert(next.last() == b);
        assert(digits_value(next) == digits_value(prefix) * 10 + d);
        assert(body.subrange(0, j + 1 - start) =~= next);
        match acc.checked_mul(10) {
            Some(m) => match m.checked_add(d) {
                Some(v) => {
                    acc = v;
                },
                None => {
                    proof {
                        lemma_digits_value_prefix_le(body, (j + 1 - start) as int);
                    }
                    return None;
                },
            },
            None => {
                proof {
                    lemma_digits_value_prefix_le(body, (j + 1 - start) as int);
                }
                return None;
            },
        }
        j += 1;
        assert(all_digits(text@.subrange(start as int, j as int)));
    }
    assert(text@.subrange(start as int, len as int) =~= body);
    Some(acc)
}

/// The value of a prefix of a digit string never exceeds the value of the
/// whole string.
pub proof fn lemma_digits_value_prefix_le(s: Seq<u8>, k: int)
    requires
        0 <= k <= s.len(),
    ensures
        digits_value(s.subrange(0, k)) <= digits_value(s),
    decreases s.len() - k,
{
    if k < s.len() {
        lemma_digits_value_prefix_le(s, k + 1);
        let t = s.subrange(0, k + 1);
        assert(t.drop_last() =~= s.subrange(0, k));
    } else {
        assert(s.subrange(0, k) =~= s);
    }
}

/// The decimal text of `n` is made of digits, does not start with a sign,
/// and spells `n`.
pub proof fn lemma_decimal_spells(n: nat)
    ensures
        all_digits(decimal(n)),
        digits_value(decimal(n)) == n,
        decimal(n).len() > 0,
        decimal(n)[0] != 43,
    decreases n,
{
    if n >= 10 {
        lemma_decimal_spells(n / 10);
        let s = decimal(n);
        assert(s.drop_last() =~= decimal(n / 10));
        assert(s.last() == digit_byte(n % 10));
        assert(digits_value(s) == digits_value(decimal(n / 10)) * 10 + (n % 10));
        assert(n == (n / 10) * 10 + n % 10) by (nonlinear_arith);
        assert forall|i: int| 0 <= i < s.len() implies #[trigger] is_digit(s[i]) by {
            if i < s.len() - 1 {
                assert(s[i] == decimal(n / 10)[i]);
            }
        }
    } else {
        let s = decimal(n);
        assert(s.drop_last() =~= Seq::<u8>::empty());
        assert(digits_value(s.drop_last()) == 0);
        assert(s.last() == digit_byte(n));
        assert(digits_value(s) == n);
    }
}

/// What the getter prints for a nonzero address, the injector reads back as
/// the same address.
pub proof fn lemma_printed_address_parses_back(n: usize)
    requires
        n > 0,
    ensures
        parsed_usize(decimal(n as nat)) == Some(n),
{
    lemma_decimal_spells(n as nat);
}

} // verus!
