use vstd::prelude::*;
use vstd::string::{StrSliceExecFns, StringExecFns};

verus! {

/// Whether `c` is a decimal digit, `'0'` through `'9'`.
pub open spec fn is_dec_digit(c: char) -> bool {
    48 <= c as int && c as int <= 57
}

/// The numeric value of a decimal digit character.
pub open spec fn digit_val(c: char) -> nat {
    (c as int - 48) as nat
}

/// The decimal digit character for a value below ten.
pub open spec fn digit_char(d: nat) -> char
    recommends
        d < 10,
{
    if d == 0 {
        '0'
    } else if d == 1 {
        '1'
    } else if d == 2 {
        '2'
    } else if d == 3 {
        '3'
    } else if d == 4 {
        '4'
    } else if d == 5 {
        '5'
    } else if d == 6 {
        '6'
    } else if d == 7 {
        '7'
    } else if d == 8 {
        '8'
    } else {
        '9'
    }
}

/// Whether every character of `s` is a decimal digit.
pub open spec fn all_dec_digits(s: Seq<char>) -> bool {
    forall|i: int| 0 <= i < s.len() ==> is_dec_digit(#[trigger] s[i])
}

/// The value of a digit string read in base ten.
pub open spec fn dec_value(s: Seq<char>) -> nat
    decreases s.len(),
{
    if s.len() == 0 {
        0
    } else {
        dec_value(s.drop_last()) * 10 + digit_val(s.last())
    }
}

/// The canonical decimal rendering of `n`: digits only, and no leading zero
/// except for zero itself.
pub open spec fn dec_digits_of(n: nat) -> Seq<char>
    decreases n,
{
    if n < 10 {
        seq![digit_char(n)]
    } else {
        dec_digits_of(n / 10).push(digit_char(n % 10))
    }
}

/// The lenient reading of user-typed text as a `u64`: the decimal value when
/// the text is a non-empty plain digit string whose value fits, and zero
/// otherwise — an empty field, a stray character, or an oversized value all
/// degrade to zero rather than to an error.
pub open spec fn lenient_u64_spec(s: Seq<char>) -> u64 {
    if s.len() > 0 && all_dec_digits(s) && dec_value(s) <= u64::MAX {
        dec_value(s) as u64
    } else {
        0
    }
}

/// The lenient reading of user-typed text as a `u32`, with the same
/// degrade-to-zero policy as `lenient_u64_spec`.
pub open spec fn lenient_u32_spec(s: Seq<char>) -> u32 {
    if s.len() > 0 && all_dec_digits(s) && dec_value(s) <= u32::MAX {
        dec_value(s) as u32
    } else {
        0
    }
}

/// Extending a digit string on the right never shrinks its value.
proof fn lemma_dec_value_take_le(s: Seq<char>, i: int)
    requires
        0 <= i <= s.len(),
    ensures
        dec_value(s.take(i)) <= dec_value(s),
    decreases s.len() - i,
{
    if i < s.len() {
        assert(s.take(i + 1).drop_last() =~= s.take(i));
        assert(s.take(i + 1).last() == s[i]);
        assert(dec_value(s.take(i + 1)) == dec_value(s.take(i)) * 10 + digit_val(s[i]));
        lemma_dec_value_take_le(s, i + 1);
    } else {
        assert(s.take(i) =~= s);
    }
}

/// Reads user-typed text as a non-negative integer without ever failing:
/// malformed, empty, or oversized input yields zero.
pub fn lenient_u64(s: &str) -> (r: u64)
    ensures
        r == lenient_u64_spec(s@),
{
    let n = s.unicode_len();
    if n == 0 {
        return 0;
    }
    let mut acc: u64 = 0;
    let mut i: usize = 0;
    while i < n
        invariant
            0 <= i <= n,
            n == s@.len(),
            all_dec_digits(s@.take(i as int)),
            acc == dec_value(s@.take(i as int)),
        decreases n - i,
    {
        let c = s.get_char(i);
        let u = c as u32;
        if u < 48 || u > 57 {
            assert(!is_dec_digit(s@[i as int]));
            return 0;
        }
        let d = (u - 48) as u64;
        proof {
            assert(s.view().take(i + 1).drop_last() =~= s.view().take(i as int));
            assert(s.view().take(i + 1).last() == s@[i as int]);
            assert(dec_value(s.view().take(i + 1)) == dec_value(s.view().take(i as int)) * 10
                + digit_val(s@[i as int]));
            lemma_dec_value_take_le(s.view(), i + 1);
        }
        let acc10 = match acc.checked_mul(10) {
            Some(t) => t,
            None => {
                return 0;
            },
        };
        acc = match acc10.checked_add(d) {
            Some(t) => t,
            None => {
                return 0;
            },
        };
        i = i + 1;
    }
    proof {
        assert(s.view().take(n as int) =~= s.view());
    }
    acc
}

/// Reads user-typed text as a non-negative `u32` with the same
/// degrade-to-zero policy as `lenient_u64`.
pub fn lenient_u32(s: &str) -> (r: u32)
    ensures
        r == lenient_u32_spec(s@),
{
    let v = lenient_u64(s);
    if v > 0xffff_ffff {
        0
    } else {
        v as u32
    }
}

/// One-character string holding the decimal digit for `d`.
fn digit_str(d: u64) -> (r: &'static str)
    requires
        d < 10,
    ensures
        r@ =~= seq![digit_char(d as nat)],
{
    proof {
        reveal_strlit("0");
        reveal_strlit("1");
        reveal_strlit("2");
        reveal_strlit("3");
        reveal_strlit("4");
        reveal_strlit("5");
        reveal_strlit("6");
        reveal_strlit("7");
        reveal_strlit("8");
        reveal_strlit("9");
    }
    if d == 0 {
        "0"
    } else if d == 1 {
        "1"
    } else if d == 2 {
        "2"
    } else if d == 3 {
        "3"
    } else if d == 4 {
        "4"
    } else if d == 5 {
        "5"
    } else if d == 6 {
        "6"
    } else if d == 7 {
        "7"
    } else if d == 8 {
        "8"
    } else {
        "9"
    }
}

/// Renders `n` in decimal, the way a numeric input field shows its value.
pub fn format_u64(n: u64) -> (r: String)
    ensures
        r@ == dec_digits_of(n as nat),
    decreases n,
{
    if n < 10 {
        String::from_str(digit_str(n))
    } else {
        proof {
            vstd::arithmetic::div_mod::lemma_div_decreases(n as int, 10);
        }
        let prefix = format_u64(n / 10);
        let r = prefix.concat(digit_str(n % 10));
        proof {
            assert(r@ =~= dec_digits_of((n / 10) as nat).push(digit_char((n % 10) as nat)));
        }
        r
    }
}

/// The canonical rendering of any value is made of digits only and is never
/// empty.
pub proof fn lemma_dec_digits_of_digits(n: nat)
    ensures
        all_dec_digits(dec_digits_of(n)),
        dec_digits_of(n).len() > 0,
    decreases n,
{
    if n >= 10 {
        lemma_dec_digits_of_digits(n / 10);
        assert forall|i: int| 0 <= i < dec_digits_of(n).len() implies is_dec_digit(
            #[trigger] dec_digits_of(n)[i],
        ) by {
            if i < dec_digits_of(n).len() - 1 {
                assert(dec_digits_of(n)[i] == dec_digits_of(n / 10)[i]);
            }
        }
    }
}

/// The digit character of a value below ten reads back as that value.
proof fn lemma_digit_val_char(d: nat)
    requires
        d < 10,
    ensures
        digit_val(digit_char(d)) == d,
{
}

/// Reading the canonical rendering back in base ten recovers the value.
pub proof fn lemma_dec_value_of_digits(n: nat)
    ensures
        dec_value(dec_digits_of(n)) == n,
    decreases n,
{
    if n < 10 {
        lemma_digit_val_char(n);
        assert(dec_digits_of(n).drop_last() =~= Seq::<char>::empty());
        assert(dec_value(dec_digits_of(n)) == dec_value(Seq::<char>::empty()) * 10 + digit_val(
            digit_char(n),
        ));
    } else {
        lemma_dec_value_of_digits(n / 10);
        lemma_digit_val_char(n % 10);
        vstd::arithmetic::div_mod::lemma_fundamental_div_mod(n as int, 10);
        assert(dec_digits_of(n).drop_last() =~= dec_digits_of(n / 10));
        assert(dec_digits_of(n).last() == digit_char(n % 10));
    }
}

/// Round trip: rendering a value and reading it back leniently is the
/// identity, so a freshly displayed threshold re-parses to itself.
pub proof fn lemma_format_parse_round_trip(n: u64)
    ensures
        lenient_u64_spec(dec_digits_of(n as nat)) == n,
{
    lemma_dec_digits_of_digits(n as nat);
    lemma_dec_value_of_digits(n as nat);
}

} // verus!
