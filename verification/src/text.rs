//! Character and string utilities: appending single characters, comparing
//! string slices, and reading and writing unsigned decimal numbers.

use vstd::prelude::*;

verus! {

/// Relies on `String::push`: appends the given character to the end of the
/// string.
#[verifier::external_body]
pub(crate) fn push_char(s: &mut String, c: char)
    ensures
        final(s)@ == old(s)@ + seq![c],
{
    s.push(c);
}

/// The views of a sequence of strings, in order.
pub open spec fn string_views(ss: Seq<String>) -> Seq<Seq<char>> {
    Seq::new(ss.len(), |i: int| ss[i]@)
}

/// Compares two string slices character by character.
pub fn str_eq(a: &str, b: &str) -> (r: bool)
    ensures
        r == (a@ == b@),
{
    let a_len = a.unicode_len();
    let b_len = b.unicode_len();
    if a_len != b_len {
        return false;
    }
    let mut i: usize = 0;
    while i < a_len
        invariant
            a_len == a@.len(),
            a@.len() == b@.len(),
            i <= a_len,
            forall|j: int| 0 <= j < i ==> a@[j] == b@[j],
        decreases a_len - i,
    {
        if a.get_char(i) != b.get_char(i) {
            return false;
        }
        i = i + 1;
    }
    proof {
        assert(a@ =~= b@);
    }
    true
}

/// Whether `c` is one of the ten decimal digits.
pub open spec fn is_dec_digit(c: char) -> bool {
    48 <= c as u32 <= 57
}

/// The numeric value of a decimal digit character.
pub open spec fn digit_val(c: char) -> nat {
    (c as u32 - 48) as nat
}

/// The digit character for a value below ten.
pub open spec fn digit_char(d: nat) -> char {
    if d == 0 {
        '0'
    } else if d == 1 {
        '1'
    } else if d == 2 {
        '2'
    } else if d == 3 {
        '3'
    } else if d == 4 {
        '4'
    } else if d == 5 {
        '5'
    } else if d == 6 {
        '6'
    } else if d == 7 {
        '7'
    } else if d == 8 {
        '8'
    } else {
        '9'
    }
}

/// Whether `s` is a non-empty, all-digit decimal numeral.
pub open spec fn is_dec_numeral(s: Seq<char>) -> bool {
    s.len() > 0 && forall|i: int| 0 <= i < s.len() ==> is_dec_digit(#[trigger] s[i])
}

/// The value of a decimal numeral, most significant digit first.
pub open spec fn dec_value(s: Seq<char>) -> nat
    decreases s.len(),
{
    if s.len() == 0 {
        0
    } else {
        dec_value(s.drop_last()) * 10 + digit_val(s.last())
    }
}

/// The decimal numeral of `n`, most significant digit first, with no leading
/// zero except for `n == 0` itself.
pub open spec fn dec_numeral(n: nat) -> Seq<char>
    decreases n,
{
    if n < 10 {
        seq![digit_char(n)]
    } else {
        dec_numeral(n / 10).push(digit_char(n % 10))
    }
}

fn digit_char_exec(d: u64) -> (c: char)
    requires
        d < 10,
    ensures
        c == digit_char(d as nat),
{
    match d {
        0 => '0',
        1 => '1',
        2 => '2',
        3 => '3',
        4 => '4',
        5 => '5',
        6 => '6',
        7 => '7',
        8 => '8',
        _ => '9',
    }
}

/// Appends the decimal numeral of `n` to `out`.
fn write_u64(n: u64, out: &mut String)
    ensures
        final(out)@ == old(out)@ + dec_numeral(n as nat),
    decreases n,
{
    if n < 10 {
        push_char(out, digit_char_exec(n));
    } else {
        write_u64(n / 10, out);
        push_char(out, digit_char_exec(n % 10));
    }
}

/// The decimal numeral of `n` as a string.
pub fn u64_to_string(n: u64) -> (s: String)
    ensures
        s@ == dec_numeral(n as nat),
{
    let mut out = String::new();
    write_u64(n, &mut out);
    out
}

/// Reads an unsigned decimal numeral. Returns its value exactly when the whole
/// string consists of digits, is not empty, and the value fits in a `u64`.
pub fn parse_u64(s: &str) -> (r: Option<u64>)
    ensures
        r is Some <==> is_dec_numeral(s@) && dec_value(s@) <= u64::MAX,
        r is Some ==> r->0 as nat == dec_value(s@),
{
    let n = s.unicode_len();
    if n == 0 {
        return None;
    }
    let mut acc: u64 = 0;
    let mut i: usize = 0;
    while i < n
        invariant
            n == s@.len(),
            0 < n,
            i <= n,
            forall|j: int| 0 <= j < i ==> is_dec_digit(#[trigger] s@[j]),
            acc as nat == dec_value(s@.subrange(0, i as int)),
        decreases n - i,
    {
        let c = s.get_char(i);
        let code = c as u32;
        if code < 48 || code > 57 {
            return None;
        }
        let d: u64 = (code - 48) as u64;
        let next = match acc.checked_mul(10) {
            Some(m) => m.checked_add(d),
            None => None,
        };
        proof {
            assert(s@.subrange(0, i + 1 as int).drop_last() == s@.subrange(0, i as int));
            assert(dec_value(s@.subrange(0, i + 1 as int)) == acc as nat * 10 + d as nat);
        }
        match next {
            Some(v) => {
                acc = v;
            },
            None => {
                proof {
                    lemma_dec_value_prefix_le(s@, i + 1 as int);
                }
                return None;
            },
        }
        i = i + 1;
    }
    proof {
        assert(s@.subrange(0, n as int) == s@);
    }
    Some(acc)
}

/// The value of a numeral is at least the value of any of its prefixes.
proof fn lemma_dec_value_prefix_le(s: Seq<char>, i: int)
    requires
        0 <= i <= s.len(),
    ensures
        dec_value(s.subrange(0, i)) <= dec_value(s),
    decreases s.len() - i,
{
    if i < s.len() {
        lemma_dec_value_prefix_le(s, i + 1);
        assert(s.subrange(0, i + 1).drop_last() == s.subrange(0, i));
        assert(dec_value(s.subrange(0, i + 1))
            == dec_value(s.subrange(0, i)) * 10 + digit_val(s.subrange(0, i + 1).last()));
        assert(dec_value(s.subrange(0, i)) <= dec_value(s.subrange(0, i)) * 10);
    } else {
        assert(s.subrange(0, i) == s);
    }
}

/// Writing a number as a decimal numeral and reading that numeral back gives
/// the number itself: `parse_u64` inverts `u64_to_string`.
pub proof fn lemma_u64_decimal_round_trip(n: u64)
    ensures
        is_dec_numeral(dec_numeral(n as nat)),
        dec_value(dec_numeral(n as nat)) == n as nat,
{
    lemma_dec_numeral_value(n as nat);
}

proof fn lemma_dec_numeral_value(n: nat)
    ensures
        is_dec_numeral(dec_numeral(n)),
        dec_value(dec_numeral(n)) == n,
    decreases n,
{
    if n < 10 {
        assert(is_dec_digit(digit_char(n)));
        assert(digit_val(digit_char(n)) == n);
        assert(dec_numeral(n).drop_last() =~= Seq::<char>::empty());
        assert(dec_value(Seq::<char>::empty()) == 0);
        assert(dec_value(dec_numeral(n))
            == dec_value(dec_numeral(n).drop_last()) * 10 + digit_val(dec_numeral(n).last()));
    } else {
        lemma_dec_numeral_value(n / 10);
        let s = dec_numeral(n / 10).push(digit_char(n % 10));
        assert(s.drop_last() =~= dec_numeral(n / 10));
        assert(is_dec_digit(digit_char(n % 10)));
        assert(digit_val(digit_char(n % 10)) == n % 10);
        assert(dec_value(s) == dec_value(dec_numeral(n / 10)) * 10 + n % 10);
        assert(n / 10 * 10 + n % 10 == n) by {
            vstd::arithmetic::div_mod::lemma_fundamental_div_mod(n as int, 10);
        }
        assert forall|i: int| 0 <= i < s.len() implies is_dec_digit(#[trigger] s[i]) by {
            if i < s.len() - 1 {
                assert(s[i] == dec_numeral(n / 10)[i]);
            }
        }
    }
}

} // verus!
