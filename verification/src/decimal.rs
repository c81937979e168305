//! Decimal numerals: the spec-level meaning of a digit string, a verified
//! parser for the `w` query parameter, and a verified renderer used for the
//! `Content-Length` header value.

use vstd::prelude::*;

verus! {

/// `c` is an ASCII decimal digit.
pub open spec fn is_dec_digit(c: char) -> bool {
    '0' as int <= c as int && c as int <= '9' as int
}

/// Numeric value of one digit character.
pub open spec fn digit_value(c: char) -> int {
    c as int - '0' as int
}

/// Every character of `s` is a decimal digit.
pub open spec fn all_dec_digits(s: Seq<char>) -> bool {
    forall|i: int| 0 <= i < s.len() ==> is_dec_digit(#[trigger] s[i])
}

/// The integer denoted by the digit string `s` (0 for the empty string).
pub open spec fn dec_value(s: Seq<char>) -> int
    decreases s.len(),
{
    if s.len() == 0 {
        0
    } else {
        dec_value(s.drop_last()) * 10 + digit_value(s.last())
    }
}

/// The digit character for a value below ten.
pub open spec fn digit_char(d: int) -> char {
    if d == 0 {
        '0'
    } else if d == 1 {
        '1'
    } else if d == 2 {
        '2'
    } else if d == 3 {
        '3'
    } else if d == 4 {
        '4'
    } else if d == 5 {
        '5'
    } else if d == 6 {
        '6'
    } else if d == 7 {
        '7'
    } else if d == 8 {
        '8'
    } else {
        '9'
    }
}

/// The canonical decimal numeral of a non-negative integer (no leading
/// zeros; `0` is rendered as "0").
pub open spec fn dec_numeral(n: int) -> Seq<char>
    decreases n,
{
    if n < 10 {
        seq![digit_char(n)]
    } else {
        dec_numeral(n / 10).push(digit_char(n % 10))
    }
}

/// A digit string denotes a value that fits the width parameter: non-empty,
/// digits only, positive, and within `u32`.
pub open spec fn valid_width_numeral(s: Seq<char>) -> bool {
    &&& s.len() > 0
    &&& all_dec_digits(s)
    &&& 0 < dec_value(s) <= u32::MAX as int
}

/// A digit string denotes a non-negative value.
pub proof fn lemma_dec_value_nonneg(s: Seq<char>)
    requires
        all_dec_digits(s),
    ensures
        dec_value(s) >= 0,
    decreases s.len(),
{
    if s.len() > 0 {
        assert(all_dec_digits(s.drop_last())) by {
            assert(forall|i: int| 0 <= i < s.len() - 1 ==> s.drop_last()[i] == #[trigger] s[i]);
        }
        lemma_dec_value_nonneg(s.drop_last());
    }
}

/// Extending a digit string on the right never decreases its value.
pub proof fn lemma_dec_value_prefix_le(s: Seq<char>, i: int, j: int)
    requires
        0 <= i <= j <= s.len(),
        all_dec_digits(s.subrange(0, j)),
    ensures
        dec_value(s.subrange(0, i)) <= dec_value(s.subrange(0, j)),
    decreases j - i,
{
    if i < j {
        let shorter = s.subrange(0, j - 1);
        let longer = s.subrange(0, j);
        assert(all_dec_digits(shorter)) by {
            assert(forall|k: int| 0 <= k < j - 1 ==> shorter[k] == #[trigger] longer[k]);
        }
        lemma_dec_value_prefix_le(s, i, j - 1);
        assert(longer.drop_last() =~= shorter);
        lemma_dec_value_nonneg(shorter);
        assert(is_dec_digit(longer.last()));
        assert(dec_value(shorter) * 10 >= dec_value(shorter));
    }
}

/// Law: the canonical numeral of a non-negative integer is a non-empty digit
/// string that denotes exactly that integer — rendering and parsing agree.
pub proof fn lemma_dec_numeral_value(n: int)
    requires
        n >= 0,
    ensures
        dec_numeral(n).len() > 0,
        all_dec_digits(dec_numeral(n)),
        dec_value(dec_numeral(n)) == n,
    decreases n,
{
    if n < 10 {
        let s = seq![digit_char(n)];
        assert(s.len() == 1);
        assert(s.last() == digit_char(n));
        assert(s.drop_last() =~= Seq::<char>::empty());
        assert(dec_value(s.drop_last()) == 0);
        assert(dec_value(s) == 0 * 10 + digit_value(digit_char(n)));
    } else {
        lemma_dec_numeral_value(n / 10);
        let prefix = dec_numeral(n / 10);
        let s = dec_numeral(n);
        assert(s == prefix.push(digit_char(n % 10)));
        assert(s.drop_last() =~= prefix);
        assert(s.last() == digit_char(n % 10));
        vstd::arithmetic::div_mod::lemma_fundamental_div_mod(n, 10);
        assert(all_dec_digits(s)) by {
            assert(forall|i: int| 0 <= i < prefix.len() ==> s[i] == #[trigger] prefix[i]);
            assert(is_dec_digit(s[s.len() - 1]));
        }
    }
}

/// Parse a width parameter: accepts exactly the non-empty all-digit strings
/// whose value is positive and fits in `u32`, and returns that value.
pub fn parse_width(s: &str) -> (r: Option<u32>)
    ensures
        r is Some <==> valid_width_numeral(s@),
        r is Some ==> r->Some_0 as int == dec_value(s@),
{
    let n = s.unicode_len();
    if n == 0 {
        return None;
    }
    let mut acc: u64 = 0;
    let mut i: usize = 0;
    while i < n
        invariant
            0 <= i <= n,
            n == s@.len(),
            all_dec_digits(s@.subrange(0, i as int)),
            acc as int == dec_value(s@.subrange(0, i as int)),
            acc <= u32::MAX as u64,
        decreases n - i,
    {
        let c = s.get_char(i);
        let cv = c as u32;
        if cv < 48 || cv > 57 {
            assert(!all_dec_digits(s@)) by {
                assert(!is_dec_digit(s@[i as int]));
            }
            return None;
        }
        let d: u64 = (cv - 48) as u64;
        let next: u64 = acc * 10 + d;
        assert(s@.subrange(0, i + 1).drop_last() =~= s@.subrange(0, i as int));
        assert(is_dec_digit(s@[i as int]));
        assert(all_dec_digits(s@.subrange(0, i + 1))) by {
            let ext = s@.subrange(0, i + 1);
            assert(forall|k: int| 0 <= k < i ==> ext[k] == #[trigger] s@.subrange(0, i as int)[k]);
            assert(ext[i as int] == s@[i as int]);
        }
        assert(next as int == dec_value(s@.subrange(0, i + 1)));
        if next > u32::MAX as u64 {
            assert(!valid_width_numeral(s@)) by {
                if all_dec_digits(s@) {
                    assert(s@.subrange(0, n as int) =~= s@);
                    lemma_dec_value_prefix_le(s@, i + 1, n as int);
                }
            }
            return None;
        }
        acc = next;
        i += 1;
    }
    assert(s@.subrange(0, n as int) =~= s@);
    if acc == 0 {
        None
    } else {
        Some(acc as u32)
    }
}

/// The numeral string for a digit value below ten.
fn digit_str(d: usize) -> (r: &'static str)
    requires
        d < 10,
    ensures
        r@ =~= seq![digit_char(d as int)],
{
    proof {
        reveal_strlit("0");
        reveal_strlit("1");
        reveal_strlit("2");
        reveal_strlit("3");
        reveal_strlit("4");
        reveal_strlit("5");
        reveal_strlit("6");
        reveal_strlit("7");
        reveal_strlit("8");
        reveal_strlit("9");
    }
    match d {
        0 => "0",
        1 => "1",
        2 => "2",
        3 => "3",
        4 => "4",
        5 => "5",
        6 => "6",
        7 => "7",
        8 => "8",
        _ => "9",
    }
}

/// Render a non-negative integer as its canonical decimal numeral.
pub fn usize_to_dec_string(n: usize) -> (r: String)
    ensures
        r@ == dec_numeral(n as int),
    decreases n,
{
    if n < 10 {
        String::from_str(digit_str(n))
    } else {
        let prefix = usize_to_dec_string(n / 10);
        let r = prefix.concat(digit_str(n % 10));
        assert(r@ =~= dec_numeral(n as int));
        r
    }
}

} // verus!
