//! Verified text helpers: character-wise string equality, decimal digits, and
//! the `AUTHORITY:CODE` shape that authority-code strings follow.

use vstd::prelude::*;
use vstd::string::StrSliceExecFns;
use vstd::string::StringExecFns;

verus! {

/// True when `c` is a decimal digit.
pub open spec fn is_dec_digit(c: char) -> bool {
    ('0' as u32) <= (c as u32) && (c as u32) <= ('9' as u32)
}

/// Numeric value of a decimal digit character.
pub open spec fn dec_digit_value(c: char) -> int {
    (c as u32) - ('0' as u32)
}

/// True when `s` is one or more decimal digits.
pub open spec fn all_digits(s: Seq<char>) -> bool {
    s.len() > 0 && forall|i: int| 0 <= i < s.len() ==> is_dec_digit(#[trigger] s[i])
}

/// The number a digit string denotes, most significant digit first.
pub open spec fn digits_val(s: Seq<char>) -> int
    decreases s.len(),
{
    if s.len() == 0 {
        0
    } else {
        digits_val(s.drop_last()) * 10 + dec_digit_value(s.last())
    }
}

/// The digit character for `d`, when `0 <= d <= 9`.
pub open spec fn digit_char(d: int) -> char {
    if d == 0 { '0' }
    else if d == 1 { '1' }
    else if d == 2 { '2' }
    else if d == 3 { '3' }
    else if d == 4 { '4' }
    else if d == 5 { '5' }
    else if d == 6 { '6' }
    else if d == 7 { '7' }
    else if d == 8 { '8' }
    else if d == 9 { '9' }
    else { '0' }
}

/// The decimal rendering of a non-negative number.
pub open spec fn dec_digits_of(n: int) -> Seq<char>
    decreases n,
{
    if n < 10 {
        seq![digit_char(n)]
    } else {
        dec_digits_of(n / 10).push(digit_char(n % 10))
    }
}

/// True when two string slices hold the same characters.
pub fn str_eq(a: &str, b: &str) -> (r: bool)
    ensures
        r == (a@ == b@),
{
    let alen = a.unicode_len();
    let blen = b.unicode_len();
    if alen != blen {
        return false;
    }
    let mut i: usize = 0;
    while i < alen
        invariant
            0 <= i <= alen,
            alen == a@.len(),
            blen == b@.len(),
            alen == blen,
            forall|j: int| 0 <= j < i ==> a@[j] == b@[j],
        decreases alen - i,
    {
        if a.get_char(i) != b.get_char(i) {
            return false;
        }
        i = i + 1;
    }
    proof {
        assert(a@ =~= b@);
    }
    true
}

/// A digit string denotes a non-negative number.
pub proof fn lemma_digits_val_nonneg(s: Seq<char>)
    requires
        forall|i: int| 0 <= i < s.len() ==> is_dec_digit(#[trigger] s[i]),
    ensures
        digits_val(s) >= 0,
    decreases s.len(),
{
    if s.len() > 0 {
        lemma_digits_val_nonneg(s.drop_last());
        assert(dec_digit_value(s.last()) >= 0);
        assert(digits_val(s.drop_last()) * 10 >= 0) by (nonlinear_arith)
            requires digits_val(s.drop_last()) >= 0;
    }
}

/// Extending a digit string can only grow the number it denotes.
pub proof fn lemma_digits_val_prefix_le(s: Seq<char>, j: int)
    requires
        0 <= j <= s.len(),
        forall|i: int| 0 <= i < s.len() ==> is_dec_digit(#[trigger] s[i]),
    ensures
        digits_val(s.take(j)) <= digits_val(s),
    decreases s.len() - j,
{
    if j < s.len() {
        lemma_digits_val_prefix_le(s, j + 1);
        let t = s.take(j + 1);
        assert(t.drop_last() =~= s.take(j));
        assert(digits_val(t) == digits_val(s.take(j)) * 10 + dec_digit_value(t.last()));
        lemma_digits_val_nonneg(s.take(j));
        assert(digits_val(s.take(j)) * 10 >= digits_val(s.take(j))) by (nonlinear_arith)
            requires digits_val(s.take(j)) >= 0;
        assert(dec_digit_value(t.last()) >= 0);
    } else {
        assert(s.take(j) =~= s);
    }
}

/// The decimal rendering of `n` is all digits and denotes `n` again.
pub proof fn lemma_dec_digits_roundtrip(n: int)
    requires
        n >= 0,
    ensures
        all_digits(dec_digits_of(n)),
        digits_val(dec_digits_of(n)) == n,
    decreases n,
{
    if n < 10 {
        let s = dec_digits_of(n);
        assert(s.len() == 1);
        assert(s.last() == digit_char(n));
        assert(s.drop_last() =~= Seq::<char>::empty());
        assert(digits_val(s) == digits_val(s.drop_last()) * 10 + dec_digit_value(s.last()));
        assert(digits_val(Seq::<char>::empty()) == 0);
        assert(digits_val(s) == dec_digit_value(digit_char(n)));
    } else {
        lemma_dec_digits_roundtrip(n / 10);
        vstd::arithmetic::div_mod::lemma_fundamental_div_mod(n, 10);
        let s = dec_digits_of(n);
        let p = dec_digits_of(n / 10);
        assert(s == p.push(digit_char(n % 10)));
        assert(s.drop_last() =~= p);
        assert(s.last() == digit_char(n % 10));
        assert(0 <= n % 10 < 10) by (nonlinear_arith)
            requires n >= 0;
        assert(dec_digit_value(digit_char(n % 10)) == n % 10);
        assert(digits_val(s) == (n / 10) * 10 + n % 10);
        assert(forall|i: int| 0 <= i < s.len() ==> is_dec_digit(#[trigger] s[i])) by {
            assert(forall|i: int| 0 <= i < p.len() ==> is_dec_digit(#[trigger] p[i]));
            assert(forall|i: int| 0 <= i < s.len() && i < p.len() ==> s[i] == p[i]);
            assert(is_dec_digit(s[s.len() - 1]));
        }
    }
}

/// The single-character string for digit `d`.
fn digit_str(d: u64) -> (r: &'static str)
    requires
        d < 10,
    ensures
        r@ =~= seq![digit_char(d as int)],
{
    proof {
        reveal_strlit("0");
        reveal_strlit("1");
        reveal_strlit("2");
        reveal_strlit("3");
        reveal_strlit("4");
        reveal_strlit("5");
        reveal_strlit("6");
        reveal_strlit("7");
        reveal_strlit("8");
        reveal_strlit("9");
    }
    if d == 0 { "0" }
    else if d == 1 { "1" }
    else if d == 2 { "2" }
    else if d == 3 { "3" }
    else if d == 4 { "4" }
    else if d == 5 { "5" }
    else if d == 6 { "6" }
    else if d == 7 { "7" }
    else if d == 8 { "8" }
    else { "9" }
}

/// The decimal rendering of `n` as an owned string.
pub fn dec_string(n: u64) -> (r: String)
    ensures
        r@ == dec_digits_of(n as int),
    decreases n,
{
    if n < 10 {
        let s = digit_str(n);
        String::from_str(s)
    } else {
        let mut s = dec_string(n / 10);
        let d = digit_str(n % 10);
        s.append(d);
        proof {
            assert(s@ =~= dec_digits_of(n as int / 10).push(digit_char(n as int % 10)));
        }
        s
    }
}

/// Parses a digit string into a number; fails on empty input, on a
/// non-digit character, and on a value beyond the machine integer range.
pub fn parse_dec_i64(s: &str) -> (r: Option<i64>)
    ensures
        match r {
            Some(v) => all_digits(s@) && v == digits_val(s@) && v >= 0,
            None => !(all_digits(s@) && digits_val(s@) <= i64::MAX),
        },
{
    let len = s.unicode_len();
    if len == 0 {
        return None;
    }
    let mut acc: i64 = 0;
    let mut i: usize = 0;
    while i < len
        invariant
            0 <= i <= len,
            len == s@.len(),
            forall|j: int| 0 <= j < i ==> is_dec_digit(#[trigger] s@[j]),
            acc == digits_val(s@.take(i as int)),
            acc >= 0,
        decreases len - i,
    {
        let c = s.get_char(i);
        let cu = c as u32;
        if cu < '0' as u32 || cu > '9' as u32 {
            return None;
        }
        let d = (cu - '0' as u32) as i64;
        if acc > (i64::MAX - d) / 10 {
            proof {
                let t = s@.take(i as int + 1);
                assert(t.drop_last() =~= s@.take(i as int));
                assert(t.last() == s@[i as int]);
                assert(digits_val(t) == acc * 10 + d);
                assert(acc * 10 + d > i64::MAX) by (nonlinear_arith)
                    requires acc > (i64::MAX - d) / 10, acc >= 0, 0 <= d < 10;
                if all_digits(s@) {
                    lemma_digits_val_prefix_le(s@, i as int + 1);
                }
            }
            return None;
        }
        proof {
            assert(acc * 10 + d <= i64::MAX) by (nonlinear_arith)
                requires acc <= (i64::MAX - d) / 10, acc >= 0, 0 <= d < 10;
            assert(acc * 10 >= 0) by (nonlinear_arith)
                requires acc >= 0;
            let t = s@.take(i as int + 1);
            assert(t.drop_last() =~= s@.take(i as int));
            assert(t.last() == s@[i as int]);
        }
        acc = acc * 10 + d;
        i = i + 1;
    }
    proof {
        assert(s@.take(len as int) =~= s@);
    }
    Some(acc)
}

/// True when position `i` carries the only colon of `s`, with a non-empty
/// authority before it and a non-empty code after it.
pub open spec fn auth_split_at(s: Seq<char>, i: int) -> bool {
    &&& 1 <= i
    &&& i + 1 < s.len()
    &&& s[i] == ':'
    &&& forall|j: int| 0 <= j < s.len() && j != i ==> s[j] != ':'
}

/// True when `s` has the `AUTHORITY:CODE` shape: exactly one colon, neither
/// part empty.
pub open spec fn is_auth_code(s: Seq<char>) -> bool {
    exists|i: int| auth_split_at(s, i)
}

/// The position of the colon of an `AUTHORITY:CODE` string.
pub open spec fn split_idx(s: Seq<char>) -> int {
    choose|i: int| auth_split_at(s, i)
}

/// The authority part of an `AUTHORITY:CODE` string.
pub open spec fn auth_part(s: Seq<char>) -> Seq<char> {
    s.take(split_idx(s))
}

/// The code part of an `AUTHORITY:CODE` string.
pub open spec fn code_part(s: Seq<char>) -> Seq<char> {
    s.subrange(split_idx(s) + 1, s.len() as int)
}

/// A split position is the unique one.
pub proof fn lemma_auth_split_unique(s: Seq<char>, i: int)
    requires
        auth_split_at(s, i),
    ensures
        is_auth_code(s),
        split_idx(s) == i,
{
    assert(is_auth_code(s));
    let j = split_idx(s);
    assert(auth_split_at(s, j));
    if i != j {
        assert(s[j] != ':');
    }
}

/// Finds the colon of an `AUTHORITY:CODE` string, or reports that the string
/// does not have that shape.
pub fn find_auth_split(s: &str) -> (r: Option<usize>)
    ensures
        match r {
            Some(i) => auth_split_at(s@, i as int),
            None => !is_auth_code(s@),
        },
{
    let len = s.unicode_len();
    let mut first: Option<usize> = None;
    let mut second: Option<usize> = None;
    let mut i: usize = 0;
    while i < len
        invariant
            0 <= i <= len,
            len == s@.len(),
            first is None ==> forall|j: int| 0 <= j < i ==> s@[j] != ':',
            first matches Some(f) ==> f < i && s@[f as int] == ':',
            first matches Some(f) ==> (second is None ==> forall|j: int|
                0 <= j < i && j != f ==> s@[j] != ':'),
            second matches Some(g) ==> (first matches Some(f) ==> f != g) && g < i
                && s@[g as int] == ':',
            second is Some ==> first is Some,
        decreases len - i,
    {
        let c = s.get_char(i);
        proof {
            assert(s@[i as int] == c);
        }
        if c == ':' {
            match (first, second) {
                (None, _) => { first = Some(i); },
                (Some(_), None) => { second = Some(i); },
                (Some(_), Some(_)) => {},
            }
        } else {
            proof {
                if first is None {
                    assert forall|j: int| 0 <= j < i + 1 implies s@[j] != ':' by {
                        if j == i {
                            assert(s@[j] == c);
                        }
                    }
                }
            }
        }
        i = i + 1;
    }
    match (first, second) {
        (Some(f), None) => {
            if 1 <= f && f + 1 < len {
                Some(f)
            } else {
                proof {
                    if is_auth_code(s@) {
                        let k = split_idx(s@);
                        assert(auth_split_at(s@, k));
                        if k != f {
                            assert(s@[k] != ':');
                        }
                    }
                }
                None
            }
        },
        (Some(f), Some(g)) => {
            proof {
                if is_auth_code(s@) {
                    let k = split_idx(s@);
                    assert(auth_split_at(s@, k));
                    if k != f {
                        assert(s@[f as int] != ':');
                    }
                    if k != g {
                        assert(s@[g as int] != ':');
                    }
                }
            }
            None
        },
        (None, _) => {
            proof {
                if is_auth_code(s@) {
                    let k = split_idx(s@);
                    assert(auth_split_at(s@, k));
                    assert(s@[k] != ':');
                }
            }
            None
        },
    }
}

} // verus!
