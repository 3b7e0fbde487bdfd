use vstd::prelude::*;
use vstd::arithmetic::div_mod::{
    lemma_div_is_ordered, lemma_fundamental_div_mod, lemma_fundamental_div_mod_converse,
};
use vstd::arithmetic::mul::lemma_mul_inequality;
use vstd::string::{StrSliceExecFns, StringExecFns};

verus! {

// Token ids are the decimal renderings of the sequential issue counter, so
// this module pins down what "the decimal string of n" means and proves that
// rendering and parsing are exact inverses on canonical strings (no empty
// string, no leading zero except for "0" itself).

/// The numeric value of a decimal digit, or 10 for any other character.
pub open spec fn char_digit(c: char) -> int {
    if c == '0' {
        0
    } else if c == '1' {
        1
    } else if c == '2' {
        2
    } else if c == '3' {
        3
    } else if c == '4' {
        4
    } else if c == '5' {
        5
    } else if c == '6' {
        6
    } else if c == '7' {
        7
    } else if c == '8' {
        8
    } else if c == '9' {
        9
    } else {
        10
    }
}

pub open spec fn is_digit(c: char) -> bool {
    char_digit(c) < 10
}

/// The decimal digit for a value below ten.
pub open spec fn digit_char(d: int) -> char {
    if d == 0 {
        '0'
    } else if d == 1 {
        '1'
    } else if d == 2 {
        '2'
    } else if d == 3 {
        '3'
    } else if d == 4 {
        '4'
    } else if d == 5 {
        '5'
    } else if d == 6 {
        '6'
    } else if d == 7 {
        '7'
    } else if d == 8 {
        '8'
    } else {
        '9'
    }
}

/// The decimal rendering of `n`, most significant digit first.
pub open spec fn dec_str(n: nat) -> Seq<char>
    decreases n,
{
    if n < 10 {
        seq![digit_char(n as int)]
    } else {
        dec_str(n / 10).push(digit_char((n % 10) as int))
    }
}

/// The value of a digit string, read most significant digit first.
pub open spec fn dec_val(s: Seq<char>) -> nat
    decreases s.len(),
{
    if s.len() == 0 {
        0
    } else {
        dec_val(s.drop_last()) * 10 + (char_digit(s.last()) as nat)
    }
}

pub open spec fn all_digits(s: Seq<char>) -> bool {
    forall|i: int| 0 <= i < s.len() ==> is_digit(s[i])
}

/// A string that some `dec_str(n)` can produce: digits only, nonempty, and no
/// leading zero unless it is exactly "0".
pub open spec fn canonical_dec(s: Seq<char>) -> bool {
    &&& s.len() >= 1
    &&& all_digits(s)
    &&& s.len() > 1 ==> s[0] != '0'
}

proof fn lemma_digit_char_roundtrip(d: int)
    requires
        0 <= d < 10,
    ensures
        char_digit(digit_char(d)) == d,
{
}

proof fn lemma_char_digit_roundtrip(c: char)
    requires
        is_digit(c),
    ensures
        digit_char(char_digit(c)) == c,
{
}

/// Every rendering is canonical, and starts with '0' only for zero itself.
pub proof fn lemma_dec_str_wf(n: nat)
    ensures
        dec_str(n).len() >= 1,
        all_digits(dec_str(n)),
        (dec_str(n)[0] == '0') <==> n == 0,
        canonical_dec(dec_str(n)),
    decreases n,
{
    if n < 10 {
        lemma_digit_char_roundtrip(n as int);
    } else {
        lemma_dec_str_wf(n / 10);
        lemma_digit_char_roundtrip((n % 10) as int);
        assert(10nat / 10 <= n / 10) by {
            lemma_div_is_ordered(10, n as int, 10);
        }
        let s = dec_str(n / 10).push(digit_char((n % 10) as int));
        assert forall|i: int| 0 <= i < s.len() implies is_digit(s[i]) by {
            if i < dec_str(n / 10).len() {
                assert(s[i] == dec_str(n / 10)[i]);
            }
        }
        assert(s[0] == dec_str(n / 10)[0]);
    }
}

/// Parsing back a rendering gives the value that was rendered.
pub proof fn lemma_dec_str_val(n: nat)
    ensures
        dec_val(dec_str(n)) == n,
    decreases n,
{
    if n < 10 {
        let s = dec_str(n);
        assert(s.drop_last() =~= Seq::<char>::empty());
        lemma_digit_char_roundtrip(n as int);
        assert(s.last() == digit_char(n as int));
        assert(dec_val(s.drop_last()) == 0);
        assert(dec_val(s) == dec_val(s.drop_last()) * 10 + (char_digit(s.last()) as nat));
    } else {
        lemma_dec_str_val(n / 10);
        lemma_digit_char_roundtrip((n % 10) as int);
        let s = dec_str(n);
        assert(s.drop_last() =~= dec_str(n / 10));
        assert(s.last() == digit_char((n % 10) as int));
        assert(dec_val(s) == dec_val(s.drop_last()) * 10 + (char_digit(s.last()) as nat));
        assert(dec_val(s) == (n / 10) * 10 + (n % 10));
        lemma_fundamental_div_mod(n as int, 10);
        assert(n == 10 * (n / 10) + (n % 10));
    }
}

/// A digit string that does not start with '0' has a positive value.
proof fn lemma_dec_val_positive(s: Seq<char>)
    requires
        s.len() >= 1,
        all_digits(s),
        s[0] != '0',
    ensures
        dec_val(s) >= 1,
    decreases s.len(),
{
    if s.len() == 1 {
    } else {
        let s0 = s.drop_last();
        assert(s0[0] == s[0]);
        assert(all_digits(s0)) by {
            assert(forall|i: int| 0 <= i < s0.len() ==> s0[i] == s[i]);
        }
        lemma_dec_val_positive(s0);
        lemma_mul_inequality(1, dec_val(s0) as int, 10);
    }
}

/// Rendering the value of a canonical digit string gives the string back.
pub proof fn lemma_canonical_render(s: Seq<char>)
    requires
        canonical_dec(s),
    ensures
        dec_str(dec_val(s)) == s,
    decreases s.len(),
{
    if s.len() == 1 {
        assert(is_digit(s[0]));
        lemma_char_digit_roundtrip(s[0]);
        assert(s.drop_last() =~= Seq::<char>::empty());
        assert(dec_val(s.drop_last()) == 0);
        assert(s.last() == s[0]);
        assert(dec_val(s) == dec_val(s.drop_last()) * 10 + (char_digit(s.last()) as nat));
        assert(dec_val(s) == char_digit(s[0]));
        assert(dec_str(dec_val(s)) == seq![digit_char(char_digit(s[0]))]);
        assert(dec_str(dec_val(s)) =~= s);
    } else {
        let s0 = s.drop_last();
        assert(s0[0] == s[0]);
        assert(all_digits(s0)) by {
            assert(forall|i: int| 0 <= i < s0.len() ==> s0[i] == s[i]);
        }
        lemma_canonical_render(s0);
        lemma_dec_val_positive(s0);
        lemma_char_digit_roundtrip(s.last());
        let v0 = dec_val(s0);
        let d = char_digit(s.last());
        let v = dec_val(s);
        assert(v == v0 * 10 + d);
        assert(v >= 10) by {
            lemma_mul_inequality(1, v0 as int, 10);
        }
        lemma_fundamental_div_mod_converse(v as int, 10, v0 as int, d);
        assert(dec_str(v) == dec_str(v0).push(digit_char((v % 10) as int)));
        assert(dec_str(dec_val(s)) =~= s);
    }
}

/// The value of a digit string is at least the value of any of its prefixes.
proof fn lemma_dec_val_prefix(s: Seq<char>, j: int)
    requires
        0 <= j <= s.len(),
    ensures
        dec_val(s.subrange(0, j)) <= dec_val(s),
    decreases s.len() - j,
{
    if j == s.len() {
        assert(s.subrange(0, j) =~= s);
    } else {
        lemma_dec_val_prefix(s, j + 1);
        let p = s.subrange(0, j);
        let q = s.subrange(0, j + 1);
        assert(q.drop_last() =~= p);
        assert(dec_val(p) * 10 >= dec_val(p)) by (nonlinear_arith);
    }
}

fn digit_str(d: u64) -> (s: &'static str)
    requires
        d < 10,
    ensures
        s@ == seq![digit_char(d as int)],
{
    let r: &'static str = if d == 0 {
        "0"
    } else if d == 1 {
        "1"
    } else if d == 2 {
        "2"
    } else if d == 3 {
        "3"
    } else if d == 4 {
        "4"
    } else if d == 5 {
        "5"
    } else if d == 6 {
        "6"
    } else if d == 7 {
        "7"
    } else if d == 8 {
        "8"
    } else {
        "9"
    };
    proof {
        reveal_strlit("0");
        reveal_strlit("1");
        reveal_strlit("2");
        reveal_strlit("3");
        reveal_strlit("4");
        reveal_strlit("5");
        reveal_strlit("6");
        reveal_strlit("7");
        reveal_strlit("8");
        reveal_strlit("9");
        assert(r@ =~= seq![digit_char(d as int)]);
    }
    r
}

fn digit_of(c: char) -> (d: u64)
    ensures
        d as int == char_digit(c),
{
    if c == '0' {
        0
    } else if c == '1' {
        1
    } else if c == '2' {
        2
    } else if c == '3' {
        3
    } else if c == '4' {
        4
    } else if c == '5' {
        5
    } else if c == '6' {
        6
    } else if c == '7' {
        7
    } else if c == '8' {
        8
    } else if c == '9' {
        9
    } else {
        10
    }
}

/// Renders an issue counter as its decimal token id.
pub fn render_token_id(n: u64) -> (s: String)
    ensures
        s@ == dec_str(n as nat),
    decreases n,
{
    let last = digit_str(n % 10);
    if n < 10 {
        proof {
            assert(dec_str(n as nat) =~= seq![digit_char((n % 10) as int)]);
        }
        last.to_owned()
    } else {
        proof {
            assert(10u64 / 10 <= n / 10) by {
                lemma_div_is_ordered(10, n as int, 10);
            }
        }
        let mut s = render_token_id(n / 10);
        s.append(last);
        proof {
            assert(dec_str(n as nat) =~= dec_str((n / 10) as nat) + seq![
                digit_char((n % 10) as int),
            ]);
        }
        s
    }
}

/// Parses a token id string, accepting exactly the canonical decimal
/// renderings of values that fit in `u64` and rejecting everything else.
pub fn parse_token_id(s: &str) -> (r: Option<u64>)
    ensures
        match r {
            Some(n) => s@ == dec_str(n as nat),
            None => forall|n: u64| s@ != dec_str(n as nat),
        },
{
    let len = s.unicode_len();
    if len == 0 {
        proof {
            assert forall|n: u64| s@ != dec_str(n as nat) by {
                lemma_dec_str_wf(n as nat);
            }
        }
        return None;
    }
    if len > 1 && s.get_char(0) == '0' {
        proof {
            assert forall|n: u64| s@ != dec_str(n as nat) by {
                lemma_dec_str_wf(n as nat);
                if s@ == dec_str(n as nat) {
                    assert(n == 0);
                    assert(dec_str(0nat).len() == 1);
                }
            }
        }
        return None;
    }
    let ghost sv = s@;
    let mut val: u64 = 0;
    let mut i: usize = 0;
    while i < len
        invariant
            0 <= i <= len,
            len == sv.len(),
            sv == s@,
            all_digits(sv.subrange(0, i as int)),
            val as nat == dec_val(sv.subrange(0, i as int)),
            len > 1 ==> sv[0] != '0',
        decreases len - i,
    {
        let c = s.get_char(i);
        let d = digit_of(c);
        if d >= 10 {
            proof {
                assert forall|n: u64| s@ != dec_str(n as nat) by {
                    lemma_dec_str_wf(n as nat);
                    if s@ == dec_str(n as nat) {
                        assert(is_digit(sv[i as int]));
                    }
                }
            }
            return None;
        }
        let step = match val.checked_mul(10) {
            Some(x) => x.checked_add(d),
            None => None,
        };
        proof {
            let p = sv.subrange(0, i as int);
            let q = sv.subrange(0, i as int + 1);
            assert(q.drop_last() =~= p);
            assert(q.last() == sv[i as int]);
            assert(dec_val(q) == dec_val(p) * 10 + char_digit(c));
        }
        match step {
            Some(v) => {
                val = v;
            },
            None => {
                proof {
                    lemma_dec_val_prefix(sv, i as int + 1);
                    assert(dec_val(sv) > u64::MAX);
                    assert forall|n: u64| s@ != dec_str(n as nat) by {
                        lemma_dec_str_val(n as nat);
                    }
                }
                return None;
            },
        }
        i += 1;
    }
    proof {
        assert(sv.subrange(0, len as int) =~= sv);
        assert(canonical_dec(sv));
        lemma_canonical_render(sv);
    }
    Some(val)
}

} // verus!
