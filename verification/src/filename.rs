//! Mapping from frame indices to source file paths.
//!
//! Frame `i` of the sequence is stored as `{dir}/{i+1:03}.{ext}`: the
//! one-based position, zero-padded to at least three decimal digits.

use vstd::prelude::*;
use vstd::arithmetic::div_mod::{
    lemma_basic_div, lemma_div_decreases, lemma_div_non_zero, lemma_mod_bound, lemma_small_mod,
};

verus! {

/// The character for a single decimal digit value.
pub open spec fn digit_char(d: int) -> char {
    if d == 0 {
        '0'
    } else if d == 1 {
        '1'
    } else if d == 2 {
        '2'
    } else if d == 3 {
        '3'
    } else if d == 4 {
        '4'
    } else if d == 5 {
        '5'
    } else if d == 6 {
        '6'
    } else if d == 7 {
        '7'
    } else if d == 8 {
        '8'
    } else {
        '9'
    }
}

/// The decimal digits of `n`, most significant first, with no leading
/// zeros (a single `'0'` for zero).
pub open spec fn spec_decimal(n: nat) -> Seq<char>
    decreases n,
{
    if n < 10 {
        seq![digit_char(n as int)]
    } else {
        spec_decimal(n / 10).push(digit_char((n % 10) as int))
    }
}

/// The decimal digits of `n` zero-padded on the left to at least three
/// characters, as `{:03}` formatting produces.
pub open spec fn spec_padded3(n: nat) -> Seq<char> {
    if n < 10 {
        seq!['0', '0'] + spec_decimal(n)
    } else if n < 100 {
        seq!['0'] + spec_decimal(n)
    } else {
        spec_decimal(n)
    }
}

/// The full source path of frame `index`: the directory, a slash, the
/// one-based position padded to three digits, a dot, and the extension.
pub open spec fn spec_frame_path(dir: Seq<char>, index: nat, ext: Seq<char>) -> Seq<char> {
    dir + seq!['/'] + spec_padded3(index + 1) + seq!['.'] + ext
}

/// The one-character string for a decimal digit value.
fn digit_str(d: u64) -> (r: &'static str)
    requires
        d < 10,
    ensures
        r@ =~= seq![digit_char(d as int)],
{
    if d == 0 {
        proof { reveal_strlit("0"); }
        "0"
    } else if d == 1 {
        proof { reveal_strlit("1"); }
        "1"
    } else if d == 2 {
        proof { reveal_strlit("2"); }
        "2"
    } else if d == 3 {
        proof { reveal_strlit("3"); }
        "3"
    } else if d == 4 {
        proof { reveal_strlit("4"); }
        "4"
    } else if d == 5 {
        proof { reveal_strlit("5"); }
        "5"
    } else if d == 6 {
        proof { reveal_strlit("6"); }
        "6"
    } else if d == 7 {
        proof { reveal_strlit("7"); }
        "7"
    } else if d == 8 {
        proof { reveal_strlit("8"); }
        "8"
    } else {
        proof { reveal_strlit("9"); }
        "9"
    }
}

/// The characters of the digit values `ds`, least significant digit
/// first in `ds`, rendered most significant first.
pub open spec fn rev_digit_chars(ds: Seq<u64>) -> Seq<char> {
    Seq::new(ds.len(), |k: int| digit_char(ds[ds.len() - 1 - k] as int))
}

/// The digits still owed once the remaining value is `m`: nothing when
/// `m` has been fully consumed, its decimal rendering otherwise.
spec fn spec_decimal_prefix(m: nat) -> Seq<char> {
    if m == 0 {
        Seq::empty()
    } else {
        spec_decimal(m)
    }
}

/// Renders `n` in decimal, most significant digit first.
pub fn decimal_string(n: u64) -> (r: String)
    ensures
        r@ == spec_decimal(n as nat),
{
    let mut digits: Vec<u64> = Vec::new();
    let mut m: u64 = n;
    loop
        invariant_except_break
            digits@.len() > 0 ==> m >= 1,
        invariant
            digits@.len() == 0 ==> m == n,
            digits@.len() > 0 ==> spec_decimal(n as nat) =~= spec_decimal_prefix(
                m as nat,
            ) + rev_digit_chars(digits@),
            forall|k: int| 0 <= k < digits@.len() ==> digits@[k] < 10,
        ensures
            digits@.len() > 0,
            forall|k: int| 0 <= k < digits@.len() ==> digits@[k] < 10,
            spec_decimal(n as nat) =~= rev_digit_chars(digits@),
        decreases m,
    {
        let d = m % 10;
        let m2 = m / 10;
        proof {
            lemma_mod_bound(m as int, 10);
            if m >= 10 {
                lemma_div_decreases(m as int, 10);
                lemma_div_non_zero(m as int, 10);
            } else {
                lemma_basic_div(m as int, 10);
                lemma_small_mod(m as nat, 10);
            }
            let ds0 = digits@;
            let ds1 = digits@.push(d);
            assert(rev_digit_chars(ds1) =~= seq![digit_char(d as int)] + rev_digit_chars(ds0));
            assert(spec_decimal(m as nat) =~= spec_decimal_prefix(m2 as nat) + seq![
                digit_char(d as int),
            ]);
            assert(spec_decimal(n as nat) =~= spec_decimal_prefix(m2 as nat) + rev_digit_chars(
                ds1,
            ));
        }
        digits.push(d);
        m = m2;
        if m == 0 {
            break;
        }
    }
    let ghost ds = digits@;
    proof {
        assert(spec_decimal(n as nat) =~= rev_digit_chars(ds));
    }
    let mut s = String::new();
    let mut i: usize = digits.len();
    while i > 0
        invariant
            i <= digits@.len(),
            digits@ == ds,
            forall|k: int| 0 <= k < digits@.len() ==> digits@[k] < 10,
            s@ =~= rev_digit_chars(ds).take(ds.len() - i),
        decreases i,
    {
        i = i - 1;
        let c = digit_str(digits[i]);
        s.append(c);
        proof {
            assert(s@ =~= rev_digit_chars(ds).take(ds.len() - i));
        }
    }
    proof {
        assert(s@ =~= rev_digit_chars(ds));
    }
    s
}

/// Renders `n` in decimal, zero-padded on the left to at least three
/// characters.
pub fn padded3_string(n: u64) -> (r: String)
    ensures
        r@ == spec_padded3(n as nat),
{
    let mut s = String::new();
    if n < 10 {
        proof { reveal_strlit("00"); }
        s.append("00");
        proof {
            assert(s@ =~= seq!['0', '0']);
        }
    } else if n < 100 {
        proof { reveal_strlit("0"); }
        s.append("0");
        proof {
            assert(s@ =~= seq!['0']);
        }
    }
    let d = decimal_string(n);
    s.append(d.as_str());
    proof {
        assert(s@ =~= spec_padded3(n as nat));
    }
    s
}

/// Builds the source file path of frame `index`: one-based position,
/// zero-padded to three digits, under `dir` with extension `ext`.
pub fn frame_path(dir: &str, index: u64, ext: &str) -> (r: String)
    requires
        index < u64::MAX,
    ensures
        r@ == spec_frame_path(dir@, index as nat, ext@),
{
    proof {
        reveal_strlit("/");
        reveal_strlit(".");
    }
    let mut s = String::new();
    s.append(dir);
    s.append("/");
    let num = padded3_string(index + 1);
    s.append(num.as_str());
    s.append(".");
    s.append(ext);
    proof {
        assert("/"@ =~= seq!['/']);
        assert("."@ =~= seq!['.']);
        assert(s@ =~= spec_frame_path(dir@, index as nat, ext@));
    }
    s
}

} // verus!
