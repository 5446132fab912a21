//! Text building blocks: decimal rendering of integers and substring search,
//! both specified over `Seq<char>` views.

use vstd::prelude::*;
use vstd::string::StrSliceExecFns;
use vstd::string::StringExecFns;

verus! {

/// One decimal digit as text: `spec_digit_str(3)` is `"3"@`.
pub open spec fn spec_digit_str(d: int) -> Seq<char> {
    if d == 0 {
        "0"@
    } else if d == 1 {
        "1"@
    } else if d == 2 {
        "2"@
    } else if d == 3 {
        "3"@
    } else if d == 4 {
        "4"@
    } else if d == 5 {
        "5"@
    } else if d == 6 {
        "6"@
    } else if d == 7 {
        "7"@
    } else if d == 8 {
        "8"@
    } else {
        "9"@
    }
}

/// Decimal digits of `n`, most significant first, without sign or leading
/// zeros; `0` is the single digit `"0"`.
pub open spec fn spec_nat_digits(n: nat) -> Seq<char>
    decreases n,
{
    if n < 10 {
        spec_digit_str(n as int)
    } else {
        spec_nat_digits(n / 10) + spec_digit_str((n % 10) as int)
    }
}

/// Decimal rendering of an integer: the digits of its magnitude, preceded by
/// `'-'` when it is negative. Nothing is sanitized: `-5` renders as `"-5"`.
pub open spec fn spec_int_str(n: int) -> Seq<char> {
    if n < 0 {
        "-"@ + spec_nat_digits((-n) as nat)
    } else {
        spec_nat_digits(n as nat)
    }
}

fn append_digit(s: &mut String, d: u64)
    requires
        d < 10,
    ensures
        final(s)@ == old(s)@ + spec_digit_str(d as int),
{
    if d == 0 {
        s.append("0");
    } else if d == 1 {
        s.append("1");
    } else if d == 2 {
        s.append("2");
    } else if d == 3 {
        s.append("3");
    } else if d == 4 {
        s.append("4");
    } else if d == 5 {
        s.append("5");
    } else if d == 6 {
        s.append("6");
    } else if d == 7 {
        s.append("7");
    } else if d == 8 {
        s.append("8");
    } else {
        s.append("9");
    }
}

fn append_u64_digits(s: &mut String, n: u64)
    ensures
        final(s)@ == old(s)@ + spec_nat_digits(n as nat),
    decreases n,
{
    if n < 10 {
        append_digit(s, n);
    } else {
        append_u64_digits(s, n / 10);
        append_digit(s, n % 10);
        proof {
            assert(old(s)@ + spec_nat_digits(n as nat) =~= (old(s)@ + spec_nat_digits(
                (n / 10) as nat,
            )) + spec_digit_str((n % 10) as int));
        }
    }
}

/// Decimal rendering of an `i32`, exactly as `spec_int_str` describes it.
pub fn i32_to_string(n: i32) -> (s: String)
    ensures
        s@ == spec_int_str(n as int),
{
    let mut s = String::new();
    let wide: i64 = n as i64;
    if wide < 0 {
        s.append("-");
        let mag: u64 = (-wide) as u64;
        append_u64_digits(&mut s, mag);
        proof {
            assert(s@ =~= "-"@ + spec_nat_digits(mag as nat));
        }
    } else {
        append_u64_digits(&mut s, wide as u64);
        proof {
            assert(s@ =~= spec_nat_digits(wide as nat));
        }
    }
    s
}

/// `needle` occurs in `hay` starting at character index `i`.
pub open spec fn spec_match_at(hay: Seq<char>, needle: Seq<char>, i: int) -> bool {
    0 <= i && i + needle.len() <= hay.len() && hay.subrange(i, i + needle.len() as int) == needle
}

/// `needle` occurs somewhere in `hay`.
pub open spec fn spec_contains(hay: Seq<char>, needle: Seq<char>) -> bool {
    exists|i: int| spec_match_at(hay, needle, i)
}

fn match_at(hay: &str, needle: &str, i: usize) -> (matched: bool)
    requires
        i + needle@.len() <= hay@.len(),
        hay@.len() <= usize::MAX,
    ensures
        matched == spec_match_at(hay@, needle@, i as int),
{
    let len: usize = needle.unicode_len();
    let mut j: usize = 0;
    while j < len
        invariant
            i + needle@.len() <= hay@.len(),
            hay@.len() <= usize::MAX,
            len == needle@.len(),
            j <= len,
            forall|t: int| 0 <= t < j ==> hay@[i + t] == needle@[t],
        decreases len - j,
    {
        let hc = hay.get_char(i + j);
        let nc = needle.get_char(j);
        if hc != nc {
            proof {
                if spec_match_at(hay@, needle@, i as int) {
                    assert(hay@.subrange(i as int, i + needle@.len() as int)[j as int]
                        == needle@[j as int]);
                }
            }
            return false;
        }
        j = j + 1;
    }
    proof {
        assert(hay@.subrange(i as int, i + needle@.len() as int) =~= needle@);
    }
    true
}

/// Whether `needle` occurs as a contiguous substring of `hay`.
pub fn contains_substr(hay: &str, needle: &str) -> (found: bool)
    ensures
        found == spec_contains(hay@, needle@),
{
    let n: usize = hay.unicode_len();
    let m: usize = needle.unicode_len();
    if m > n {
        proof {
            assert(forall|i: int| !spec_match_at(hay@, needle@, i));
        }
        return false;
    }
    if m == 0 {
        proof {
            assert(hay@.subrange(0, 0) =~= needle@);
            assert(spec_match_at(hay@, needle@, 0));
        }
        return true;
    }
    let mut i: usize = 0;
    while i <= n - m
        invariant
            n == hay@.len(),
            m == needle@.len(),
            1 <= m <= n,
            i <= n - m + 1,
            forall|k: int| 0 <= k < i ==> !spec_match_at(hay@, needle@, k),
        decreases n - m + 1 - i,
    {
        if match_at(hay, needle, i) {
            return true;
        }
        i = i + 1;
    }
    proof {
        assert(forall|k: int| i <= k ==> !spec_match_at(hay@, needle@, k));
    }
    false
}

} // verus!
