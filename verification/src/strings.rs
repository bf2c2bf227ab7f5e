//! Small verified helpers on strings: comparison and decimal formatting.
use vstd::prelude::*;
use vstd::string::StringExecFns;

verus! {

/// Compares two strings by their characters.
pub fn str_eq(a: &str, b: &str) -> (res: bool)
    ensures
        res == (a@ == b@),
{
    let left = String::from_str(a);
    let right = String::from_str(b);
    left == right
}

/// The ten decimal digits, in order.
pub open spec fn digits() -> Seq<char> {
    seq!['0', '1', '2', '3', '4', '5', '6', '7', '8', '9']
}

/// The decimal form of `n`, without sign or leading zeros (as `{}` writes it).
pub open spec fn decimal(n: nat) -> Seq<char>
    decreases n,
{
    if n < 10 {
        seq![digits()[n as int]]
    } else {
        decimal(n / 10).push(digits()[(n % 10) as int])
    }
}

/// The one-character string of the decimal digit `d`.
fn digit_str(d: u64) -> (s: &'static str)
    requires
        d < 10,
    ensures
        s@ == seq![digits()[d as int]],
{
    match d {
        0 => {
            proof {
                reveal_strlit("0");
            }
            "0"
        },
        1 => {
            proof {
                reveal_strlit("1");
            }
            "1"
        },
        2 => {
            proof {
                reveal_strlit("2");
            }
            "2"
        },
        3 => {
            proof {
                reveal_strlit("3");
            }
            "3"
        },
        4 => {
            proof {
                reveal_strlit("4");
            }
            "4"
        },
        5 => {
            proof {
                reveal_strlit("5");
            }
            "5"
        },
        6 => {
            proof {
                reveal_strlit("6");
            }
            "6"
        },
        7 => {
            proof {
                reveal_strlit("7");
            }
            "7"
        },
        8 => {
            proof {
                reveal_strlit("8");
            }
            "8"
        },
        _ => {
            proof {
                reveal_strlit("9");
            }
            "9"
        },
    }
}

/// Appends the decimal form of `n` to `s`.
pub fn push_decimal(s: &mut String, n: u64)
    ensures
        final(s)@ == old(s)@ + decimal(n as nat),
    decreases n,
{
    if n >= 10 {
        push_decimal(s, n / 10);
    }
    let digit = digit_str(n % 10);
    s.append(digit);
    proof {
        if n >= 10 {
            assert(decimal(n as nat) == decimal((n / 10) as nat).push(digits()[(n % 10) as int]));
        }
    }
}

/// The decimal form of `n`, as a new string.
pub fn decimal_string(n: u64) -> (s: String)
    ensures
        s@ == decimal(n as nat),
{
    let mut s = String::new();
    push_decimal(&mut s, n);
    proof {
        assert(s@ =~= Seq::<char>::empty() + decimal(n as nat));
    }
    s
}

/// `prefix`, then the decimal form of `n`, then `suffix`.
pub fn surround_decimal(prefix: &str, n: u64, suffix: &str) -> (s: String)
    ensures
        s@ == prefix@ + decimal(n as nat) + suffix@,
{
    let mut s = String::from_str(prefix);
    push_decimal(&mut s, n);
    s.append(suffix);
    s
}

/// `first`, then `separator`, then `second`.
pub fn join_two(first: &str, separator: &str, second: &str) -> (s: String)
    ensures
        s@ == first@ + separator@ + second@,
{
    let mut s = String::from_str(first);
    s.append(separator);
    s.append(second);
    s
}


/// The decimal form of a signed number: a minus sign before the digits of a negative one.
pub open spec fn signed_decimal(n: int) -> Seq<char> {
    if n < 0 {
        seq!['-'] + decimal((-n) as nat)
    } else {
        decimal(n as nat)
    }
}

/// Appends the decimal form of the signed number `n` to `s`.
pub fn push_signed_decimal(s: &mut String, n: i64)
    ensures
        final(s)@ == old(s)@ + signed_decimal(n as int),
{
    if n < 0 {
        s.append("-");
        proof {
            reveal_strlit("-");
        }
        let magnitude: u64 = if n == i64::MIN {
            9223372036854775808u64
        } else {
            (-n) as u64
        };
        push_decimal(s, magnitude);
        proof {
            assert(final(s)@ =~= old(s)@ + signed_decimal(n as int));
        }
    } else {
        push_decimal(s, n as u64);
    }
}

/// Whether `s` begins with `prefix`.
pub open spec fn spec_starts_with(s: Seq<char>, prefix: Seq<char>) -> bool {
    prefix.len() <= s.len() && s.subrange(0, prefix.len() as int) == prefix
}

/// Whether `needle` occurs in `s`.
pub open spec fn spec_contains(s: Seq<char>, needle: Seq<char>) -> bool {
    exists|i: int| 0 <= i && i + needle.len() <= s.len() && #[trigger] s.subrange(i, i + needle.len()) == needle
}

fn matches_at(s: &str, needle: &str, at: usize, s_len: usize, n_len: usize) -> (found: bool)
    requires
        s_len == s@.len(),
        n_len == needle@.len(),
        at + n_len <= s_len,
    ensures
        found == (s@.subrange(at as int, at + n_len) == needle@),
{
    let mut j: usize = 0;
    while j < n_len
        invariant
            j <= n_len,
            s_len == s@.len(),
            n_len == needle@.len(),
            at + n_len <= s_len,
            forall|k: int| 0 <= k < j ==> s@[at + k] == needle@[k],
        decreases n_len - j,
    {
        if s.get_char(at + j) != needle.get_char(j) {
            proof {
                assert(s@.subrange(at as int, at + n_len)[j as int] != needle@[j as int]);
            }
            return false;
        }
        j = j + 1;
    }
    proof {
        assert(s@.subrange(at as int, at + n_len) =~= needle@);
    }
    true
}

/// Whether `s` begins with `prefix`.
pub fn starts_with(s: &str, prefix: &str) -> (found: bool)
    ensures
        found == spec_starts_with(s@, prefix@),
{
    let s_len = s.unicode_len();
    let n_len = prefix.unicode_len();
    if n_len > s_len {
        return false;
    }
    matches_at(s, prefix, 0, s_len, n_len)
}

/// Whether `needle` occurs in `s`.
pub fn contains(s: &str, needle: &str) -> (found: bool)
    ensures
        found == spec_contains(s@, needle@),
{
    let s_len = s.unicode_len();
    let n_len = needle.unicode_len();
    if n_len > s_len {
        return false;
    }
    if n_len == 0 {
        proof {
            assert(s@.subrange(0, 0 + needle@.len() as int) =~= needle@);
        }
        return true;
    }
    let mut i: usize = 0;
    while i <= s_len - n_len
        invariant
            s_len == s@.len(),
            n_len == needle@.len(),
            0 < n_len <= s_len,
            i <= s_len - n_len + 1,
            forall|k: int| 0 <= k < i ==> #[trigger] s@.subrange(k, k + n_len) != needle@,
        decreases s_len - n_len + 1 - i,
    {
        if matches_at(s, needle, i, s_len, n_len) {
            return true;
        }
        i = i + 1;
    }
    false
}

} // verus!
