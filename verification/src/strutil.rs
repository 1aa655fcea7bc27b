//! Verified helpers over strings viewed as sequences of characters: prefix
//! stripping, concatenation, and the lexicographic order used to sort case
//! names.

use vstd::prelude::*;

verus! {

use vstd::string::StrSliceExecFns;
use vstd::string::StringExecFns;

/// `p` is an initial segment of `s`.
pub open spec fn is_prefix_of(p: Seq<char>, s: Seq<char>) -> bool {
    p.len() <= s.len() && s.subrange(0, p.len() as int) == p
}

/// Lexicographic order on character sequences by Unicode scalar value. This
/// is the order in which expanded case lists are reported.
pub open spec fn lex_le(a: Seq<char>, b: Seq<char>) -> bool
    decreases a.len(),
{
    if a.len() == 0 {
        true
    } else if b.len() == 0 {
        false
    } else if (a[0] as u32) < (b[0] as u32) {
        true
    } else if (a[0] as u32) > (b[0] as u32) {
        false
    } else {
        lex_le(a.skip(1), b.skip(1))
    }
}

/// The order is total: of any two sequences, one is less than or equal to
/// the other.
pub proof fn lemma_lex_le_total(a: Seq<char>, b: Seq<char>)
    ensures
        lex_le(a, b) || lex_le(b, a),
    decreases a.len(),
{
    if a.len() == 0 {
    } else if b.len() == 0 {
    } else if (a[0] as u32) == (b[0] as u32) {
        lemma_lex_le_total(a.skip(1), b.skip(1));
    }
}

/// The order is transitive.
pub proof fn lemma_lex_le_trans(a: Seq<char>, b: Seq<char>, c: Seq<char>)
    requires
        lex_le(a, b),
        lex_le(b, c),
    ensures
        lex_le(a, c),
    decreases a.len(),
{
    if a.len() == 0 {
    } else {
        if (a[0] as u32) == (b[0] as u32) && (b[0] as u32) == (c[0] as u32) {
            lemma_lex_le_trans(a.skip(1), b.skip(1), c.skip(1));
        }
    }
}

/// Strips `p` from the front of `s`, or reports that `p` is not a prefix.
pub fn strip_prefix_chars<'a>(s: &'a str, p: &str) -> (r: Option<&'a str>)
    ensures
        match r {
            Some(rest) => is_prefix_of(p@, s@) && rest@ == s@.skip(p@.len() as int),
            None => !is_prefix_of(p@, s@),
        },
{
    let n: usize = s.unicode_len();
    let m: usize = p.unicode_len();
    if m > n {
        return None;
    }
    let mut i: usize = 0;
    while i < m
        invariant
            0 <= i <= m <= n,
            n == s@.len(),
            m == p@.len(),
            forall|j: int| 0 <= j < i ==> s@[j] == p@[j],
        decreases m - i,
    {
        if s.get_char(i) != p.get_char(i) {
            proof {
                assert(is_prefix_of(p@, s@) ==> s@.subrange(0, p@.len() as int)[i as int]
                    == s@[i as int]);
            }
            return None;
        }
        i += 1;
    }
    let rest = s.substring_char(m, n);
    proof {
        assert(s@.subrange(0, m as int) =~= p@);
        assert(s@.subrange(m as int, n as int) =~= s@.skip(m as int));
    }
    Some(rest)
}

/// Decides the lexicographic order on two strings.
pub fn str_lex_le(a: &str, b: &str) -> (r: bool)
    ensures
        r == lex_le(a@, b@),
{
    let n: usize = a.unicode_len();
    let m: usize = b.unicode_len();
    let mut i: usize = 0;
    proof {
        assert(a@.skip(0) =~= a@);
        assert(b@.skip(0) =~= b@);
    }
    loop
        invariant
            0 <= i <= n,
            0 <= i <= m,
            n == a@.len(),
            m == b@.len(),
            lex_le(a@, b@) == lex_le(a@.skip(i as int), b@.skip(i as int)),
        decreases n - i,
    {
        if i >= n {
            proof {
                assert(a@.skip(i as int).len() == 0);
            }
            return true;
        }
        if i >= m {
            proof {
                assert(b@.skip(i as int).len() == 0);
                assert(a@.skip(i as int).len() > 0);
            }
            return false;
        }
        let ca = a.get_char(i) as u32;
        let cb = b.get_char(i) as u32;
        proof {
            assert(a@.skip(i as int)[0] == a@[i as int]);
            assert(b@.skip(i as int)[0] == b@[i as int]);
        }
        if ca < cb {
            return true;
        }
        if ca > cb {
            return false;
        }
        proof {
            assert(a@.skip(i as int).skip(1) =~= a@.skip(i as int + 1));
            assert(b@.skip(i as int).skip(1) =~= b@.skip(i as int + 1));
        }
        i += 1;
    }
}

/// Decides equality of two strings.
pub fn str_eq(a: &str, b: &str) -> (r: bool)
    ensures
        r == (a@ == b@),
{
    match strip_prefix_chars(a, b) {
        Some(rest) => {
            let r = rest.unicode_len() == 0;
            proof {
                if r {
                    assert(a@ =~= b@);
                }
            }
            r
        },
        None => {
            proof {
                if a@ == b@ {
                    assert(a@.subrange(0, b@.len() as int) =~= b@);
                }
            }
            false
        },
    }
}

/// Copies a string slice into an owned string.
pub fn to_owned_string(s: &str) -> (r: String)
    ensures
        r@ == s@,
{
    let mut r = String::new();
    r.append(s);
    r
}

/// The character of one decimal digit.
pub open spec fn digit_char(d: int) -> char {
    if d == 0 {
        '0'
    } else if d == 1 {
        '1'
    } else if d == 2 {
        '2'
    } else if d == 3 {
        '3'
    } else if d == 4 {
        '4'
    } else if d == 5 {
        '5'
    } else if d == 6 {
        '6'
    } else if d == 7 {
        '7'
    } else if d == 8 {
        '8'
    } else {
        '9'
    }
}

/// The decimal rendering of a number, most significant digit first.
pub open spec fn decimal_digits(n: int) -> Seq<char>
    decreases n,
{
    if n < 10 {
        seq![digit_char(n)]
    } else {
        decimal_digits(n / 10).push(digit_char(n % 10))
    }
}

/// Appends the character of one decimal digit.
fn append_digit(s: &mut String, d: usize)
    requires
        d < 10,
    ensures
        final(s)@ == old(s)@ + seq![digit_char(d as int)],
{
    proof {
        reveal_strlit("0");
        reveal_strlit("1");
        reveal_strlit("2");
        reveal_strlit("3");
        reveal_strlit("4");
        reveal_strlit("5");
        reveal_strlit("6");
        reveal_strlit("7");
        reveal_strlit("8");
        reveal_strlit("9");
    }
    match d {
        0 => {
            proof {
                assert("0"@ =~= seq![digit_char(0)]);
            }
            s.append("0")
        },
        1 => {
            proof {
                assert("1"@ =~= seq![digit_char(1)]);
            }
            s.append("1")
        },
        2 => {
            proof {
                assert("2"@ =~= seq![digit_char(2)]);
            }
            s.append("2")
        },
        3 => {
            proof {
                assert("3"@ =~= seq![digit_char(3)]);
            }
            s.append("3")
        },
        4 => {
            proof {
                assert("4"@ =~= seq![digit_char(4)]);
            }
            s.append("4")
        },
        5 => {
            proof {
                assert("5"@ =~= seq![digit_char(5)]);
            }
            s.append("5")
        },
        6 => {
            proof {
                assert("6"@ =~= seq![digit_char(6)]);
            }
            s.append("6")
        },
        7 => {
            proof {
                assert("7"@ =~= seq![digit_char(7)]);
            }
            s.append("7")
        },
        8 => {
            proof {
                assert("8"@ =~= seq![digit_char(8)]);
            }
            s.append("8")
        },
        _ => {
            proof {
                assert("9"@ =~= seq![digit_char(9)]);
            }
            s.append("9")
        },
    }
}

/// Appends the decimal rendering of `n`.
pub fn append_decimal(s: &mut String, n: usize)
    ensures
        final(s)@ == old(s)@ + decimal_digits(n as int),
    decreases n,
{
    if n >= 10 {
        append_decimal(s, n / 10);
    }
    append_digit(s, n % 10);
    proof {
        if n >= 10 {
            assert(old(s)@ + decimal_digits(n as int / 10) + seq![digit_char(n as int % 10)] =~= old(
                s,
            )@ + decimal_digits(n as int));
        } else {
            assert(old(s)@ + seq![digit_char(n as int)] =~= old(s)@ + decimal_digits(n as int));
        }
    }
}

} // verus!
