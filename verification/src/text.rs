use vstd::prelude::*;
use vstd::string::*;

verus! {

/// `s` without its trailing '/' characters.
pub open spec fn spec_trim_trailing_slashes(s: Seq<char>) -> Seq<char>
    decreases s.len(),
{
    if s.len() > 0 && s.last() == '/' {
        spec_trim_trailing_slashes(s.drop_last())
    } else {
        s
    }
}

/// The short URL for a code under a base: the base without its trailing
/// slashes, one slash, and the code.
pub open spec fn spec_join_url(base: Seq<char>, code: Seq<char>) -> Seq<char> {
    spec_trim_trailing_slashes(base) + seq!['/'] + code
}

/// Trimming ignores everything at and after position `k` when only '/'
/// characters stand there.
proof fn lemma_trim_prefix(s: Seq<char>, k: int)
    requires
        0 <= k <= s.len(),
        forall|i: int| k <= i < s.len() ==> s[i] == '/',
    ensures
        spec_trim_trailing_slashes(s) == spec_trim_trailing_slashes(s.subrange(0, k)),
    decreases s.len() - k,
{
    if k == s.len() {
        assert(s.subrange(0, k) =~= s);
    } else {
        assert(s.last() == '/');
        assert(s.drop_last() =~= s.subrange(0, s.len() - 1));
        lemma_trim_prefix(s.subrange(0, s.len() - 1), k);
        assert(s.subrange(0, s.len() - 1).subrange(0, k) =~= s.subrange(0, k));
    }
}

/// Join a base URL and a short code with a single '/' between them,
/// dropping any trailing slashes the base carries.
pub fn join_short_url(base: &str, code: &str) -> (r: String)
    ensures
        r@ == spec_join_url(base@, code@),
{
    let n = base.unicode_len();
    let mut k: usize = n;
    while k > 0 && base.get_char(k - 1) == '/'
        invariant
            k <= n,
            n == base@.len(),
            forall|i: int| k <= i < n ==> base@[i] == '/',
        decreases k,
    {
        k = k - 1;
    }
    proof {
        lemma_trim_prefix(base@, k as int);
    }
    let trimmed = base.substring_char(0, k);
    let mut out = String::from_str(trimmed);
    out.append("/");
    out.append(code);
    proof {
        reveal_strlit("/");
        assert(out@ =~= spec_join_url(base@, code@));
    }
    out
}

/// Whether `n` occurs in `h` starting at position `i`.
pub open spec fn match_at(h: Seq<char>, n: Seq<char>, i: int) -> bool {
    &&& 0 <= i
    &&& i + n.len() <= h.len()
    &&& h.subrange(i, i + n.len()) == n
}

/// Whether `n` occurs anywhere in `h`.
pub open spec fn spec_contains_substr(h: Seq<char>, n: Seq<char>) -> bool {
    exists|i: int| match_at(h, n, i)
}

/// Whether `needle` occurs as a contiguous run of characters in `haystack`.
pub fn contains_substr(haystack: &str, needle: &str) -> (r: bool)
    ensures
        r == spec_contains_substr(haystack@, needle@),
{
    let hn = haystack.unicode_len();
    let nn = needle.unicode_len();
    if nn == 0 {
        proof {
            assert(haystack@.subrange(0, 0) =~= needle@);
            assert(match_at(haystack@, needle@, 0));
        }
        return true;
    }
    if nn > hn {
        proof {
            assert forall|i: int| !match_at(haystack@, needle@, i) by {}
        }
        return false;
    }
    let count = hn - nn + 1;
    let mut i: usize = 0;
    while i < count
        invariant
            1 <= nn <= hn,
            hn == haystack@.len(),
            nn == needle@.len(),
            count == hn - nn + 1,
            i <= count,
            forall|k: int| 0 <= k < i ==> !match_at(haystack@, needle@, k),
        decreases count - i,
    {
        let mut j: usize = 0;
        let mut matched = true;
        while j < nn
            invariant
                nn <= hn,
                hn == haystack@.len(),
                nn == needle@.len(),
                i + nn <= hn,
                j <= nn,
                matched ==> forall|t: int| 0 <= t < j ==> haystack@[i + t] == needle@[t],
                !matched ==> !match_at(haystack@, needle@, i as int),
            decreases nn - j,
        {
            if haystack.get_char(i + j) != needle.get_char(j) {
                proof {
                    assert(!match_at(haystack@, needle@, i as int)) by {
                        if match_at(haystack@, needle@, i as int) {
                            let jj = j as int;
                            assert(haystack@.subrange(i as int, i + nn)[jj] == needle@[jj]);
                        }
                    }
                }
                matched = false;
                j = nn;
            } else {
                j = j + 1;
            }
        }
        if matched {
            proof {
                assert(haystack@.subrange(i as int, i + nn) =~= needle@);
                assert(match_at(haystack@, needle@, i as int));
            }
            return true;
        }
        i = i + 1;
    }
    proof {
        assert forall|k: int| !match_at(haystack@, needle@, k) by {
            if 0 <= k < i {
            }
        }
    }
    false
}

/// The character for the decimal digit `d`.
pub open spec fn digit_char(d: int) -> char {
    if d == 0 {
        '0'
    } else if d == 1 {
        '1'
    } else if d == 2 {
        '2'
    } else if d == 3 {
        '3'
    } else if d == 4 {
        '4'
    } else if d == 5 {
        '5'
    } else if d == 6 {
        '6'
    } else if d == 7 {
        '7'
    } else if d == 8 {
        '8'
    } else {
        '9'
    }
}

/// The decimal digits of a positive number, most significant first; empty
/// for zero and below.
pub open spec fn spec_decimal_digits(n: int) -> Seq<char>
    decreases n,
{
    if n <= 0 {
        Seq::empty()
    } else {
        spec_decimal_digits(n / 10) + seq![digit_char(n % 10)]
    }
}

/// The decimal rendering of an unsigned number: "0" for zero, otherwise its
/// digits with no leading zero.
pub open spec fn spec_u64_string(n: u64) -> Seq<char> {
    if n == 0 {
        seq!['0']
    } else {
        spec_decimal_digits(n as int)
    }
}

/// The one-character rendering of the digit `d`.
fn digit_str(d: u64) -> (r: &'static str)
    requires
        d < 10,
    ensures
        r@ =~= seq![digit_char(d as int)],
{
    if d == 0 {
        proof {
            reveal_strlit("0");
        }
        "0"
    } else if d == 1 {
        proof {
            reveal_strlit("1");
        }
        "1"
    } else if d == 2 {
        proof {
            reveal_strlit("2");
        }
        "2"
    } else if d == 3 {
        proof {
            reveal_strlit("3");
        }
        "3"
    } else if d == 4 {
        proof {
            reveal_strlit("4");
        }
        "4"
    } else if d == 5 {
        proof {
            reveal_strlit("5");
        }
        "5"
    } else if d == 6 {
        proof {
            reveal_strlit("6");
        }
        "6"
    } else if d == 7 {
        proof {
            reveal_strlit("7");
        }
        "7"
    } else if d == 8 {
        proof {
            reveal_strlit("8");
        }
        "8"
    } else {
        proof {
            reveal_strlit("9");
        }
        "9"
    }
}

/// The decimal digits of a positive number, built most significant first.
fn u64_digits(n: u64) -> (r: String)
    requires
        n > 0,
    ensures
        r@ == spec_decimal_digits(n as int),
    decreases n,
{
    let piece = digit_str(n % 10);
    if n / 10 == 0 {
        let r = String::from_str(piece);
        proof {
            reveal_with_fuel(spec_decimal_digits, 2);
            assert(r@ =~= spec_decimal_digits(n as int));
        }
        r
    } else {
        let pre = u64_digits(n / 10);
        let r = pre.concat(piece);
        proof {
            assert(r@ =~= spec_decimal_digits(n as int));
        }
        r
    }
}

/// Render an unsigned number in decimal.
pub fn u64_to_string(n: u64) -> (r: String)
    ensures
        r@ == spec_u64_string(n),
{
    if n == 0 {
        let r = String::from_str("0");
        proof {
            reveal_strlit("0");
            assert(r@ =~= spec_u64_string(n));
        }
        r
    } else {
        u64_digits(n)
    }
}

/// Whether `c` is a decimal digit.
pub open spec fn is_digit(c: char) -> bool {
    '0' <= c <= '9'
}

/// The value of the digit `c`.
pub open spec fn digit_val(c: char) -> int {
    c as int - '0' as int
}

/// Whether every character of `s` is a decimal digit.
pub open spec fn all_digits(s: Seq<char>) -> bool {
    forall|i: int| 0 <= i < s.len() ==> is_digit(#[trigger] s[i])
}

/// The number the digit string `s` denotes, most significant digit first.
pub open spec fn spec_digits_val(s: Seq<char>) -> int
    decreases s.len(),
{
    if s.len() == 0 {
        0
    } else {
        spec_digits_val(s.drop_last()) * 10 + digit_val(s.last())
    }
}

/// What parsing an unsigned decimal number accepts: one or more digits whose
/// value fits, and nothing else.
pub open spec fn spec_parse_u64(s: Seq<char>) -> Option<u64> {
    if s.len() > 0 && all_digits(s) && spec_digits_val(s) <= u64::MAX {
        Some(spec_digits_val(s) as u64)
    } else {
        None
    }
}

/// A digit string denotes a number no smaller than any of its prefixes
/// denotes.
proof fn lemma_digits_val_prefix(s: Seq<char>, k: int)
    requires
        0 <= k <= s.len(),
        all_digits(s),
    ensures
        0 <= spec_digits_val(s.subrange(0, k)) <= spec_digits_val(s),
        spec_digits_val(s.subrange(0, s.len() as int)) == spec_digits_val(s),
    decreases s.len() - k,
{
    if k == s.len() {
        assert(s.subrange(0, k) =~= s);
        lemma_digits_val_nonneg(s);
    } else {
        lemma_digits_val_prefix(s, k + 1);
        let t = s.subrange(0, k + 1);
        assert(t.drop_last() =~= s.subrange(0, k));
        lemma_digits_val_nonneg(s.subrange(0, k));
        assert(spec_digits_val(s.subrange(0, k)) <= spec_digits_val(t)) by (nonlinear_arith)
            requires
                spec_digits_val(t) == spec_digits_val(s.subrange(0, k)) * 10 + digit_val(t.last()),
                spec_digits_val(s.subrange(0, k)) >= 0,
                0 <= digit_val(t.last()),
        ;
    }
}

/// A digit string denotes a nonnegative number.
proof fn lemma_digits_val_nonneg(s: Seq<char>)
    requires
        all_digits(s),
    ensures
        spec_digits_val(s) >= 0,
    decreases s.len(),
{
    if s.len() > 0 {
        assert(all_digits(s.drop_last()));
        lemma_digits_val_nonneg(s.drop_last());
    }
}

/// Parse an unsigned decimal number: accepts exactly one or more digits
/// whose value fits in the type.
pub fn parse_u64(s: &str) -> (r: Option<u64>)
    ensures
        r == spec_parse_u64(s@),
{
    let n = s.unicode_len();
    if n == 0 {
        return None;
    }
    let mut acc: u64 = 0;
    let mut i: usize = 0;
    while i < n
        invariant
            i <= n,
            n == s@.len(),
            n > 0,
            all_digits(s@.subrange(0, i as int)),
            acc == spec_digits_val(s@.subrange(0, i as int)),
        decreases n - i,
    {
        let c = s.get_char(i);
        if c < '0' || c > '9' {
            return None;
        }
        let d: u64 = (c as u32 as u64) - 48;
        let shifted = match acc.checked_mul(10) {
            Some(v) => v,
            None => {
                proof {
                    lemma_parse_overflow(s@, i as int);
                }
                return None;
            },
        };
        let next = match shifted.checked_add(d) {
            Some(v) => v,
            None => {
                proof {
                    lemma_parse_overflow(s@, i as int);
                }
                return None;
            },
        };
        acc = next;
        i = i + 1;
        proof {
            assert(s@.subrange(0, i as int).drop_last() =~= s@.subrange(0, i - 1));
            assert(all_digits(s@.subrange(0, i as int)));
        }
    }
    proof {
        assert(s@.subrange(0, n as int) =~= s@);
    }
    Some(acc)
}

/// When the value of some prefix extended by its next digit no longer fits,
/// no parse of the whole string fits either.
proof fn lemma_parse_overflow(s: Seq<char>, i: int)
    requires
        0 <= i < s.len(),
        all_digits(s.subrange(0, i)),
        is_digit(s[i]),
        spec_digits_val(s.subrange(0, i)) * 10 + digit_val(s[i]) > u64::MAX,
    ensures
        spec_parse_u64(s) is None,
{
    if all_digits(s) {
        lemma_digits_val_prefix(s, i + 1);
        assert(s.subrange(0, i + 1).drop_last() =~= s.subrange(0, i));
        assert(s.subrange(0, i + 1).last() == s[i]);
    }
}

} // verus!
