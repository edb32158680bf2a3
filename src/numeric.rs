use vstd::prelude::*;
use vstd::string::*;

verus! {

/// What `str::parse::<i32>` gives for a piece of text, `None` where it refuses it.
pub uninterp spec fn i32_of(s: Seq<char>) -> Option<i32>;

/// Relies on `<i32 as FromStr>::from_str`: the result depends on the text alone.
#[verifier::external_body]
pub(crate) fn parse_i32(s: &str) -> (r: Option<i32>)
    ensures
        r == i32_of(s@),
{
    s.parse::<i32>().ok()
}

pub open spec fn is_digit(c: char) -> bool {
    '0' <= c && c <= '9'
}

/// The end of the run of decimal digits that starts at `i`.
pub open spec fn digits_end(s: Seq<char>, i: int) -> int
    decreases s.len() - i,
{
    if 0 <= i < s.len() && is_digit(s[i]) {
        digits_end(s, i + 1)
    } else {
        i
    }
}

/// The length (0 or 1) of an optional `+` or `-` at `i`.
pub open spec fn sign_len(s: Seq<char>, i: int) -> int {
    if 0 <= i < s.len() && (s[i] == '+' || s[i] == '-') {
        1
    } else {
        0
    }
}

/// `s` from `i` on is the word spelt `lo` in lower case and `up` in upper case,
/// each letter in either case.
pub open spec fn is_word_at(s: Seq<char>, i: int, lo: Seq<char>, up: Seq<char>) -> bool {
    &&& s.len() - i == lo.len()
    &&& forall|k: int| 0 <= k < lo.len() ==> (#[trigger] s[i + k] == lo[k] || s[i + k] == up[k])
}

/// An optional exponent (`e` or `E`, an optional sign, one digit or more) that ends the text.
pub open spec fn exponent_ok(s: Seq<char>, i: int) -> bool {
    i == s.len() || (0 <= i < s.len() && (s[i] == 'e' || s[i] == 'E') && {
        let j = i + 1 + sign_len(s, i + 1);
        let k = digits_end(s, j);
        k > j && k == s.len()
    })
}

/// Digits with an optional decimal point and at least one digit, then an optional exponent.
pub open spec fn number_ok(s: Seq<char>, i: int) -> bool {
    let a = digits_end(s, i);
    if a < s.len() && s[a] == '.' {
        let b = digits_end(s, a + 1);
        (a > i || b > a + 1) && exponent_ok(s, b)
    } else {
        a > i && exponent_ok(s, a)
    }
}

/// The decimal notation that `str::parse::<f64>` accepts, as its documentation
/// gives it: an optional sign, then `inf`, `infinity`, `nan` (in any case) or a number.
pub open spec fn float_text(s: Seq<char>) -> bool {
    let i = sign_len(s, 0);
    is_word_at(s, i, seq!['i', 'n', 'f'], seq!['I', 'N', 'F'])
        || is_word_at(s, i, seq!['i', 'n', 'f', 'i', 'n', 'i', 't', 'y'], seq!['I', 'N', 'F', 'I', 'N', 'I', 'T', 'Y'])
        || is_word_at(s, i, seq!['n', 'a', 'n'], seq!['N', 'A', 'N']) || number_ok(s, i)
}

fn skip_digits(s: &str, n: usize, i: usize) -> (r: usize)
    requires
        n == s@.len(),
        i <= n,
    ensures
        r as int == digits_end(s@, i as int),
        i <= r <= n,
{
    let mut j: usize = i;
    while j < n && is_digit_char(s.get_char(j))
        invariant
            n == s@.len(),
            i <= j <= n,
            digits_end(s@, j as int) == digits_end(s@, i as int),
        decreases n - j,
    {
        j = j + 1;
    }
    j
}

fn is_digit_char(c: char) -> (r: bool)
    ensures
        r == is_digit(c),
{
    '0' <= c && c <= '9'
}

fn sign_at(s: &str, n: usize, i: usize) -> (r: usize)
    requires
        n == s@.len(),
        i <= n,
    ensures
        r as int == sign_len(s@, i as int),
{
    if i < n {
        let c = s.get_char(i);
        if c == '+' || c == '-' {
            return 1;
        }
    }
    0
}

fn word_at(s: &str, n: usize, i: usize, lo: &[char], up: &[char]) -> (r: bool)
    requires
        n == s@.len(),
        i <= n,
        lo@.len() == up@.len(),
    ensures
        r == is_word_at(s@, i as int, lo@, up@),
{
    if n - i != lo.len() {
        return false;
    }
    let mut k: usize = 0;
    while k < lo.len()
        invariant
            n == s@.len(),
            i <= n,
            n - i == lo@.len(),
            lo@.len() == up@.len(),
            k <= lo@.len(),
            forall|m: int| 0 <= m < k ==> (#[trigger] s@[i + m] == lo@[m] || s@[i + m] == up@[m]),
        decreases lo@.len() - k,
    {
        let c = s.get_char(i + k);
        if c != lo[k] && c != up[k] {
            return false;
        }
        k = k + 1;
    }
    true
}

fn exponent_at(s: &str, n: usize, i: usize) -> (r: bool)
    requires
        n == s@.len(),
        i <= n,
    ensures
        r == exponent_ok(s@, i as int),
{
    if i == n {
        return true;
    }
    let c = s.get_char(i);
    if c != 'e' && c != 'E' {
        return false;
    }
    let j = i + 1 + sign_at(s, n, i + 1);
    if j > n {
        return false;
    }
    let k = skip_digits(s, n, j);
    k > j && k == n
}

/// Whether `s` is a decimal float in the notation that `str::parse::<f64>` accepts.
pub fn is_float_text(s: &str) -> (r: bool)
    ensures
        r == float_text(s@),
{
    let n = s.unicode_len();
    let i = sign_at(s, n, 0);
    let inf_lo = ['i', 'n', 'f'];
    let inf_up = ['I', 'N', 'F'];
    let infinity_lo = ['i', 'n', 'f', 'i', 'n', 'i', 't', 'y'];
    let infinity_up = ['I', 'N', 'F', 'I', 'N', 'I', 'T', 'Y'];
    let nan_lo = ['n', 'a', 'n'];
    let nan_up = ['N', 'A', 'N'];
    proof {
        assert(inf_lo@ =~= seq!['i', 'n', 'f']);
        assert(inf_up@ =~= seq!['I', 'N', 'F']);
        assert(infinity_lo@ =~= seq!['i', 'n', 'f', 'i', 'n', 'i', 't', 'y']);
        assert(infinity_up@ =~= seq!['I', 'N', 'F', 'I', 'N', 'I', 'T', 'Y']);
        assert(nan_lo@ =~= seq!['n', 'a', 'n']);
        assert(nan_up@ =~= seq!['N', 'A', 'N']);
    }
    if word_at(s, n, i, &inf_lo, &inf_up) || word_at(s, n, i, &infinity_lo, &infinity_up)
        || word_at(s, n, i, &nan_lo, &nan_up) {
        return true;
    }
    let a = skip_digits(s, n, i);
    if a < n && s.get_char(a) == '.' {
        let b = skip_digits(s, n, a + 1);
        (a > i || b > a + 1) && exponent_at(s, n, b)
    } else {
        a > i && exponent_at(s, n, a)
    }
}

} // verus!
