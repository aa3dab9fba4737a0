use vstd::prelude::*;

verus! {

/// Whether `c` is a printable ASCII character other than space.
pub open spec fn is_ascii_graphic(c: char) -> bool {
    '!' <= c <= '~'
}

/// What `str::trim` returns for `s`.
pub uninterp spec fn trimmed(s: Seq<char>) -> Seq<char>;

/// `trimmed(s)`, written out where it is known: a string that is empty, or
/// starts and ends with a printable ASCII character, has nothing to trim.
pub open spec fn trim_of(s: Seq<char>) -> Seq<char> {
    if s.len() == 0 || (is_ascii_graphic(s[0]) && is_ascii_graphic(s.last())) {
        s
    } else {
        trimmed(s)
    }
}

/// Relies on `str::trim`: `s` without leading and trailing Unicode white
/// space. No printable ASCII character is white space, so a string that
/// starts and ends with one is returned whole.
#[verifier::external_body]
pub(crate) fn trim_str(s: &str) -> (r: String)
    ensures
        r@ == trimmed(s@),
        (s@.len() == 0 || (is_ascii_graphic(s@[0]) && is_ascii_graphic(s@.last()))) ==> r@ == s@,
{
    s.trim().to_string()
}

/// The value of a string of decimal digits.
pub open spec fn digits_value(d: Seq<char>) -> int
    decreases d.len(),
{
    if d.len() == 0 {
        0
    } else {
        digits_value(d.drop_last()) * 10 + (d.last() as int - '0' as int)
    }
}

/// Whether every character of `d` is an ASCII digit.
pub open spec fn all_digits(d: Seq<char>) -> bool {
    forall|i: int| 0 <= i < d.len() ==> '0' <= #[trigger] d[i] <= '9'
}

/// What `str::parse::<u64>` accepts: an optional `+` followed by one or more
/// ASCII digits, whose value fits in a `u64`.
pub open spec fn parsed_u64(s: Seq<char>) -> Option<u64> {
    let d = if s.len() > 0 && s[0] == '+' {
        s.drop_first()
    } else {
        s
    };
    if d.len() > 0 && all_digits(d) && digits_value(d) <= u64::MAX {
        Some(digits_value(d) as u64)
    } else {
        None
    }
}

/// Relies on `u64`'s `FromStr` (`str::parse`), which reads an optional `+`
/// followed by decimal digits only, and fails on anything else or on a value
/// above `u64::MAX`.
#[verifier::external_body]
pub(crate) fn parse_u64(s: &str) -> (r: Option<u64>)
    ensures
        r == parsed_u64(s@),
{
    s.parse::<u64>().ok()
}

/// Whether two strings hold the same characters.
pub(crate) fn str_equals(a: &str, b: &str) -> (r: bool)
    ensures
        r == (a@ == b@),
{
    let n = a.unicode_len();
    if n != b.unicode_len() {
        return false;
    }
    let mut i: usize = 0;
    while i < n
        invariant
            n == a@.len(),
            n == b@.len(),
            i <= n,
            forall|j: int| 0 <= j < i ==> a@[j] == b@[j],
        decreases n - i,
    {
        if a.get_char(i) != b.get_char(i) {
            return false;
        }
        i = i + 1;
    }
    assert(a@ =~= b@);
    true
}

} // verus!
