//! Text helpers: decimal rendering, substring search and input trimming.
use vstd::prelude::*;
use vstd::string::*;

verus! {

/// The character for a decimal digit.
pub open spec fn digit_char(d: nat) -> char {
    if d == 0 { '0' }
    else if d == 1 { '1' }
    else if d == 2 { '2' }
    else if d == 3 { '3' }
    else if d == 4 { '4' }
    else if d == 5 { '5' }
    else if d == 6 { '6' }
    else if d == 7 { '7' }
    else if d == 8 { '8' }
    else { '9' }
}

/// The decimal digits of `n`, most significant first, without leading zeros.
pub open spec fn decimal_of(n: nat) -> Seq<char>
    decreases n,
{
    if n < 10 {
        seq![digit_char(n)]
    } else {
        decimal_of(n / 10).push(digit_char(n % 10))
    }
}

/// Whether `q` occurs in `t` as a contiguous run of characters.
pub open spec fn contains_run(t: Seq<char>, q: Seq<char>) -> bool {
    exists|i: int| 0 <= i && i + q.len() <= t.len() && #[trigger] t.subrange(i, i + q.len()) == q
}

/// Whether a character has Unicode's White_Space property: the 25 code points
/// that `char::is_whitespace` accepts.
pub open spec fn is_white_space(c: char) -> bool {
    let u = c as u32;
    ||| 0x9 <= u <= 0xD
    ||| u == 0x20
    ||| u == 0x85
    ||| u == 0xA0
    ||| u == 0x1680
    ||| 0x2000 <= u <= 0x200A
    ||| u == 0x2028
    ||| u == 0x2029
    ||| u == 0x202F
    ||| u == 0x205F
    ||| u == 0x3000
}

/// `s` without its leading white space.
pub open spec fn trim_start(s: Seq<char>) -> Seq<char>
    decreases s.len(),
{
    if s.len() > 0 && is_white_space(s[0]) { trim_start(s.drop_first()) } else { s }
}

/// `s` without its trailing white space.
pub open spec fn trim_end(s: Seq<char>) -> Seq<char>
    decreases s.len(),
{
    if s.len() > 0 && is_white_space(s.last()) { trim_end(s.drop_last()) } else { s }
}

/// What `str::trim` leaves of a string: no white space at either end.
pub open spec fn trimmed(s: Seq<char>) -> Seq<char> {
    trim_end(trim_start(s))
}

proof fn lemma_trim_start_edge(s: Seq<char>)
    ensures
        trim_start(s).len() > 0 ==> !is_white_space(trim_start(s)[0]),
        trim_end(trim_start(s)) == trim_end(trim_start(trim_start(s))),
    decreases s.len(),
{
    if s.len() > 0 && is_white_space(s[0]) {
        lemma_trim_start_edge(s.drop_first());
    }
}

proof fn lemma_trim_end_keeps_start(s: Seq<char>)
    requires
        s.len() > 0 ==> !is_white_space(s[0]),
    ensures
        trim_end(s).len() > 0 ==> !is_white_space(trim_end(s)[0]) && !is_white_space(trim_end(s).last()),
        trim_start(trim_end(s)) == trim_end(s),
        trim_end(trim_end(s)) == trim_end(s),
    decreases s.len(),
{
    if s.len() > 0 && is_white_space(s.last()) {
        let d = s.drop_last();
        if d.len() > 0 {
            assert(d[0] == s[0]);
        }
        lemma_trim_end_keeps_start(d);
    }
}

/// A trimmed string has no white space at either end, and trimming it again
/// changes nothing.
pub proof fn lemma_trimmed(s: Seq<char>)
    ensures
        trimmed(s).len() > 0 ==> !is_white_space(trimmed(s)[0]) && !is_white_space(trimmed(s).last()),
        trimmed(trimmed(s)) == trimmed(s),
{
    lemma_trim_start_edge(s);
    lemma_trim_end_keeps_start(trim_start(s));
}

/// Relies on the `Display` impl of `u64`: the decimal digits, no sign, no padding.
#[verifier::external_body]
pub(crate) fn decimal(n: u64) -> (r: String)
    ensures
        r@ == decimal_of(n as nat),
{
    n.to_string()
}

/// Relies on `str::contains` with a `&str` pattern: true exactly when the pattern
/// occurs in the text.
#[verifier::external_body]
pub(crate) fn contains_str(t: &str, q: &str) -> (r: bool)
    ensures
        r == contains_run(t@, q@),
{
    t.contains(q)
}

/// Relies on `str::trim`: leading and trailing characters with the Unicode
/// White_Space property removed.
#[verifier::external_body]
pub(crate) fn trim_str(s: &str) -> (r: String)
    ensures
        r@ == trimmed(s@),
{
    s.trim().to_owned()
}

/// The normalisation applied to typed text before it is stored: an empty input is
/// kept, any other input loses its leading and trailing whitespace.
pub open spec fn normalized(s: Seq<char>) -> Seq<char> {
    if s.len() == 0 { s } else { trimmed(s) }
}

pub fn filter_input(inp: String) -> (r: String)
    ensures
        r@ == normalized(inp@),
{
    if inp.as_str().unicode_len() == 0 {
        return inp;
    }
    trim_str(inp.as_str())
}

/// `a` followed by `b`.
pub(crate) fn join(a: String, b: &str) -> (r: String)
    ensures
        r@ == a@ + b@,
{
    a.concat(b)
}

/// The two-digit rendering of a minute, with a leading zero below ten.
pub open spec fn two_digits(m: nat) -> Seq<char> {
    if m < 10 { seq!['0'] + decimal_of(m) } else { decimal_of(m) }
}

pub fn pad_minute(m: u32) -> (r: String)
    ensures
        r@ == two_digits(m as nat),
{
    let d = decimal(m as u64);
    if m < 10 {
        let z = String::from_str("0");
        proof {
            reveal_strlit("0");
        }
        join(z, d.as_str())
    } else {
        d
    }
}

} // verus!
