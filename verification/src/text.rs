//! Characters and strings: white space, trimming, lower case.

use vstd::prelude::*;

verus! {

/// Whether `c` has the Unicode property `White_Space`.
pub open spec fn is_space(c: char) -> bool {
    let n: u32 = c as u32;
    ||| 0x09 <= n <= 0x0D
    ||| n == 0x20
    ||| n == 0x85
    ||| n == 0xA0
    ||| n == 0x1680
    ||| 0x2000 <= n <= 0x200A
    ||| n == 0x2028
    ||| n == 0x2029
    ||| n == 0x202F
    ||| n == 0x205F
    ||| n == 0x3000
}

/// Tells whether a character is white space.
pub fn is_whitespace(c: char) -> (b: bool)
    ensures
        b == is_space(c),
{
    let n: u32 = c as u32;
    (0x09 <= n && n <= 0x0D) || n == 0x20 || n == 0x85 || n == 0xA0 || n == 0x1680 || (0x2000 <= n
        && n <= 0x200A) || n == 0x2028 || n == 0x2029 || n == 0x202F || n == 0x205F || n == 0x3000
}

/// The characters of a string, in order.
pub fn characters(s: &str) -> (v: Vec<char>)
    ensures
        v@ == s@,
{
    let mut v: Vec<char> = Vec::new();
    for c in it: s.chars()
        invariant
            it.seq() == s@,
            v@ == it.seq().take(it.index()),
    {
        v.push(c);
    }
    v
}

/// `s` without the white space it begins with.
pub open spec fn trim_start(s: Seq<char>) -> Seq<char>
    decreases s.len(),
{
    if s.len() > 0 && is_space(s[0]) {
        trim_start(s.drop_first())
    } else {
        s
    }
}

/// `s` without the white space it ends with.
pub open spec fn trim_end(s: Seq<char>) -> Seq<char>
    decreases s.len(),
{
    if s.len() > 0 && is_space(s.last()) {
        trim_end(s.drop_last())
    } else {
        s
    }
}

/// `s` without leading and trailing white space.
pub open spec fn trimmed(s: Seq<char>) -> Seq<char> {
    trim_end(trim_start(s))
}

/// Removes leading and trailing white space.
pub fn trim(s: &str) -> (t: &str)
    ensures
        t@ == trimmed(s@),
{
    let chars = characters(s);
    let n = chars.len();
    let mut from: usize = 0;
    assert(s@.subrange(0, n as int) == s@);
    while from < n && is_whitespace(chars[from])
        invariant
            chars@ == s@,
            n == chars.len(),
            from <= n,
            trim_start(s@) == trim_start(s@.subrange(from as int, n as int)),
        decreases n - from,
    {
        assert(s@.subrange(from as int, n as int).drop_first() == s@.subrange(
            from as int + 1,
            n as int,
        ));
        from = from + 1;
    }
    let mut to: usize = n;
    while to > from && is_whitespace(chars[to - 1])
        invariant
            chars@ == s@,
            n == chars.len(),
            from <= to <= n,
            trimmed(s@) == trim_end(s@.subrange(from as int, to as int)),
        decreases to,
    {
        assert(s@.subrange(from as int, to as int).drop_last() == s@.subrange(
            from as int,
            to as int - 1,
        ));
        to = to - 1;
    }
    s.substring_char(from, to)
}

/// The lower-case form that the standard library gives a string.
pub uninterp spec fn lowercase(s: Seq<char>) -> Seq<char>;

/// `str::to_lowercase`: the result is the lower-case form of the argument,
/// which depends on nothing but the argument's characters.
#[verifier::external_body]
pub(crate) fn to_lowercase(s: &str) -> (lowered: String)
    ensures
        lowered@ == lowercase(s@),
{
    s.to_lowercase()
}

} // verus!
