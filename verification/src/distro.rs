//! Finding out which distribution the host runs, and what the package
//! registry would call darling's module for it.

use crate::text::{characters, is_space, is_whitespace};
use convert_case::{Case, Casing};
use vstd::prelude::*;
use vstd::string::StringExecFns;

verus! {

/// Whether the identification field starts at position `i` of `s`: a line
/// begins there with the three characters `ID=`, and what follows them is not
/// white space. A key that only ends in `ID`, such as `VERSION_ID`, is not the
/// field.
pub open spec fn field_at(s: Seq<char>, i: int) -> bool {
    &&& 0 <= i
    &&& i + 3 < s.len()
    &&& (i == 0 || s[i - 1] == '\n')
    &&& s[i] == 'I'
    &&& s[i + 1] == 'D'
    &&& s[i + 2] == '='
    &&& !is_space(s[i + 3])
}

/// The first position at or after `from` where the field starts, if any.
pub open spec fn first_field(s: Seq<char>, from: int) -> Option<int>
    decreases s.len() - from,
{
    if from < 0 || from + 3 >= s.len() {
        None
    } else if field_at(s, from) {
        Some(from)
    } else {
        first_field(s, from + 1)
    }
}

/// Where the run of characters other than white space that holds position
/// `from` ends: the first position at or after `from` with white space, or the
/// length of `s`.
pub open spec fn token_end(s: Seq<char>, from: int) -> int
    decreases s.len() - from,
{
    if 0 <= from < s.len() && !is_space(s[from]) {
        token_end(s, from + 1)
    } else {
        from
    }
}

/// The distribution's identifier as the release file `s` gives it: what
/// follows `ID=` in the first line that holds the field, up to the next
/// white space.
pub open spec fn distro_id(s: Seq<char>) -> Option<Seq<char>> {
    match first_field(s, 0) {
        Some(i) => Some(s.subrange(i + 3, token_end(s, i + 3))),
        None => None,
    }
}

/// Reads the distribution's identifier from the text of the release file.
///
/// Nothing is returned when no line of the text begins with `ID=` and a
/// character other than white space.
pub fn detect(release: &str) -> (id: Option<String>)
    ensures
        match id {
            Some(name) => distro_id(release@) == Some(name@),
            None => distro_id(release@) is None,
        },
{
    let chars = characters(release);
    let n = chars.len();
    if n < 4 {
        return None;
    }
    let mut i: usize = 0;
    while i < n - 3
        invariant
            chars@ == release@,
            n == chars.len(),
            n >= 4,
            i <= n - 3,
            first_field(release@, 0) == first_field(release@, i as int),
        decreases n - i,
    {
        if (i == 0 || chars[i - 1] == '\n') && chars[i] == 'I' && chars[i + 1] == 'D' && chars[i
            + 2] == '=' && !is_whitespace(chars[i + 3]) {
            let start = i + 3;
            let mut end: usize = start + 1;
            while end < n && !is_whitespace(chars[end])
                invariant
                    chars@ == release@,
                    n == chars.len(),
                    start < end <= n,
                    token_end(release@, start as int) == token_end(release@, end as int),
                decreases n - end,
            {
                end = end + 1;
            }
            return Some(release.substring_char(start, end).to_owned());
        }
        i = i + 1;
    }
    None
}

/// `first_field` finds the least position at or after `from` where the field
/// starts, and finds none only where there is none.
pub proof fn first_field_is_least(s: Seq<char>, from: int)
    requires
        0 <= from,
    ensures
        match first_field(s, from) {
            Some(i) => from <= i && field_at(s, i) && forall|j: int|
                from <= j < i ==> !field_at(s, j),
            None => forall|j: int| from <= j ==> !field_at(s, j),
        },
    decreases s.len() - from,
{
    if from + 3 < s.len() && !field_at(s, from) {
        first_field_is_least(s, from + 1);
    }
}

/// The run that `token_end` measures holds no white space, and ends at white
/// space or at the end of `s`.
pub proof fn token_end_is_first_space(s: Seq<char>, from: int)
    requires
        0 <= from <= s.len(),
    ensures
        from <= token_end(s, from) <= s.len(),
        forall|k: int| from <= k < token_end(s, from) ==> !is_space(s[k]),
        token_end(s, from) == s.len() || is_space(s[token_end(s, from)]),
    decreases s.len() - from,
{
    if from < s.len() && !is_space(s[from]) {
        token_end_is_first_space(s, from + 1);
    }
}

/// Detection returns the token that follows `ID=` in the first line that
/// holds the field: it is not empty, holds no white space, and white space or
/// the end of the text follows it. Where no line holds the field, and only
/// there, nothing is returned.
pub proof fn detection_returns_the_token(s: Seq<char>)
    ensures
        match distro_id(s) {
            Some(token) => exists|i: int|
                {
                    &&& #[trigger] field_at(s, i)
                    &&& forall|j: int| 0 <= j < i ==> !field_at(s, j)
                    &&& token.len() > 0
                    &&& i + 3 + token.len() <= s.len()
                    &&& token == s.subrange(i + 3, i + 3 + token.len())
                    &&& forall|k: int| 0 <= k < token.len() ==> !is_space(token[k])
                    &&& (i + 3 + token.len() == s.len() || is_space(s[i + 3 + token.len()]))
                },
            None => forall|i: int| !field_at(s, i),
        },
{
    first_field_is_least(s, 0);
    if let Some(i) = first_field(s, 0) {
        token_end_is_first_space(s, i + 3);
    }
}

/// Whether the field starts somewhere in `line`.
pub open spec fn has_field(line: Seq<char>) -> bool {
    exists|i: int| field_at(line, i)
}

/// The text made of `lines`, with a line feed between each two.
pub open spec fn joined(lines: Seq<Seq<char>>) -> Seq<char>
    decreases lines.len(),
{
    if lines.len() == 0 {
        Seq::empty()
    } else if lines.len() == 1 {
        lines[0]
    } else {
        lines[0] + seq!['\n'] + joined(lines.drop_first())
    }
}

/// In two texts with a line feed between them, the field starts where it
/// starts in one of the two.
proof fn field_in_two(x: Seq<char>, y: Seq<char>, i: int)
    ensures
        field_at(x + seq!['\n'] + y, i) <==> field_at(x, i) || field_at(y, i - x.len() - 1),
{
}

/// A token of the first of two texts ends where it ends in that text alone.
proof fn token_in_first(x: Seq<char>, y: Seq<char>, from: int)
    requires
        0 <= from <= x.len(),
    ensures
        token_end(x + seq!['\n'] + y, from) == token_end(x, from),
    decreases x.len() - from,
{
    if from < x.len() && !is_space(x[from]) {
        token_in_first(x, y, from + 1);
    }
}

/// A token of the second of two texts ends where it ends in that text alone.
proof fn token_in_second(x: Seq<char>, y: Seq<char>, from: int)
    requires
        0 <= from <= y.len(),
    ensures
        token_end(x + seq!['\n'] + y, x.len() + 1 + from) == x.len() + 1 + token_end(y, from),
    decreases y.len() - from,
{
    if from < y.len() && !is_space(y[from]) {
        token_in_second(x, y, from + 1);
    }
}

/// Of two texts with a line feed between them, the first decides where it
/// holds the field, the second where it does not.
proof fn detection_in_two(x: Seq<char>, y: Seq<char>)
    ensures
        distro_id(x + seq!['\n'] + y) == if has_field(x) {
            distro_id(x)
        } else {
            distro_id(y)
        },
{
    let s = x + seq!['\n'] + y;
    first_field_is_least(s, 0);
    first_field_is_least(x, 0);
    first_field_is_least(y, 0);
    assert forall|i: int|
        field_at(s, i) <==> field_at(x, i) || field_at(y, i - x.len() - 1) by {
        field_in_two(x, y, i);
    }
    if has_field(x) {
        let i = first_field(x, 0)->0;
        token_in_first(x, y, i + 3);
        token_end_is_first_space(x, i + 3);
    } else if let Some(i) = first_field(y, 0) {
        field_in_two(x, y, x.len() + 1 + i);
        token_in_second(x, y, i + 3);
        token_end_is_first_space(y, i + 3);
    }
}

/// A text gives an identifier exactly when the field starts somewhere in it.
pub proof fn detection_needs_the_field(s: Seq<char>)
    ensures
        distro_id(s) is Some <==> has_field(s),
{
    first_field_is_least(s, 0);
}

/// Where every line that holds the field gives the identifier that line `k`
/// gives, the whole text gives it too.
pub proof fn detection_follows_the_line(lines: Seq<Seq<char>>, k: int)
    requires
        0 <= k < lines.len(),
        forall|j: int|
            0 <= j < lines.len() && has_field(lines[j]) ==> distro_id(lines[j]) == distro_id(
                lines[k],
            ),
    ensures
        distro_id(joined(lines)) == distro_id(lines[k]),
    decreases lines.len(),
{
    if lines.len() > 1 {
        let rest = lines.drop_first();
        let next = if k > 0 {
            k - 1
        } else {
            0
        };
        detection_in_two(lines[0], joined(rest));
        detection_needs_the_field(lines[0]);
        if !has_field(lines[0]) {
            assert forall|j: int| 0 <= j < rest.len() && has_field(rest[j]) implies distro_id(
                rest[j],
            ) == distro_id(rest[next]) by {
                detection_needs_the_field(rest[j]);
            }
            detection_follows_the_line(rest, next);
            detection_needs_the_field(rest[next]);
        }
    }
}

/// In a line, the field can only stand at the start.
pub proof fn field_stands_at_the_start(line: Seq<char>)
    requires
        forall|k: int| 0 <= k < line.len() ==> line[k] != '\n',
    ensures
        has_field(line) <==> field_at(line, 0),
{
}

/// A line made of `ID=`, a token and, after white space, anything else gives
/// the token, exactly as it stands.
pub proof fn detection_on_a_field_line(token: Seq<char>, rest: Seq<char>)
    requires
        token.len() > 0,
        forall|k: int| 0 <= k < token.len() ==> !is_space(token[k]),
        rest.len() == 0 || is_space(rest[0]),
    ensures
        distro_id(seq!['I', 'D', '='] + token + rest) == Some(token),
{
    let line = seq!['I', 'D', '='] + token + rest;
    assert(field_at(line, 0));
    token_end_is_first_space(line, 3);
    let end = token_end(line, 3);
    let after = 3 + token.len() as int;
    if end < after {
        assert(line[end] == token[end - 3]);
    }
    if end > after {
        assert(line[after] == rest[0]);
    }
    assert(line.subrange(3, after) =~= token);
}

/// A text none of whose lines holds the field gives nothing.
pub proof fn detection_without_the_field(lines: Seq<Seq<char>>)
    requires
        forall|j: int| 0 <= j < lines.len() ==> !has_field(lines[j]),
    ensures
        distro_id(joined(lines)) is None,
{
    if lines.len() > 0 {
        detection_follows_the_line(lines, 0);
        detection_needs_the_field(lines[0]);
    }
}

/// Detection does not depend on the order of the lines: two texts made of the
/// same lines give the same result, provided that the lines which hold the
/// field all give the same identifier.
pub proof fn detection_ignores_line_order(a: Seq<Seq<char>>, b: Seq<Seq<char>>)
    requires
        a.to_multiset() == b.to_multiset(),
        forall|i: int, j: int|
            0 <= i < a.len() && 0 <= j < a.len() && has_field(a[i]) && has_field(a[j])
                ==> distro_id(a[i]) == distro_id(a[j]),
    ensures
        distro_id(joined(a)) == distro_id(joined(b)),
{
    a.to_multiset_ensures();
    b.to_multiset_ensures();
    assert forall|line: Seq<char>| a.contains(line) <==> b.contains(line) by {
        assert(b.contains(line) <==> b.to_multiset().count(line) > 0);
    }
    if a.len() > 0 {
        let k = if exists|i: int| 0 <= i < a.len() && has_field(a[i]) {
            choose|i: int| 0 <= i < a.len() && has_field(a[i])
        } else {
            0
        };
        assert(a.contains(a[k]));
        let m = choose|m: int| 0 <= m < b.len() && b[m] == a[k];
        assert forall|j: int| 0 <= j < b.len() && has_field(b[j]) implies distro_id(b[j])
            == distro_id(b[m]) by {
            assert(b.contains(b[j]));
        }
        detection_follows_the_line(a, k);
        detection_follows_the_line(b, m);
    }
}

/// The name under which the registry would list darling's module for the
/// distribution `distro`.
pub open spec fn candidate_name(distro: Seq<char>) -> Seq<char> {
    "darling-"@ + distro
}

/// The package to search the registry for.
pub fn candidate(distro: &str) -> (package: String)
    ensures
        package@ == candidate_name(distro@),
{
    String::from_str("darling-").concat(distro)
}

/// Whether what a registry search printed shows that the package exists:
/// anything at all does, an empty output does not.
pub fn is_listed(output: &str) -> (listed: bool)
    ensures
        listed == (output@.len() > 0),
{
    output.unicode_len() > 0
}

/// The title-case form that `convert_case` gives a string.
pub uninterp spec fn title_case(s: Seq<char>) -> Seq<char>;

/// `Casing::to_case` with `Case::Title`: the result is the title-case form of
/// the argument, which depends on nothing but the argument's characters.
#[verifier::external_body]
pub(crate) fn to_title_case(s: &str) -> (title: String)
    ensures
        title@ == title_case(s@),
{
    s.to_case(Case::Title)
}

} // verus!
