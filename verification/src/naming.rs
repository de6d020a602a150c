//! Deterministic names for the still images, and the timestamp token that
//! goes into them.

use vstd::prelude::*;
use vstd::string::*;
use crate::text::{decimal, push_decimal};

verus! {

/// One field of a timestamp pattern: a percent sign and its letter.
pub open spec fn field(letter: char) -> Seq<char> {
    seq!['%', letter]
}

/// The six fields, year to second, with a text between each two of them.
pub open spec fn six_fields(
    s1: Seq<char>,
    s2: Seq<char>,
    s3: Seq<char>,
    s4: Seq<char>,
    s5: Seq<char>,
) -> Seq<char> {
    field('Y') + s1 + field('m') + s2 + field('d') + s3 + field('H') + s4 + field('M') + s5
        + field('S')
}

/// The six fields with `sep` between each two of them.
pub open spec fn joined_pattern(sep: Seq<char>) -> Seq<char> {
    six_fields(sep, sep, sep, sep, sep)
}

/// The pattern used when no separator is asked for: a date with dashes, a
/// space, a time with colons.
pub open spec fn default_pattern() -> Seq<char> {
    six_fields(seq!['-'], seq!['-'], seq![' '], seq![':'], seq![':'])
}

/// The pattern for an optional separator.
pub open spec fn pattern_for(concat: Option<Seq<char>>) -> Seq<char> {
    match concat {
        Some(sep) => joined_pattern(sep),
        None => default_pattern(),
    }
}

/// A text without a percent sign.
pub open spec fn free_of_percent(s: Seq<char>) -> bool {
    forall|i: int| 0 <= i < s.len() ==> #[trigger] s[i] != '%'
}

/// A decimal digit.
pub open spec fn is_digit(c: char) -> bool {
    '0' as u32 <= c as u32 <= '9' as u32
}

/// A text of decimal digits.
pub open spec fn all_digits(s: Seq<char>) -> bool {
    forall|i: int| 0 <= i < s.len() ==> is_digit(#[trigger] s[i])
}

/// Two decimal digits: how a month, a day, an hour, a minute or a second is
/// written.
pub open spec fn two_digits(s: Seq<char>) -> bool {
    s.len() == 2 && all_digits(s)
}

/// How a year is written: four digits, or, for a year before 0 or after 9999,
/// a sign and at least four digits.
pub open spec fn year_digits(s: Seq<char>) -> bool {
    ||| s.len() == 4 && all_digits(s)
    ||| s.len() >= 5 && (s[0] == '+' || s[0] == '-') && all_digits(s.skip(1))
}

/// The six fields of one moment, each as it is written.
pub struct Stamp {
    pub year: Seq<char>,
    pub month: Seq<char>,
    pub day: Seq<char>,
    pub hour: Seq<char>,
    pub minute: Seq<char>,
    pub second: Seq<char>,
}

/// Each field is written as its kind is.
pub open spec fn shaped(stamp: Stamp) -> bool {
    &&& year_digits(stamp.year)
    &&& two_digits(stamp.month)
    &&& two_digits(stamp.day)
    &&& two_digits(stamp.hour)
    &&& two_digits(stamp.minute)
    &&& two_digits(stamp.second)
}

/// The fields of `stamp`, year to second, with a text between each two of
/// them.
pub open spec fn stamp_text(
    stamp: Stamp,
    s1: Seq<char>,
    s2: Seq<char>,
    s3: Seq<char>,
    s4: Seq<char>,
    s5: Seq<char>,
) -> Seq<char> {
    stamp.year + s1 + stamp.month + s2 + stamp.day + s3 + stamp.hour + s4 + stamp.minute + s5
        + stamp.second
}

/// `text` is some moment written out: a year, a month, a day, an hour, a
/// minute and a second with the given texts between them.
pub open spec fn is_stamp(
    text: Seq<char>,
    s1: Seq<char>,
    s2: Seq<char>,
    s3: Seq<char>,
    s4: Seq<char>,
    s5: Seq<char>,
) -> bool {
    exists|stamp: Stamp| shaped(stamp) && text == #[trigger] stamp_text(stamp, s1, s2, s3, s4, s5)
}

/// `text` is some moment written out for an optional separator: with `sep`
/// between the fields, or in the form `2024-01-31 13:05:59` without one.
pub open spec fn stamp_for(concat: Option<Seq<char>>, text: Seq<char>) -> bool {
    match concat {
        Some(sep) => is_stamp(text, sep, sep, sep, sep, sep),
        None => is_stamp(text, seq!['-'], seq!['-'], seq![' '], seq![':'], seq![':']),
    }
}

/// What a rendering of `pattern` has to be like: where the pattern is the six
/// fields with texts free of percent signs between them, there is a text, and
/// it is a moment written out with those texts between its fields.
pub open spec fn rendered_as(pattern: Seq<char>, text: Option<Seq<char>>) -> bool {
    forall|s1: Seq<char>, s2: Seq<char>, s3: Seq<char>, s4: Seq<char>, s5: Seq<char>|
        pattern == #[trigger] six_fields(s1, s2, s3, s4, s5) && free_of_percent(s1)
            && free_of_percent(s2) && free_of_percent(s3) && free_of_percent(s4)
            && free_of_percent(s5) ==> (text matches Some(t) && is_stamp(t, s1, s2, s3, s4, s5))
}

/// The characters of a text, where there is one.
pub open spec fn text_of(text: Option<String>) -> Option<Seq<char>> {
    match text {
        Some(t) => Some(t@),
        None => None,
    }
}

/// The separator as a sequence of characters, where there is one.
pub open spec fn separator_of(concat: Option<&str>) -> Option<Seq<char>> {
    match concat {
        Some(sep) => Some(sep@),
        None => None,
    }
}

/// Builds the timestamp pattern: the six fields with `concat` between them,
/// or the dashed and coloned default when there is none.
pub fn timestamp_pattern(concat: Option<&str>) -> (pattern: String)
    ensures
        pattern@ == pattern_for(
            match concat {
                Some(sep) => Some(sep@),
                None => None,
            },
        ),
{
    proof {
        reveal_strlit("%Y");
        reveal_strlit("%m");
        reveal_strlit("%d");
        reveal_strlit("%H");
        reveal_strlit("%M");
        reveal_strlit("%S");
        reveal_strlit("-");
        reveal_strlit(" ");
        reveal_strlit(":");
        assert("%Y"@ =~= field('Y'));
        assert("%m"@ =~= field('m'));
        assert("%d"@ =~= field('d'));
        assert("%H"@ =~= field('H'));
        assert("%M"@ =~= field('M'));
        assert("%S"@ =~= field('S'));
        assert("-"@ =~= seq!['-']);
        assert(" "@ =~= seq![' ']);
        assert(":"@ =~= seq![':']);
    }
    let mut pattern = String::new();
    assert(pattern@ + field('Y') =~= field('Y'));
    pattern.append("%Y");
    match concat {
        Some(sep) => {
            pattern.append(sep);
            pattern.append("%m");
            pattern.append(sep);
            pattern.append("%d");
            pattern.append(sep);
            pattern.append("%H");
            pattern.append(sep);
            pattern.append("%M");
            pattern.append(sep);
            pattern.append("%S");
        },
        None => {
            pattern.append("-");
            pattern.append("%m");
            pattern.append("-");
            pattern.append("%d");
            pattern.append(" ");
            pattern.append("%H");
            pattern.append(":");
            pattern.append("%M");
            pattern.append(":");
            pattern.append("%S");
        },
    }
    pattern
}

/// Calls `chrono::Local::now`, then `DateTime::format` with `pattern`, and
/// renders the outcome into a `String` with `DelayedFormat::write_to`, which
/// reports a pattern that chrono does not accept as an error; that error
/// becomes `None`. Trusted: for a pattern made of the six fields `%Y`, `%m`,
/// `%d`, `%H`, `%M`, `%S` in this order, with texts free of percent signs
/// between them, the rendering succeeds and gives the texts as they are, a
/// year of four digits (or of a sign and at least four digits) and two digits
/// for each of the other fields. Which digits is not claimed: they depend on
/// the clock and on the time zone.
#[verifier::external_body]
fn local_time_text(pattern: &str) -> (text: Option<String>)
    ensures
        rendered_as(pattern@, text_of(text)),
{
    let mut text = String::new();
    match chrono::Local::now().format(pattern).write_to(&mut text) {
        Ok(()) => Some(text),
        Err(_) => None,
    }
}

/// The current local time as text: year, month, day, hour, minute and second
/// with `concat` between them, or in the form `2024-01-31 13:05:59` when there
/// is no `concat`. Whenever the separator holds no percent sign there is a
/// text, and it is a moment written out in that form. With a percent sign in
/// the separator, whether there is a text, and which, depends on what the
/// separator makes of the pattern.
pub fn try_current_str(concat: Option<&str>) -> (text: Option<String>)
    ensures
        (concat matches Some(sep) ==> free_of_percent(sep@)) ==> (text matches Some(t)
            && stamp_for(separator_of(concat), t@)),
{
    let pattern = timestamp_pattern(concat);
    proof {
        match concat {
            Some(sep) => {
                assert(pattern@ == six_fields(sep@, sep@, sep@, sep@, sep@));
            },
            None => {
                assert(free_of_percent(seq!['-']));
                assert(free_of_percent(seq![' ']));
                assert(free_of_percent(seq![':']));
                assert(pattern@ == six_fields(seq!['-'], seq!['-'], seq![' '], seq![':'], seq![':']));
            },
        }
    }
    local_time_text(pattern.as_str())
}

/// The current local time as text, for a separator that holds no percent
/// sign: a moment written out with `concat` between its fields, or in the form
/// `2024-01-31 13:05:59` when there is no `concat`.
pub fn get_current_str(concat: Option<&str>) -> (text: String)
    requires
        concat matches Some(sep) ==> free_of_percent(sep@),
    ensures
        stamp_for(separator_of(concat), text@),
{
    match try_current_str(concat) {
        Some(text) => text,
        None => unreached(),
    }
}

/// The name of the image of frame `ordinal`: fingerprint, token and ordinal
/// joined by underscores, with the extension `.jpg`.
pub open spec fn name_of(fingerprint: Seq<char>, token: Seq<char>, ordinal: nat) -> Seq<char> {
    fingerprint + seq!['_'] + token + seq!['_'] + decimal(ordinal) + seq!['.', 'j', 'p', 'g']
}

/// Where a file called `name` lies under the directory `dir`: a rooted name
/// stands alone, an empty directory or one that ends in a slash is prefixed as
/// it is, and any other directory is followed by one slash.
pub open spec fn path_under(dir: Seq<char>, name: Seq<char>) -> Seq<char> {
    if name.len() > 0 && name[0] == '/' {
        name
    } else if dir.len() == 0 || dir.last() == '/' {
        dir + name
    } else {
        dir + seq!['/'] + name
    }
}

/// Builds the name of the image of frame `ordinal`.
pub fn artifact_name(fingerprint: &str, token: &str, ordinal: u128) -> (name: String)
    ensures
        name@ == name_of(fingerprint@, token@, ordinal as nat),
{
    proof {
        reveal_strlit("_");
        reveal_strlit(".jpg");
        assert("_"@ =~= seq!['_']);
        assert(".jpg"@ =~= seq!['.', 'j', 'p', 'g']);
    }
    let mut name = String::new();
    assert(name@ + fingerprint@ =~= fingerprint@);
    name.append(fingerprint);
    name.append("_");
    name.append(token);
    name.append("_");
    push_decimal(&mut name, ordinal);
    name.append(".jpg");
    name
}

/// Builds the path of the file `name` under the directory `dir`.
pub fn artifact_path(dir: &str, name: &str) -> (path: String)
    ensures
        path@ == path_under(dir@, name@),
{
    proof {
        reveal_strlit("/");
        assert("/"@ =~= seq!['/']);
    }
    let mut path = String::new();
    let name_len: usize = name.unicode_len();
    if name_len > 0 && name.get_char(0) == '/' {
        assert(path@ + name@ =~= name@);
        path.append(name);
        return path;
    }
    let dir_len: usize = dir.unicode_len();
    assert(path@ + dir@ =~= dir@);
    path.append(dir);
    if dir_len > 0 && dir.get_char(dir_len - 1) != '/' {
        path.append("/");
    }
    path.append(name);
    path
}

} // verus!
