//! Version strings derived from the git version the server was built from.

use vstd::prelude::*;
use vstd::string::*;

verus! {

/// The development stage every displayed version starts with.
pub const VELOREN_VERSION_STAGE: &'static str = "Pre-Alpha";

/// The commit hash the release was cut from.
pub const GIT_HASH: &'static str = "640337a8";

/// The date of the release.
pub const GIT_DATE: &'static str = "2024-10-15";

/// The layout of the date-time field of a git version: year, month, day, hour and minute.
pub const GIT_DATETIME_FORMAT: &'static str = "%Y-%m-%d-%H:%M";

/// Index of the first `sep` in `s` at or after `from`, or the length of `s` when none follows.
pub open spec fn next_sep(s: Seq<char>, sep: char, from: int) -> int
    decreases s.len() - from,
{
    if from < 0 || from >= s.len() {
        s.len() as int
    } else if s[from] == sep {
        from
    } else {
        next_sep(s, sep, from + 1)
    }
}

/// Start and end of the `n`-th field (from zero) of `s`, read from `from` on and cut at each `sep`.
pub open spec fn field_bounds(s: Seq<char>, sep: char, from: int, n: nat) -> Option<(int, int)>
    decreases n,
{
    let end = next_sep(s, sep, from);
    if n == 0 {
        Some((from, end))
    } else if end >= s.len() {
        None
    } else {
        field_bounds(s, sep, end + 1, (n - 1) as nat)
    }
}

/// The `n`-th field (from zero) of `s` cut at each `sep`: what `split(sep).nth(n)` yields.
pub open spec fn split_nth(s: Seq<char>, sep: char, n: nat) -> Option<Seq<char>> {
    match field_bounds(s, sep, 0, n) {
        Some((start, end)) => Some(s.subrange(start, end)),
        None => None,
    }
}

proof fn lemma_next_sep_bounds(s: Seq<char>, sep: char, from: int)
    requires
        0 <= from <= s.len(),
    ensures
        from <= next_sep(s, sep, from) <= s.len(),
        forall|j: int| from <= j < next_sep(s, sep, from) ==> s[j] != sep,
    decreases s.len() - from,
{
    if from < s.len() && s[from] != sep {
        lemma_next_sep_bounds(s, sep, from + 1);
    }
}

proof fn lemma_field_bounds_no_sep(s: Seq<char>, sep: char, from: int, n: nat)
    requires
        0 <= from <= s.len(),
    ensures
        field_bounds(s, sep, from, n) matches Some((start, end)) ==> {
            &&& 0 <= start <= end <= s.len()
            &&& forall|j: int| start <= j < end ==> s[j] != sep
        },
    decreases n,
{
    lemma_next_sep_bounds(s, sep, from);
    let end = next_sep(s, sep, from);
    if n > 0 && end < s.len() {
        lemma_field_bounds_no_sep(s, sep, end + 1, (n - 1) as nat);
    }
}

/// A field never holds the separator it was cut at.
pub proof fn lemma_field_has_no_separator(s: Seq<char>, sep: char, n: nat)
    ensures
        split_nth(s, sep, n) matches Some(field) ==> !field.contains(sep),
{
    lemma_field_bounds_no_sep(s, sep, 0, n);
    if let Some(field) = split_nth(s, sep, n) {
        let (start, end) = field_bounds(s, sep, 0, n).unwrap();
        assert forall|j: int| 0 <= j < field.len() implies field[j] != sep by {
            assert(field[j] == s[start + j]);
        }
    }
}

fn find_sep(s: &str, len: usize, sep: char, from: usize) -> (r: usize)
    requires
        len == s@.len(),
        from <= len,
    ensures
        r == next_sep(s@, sep, from as int),
        from <= r <= len,
{
    let mut i = from;
    while i < len
        invariant
            from <= i <= len,
            len == s@.len(),
            next_sep(s@, sep, i as int) == next_sep(s@, sep, from as int),
        decreases len - i,
    {
        if s.get_char(i) == sep {
            return i;
        }
        i = i + 1;
    }
    i
}

/// The `n`-th field (from zero) of `s` cut at each `sep`, or `None` when `s` has fewer fields.
pub fn split_nth_field<'a>(s: &'a str, sep: char, n: usize) -> (r: Option<&'a str>)
    ensures
        match r {
            Some(field) => split_nth(s@, sep, n as nat) == Some(field@),
            None => split_nth(s@, sep, n as nat) is None,
        },
{
    let len = s.unicode_len();
    let mut start: usize = 0;
    let mut k: usize = 0;
    loop
        invariant
            start <= len,
            len == s@.len(),
            k <= n,
            field_bounds(s@, sep, 0, n as nat) == field_bounds(s@, sep, start as int, (n - k) as nat),
        decreases n - k,
    {
        let end = find_sep(s, len, sep, start);
        if k == n {
            return Some(s.substring_char(start, end));
        }
        if end >= len {
            return None;
        }
        start = end + 1;
        k = k + 1;
    }
}

/// The date-time field of a git version `"<hash>/<date-time>/..."`: its second `/`-field.
pub fn git_datetime<'a>(git_version: &'a str) -> (r: Option<&'a str>)
    ensures
        match r {
            Some(field) => split_nth(git_version@, '/', 1) == Some(field@),
            None => split_nth(git_version@, '/', 1) is None,
        },
{
    split_nth_field(git_version, '/', 1)
}

/// The time part of a git date-time `"<year>-<month>-<day>-<time>"`: its fourth `-`-field.
pub fn git_time<'a>(git_datetime: &'a str) -> (r: Option<&'a str>)
    ensures
        match r {
            Some(field) => split_nth(git_datetime@, '-', 3) == Some(field@),
            None => split_nth(git_datetime@, '-', 3) is None,
        },
{
    split_nth_field(git_datetime, '-', 3)
}

/// What chrono reads from `text` laid out as `format`: the date-time as seconds since the
/// Unix epoch, taken as UTC, or `None` where chrono refuses the text.
pub uninterp spec fn naive_utc_timestamp(text: Seq<char>, format: Seq<char>) -> Option<i64>;

/// Calls `chrono::NaiveDateTime::parse_from_str(text, format)` and reads a parsed date-time
/// as a UTC Unix timestamp (`and_utc().timestamp()`); a parse error gives `None`.
/// The contract names the result and does not restate chrono's format language.
#[verifier::external_body]
fn parse_utc_timestamp(text: &str, format: &str) -> (r: Option<i64>)
    ensures
        r == naive_utc_timestamp(text@, format@),
{
    match chrono::NaiveDateTime::parse_from_str(text, format) {
        Ok(datetime) => Some(datetime.and_utc().timestamp()),
        Err(_) => None,
    }
}

/// The Unix timestamp of a git date-time laid out as `GIT_DATETIME_FORMAT`, or `None` where it
/// is not laid out so.
pub fn git_date_timestamp(git_datetime: &str) -> (r: Option<i64>)
    ensures
        r == naive_utc_timestamp(git_datetime@, GIT_DATETIME_FORMAT@),
{
    parse_utc_timestamp(git_datetime, GIT_DATETIME_FORMAT)
}

/// The short displayed version: the stage, a dash, then the git tag, or the release date
/// where the build has no tag.
pub open spec fn display_version_text(git_tag: Seq<char>, git_date: Seq<char>) -> Seq<char> {
    VELOREN_VERSION_STAGE@ + "-"@ + if git_tag.len() == 0 {
        git_date
    } else {
        git_tag
    }
}

/// The long displayed version: the short one, then in brackets the commit hash where the build
/// has no tag, or the whole git version where it has one.
pub open spec fn display_version_long_text(
    git_tag: Seq<char>,
    display_version: Seq<char>,
    git_hash: Seq<char>,
    git_version: Seq<char>,
) -> Seq<char> {
    display_version + " ("@ + (if git_tag.len() == 0 {
        git_hash
    } else {
        git_version
    }) + ")"@
}

/// The short version of a tagged build is "Pre-Alpha-" followed by the whole tag, whatever
/// the tag is; an untagged build shows the date in its place.
pub proof fn lemma_display_version_cases(git_tag: Seq<char>, git_date: Seq<char>)
    ensures
        git_tag.len() > 0 ==> display_version_text(git_tag, git_date) == "Pre-Alpha-"@ + git_tag,
        git_tag.len() == 0 ==> display_version_text(git_tag, git_date) == "Pre-Alpha-"@ + git_date,
{
    reveal_strlit("Pre-Alpha");
    reveal_strlit("-");
    reveal_strlit("Pre-Alpha-");
    assert(VELOREN_VERSION_STAGE@ + "-"@ =~= "Pre-Alpha-"@);
    assert(display_version_text(git_tag, git_date) =~= VELOREN_VERSION_STAGE@ + "-"@ + (
    if git_tag.len() == 0 {
        git_date
    } else {
        git_tag
    }));
    if git_tag.len() > 0 {
        assert(display_version_text(git_tag, git_date) =~= "Pre-Alpha-"@ + git_tag);
    } else {
        assert(display_version_text(git_tag, git_date) =~= "Pre-Alpha-"@ + git_date);
    }
}

/// The long version of a tagged build ends in the whole git version in brackets, whatever
/// the tag is; an untagged build ends in the commit hash in brackets.
pub proof fn lemma_display_version_long_cases(
    git_tag: Seq<char>,
    display_version: Seq<char>,
    git_hash: Seq<char>,
    git_version: Seq<char>,
)
    ensures
        git_tag.len() > 0 ==> display_version_long_text(git_tag, display_version, git_hash, git_version)
            == display_version + " ("@ + git_version + ")"@,
        git_tag.len() == 0 ==> display_version_long_text(git_tag, display_version, git_hash, git_version)
            == display_version + " ("@ + git_hash + ")"@,
{
}

/// Builds the short displayed version.
pub fn display_version(git_tag: &str, git_date: &str) -> (r: String)
    ensures
        r@ == display_version_text(git_tag@, git_date@),
        git_tag@.len() > 0 ==> r@ == "Pre-Alpha-"@ + git_tag@,
        git_tag@.len() == 0 ==> r@ == "Pre-Alpha-"@ + git_date@,
{
    proof {
        lemma_display_version_cases(git_tag@, git_date@);
    }
    let mut r = String::from_str(VELOREN_VERSION_STAGE);
    r.append("-");
    if git_tag.is_empty() {
        r.append(git_date);
    } else {
        r.append(git_tag);
    }
    r
}

/// Builds the long displayed version.
pub fn display_version_long(
    git_tag: &str,
    display_version: &str,
    git_hash: &str,
    git_version: &str,
) -> (r: String)
    ensures
        r@ == display_version_long_text(git_tag@, display_version@, git_hash@, git_version@),
        git_tag@.len() > 0 ==> r@ == display_version@ + " ("@ + git_version@ + ")"@,
        git_tag@.len() == 0 ==> r@ == display_version@ + " ("@ + git_hash@ + ")"@,
{
    let mut r = String::from_str(display_version);
    r.append(" (");
    if git_tag.is_empty() {
        r.append(git_hash);
    } else {
        r.append(git_version);
    }
    r.append(")");
    r
}

} // verus!
