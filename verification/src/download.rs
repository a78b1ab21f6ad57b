//! Names for downloaded files.
//!
//! A download arrives with a name that the remote side chose. Before it is
//! joined to the downloads directory the name is reduced to a single safe
//! path component.

use vstd::prelude::*;
use vstd::string::StringExecFns;
use crate::text::{
    char_is_ascii_alphanumeric, chars_of, is_ascii_alphanumeric, lemma_trim_keeps, matches_at,
    occurs_at, string_of, trim, trim_bounds, CharClass,
};

verus! {

/// The longest name that sanitizing returns, in characters.
pub const MAX_FILENAME_CHARS: usize = 120;

/// The name used when nothing usable is left of the requested one.
pub open spec fn fallback_name() -> Seq<char> {
    "download"@
}

/// A character separates path components, on any platform.
pub open spec fn is_separator(c: char) -> bool {
    c == '/' || c == '\\'
}

/// A character may appear in a sanitized name as it is.
pub open spec fn is_safe_char(c: char) -> bool {
    is_ascii_alphanumeric(c) || c == '.' || c == '-' || c == '_' || c == '(' || c == ')' || c == ' '
        || c == '%'
}

/// A safe character stands for itself, any other for an underscore.
pub open spec fn safe_char(c: char) -> char {
    if is_safe_char(c) {
        c
    } else {
        '_'
    }
}

/// The part of `s` after its last path separator; all of `s` if it has none.
pub open spec fn last_segment(s: Seq<char>) -> Seq<char>
    decreases s.len(),
{
    if s.len() == 0 {
        s
    } else if is_separator(s.last()) {
        Seq::empty()
    } else {
        last_segment(s.drop_last()).push(s.last())
    }
}

/// A name that must not be used as a file name: empty, `.` or `..`.
pub open spec fn is_unusable(s: Seq<char>) -> bool {
    ||| s.len() == 0
    ||| s.len() == 1 && s[0] == '.'
    ||| s.len() == 2 && s[0] == '.' && s[1] == '.'
}

/// The safe file name that stands for the requested name `raw`.
pub open spec fn sanitized_filename(raw: Seq<char>) -> Seq<char> {
    let base = trim(last_segment(raw), CharClass::Whitespace);
    if is_unusable(base) {
        fallback_name()
    } else {
        let cleaned = trim(
            trim(base.map_values(|c: char| safe_char(c)), CharClass::Dot),
            CharClass::Whitespace,
        );
        if is_unusable(cleaned) {
            fallback_name()
        } else if cleaned.len() > MAX_FILENAME_CHARS {
            cleaned.take(MAX_FILENAME_CHARS as int)
        } else {
            cleaned
        }
    }
}

fn to_safe_char(c: char) -> (r: char)
    ensures
        r == safe_char(c),
{
    if char_is_ascii_alphanumeric(c) || c == '.' || c == '-' || c == '_' || c == '(' || c == ')'
        || c == ' ' || c == '%' {
        c
    } else {
        '_'
    }
}

fn unusable(v: &Vec<char>, lo: usize, hi: usize) -> (r: bool)
    requires
        lo <= hi <= v.len(),
    ensures
        r == is_unusable(v@.subrange(lo as int, hi as int)),
{
    if hi == lo {
        true
    } else if hi - lo == 1 {
        v[lo] == '.'
    } else if hi - lo == 2 {
        v[lo] == '.' && v[lo + 1] == '.'
    } else {
        false
    }
}

/// Reduces a requested download name to one safe path component.
///
/// Directories are dropped, whichever separator they were written with;
/// characters outside a small safe set become underscores; dots and blanks
/// are removed from both ends; the result has at most
/// [`MAX_FILENAME_CHARS`] characters. Where nothing usable is left, the
/// name is `download`.
pub fn sanitize_download_filename(raw: &str) -> (name: String)
    ensures
        name@ == sanitized_filename(raw@),
{
    let chars = chars_of(raw);
    let n: usize = chars.len();
    let mut start: usize = 0;
    let mut i: usize = 0;
    while i < n
        invariant
            start <= i <= n,
            n == chars.len(),
            chars@.subrange(start as int, i as int) == last_segment(chars@.take(i as int)),
        decreases n - i,
    {
        let c = chars[i];
        assert(chars@.take(i + 1).drop_last() == chars@.take(i as int));
        i += 1;
        if c == '/' || c == '\\' {
            start = i;
        }
    }
    assert(chars@.take(n as int) == chars@);
    let (lo, hi) = trim_bounds(&chars, start, n, CharClass::Whitespace);
    if unusable(&chars, lo, hi) {
        return String::from_str("download");
    }
    let ghost base = chars@.subrange(lo as int, hi as int);
    let mut cleaned: Vec<char> = Vec::new();
    let mut j: usize = lo;
    while j < hi
        invariant
            lo <= j <= hi <= chars.len(),
            cleaned.len() == j - lo,
            forall|k: int| 0 <= k < cleaned.len() ==> cleaned[k] == safe_char(chars[lo + k]),
        decreases hi - j,
    {
        cleaned.push(to_safe_char(chars[j]));
        j += 1;
    }
    assert(cleaned@ == base.map_values(|c: char| safe_char(c)));
    let m: usize = cleaned.len();
    assert(cleaned@.subrange(0, m as int) == cleaned@);
    let (a0, b0) = trim_bounds(&cleaned, 0, m, CharClass::Dot);
    let (a, b) = trim_bounds(&cleaned, a0, b0, CharClass::Whitespace);
    if unusable(&cleaned, a, b) {
        return String::from_str("download");
    }
    if b - a > MAX_FILENAME_CHARS {
        assert(cleaned@.subrange(a as int, a + MAX_FILENAME_CHARS) == cleaned@.subrange(
            a as int,
            b as int,
        ).take(MAX_FILENAME_CHARS as int));
        string_of(&cleaned, a, a + MAX_FILENAME_CHARS)
    } else {
        string_of(&cleaned, a, b)
    }
}

/// A sanitized name can be joined to a directory without leaving it: it is
/// not empty, not `.` and not `..`, it is no longer than
/// [`MAX_FILENAME_CHARS`], and it holds safe characters only, so no path
/// separator.
pub proof fn lemma_sanitized_filename_is_safe(raw: Seq<char>)
    ensures
        !is_unusable(sanitized_filename(raw)),
        sanitized_filename(raw).len() <= MAX_FILENAME_CHARS,
        forall|i: int|
            0 <= i < sanitized_filename(raw).len() ==> is_safe_char(
                #[trigger] sanitized_filename(raw)[i],
            ),
        forall|i: int|
            0 <= i < sanitized_filename(raw).len() ==> !is_separator(
                #[trigger] sanitized_filename(raw)[i],
            ),
{
    reveal_strlit("download");
    let name = sanitized_filename(raw);
    let safe = |c: char| is_safe_char(c);
    let base = trim(last_segment(raw), CharClass::Whitespace);
    let mapped = base.map_values(|c: char| safe_char(c));
    assert forall|i: int| 0 <= i < mapped.len() implies safe(#[trigger] mapped[i]) by {
        assert(mapped[i] == safe_char(base[i]));
    }
    lemma_trim_keeps(mapped, CharClass::Dot, safe);
    lemma_trim_keeps(trim(mapped, CharClass::Dot), CharClass::Whitespace, safe);
    assert forall|i: int| 0 <= i < name.len() implies is_safe_char(#[trigger] name[i]) by {
        if name == fallback_name() {
            assert(is_safe_char(fallback_name()[i]));
        } else {
            let cleaned = trim(trim(mapped, CharClass::Dot), CharClass::Whitespace);
            assert(name[i] == cleaned[i]);
            assert(safe(cleaned[i]));
        }
    }
}

/// The position of the first `c` in `s`; the length of `s` if it holds none.
pub open spec fn first_index(s: Seq<char>, c: char) -> int
    decreases s.len(),
{
    if s.len() == 0 || s[0] == c {
        0
    } else {
        1 + first_index(s.drop_first(), c)
    }
}

/// The part of `s` after its last `c`; all of `s` if it holds none.
pub open spec fn after_last(s: Seq<char>, c: char) -> Seq<char>
    decreases s.len(),
{
    if s.len() == 0 {
        s
    } else if s.last() == c {
        Seq::empty()
    } else {
        after_last(s.drop_last(), c).push(s.last())
    }
}

/// The character that `s` begins with in escaped form: a blank or a round
/// bracket, written as a percent sign and two digits. Other escapes are left
/// as they stand.
pub open spec fn escaped_char(s: Seq<char>) -> Option<char> {
    if s.len() >= 3 && s[0] == '%' && s[1] == '2' {
        if s[2] == '0' {
            Some(' ')
        } else if s[2] == '8' {
            Some('(')
        } else if s[2] == '9' {
            Some(')')
        } else {
            None
        }
    } else {
        None
    }
}

/// `s` with every escaped blank and round bracket written out.
pub open spec fn unescaped(s: Seq<char>) -> Seq<char>
    decreases s.len(),
{
    if s.len() == 0 {
        s
    } else {
        match escaped_char(s) {
            Some(c) => seq![c] + unescaped(s.skip(3)),
            None => seq![s[0]] + unescaped(s.skip(1)),
        }
    }
}

/// The file name that the URL of a download asks for.
///
/// The URL of an in-memory object carries the name in its fragment: what
/// stands between the first `#` and the next, with blanks and round brackets
/// written out; without a fragment it carries none. Any other URL asks for
/// the last segment of its path, without the query.
pub open spec fn requested_name(url: Seq<char>) -> Seq<char> {
    if occurs_at(url, "blob:"@, 0) {
        let mark = first_index(url, '#');
        if mark < url.len() {
            let rest = url.skip(mark + 1);
            unescaped(rest.take(first_index(rest, '#')))
        } else {
            fallback_name()
        }
    } else {
        let segment = after_last(url, '/');
        segment.take(first_index(segment, '?'))
    }
}

/// The first position holds what `first_index` says: before it there is no
/// `c`, and it is the end or holds one.
pub proof fn lemma_first_index(s: Seq<char>, c: char, i: int)
    requires
        0 <= i <= s.len(),
        forall|j: int| 0 <= j < i ==> s[j] != c,
        i == s.len() || s[i] == c,
    ensures
        first_index(s, c) == i,
    decreases i,
{
    if i > 0 {
        let rest = s.drop_first();
        assert forall|j: int| 0 <= j < i - 1 implies rest[j] != c by {
            assert(rest[j] == s[j + 1]);
        }
        lemma_first_index(rest, c, i - 1);
    }
}

fn find_char(v: &Vec<char>, lo: usize, hi: usize, c: char) -> (i: usize)
    requires
        lo <= hi <= v.len(),
    ensures
        lo <= i <= hi,
        i - lo == first_index(v@.subrange(lo as int, hi as int), c),
{
    let mut i: usize = lo;
    while i < hi && v[i] != c
        invariant
            lo <= i <= hi <= v.len(),
            forall|j: int| lo <= j < i ==> v@[j] != c,
        decreases hi - i,
    {
        i += 1;
    }
    proof {
        lemma_first_index(v@.subrange(lo as int, hi as int), c, i - lo);
    }
    i
}

fn unescape(v: &Vec<char>, lo: usize, hi: usize) -> (out: Vec<char>)
    requires
        lo <= hi <= v.len(),
    ensures
        out@ == unescaped(v@.subrange(lo as int, hi as int)),
{
    let mut out: Vec<char> = Vec::new();
    let mut i: usize = lo;
    while i < hi
        invariant
            lo <= i <= hi <= v.len(),
            unescaped(v@.subrange(lo as int, hi as int)) == out@ + unescaped(
                v@.subrange(i as int, hi as int),
            ),
        decreases hi - i,
    {
        let ghost rest = v@.subrange(i as int, hi as int);
        let mut written: Option<char> = None;
        if hi - i >= 3 && v[i] == '%' && v[i + 1] == '2' {
            let code = v[i + 2];
            if code == '0' {
                written = Some(' ');
            } else if code == '8' {
                written = Some('(');
            } else if code == '9' {
                written = Some(')');
            }
        }
        assert(written == escaped_char(rest));
        match written {
            Some(c) => {
                assert(rest.skip(3) =~= v@.subrange(i + 3, hi as int));
                assert(out@ + (seq![c] + unescaped(rest.skip(3))) =~= out@.push(c) + unescaped(
                    rest.skip(3),
                ));
                out.push(c);
                i += 3;
            },
            None => {
                assert(rest.skip(1) =~= v@.subrange(i + 1, hi as int));
                assert(out@ + (seq![rest[0]] + unescaped(rest.skip(1))) =~= out@.push(rest[0])
                    + unescaped(rest.skip(1)));
                out.push(v[i]);
                i += 1;
            },
        }
    }
    assert(out@ + unescaped(v@.subrange(hi as int, hi as int)) =~= out@);
    out
}

/// Reads from the URL of a download the file name that it asks for.
pub fn download_name_from_url(url: &str) -> (name: String)
    ensures
        name@ == requested_name(url@),
{
    let v = chars_of(url);
    let n: usize = v.len();
    if matches_at(&v, &chars_of("blob:"), 0) {
        assert(v@.subrange(0, n as int) =~= v@);
        let mark = find_char(&v, 0, n, '#');
        if mark < n {
            let end = find_char(&v, mark + 1, n, '#');
            assert(v@.skip(mark + 1) =~= v@.subrange(mark + 1, n as int));
            assert(v@.skip(mark + 1).take(end - (mark + 1)) =~= v@.subrange(
                mark + 1,
                end as int,
            ));
            let name = unescape(&v, mark + 1, end);
            let len: usize = name.len();
            assert(name@.subrange(0, len as int) =~= name@);
            string_of(&name, 0, len)
        } else {
            String::from_str("download")
        }
    } else {
        let mut start: usize = 0;
        let mut i: usize = 0;
        while i < n
            invariant
                start <= i <= n,
                n == v.len(),
                v@.subrange(start as int, i as int) == after_last(v@.take(i as int), '/'),
            decreases n - i,
        {
            let c = v[i];
            assert(v@.take(i + 1).drop_last() == v@.take(i as int));
            i += 1;
            if c == '/' {
                start = i;
            }
        }
        assert(v@.take(n as int) == v@);
        let end = find_char(&v, start, n, '?');
        assert(v@.subrange(start as int, n as int).take(end - start) =~= v@.subrange(
            start as int,
            end as int,
        ));
        string_of(&v, start, end)
    }
}

/// Chooses the file name under which the download from `url` is saved: the
/// name that the URL asks for, made safe.
pub fn download_filename_for_url(url: &str) -> (name: String)
    ensures
        name@ == sanitized_filename(requested_name(url@)),
{
    let requested = download_name_from_url(url);
    sanitize_download_filename(requested.as_str())
}

} // verus!
