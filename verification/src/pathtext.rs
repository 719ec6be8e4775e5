//! Lexical model of paths. A path is its text: a sequence of characters in
//! which `/` separates segments. The functions here decide absoluteness,
//! detect parent-directory segments, join a file name onto a directory, and
//! trim the whitespace that surrounds a recorded path.

use vstd::prelude::*;

verus! {

/// A path is absolute when its text starts with the separator.
pub open spec fn is_absolute(s: Seq<char>) -> bool {
    s.len() > 0 && s[0] == '/'
}

/// A parent-directory segment `..` starts at position `i` of `s`: the two
/// dots are bounded by separators or by the ends of the text.
pub open spec fn parent_segment_at(s: Seq<char>, i: int) -> bool {
    &&& 0 <= i
    &&& i + 2 <= s.len()
    &&& s[i] == '.'
    &&& s[i + 1] == '.'
    &&& (i == 0 || s[i - 1] == '/')
    &&& (i + 2 == s.len() || s[i + 2] == '/')
}

/// `s` contains a parent-directory segment somewhere.
pub open spec fn has_parent_segment(s: Seq<char>) -> bool {
    exists|i: int| parent_segment_at(s, i)
}

/// A file name is safe to place under the sandboxed default directory when it
/// neither overrides the directory with an absolute path nor climbs out of it
/// with a parent-directory segment.
pub open spec fn safe_file_name(s: Seq<char>) -> bool {
    !is_absolute(s) && !has_parent_segment(s)
}

/// Lexical join: an absolute file name replaces the directory, any other is
/// appended behind one separator.
pub open spec fn join_spec(dir: Seq<char>, name: Seq<char>) -> Seq<char> {
    if is_absolute(name) {
        name
    } else {
        dir + seq!['/'] + name
    }
}

/// Whether the path's text starts with the separator.
pub fn starts_with_separator(s: &str) -> (r: bool)
    ensures
        r == is_absolute(s@),
{
    if s.unicode_len() == 0 {
        false
    } else {
        s.get_char(0) == '/'
    }
}

/// Whether the text contains a parent-directory segment.
pub fn contains_parent_segment(s: &str) -> (r: bool)
    ensures
        r == has_parent_segment(s@),
{
    let n = s.unicode_len();
    if n < 2 {
        return false;
    }
    let mut i: usize = 0;
    while i <= n - 2
        invariant
            n == s@.len(),
            2 <= n,
            i <= n - 1,
            forall|j: int| 0 <= j < i ==> !parent_segment_at(s@, j),
        decreases n - i,
    {
        if s.get_char(i) == '.' && s.get_char(i + 1) == '.' && (i == 0 || s.get_char(i - 1)
            == '/') && (i + 2 == n || s.get_char(i + 2) == '/') {
            proof {
                assert(parent_segment_at(s@, i as int));
            }
            return true;
        }
        i += 1;
    }
    proof {
        assert(forall|j: int| parent_segment_at(s@, j) ==> 0 <= j && j + 2 <= n);
        assert(!has_parent_segment(s@)) by {
            if has_parent_segment(s@) {
                let j = choose|j: int| parent_segment_at(s@, j);
                assert(j < i);
            }
        }
    }
    false
}

/// Whether the file name may be used under the default directory.
pub fn is_safe_file_name(s: &str) -> (r: bool)
    ensures
        r == safe_file_name(s@),
{
    !starts_with_separator(s) && !contains_parent_segment(s)
}

/// Joins a file name onto a directory, as [`join_spec`] describes.
pub fn join(dir: &str, name: &str) -> (r: String)
    ensures
        r@ == join_spec(dir@, name@),
{
    if starts_with_separator(name) {
        name.to_owned()
    } else {
        let mut r = dir.to_owned();
        r.append("/");
        r.append(name);
        proof {
            reveal_strlit("/");
            assert(r@ =~= dir@ + seq!['/'] + name@);
        }
        r
    }
}

/// The characters that count as surrounding whitespace in a recorded path.
pub open spec fn is_space(c: char) -> bool {
    c == ' ' || c == '\t' || c == '\n' || c == '\r'
}

/// The text with its leading whitespace removed.
pub open spec fn trim_start_spec(s: Seq<char>) -> Seq<char>
    decreases s.len(),
{
    if s.len() > 0 && is_space(s[0]) {
        trim_start_spec(s.subrange(1, s.len() as int))
    } else {
        s
    }
}

/// The text with its trailing whitespace removed.
pub open spec fn trim_end_spec(s: Seq<char>) -> Seq<char>
    decreases s.len(),
{
    if s.len() > 0 && is_space(s[s.len() - 1]) {
        trim_end_spec(s.subrange(0, s.len() - 1))
    } else {
        s
    }
}

/// The text with both leading and trailing whitespace removed.
pub open spec fn trim_spec(s: Seq<char>) -> Seq<char> {
    trim_end_spec(trim_start_spec(s))
}

/// Decides [`is_space`] on a character.
fn is_space_char(c: char) -> (r: bool)
    ensures
        r == is_space(c),
{
    c == ' ' || c == '\t' || c == '\n' || c == '\r'
}

/// Removes the whitespace surrounding the text, as [`trim_spec`] describes.
pub fn trim_text(s: &str) -> (r: String)
    ensures
        r@ == trim_spec(s@),
{
    let n = s.unicode_len();
    proof {
        assert(s@.subrange(0, n as int) =~= s@);
    }
    let mut start: usize = 0;
    while start < n && is_space_char(s.get_char(start))
        invariant
            n == s@.len(),
            start <= n,
            trim_start_spec(s@) == trim_start_spec(s@.subrange(start as int, n as int)),
        decreases n - start,
    {
        proof {
            let t = s@.subrange(start as int, n as int);
            assert(t.subrange(1, t.len() as int) =~= s@.subrange(start as int + 1, n as int));
        }
        start += 1;
    }
    proof {
        let t = s@.subrange(start as int, n as int);
        if start < n {
            assert(t[0] == s@[start as int]);
        }
        assert(trim_start_spec(s@) == t);
    }
    let mut end: usize = n;
    while end > start && is_space_char(s.get_char(end - 1))
        invariant
            n == s@.len(),
            start <= end <= n,
            trim_start_spec(s@) == s@.subrange(start as int, n as int),
            trim_end_spec(s@.subrange(start as int, n as int)) == trim_end_spec(
                s@.subrange(start as int, end as int),
            ),
        decreases end,
    {
        proof {
            let t = s@.subrange(start as int, end as int);
            assert(t[t.len() - 1] == s@[end - 1]);
            assert(t.subrange(0, t.len() - 1) =~= s@.subrange(start as int, end as int - 1));
        }
        end -= 1;
    }
    proof {
        let t = s@.subrange(start as int, end as int);
        if end > start {
            assert(t[t.len() - 1] == s@[end - 1]);
        }
        assert(trim_end_spec(t) == t);
    }
    s.substring_char(start, end).to_owned()
}

/// Trimming leaves a text without surrounding whitespace, so trimming twice
/// is the same as trimming once.
pub proof fn lemma_trim_idempotent(s: Seq<char>)
    ensures
        trim_spec(trim_spec(s)) == trim_spec(s),
{
    lemma_trim_start_no_leading_space(s);
    lemma_trim_end_keeps_no_leading_space(trim_start_spec(s));
    lemma_trim_end_no_trailing_space(trim_start_spec(s));
}

/// After `trim_start_spec` the first character, if any, is not whitespace.
proof fn lemma_trim_start_no_leading_space(s: Seq<char>)
    ensures
        trim_start_spec(s).len() > 0 ==> !is_space(trim_start_spec(s)[0]),
    decreases s.len(),
{
    if s.len() > 0 && is_space(s[0]) {
        lemma_trim_start_no_leading_space(s.subrange(1, s.len() as int));
    }
}

/// After `trim_end_spec` the last character, if any, is not whitespace.
proof fn lemma_trim_end_no_trailing_space(s: Seq<char>)
    ensures
        trim_end_spec(s).len() > 0 ==> !is_space(trim_end_spec(s)[trim_end_spec(s).len() - 1]),
    decreases s.len(),
{
    if s.len() > 0 && is_space(s[s.len() - 1]) {
        lemma_trim_end_no_trailing_space(s.subrange(0, s.len() - 1));
    }
}

/// `trim_end_spec` keeps the first character where one survives, so a text
/// without leading whitespace still has none afterwards; a text that is not
/// shortened from the front is also unchanged by a second `trim_start_spec`.
proof fn lemma_trim_end_keeps_no_leading_space(s: Seq<char>)
    requires
        s.len() > 0 ==> !is_space(s[0]),
    ensures
        trim_start_spec(trim_end_spec(s)) == trim_end_spec(s),
    decreases s.len(),
{
    if s.len() > 0 && is_space(s[s.len() - 1]) {
        let t = s.subrange(0, s.len() - 1);
        if t.len() > 0 {
            assert(t[0] == s[0]);
        }
        lemma_trim_end_keeps_no_leading_space(t);
    }
}

} // verus!
