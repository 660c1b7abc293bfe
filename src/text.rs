//! Normalisation of the device-type column.
use vstd::prelude::*;

verus! {

/// Unicode's White_Space property, as `char::is_whitespace` uses it.
pub open spec fn is_space(c: char) -> bool {
    c == '\t' || c == '\n' || c == '\u{0B}' || c == '\u{0C}' || c == '\r' || c == ' '
        || c == '\u{85}' || c == '\u{A0}' || c == '\u{1680}' || ('\u{2000}' <= c
        && c <= '\u{200A}') || c == '\u{2028}' || c == '\u{2029}' || c == '\u{202F}'
        || c == '\u{205F}' || c == '\u{3000}'
}

/// Executable form of `is_space`.
pub fn char_is_space(c: char) -> (r: bool)
    ensures
        r == is_space(c),
{
    c == '\t' || c == '\n' || c == '\u{0B}' || c == '\u{0C}' || c == '\r' || c == ' '
        || c == '\u{85}' || c == '\u{A0}' || c == '\u{1680}' || ('\u{2000}' <= c
        && c <= '\u{200A}') || c == '\u{2028}' || c == '\u{2029}' || c == '\u{202F}'
        || c == '\u{205F}' || c == '\u{3000}'
}

/// `s` without its leading white space.
pub open spec fn trim_start(s: Seq<char>) -> Seq<char>
    decreases s.len(),
{
    if s.len() > 0 && is_space(s[0]) {
        trim_start(s.drop_first())
    } else {
        s
    }
}

/// `s` without its trailing white space.
pub open spec fn trim_end(s: Seq<char>) -> Seq<char>
    decreases s.len(),
{
    if s.len() > 0 && is_space(s.last()) {
        trim_end(s.drop_last())
    } else {
        s
    }
}

/// `s` without one leading and one trailing single quote, where present.
pub open spec fn unquote(s: Seq<char>) -> Seq<char> {
    let a = if s.len() > 0 && s[0] == '\'' {
        s.drop_first()
    } else {
        s
    };
    if a.len() > 0 && a.last() == '\'' {
        a.drop_last()
    } else {
        a
    }
}

/// A device type as displayed: trimmed of white space, then of one layer of
/// single quotes.
pub open spec fn normalized(s: Seq<char>) -> Seq<char> {
    unquote(trim_end(trim_start(s)))
}

/// Whether `s` neither starts nor ends with white space or a single quote.
pub open spec fn is_bare(s: Seq<char>) -> bool {
    s.len() > 0 ==> !is_space(s[0]) && !is_space(s.last()) && s[0] != '\'' && s.last() != '\''
}

/// Trims white space from both ends of `s`, then one single quote from each
/// end where present.
pub fn normalize_device_type(s: &str) -> (r: String)
    ensures
        r@ == normalized(s@),
{
    let n = s.unicode_len();
    let mut i: usize = 0;
    assert(s@.subrange(0, n as int) =~= s@);
    while i < n && char_is_space(s.get_char(i))
        invariant
            n == s@.len(),
            i <= n,
            trim_start(s@) == trim_start(s@.subrange(i as int, n as int)),
        decreases n - i,
    {
        assert(s@.subrange(i as int, n as int).drop_first() =~= s@.subrange(i + 1, n as int));
        i = i + 1;
    }
    let mut j: usize = n;
    while j > i && char_is_space(s.get_char(j - 1))
        invariant
            n == s@.len(),
            i <= j <= n,
            trim_end(s@.subrange(i as int, n as int)) == trim_end(s@.subrange(i as int, j as int)),
        decreases j - i,
    {
        assert(s@.subrange(i as int, j as int).drop_last() =~= s@.subrange(i as int, j - 1));
        j = j - 1;
    }
    proof {
        let t = s@.subrange(i as int, n as int);
        assert(trim_start(s@) == t);
        assert(trim_end(t) == s@.subrange(i as int, j as int));
    }
    let ghost trimmed = s@.subrange(i as int, j as int);
    if i < j && s.get_char(i) == '\'' {
        assert(trimmed.drop_first() =~= s@.subrange(i + 1, j as int));
        i = i + 1;
    }
    if i < j && s.get_char(j - 1) == '\'' {
        assert(s@.subrange(i as int, j as int).drop_last() =~= s@.subrange(i as int, j - 1));
        j = j - 1;
    }
    String::from_str(s.substring_char(i, j))
}

/// Normalising a device type a second time changes nothing, unless the first
/// result still starts or ends with white space or a single quote.
pub proof fn lemma_normalize_idempotent(s: Seq<char>)
    requires
        is_bare(normalized(s)),
    ensures
        normalized(normalized(s)) == normalized(s),
{
    let t = normalized(s);
    assert(trim_start(t) == t);
    assert(trim_end(t) == t);
}

} // verus!
