//! Extraction of the token from an `authorization` header value.

use vstd::prelude::*;

verus! {

/// The scheme word that may precede the token in the header.
pub open spec fn bearer_word() -> Seq<char> {
    seq!['B', 'e', 'a', 'r', 'e', 'r']
}

/// Unicode `White_Space`, the set that `str::trim` removes.
pub open spec fn is_white_space(c: char) -> bool {
    ('\u{9}' <= c && c <= '\u{d}') || c == ' ' || c == '\u{85}' || c == '\u{a0}' || c
        == '\u{1680}' || ('\u{2000}' <= c && c <= '\u{200a}') || c == '\u{2028}' || c
        == '\u{2029}' || c == '\u{202f}' || c == '\u{205f}' || c == '\u{3000}'
}

/// Removes the scheme word from the front as many times as it repeats.
pub open spec fn strip_bearer_words(s: Seq<char>) -> Seq<char>
    decreases s.len(),
{
    if s.len() >= 6 && s.subrange(0, 6) == bearer_word() {
        strip_bearer_words(s.subrange(6, s.len() as int))
    } else {
        s
    }
}

/// Removes leading white space.
pub open spec fn trim_start_ws(s: Seq<char>) -> Seq<char>
    decreases s.len(),
{
    if s.len() > 0 && is_white_space(s[0]) {
        trim_start_ws(s.drop_first())
    } else {
        s
    }
}

/// Removes trailing white space.
pub open spec fn trim_end_ws(s: Seq<char>) -> Seq<char>
    decreases s.len(),
{
    if s.len() > 0 && is_white_space(s.last()) {
        trim_end_ws(s.drop_last())
    } else {
        s
    }
}

/// The token carried by a header value: the value without its leading scheme
/// words and without surrounding white space.
pub open spec fn header_token(s: Seq<char>) -> Seq<char> {
    trim_end_ws(trim_start_ws(strip_bearer_words(s)))
}

fn is_white_space_char(c: char) -> (r: bool)
    ensures
        r == is_white_space(c),
{
    ('\u{9}' <= c && c <= '\u{d}') || c == ' ' || c == '\u{85}' || c == '\u{a0}' || c
        == '\u{1680}' || ('\u{2000}' <= c && c <= '\u{200a}') || c == '\u{2028}' || c
        == '\u{2029}' || c == '\u{202f}' || c == '\u{205f}' || c == '\u{3000}'
}

fn bearer_word_at(s: &str, i: usize) -> (r: bool)
    requires
        i + 6 <= s@.len() <= usize::MAX,
    ensures
        r == (s@.subrange(i as int, i + 6) == bearer_word()),
{
    let r = s.get_char(i) == 'B' && s.get_char(i + 1) == 'e' && s.get_char(i + 2) == 'a'
        && s.get_char(i + 3) == 'r' && s.get_char(i + 4) == 'e' && s.get_char(i + 5) == 'r';
    assert(r ==> s@.subrange(i as int, i + 6) =~= bearer_word());
    r
}

/// The token of a header value: leading `Bearer` words and surrounding white
/// space removed.
pub fn strip_bearer(header: &str) -> (r: String)
    ensures
        r@ == header_token(header@),
{
    let n = header.unicode_len();
    let mut i: usize = 0;
    assert(header@.subrange(0, n as int) =~= header@);
    while 6 <= n - i && bearer_word_at(header, i)
        invariant
            n == header@.len(),
            i <= n,
            strip_bearer_words(header@) == strip_bearer_words(header@.subrange(i as int, n as int)),
        decreases n - i,
    {
        assert(header@.subrange(i as int, n as int).subrange(6, n - i) =~= header@.subrange(
            i + 6,
            n as int,
        ));
        assert(header@.subrange(i as int, n as int).subrange(0, 6) =~= header@.subrange(
            i as int,
            i + 6,
        ));
        i = i + 6;
    }
    assert(strip_bearer_words(header@) == header@.subrange(i as int, n as int)) by {
        if i + 6 <= n {
            assert(header@.subrange(i as int, n as int).subrange(0, 6) =~= header@.subrange(
                i as int,
                i + 6,
            ));
        }
    }
    let mut j: usize = i;
    while j < n && is_white_space_char(header.get_char(j))
        invariant
            n == header@.len(),
            i <= j <= n,
            trim_start_ws(strip_bearer_words(header@)) == trim_start_ws(
                header@.subrange(j as int, n as int),
            ),
        decreases n - j,
    {
        assert(header@.subrange(j as int, n as int).drop_first() =~= header@.subrange(
            j + 1,
            n as int,
        ));
        j = j + 1;
    }
    let mut k: usize = n;
    while k > j && is_white_space_char(header.get_char(k - 1))
        invariant
            n == header@.len(),
            j <= k <= n,
            header_token(header@) == trim_end_ws(header@.subrange(j as int, k as int)),
        decreases k,
    {
        assert(header@.subrange(j as int, k as int).drop_last() =~= header@.subrange(
            j as int,
            k - 1,
        ));
        k = k - 1;
    }
    let token = header.substring_char(j, k);
    String::from_str(token)
}

/// Whether `t` neither starts nor ends with white space.
pub open spec fn untrimmed_free(t: Seq<char>) -> bool {
    t.len() > 0 ==> !is_white_space(t[0]) && !is_white_space(t.last())
}

/// The header value `Bearer <t>`.
pub open spec fn bearer_header(t: Seq<char>) -> Seq<char> {
    bearer_word() + seq![' '] + t
}

/// The token read from `Bearer <t>` is `t` itself, for any `t` without white
/// space at its ends.
pub proof fn lemma_bearer_header_token(t: Seq<char>)
    requires
        untrimmed_free(t),
    ensures
        header_token(bearer_header(t)) == t,
{
    let h = bearer_header(t);
    let rest = seq![' '] + t;
    assert(h.subrange(0, 6) =~= bearer_word());
    assert(h.subrange(6, h.len() as int) =~= rest);
    assert(rest.len() >= 6 ==> rest.subrange(0, 6)[0] == ' ');
    assert(rest.len() >= 6 ==> rest.subrange(0, 6) != bearer_word());
    assert(strip_bearer_words(rest) == rest);
    assert(rest.drop_first() =~= t);
    assert(trim_start_ws(rest) == trim_start_ws(t));
    assert(trim_start_ws(t) == t);
}

} // verus!
