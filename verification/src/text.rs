//! Small verified helpers over strings: equality, searching for a
//! separator, trimming surrounding whitespace and ASCII lowercasing.
//! Token normalisation for the argument resolver is defined on top of
//! these: a raw token is first trimmed, then lowercased.

use vstd::prelude::*;

verus! {

/// True exactly when the two string slices read as the same sequence of
/// characters.
pub fn str_eq(a: &str, b: &str) -> (r: bool)
    ensures
        r == (a@ == b@),
{
    let a_len = a.unicode_len();
    let b_len = b.unicode_len();
    if a_len != b_len {
        return false;
    }
    let mut i: usize = 0;
    while i < a_len
        invariant
            a_len == a@.len(),
            b_len == b@.len(),
            a@.len() == b@.len(),
            i <= a_len,
            forall|j: int| 0 <= j < i ==> a@[j] == b@[j],
        decreases a_len - i,
    {
        if a.get_char(i) != b.get_char(i) {
            return false;
        }
        i += 1;
    }
    proof {
        assert(a@ =~= b@);
    }
    true
}

/// The characters the resolver strips from the ends of a token.
pub open spec fn is_space(c: char) -> bool {
    c == ' ' || c == '\t' || c == '\n' || c == '\r'
}

/// Executable mirror of [`is_space`].
pub fn is_space_char(c: char) -> (r: bool)
    ensures
        r == is_space(c),
{
    c == ' ' || c == '\t' || c == '\n' || c == '\r'
}

/// What is left of `s` once leading whitespace is removed.
pub open spec fn spec_trim_front(s: Seq<char>) -> Seq<char>
    decreases s.len(),
{
    if s.len() > 0 && is_space(s[0]) {
        spec_trim_front(s.drop_first())
    } else {
        s
    }
}

/// What is left of `s` once trailing whitespace is removed.
pub open spec fn spec_trim_back(s: Seq<char>) -> Seq<char>
    decreases s.len(),
{
    if s.len() > 0 && is_space(s.last()) {
        spec_trim_back(s.drop_last())
    } else {
        s
    }
}

/// What is left of `s` once whitespace is removed from both ends.
pub open spec fn spec_trim(s: Seq<char>) -> Seq<char> {
    spec_trim_back(spec_trim_front(s))
}

/// A sequence that neither starts nor ends with whitespace trims to
/// itself.
pub proof fn lemma_trim_id(s: Seq<char>)
    requires
        s.len() == 0 || (!is_space(s[0]) && !is_space(s[s.len() - 1])),
    ensures
        spec_trim(s) == s,
{
    assert(spec_trim_front(s) == s);
    assert(spec_trim_back(s) == s);
}

/// The ASCII-lowercase counterpart of one character; anything but an
/// ASCII capital letter is left alone.
pub open spec fn lower_char(c: char) -> char {
    match c {
        'A' => 'a',
        'B' => 'b',
        'C' => 'c',
        'D' => 'd',
        'E' => 'e',
        'F' => 'f',
        'G' => 'g',
        'H' => 'h',
        'I' => 'i',
        'J' => 'j',
        'K' => 'k',
        'L' => 'l',
        'M' => 'm',
        'N' => 'n',
        'O' => 'o',
        'P' => 'p',
        'Q' => 'q',
        'R' => 'r',
        'S' => 's',
        'T' => 't',
        'U' => 'u',
        'V' => 'v',
        'W' => 'w',
        'X' => 'x',
        'Y' => 'y',
        'Z' => 'z',
        _ => c,
    }
}

/// Executable mirror of [`lower_char`].
pub fn to_lower_char(c: char) -> (r: char)
    ensures
        r == lower_char(c),
{
    match c {
        'A' => 'a',
        'B' => 'b',
        'C' => 'c',
        'D' => 'd',
        'E' => 'e',
        'F' => 'f',
        'G' => 'g',
        'H' => 'h',
        'I' => 'i',
        'J' => 'j',
        'K' => 'k',
        'L' => 'l',
        'M' => 'm',
        'N' => 'n',
        'O' => 'o',
        'P' => 'p',
        'Q' => 'q',
        'R' => 'r',
        'S' => 's',
        'T' => 't',
        'U' => 'u',
        'V' => 'v',
        'W' => 'w',
        'X' => 'x',
        'Y' => 'y',
        'Z' => 'z',
        _ => c,
    }
}

/// `s` with every character ASCII-lowercased.
pub open spec fn spec_lower(s: Seq<char>) -> Seq<char> {
    s.map_values(|c: char| lower_char(c))
}

/// A sequence without ASCII capital letters lowercases to itself.
pub proof fn lemma_lower_id(s: Seq<char>)
    requires
        forall|i: int| 0 <= i < s.len() ==> lower_char(s[i]) == s[i],
    ensures
        spec_lower(s) == s,
{
    assert(spec_lower(s) =~= s);
}

/// How the resolver normalises one raw token: trim the ends, then
/// lowercase.
pub open spec fn spec_norm(s: Seq<char>) -> Seq<char> {
    spec_lower(spec_trim(s))
}

/// A sequence that the normalisation would not change.
pub proof fn lemma_norm_id(s: Seq<char>)
    requires
        s.len() == 0 || (!is_space(s[0]) && !is_space(s[s.len() - 1])),
        forall|i: int| 0 <= i < s.len() ==> lower_char(s[i]) == s[i],
    ensures
        spec_norm(s) == s,
{
    lemma_trim_id(s);
    lemma_lower_id(s);
}

/// A plain catalog token — every character fixed by lowercasing, no
/// whitespace, no value separator — normalises to itself and has no
/// split position.
pub proof fn lemma_plain_token(s: Seq<char>)
    requires
        forall|i: int|
            0 <= i < s.len() ==> (lower_char(#[trigger] s[i]) == s[i] && !is_space(s[i]) && s[i]
                != '='),
    ensures
        spec_norm(s) == s,
        first_index(s, '=') == -1,
{
    if s.len() > 0 {
        assert(!is_space(s[0]));
        assert(!is_space(s[s.len() - 1]));
    }
    assert forall|i: int| 0 <= i < s.len() implies lower_char(s[i]) == s[i] by {
        assert(lower_char(s[i]) == s[i] && !is_space(s[i]) && s[i] != '=');
    }
    lemma_norm_id(s);
    lemma_first_index(s, '=');
    if first_index(s, '=') != -1 {
        assert(s[first_index(s, '=')] != '=');
    }
}

/// Relies on `String::push`: it appends the given character at the end
/// of the string and changes nothing else.
#[verifier::external_body]
fn push_char(s: &mut String, c: char)
    ensures
        final(s)@ == old(s)@.push(c),
{
    s.push(c)
}

/// Copy of `s` with leading and trailing whitespace removed.
pub fn trim_str(s: &str) -> (r: String)
    ensures
        r@ == spec_trim(s@),
{
    let len = s.unicode_len();
    proof {
        assert(s@.subrange(0, len as int) =~= s@);
    }
    let mut start: usize = 0;
    while start < len && is_space_char(s.get_char(start))
        invariant
            len == s@.len(),
            start <= len,
            spec_trim_front(s@) == spec_trim_front(s@.subrange(start as int, len as int)),
        decreases len - start,
    {
        proof {
            assert(s@.subrange(start as int, len as int).drop_first() =~= s@.subrange(
                start as int + 1,
                len as int,
            ));
        }
        start += 1;
    }
    proof {
        assert(spec_trim_front(s@) == s@.subrange(start as int, len as int));
    }
    let mut end: usize = len;
    while end > start && is_space_char(s.get_char(end - 1))
        invariant
            len == s@.len(),
            start <= end <= len,
            spec_trim_front(s@) == s@.subrange(start as int, len as int),
            spec_trim_back(s@.subrange(start as int, len as int)) == spec_trim_back(
                s@.subrange(start as int, end as int),
            ),
        decreases end,
    {
        proof {
            assert(s@.subrange(start as int, end as int).drop_last() =~= s@.subrange(
                start as int,
                end as int - 1,
            ));
        }
        end -= 1;
    }
    proof {
        assert(spec_trim(s@) == s@.subrange(start as int, end as int));
    }
    String::from_str(s.substring_char(start, end))
}

/// Copy of `s` with every character ASCII-lowercased.
pub fn lower_str(s: &str) -> (r: String)
    ensures
        r@ == spec_lower(s@),
{
    let len = s.unicode_len();
    let mut r = String::new();
    let mut i: usize = 0;
    while i < len
        invariant
            len == s@.len(),
            i <= len,
            r@ == spec_lower(s@.subrange(0, i as int)),
        decreases len - i,
    {
        let c = to_lower_char(s.get_char(i));
        push_char(&mut r, c);
        proof {
            assert(spec_lower(s@.subrange(0, i as int + 1)) =~= spec_lower(
                s@.subrange(0, i as int),
            ).push(lower_char(s@[i as int])));
        }
        i += 1;
    }
    proof {
        assert(s@.subrange(0, len as int) =~= s@);
    }
    r
}

/// The trimmed, lowercased copy of one raw token.
pub fn normalize_token(s: &str) -> (r: String)
    ensures
        r@ == spec_norm(s@),
{
    let t = trim_str(s);
    lower_str(t.as_str())
}

/// Position of the first occurrence of `c` in `s`, or `-1` when `s`
/// never holds it.
pub open spec fn first_index(s: Seq<char>, c: char) -> int
    decreases s.len(),
{
    if s.len() == 0 {
        -1
    } else if s[0] == c {
        0
    } else {
        let r = first_index(s.drop_first(), c);
        if r < 0 {
            -1
        } else {
            r + 1
        }
    }
}

/// What [`first_index`] returns, spelt out: either `-1` and the
/// character never occurs, or the position of its first occurrence.
pub proof fn lemma_first_index(s: Seq<char>, c: char)
    ensures
        first_index(s, c) == -1 ==> forall|j: int| 0 <= j < s.len() ==> s[j] != c,
        first_index(s, c) != -1 ==> {
            let i = first_index(s, c);
            &&& 0 <= i < s.len()
            &&& s[i] == c
            &&& forall|j: int| 0 <= j < i ==> s[j] != c
        },
    decreases s.len(),
{
    if s.len() > 0 && s[0] != c {
        let t = s.drop_first();
        lemma_first_index(t, c);
        if first_index(t, c) == -1 {
            assert forall|j: int| 0 <= j < s.len() implies s[j] != c by {
                if j > 0 {
                    assert(t[j - 1] != c);
                }
            }
        } else {
            let i = first_index(t, c) + 1;
            assert(s[i] == t[i - 1]);
            assert forall|j: int| 0 <= j < i implies s[j] != c by {
                if j > 0 {
                    assert(t[j - 1] != c);
                }
            }
        }
    }
}

/// Position of the first `c` in `s`, as [`first_index`] gives it.
pub fn find_char(s: &str, c: char) -> (r: Option<usize>)
    ensures
        match r {
            Some(i) => first_index(s@, c) == i as int,
            None => first_index(s@, c) == -1,
        },
{
    let len = s.unicode_len();
    let mut i: usize = 0;
    while i < len
        invariant
            len == s@.len(),
            i <= len,
            forall|j: int| 0 <= j < i ==> s@[j] != c,
        decreases len - i,
    {
        if s.get_char(i) == c {
            proof {
                lemma_first_index(s@, c);
            }
            return Some(i);
        }
        i += 1;
    }
    proof {
        lemma_first_index(s@, c);
    }
    None
}

} // verus!
