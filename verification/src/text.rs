//! Character-level helpers shared by the parser and the handlers: character
//! classes, trimming and substring search, each over the `Seq<char>` view of a
//! string.
use vstd::prelude::*;
use vstd::string::*;

verus! {

/// ASCII uppercase letters, the alphabet of command tokens.
pub open spec fn is_upper(c: char) -> bool {
    'A' <= c && c <= 'Z'
}

/// ASCII letters and the hyphen: what the word after an exclamation mark is
/// made of.
pub open spec fn is_word_char(c: char) -> bool {
    ||| ('A' <= c && c <= 'Z')
    ||| ('a' <= c && c <= 'z')
    ||| c == '-'
}

/// Characters with the Unicode `White_Space` property.
pub open spec fn is_space(c: char) -> bool {
    ||| ('\u{9}' <= c && c <= '\u{d}')
    ||| c == ' '
    ||| c == '\u{85}'
    ||| c == '\u{a0}'
    ||| c == '\u{1680}'
    ||| ('\u{2000}' <= c && c <= '\u{200a}')
    ||| c == '\u{2028}'
    ||| c == '\u{2029}'
    ||| c == '\u{202f}'
    ||| c == '\u{205f}'
    ||| c == '\u{3000}'
}

pub fn char_is_upper(c: char) -> (r: bool)
    ensures
        r == is_upper(c),
{
    c >= 'A' && c <= 'Z'
}

pub fn char_is_word(c: char) -> (r: bool)
    ensures
        r == is_word_char(c),
{
    (c >= 'A' && c <= 'Z') || (c >= 'a' && c <= 'z') || c == '-'
}

pub fn char_is_space(c: char) -> (r: bool)
    ensures
        r == is_space(c),
{
    (c >= '\u{9}' && c <= '\u{d}') || c == ' ' || c == '\u{85}' || c == '\u{a0}' || c
        == '\u{1680}' || (c >= '\u{2000}' && c <= '\u{200a}') || c == '\u{2028}' || c
        == '\u{2029}' || c == '\u{202f}' || c == '\u{205f}' || c == '\u{3000}'
}

/// The characters of a string, in order.
pub fn to_chars(s: &str) -> (v: Vec<char>)
    ensures
        v@ == s@,
{
    let mut v: Vec<char> = Vec::new();
    for c in it: s.chars()
        invariant
            v@ == it.seq().take(it.index() as int),
            it.seq() == s@,
    {
        v.push(c);
    }
    v
}

/// Index of the first character at or after `from` that is not white space,
/// or the length of `s` if there is none.
pub open spec fn skip_spaces(s: Seq<char>, from: int) -> int
    decreases s.len() - from,
{
    if 0 <= from < s.len() && is_space(s[from]) {
        skip_spaces(s, from + 1)
    } else {
        from
    }
}

/// End of `s` once its trailing white space is dropped, never below `floor`.
pub open spec fn drop_trailing_spaces(s: Seq<char>, floor: int, end: int) -> int
    decreases end - floor,
{
    if 0 <= floor < end <= s.len() && is_space(s[end - 1]) {
        drop_trailing_spaces(s, floor, end - 1)
    } else {
        end
    }
}

/// `s` without its leading and trailing white space.
pub open spec fn trimmed(s: Seq<char>) -> Seq<char> {
    let start = skip_spaces(s, 0);
    s.subrange(start, drop_trailing_spaces(s, start, s.len() as int))
}

pub proof fn lemma_skip_spaces(s: Seq<char>, from: int)
    requires
        0 <= from <= s.len(),
    ensures
        from <= skip_spaces(s, from) <= s.len(),
        forall|i: int| from <= i < skip_spaces(s, from) ==> is_space(#[trigger] s[i]),
        skip_spaces(s, from) < s.len() ==> !is_space(s[skip_spaces(s, from)]),
    decreases s.len() - from,
{
    if from < s.len() && is_space(s[from]) {
        lemma_skip_spaces(s, from + 1);
    }
}

pub proof fn lemma_drop_trailing_spaces(s: Seq<char>, floor: int, end: int)
    requires
        0 <= floor <= end <= s.len(),
    ensures
        floor <= drop_trailing_spaces(s, floor, end) <= end,
        forall|i: int|
            drop_trailing_spaces(s, floor, end) <= i < end ==> is_space(#[trigger] s[i]),
        floor < drop_trailing_spaces(s, floor, end) ==> !is_space(
            s[drop_trailing_spaces(s, floor, end) - 1],
        ),
    decreases end - floor,
{
    if floor < end && is_space(s[end - 1]) {
        lemma_drop_trailing_spaces(s, floor, end - 1);
    }
}

/// The trimmed text neither starts nor ends with white space, and only
/// white space was removed around it.
pub proof fn lemma_trimmed(s: Seq<char>)
    ensures
        trimmed(s).len() <= s.len(),
        trimmed(s).len() > 0 ==> !is_space(trimmed(s).first()) && !is_space(trimmed(s).last()),
        (forall|i: int| 0 <= i < s.len() ==> !is_space(#[trigger] s[i])) ==> trimmed(s) == s,
{
    let start = skip_spaces(s, 0);
    lemma_skip_spaces(s, 0);
    lemma_drop_trailing_spaces(s, start, s.len() as int);
}

/// Copy of the characters `source[from..to]` as a string.
pub(crate) fn collect(source: &str, from: usize, to: usize) -> (r: String)
    requires
        from <= to <= source@.len(),
    ensures
        r@ == source@.subrange(from as int, to as int),
{
    String::from_str(source.substring_char(from, to))
}

/// `s` without its leading and trailing white space.
pub fn trim(s: &str) -> (r: String)
    ensures
        r@ == trimmed(s@),
{
    let chars = to_chars(s);
    let n: usize = chars.len();
    let mut start: usize = 0;
    while start < n && char_is_space(chars[start])
        invariant
            0 <= start <= n,
            n == chars@.len(),
            skip_spaces(chars@, 0) == skip_spaces(chars@, start as int),
        decreases n - start,
    {
        start = start + 1;
    }
    let mut end: usize = n;
    while start < end && char_is_space(chars[end - 1])
        invariant
            start <= end <= n,
            n == chars@.len(),
            drop_trailing_spaces(chars@, start as int, n as int) == drop_trailing_spaces(
                chars@,
                start as int,
                end as int,
            ),
        decreases end,
    {
        end = end - 1;
    }
    collect(s, start, end)
}

/// Whether `pat` occurs in `s` at index `at`.
pub open spec fn occurs_at(s: Seq<char>, pat: Seq<char>, at: int) -> bool {
    &&& 0 <= at
    &&& at + pat.len() <= s.len()
    &&& s.subrange(at, at + pat.len()) == pat
}

/// Index of the first occurrence of `pat` in `s` at or after `from`.
pub open spec fn find_from(s: Seq<char>, pat: Seq<char>, from: int) -> Option<int>
    decreases s.len() + 1 - from,
{
    if from < 0 || from + pat.len() > s.len() {
        None
    } else if occurs_at(s, pat, from) {
        Some(from)
    } else {
        find_from(s, pat, from + 1)
    }
}

/// `find_from` returns the least index at or after `from` where `pat`
/// occurs, and `None` exactly when there is no such index.
pub proof fn lemma_find_from(s: Seq<char>, pat: Seq<char>, from: int)
    requires
        0 <= from,
    ensures
        match find_from(s, pat, from) {
            Some(at) => from <= at && occurs_at(s, pat, at) && forall|i: int|
                from <= i < at ==> !occurs_at(s, pat, i),
            None => forall|i: int| from <= i ==> !occurs_at(s, pat, i),
        },
    decreases s.len() + 1 - from,
{
    if from + pat.len() > s.len() {
    } else if occurs_at(s, pat, from) {
    } else {
        lemma_find_from(s, pat, from + 1);
    }
}

/// Whether `pat` occurs in `chars` at index `at`.
pub(crate) fn matches_at(chars: &Vec<char>, pat: &Vec<char>, at: usize) -> (r: bool)
    requires
        at + pat@.len() <= chars@.len(),
    ensures
        r == occurs_at(chars@, pat@, at as int),
{
    let n: usize = chars.len();
    let m: usize = pat.len();
    let mut k: usize = 0;
    while k < m
        invariant
            0 <= k <= m,
            m == pat@.len(),
            n == chars@.len(),
            at + m <= n,
            forall|j: int| 0 <= j < k ==> chars@[at + j] == pat@[j],
        decreases m - k,
    {
        if chars[at + k] != pat[k] {
            return false;
        }
        k = k + 1;
    }
    assert(chars@.subrange(at as int, at + m) =~= pat@);
    true
}

/// Index of the first occurrence of `pat` in `chars` at or after `from`.
pub fn find(chars: &Vec<char>, pat: &Vec<char>, from: usize) -> (r: Option<usize>)
    ensures
        match r {
            Some(at) => find_from(chars@, pat@, from as int) == Some(at as int),
            None => find_from(chars@, pat@, from as int) is None,
        },
{
    let n: usize = chars.len();
    let m: usize = pat.len();
    if m > n {
        return None;
    }
    let last: usize = n - m;
    let mut at: usize = from;
    while at <= last
        invariant
            last + m == n,
            n == chars@.len(),
            m == pat@.len(),
            from <= at,
            find_from(chars@, pat@, from as int) == find_from(chars@, pat@, at as int),
        decreases last + 1 - at,
    {
        if matches_at(chars, pat, at) {
            return Some(at);
        }
        if at == last {
            return None;
        }
        at = at + 1;
    }
    None
}

/// Index of the first occurrence of the character `c` in `s` at or after
/// `from`, or the length of `s` if there is none.
pub open spec fn index_of_from(s: Seq<char>, c: char, from: int) -> int
    decreases s.len() - from,
{
    if 0 <= from < s.len() && s[from] != c {
        index_of_from(s, c, from + 1)
    } else {
        from
    }
}

pub proof fn lemma_index_of_from(s: Seq<char>, c: char, from: int)
    requires
        0 <= from <= s.len(),
    ensures
        from <= index_of_from(s, c, from) <= s.len(),
        forall|i: int| from <= i < index_of_from(s, c, from) ==> #[trigger] s[i] != c,
        index_of_from(s, c, from) < s.len() ==> s[index_of_from(s, c, from)] == c,
    decreases s.len() - from,
{
    if from < s.len() && s[from] != c {
        lemma_index_of_from(s, c, from + 1);
    }
}

/// Index of the first occurrence of `c` in `chars[from..limit]`, or `limit`.
pub(crate) fn scan_to(chars: &Vec<char>, c: char, from: usize, limit: usize) -> (r: usize)
    requires
        from <= limit <= chars@.len(),
    ensures
        r == index_of_from(chars@.take(limit as int), c, from as int),
        from <= r <= limit,
{
    let ghost window = chars@.take(limit as int);
    let mut at: usize = from;
    while at < limit && chars[at] != c
        invariant
            from <= at <= limit <= chars@.len(),
            window == chars@.take(limit as int),
            index_of_from(window, c, from as int) == index_of_from(window, c, at as int),
        decreases limit - at,
    {
        at = at + 1;
    }
    at
}

} // verus!
