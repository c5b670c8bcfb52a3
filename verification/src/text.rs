//! Character sequences: the vocabulary in which every contract of this crate
//! speaks about strings, and the executable functions that compute it.
//!
//! A string is viewed as a `Seq<char>`. The executable functions work on
//! `Vec<char>`, which indexes in constant time; [`to_chars`] and
//! [`from_chars`] convert at the edges.

use vstd::prelude::*;

verus! {

/// Whether a character beyond ASCII has the White_Space property of
/// Unicode, as `char::is_whitespace` reports it.
pub uninterp spec fn unicode_white_space(c: char) -> bool;

/// The lower-case form of a string that is not all ASCII, as
/// `str::to_lowercase` computes it.
pub uninterp spec fn unicode_lowercase(s: Seq<char>) -> Seq<char>;

/// Whether `c` is a character of ASCII.
pub open spec fn is_ascii(c: char) -> bool {
    (c as u32) < 128
}

/// Whether `s` holds characters of ASCII only.
pub open spec fn all_ascii(s: Seq<char>) -> bool {
    forall|i: int| 0 <= i < s.len() ==> is_ascii(#[trigger] s[i])
}

/// Whether `c` is white space of ASCII: the space, or one of the
/// characters from the tab to the carriage return.
pub open spec fn ascii_space(c: char) -> bool {
    c == ' ' || ('\t' <= c && c <= '\r')
}

/// Whether `c` is white space: it has the White_Space property of Unicode.
/// Of ASCII these are the space and the characters from the tab to the
/// carriage return.
pub open spec fn char_is_whitespace(c: char) -> bool {
    if is_ascii(c) {
        ascii_space(c)
    } else {
        unicode_white_space(c)
    }
}

/// The lower-case form of a string. In a string of ASCII each capital
/// letter gives its small letter and nothing else changes.
pub open spec fn lowercase(s: Seq<char>) -> Seq<char> {
    if all_ascii(s) {
        fold_ascii(s)
    } else {
        unicode_lowercase(s)
    }
}

/// `String::push`: the character is appended at the end and nothing else
/// changes.
pub assume_specification[ String::push ](s: &mut String, c: char)
    ensures
        final(s)@ == old(s)@.push(c),
;

/// `char::is_whitespace`: the White_Space property of the Unicode character
/// database. The contract states it for ASCII, where the property holds of
/// U+0020 and of U+0009 to U+000D, and names the answer for every other
/// character.
pub assume_specification[ char::is_whitespace ](c: char) -> (r: bool)
    ensures
        r == (if is_ascii(c) {
            ascii_space(c)
        } else {
            unicode_white_space(c)
        }),
;

/// `str::to_lowercase`: the Unicode lower-case mapping of the whole string.
/// The contract states it for a string of ASCII, where the mapping turns
/// `A` to `Z` into `a` to `z` and leaves every other character, and names
/// the result for every other string.
pub assume_specification[ str::to_lowercase ](s: &str) -> (r: String)
    ensures
        r@ == (if all_ascii(s@) {
            fold_ascii(s@)
        } else {
            unicode_lowercase(s@)
        }),
;

/// What a sequence of strings holds.
pub open spec fn texts(items: Seq<String>) -> Seq<Seq<char>> {
    items.map_values(|s: String| s@)
}

/// The characters of `s`, in order.
pub fn to_chars(s: &str) -> (v: Vec<char>)
    ensures
        v@ == s@,
{
    let mut v: Vec<char> = Vec::new();
    for c in it: s.chars()
        invariant
            it.seq() == s@,
            v@ == it.seq().take(it.index() as int),
    {
        v.push(c);
    }
    v
}

/// The string made of the characters of `v`, in order.
pub fn from_chars(v: &Vec<char>) -> (s: String)
    ensures
        s@ == v@,
{
    let mut s = String::new();
    let mut i: usize = 0;
    while i < v.len()
        invariant
            i <= v.len(),
            s@ == v@.take(i as int),
        decreases v.len() - i,
    {
        s.push(v[i]);
        i += 1;
        assert(v@.take(i as int) == v@.take(i - 1).push(v@[i - 1]));
    }
    assert(v@.take(v.len() as int) == v@);
    s
}

/// A copy of the characters `v[from..to]`.
pub fn subrange(v: &Vec<char>, from: usize, to: usize) -> (r: Vec<char>)
    requires
        from <= to <= v.len(),
    ensures
        r@ == v@.subrange(from as int, to as int),
{
    let mut r: Vec<char> = Vec::new();
    let mut i: usize = from;
    while i < to
        invariant
            from <= i <= to <= v.len(),
            r@ == v@.subrange(from as int, i as int),
        decreases to - i,
    {
        r.push(v[i]);
        i += 1;
        assert(v@.subrange(from as int, i as int) == v@.subrange(from as int, i - 1).push(
            v@[i - 1],
        ));
    }
    r
}

/// `a` followed by `b`.
pub fn concatenate(a: &Vec<char>, b: &Vec<char>) -> (r: Vec<char>)
    ensures
        r@ == a@ + b@,
{
    let mut r: Vec<char> = subrange(a, 0, a.len());
    assert(a@.subrange(0, a.len() as int) == a@);
    let mut i: usize = 0;
    while i < b.len()
        invariant
            i <= b.len(),
            r@ == a@ + b@.take(i as int),
        decreases b.len() - i,
    {
        r.push(b[i]);
        i += 1;
        assert(b@.take(i as int) == b@.take(i - 1).push(b@[i - 1]));
    }
    assert(b@.take(b.len() as int) == b@);
    r
}

/// Whether two character sequences are equal.
pub fn same(a: &Vec<char>, b: &Vec<char>) -> (r: bool)
    ensures
        r == (a@ == b@),
{
    if a.len() != b.len() {
        return false;
    }
    let mut i: usize = 0;
    while i < a.len()
        invariant
            i <= a.len(),
            a.len() == b.len(),
            a@.take(i as int) == b@.take(i as int),
        decreases a.len() - i,
    {
        if a[i] != b[i] {
            return false;
        }
        i += 1;
        assert(a@.take(i as int) == a@.take(i - 1).push(a@[i - 1]));
        assert(b@.take(i as int) == b@.take(i - 1).push(b@[i - 1]));
    }
    assert(a@.take(a.len() as int) == a@);
    assert(b@.take(b.len() as int) == b@);
    true
}

/// Whether `needle` stands in `hay` at position `at`.
pub open spec fn occurs_at(hay: Seq<char>, needle: Seq<char>, at: int) -> bool {
    &&& 0 <= at
    &&& at + needle.len() <= hay.len()
    &&& hay.subrange(at, at + needle.len()) == needle
}

/// Whether `needle` stands somewhere in `hay`.
pub open spec fn contains_text(hay: Seq<char>, needle: Seq<char>) -> bool {
    exists|at: int| occurs_at(hay, needle, at)
}

/// The first position at or after `from` where `needle` stands in `hay`.
pub open spec fn find_from(hay: Seq<char>, needle: Seq<char>, from: int) -> Option<int>
    decreases hay.len() - from + 1,
{
    if from < 0 || from + needle.len() > hay.len() {
        None
    } else if occurs_at(hay, needle, from) {
        Some(from)
    } else {
        find_from(hay, needle, from + 1)
    }
}

/// The first position where `needle` stands in `hay`.
pub open spec fn find_text(hay: Seq<char>, needle: Seq<char>) -> Option<int> {
    find_from(hay, needle, 0)
}

/// `find_from` returns the least occurrence at or after `from`, and `None`
/// exactly when there is none.
pub proof fn lemma_find_from(hay: Seq<char>, needle: Seq<char>, from: int)
    requires
        0 <= from,
    ensures
        match find_from(hay, needle, from) {
            Some(at) => from <= at && occurs_at(hay, needle, at) && forall|k: int|
                from <= k < at ==> !occurs_at(hay, needle, k),
            None => forall|k: int| from <= k ==> !occurs_at(hay, needle, k),
        },
    decreases hay.len() - from + 1,
{
    if from + needle.len() > hay.len() {
    } else if occurs_at(hay, needle, from) {
    } else {
        lemma_find_from(hay, needle, from + 1);
    }
}

/// A text is found exactly when it is contained.
pub proof fn lemma_find_text_contains(hay: Seq<char>, needle: Seq<char>)
    ensures
        find_text(hay, needle) is Some <==> contains_text(hay, needle),
{
    lemma_find_from(hay, needle, 0);
}

/// Whether `needle` stands in `hay` at position `at`.
pub fn matches_at(hay: &Vec<char>, needle: &Vec<char>, at: usize) -> (r: bool)
    ensures
        r == occurs_at(hay@, needle@, at as int),
{
    if needle.len() > hay.len() || at > hay.len() - needle.len() {
        return false;
    }
    let mut i: usize = 0;
    while i < needle.len()
        invariant
            i <= needle.len(),
            at + needle.len() <= hay.len(),
            hay@.subrange(at as int, at + i) == needle@.take(i as int),
        decreases needle.len() - i,
    {
        if hay[at + i] != needle[i] {
            assert(hay@.subrange(at as int, at + needle.len())[i as int] != needle@[i as int]);
            return false;
        }
        i += 1;
        assert(hay@.subrange(at as int, at + i) == hay@.subrange(at as int, at + i - 1).push(
            hay@[at + i - 1],
        ));
        assert(needle@.take(i as int) == needle@.take(i - 1).push(needle@[i - 1]));
    }
    assert(needle@.take(needle.len() as int) == needle@);
    true
}

/// The first position where `needle` stands in `hay`.
pub fn find(hay: &Vec<char>, needle: &Vec<char>) -> (r: Option<usize>)
    ensures
        match r {
            Some(at) => find_text(hay@, needle@) == Some(at as int) && at + needle.len()
                <= hay.len(),
            None => find_text(hay@, needle@) is None,
        },
{
    if needle.len() > hay.len() {
        return None;
    }
    let last: usize = hay.len() - needle.len();
    let mut at: usize = 0;
    loop
        invariant
            at <= last,
            last == hay.len() - needle.len(),
            find_text(hay@, needle@) == find_from(hay@, needle@, at as int),
        decreases last - at,
    {
        if matches_at(hay, needle, at) {
            return Some(at);
        }
        if at == last {
            assert(find_from(hay@, needle@, at + 1) is None);
            return None;
        }
        at += 1;
    }
}

/// Whether `needle` stands somewhere in `hay`.
pub fn contains(hay: &Vec<char>, needle: &Vec<char>) -> (r: bool)
    ensures
        r == contains_text(hay@, needle@),
{
    proof {
        lemma_find_text_contains(hay@, needle@);
    }
    find(hay, needle).is_some()
}

/// Whether the character `x` occurs in `s`.
pub fn contains_char(s: &Vec<char>, x: char) -> (r: bool)
    ensures
        r == s@.contains(x),
{
    let mut i: usize = 0;
    while i < s.len()
        invariant
            i <= s.len(),
            forall|k: int| 0 <= k < i ==> s@[k] != x,
        decreases s.len() - i,
    {
        if s[i] == x {
            return true;
        }
        i += 1;
    }
    false
}

/// Whether `s` begins with `prefix`.
pub fn starts_with(s: &Vec<char>, prefix: &Vec<char>) -> (r: bool)
    ensures
        r == prefix@.is_prefix_of(s@),
{
    matches_at(s, prefix, 0)
}

/// Whether `s` ends with `suffix`.
pub fn ends_with(s: &Vec<char>, suffix: &Vec<char>) -> (r: bool)
    ensures
        r == suffix@.is_suffix_of(s@),
{
    if suffix.len() > s.len() {
        return false;
    }
    matches_at(s, suffix, s.len() - suffix.len())
}

/// The lower-case form of an ASCII capital letter; any other character is
/// left as it is.
pub open spec fn ascii_lower(c: char) -> char {
    if 'A' <= c && c <= 'Z' {
        ((c as u8) + 32) as char
    } else {
        c
    }
}

/// `s` with every ASCII capital letter in lower case.
pub open spec fn fold_ascii(s: Seq<char>) -> Seq<char> {
    s.map_values(|c: char| ascii_lower(c))
}

/// Whether two texts are equal up to the case of ASCII letters.
pub open spec fn same_ignoring_ascii_case(a: Seq<char>, b: Seq<char>) -> bool {
    fold_ascii(a) == fold_ascii(b)
}

/// The lower-case form of an ASCII capital letter; any other character is
/// left as it is.
pub fn to_ascii_lower(c: char) -> (r: char)
    ensures
        r == ascii_lower(c),
{
    if c >= 'A' && c <= 'Z' {
        ((c as u8) + 32) as char
    } else {
        c
    }
}

/// Whether two texts are equal up to the case of ASCII letters.
pub fn eq_ignore_ascii_case(a: &Vec<char>, b: &Vec<char>) -> (r: bool)
    ensures
        r == same_ignoring_ascii_case(a@, b@),
{
    if a.len() != b.len() {
        assert(fold_ascii(a@).len() != fold_ascii(b@).len());
        return false;
    }
    let mut i: usize = 0;
    while i < a.len()
        invariant
            i <= a.len(),
            a.len() == b.len(),
            forall|k: int| 0 <= k < i ==> ascii_lower(a@[k]) == ascii_lower(b@[k]),
        decreases a.len() - i,
    {
        if to_ascii_lower(a[i]) != to_ascii_lower(b[i]) {
            assert(fold_ascii(a@)[i as int] != fold_ascii(b@)[i as int]);
            return false;
        }
        i += 1;
    }
    assert(fold_ascii(a@) =~= fold_ascii(b@));
    true
}

/// The predicate "is white space".
pub open spec fn is_space() -> spec_fn(char) -> bool {
    |c: char| char_is_whitespace(c)
}

/// The predicate "is the character `x`".
pub open spec fn is_char(x: char) -> spec_fn(char) -> bool {
    |c: char| c == x
}

/// `s` without its longest prefix of characters that satisfy `drop`.
pub open spec fn skip_leading(s: Seq<char>, drop: spec_fn(char) -> bool) -> Seq<char>
    decreases s.len(),
{
    if s.len() > 0 && drop(s.first()) {
        skip_leading(s.drop_first(), drop)
    } else {
        s
    }
}

/// `s` without its longest suffix of characters that satisfy `drop`.
pub open spec fn skip_trailing(s: Seq<char>, drop: spec_fn(char) -> bool) -> Seq<char>
    decreases s.len(),
{
    if s.len() > 0 && drop(s.last()) {
        skip_trailing(s.drop_last(), drop)
    } else {
        s
    }
}

/// `s` without leading and trailing white space.
pub open spec fn trimmed(s: Seq<char>) -> Seq<char> {
    skip_trailing(skip_leading(s, is_space()), is_space())
}

/// `s` without leading and trailing white space.
pub fn trim(s: &Vec<char>) -> (r: Vec<char>)
    ensures
        r@ == trimmed(s@),
{
    let mut start: usize = 0;
    assert(s@.skip(0) == s@);
    while start < s.len() && s[start].is_whitespace()
        invariant
            start <= s.len(),
            skip_leading(s@, is_space()) == skip_leading(s@.skip(start as int), is_space()),
        decreases s.len() - start,
    {
        assert(s@.skip(start as int).drop_first() == s@.skip(start + 1));
        start += 1;
    }
    assert(skip_leading(s@, is_space()) == s@.skip(start as int));
    let mut end: usize = s.len();
    assert(s@.skip(start as int) == s@.subrange(start as int, end as int));
    while end > start && s[end - 1].is_whitespace()
        invariant
            start <= end <= s.len(),
            trimmed(s@) == skip_trailing(s@.subrange(start as int, end as int), is_space()),
        decreases end - start,
    {
        assert(s@.subrange(start as int, end as int).drop_last() == s@.subrange(
            start as int,
            end - 1,
        ));
        end -= 1;
    }
    subrange(s, start, end)
}

/// `s` without its trailing occurrences of `x`.
pub fn trim_end_char(s: &Vec<char>, x: char) -> (r: Vec<char>)
    ensures
        r@ == skip_trailing(s@, is_char(x)),
{
    let mut end: usize = s.len();
    assert(s@.take(s.len() as int) == s@);
    while end > 0 && s[end - 1] == x
        invariant
            end <= s.len(),
            skip_trailing(s@, is_char(x)) == skip_trailing(s@.take(end as int), is_char(x)),
        decreases end,
    {
        assert(s@.take(end as int).drop_last() == s@.take(end - 1));
        end -= 1;
    }
    subrange(s, 0, end)
}

/// `s` without `prefix` at its start; `s` itself if it does not start so.
pub open spec fn without_prefix(s: Seq<char>, prefix: Seq<char>) -> Seq<char> {
    if prefix.is_prefix_of(s) {
        s.skip(prefix.len() as int)
    } else {
        s
    }
}

/// `s` without `prefix` at its start; `s` itself if it does not start so.
pub fn strip_prefix(s: &Vec<char>, prefix: &Vec<char>) -> (r: Vec<char>)
    ensures
        r@ == without_prefix(s@, prefix@),
{
    if starts_with(s, prefix) {
        subrange(s, prefix.len(), s.len())
    } else {
        assert(s@.subrange(0, s.len() as int) == s@);
        subrange(s, 0, s.len())
    }
}

/// The first position of the character `x` in `s`.
pub open spec fn position_of(s: Seq<char>, x: char) -> Option<int> {
    find_text(s, seq![x])
}

/// The part of `s` after the first `x`; nothing if it holds no `x`.
pub open spec fn after_char(s: Seq<char>, x: char) -> Seq<char> {
    match position_of(s, x) {
        Some(at) => s.skip(at + 1),
        None => Seq::empty(),
    }
}

/// The first position of the character `x` in `s`.
pub fn position(s: &Vec<char>, x: char) -> (r: Option<usize>)
    ensures
        match r {
            Some(at) => position_of(s@, x) == Some(at as int) && at < s.len(),
            None => position_of(s@, x) is None,
        },
{
    let mut needle: Vec<char> = Vec::new();
    needle.push(x);
    assert(needle@ == seq![x]);
    proof {
        lemma_find_from(s@, seq![x], 0);
    }
    find(s, &needle)
}

/// The part of `s` after the first `x`; nothing if it holds no `x`.
pub fn after_first(s: &Vec<char>, x: char) -> (r: Vec<char>)
    ensures
        r@ == after_char(s@, x),
{
    match position(s, x) {
        None => Vec::new(),
        Some(at) => {
            assert(s@.subrange(at + 1, s.len() as int) == s@.skip(at + 1));
            subrange(s, at + 1, s.len())
        },
    }
}

/// What follows the last `x` in `s`; all of `s` if it holds no `x`.
pub open spec fn after_last(s: Seq<char>, x: char) -> Seq<char>
    decreases s.len(),
{
    if s.len() == 0 || s.last() == x {
        Seq::empty()
    } else {
        after_last(s.drop_last(), x).push(s.last())
    }
}

/// `path` without what stands at its end and names nothing: a `/`, or a
/// `.` behind a `/`.
pub open spec fn path_stem(path: Seq<char>) -> Seq<char>
    decreases path.len(),
{
    if path.len() > 0 && path.last() == '/' {
        path_stem(path.drop_last())
    } else if path.len() >= 2 && path.last() == '.' && path[path.len() - 2] == '/' {
        path_stem(path.drop_last())
    } else {
        path
    }
}

/// The last component of a path: what follows the last `/` of its stem. A
/// path that has no such component, or whose last component is `.` or
/// `..`, is its own base name.
pub open spec fn base_name(path: Seq<char>) -> Seq<char> {
    let last = after_last(path_stem(path), '/');
    if last.len() == 0 || last == seq!['.'] || last == seq!['.', '.'] {
        path
    } else {
        last
    }
}

/// The last component of a path.
pub fn basename(path: &Vec<char>) -> (r: Vec<char>)
    ensures
        r@ == base_name(path@),
{
    let mut end: usize = path.len();
    assert(path@.take(path.len() as int) == path@);
    while (end > 0 && path[end - 1] == '/') || (end >= 2 && path[end - 1] == '.' && path[end - 2]
        == '/')
        invariant
            end <= path.len(),
            path_stem(path@) == path_stem(path@.take(end as int)),
        decreases end,
    {
        assert(path@.take(end as int).drop_last() == path@.take(end - 1));
        end -= 1;
    }
    let stem = subrange(path, 0, end);
    assert(stem@ == path@.take(end as int));
    assert(path_stem(path@) == stem@);
    let mut start: usize = end;
    assert(stem@.take(end as int) == stem@);
    assert(stem@.skip(end as int) == Seq::<char>::empty());
    assert(after_last(stem@, '/') + Seq::<char>::empty() == after_last(stem@, '/'));
    while start > 0 && stem[start - 1] != '/'
        invariant
            start <= stem.len(),
            after_last(stem@, '/') == after_last(stem@.take(start as int), '/') + stem@.skip(
                start as int,
            ),
        decreases start,
    {
        assert(stem@.take(start as int).drop_last() == stem@.take(start - 1));
        assert(stem@.skip(start - 1) == seq![stem@[start - 1]] + stem@.skip(start as int));
        start -= 1;
    }
    assert(after_last(stem@.take(start as int), '/') == Seq::<char>::empty());
    assert(stem@.skip(start as int) == stem@.subrange(start as int, stem.len() as int));
    let last = subrange(&stem, start, stem.len());
    let names_nothing = last.len() == 0 || (last.len() == 1 && last[0] == '.') || (last.len() == 2
        && last[0] == '.' && last[1] == '.');
    assert((last@.len() == 1 && last@[0] == '.') == (last@ =~= seq!['.']));
    assert((last@.len() == 2 && last@[0] == '.' && last@[1] == '.') == (last@ =~= seq!['.', '.']));
    if names_nothing {
        assert(path@.subrange(0, path.len() as int) == path@);
        subrange(path, 0, path.len())
    } else {
        last
    }
}

/// `rel` under the directory `base`: `rel` itself when it starts at the
/// root, else `base`, a `/` unless `base` is empty or ends in one, and `rel`.
pub open spec fn joined(base: Seq<char>, rel: Seq<char>) -> Seq<char> {
    if rel.len() > 0 && rel.first() == '/' {
        rel
    } else if base.len() == 0 || base.last() == '/' {
        base + rel
    } else {
        base + seq!['/'] + rel
    }
}

/// `rel` under the directory `base`.
pub fn join_path(base: &Vec<char>, rel: &Vec<char>) -> (r: Vec<char>)
    ensures
        r@ == joined(base@, rel@),
{
    if rel.len() > 0 && rel[0] == '/' {
        assert(rel@.subrange(0, rel.len() as int) == rel@);
        subrange(rel, 0, rel.len())
    } else if base.len() == 0 || base[base.len() - 1] == '/' {
        concatenate(base, rel)
    } else {
        let mut slash: Vec<char> = Vec::new();
        slash.push('/');
        assert(slash@ == seq!['/']);
        let head = concatenate(base, &slash);
        concatenate(&head, rel)
    }
}

} // verus!
