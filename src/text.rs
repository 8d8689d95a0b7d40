//! Character-level helpers shared by the tokenizer, the validators and the
//! rule engine: substring containment, keyword vocabularies and the few
//! calls into `std` whose results are named rather than spelled out.

use vstd::prelude::*;

verus! {

/// The character views of a sequence of strings.
pub open spec fn texts(v: Seq<String>) -> Seq<Seq<char>> {
    v.map_values(|s: String| s@)
}

/// The character views of a sequence of string slices.
pub open spec fn str_texts(v: Seq<&str>) -> Seq<Seq<char>> {
    v.map_values(|s: &str| s@)
}

/// `sub` occurs in `s` as a contiguous run of characters.
pub open spec fn has_sub(s: Seq<char>, sub: Seq<char>) -> bool {
    exists|i: int|
        0 <= i && i + sub.len() <= s.len() && #[trigger] s.subrange(i, i + sub.len()) == sub
}

/// Some name contains some keyword.
pub open spec fn mentions_any(names: Seq<Seq<char>>, keywords: Seq<Seq<char>>) -> bool {
    exists|i: int, j: int|
        0 <= i < names.len() && 0 <= j < keywords.len() && #[trigger] has_sub(
            names[i],
            keywords[j],
        )
}

/// Relies on `str::chars` collected into a `Vec`: the characters in order.
#[verifier::external_body]
pub(crate) fn chars_of(s: &str) -> (r: Vec<char>)
    ensures
        r@ == s@,
{
    s.chars().collect()
}

/// Whether `sub` occurs in `s`, checked position by position.
pub fn contains_chars(s: &Vec<char>, sub: &Vec<char>) -> (r: bool)
    ensures
        r == has_sub(s@, sub@),
{
    let n = s.len();
    let m = sub.len();
    if m > n {
        return false;
    }
    let mut i: usize = 0;
    while i <= n - m
        invariant
            n == s@.len(),
            m == sub@.len(),
            m <= n,
            i <= n - m + 1,
            forall|k: int| 0 <= k < i ==> #[trigger] s@.subrange(k, k + m) != sub@,
        decreases n - m + 1 - i,
    {
        let mut j: usize = 0;
        let mut same = true;
        while j < m
            invariant
                n == s@.len(),
                m == sub@.len(),
                i + m <= n,
                j <= m,
                same == (forall|t: int| 0 <= t < j ==> s@[i + t] == sub@[t]),
            decreases m - j,
        {
            if s[i + j] != sub[j] {
                same = false;
            }
            j = j + 1;
        }
        if same {
            assert(s@.subrange(i as int, i + m) =~= sub@);
            return true;
        }
        proof {
            let t = choose|t: int| 0 <= t < m && s@[i + t] != sub@[t];
            assert(s@.subrange(i as int, i + m)[t] != sub@[t]);
        }
        i = i + 1;
    }
    assert forall|k: int| 0 <= k && k + m <= n implies #[trigger] s@.subrange(k, k + m) != sub@ by {
        assert(k < i);
    }
    false
}

/// Whether `sub` occurs in `s`.
pub fn contains_text(s: &str, sub: &str) -> (r: bool)
    ensures
        r == has_sub(s@, sub@),
{
    let sc = chars_of(s);
    let subc = chars_of(sub);
    contains_chars(&sc, &subc)
}

/// Whether some name contains some keyword.
pub fn mentions_keyword(names: &Vec<String>, keywords: &[&str]) -> (r: bool)
    ensures
        r == mentions_any(texts(names@), str_texts(keywords@)),
{
    let mut i: usize = 0;
    while i < names.len()
        invariant
            forall|a: int, b: int|
                0 <= a < i && 0 <= b < keywords@.len() ==> !#[trigger] has_sub(
                    names@[a]@,
                    keywords@[b]@,
                ),
        decreases names.len() - i,
    {
        let mut j: usize = 0;
        while j < keywords.len()
            invariant
                i < names.len(),
                forall|a: int, b: int|
                    0 <= a < i && 0 <= b < keywords@.len() ==> !#[trigger] has_sub(
                        names@[a]@,
                        keywords@[b]@,
                    ),
                forall|b: int| 0 <= b < j ==> !#[trigger] has_sub(names@[i as int]@, keywords@[b]@),
            decreases keywords.len() - j,
        {
            if contains_text(names[i].as_str(), keywords[j]) {
                assert(has_sub(texts(names@)[i as int], str_texts(keywords@)[j as int]));
                return true;
            }
            j = j + 1;
        }
        i = i + 1;
    }
    assert forall|a: int, b: int|
        0 <= a < texts(names@).len() && 0 <= b < str_texts(keywords@).len() implies !#[trigger] has_sub(
        texts(names@)[a],
        str_texts(keywords@)[b],
    ) by {
        assert(!has_sub(names@[a]@, keywords@[b]@));
    }
    false
}

/// An ASCII character other than `A` to `Z`: lowercasing keeps it.
pub open spec fn keeps_case_char(c: char) -> bool {
    (c as u32) < 128 && !(65 <= (c as u32) && (c as u32) <= 90)
}

/// Every character is one that lowercasing keeps.
pub open spec fn keeps_case(s: Seq<char>) -> bool {
    forall|i: int| 0 <= i < s.len() ==> keeps_case_char(#[trigger] s[i])
}

/// What `str::to_lowercase` returns for text that holds an upper-case ASCII
/// letter or a non-ASCII character: its Unicode lowercase mapping.
pub uninterp spec fn unicode_lowercase(s: Seq<char>) -> Seq<char>;

/// What `str::to_lowercase` returns: text of ASCII characters other than
/// `A` to `Z` stays as it is, other text takes its Unicode lowercase mapping.
pub open spec fn lower_of(s: Seq<char>) -> Seq<char> {
    if keeps_case(s) {
        s
    } else {
        unicode_lowercase(s)
    }
}

/// Relies on `str::to_lowercase`: the result depends on the characters
/// alone, and characters without a lowercase mapping (ASCII other than `A`
/// to `Z`) stay as they are.
#[verifier::external_body]
pub(crate) fn lowercase(s: &str) -> (r: String)
    ensures
        r@ == lower_of(s@),
        !keeps_case(s@) ==> r@ == unicode_lowercase(s@),
{
    s.to_lowercase()
}

/// The lowercase forms of the given strings, in order.
pub fn lowercase_all(v: &Vec<String>) -> (r: Vec<String>)
    ensures
        texts(r@) == texts(v@).map_values(|s: Seq<char>| lower_of(s)),
{
    let mut r: Vec<String> = Vec::new();
    let mut i: usize = 0;
    while i < v.len()
        invariant
            i <= v.len(),
            r@.len() == i,
            forall|k: int| 0 <= k < i ==> (#[trigger] r@[k])@ == lower_of(v@[k]@),
        decreases v.len() - i,
    {
        let low = lowercase(v[i].as_str());
        r.push(low);
        i = i + 1;
    }
    assert(texts(r@) =~= texts(v@).map_values(|s: Seq<char>| lower_of(s)));
    r
}

/// The Unicode `White_Space` property, which `char::is_whitespace` and
/// `str::trim` go by: tab to carriage return, space, next line, no-break
/// space, ogham space mark, the spaces from en quad to hair space, line and
/// paragraph separators, narrow no-break space, medium mathematical space
/// and ideographic space.
pub open spec fn white_space(c: char) -> bool {
    let u = c as u32;
    (0x9 <= u && u <= 0xD) || u == 0x20 || u == 0x85 || u == 0xA0 || u == 0x1680 || (0x2000 <= u
        && u <= 0x200A) || u == 0x2028 || u == 0x2029 || u == 0x202F || u == 0x205F || u == 0x3000
}

/// Whether `c` is white space.
pub fn is_white_space(c: char) -> (r: bool)
    ensures
        r == white_space(c),
{
    let u = c as u32;
    (0x9 <= u && u <= 0xD) || u == 0x20 || u == 0x85 || u == 0xA0 || u == 0x1680 || (0x2000 <= u
        && u <= 0x200A) || u == 0x2028 || u == 0x2029 || u == 0x202F || u == 0x205F || u == 0x3000
}

/// The number of white-space characters that `s` starts with.
pub open spec fn leading_space(s: Seq<char>) -> int
    decreases s.len(),
{
    if s.len() > 0 && white_space(s[0]) {
        1 + leading_space(s.drop_first())
    } else {
        0
    }
}

/// The number of white-space characters that `s` ends with.
pub open spec fn trailing_space(s: Seq<char>) -> int
    decreases s.len(),
{
    if s.len() > 0 && white_space(s.last()) {
        1 + trailing_space(s.drop_last())
    } else {
        0
    }
}

/// `s` without its leading and trailing white space.
pub open spec fn trim_of(s: Seq<char>) -> Seq<char> {
    if leading_space(s) >= s.len() {
        Seq::empty()
    } else {
        s.subrange(leading_space(s), s.len() - trailing_space(s))
    }
}

/// Relies on `str::trim`: the string without leading and trailing white
/// space.
#[verifier::external_body]
pub(crate) fn trimmed(s: &str) -> (r: String)
    ensures
        r@ == trim_of(s@),
{
    s.trim().to_string()
}

/// What `char::is_alphabetic` returns for a non-ASCII character: the
/// Unicode `Alphabetic` property.
pub uninterp spec fn unicode_alphabetic(c: char) -> bool;

/// The Unicode `Alphabetic` property: among ASCII characters, exactly the
/// letters `A` to `Z` and `a` to `z`.
pub open spec fn alphabetic(c: char) -> bool {
    if (c as u32) < 128 {
        (65 <= (c as u32) && (c as u32) <= 90) || (97 <= (c as u32) && (c as u32) <= 122)
    } else {
        unicode_alphabetic(c)
    }
}

/// Relies on `char::is_alphabetic`.
#[verifier::external_body]
pub(crate) fn is_alphabetic(c: char) -> (r: bool)
    ensures
        r == alphabetic(c),
        (c as u32) >= 128 ==> r == unicode_alphabetic(c),
{
    c.is_alphabetic()
}

/// What `char::is_numeric` returns for a non-ASCII character: whether its
/// general category is `Nd`, `Nl` or `No`.
pub uninterp spec fn unicode_numeric(c: char) -> bool;

/// The numeric general categories: among ASCII characters, exactly the
/// digits `0` to `9`.
pub open spec fn numeric(c: char) -> bool {
    if (c as u32) < 128 {
        48 <= (c as u32) && (c as u32) <= 57
    } else {
        unicode_numeric(c)
    }
}

/// Relies on `char::is_numeric`.
#[verifier::external_body]
pub(crate) fn is_numeric(c: char) -> (r: bool)
    ensures
        r == numeric(c),
        (c as u32) >= 128 ==> r == unicode_numeric(c),
{
    c.is_numeric()
}

/// A letter or a number, as `char::is_alphanumeric` documents it.
pub open spec fn alphanumeric(c: char) -> bool {
    alphabetic(c) || numeric(c)
}

/// The first index at which `sep` occurs in `s`, or `s.len()` when it does not.
pub open spec fn first_index(s: Seq<char>, sep: char) -> int
    decreases s.len(),
{
    if s.len() == 0 {
        0
    } else if s[0] == sep {
        0
    } else {
        1 + first_index(s.drop_first(), sep)
    }
}

/// The pieces of `s` between occurrences of `sep`, as `str::split` yields them.
pub open spec fn segments(s: Seq<char>, sep: char) -> Seq<Seq<char>>
    decreases s.len(),
{
    let k = first_index(s, sep);
    if 0 <= k < s.len() {
        seq![s.take(k)] + segments(s.skip(k + 1), sep)
    } else {
        seq![s]
    }
}

/// Relies on `str::split` with a `char` pattern: the pieces between the
/// separators, in order, each collected into a `String`.
#[verifier::external_body]
pub(crate) fn split_on(s: &str, sep: char) -> (r: Vec<String>)
    ensures
        texts(r@) == segments(s@, sep),
{
    s.split(sep).map(|p| p.to_string()).collect()
}

/// The same characters in both.
pub fn same_text(a: &str, b: &str) -> (r: bool)
    ensures
        r == (a@ == b@),
{
    let x = a.to_owned();
    let y = b.to_owned();
    x == y
}

/// A `String` holding the characters `cs[from..to]`.
pub fn text_between(cs: &Vec<char>, from: usize, to: usize) -> (r: String)
    requires
        from <= to <= cs@.len(),
    ensures
        r@ == cs@.subrange(from as int, to as int),
{
    let mut r = String::new();
    let mut i = from;
    while i < to
        invariant
            from <= i <= to <= cs@.len(),
            r@ == cs@.subrange(from as int, i as int),
        decreases to - i,
    {
        let one = char_string(cs[i]);
        r.append(one.as_str());
        i = i + 1;
        assert(r@ =~= cs@.subrange(from as int, i as int));
    }
    r
}

/// Relies on `char::to_string`: a string of that one character.
#[verifier::external_body]
pub(crate) fn char_string(c: char) -> (r: String)
    ensures
        r@ == seq![c],
{
    c.to_string()
}

/// `a` followed by `b`.
pub fn join2(a: &str, b: &str) -> (r: String)
    ensures
        r@ == a@ + b@,
{
    let mut r = a.to_owned();
    r.append(b);
    r
}

} // verus!
