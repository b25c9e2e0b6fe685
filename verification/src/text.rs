//! Searching and rewriting text.

use vstd::prelude::*;
use vstd::string::*;

verus! {

/// `c` with the ASCII letters `A` to `Z` made lower case.
pub open spec fn ascii_lower(c: char) -> char {
    if 'A' <= c <= 'Z' {
        (c as int + 32) as char
    } else {
        c
    }
}

/// `s` with its ASCII letters made lower case.
pub open spec fn ascii_lower_text(s: Seq<char>) -> Seq<char> {
    s.map_values(|c: char| ascii_lower(c))
}

/// Whether `a` and `b` are equal but for the case of ASCII letters.
pub open spec fn equal_ignoring_case(a: Seq<char>, b: Seq<char>) -> bool {
    ascii_lower_text(a) == ascii_lower_text(b)
}

/// Whether `needle` stands in `s` at `i`.
pub open spec fn occurs_at(s: Seq<char>, needle: Seq<char>, i: int) -> bool {
    &&& 0 <= i
    &&& i + needle.len() <= s.len()
    &&& s.subrange(i, i + needle.len()) == needle
}

/// Whether `needle` stands somewhere in `s`.
pub open spec fn contains_text(s: Seq<char>, needle: Seq<char>) -> bool {
    exists|i: int| occurs_at(s, needle, i)
}

/// Whether the first place at which `needle` stands in `s` is `i`.
pub open spec fn first_occurs_at(s: Seq<char>, needle: Seq<char>, i: int) -> bool {
    &&& occurs_at(s, needle, i)
    &&& forall|j: int| j < i ==> !occurs_at(s, needle, j)
}

/// The first place at which `needle` stands in `s`.
pub open spec fn first_occurrence(s: Seq<char>, needle: Seq<char>) -> int
    recommends
        contains_text(s, needle),
{
    choose|i: int| first_occurs_at(s, needle, i)
}

/// `s` with `to` in place of each `from`, which are taken from the left and do not
/// overlap. `from` is not empty.
pub open spec fn replace_all(s: Seq<char>, from: Seq<char>, to: Seq<char>) -> Seq<char>
    recommends
        from.len() > 0,
    decreases s.len(),
{
    if from.len() > 0 && contains_text(s, from) {
        let i = first_occurrence(s, from);
        proof {
            lemma_first_occurrence(s, from);
        }
        s.take(i) + to + replace_all(s.skip(i + from.len()), from, to)
    } else {
        s
    }
}

/// A text that stands somewhere stands at one first place.
pub proof fn lemma_first_occurrence(s: Seq<char>, needle: Seq<char>)
    requires
        contains_text(s, needle),
    ensures
        first_occurs_at(s, needle, first_occurrence(s, needle)),
        forall|i: int| first_occurs_at(s, needle, i) ==> i == first_occurrence(s, needle),
{
    let i = choose|i: int| occurs_at(s, needle, i);
    lemma_first_at_or_before(s, needle, i);
    assert forall|j: int| first_occurs_at(s, needle, j) implies j == first_occurrence(
        s,
        needle,
    ) by {
        let k = first_occurrence(s, needle);
        assert(occurs_at(s, needle, j) && occurs_at(s, needle, k));
    }
}

proof fn lemma_first_at_or_before(s: Seq<char>, needle: Seq<char>, i: int)
    requires
        occurs_at(s, needle, i),
    ensures
        exists|j: int| first_occurs_at(s, needle, j),
    decreases i,
{
    if exists|j: int| j < i && occurs_at(s, needle, j) {
        let j = choose|j: int| j < i && occurs_at(s, needle, j);
        lemma_first_at_or_before(s, needle, j);
    } else {
        assert(first_occurs_at(s, needle, i));
    }
}

/// The letters `A` to `Z` become the letters 32 code points on, and every other character
/// stays.
pub proof fn law_lower_case_changes_ascii_capitals_alone(c: char)
    ensures
        65 <= c as int <= 90 ==> ascii_lower(c) as int == c as int + 32,
        !(65 <= c as int <= 90) ==> ascii_lower(c) == c,
{
}

/// Making a text lower case is done character by character, keeps its length, and done
/// twice is the same as done once.
pub proof fn law_lower_case_is_by_character(s: Seq<char>, i: int)
    requires
        0 <= i < s.len(),
    ensures
        ascii_lower_text(s).len() == s.len(),
        65 <= s[i] as int <= 90 ==> ascii_lower_text(s)[i] as int == s[i] as int + 32,
        !(65 <= s[i] as int <= 90) ==> ascii_lower_text(s)[i] == s[i],
        ascii_lower_text(ascii_lower_text(s)) == ascii_lower_text(s),
{
    assert forall|k: int| 0 <= k < s.len() implies ascii_lower(
        #[trigger] ascii_lower_text(s)[k],
    ) == ascii_lower_text(s)[k] by {
        law_lower_case_changes_ascii_capitals_alone(s[k]);
        law_lower_case_changes_ascii_capitals_alone(ascii_lower(s[k]));
    }
}

/// A text is contained in another exactly where the other is it with something before and
/// something after.
pub proof fn law_contained_text_is_a_part(s: Seq<char>, needle: Seq<char>)
    ensures
        contains_text(s, needle) <==> exists|before: Seq<char>, after: Seq<char>|
            s == #[trigger] (before + needle + after),
{
    if contains_text(s, needle) {
        let i = choose|i: int| occurs_at(s, needle, i);
        assert(s == s.take(i) + needle + s.skip(i + needle.len()));
    }
    if exists|before: Seq<char>, after: Seq<char>| s == #[trigger] (before + needle + after) {
        let (before, after) = choose|before: Seq<char>, after: Seq<char>|
            s == #[trigger] (before + needle + after);
        let n = before.len() as int;
        assert(s.subrange(n, n + needle.len()) == needle);
        assert(occurs_at(s, needle, n));
    }
}

/// The first place of a text that is contained in another parts the other there, and no
/// other way to part it by that text has less before it.
pub proof fn law_first_occurrence_is_the_first(s: Seq<char>, needle: Seq<char>)
    requires
        contains_text(s, needle),
    ensures
        ({
            let i = first_occurrence(s, needle);
            &&& 0 <= i <= i + needle.len() <= s.len()
            &&& s == s.take(i) + needle + s.skip(i + needle.len())
            &&& forall|before: Seq<char>, after: Seq<char>|
                s == #[trigger] (before + needle + after) ==> i <= before.len()
        }),
{
    lemma_first_occurrence(s, needle);
    let i = first_occurrence(s, needle);
    assert(s == s.take(i) + needle + s.skip(i + needle.len()));
    assert forall|before: Seq<char>, after: Seq<char>|
        s == #[trigger] (before + needle + after) implies i <= before.len() by {
        let n = before.len() as int;
        assert(s.subrange(n, n + needle.len()) == needle);
        assert(occurs_at(s, needle, n));
    }
}

/// A place is that of a text exactly where the text fills it, and the first such place
/// exactly where the text fills none before it.
pub proof fn law_place_of_a_text(s: Seq<char>, needle: Seq<char>, i: int)
    ensures
        occurs_at(s, needle, i) <==> 0 <= i <= s.len() - needle.len() && (forall|k: int|
            0 <= k < needle.len() ==> s[i + k] == #[trigger] needle[k]),
        first_occurs_at(s, needle, i) <==> occurs_at(s, needle, i) && (forall|j: int|
            0 <= j < i ==> !#[trigger] occurs_at(s, needle, j)),
{
    if 0 <= i <= s.len() - needle.len() {
        let part = s.subrange(i, i + needle.len());
        assert(forall|k: int| 0 <= k < needle.len() ==> #[trigger] part[k] == s[i + k]);
        if forall|k: int| 0 <= k < needle.len() ==> s[i + k] == #[trigger] needle[k] {
            assert(part == needle);
        }
    }
}

/// A text in which there is nothing to replace stays as it is.
pub proof fn law_nothing_to_replace(s: Seq<char>, from: Seq<char>, to: Seq<char>)
    requires
        forall|before: Seq<char>, after: Seq<char>| s != #[trigger] (before + from + after),
    ensures
        replace_all(s, from, to) == s,
{
    law_contained_text_is_a_part(s, from);
}

/// Where something is first replaced, what stands before it stays, and what stands after it
/// is replaced in on its own. With `law_nothing_to_replace` this fixes what every
/// replacement gives.
pub proof fn law_replacing_goes_from_the_left(
    before: Seq<char>,
    from: Seq<char>,
    after: Seq<char>,
    to: Seq<char>,
)
    requires
        from.len() > 0,
        forall|a: Seq<char>, b: Seq<char>|
            before + from + after == #[trigger] (a + from + b) ==> before.len() <= a.len(),
    ensures
        replace_all(before + from + after, from, to) == before + to + replace_all(after, from, to),
{
    let s = before + from + after;
    law_contained_text_is_a_part(s, from);
    law_first_occurrence_is_the_first(s, from);
    let i = first_occurrence(s, from);
    assert(s == s.take(i) + from + s.skip(i + from.len()));
    assert(i == before.len());
    assert(s.take(i) == before);
    assert(s.skip(i + from.len()) == after);
}

/// The characters of `s`.
pub fn characters(s: &str) -> (chars: Vec<char>)
    ensures
        chars@ == s@,
{
    let mut chars: Vec<char> = Vec::new();
    for c in it: s.chars()
        invariant
            it.seq() == s@,
            chars@ == s@.take(it.index()),
    {
        chars.push(c);
        assert(s@.take(it.index() + 1) == s@.take(it.index()).push(c));
    }
    assert(s@.take(s@.len() as int) == s@);
    chars
}

/// Whether `needle` stands in `s` at `i`.
fn stands_at(s: &Vec<char>, needle: &Vec<char>, i: usize) -> (b: bool)
    ensures
        b == occurs_at(s@, needle@, i as int),
{
    if i > s.len() || needle.len() > s.len() - i {
        return false;
    }
    for k in 0..needle.len()
        invariant
            i + needle.len() <= s.len(),
            s@.subrange(i as int, i + k) == needle@.take(k as int),
    {
        if s[i + k] != needle[k] {
            assert(s@.subrange(i as int, i + needle.len())[k as int] != needle@[k as int]);
            return false;
        }
        assert(s@.subrange(i as int, i + k + 1) == s@.subrange(i as int, i + k).push(s@[i + k]));
        assert(needle@.take(k + 1) == needle@.take(k as int).push(needle@[k as int]));
    }
    assert(needle@.take(needle@.len() as int) == needle@);
    true
}

/// The first place from `start` on at which `needle` stands in `s`.
pub fn find_from(s: &Vec<char>, needle: &Vec<char>, start: usize) -> (place: Option<usize>)
    requires
        start <= s@.len(),
    ensures
        place is Some <==> contains_text(s@.skip(start as int), needle@),
        place matches Some(i) ==> start <= i && i + needle@.len() <= s@.len() && first_occurs_at(
            s@.skip(start as int),
            needle@,
            i - start,
        ),
{
    let ghost rest = s@.skip(start as int);
    let mut i: usize = start;
    loop
        invariant
            start <= i <= s.len(),
            rest == s@.skip(start as int),
            forall|j: int| j < i - start ==> !occurs_at(rest, needle@, j),
        ensures
            i == s.len(),
            forall|j: int| j <= i - start ==> !occurs_at(rest, needle@, j),
        decreases s.len() - i,
    {
        proof {
            lemma_occurs_at_skip(s@, needle@, start as int, i - start);
        }
        if stands_at(s, needle, i) {
            assert(occurs_at(rest, needle@, i - start));
            return Some(i);
        }
        if i == s.len() {
            break;
        }
        i = i + 1;
    }
    assert forall|j: int| !occurs_at(rest, needle@, j) by {
        if j > i - start {
            assert(j + needle@.len() > rest.len());
        }
    }
    None
}

proof fn lemma_occurs_at_skip(s: Seq<char>, needle: Seq<char>, start: int, i: int)
    requires
        0 <= start <= s.len(),
        0 <= i,
    ensures
        occurs_at(s.skip(start), needle, i) == occurs_at(s, needle, start + i),
{
    if start + i + needle.len() <= s.len() {
        assert(s.skip(start).subrange(i, i + needle.len()) == s.subrange(
            start + i,
            start + i + needle.len(),
        ));
    }
}

/// `s` with its ASCII letters made lower case.
pub fn lower_case(s: &Vec<char>) -> (lower: Vec<char>)
    ensures
        lower@ == ascii_lower_text(s@),
{
    let mut lower: Vec<char> = Vec::new();
    for i in 0..s.len()
        invariant
            lower@ == ascii_lower_text(s@.take(i as int)),
    {
        let c = s[i];
        lower.push(
            if 'A' <= c && c <= 'Z' {
                ((c as u8) + 32) as char
            } else {
                c
            },
        );
        assert(s@.take(i + 1) == s@.take(i as int).push(c));
        assert(ascii_lower_text(s@.take(i + 1)) == ascii_lower_text(s@.take(i as int)).push(
            ascii_lower(c),
        ));
    }
    assert(s@.take(s@.len() as int) == s@);
    lower
}

/// `s` with `to` in place of each `from`.
pub fn replace(s: &str, from: &str, to: &str) -> (result: String)
    requires
        from@.len() > 0,
    ensures
        result@ == replace_all(s@, from@, to@),
{
    let chars = characters(s);
    let from_chars = characters(from);
    let mut result = String::new();
    let mut pos: usize = 0;
    assert(s@.skip(0) == s@);
    loop
        invariant
            chars@ == s@,
            from_chars@ == from@,
            from@.len() > 0,
            pos <= s@.len(),
            replace_all(s@, from@, to@) == result@ + replace_all(s@.skip(pos as int), from@, to@),
        ensures
            !contains_text(s@.skip(pos as int), from@),
        decreases s@.len() - pos,
    {
        match find_from(&chars, &from_chars, pos) {
            Some(i) => {
                proof {
                    let rest = s@.skip(pos as int);
                    lemma_first_occurrence(rest, from@);
                    assert(rest.take(i - pos) == s@.subrange(pos as int, i as int));
                    assert(rest.skip(i - pos + from@.len()) == s@.skip(i + from@.len()));
                }
                result.append(s.substring_char(pos, i));
                result.append(to);
                assert(i + from_chars.len() <= chars.len());
                pos = i + from_chars.len();
            },
            None => {
                break;
            },
        }
    }
    result.append(s.substring_char(pos, chars.len()));
    assert(s@.skip(pos as int) == s@.subrange(pos as int, s@.len() as int));
    result
}

} // verus!
