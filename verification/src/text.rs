//! Searching and cutting texts.
use vstd::prelude::*;

verus! {

/// What `text` says, if there is one.
pub open spec fn text_view(text: Option<String>) -> Option<Seq<char>> {
    match text {
        Some(text) => Some(text@),
        None => None,
    }
}

/// Whether `text` holds `part`.
pub open spec fn holds(text: Seq<char>, part: Seq<char>) -> bool {
    exists|i: int| 0 <= i <= text.len() && #[trigger] part.is_prefix_of(text.skip(i))
}

/// What stands in `text` before the first `separator`: all of it, if there is none.
pub open spec fn before_first(text: Seq<char>, separator: char) -> Seq<char>
    decreases text.len(),
{
    if text.len() == 0 || text[0] == separator {
        Seq::empty()
    } else {
        seq![text[0]] + before_first(text.drop_first(), separator)
    }
}

/// What stands in `text` behind the last `separator`: all of it, if there is none.
pub open spec fn after_last(text: Seq<char>, separator: char) -> Seq<char>
    decreases text.len(),
{
    if text.len() == 0 || text.last() == separator {
        Seq::empty()
    } else {
        after_last(text.drop_last(), separator).push(text.last())
    }
}

/// The second of the parts into which `separator` cuts `text`, if there are two.
pub open spec fn second_part(text: Seq<char>, separator: char) -> Option<Seq<char>> {
    let first = before_first(text, separator);
    if first.len() < text.len() {
        Some(before_first(text.skip(first.len() as int + 1), separator))
    } else {
        None
    }
}

/// What a file name stands for without its extension. The extension begins at the
/// last dot; a dot in front begins none. A name that leads nowhere (the empty one,
/// `.` and `..`) has no stem. This is `std::path::Path::file_stem` of a name without a
/// slash, as Unix reads it: on every machine a backslash or the letter of a drive is
/// part of the name, though Windows would cut a path there.
pub open spec fn file_stem(name: Seq<char>) -> Option<Seq<char>> {
    let extension = after_last(name, '.');
    if name.len() == 0 || name == seq!['.'] || name == seq!['.', '.'] {
        None
    } else if extension.len() + 1 >= name.len() {
        Some(name)
    } else {
        Some(name.take(name.len() - extension.len() - 1))
    }
}

pub(crate) proof fn lemma_before_first(text: Seq<char>, separator: char)
    ensures
        before_first(text, separator).len() <= text.len(),
        before_first(text, separator) == text.take(before_first(text, separator).len() as int),
        before_first(text, separator).len() < text.len()
            ==> text[before_first(text, separator).len() as int] == separator,
        !before_first(text, separator).contains(separator),
    decreases text.len(),
{
    if text.len() > 0 && text[0] != separator {
        let rest = text.drop_first();
        let found = before_first(rest, separator);
        lemma_before_first(rest, separator);
        let whole = seq![text[0]] + found;
        assert(whole =~= text.take(whole.len() as int)) by {
            assert forall|i: int| 0 <= i < whole.len() implies whole[i] == text[i] by {
                if i > 0 {
                    assert(found[i - 1] == rest.take(found.len() as int)[i - 1]);
                }
            }
        }
        assert(!whole.contains(separator)) by {
            if whole.contains(separator) {
                let i = choose|i: int| 0 <= i < whole.len() && whole[i] == separator;
                assert(found[i - 1] == separator);
            }
        }
    }
}

pub(crate) proof fn lemma_after_last(text: Seq<char>, separator: char)
    ensures
        after_last(text, separator).len() <= text.len(),
        after_last(text, separator) == text.skip(text.len() - after_last(text, separator).len()),
        after_last(text, separator).len() < text.len() ==> text[text.len() - after_last(
            text,
            separator,
        ).len() - 1] == separator,
        !after_last(text, separator).contains(separator),
    decreases text.len(),
{
    if text.len() > 0 && text.last() != separator {
        let rest = text.drop_last();
        let found = after_last(rest, separator);
        lemma_after_last(rest, separator);
        let whole = found.push(text.last());
        assert(whole =~= text.skip(text.len() - whole.len())) by {
            assert forall|i: int| 0 <= i < found.len() implies found[i] == text[text.len()
                - whole.len() + i] by {
                assert(found[i] == rest.skip(rest.len() - found.len())[i]);
            }
        }
        assert(!whole.contains(separator)) by {
            if whole.contains(separator) {
                let i = choose|i: int| 0 <= i < whole.len() && whole[i] == separator;
                assert(found[i] == separator);
            }
        }
    }
}

pub(crate) proof fn lemma_uncut(text: Seq<char>, separator: char)
    requires
        !text.contains(separator),
    ensures
        before_first(text, separator) == text,
{
    let found = before_first(text, separator);
    lemma_before_first(text, separator);
    if found.len() < text.len() {
        assert(text[found.len() as int] == separator);
    }
    assert(found =~= text);
}

pub(crate) proof fn lemma_cut_at_first(before: Seq<char>, after: Seq<char>, separator: char)
    requires
        !before.contains(separator),
    ensures
        before_first(before + seq![separator] + after, separator) == before,
{
    let text = before + seq![separator] + after;
    let found = before_first(text, separator);
    lemma_before_first(text, separator);
    if found.len() < before.len() {
        assert(before[found.len() as int] == separator);
    } else if found.len() > before.len() {
        assert(found[before.len() as int] == separator);
    }
    assert(found =~= before);
}

pub(crate) proof fn lemma_cut_at_last(before: Seq<char>, after: Seq<char>, separator: char)
    requires
        !after.contains(separator),
    ensures
        after_last(before + seq![separator] + after, separator) == after,
{
    let text = before + seq![separator] + after;
    let found = after_last(text, separator);
    lemma_after_last(text, separator);
    if found.len() < after.len() {
        assert(after[after.len() - found.len() - 1] == separator);
    } else if found.len() > after.len() {
        assert(found[found.len() - after.len() - 1] == separator);
    }
    assert(found =~= after);
}

pub(crate) proof fn lemma_after_last_of_suffix(text: Seq<char>, tail: Seq<char>, separator: char)
    requires
        (seq![separator] + tail).is_suffix_of(text),
    ensures
        after_last(text, separator) == after_last(tail, separator),
{
    let last = after_last(tail, separator);
    lemma_after_last(tail, separator);
    let before = text.take(text.len() - last.len() - 1);
    assert(text =~= before + seq![separator] + last) by {
        let ending = seq![separator] + tail;
        let start = text.len() - ending.len();
        assert forall|i: int| 0 <= i < ending.len() implies ending[i] == text[start + i] by {
            assert(text.subrange(start, text.len() as int)[i] == text[start + i]);
        }
        assert forall|i: int| 0 <= i < last.len() implies last[i] == text[text.len() - last.len()
            + i] by {
            assert(last[i] == tail.skip(tail.len() - last.len())[i]);
            assert(ending[ending.len() - last.len() + i] == last[i]);
        }
        assert(ending[ending.len() - last.len() - 1] == separator);
    }
    lemma_cut_at_last(before, last, separator);
}

/// The characters of `text`.
pub(crate) fn chars_of(text: &str) -> (chars: Vec<char>)
    ensures
        chars@ == text@,
{
    let mut chars: Vec<char> = Vec::new();
    for c in it: text.chars()
        invariant
            chars@ == it.seq().take(it.index() as int),
            it.seq() == text@,
    {
        chars.push(c);
    }
    chars
}

/// Whether `text` begins with `prefix`.
pub(crate) fn starts_with(text: &str, prefix: &str) -> (yes: bool)
    ensures
        yes == prefix@.is_prefix_of(text@),
{
    let chars = chars_of(text);
    let wanted = chars_of(prefix);
    if wanted.len() > chars.len() {
        return false;
    }
    let mut i: usize = 0;
    while i < wanted.len()
        invariant
            chars@ == text@,
            wanted@ == prefix@,
            i <= wanted@.len() <= chars@.len(),
            forall|k: int| 0 <= k < i ==> wanted@[k] == chars@[k],
        decreases wanted.len() - i,
    {
        if wanted[i] != chars[i] {
            assert(prefix@[i as int] != text@.subrange(0, prefix@.len() as int)[i as int]);
            return false;
        }
        i += 1;
    }
    assert(prefix@ =~= text@.subrange(0, prefix@.len() as int));
    true
}

/// Whether `part` stands in `text` from the character at `start` on.
fn stands_at(text: &Vec<char>, start: usize, part: &Vec<char>) -> (yes: bool)
    requires
        start <= text@.len(),
    ensures
        yes == part@.is_prefix_of(text@.skip(start as int)),
{
    let ghost rest = text@.skip(start as int);
    if part.len() > text.len() - start {
        return false;
    }
    let mut i: usize = 0;
    while i < part.len()
        invariant
            start <= text@.len(),
            rest == text@.skip(start as int),
            i <= part@.len() <= rest.len(),
            start + part@.len() <= text.len(),
            forall|k: int| 0 <= k < i ==> part@[k] == rest[k],
        decreases part.len() - i,
    {
        if part[i] != text[start + i] {
            assert(part@[i as int] != rest.subrange(0, part@.len() as int)[i as int]);
            return false;
        }
        i += 1;
    }
    assert(part@ =~= rest.subrange(0, part@.len() as int));
    true
}

/// Whether `text` holds `part`.
pub(crate) fn find_part(text: &str, part: &str) -> (yes: bool)
    ensures
        yes == holds(text@, part@),
{
    let chars = chars_of(text);
    let wanted = chars_of(part);
    let mut start: usize = 0;
    while start < chars.len()
        invariant
            chars@ == text@,
            wanted@ == part@,
            start <= chars@.len(),
            forall|i: int| 0 <= i < start ==> !#[trigger] part@.is_prefix_of(text@.skip(i)),
        decreases chars.len() - start,
    {
        if stands_at(&chars, start, &wanted) {
            return true;
        }
        start += 1;
    }
    stands_at(&chars, start, &wanted)
}

/// How many characters stand in `chars` before the first `separator` from `start` on.
fn count_before(chars: &Vec<char>, start: usize, separator: char) -> (count: usize)
    requires
        start <= chars@.len(),
    ensures
        count == before_first(chars@.skip(start as int), separator).len(),
{
    let ghost rest = chars@.skip(start as int);
    let ghost found = before_first(rest, separator);
    proof {
        lemma_before_first(rest, separator);
    }
    let mut i: usize = start;
    while i < chars.len() && chars[i] != separator
        invariant
            start <= i <= chars@.len(),
            rest == chars@.skip(start as int),
            i - start <= found.len() <= rest.len(),
            found == rest.take(found.len() as int),
            found.len() < rest.len() ==> rest[found.len() as int] == separator,
        decreases chars.len() - i,
    {
        assert(rest[i - start] == chars@[i as int]);
        i += 1;
    }
    assert(i - start == found.len()) by {
        if i - start < found.len() {
            assert(rest[i - start] == chars@[i as int]);
            assert(found[i - start] == separator);
            assert(found.contains(separator));
        }
    }
    i - start
}

/// How many characters stand in `chars` behind the last `separator`.
fn count_after(chars: &Vec<char>, separator: char) -> (count: usize)
    ensures
        count == after_last(chars@, separator).len(),
{
    let ghost found = after_last(chars@, separator);
    proof {
        lemma_after_last(chars@, separator);
    }
    let mut count: usize = 0;
    while count < chars.len() && chars[chars.len() - count - 1] != separator
        invariant
            count <= found.len() <= chars@.len(),
            found == chars@.skip(chars@.len() - found.len()),
            found.len() < chars@.len() ==> chars@[chars@.len() - found.len() - 1] == separator,
        decreases chars.len() - count,
    {
        count += 1;
    }
    assert(count == found.len()) by {
        if count < found.len() {
            assert(found[found.len() - count - 1] == separator);
            assert(found.contains(separator));
        }
    }
    count
}

/// The second of the parts into which `separator` cuts `text`, if there are two.
pub(crate) fn find_second_part(text: &str, separator: char) -> (part: Option<String>)
    ensures
        part is Some <==> second_part(text@, separator) is Some,
        part matches Some(part) ==> Some(part@) == second_part(text@, separator),
{
    let chars = chars_of(text);
    assert(chars@.skip(0) =~= chars@);
    let first = count_before(&chars, 0, separator);
    if first < chars.len() {
        let start: usize = first + 1;
        let count = count_before(&chars, start, separator);
        proof {
            lemma_before_first(text@.skip(start as int), separator);
        }
        let part = text.substring_char(start, start + count);
        assert(part@ =~= before_first(text@.skip(start as int), separator));
        Some(part.to_owned())
    } else {
        None
    }
}

/// What stands in `text` behind the last `separator`.
pub(crate) fn find_last_part(text: &str, separator: char) -> (part: &str)
    ensures
        part@ == after_last(text@, separator),
{
    let chars = chars_of(text);
    let count = count_after(&chars, separator);
    proof {
        lemma_after_last(text@, separator);
    }
    let part = text.substring_char(chars.len() - count, chars.len());
    assert(part@ =~= after_last(text@, separator));
    part
}

/// What the file name `name` stands for without its extension.
pub(crate) fn find_file_stem(name: &str) -> (stem: Option<String>)
    ensures
        stem is Some <==> file_stem(name@) is Some,
        stem matches Some(stem) ==> Some(stem@) == file_stem(name@),
{
    let chars = chars_of(name);
    let n: usize = chars.len();
    if n == 0 || (n == 1 && chars[0] == '.') || (n == 2 && chars[0] == '.' && chars[1] == '.') {
        assert(n == 0 || name@ =~= seq!['.'] || name@ =~= seq!['.', '.']);
        return None;
    }
    let count = count_after(&chars, '.');
    proof {
        lemma_after_last(name@, '.');
    }
    if count == n || count + 1 == n {
        Some(name.to_owned())
    } else {
        let stem = name.substring_char(0, n - count - 1);
        assert(stem@ =~= name@.take(n - count - 1));
        Some(stem.to_owned())
    }
}

/// What stands before the first separator is all that comes before it, and what stands
/// behind the last is all that comes behind it; a text without a separator is its own
/// first and last part.
pub proof fn law_cut_at_separator(before: Seq<char>, after: Seq<char>, separator: char)
    ensures
        !before.contains(separator) ==> before_first(before + seq![separator] + after, separator)
            == before,
        !after.contains(separator) ==> after_last(before + seq![separator] + after, separator)
            == after,
        !before.contains(separator) ==> before_first(before, separator) == before && after_last(
            before,
            separator,
        ) == before,
{
    if !before.contains(separator) {
        lemma_cut_at_first(before, after, separator);
        lemma_uncut(before, separator);
        lemma_after_last(before, separator);
        let last = after_last(before, separator);
        if last.len() < before.len() {
            assert(before[before.len() - last.len() - 1] == separator);
        }
        assert(last =~= before);
    }
    if !after.contains(separator) {
        lemma_cut_at_last(before, after, separator);
    }
}

/// The second part of a text stands between the first separator and the next one, or the
/// end; a text without a separator has none.
pub proof fn law_second_part_stands_behind_the_first(
    first: Seq<char>,
    second: Seq<char>,
    rest: Seq<char>,
    separator: char,
)
    requires
        !first.contains(separator),
        !second.contains(separator),
    ensures
        second_part(first, separator) is None,
        second_part(first + seq![separator] + second, separator) == Some(second),
        second_part(first + seq![separator] + second + seq![separator] + rest, separator) == Some(
            second,
        ),
{
    lemma_uncut(first, separator);
    lemma_uncut(second, separator);
    let two = first + seq![separator] + second;
    lemma_cut_at_first(first, second, separator);
    assert(two.skip(first.len() as int + 1) =~= second);
    let behind = second + seq![separator] + rest;
    let three = first + seq![separator] + second + seq![separator] + rest;
    assert(three =~= first + seq![separator] + behind);
    lemma_cut_at_first(first, behind, separator);
    assert(three.skip(first.len() as int + 1) =~= behind);
    lemma_cut_at_first(second, rest, separator);
}

/// A file name with a dot is called by what stands before the last one, unless that is
/// nothing; a name without a dot, or with just one dot in front, by itself. The empty
/// name and the two that stand for directories have no stem.
pub proof fn law_stem_stands_before_the_last_dot(stem: Seq<char>, extension: Seq<char>)
    requires
        !extension.contains('.'),
    ensures
        file_stem(Seq::empty()) is None,
        file_stem(seq!['.']) is None,
        file_stem(seq!['.', '.']) is None,
        extension.len() > 0 ==> file_stem(extension) == Some(extension),
        extension.len() > 0 ==> file_stem(seq!['.'] + extension) == Some(seq!['.'] + extension),
        stem.len() > 0 && stem + seq!['.'] + extension != seq!['.', '.'] ==> file_stem(
            stem + seq!['.'] + extension,
        ) == Some(stem),
{
    law_cut_at_separator(extension, extension, '.');
    let hidden = seq!['.'] + extension;
    assert(hidden =~= Seq::<char>::empty() + seq!['.'] + extension);
    lemma_cut_at_last(Seq::empty(), extension, '.');
    if extension.len() > 0 {
        assert(extension[0] != '.');
        assert(extension != seq!['.'] && extension != seq!['.', '.']) by {
            assert(seq!['.'][0] == '.' && seq!['.', '.'][0] == '.');
        }
        assert(hidden[1] == extension[0]);
        assert(hidden != seq!['.', '.']) by {
            assert(seq!['.', '.'][1] == '.');
        }
    }
    let name = stem + seq!['.'] + extension;
    lemma_cut_at_last(stem, extension, '.');
    if stem.len() > 0 {
        assert(name.take(stem.len() as int) =~= stem);
    }
}

/// A text holds a part exactly if it is that part with something before and behind it.
pub proof fn law_text_holds_what_stands_in_it(
    before: Seq<char>,
    part: Seq<char>,
    after: Seq<char>,
)
    ensures
        holds(before + part + after, part),
{
    let text = before + part + after;
    assert(part =~= text.skip(before.len() as int).subrange(0, part.len() as int));
    assert(part.is_prefix_of(text.skip(before.len() as int)));
}

/// Where a text holds a part, the characters of the part stand in it one behind the other.
pub proof fn law_held_part_stands_in_text(text: Seq<char>, part: Seq<char>)
    requires
        holds(text, part),
    ensures
        exists|i: int|
            #![trigger text.subrange(i, i + part.len())]
            0 <= i && i + part.len() <= text.len() && text.subrange(i, i + part.len()) == part,
{
    let i = choose|i: int| 0 <= i <= text.len() && #[trigger] part.is_prefix_of(text.skip(i));
    assert(text.subrange(i, i + part.len()) =~= text.skip(i).subrange(0, part.len() as int));
}

/// A text is known by its characters, and whether there is one.
pub proof fn law_text_tells_all(text: String)
    ensures
        text_view(Some(text)) == Some(text@),
        text_view(None) is None,
{
}

} // verus!
