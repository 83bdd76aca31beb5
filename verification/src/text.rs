//! Text as a sequence of characters: search, replacement, trimming and splitting.

use vstd::prelude::*;

verus! {

/// `String::push` appends one character.
pub assume_specification[ String::push ](text: &mut String, c: char)
    ensures
        final(text)@ == old(text)@.push(c),
;

/// `needle` stands in `hay` at position `i`.
pub open spec fn occurs_at(hay: Seq<char>, needle: Seq<char>, i: int) -> bool {
    &&& 0 <= i
    &&& i + needle.len() <= hay.len()
    &&& hay.subrange(i, i + needle.len()) == needle
}

/// `needle` stands somewhere in `hay`.
pub open spec fn contains(hay: Seq<char>, needle: Seq<char>) -> bool {
    exists|i: int| occurs_at(hay, needle, i)
}

/// `i` is the leftmost position at which `needle` stands in `hay`.
pub open spec fn first_at(hay: Seq<char>, needle: Seq<char>, i: int) -> bool {
    &&& occurs_at(hay, needle, i)
    &&& forall|j: int| occurs_at(hay, needle, j) ==> i <= j
}

/// What follows the first occurrence of `needle` in `hay`.
pub open spec fn following(hay: Seq<char>, needle: Seq<char>) -> Option<Seq<char>> {
    if contains(hay, needle) {
        let i = choose|i: int| first_at(hay, needle, i);
        Some(hay.skip(i + needle.len()))
    } else {
        None
    }
}

/// `text` begins with `prefix`.
pub open spec fn starts_with(text: Seq<char>, prefix: Seq<char>) -> bool {
    occurs_at(text, prefix, 0)
}

/// `hay` with every occurrence of `needle`, taken from the left and without overlap,
/// replaced by `with`.
pub open spec fn replaced(hay: Seq<char>, needle: Seq<char>, with: Seq<char>) -> Seq<char>
    decreases hay.len(),
{
    if needle.len() == 0 || hay.len() < needle.len() {
        hay
    } else if starts_with(hay, needle) {
        with + replaced(hay.skip(needle.len() as int), needle, with)
    } else {
        seq![hay[0]] + replaced(hay.skip(1), needle, with)
    }
}

/// The characters with Unicode's `White_Space` property.
pub open spec fn white_space(c: char) -> bool {
    ||| '\u{9}' <= c <= '\u{d}'
    ||| c == ' '
    ||| c == '\u{85}'
    ||| c == '\u{a0}'
    ||| c == '\u{1680}'
    ||| '\u{2000}' <= c <= '\u{200a}'
    ||| c == '\u{2028}'
    ||| c == '\u{2029}'
    ||| c == '\u{202f}'
    ||| c == '\u{205f}'
    ||| c == '\u{3000}'
}

/// `text` without its leading white space.
pub open spec fn trimmed_start(text: Seq<char>) -> Seq<char>
    decreases text.len(),
{
    if text.len() > 0 && white_space(text[0]) {
        trimmed_start(text.skip(1))
    } else {
        text
    }
}

/// `text` without its trailing white space.
pub open spec fn trimmed_end(text: Seq<char>) -> Seq<char>
    decreases text.len(),
{
    if text.len() > 0 && white_space(text.last()) {
        trimmed_end(text.drop_last())
    } else {
        text
    }
}

/// `text` without white space on either side.
pub open spec fn trimmed(text: Seq<char>) -> Seq<char> {
    trimmed_end(trimmed_start(text))
}

/// The characters of `text` before its first white space.
pub open spec fn until_space(text: Seq<char>) -> Seq<char>
    decreases text.len(),
{
    if text.len() == 0 || white_space(text[0]) {
        Seq::empty()
    } else {
        seq![text[0]] + until_space(text.skip(1))
    }
}

/// The first of the words that white space separates, if there is any word.
pub open spec fn first_word(text: Seq<char>) -> Option<Seq<char>> {
    let rest = trimmed_start(text);
    if rest.len() == 0 {
        None
    } else {
        Some(until_space(rest))
    }
}

/// The pieces of `text` between the separators: one more than there are separators.
pub open spec fn pieces(text: Seq<char>, separator: char) -> Seq<Seq<char>>
    decreases text.len(),
{
    if text.len() == 0 {
        seq![Seq::empty()]
    } else {
        let before = pieces(text.drop_last(), separator);
        if text.last() == separator {
            before.push(Seq::empty())
        } else {
            before.update(before.len() - 1, before.last().push(text.last()))
        }
    }
}

/// What each text of a list holds.
pub open spec fn views(texts: Seq<String>) -> Seq<Seq<char>> {
    Seq::new(texts.len(), |i: int| texts[i]@)
}

/// The characters of `text`.
pub fn chars_of(text: &str) -> (chars: Vec<char>)
    ensures
        chars@ == text@,
{
    let mut chars: Vec<char> = Vec::new();
    for c in it: text.chars()
        invariant
            it.seq() == text@,
            chars@ == text@.take(it.index()),
    {
        chars.push(c);
    }
    chars
}

/// The text made of `chars[from..to]`.
pub fn text_of(chars: &Vec<char>, from: usize, to: usize) -> (text: String)
    requires
        from <= to <= chars@.len(),
    ensures
        text@ == chars@.subrange(from as int, to as int),
{
    let mut text = String::new();
    let mut i: usize = from;
    while i < to
        invariant
            from <= i <= to <= chars@.len(),
            text@ == chars@.subrange(from as int, i as int),
        decreases to - i,
    {
        text.push(chars[i]);
        i = i + 1;
    }
    text
}

/// Whether `needle` stands in `hay` at position `i`.
fn occurs(hay: &Vec<char>, needle: &Vec<char>, i: usize) -> (found: bool)
    ensures
        found == occurs_at(hay@, needle@, i as int),
{
    let length: usize = hay.len();
    if i > length || needle.len() > length - i {
        return false;
    }
    let mut k: usize = 0;
    while k < needle.len()
        invariant
            i + needle@.len() <= length == hay@.len(),
            k <= needle@.len(),
            forall|m: int| 0 <= m < k ==> hay@[i + m] == needle@[m],
        decreases needle@.len() - k,
    {
        if hay[i + k] != needle[k] {
            assert(hay@.subrange(i as int, i + needle@.len())[k as int] != needle@[k as int]);
            return false;
        }
        k = k + 1;
    }
    assert(hay@.subrange(i as int, i + needle@.len()) =~= needle@);
    true
}

/// The leftmost position at which `needle` stands in `hay`.
fn find_chars(hay: &Vec<char>, needle: &Vec<char>) -> (position: Option<usize>)
    ensures
        match position {
            Some(i) => first_at(hay@, needle@, i as int),
            None => !contains(hay@, needle@),
        },
{
    let mut i: usize = 0;
    while i < hay.len()
        invariant
            i <= hay@.len(),
            forall|j: int| 0 <= j < i ==> !occurs_at(hay@, needle@, j),
        decreases hay@.len() - i,
    {
        if occurs(hay, needle, i) {
            return Some(i);
        }
        i = i + 1;
    }
    if occurs(hay, needle, i) {
        return Some(i);
    }
    None
}

/// The text that follows the first occurrence of `needle` in `hay`.
pub fn text_after(hay: &str, needle: &str) -> (rest: Option<String>)
    ensures
        match rest {
            Some(r) => following(hay@, needle@) == Some(r@),
            None => following(hay@, needle@) is None,
        },
{
    let hay_chars = chars_of(hay);
    let needle_chars = chars_of(needle);
    match find_chars(&hay_chars, &needle_chars) {
        Some(i) => {
            let length: usize = hay_chars.len();
            let rest = text_of(&hay_chars, i + needle_chars.len(), length);
            proof {
                assert(occurs_at(hay@, needle@, i as int));
                let first = choose|j: int| first_at(hay@, needle@, j);
                assert(first_at(hay@, needle@, first));
                assert(rest@ =~= hay@.skip(first + needle@.len()));
            }
            Some(rest)
        },
        None => None,
    }
}

/// Whether `needle` stands somewhere in `hay`.
pub fn has_text(hay: &str, needle: &str) -> (found: bool)
    ensures
        found == contains(hay@, needle@),
{
    let hay_chars = chars_of(hay);
    let needle_chars = chars_of(needle);
    match find_chars(&hay_chars, &needle_chars) {
        Some(i) => {
            assert(occurs_at(hay@, needle@, i as int));
            true
        },
        None => false,
    }
}

/// Whether `text` begins with `prefix`.
pub fn has_prefix(text: &str, prefix: &str) -> (found: bool)
    ensures
        found == starts_with(text@, prefix@),
{
    occurs(&chars_of(text), &chars_of(prefix), 0)
}

/// Whether two texts hold the same characters.
pub fn same_text(a: &str, b: &str) -> (same: bool)
    ensures
        same == (a@ == b@),
{
    let a_chars = chars_of(a);
    let b_chars = chars_of(b);
    let same = a_chars.len() == b_chars.len() && occurs(&a_chars, &b_chars, 0);
    assert(a@.len() == b@.len() ==> a@.subrange(0, b@.len() as int) =~= a@);
    same
}

/// `hay` with every occurrence of `needle` replaced by `with`.
pub fn replace_text(hay: &str, needle: &str, with: &str) -> (text: String)
    requires
        needle@.len() > 0,
    ensures
        text@ == replaced(hay@, needle@, with@),
{
    let hay_chars = chars_of(hay);
    let needle_chars = chars_of(needle);
    let mut text = String::new();
    let mut i: usize = 0;
    assert(hay@.skip(0) =~= hay@);
    while i < hay_chars.len()
        invariant
            hay_chars@ == hay@,
            needle_chars@ == needle@,
            needle@.len() > 0,
            i <= hay@.len(),
            text@ + replaced(hay@.skip(i as int), needle@, with@) == replaced(
                hay@,
                needle@,
                with@,
            ),
        decreases hay@.len() - i,
    {
        let ghost rest = hay@.skip(i as int);
        let ghost before = text@;
        if occurs(&hay_chars, &needle_chars, i) {
            assert(rest.subrange(0, needle@.len() as int) =~= hay@.subrange(
                i as int,
                i + needle@.len(),
            ));
            assert(rest.skip(needle@.len() as int) =~= hay@.skip(i + needle@.len()));
            text.append(with);
            i = i + needle_chars.len();
            assert(text@ + replaced(hay@.skip(i as int), needle@, with@) =~= before + replaced(
                rest,
                needle@,
                with@,
            ));
        } else {
            assert(starts_with(rest, needle@) ==> occurs_at(hay@, needle@, i as int)) by {
                if starts_with(rest, needle@) {
                    assert(rest.subrange(0, needle@.len() as int) =~= hay@.subrange(
                        i as int,
                        i + needle@.len(),
                    ));
                }
            }
            assert(rest.skip(1) =~= hay@.skip(i + 1));
            proof {
                if rest.len() < needle@.len() {
                    assert(replaced(rest.skip(1), needle@, with@) == rest.skip(1));
                }
            }
            text.push(hay_chars[i]);
            i = i + 1;
            assert(text@ + replaced(hay@.skip(i as int), needle@, with@) =~= before + replaced(
                rest,
                needle@,
                with@,
            ));
        }
    }
    assert(text@ + replaced(hay@.skip(i as int), needle@, with@) =~= text@);
    text
}

/// Whether `c` is white space.
pub fn is_white_space(c: char) -> (space: bool)
    ensures
        space == white_space(c),
{
    ('\u{9}' <= c && c <= '\u{d}') || c == ' ' || c == '\u{85}' || c == '\u{a0}' || c
        == '\u{1680}' || ('\u{2000}' <= c && c <= '\u{200a}') || c == '\u{2028}' || c
        == '\u{2029}' || c == '\u{202f}' || c == '\u{205f}' || c == '\u{3000}'
}

/// The position of the first character of `chars` that is not white space.
fn space_end(chars: &Vec<char>) -> (start: usize)
    ensures
        start <= chars@.len(),
        chars@.skip(start as int) == trimmed_start(chars@),
        start < chars@.len() ==> !white_space(chars@[start as int]),
{
    let mut start: usize = 0;
    assert(chars@.skip(0) =~= chars@);
    while start < chars.len() && is_white_space(chars[start])
        invariant
            start <= chars@.len(),
            trimmed_start(chars@.skip(start as int)) == trimmed_start(chars@),
        decreases chars@.len() - start,
    {
        assert(chars@.skip(start as int).skip(1) =~= chars@.skip(start + 1));
        start = start + 1;
    }
    start
}

/// `text` without white space on either side.
pub fn trim(text: &str) -> (short: String)
    ensures
        short@ == trimmed(text@),
{
    let chars = chars_of(text);
    let start = space_end(&chars);
    let mut end: usize = chars.len();
    assert(chars@.subrange(start as int, end as int) =~= chars@.skip(start as int));
    while start < end && is_white_space(chars[end - 1])
        invariant
            chars@ == text@,
            start <= end <= chars@.len(),
            trimmed_end(chars@.subrange(start as int, end as int)) == trimmed(text@),
        decreases end,
    {
        assert(chars@.subrange(start as int, end as int).drop_last() =~= chars@.subrange(
            start as int,
            end - 1,
        ));
        end = end - 1;
    }
    text_of(&chars, start, end)
}

/// The first of the words that white space separates, if there is any word.
pub fn leading_word(text: &str) -> (word: Option<String>)
    ensures
        match word {
            Some(w) => first_word(text@) == Some(w@),
            None => first_word(text@) is None,
        },
{
    let chars = chars_of(text);
    let start = space_end(&chars);
    if start == chars.len() {
        return None;
    }
    let ghost rest = chars@.skip(start as int);
    let mut end: usize = start;
    assert(chars@.subrange(start as int, start as int) + until_space(rest) =~= until_space(rest));
    while end < chars.len() && !is_white_space(chars[end])
        invariant
            start <= end <= chars@.len(),
            chars@.subrange(start as int, end as int) + until_space(chars@.skip(end as int))
                == until_space(rest),
        decreases chars@.len() - end,
    {
        let ghost tail = chars@.skip(end as int);
        assert(tail.skip(1) =~= chars@.skip(end + 1));
        assert(chars@.subrange(start as int, end + 1) + until_space(tail.skip(1))
            =~= chars@.subrange(start as int, end as int) + until_space(tail));
        end = end + 1;
    }
    assert(chars@.subrange(start as int, end as int) + until_space(chars@.skip(end as int))
        =~= chars@.subrange(start as int, end as int));
    Some(text_of(&chars, start, end))
}

/// The pieces of `text` between the separators.
pub fn split_text(text: &str, separator: char) -> (parts: Vec<String>)
    ensures
        views(parts@) == pieces(text@, separator),
{
    let chars = chars_of(text);
    let mut parts: Vec<String> = Vec::new();
    let mut start: usize = 0;
    let mut end: usize = 0;
    assert(chars@.subrange(0, 0) =~= Seq::<char>::empty());
    assert(views(parts@).push(chars@.subrange(0, 0)) =~= pieces(chars@.take(0), separator));
    while end < chars.len()
        invariant
            chars@ == text@,
            start <= end <= chars@.len(),
            views(parts@).push(chars@.subrange(start as int, end as int)) == pieces(
                chars@.take(end as int),
                separator,
            ),
        decreases chars@.len() - end,
    {
        let ghost before = views(parts@);
        let ghost piece = chars@.subrange(start as int, end as int);
        assert(chars@.take(end + 1).drop_last() =~= chars@.take(end as int));
        if chars[end] == separator {
            let part = text_of(&chars, start, end);
            parts.push(part);
            start = end + 1;
            end = end + 1;
            assert(views(parts@) =~= before.push(piece));
            assert(chars@.subrange(start as int, end as int) =~= Seq::<char>::empty());
        } else {
            end = end + 1;
            assert(chars@.subrange(start as int, end as int) =~= piece.push(chars@[end - 1]));
            assert(before.push(piece.push(chars@[end - 1])) =~= before.push(piece).update(
                before.len() as int,
                piece.push(chars@[end - 1]),
            ));
        }
    }
    let ghost before = views(parts@);
    let part = text_of(&chars, start, end);
    parts.push(part);
    assert(views(parts@) =~= before.push(part@));
    assert(chars@.take(end as int) =~= text@);
    parts
}

/// `text` is white space only.
pub open spec fn blank(text: Seq<char>) -> bool {
    forall|i: int| 0 <= i < text.len() ==> white_space(#[trigger] text[i])
}

/// White space in front of a text is trimmed.
pub(crate) proof fn lemma_trimmed_start(gap: Seq<char>, text: Seq<char>)
    requires
        blank(gap),
        text.len() > 0,
        !white_space(text[0]),
    ensures
        trimmed_start(gap + text) == text,
    decreases gap.len(),
{
    if gap.len() > 0 {
        assert(white_space(gap[0]));
        assert(forall|i: int| 0 <= i < gap.skip(1).len() ==> gap.skip(1)[i] == gap[i + 1]);
        lemma_trimmed_start(gap.skip(1), text);
        assert((gap + text).skip(1) =~= gap.skip(1) + text);
    } else {
        assert(gap + text =~= text);
    }
}

/// White space behind a text is trimmed.
pub(crate) proof fn lemma_trimmed_end(text: Seq<char>, gap: Seq<char>)
    requires
        blank(gap),
        text.len() > 0,
        !white_space(text.last()),
    ensures
        trimmed_end(text + gap) == text,
    decreases gap.len(),
{
    if gap.len() > 0 {
        assert(white_space(gap[gap.len() - 1]));
        assert(forall|i: int| 0 <= i < gap.drop_last().len() ==> gap.drop_last()[i] == gap[i]);
        lemma_trimmed_end(text, gap.drop_last());
        assert((text + gap).drop_last() =~= text + gap.drop_last());
    } else {
        assert(text + gap =~= text);
    }
}

/// A word ends where white space begins, or with the text.
pub(crate) proof fn lemma_until_space(word: Seq<char>, rest: Seq<char>)
    requires
        forall|i: int| 0 <= i < word.len() ==> !white_space(#[trigger] word[i]),
        rest.len() == 0 || white_space(rest[0]),
    ensures
        until_space(word + rest) == word,
    decreases word.len(),
{
    let text = word + rest;
    if word.len() > 0 {
        assert(!white_space(word[0]));
        assert(forall|i: int| 0 <= i < word.skip(1).len() ==> word.skip(1)[i] == word[i + 1]);
        lemma_until_space(word.skip(1), rest);
        assert(text.skip(1) =~= word.skip(1) + rest);
    }
    assert(until_space(text) =~= word);
}

/// A text that ends in a piece without separators has the pieces before it, and that one.
pub(crate) proof fn lemma_last_piece(before: Seq<char>, separator: char, piece: Seq<char>)
    requires
        forall|i: int| 0 <= i < piece.len() ==> piece[i] != separator,
    ensures
        pieces(piece, separator) == seq![piece],
        pieces(before + seq![separator] + piece, separator) == pieces(before, separator).push(
            piece,
        ),
    decreases piece.len(),
{
    let text = before + seq![separator] + piece;
    if piece.len() == 0 {
        assert(text.drop_last() =~= before);
        assert(piece =~= Seq::<char>::empty());
        assert(pieces(piece, separator) =~= seq![piece]);
    } else {
        lemma_last_piece(before, separator, piece.drop_last());
        assert(text.drop_last() =~= before + seq![separator] + piece.drop_last());
        assert(piece.drop_last().push(piece.last()) =~= piece);
        assert(text.last() == piece.last());
        assert(pieces(piece, separator) =~= seq![piece]);
        assert(pieces(text, separator) =~= pieces(before, separator).push(piece));
    }
}

/// To stand at a position is to agree in every character from there on.
pub proof fn law_occurrence_is_by_character(hay: Seq<char>, needle: Seq<char>, i: int)
    ensures
        occurs_at(hay, needle, i) <==> 0 <= i && i + needle.len() <= hay.len() && forall|k: int|
            0 <= k < needle.len() ==> hay[i + k] == #[trigger] needle[k],
{
    if 0 <= i && i + needle.len() <= hay.len() {
        let part = hay.subrange(i, i + needle.len());
        if occurs_at(hay, needle, i) {
            assert forall|k: int| 0 <= k < needle.len() implies hay[i + k] == #[trigger] needle[k] by {
                assert(part[k] == hay[i + k]);
            }
        }
        if forall|k: int| 0 <= k < needle.len() ==> hay[i + k] == #[trigger] needle[k] {
            assert(part =~= needle);
        }
    }
}

/// A text is found wherever it stands, whatever is around it.
pub proof fn law_what_stands_is_found(front: Seq<char>, needle: Seq<char>, behind: Seq<char>)
    ensures
        contains(front + needle + behind, needle),
        starts_with(needle + behind, needle),
{
    let hay = front + needle + behind;
    assert(hay.subrange(front.len() as int, (front.len() + needle.len()) as int) =~= needle);
    assert(occurs_at(hay, needle, front.len() as int));
    assert((needle + behind).subrange(0, needle.len() as int) =~= needle);
}

/// A text that is found stands there, between what is in front of it and what is behind it.
pub proof fn law_what_is_found_stands(hay: Seq<char>, needle: Seq<char>)
    ensures
        contains(hay, needle) ==> exists|front: Seq<char>, behind: Seq<char>|
            hay == #[trigger] (front + needle + behind),
        starts_with(hay, needle) ==> exists|behind: Seq<char>| hay == #[trigger] (needle + behind),
{
    if contains(hay, needle) {
        let i = choose|i: int| occurs_at(hay, needle, i);
        let front = hay.take(i);
        let behind = hay.skip(i + needle.len());
        assert(hay =~= front + needle + behind);
    }
    if starts_with(hay, needle) {
        let behind = hay.skip(needle.len() as int);
        assert(hay =~= needle + behind);
    }
}

/// No earlier occurrence of a text: it stands first where it is put.
pub open spec fn first_put(front: Seq<char>, needle: Seq<char>, behind: Seq<char>) -> bool {
    forall|j: int| 0 <= j < front.len() ==> !#[trigger] occurs_at(front + needle + behind, needle, j)
}

/// What follows a text is all that stands behind its first occurrence; nothing follows a text
/// that does not occur.
pub proof fn law_all_behind_follows(front: Seq<char>, needle: Seq<char>, behind: Seq<char>)
    ensures
        first_put(front, needle, behind) ==> following(front + needle + behind, needle) == Some(
            behind,
        ),
        !contains(front, needle) ==> following(front, needle) is None,
{
    if first_put(front, needle, behind) {
        let hay = front + needle + behind;
        law_what_stands_is_found(front, needle, behind);
        assert(hay.subrange(front.len() as int, (front.len() + needle.len()) as int) =~= needle);
        assert(occurs_at(hay, needle, front.len() as int));
        assert(first_at(hay, needle, front.len() as int));
        let i = choose|i: int| first_at(hay, needle, i);
        assert(first_at(hay, needle, i));
        assert(hay.skip((front.len() + needle.len()) as int) =~= behind);
    }
}

/// Replacing goes from the left: what stands before the first occurrence stays, the occurrence
/// is exchanged, and what is behind it is gone through in the same way.
pub proof fn law_first_occurrence_is_replaced(
    front: Seq<char>,
    needle: Seq<char>,
    behind: Seq<char>,
    with: Seq<char>,
)
    requires
        needle.len() > 0,
        first_put(front, needle, behind),
    ensures
        replaced(front + needle + behind, needle, with) == front + with + replaced(
            behind,
            needle,
            with,
        ),
    decreases front.len(),
{
    let hay = front + needle + behind;
    if front.len() == 0 {
        assert(hay.subrange(0, needle.len() as int) =~= needle);
        assert(hay.skip(needle.len() as int) =~= behind);
        assert(front + with =~= with);
    } else {
        let rest = front.skip(1);
        assert(hay.skip(1) =~= rest + needle + behind);
        assert(!occurs_at(hay, needle, 0));
        assert forall|j: int| 0 <= j < rest.len() implies !#[trigger] occurs_at(
            rest + needle + behind,
            needle,
            j,
        ) by {
            assert(hay.subrange(j + 1, j + 1 + needle.len()) =~= hay.skip(1).subrange(
                j,
                j + needle.len(),
            ));
            assert(!occurs_at(hay, needle, j + 1));
        }
        law_first_occurrence_is_replaced(rest, needle, behind, with);
        assert(replaced(hay, needle, with) =~= front + with + replaced(behind, needle, with));
    }
}

/// Where there is nothing to replace, all stays.
pub proof fn law_nothing_else_is_replaced(hay: Seq<char>, needle: Seq<char>, with: Seq<char>)
    requires
        !contains(hay, needle),
    ensures
        replaced(hay, needle, with) == hay,
    decreases hay.len(),
{
    if 0 < needle.len() <= hay.len() {
        assert(!occurs_at(hay, needle, 0));
        let rest = hay.skip(1);
        if contains(rest, needle) {
            let i = choose|i: int| occurs_at(rest, needle, i);
            assert(hay.subrange(i + 1, i + 1 + needle.len()) =~= rest.subrange(
                i,
                i + needle.len(),
            ));
            assert(occurs_at(hay, needle, i + 1));
        }
        law_nothing_else_is_replaced(rest, needle, with);
        assert(replaced(hay, needle, with) =~= hay);
    }
}

/// A text that is white space only is trimmed to nothing.
proof fn lemma_blank_is_trimmed(gap: Seq<char>)
    requires
        blank(gap),
    ensures
        trimmed_start(gap).len() == 0,
    decreases gap.len(),
{
    if gap.len() > 0 {
        assert(white_space(gap[0]));
        assert(forall|i: int| 0 <= i < gap.skip(1).len() ==> gap.skip(1)[i] == gap[i + 1]);
        lemma_blank_is_trimmed(gap.skip(1));
    }
}

/// Trimming takes away the white space around a text and nothing else.
pub proof fn law_only_the_margins_are_trimmed(
    before: Seq<char>,
    core: Seq<char>,
    behind: Seq<char>,
)
    requires
        blank(before),
        blank(behind),
        core.len() > 0 ==> !white_space(core[0]) && !white_space(core.last()),
    ensures
        trimmed(before + core + behind) == core,
{
    if core.len() > 0 {
        assert(before + core + behind =~= before + (core + behind));
        assert((core + behind)[0] == core[0]);
        lemma_trimmed_start(before, core + behind);
        lemma_trimmed_end(core, behind);
    } else {
        let gap = before + core + behind;
        assert forall|i: int| 0 <= i < gap.len() implies white_space(#[trigger] gap[i]) by {
            if i < before.len() {
                assert(white_space(before[i]));
            } else {
                assert(white_space(behind[i - before.len()]));
            }
        }
        lemma_blank_is_trimmed(gap);
        assert(trimmed(gap) =~= core);
    }
}

/// The first word of a text stands behind any white space and goes on to the next; white space
/// alone holds no word.
pub proof fn law_first_word_is_whole(gap: Seq<char>, word: Seq<char>, rest: Seq<char>)
    requires
        blank(gap),
        forall|i: int| 0 <= i < word.len() ==> !white_space(#[trigger] word[i]),
        rest.len() == 0 || white_space(rest[0]),
    ensures
        word.len() > 0 ==> first_word(gap + word + rest) == Some(word),
        first_word(gap) is None,
{
    lemma_blank_is_trimmed(gap);
    if word.len() > 0 {
        assert(gap + word + rest =~= gap + (word + rest));
        assert((word + rest)[0] == word[0]);
        lemma_trimmed_start(gap, word + rest);
        lemma_until_space(word, rest);
    }
}

/// A text without separators is one piece; a separator and a piece behind a text add that piece.
pub proof fn law_pieces_add_up(before: Seq<char>, separator: char, piece: Seq<char>)
    requires
        forall|i: int| 0 <= i < piece.len() ==> piece[i] != separator,
    ensures
        pieces(piece, separator) == seq![piece],
        pieces(before + seq![separator] + piece, separator) == pieces(before, separator).push(
            piece,
        ),
{
    lemma_last_piece(before, separator, piece);
}

/// The texts of a list are viewed one by one.
pub proof fn law_views_are_one_by_one(texts: Seq<String>, i: int)
    ensures
        views(texts).len() == texts.len(),
        0 <= i < texts.len() ==> views(texts)[i] == texts[i]@,
{
}

} // verus!
