//! Text as the browser handles it: lower case, trimming, splitting, searching and slicing.
//!
//! The model of a string is the sequence of its characters. Where a function counts in bytes,
//! the bytes are those of the UTF-8 encoding.
use vstd::prelude::*;
use vstd::string::*;
use vstd::utf8::*;

verus! {

broadcast use vstd::utf8::group_utf8_lib;

// ---------------------------------------------------------------------------
// Lower case
// ---------------------------------------------------------------------------
/// The lower case of an ASCII character; any other character stays as it is.
pub open spec fn ascii_lower(c: char) -> char {
    if 'A' <= c <= 'Z' {
        ((c as u32) + 32) as char
    } else {
        c
    }
}

/// Every character in its ASCII lower case.
pub open spec fn ascii_lowercase(s: Seq<char>) -> Seq<char> {
    Seq::new(s.len(), |i: int| ascii_lower(s[i]))
}

/// What `str::to_lowercase` makes of a text with characters outside ASCII.
pub uninterp spec fn unicode_lowercase(s: Seq<char>) -> Seq<char>;

/// The lower case of a text.
pub open spec fn lowercase(s: Seq<char>) -> Seq<char> {
    if is_ascii_chars(s) {
        ascii_lowercase(s)
    } else {
        unicode_lowercase(s)
    }
}

/// Calls `str::to_lowercase`. On ASCII text the letters `A` to `Z` become `a` to `z` and nothing
/// else changes; on any other text the result, which Unicode's tables decide, depends on the text
/// alone and has a name.
#[verifier::external_body]
pub(crate) fn to_lowercase(s: &str) -> (r: String)
    ensures
        r@ == (if is_ascii_chars(s@) {
            ascii_lowercase(s@)
        } else {
            unicode_lowercase(s@)
        }),
{
    s.to_lowercase()
}

// ---------------------------------------------------------------------------
// Characters and strings
// ---------------------------------------------------------------------------
/// `String::push` appends one character.
pub assume_specification[ String::push ](s: &mut String, c: char)
    ensures
        final(s)@ == old(s)@.push(c),
;

/// `String::pop` takes the last character off and returns it; an empty string stays empty.
pub assume_specification[ String::pop ](s: &mut String) -> (r: Option<char>)
    ensures
        old(s)@.len() == 0 ==> r is None && final(s)@ == old(s)@,
        old(s)@.len() > 0 ==> r == Some(old(s)@.last()) && final(s)@ == old(s)@.drop_last(),
;

/// `String::clear` removes every character.
pub assume_specification[ String::clear ](s: &mut String)
    ensures
        final(s)@ == Seq::<char>::empty(),
;

/// The characters of a text.
pub fn chars_of(s: &str) -> (r: Vec<char>)
    ensures
        r@ == s@,
{
    let mut out: Vec<char> = Vec::new();
    for c in it: s.chars()
        invariant
            out@ == it.seq().take(it.index()),
            it.seq() == s@,
    {
        proof {
            assert(it.seq().take(it.index() + 1) =~= it.seq().take(it.index()).push(c));
        }
        out.push(c);
    }
    proof {
        assert(s@.take(s@.len() as int) =~= s@);
    }
    out
}

/// The text made of a range of characters.
pub fn text_of(chars: &Vec<char>, from: usize, to: usize) -> (r: String)
    requires
        from <= to <= chars@.len(),
    ensures
        r@ == chars@.subrange(from as int, to as int),
{
    let mut out = String::new();
    let mut i: usize = from;
    while i < to
        invariant
            from <= i <= to <= chars@.len(),
            out@ == chars@.subrange(from as int, i as int),
        decreases to - i,
    {
        out.push(chars[i]);
        i += 1;
        proof {
            assert(chars@.subrange(from as int, i as int) =~= chars@.subrange(
                from as int,
                i - 1,
            ).push(chars@[i - 1]));
        }
    }
    out
}

/// Whether two texts are the same.
pub fn same_text(a: &str, b: &str) -> (r: bool)
    ensures
        r == (a@ == b@),
{
    let x = chars_of(a);
    let y = chars_of(b);
    if x.len() != y.len() {
        return false;
    }
    let mut i: usize = 0;
    while i < x.len()
        invariant
            i <= x@.len(),
            x@.len() == y@.len(),
            x@ == a@,
            y@ == b@,
            forall|j: int| 0 <= j < i ==> x@[j] == y@[j],
        decreases x@.len() - i,
    {
        if x[i] != y[i] {
            return false;
        }
        i += 1;
    }
    proof {
        assert(x@ =~= y@);
    }
    true
}

// ---------------------------------------------------------------------------
// White space and trimming
// ---------------------------------------------------------------------------
/// The characters with Unicode's `White_Space` property.
pub open spec fn white_space(c: char) -> bool {
    ||| '\u{9}' <= c <= '\u{d}'
    ||| c == ' '
    ||| c == '\u{85}'
    ||| c == '\u{a0}'
    ||| c == '\u{1680}'
    ||| '\u{2000}' <= c <= '\u{200a}'
    ||| c == '\u{2028}'
    ||| c == '\u{2029}'
    ||| c == '\u{202f}'
    ||| c == '\u{205f}'
    ||| c == '\u{3000}'
}

/// `char::is_whitespace` says whether a character has the `White_Space` property, which Unicode's
/// `PropList.txt` gives to the characters that `white_space` lists.
pub assume_specification[ char::is_whitespace ](c: char) -> (r: bool)
    ensures
        r == white_space(c),
;

/// A text without the white space at its start.
pub open spec fn trim_start(s: Seq<char>) -> Seq<char>
    decreases s.len(),
{
    if s.len() > 0 && white_space(s[0]) {
        trim_start(s.drop_first())
    } else {
        s
    }
}

/// A text without the white space at its end.
pub open spec fn trim_end(s: Seq<char>) -> Seq<char>
    decreases s.len(),
{
    if s.len() > 0 && white_space(s.last()) {
        trim_end(s.drop_last())
    } else {
        s
    }
}

/// A text without the white space around it.
pub open spec fn trimmed(s: Seq<char>) -> Seq<char> {
    trim_end(trim_start(s))
}

/// Removes the white space around a text.
pub fn trim(s: &str) -> (r: String)
    ensures
        r@ == trimmed(s@),
{
    let chars = chars_of(s);
    let mut from: usize = 0;
    proof {
        assert(chars@.subrange(0, chars@.len() as int) =~= chars@);
    }
    while from < chars.len() && chars[from].is_whitespace()
        invariant
            from <= chars@.len(),
            chars@ == s@,
            trim_start(s@) == trim_start(chars@.subrange(from as int, chars@.len() as int)),
        decreases chars@.len() - from,
    {
        proof {
            assert(chars@.subrange(from as int, chars@.len() as int).drop_first()
                =~= chars@.subrange(from + 1, chars@.len() as int));
        }
        from += 1;
    }
    let mut to: usize = chars.len();
    while from < to && chars[to - 1].is_whitespace()
        invariant
            from <= to <= chars@.len(),
            chars@ == s@,
            trimmed(s@) == trim_end(chars@.subrange(from as int, to as int)),
        decreases to - from,
    {
        proof {
            assert(chars@.subrange(from as int, to as int).drop_last() =~= chars@.subrange(
                from as int,
                to - 1,
            ));
        }
        to -= 1;
    }
    text_of(&chars, from, to)
}

// ---------------------------------------------------------------------------
// Splitting and joining
// ---------------------------------------------------------------------------
/// The pieces between the separators of a text: one more than there are separators.
pub open spec fn pieces(s: Seq<char>, separator: char) -> Seq<Seq<char>>
    decreases s.len(),
{
    if s.len() == 0 {
        seq![Seq::<char>::empty()]
    } else {
        let front = pieces(s.drop_last(), separator);
        if s.last() == separator {
            front.push(Seq::<char>::empty())
        } else {
            front.drop_last().push(front.last().push(s.last()))
        }
    }
}

/// What the texts of a vector hold.
pub open spec fn texts(v: Seq<String>) -> Seq<Seq<char>> {
    Seq::new(v.len(), |i: int| v[i]@)
}

/// There is always at least one piece.
pub proof fn lemma_pieces_nonempty(s: Seq<char>, separator: char)
    ensures
        pieces(s, separator).len() > 0,
    decreases s.len(),
{
    if s.len() > 0 {
        lemma_pieces_nonempty(s.drop_last(), separator);
    }
}

/// A piece without separators joins the last piece before it.
pub proof fn lemma_pieces_append(s: Seq<char>, word: Seq<char>, separator: char)
    requires
        !word.contains(separator),
    ensures
        pieces(s + word, separator) == pieces(s, separator).drop_last().push(
            pieces(s, separator).last() + word,
        ),
    decreases word.len(),
{
    lemma_pieces_nonempty(s, separator);
    let front = pieces(s, separator);
    if word.len() == 0 {
        assert(s + word =~= s);
        assert(front.last() + word =~= front.last());
        assert(front.drop_last().push(front.last()) =~= front);
    } else {
        let rest = word.drop_last();
        assert(!rest.contains(separator)) by {
            assert forall|k: int| 0 <= k < rest.len() implies rest[k] != separator by {
                assert(word[k] == rest[k]);
                assert(word.contains(word[k]));
            }
        }
        lemma_pieces_append(s, rest, separator);
        assert((s + word).drop_last() =~= s + rest);
        assert(word.contains(word.last()));
        let mid = front.drop_last().push(front.last() + rest);
        assert(mid.drop_last() =~= front.drop_last());
        assert((front.last() + rest).push(word.last()) =~= front.last() + word);
        assert((s + word).last() == word.last());
    }
}

/// Splits a text at every separator.
pub fn split(s: &str, separator: char) -> (r: Vec<String>)
    ensures
        texts(r@) == pieces(s@, separator),
{
    let chars = chars_of(s);
    let mut done: Vec<String> = Vec::new();
    let mut piece = String::new();
    let mut i: usize = 0;
    proof {
        assert(texts(done@).push(piece@) =~= pieces(chars@.take(0), separator));
    }
    while i < chars.len()
        invariant
            i <= chars@.len(),
            chars@ == s@,
            texts(done@).push(piece@) == pieces(chars@.take(i as int), separator),
        decreases chars@.len() - i,
    {
        let c = chars[i];
        let ghost before = texts(done@).push(piece@);
        proof {
            assert(chars@.take(i + 1).drop_last() =~= chars@.take(i as int));
            assert(chars@.take(i + 1).last() == c);
            assert(before.drop_last() =~= texts(done@));
            assert(before.last() == piece@);
        }
        if c == separator {
            let ghost held = done@;
            let ghost full = piece@;
            done.push(piece);
            piece = String::new();
            proof {
                assert(texts(done@) =~= texts(held).push(full));
            }
        } else {
            piece.push(c);
        }
        i += 1;
    }
    let ghost held = done@;
    let ghost full = piece@;
    done.push(piece);
    proof {
        assert(texts(done@) =~= texts(held).push(full));
        assert(chars@.take(chars@.len() as int) =~= chars@);
    }
    done
}

/// The texts one after the other, with the separator between neighbours.
pub open spec fn joined(list: Seq<Seq<char>>, separator: Seq<char>) -> Seq<char>
    decreases list.len(),
{
    if list.len() == 0 {
        Seq::empty()
    } else if list.len() == 1 {
        list[0]
    } else {
        joined(list.drop_last(), separator) + separator + list.last()
    }
}

/// Joins the first `count` texts with a separator between neighbours.
pub fn join(list: &Vec<String>, count: usize, separator: &str) -> (r: String)
    requires
        count <= list@.len(),
    ensures
        r@ == joined(texts(list@).take(count as int), separator@),
{
    let mut out = String::new();
    let mut i: usize = 0;
    proof {
        assert(texts(list@).take(0) =~= Seq::<Seq<char>>::empty());
    }
    while i < count
        invariant
            i <= count <= list@.len(),
            out@ == joined(texts(list@).take(i as int), separator@),
        decreases count - i,
    {
        proof {
            assert(texts(list@).take(i + 1).drop_last() =~= texts(list@).take(i as int));
        }
        if i > 0 {
            out.append(separator);
        }
        out.append(list[i].as_str());
        i += 1;
    }
    out
}

// ---------------------------------------------------------------------------
// Searching and replacing
// ---------------------------------------------------------------------------
/// Whether the pattern stands in the sequence at this place.
pub open spec fn occurs_at<T>(hay: Seq<T>, pattern: Seq<T>, i: int) -> bool {
    0 <= i && i + pattern.len() <= hay.len() && hay.subrange(i, i + pattern.len()) == pattern
}

/// The first place, from `i` on, at which the pattern stands in the sequence.
pub open spec fn found_from<T>(hay: Seq<T>, pattern: Seq<T>, i: int) -> Option<int>
    decreases hay.len() + 1 - i,
{
    if i < 0 || i + pattern.len() > hay.len() {
        None
    } else if occurs_at(hay, pattern, i) {
        Some(i)
    } else {
        found_from(hay, pattern, i + 1)
    }
}

/// The first place at which the pattern stands in the sequence.
pub open spec fn found<T>(hay: Seq<T>, pattern: Seq<T>) -> Option<int> {
    found_from(hay, pattern, 0)
}

/// `found_from` finds the first occurrence, and finds one wherever there is one.
pub proof fn lemma_found_from<T>(hay: Seq<T>, pattern: Seq<T>, i: int)
    requires
        0 <= i,
    ensures
        match found_from(hay, pattern, i) {
            Some(k) => i <= k && occurs_at(hay, pattern, k) && forall|j: int|
                i <= j < k ==> !occurs_at(hay, pattern, j),
            None => forall|j: int| i <= j ==> !occurs_at(hay, pattern, j),
        },
    decreases hay.len() + 1 - i,
{
    if i + pattern.len() <= hay.len() && !occurs_at(hay, pattern, i) {
        lemma_found_from(hay, pattern, i + 1);
        assert forall|j: int| i <= j && occurs_at(hay, pattern, j) implies i + 1 <= j by {}
    }
}

/// A place with an occurrence, none before it, is the one that `found` gives.
pub proof fn lemma_found_is<T>(hay: Seq<T>, pattern: Seq<T>, k: int)
    requires
        occurs_at(hay, pattern, k),
        forall|j: int| 0 <= j < k ==> !occurs_at(hay, pattern, j),
    ensures
        found(hay, pattern) == Some(k),
{
    lemma_found_from(hay, pattern, 0);
}

/// Whether the characters stand in the text at this place.
fn char_match_at(hay: &Vec<char>, pattern: &Vec<char>, at: usize) -> (r: bool)
    requires
        at + pattern@.len() <= hay@.len(),
    ensures
        r == occurs_at(hay@, pattern@, at as int),
{
    let total: usize = hay.len();
    let mut i: usize = 0;
    while i < pattern.len()
        invariant
            i <= pattern@.len(),
            total == hay@.len(),
            at + pattern@.len() <= total,
            forall|j: int| 0 <= j < i ==> hay@[at + j] == pattern@[j],
        decreases pattern@.len() - i,
    {
        if hay[at + i] != pattern[i] {
            proof {
                assert(hay@.subrange(at as int, at + pattern@.len())[i as int] != pattern@[i as int]);
            }
            return false;
        }
        i += 1;
    }
    proof {
        assert(hay@.subrange(at as int, at + pattern@.len()) =~= pattern@);
    }
    true
}

/// The bytes of a text.
pub open spec fn bytes(s: Seq<char>) -> Seq<u8> {
    encode_utf8(s)
}

/// An index in executable code as an index in the model.
pub open spec fn index_view(i: Option<usize>) -> Option<int> {
    match i {
        Some(k) => Some(k as int),
        None => None,
    }
}

/// Whether a character is a letter of a pattern in lower case, itself or its capital.
fn same_letter(c: char, letter: char) -> (r: bool)
    ensures
        r == (ascii_lower(c) == letter),
{
    if 'A' <= c && c <= 'Z' {
        (c as u32) + 32 == letter as u32
    } else {
        c == letter
    }
}

/// Whether a keyword stands in the text at this place, in any case of letters.
fn keyword_at(hay: &Vec<char>, pattern: &Vec<char>, at: usize) -> (r: bool)
    requires
        at + pattern@.len() <= hay@.len(),
    ensures
        r == occurs_at(ascii_lowercase(hay@), pattern@, at as int),
{
    let total: usize = hay.len();
    let ghost lower = ascii_lowercase(hay@);
    let mut i: usize = 0;
    while i < pattern.len()
        invariant
            i <= pattern@.len(),
            total == hay@.len(),
            lower == ascii_lowercase(hay@),
            at + pattern@.len() <= total,
            forall|j: int| 0 <= j < i ==> lower[at + j] == pattern@[j],
        decreases pattern@.len() - i,
    {
        if !same_letter(hay[at + i], pattern[i]) {
            proof {
                assert(lower.subrange(at as int, at + pattern@.len())[i as int] != pattern@[i as int]);
            }
            return false;
        }
        i += 1;
    }
    proof {
        assert(lower.subrange(at as int, at + pattern@.len()) =~= pattern@);
    }
    true
}

/// The place at which a keyword first stands in a text, in any case of letters.
pub fn find_keyword(s: &str, keyword: &str) -> (r: Option<usize>)
    ensures
        index_view(r) == found(ascii_lowercase(s@), keyword@),
{
    let hay = chars_of(s);
    let needle = chars_of(keyword);
    if needle.len() > hay.len() {
        return None;
    }
    let ghost lower = ascii_lowercase(s@);
    let last: usize = hay.len() - needle.len();
    let mut i: usize = 0;
    while i <= last
        invariant
            hay@ == s@,
            needle@ == keyword@,
            lower == ascii_lowercase(hay@),
            last + needle@.len() == hay@.len(),
            i <= last + 1,
            found(lower, needle@) == found_from(lower, needle@, i as int),
        decreases last + 1 - i,
    {
        if keyword_at(&hay, &needle, i) {
            return Some(i);
        }
        if i == last {
            proof {
                assert(found_from(lower, needle@, i + 1) is None);
            }
            return None;
        }
        i += 1;
    }
    None
}

/// Whether a text starts with a keyword, in any case of letters.
pub fn starts_with_keyword(s: &str, keyword: &str) -> (r: bool)
    ensures
        r == occurs_at(ascii_lowercase(s@), keyword@, 0),
{
    let hay = chars_of(s);
    let needle = chars_of(keyword);
    if needle.len() > hay.len() {
        return false;
    }
    keyword_at(&hay, &needle, 0)
}

/// Whether a text contains a pattern.
pub open spec fn occurs_in(s: Seq<char>, pattern: Seq<char>) -> bool {
    exists|i: int| occurs_at(s, pattern, i)
}

/// Whether a text contains a pattern.
pub fn contains(s: &str, pattern: &str) -> (r: bool)
    ensures
        r == occurs_in(s@, pattern@),
{
    let hay = chars_of(s);
    let needle = chars_of(pattern);
    if needle.len() > hay.len() {
        return false;
    }
    let last: usize = hay.len() - needle.len();
    let mut i: usize = 0;
    while i <= last
        invariant
            hay@ == s@,
            needle@ == pattern@,
            last + needle@.len() == hay@.len(),
            i <= last + 1,
            forall|j: int| 0 <= j < i ==> !occurs_at(hay@, needle@, j),
        decreases last + 1 - i,
    {
        if char_match_at(&hay, &needle, i) {
            return true;
        }
        if i == last {
            return false;
        }
        i += 1;
    }
    false
}

/// Whether a text starts with a prefix.
pub fn starts_with(s: &str, prefix: &str) -> (r: bool)
    ensures
        r == occurs_at(s@, prefix@, 0),
{
    let hay = chars_of(s);
    let needle = chars_of(prefix);
    if needle.len() > hay.len() {
        return false;
    }
    char_match_at(&hay, &needle, 0)
}

/// The text from place `i` on, with every occurrence of `from` replaced, left to right.
pub open spec fn replaced_from(s: Seq<char>, from: Seq<char>, to: Seq<char>, i: int) -> Seq<char>
    decreases s.len() - i,
{
    if i < 0 || i >= s.len() || from.len() == 0 {
        Seq::empty()
    } else if occurs_at(s, from, i) {
        to + replaced_from(s, from, to, i + from.len())
    } else {
        seq![s[i]] + replaced_from(s, from, to, i + 1)
    }
}

/// The text with every occurrence of `from` replaced, left to right.
pub open spec fn replaced(s: Seq<char>, from: Seq<char>, to: Seq<char>) -> Seq<char> {
    replaced_from(s, from, to, 0)
}

/// Replaces every occurrence of a pattern, left to right.
pub fn replace(s: &str, from: &str, to: &str) -> (r: String)
    requires
        from@.len() > 0,
    ensures
        r@ == replaced(s@, from@, to@),
{
    let chars = chars_of(s);
    let pattern = chars_of(from);
    let mut out = String::new();
    let mut i: usize = 0;
    proof {
        assert(out@ + replaced_from(s@, from@, to@, 0) =~= replaced(s@, from@, to@));
    }
    while i < chars.len()
        invariant
            i <= chars@.len(),
            chars@ == s@,
            pattern@ == from@,
            from@.len() > 0,
            replaced(s@, from@, to@) == out@ + replaced_from(s@, from@, to@, i as int),
        decreases chars@.len() - i,
    {
        let ghost before = out@;
        if pattern.len() <= chars.len() - i && char_match_at(&chars, &pattern, i) {
            out.append(to);
            proof {
                assert(before + (to@ + replaced_from(s@, from@, to@, i + from@.len()))
                    =~= out@ + replaced_from(s@, from@, to@, i + from@.len()));
            }
            i += pattern.len();
        } else {
            out.push(chars[i]);
            proof {
                assert(before + (seq![s@[i as int]] + replaced_from(s@, from@, to@, i + 1))
                    =~= out@ + replaced_from(s@, from@, to@, i + 1));
            }
            i += 1;
        }
    }
    proof {
        assert(out@ + replaced_from(s@, from@, to@, i as int) =~= out@);
    }
    out
}

// ---------------------------------------------------------------------------
// Slicing
// ---------------------------------------------------------------------------
/// Whether a byte index falls between two characters of a text, or at one of its ends.
pub open spec fn boundary(s: Seq<char>, i: int) -> bool {
    is_char_boundary(bytes(s), i)
}

/// The text before a byte index.
pub open spec fn before_byte(s: Seq<char>, i: int) -> Seq<char> {
    decode_utf8(bytes(s).subrange(0, i))
}

/// The text from a byte index on.
pub open spec fn after_byte(s: Seq<char>, i: int) -> Seq<char> {
    decode_utf8(bytes(s).subrange(i, bytes(s).len() as int))
}

/// Splits a text at a byte index.
pub fn split_at_byte(s: &str, i: usize) -> (r: (&str, &str))
    requires
        boundary(s@, i as int),
    ensures
        r.0@ == before_byte(s@, i as int),
        r.1@ == after_byte(s@, i as int),
{
    let parts = s.split_at(i);
    proof {
        encode_utf8_decode_utf8(parts.0@);
        encode_utf8_decode_utf8(parts.1@);
    }
    parts
}

/// At most the first `n` characters of a text.
pub open spec fn first_chars(s: Seq<char>, n: int) -> Seq<char> {
    if n < s.len() {
        s.take(n)
    } else {
        s
    }
}

/// Takes at most the first `n` characters.
pub fn take_chars(s: &str, n: usize) -> (r: String)
    ensures
        r@ == first_chars(s@, n as int),
{
    let chars = chars_of(s);
    let to: usize = if n < chars.len() {
        n
    } else {
        chars.len()
    };
    proof {
        assert(chars@.subrange(0, to as int) =~= first_chars(s@, n as int));
    }
    text_of(&chars, 0, to)
}

/// The text from a place on.
pub fn skip_chars(s: &str, n: usize) -> (r: String)
    requires
        n <= s@.len(),
    ensures
        r@ == s@.skip(n as int),
{
    let chars = chars_of(s);
    let total: usize = chars.len();
    proof {
        assert(chars@.subrange(n as int, total as int) =~= s@.skip(n as int));
    }
    text_of(&chars, n, total)
}

/// The first line of a text: what stands before the first line feed, without the carriage return
/// right before it. A text without a line feed is one line.
pub open spec fn first_line(s: Seq<char>) -> Seq<char> {
    match found(s, seq!['\n']) {
        Some(i) => if i > 0 && s[i - 1] == '\r' {
            s.take(i - 1)
        } else {
            s.take(i)
        },
        None => s,
    }
}

/// Takes the first line.
pub fn take_line(s: &str) -> (r: String)
    ensures
        r@ == first_line(s@),
{
    let chars = chars_of(s);
    let mut i: usize = 0;
    let ghost feed = seq!['\n'];
    while i < chars.len()
        invariant
            i <= chars@.len(),
            chars@ == s@,
            feed == seq!['\n'],
            found(s@, feed) == found_from(s@, feed, i as int),
        decreases chars@.len() - i,
    {
        if chars[i] == '\n' {
            proof {
                assert(s@.subrange(i as int, i + 1) =~= feed);
                assert(occurs_at(s@, feed, i as int));
            }
            let to: usize = if i > 0 && chars[i - 1] == '\r' {
                i - 1
            } else {
                i
            };
            return text_of(&chars, 0, to);
        }
        proof {
            assert(s@.subrange(i as int, i + 1)[0] != feed[0]);
        }
        i += 1;
    }
    proof {
        assert(chars@.subrange(0, chars@.len() as int) =~= s@);
    }
    text_of(&chars, 0, chars.len())
}

// ---------------------------------------------------------------------------
// Numbers
// ---------------------------------------------------------------------------
/// The digit for a number below ten.
pub open spec fn digit(n: nat) -> char {
    (48 + n) as char
}

/// A number in decimal notation.
pub open spec fn decimal(n: nat) -> Seq<char>
    decreases n,
{
    if n < 10 {
        seq![digit(n)]
    } else {
        decimal(n / 10).push(digit(n % 10))
    }
}

/// Writes a number in decimal notation.
pub fn number_text(n: usize) -> (r: String)
    ensures
        r@ == decimal(n as nat),
    decreases n,
{
    let last: u8 = 48u8 + (n % 10) as u8;
    let mut out = if n < 10 {
        String::new()
    } else {
        number_text(n / 10)
    };
    let c = last as char;
    out.push(c);
    proof {
        assert(c == digit((n % 10) as nat));
        if n < 10 {
            assert(out@ =~= decimal(n as nat));
        }
    }
    out
}

/// Puts texts one after the other.
pub fn concat2(a: &str, b: &str) -> (r: String)
    ensures
        r@ == a@ + b@,
{
    let mut out = a.to_owned();
    out.append(b);
    out
}

/// Puts texts one after the other.
pub fn concat3(a: &str, b: &str, c: &str) -> (r: String)
    ensures
        r@ == a@ + b@ + c@,
{
    let mut out = a.to_owned();
    out.append(b);
    out.append(c);
    out
}

} // verus!
