//! What reading and writing texts comes to: taking texts apart, putting them together, and what
//! queries, tags and numbers say.
use vstd::prelude::*;
use vstd::string::*;
use vstd::utf8::*;
use crate::column::{column_named, Column, SortDirection};
use crate::edit::{tag_in, tags_in};
use crate::load::{term_in, terms_in};
use crate::query::{columns_part, listed_column, listed_columns, order_clause, show_clause, show_start, with_order};
use crate::text::{ascii_lowercase, decimal, digit, first_chars, first_line, found, joined, lemma_found_from, lemma_found_is, lowercase, occurs_at, occurs_in, pieces, replaced, replaced_from, trim_end, trim_start, trimmed, unicode_lowercase, white_space};

verus! {

// ---------------------------------------------------------------------------
// Taking apart and putting together
// ---------------------------------------------------------------------------
/// Between its separators a text has pieces without separators; put together with separators they
/// are the text.
pub proof fn law_pieces_make_the_text(s: Seq<char>, separator: char)
    ensures
        pieces(s, separator).len() > 0,
        joined(pieces(s, separator), seq![separator]) == s,
        forall|i: int|
            0 <= i < pieces(s, separator).len() ==> !(#[trigger] pieces(s, separator)[i]).contains(
                separator,
            ),
    decreases s.len(),
{
    let list = pieces(s, separator);
    if s.len() == 0 {
        assert(joined(list, seq![separator]) =~= s);
    } else {
        law_pieces_make_the_text(s.drop_last(), separator);
        let front = pieces(s.drop_last(), separator);
        if s.last() == separator {
            assert(list.drop_last() =~= front);
            assert(joined(list, seq![separator]) =~= s);
            assert forall|i: int| 0 <= i < list.len() implies !(#[trigger] list[i]).contains(
                separator,
            ) by {
                if i < front.len() {
                    assert(list[i] == front[i]);
                }
            }
        } else {
            let last = front.last().push(s.last());
            assert(list.drop_last() =~= front.drop_last());
            assert(list.last() == last);
            assert(joined(list, seq![separator]) =~= joined(front, seq![separator]).push(s.last()));
            assert(joined(list, seq![separator]) =~= s);
            assert forall|i: int| 0 <= i < list.len() implies !(#[trigger] list[i]).contains(
                separator,
            ) by {
                if i < front.len() - 1 {
                    assert(list[i] == front[i]);
                } else {
                    assert(!front[front.len() - 1].contains(separator));
                    assert forall|k: int| 0 <= k < last.len() implies last[k] != separator by {
                        if k < last.len() - 1 {
                            assert(front.last().contains(front.last()[k]));
                        }
                    }
                }
            }
        }
    }
}

/// The pieces of two texts with a separator between are the pieces of the one and those of the
/// other; a text without separator is its only piece.
pub proof fn law_pieces_add_up(a: Seq<char>, b: Seq<char>, separator: char)
    ensures
        pieces(a + seq![separator] + b, separator) == pieces(a, separator) + pieces(b, separator),
        !a.contains(separator) ==> pieces(a, separator) == seq![a],
    decreases a.len() + b.len(),
{
    law_pieces_make_the_text(a, separator);
    law_pieces_make_the_text(b, separator);
    let whole = a + seq![separator] + b;
    if b.len() == 0 {
        assert(whole.drop_last() =~= a);
        assert(pieces(whole, separator) =~= pieces(a, separator) + pieces(b, separator));
    } else {
        law_pieces_add_up(a, b.drop_last(), separator);
        law_pieces_make_the_text(b.drop_last(), separator);
        assert(whole.drop_last() =~= a + seq![separator] + b.drop_last());
        assert(pieces(whole, separator) =~= pieces(a, separator) + pieces(b, separator));
    }
    if !a.contains(separator) {
        if a.len() == 0 {
            assert(a =~= Seq::<char>::empty());
        } else {
            assert(a.contains(a[a.len() - 1]));
            assert forall|k: int| 0 <= k < a.len() - 1 implies a.drop_last()[k] != separator by {
                assert(a.contains(a[k]));
            }
            law_pieces_add_up(a.drop_last(), Seq::empty(), separator);
            assert(a.drop_last().push(a.last()) =~= a);
        }
        assert(pieces(a, separator) =~= seq![a]);
    }
}

/// Texts are joined one after the other, with the separator between any two neighbours and nowhere
/// else.
pub proof fn law_joined_adds_up(a: Seq<Seq<char>>, b: Seq<Seq<char>>, separator: Seq<char>)
    requires
        a.len() > 0,
        b.len() > 0,
    ensures
        joined(a + b, separator) == joined(a, separator) + separator + joined(b, separator),
        joined(seq![a[0]], separator) == a[0],
        joined(Seq::<Seq<char>>::empty(), separator).len() == 0,
    decreases b.len(),
{
    let whole = a + b;
    if b.len() == 1 {
        assert(whole.drop_last() =~= a);
    } else {
        law_joined_adds_up(a, b.drop_last(), separator);
        assert(whole.drop_last() =~= a + b.drop_last());
    }
    assert(joined(whole, separator) =~= joined(a, separator) + separator + joined(b, separator));
}

/// Trimming takes off white space at both ends, all of it, and nothing else.
pub proof fn law_trimmed(s: Seq<char>)
    ensures
        exists|a: Seq<char>, b: Seq<char>|
            {
                &&& #[trigger] (a + trimmed(s) + b) == s
                &&& forall|i: int| 0 <= i < a.len() ==> white_space(#[trigger] a[i])
                &&& forall|i: int| 0 <= i < b.len() ==> white_space(#[trigger] b[i])
            },
        trimmed(s).len() > 0 ==> !white_space(trimmed(s)[0]) && !white_space(trimmed(s).last()),
{
    let t = trim_start(s);
    let a = lemma_trim_start(s);
    let b = lemma_trim_end(t);
    assert(a + trimmed(s) + b =~= s);
    if trimmed(s).len() > 0 {
        assert(trimmed(s)[0] == t[0]);
    }
}

/// What is taken off at the start.
proof fn lemma_trim_start(s: Seq<char>) -> (a: Seq<char>)
    ensures
        a + trim_start(s) == s,
        forall|i: int| 0 <= i < a.len() ==> white_space(#[trigger] a[i]),
        trim_start(s).len() > 0 ==> !white_space(trim_start(s)[0]),
    decreases s.len(),
{
    if s.len() > 0 && white_space(s[0]) {
        let rest = lemma_trim_start(s.drop_first());
        let a = seq![s[0]] + rest;
        assert(s =~= seq![s[0]] + s.drop_first());
        assert(a + trim_start(s) =~= seq![s[0]] + (rest + trim_start(s.drop_first())));
        a
    } else {
        assert(Seq::<char>::empty() + s =~= s);
        Seq::empty()
    }
}

/// What is taken off at the end.
proof fn lemma_trim_end(s: Seq<char>) -> (b: Seq<char>)
    ensures
        trim_end(s) + b == s,
        forall|i: int| 0 <= i < b.len() ==> white_space(#[trigger] b[i]),
        trim_end(s).len() > 0 ==> !white_space(trim_end(s).last()),
    decreases s.len(),
{
    if s.len() > 0 && white_space(s.last()) {
        let rest = lemma_trim_end(s.drop_last());
        let b = rest.push(s.last());
        assert(s =~= s.drop_last().push(s.last()));
        assert(trim_end(s) + b =~= (trim_end(s.drop_last()) + rest).push(s.last()));
        b
    } else {
        assert(s + Seq::<char>::empty() =~= s);
        Seq::empty()
    }
}

/// A text holds another where it is that text with something before and behind, which may be
/// nothing.
pub proof fn law_occurs_in(s: Seq<char>, pattern: Seq<char>)
    ensures
        occurs_in(s, pattern) <==> exists|a: Seq<char>, b: Seq<char>|
            s == #[trigger] (a + pattern + b),
{
    if occurs_in(s, pattern) {
        let i = choose|i: int| occurs_at(s, pattern, i);
        let a = s.take(i);
        let b = s.skip(i + pattern.len());
        assert forall|k: int| 0 <= k < pattern.len() implies s[i + k] == pattern[k] by {
            assert(s.subrange(i, i + pattern.len())[k] == pattern[k]);
        }
        assert(s =~= a + pattern + b);
    }
    if exists|a: Seq<char>, b: Seq<char>| s == #[trigger] (a + pattern + b) {
        let (a, b) = choose|a: Seq<char>, b: Seq<char>| s == #[trigger] (a + pattern + b);
        assert(s.subrange(a.len() as int, a.len() as int + pattern.len()) =~= pattern);
        assert(occurs_at(s, pattern, a.len() as int));
    }
}

/// A text stands in another at a place where so many characters come before it.
pub proof fn law_occurs_at(a: Seq<char>, pattern: Seq<char>, b: Seq<char>)
    ensures
        occurs_at(a + pattern + b, pattern, a.len() as int),
{
    assert((a + pattern + b).subrange(a.len() as int, a.len() as int + pattern.len()) =~= pattern);
}

/// The first characters of a text are its beginning, as long as asked for or all there is.
pub proof fn law_first_chars(s: Seq<char>, n: int)
    requires
        0 <= n,
    ensures
        exists|rest: Seq<char>| s == #[trigger] (first_chars(s, n) + rest),
        n <= s.len() ==> first_chars(s, n).len() == n,
        n > s.len() ==> first_chars(s, n) == s,
{
    if n < s.len() {
        assert(s =~= first_chars(s, n) + s.skip(n));
    } else {
        assert(s =~= first_chars(s, n) + Seq::<char>::empty());
    }
}

/// The first line of a text goes up to the first line feed, without a carriage return right before
/// it; a text without line feed is one line.
pub proof fn law_first_line(s: Seq<char>)
    ensures
        !first_line(s).contains('\n'),
        ({
            let l = first_line(s);
            ||| s == l
            ||| l.len() < s.len() && s.take(l.len() as int) == l && s[l.len() as int] == '\n' && (
            l.len() > 0 ==> l.last() != '\r')
            ||| l.len() + 1 < s.len() && s.take(l.len() as int) == l && s[l.len() as int] == '\r'
                && s[l.len() as int + 1] == '\n'
        }),
{
    let feed = seq!['\n'];
    lemma_found_from(s, feed, 0);
    let l = first_line(s);
    assert forall|k: int| 0 <= k < l.len() implies l[k] != '\n' by {
        if l[k] == '\n' {
            assert(s.subrange(k, k + 1) =~= feed);
            assert(occurs_at(s, feed, k));
        }
    }
    if let Some(i) = found(s, feed) {
        assert(s.subrange(i, i + 1)[0] == '\n');
    }
}

/// The number that digits stand for.
pub open spec fn digits_value(s: Seq<char>) -> int
    decreases s.len(),
{
    if s.len() == 0 {
        0
    } else {
        10 * digits_value(s.drop_last()) + (s.last() as int - '0' as int)
    }
}

/// A number is written in digits that stand for it, without a zero in front.
pub proof fn law_decimal(n: nat)
    ensures
        digits_value(decimal(n)) == n,
        decimal(n).len() > 0,
        forall|i: int| 0 <= i < decimal(n).len() ==> '0' <= #[trigger] decimal(n)[i] <= '9',
        n > 0 ==> decimal(n)[0] != '0',
    decreases n,
{
    reveal_with_fuel(digits_value, 2);
    let d = n % 10;
    assert(digit(d) as int == 48 + d);
    if n < 10 {
        assert(decimal(n).drop_last() =~= Seq::<char>::empty());
    } else {
        law_decimal(n / 10);
        assert(decimal(n).drop_last() =~= decimal(n / 10));
        assert(decimal(n)[0] == decimal(n / 10)[0]);
    }
}

/// In lower case ASCII capitals are small letters, and all else is as it was.
pub proof fn law_ascii_lowercase(s: Seq<char>, i: int)
    requires
        0 <= i < s.len(),
    ensures
        ascii_lowercase(s).len() == s.len(),
        'A' <= s[i] <= 'Z' ==> ascii_lowercase(s)[i] as int == s[i] as int + ('a' as int - 'A' as int),
        !('A' <= s[i] <= 'Z') ==> ascii_lowercase(s)[i] == s[i],
{
}

/// A text in lower case has the small letters of ASCII where it is ASCII, however long it is, and
/// else what Unicode says.
pub proof fn law_lowercase(s: Seq<char>)
    ensures
        is_ascii_chars(s) ==> lowercase(s) == ascii_lowercase(s),
        !is_ascii_chars(s) ==> lowercase(s) == unicode_lowercase(s),
{
}

/// Replacing puts the new text in the place of the first occurrence of the old one, and goes on
/// behind it; a text without occurrence stays.
pub proof fn law_replaced(s: Seq<char>, from: Seq<char>, to: Seq<char>)
    requires
        from.len() > 0,
    ensures
        match found(s, from) {
            Some(i) => replaced(s, from, to) == s.take(i) + to + replaced(
                s.skip(i + from.len()),
                from,
                to,
            ),
            None => replaced(s, from, to) == s,
        },
{
    lemma_found_from(s, from, 0);
    match found(s, from) {
        Some(i) => {
            lemma_replaced_before(s, from, to, 0, i);
            lemma_replaced_shift(s, from, to, i + from.len(), 0);
            assert(s.subrange(0, i) =~= s.take(i));
            assert(replaced(s, from, to) =~= s.take(i) + to + replaced(
                s.skip(i + from.len()),
                from,
                to,
            ));
        },
        None => {
            lemma_replaced_before(s, from, to, 0, s.len() as int);
            assert(s.subrange(0, s.len() as int) =~= s);
            assert(replaced(s, from, to) =~= s);
        },
    }
}

/// Up to the first occurrence nothing is replaced.
proof fn lemma_replaced_before(s: Seq<char>, from: Seq<char>, to: Seq<char>, i: int, k: int)
    requires
        from.len() > 0,
        0 <= i <= k <= s.len(),
        forall|j: int| i <= j < k ==> !occurs_at(s, from, j),
    ensures
        replaced_from(s, from, to, i) == s.subrange(i, k) + replaced_from(s, from, to, k),
    decreases k - i,
{
    if i < k {
        lemma_replaced_before(s, from, to, i + 1, k);
        assert(s.subrange(i, k) =~= seq![s[i]] + s.subrange(i + 1, k));
        assert(replaced_from(s, from, to, i) =~= s.subrange(i, k) + replaced_from(s, from, to, k));
    } else {
        assert(replaced_from(s, from, to, i) =~= s.subrange(i, k) + replaced_from(s, from, to, k));
    }
}

/// What is replaced from a place on does not depend on what comes before it.
proof fn lemma_replaced_shift(s: Seq<char>, from: Seq<char>, to: Seq<char>, n: int, i: int)
    requires
        from.len() > 0,
        0 <= n <= s.len(),
        0 <= i,
    ensures
        replaced_from(s, from, to, n + i) == replaced_from(s.skip(n), from, to, i),
    decreases s.len() - n - i,
{
    let t = s.skip(n);
    if n + i < s.len() {
        if n + i + from.len() <= s.len() {
            assert(s.subrange(n + i, n + i + from.len()) =~= t.subrange(i, i + from.len()));
        }
        assert(occurs_at(s, from, n + i) == occurs_at(t, from, i));
        assert(s[n + i] == t[i]);
        if occurs_at(t, from, i) {
            lemma_replaced_shift(s, from, to, n, i + from.len());
        } else {
            lemma_replaced_shift(s, from, to, n, i + 1);
        }
    }
}

// ---------------------------------------------------------------------------
// Lists of words
// ---------------------------------------------------------------------------
/// What is read from two lists of pieces is what is read from the one and from the other.
proof fn lemma_filter_map_adds_up<B>(
    a: Seq<Seq<char>>,
    b: Seq<Seq<char>>,
    f: spec_fn(Seq<char>) -> Option<B>,
)
    ensures
        (a + b).filter_map(f) == a.filter_map(f) + b.filter_map(f),
    decreases b.len(),
{
    if b.len() == 0 {
        assert(a + b =~= a);
        assert(a.filter_map(f) + b.filter_map(f) =~= a.filter_map(f));
    } else {
        lemma_filter_map_adds_up(a, b.drop_last(), f);
        assert((a + b).drop_last() =~= a + b.drop_last());
        assert((a + b).filter_map(f) =~= a.filter_map(f) + b.filter_map(f));
    }
}

/// What is read from one piece.
proof fn lemma_filter_map_one<B>(piece: Seq<char>, f: spec_fn(Seq<char>) -> Option<B>)
    ensures
        seq![piece].filter_map(f) == (match f(piece) {
            Some(v) => seq![v],
            None => Seq::empty(),
        }),
{
    reveal_with_fuel(Seq::filter_map, 2);
    assert(seq![piece].drop_last() =~= Seq::<Seq<char>>::empty());
    assert(seq![piece].filter_map(f) =~= (match f(piece) {
        Some(v) => seq![v],
        None => Seq::empty(),
    }));
}

/// Every piece that names a column adds that column behind those of the pieces before it, and a
/// piece that names none adds nothing.
pub proof fn law_listed_columns_grow(list: Seq<Seq<char>>, piece: Seq<char>)
    ensures
        listed_columns(Seq::empty()).len() == 0,
        listed_columns(list.push(piece)) == (match column_named(lowercase(trimmed(piece))) {
            Some(column) => listed_columns(list).push(column),
            None => listed_columns(list),
        }),
{
    let f = |p: Seq<char>| listed_column(p);
    assert(list.push(piece) =~= list + seq![piece]);
    lemma_filter_map_adds_up(list, seq![piece], f);
    lemma_filter_map_one(piece, f);
    assert(listed_columns(list.push(piece)) =~= (match column_named(lowercase(trimmed(piece))) {
        Some(column) => listed_columns(list).push(column),
        None => listed_columns(list),
    }));
}

/// There are as many listed columns as pieces that name one.
pub proof fn law_listed_columns_are_all(list: Seq<Seq<char>>)
    ensures
        listed_columns(list).len() == list.filter(
            |p: Seq<char>| column_named(lowercase(trimmed(p))) is Some,
        ).len(),
    decreases list.len(),
{
    reveal(Seq::filter);
    if list.len() == 0 {
        law_listed_columns_grow(list, Seq::empty());
        assert(list =~= Seq::<Seq<char>>::empty());
    } else {
        law_listed_columns_are_all(list.drop_last());
        law_listed_columns_grow(list.drop_last(), list.last());
        assert(list.drop_last().push(list.last()) =~= list);
    }
}

/// The words that name columns, and no others.
pub proof fn law_column_words(word: Seq<char>)
    ensures
        column_named(word) == Some(Column::Status) <==> word == "status"@ || word == "completed"@,
        column_named(word) == Some(Column::Title) <==> word == "title"@ || word == "name"@,
        column_named(word) == Some(Column::Tags) <==> word == "tags"@ || word == "tag"@,
        column_named(word) == Some(Column::Url) <==> word == "url"@ || word == "link"@,
        column_named(word) == Some(Column::Notes) <==> word == "notes"@ || word == "note"@ || word
            == "description"@,
{
    reveal_strlit("status");
    reveal_strlit("completed");
    reveal_strlit("title");
    reveal_strlit("name");
    reveal_strlit("tags");
    reveal_strlit("tag");
    reveal_strlit("url");
    reveal_strlit("link");
    reveal_strlit("notes");
    reveal_strlit("note");
    reveal_strlit("description");
    assert("status"@.len() == 6 && "completed"@.len() == 9 && "title"@.len() == 5 && "name"@.len()
        == 4 && "tags"@.len() == 4 && "tag"@.len() == 3 && "url"@.len() == 3 && "link"@.len() == 4
        && "notes"@.len() == 5 && "note"@.len() == 4 && "description"@.len() == 11);
    assert("name"@[0] == 'n' && "name"@[1] == 'a' && "tags"@[0] == 't' && "title"@[0] == 't'
        && "notes"@[0] == 'n' && "note"@[0] == 'n' && "note"@[1] == 'o' && "url"@[0] == 'u'
        && "link"@[0] == 'l' && "tag"@[0] == 't');
}

/// The tags of two texts with a comma between are those of the one and those of the other; a text
/// without comma is one tag, without the white space around it, or none where nothing else is in
/// it.
pub proof fn law_tags_add_up(a: Seq<char>, b: Seq<char>)
    ensures
        tags_in(a + seq![','] + b) == tags_in(a) + tags_in(b),
        !a.contains(',') ==> tags_in(a) == (if trimmed(a).len() > 0 {
            seq![trimmed(a)]
        } else {
            Seq::empty()
        }),
{
    let f = |p: Seq<char>| tag_in(p);
    law_pieces_add_up(a, b, ',');
    lemma_filter_map_adds_up(pieces(a, ','), pieces(b, ','), f);
    if !a.contains(',') {
        lemma_filter_map_one(a, f);
    }
}

/// The configured words of two texts with a comma between are those of the one and those of the
/// other; a text without comma is one word, in lower case and without the white space around it,
/// or none where nothing else is in it.
pub proof fn law_terms_add_up(a: Seq<char>, b: Seq<char>)
    ensures
        terms_in(a + seq![','] + b) == terms_in(a) + terms_in(b),
        !a.contains(',') ==> terms_in(a) == (if lowercase(trimmed(a)).len() > 0 {
            seq![lowercase(trimmed(a))]
        } else {
            Seq::empty()
        }),
{
    let f = |p: Seq<char>| term_in(p);
    law_pieces_add_up(a, b, ',');
    lemma_filter_map_adds_up(pieces(a, ','), pieces(b, ','), f);
    if !a.contains(',') {
        lemma_filter_map_one(a, f);
    }
}

// ---------------------------------------------------------------------------
// Queries
// ---------------------------------------------------------------------------
/// Whether a text begins with a keyword, in any case of letters.
pub open spec fn begins_with(text: Seq<char>, keyword: Seq<char>) -> bool {
    text.len() >= keyword.len() && ascii_lowercase(text.take(keyword.len() as int)) == keyword
}

/// Whether a keyword stands somewhere in a text, in any case of letters.
pub open spec fn has_keyword(text: Seq<char>, keyword: Seq<char>) -> bool {
    exists|i: int| 0 <= i <= text.len() && #[trigger] begins_with(text.skip(i), keyword)
}

/// A keyword begins a text where it occurs at its start.
proof fn lemma_begins_with(text: Seq<char>, keyword: Seq<char>, i: int)
    requires
        0 <= i <= text.len(),
    ensures
        begins_with(text.skip(i), keyword) == occurs_at(ascii_lowercase(text), keyword, i),
{
    let rest = text.skip(i);
    if i + keyword.len() <= text.len() {
        assert(ascii_lowercase(rest.take(keyword.len() as int)) =~= ascii_lowercase(text).subrange(
            i,
            i + keyword.len(),
        ));
    }
}

/// Where a keyword is found: behind a head in which it does not begin.
proof fn lemma_keyword_found(head: Seq<char>, rest: Seq<char>, keyword: Seq<char>)
    requires
        begins_with(rest, keyword),
        forall|i: int|
            0 <= i < head.len() ==> !begins_with(#[trigger] (head + rest).skip(i), keyword),
    ensures
        found(ascii_lowercase(head + rest), keyword) == Some(head.len() as int),
{
    let text = head + rest;
    let n = head.len() as int;
    assert(text.skip(n) =~= rest);
    lemma_begins_with(text, keyword, n);
    assert forall|j: int| 0 <= j < n implies !occurs_at(ascii_lowercase(text), keyword, j) by {
        lemma_begins_with(text, keyword, j);
        assert(!begins_with(text.skip(j), keyword));
    }
    lemma_found_is(ascii_lowercase(text), keyword, n);
}

/// A keyword that begins nowhere is not found.
proof fn lemma_keyword_missing(text: Seq<char>, keyword: Seq<char>)
    requires
        keyword.len() > 0,
        !has_keyword(text, keyword),
    ensures
        found(ascii_lowercase(text), keyword) is None,
{
    lemma_found_from(ascii_lowercase(text), keyword, 0);
    if let Some(i) = found(ascii_lowercase(text), keyword) {
        lemma_begins_with(text, keyword, i);
        assert(begins_with(text.skip(i), keyword));
    }
}

/// The columns between the first `show` of a query and the next order clause are those that the
/// query asks for, all of them and in their order.
pub proof fn law_show_lists_columns(
    head: Seq<char>,
    show: Seq<char>,
    columns: Seq<char>,
    tail: Seq<char>,
)
    requires
        head.len() == 0 && ascii_lowercase(show) == "show "@ || ascii_lowercase(show) == " show "@
            && !begins_with(head + show + (columns + tail), "show "@) && (forall|i: int|
            0 <= i < head.len() ==> !begins_with(
                #[trigger] (head + (show + (columns + tail))).skip(i),
                " show "@,
            )),
        tail.len() == 0 || begins_with(tail, " order "@),
        tail.len() == 0 ==> !has_keyword(columns, " order "@),
        tail.len() > 0 ==> forall|i: int|
            0 <= i < columns.len() ==> !begins_with(
                #[trigger] (columns + tail).skip(i),
                " order "@,
            ),
    ensures
        ({
            let named = listed_columns(pieces(columns, ','));
            show_clause(head + show + columns + tail) == (if named.len() == 0 {
                None
            } else {
                Some(named)
            })
        }),
{
    let query = head + show + columns + tail;
    let start: int = head.len() as int + show.len();
    lemma_show_starts(head, show, columns + tail);
    assert(query =~= head + show + (columns + tail));
    assert(query.skip(start) =~= columns + tail);
    lemma_columns_end(columns, tail);
}

/// Where the columns of a query begin: behind its first `show`.
proof fn lemma_show_starts(head: Seq<char>, show: Seq<char>, after: Seq<char>)
    requires
        head.len() == 0 && ascii_lowercase(show) == "show "@ || ascii_lowercase(show) == " show "@
            && !begins_with(head + show + after, "show "@) && (forall|i: int|
            0 <= i < head.len() ==> !begins_with(
                #[trigger] (head + (show + after)).skip(i),
                " show "@,
            )),
    ensures
        show_start(head + show + after) == Some(head.len() as int + show.len()),
{
    reveal_strlit("show ");
    reveal_strlit(" show ");
    let query = head + show + after;
    assert(ascii_lowercase(show).len() == show.len());
    lemma_begins_with(query, "show "@, 0);
    assert(query.skip(0) =~= query);
    if head.len() == 0 && ascii_lowercase(show) == "show "@ {
        assert(query.take(5) =~= show);
    } else {
        let rest = show + after;
        assert(head + rest =~= query);
        assert(rest.take(6) =~= show);
        lemma_keyword_found(head, rest, " show "@);
    }
}

/// Where the columns of a query end: before the order clause, if there is one.
proof fn lemma_columns_end(columns: Seq<char>, tail: Seq<char>)
    requires
        tail.len() == 0 || begins_with(tail, " order "@),
        tail.len() == 0 ==> !has_keyword(columns, " order "@),
        tail.len() > 0 ==> forall|i: int|
            0 <= i < columns.len() ==> !begins_with(
                #[trigger] (columns + tail).skip(i),
                " order "@,
            ),
    ensures
        columns_part(columns + tail) == columns,
{
    reveal_strlit(" order ");
    if tail.len() == 0 {
        assert(columns + tail =~= columns);
        lemma_keyword_missing(columns, " order "@);
    } else {
        lemma_keyword_found(columns, tail, " order "@);
        assert((columns + tail).take(columns.len() as int) =~= columns);
    }
}

/// A query without `show` asks for no columns.
pub proof fn law_no_show_no_columns(query: Seq<char>)
    requires
        !begins_with(query, "show "@),
        !has_keyword(query, " show "@),
    ensures
        show_clause(query) is None,
{
    reveal_strlit(" show ");
    lemma_begins_with(query, "show "@, 0);
    assert(query.skip(0) =~= query);
    lemma_keyword_missing(query, " show "@);
}

/// Sorting a query that is not sorted yet keeps all of it and puts the clause behind; one that is
/// sorted keeps what stands before its first order clause; nothing stands before a clause that the
/// query begins with.
pub proof fn law_order_is_set(head: Seq<char>, tail: Seq<char>, clause: Seq<char>)
    ensures
        head.len() > 0 && !has_keyword(head, " order by "@) && !begins_with(head, "order by "@)
            ==> with_order(head, clause) == head + " "@ + clause,
        begins_with(tail, " order by "@) && (forall|i: int|
            0 <= i < head.len() ==> !begins_with(
                #[trigger] (head + tail).skip(i),
                " order by "@,
            )) ==> with_order(head + tail, clause) == head + " "@ + clause,
        begins_with(tail, "order by "@) && !has_keyword(tail, " order by "@) ==> with_order(
            tail,
            clause,
        ) == clause,
        with_order(Seq::empty(), clause) == clause,
{
    reveal_strlit(" order by ");
    reveal_strlit("order by ");
    assert(head.skip(0) =~= head);
    lemma_begins_with(head, "order by "@, 0);
    assert(tail.skip(0) =~= tail);
    lemma_begins_with(tail, "order by "@, 0);
    if !has_keyword(head, " order by "@) {
        lemma_keyword_missing(head, " order by "@);
    }
    if !has_keyword(tail, " order by "@) {
        lemma_keyword_missing(tail, " order by "@);
    }
    if begins_with(tail, " order by "@) && (forall|i: int|
        0 <= i < head.len() ==> !begins_with(#[trigger] (head + tail).skip(i), " order by "@)) {
        lemma_keyword_found(head, tail, " order by "@);
        assert((head + tail).take(head.len() as int) =~= head);
    }
}

/// An order clause names the field of its column and the direction.
pub proof fn law_order_clauses(column: Column)
    ensures
        order_clause(column, SortDirection::Desc) == "order by "@ + (match column {
            Column::Status => "completed"@,
            Column::Title => "title"@,
            Column::Tags => "tags"@,
            Column::Url => "url"@,
            Column::Notes => "notes"@,
        }) + " desc"@,
        order_clause(column, SortDirection::Asc) == "order by "@ + (match column {
            Column::Status => "completed"@,
            Column::Title => "title"@,
            Column::Tags => "tags"@,
            Column::Url => "url"@,
            Column::Notes => "notes"@,
        }) + " asc"@,
{
    reveal_strlit(" ");
    reveal_strlit("asc");
    reveal_strlit("desc");
    reveal_strlit(" asc");
    reveal_strlit(" desc");
    assert(" "@ + "asc"@ =~= " asc"@);
    assert(" "@ + "desc"@ =~= " desc"@);
    let front = "order by "@ + column.field_name();
    assert(front + " "@ + "asc"@ =~= front + (" "@ + "asc"@));
    assert(front + " "@ + "desc"@ =~= front + (" "@ + "desc"@));
}

} // verus!
