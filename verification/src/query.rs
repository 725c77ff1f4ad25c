//! Queries: the columns that a `show` clause lists, and the `order by` clause that sorting sets.
//!
//! Keywords are ASCII words and are found in any case of letters.
use vstd::prelude::*;
use vstd::string::*;
use crate::column::{column_named, Column, SortDirection};
use crate::text::{ascii_lowercase, concat3, find_keyword, found, index_view, lemma_found_from, lemma_found_is, lemma_pieces_append, lowercase, occurs_at, pieces, skip_chars, split, starts_with_keyword, take_chars, texts, trimmed, white_space};

verus! {

// ---------------------------------------------------------------------------
// The show clause
// ---------------------------------------------------------------------------
/// Where the columns of a `show` clause begin: behind the keyword that starts the query, else
/// behind the first one that stands between blanks.
pub open spec fn show_start(query: Seq<char>) -> Option<int> {
    let lower = ascii_lowercase(query);
    if occurs_at(lower, "show "@, 0) {
        Some(5int)
    } else {
        match found(lower, " show "@) {
            Some(i) => Some(i + 6),
            None => None,
        }
    }
}

/// The part of a `show` clause that lists columns: what stands before the order clause.
pub open spec fn columns_part(after: Seq<char>) -> Seq<char> {
    match found(ascii_lowercase(after), " order "@) {
        Some(i) => after.take(i),
        None => after,
    }
}

/// The column that a piece of a `show` clause names.
pub open spec fn listed_column(piece: Seq<char>) -> Option<Column> {
    column_named(lowercase(trimmed(piece)))
}

/// The columns that the pieces name; pieces that name none are left out.
pub open spec fn listed_columns(list: Seq<Seq<char>>) -> Seq<Column> {
    list.filter_map(|piece: Seq<char>| listed_column(piece))
}

/// The columns that a query asks for, where it asks for any.
pub open spec fn show_clause(query: Seq<char>) -> Option<Seq<Column>> {
    match show_start(query) {
        Some(i) => {
            let columns = listed_columns(pieces(columns_part(query.skip(i)), ','));
            if columns.len() == 0 {
                None
            } else {
                Some(columns)
            }
        },
        None => None,
    }
}

/// Where the columns of a `show` clause begin.
pub fn find_show(query: &str) -> (r: Option<usize>)
    ensures
        index_view(r) == show_start(query@),
        r matches Some(i) ==> i <= query@.len(),
{
    proof {
        reveal_strlit("show ");
        reveal_strlit(" show ");
        lemma_found_from(ascii_lowercase(query@), " show "@, 0);
    }
    if starts_with_keyword(query, "show ") {
        return Some(5);
    }
    match find_keyword(query, " show ") {
        Some(i) => {
            let total: usize = query.unicode_len();
            assert(i + 6 <= total);
            Some(i + 6)
        },
        None => None,
    }
}

/// The columns that a text lists, separated by commas.
pub fn list_columns(text: &str) -> (r: Vec<Column>)
    ensures
        r@ == listed_columns(pieces(text@, ',')),
{
    let list = split(text, ',');
    let mut out: Vec<Column> = Vec::new();
    let mut i: usize = 0;
    proof {
        assert(texts(list@).take(0) =~= Seq::<Seq<char>>::empty());
    }
    while i < list.len()
        invariant
            i <= list@.len(),
            texts(list@) == pieces(text@, ','),
            out@ == listed_columns(texts(list@).take(i as int)),
        decreases list@.len() - i,
    {
        proof {
            assert(texts(list@).take(i + 1).drop_last() =~= texts(list@).take(i as int));
        }
        if let Some(column) = Column::from_str(list[i].as_str()) {
            out.push(column);
            proof {
                assert(out@ =~= listed_columns(texts(list@).take(i as int)) + seq![column]);
            }
        }
        i += 1;
    }
    proof {
        assert(texts(list@).take(list@.len() as int) =~= texts(list@));
    }
    out
}

/// The part of a `show` clause that lists columns.
pub fn cut_columns(after: &str) -> (r: String)
    ensures
        r@ == columns_part(after@),
{
    proof {
        reveal_strlit(" order ");
        lemma_found_from(ascii_lowercase(after@), " order "@, 0);
    }
    match find_keyword(after, " order ") {
        Some(i) => take_chars(after, i),
        None => after.to_owned(),
    }
}

/// What an optional vector of columns holds.
pub open spec fn opt_columns(c: Option<Vec<Column>>) -> Option<Seq<Column>> {
    match c {
        Some(v) => Some(v@),
        None => None,
    }
}

/// The columns that a query asks for, where it asks for any.
pub fn parse_show_clause(query: &str) -> (r: Option<Vec<Column>>)
    ensures
        opt_columns(r) == show_clause(query@),
{
    match find_show(query) {
        Some(i) => {
            let after = skip_chars(query, i);
            let part = cut_columns(after.as_str());
            let columns = list_columns(part.as_str());
            if columns.is_empty() {
                None
            } else {
                Some(columns)
            }
        },
        None => None,
    }
}

// ---------------------------------------------------------------------------
// The order clause
// ---------------------------------------------------------------------------
/// The clause that orders by a column.
pub open spec fn order_clause(column: Column, direction: SortDirection) -> Seq<char> {
    "order by "@ + column.field_name() + " "@ + direction.word()
}

/// A query with its order clause replaced, or with one added.
pub open spec fn with_order(query: Seq<char>, clause: Seq<char>) -> Seq<char> {
    let lower = ascii_lowercase(query);
    if query.len() == 0 {
        clause
    } else {
        match found(lower, " order by "@) {
            Some(i) => query.take(i) + " "@ + clause,
            None => if occurs_at(lower, "order by "@, 0) {
                clause
            } else {
                query + " "@ + clause
            },
        }
    }
}

/// The clause that orders by a column.
pub fn make_order_clause(column: Column, direction: SortDirection) -> (r: String)
    ensures
        r@ == order_clause(column, direction),
{
    let mut out = concat3("order by ", column.aql_field(), " ");
    out.append(direction.aql_suffix());
    out
}

/// Replaces the order clause of a query, or adds one.
pub fn set_order(query: &str, clause: &str) -> (r: String)
    ensures
        r@ == with_order(query@, clause@),
{
    if query.is_empty() {
        return clause.to_owned();
    }
    proof {
        reveal_strlit(" order by ");
        lemma_found_from(ascii_lowercase(query@), " order by "@, 0);
    }
    match find_keyword(query, " order by ") {
        Some(i) => {
            let head = take_chars(query, i);
            concat3(head.as_str(), " ", clause)
        },
        None => {
            if starts_with_keyword(query, "order by ") {
                clause.to_owned()
            } else {
                concat3(query, " ", clause)
            }
        },
    }
}

// ---------------------------------------------------------------------------
// Laws
// ---------------------------------------------------------------------------
/// A sorted query always ends in the clause that it was sorted by.
pub proof fn law_sorted_query_ends_in_clause(query: Seq<char>, clause: Seq<char>)
    ensures
        with_order(query, clause).len() >= clause.len(),
        with_order(query, clause).skip(with_order(query, clause).len() - clause.len()) == clause,
{
    let sorted = with_order(query, clause);
    assert(sorted.skip(sorted.len() - clause.len()) =~= clause);
}

/// Where a pattern stands in two texts with a blank between: in one of them, or across the blank.
proof fn lemma_occurs_across(s: Seq<char>, c: Seq<char>, p: Seq<char>, j: int)
    requires
        p.len() >= 2,
        c.len() > 0,
        occurs_at(s + seq![' '] + c, p, j),
    ensures
        j + p.len() <= s.len() ==> occurs_at(s, p, j),
        j < s.len() < j + p.len() ==> p[s.len() - j] == ' ' && occurs_at(
            s,
            p.take(s.len() - j),
            j,
        ),
        j == s.len() ==> p[0] == ' ' && p[1] == c[0],
        j > s.len() ==> occurs_at(c, p, j - s.len() - 1),
{
    let t = s + seq![' '] + c;
    let n = s.len() as int;
    let m = p.len() as int;
    assert forall|k: int| 0 <= k < m implies t[j + k] == p[k] by {
        assert(t.subrange(j, j + m)[k] == p[k]);
    }
    if j + m <= n {
        assert(s.subrange(j, j + m) =~= p);
    } else if j < n {
        assert(t[j + (n - j)] == p[n - j]);
        assert(s.subrange(j, n) =~= p.take(n - j));
    } else if j == n {
        assert(t[j + 0] == p[0] && t[j + 1] == p[1]);
    } else {
        assert(c.subrange(j - n - 1, j - n - 1 + m) =~= p);
    }
}

/// What stands in the first of two texts with a blank between stands there in both.
proof fn lemma_occurs_before(s: Seq<char>, c: Seq<char>, p: Seq<char>, j: int)
    requires
        occurs_at(s, p, j),
    ensures
        occurs_at(s + seq![' '] + c, p, j),
{
    assert((s + seq![' '] + c).subrange(j, j + p.len()) =~= s.subrange(j, j + p.len()));
}

/// An order clause lists no columns and holds no keyword of a `show` clause.
proof fn lemma_order_clause_lists_nothing(column: Column, direction: SortDirection)
    ensures
        ({
            let c = order_clause(column, direction);
            &&& c.len() > 6
            &&& c[0] == 'o'
            &&& ascii_lowercase(c) == c
            &&& lowercase(c) == c
            &&& c.subrange(0, 6) == "order "@
            &&& forall|j: int| !occurs_at(c, " show "@, j)
            &&& forall|j: int| !occurs_at(c, " order "@, j)
            &&& listed_columns(pieces(columns_part(c), ',')).len() == 0
        }),
{
    reveal_strlit("order by ");
    reveal_strlit("order ");
    reveal_strlit(" order ");
    reveal_strlit(" show ");
    reveal_strlit(" ");
    reveal_strlit("completed");
    reveal_strlit("title");
    reveal_strlit("tags");
    reveal_strlit("url");
    reveal_strlit("notes");
    reveal_strlit("asc");
    reveal_strlit("desc");
    let c = order_clause(column, direction);
    let f = column.field_name();
    lemma_order_clause(column, direction);
    assert(c.len() == 9 + f.len() + 1 + direction.word().len());
    assert(c.subrange(0, 6) =~= "order "@);
    assert forall|j: int| !occurs_at(c, " show "@, j) by {
        if occurs_at(c, " show "@, j) {
            assert(c.subrange(j, j + 6)[0] == ' ' && c.subrange(j, j + 6)[1] == 's');
            assert(c[j] == ' ' && c[j + 1] == 's');
        }
    }
    assert forall|j: int| !occurs_at(c, " order "@, j) by {
        if occurs_at(c, " order "@, j) {
            assert(c.subrange(j, j + 7)[0] == ' ' && c.subrange(j, j + 7)[1] == 'o');
            assert(c[j] == ' ' && c[j + 1] == 'o');
        }
    }
    lemma_found_from(c, " order "@, 0);
    assert(columns_part(c) == c);
    assert(!c.contains(','));
    lemma_pieces_append(Seq::<char>::empty(), c, ',');
    assert(Seq::<char>::empty() + c =~= c);
    assert(pieces(c, ',') =~= seq![c]);
    assert(!white_space(c[0]) && !white_space(c.last()));
    assert(trimmed(c) == c);
    reveal_strlit("status");
    reveal_strlit("name");
    reveal_strlit("tag");
    reveal_strlit("link");
    reveal_strlit("note");
    reveal_strlit("description");
    assert(listed_column(c) is None);
    reveal_with_fuel(Seq::filter_map, 2);
    assert(seq![c].drop_last() =~= Seq::<Seq<char>>::empty());
}

/// Where a list of columns ends in no order clause, one that follows it is cut off again.
proof fn lemma_order_clause_is_cut(s: Seq<char>, column: Column, direction: SortDirection)
    requires
        forall|j: int| !occurs_at(ascii_lowercase(s), " order "@, j),
        !occurs_at(ascii_lowercase(s), " order"@, s.len() - 6),
    ensures
        ({
            let t = s + seq![' '] + order_clause(column, direction);
            &&& columns_part(t) == s
            &&& columns_part(s) == s
        }),
{
    reveal_strlit(" order ");
    reveal_strlit(" order");
    reveal_strlit("order ");
    let p = " order "@;
    let c = order_clause(column, direction);
    let t = s + seq![' '] + c;
    let n = s.len() as int;
    let lower = ascii_lowercase(s);
    lemma_order_clause_lists_nothing(column, direction);
    assert(ascii_lowercase(t) =~= lower + seq![' '] + c);
    assert forall|j: int| 0 <= j < n implies !occurs_at(ascii_lowercase(t), p, j) by {
        if occurs_at(ascii_lowercase(t), p, j) {
            lemma_occurs_across(lower, c, p, j);
            assert(n - j == 6);
            assert(p.take(6) =~= " order"@);
        }
    }
    assert(occurs_at(ascii_lowercase(t), p, n)) by {
        assert forall|k: int| 0 <= k < 7 implies ascii_lowercase(t).subrange(n, n + 7)[k] == p[k] by {
            if k > 0 {
                assert(c.subrange(0, 6)[k - 1] == "order "@[k - 1]);
            }
        }
        assert(ascii_lowercase(t).subrange(n, n + 7) =~= p);
    }
    lemma_found_is(ascii_lowercase(t), p, n);
    assert(t.take(n) =~= s);
    lemma_found_from(lower, p, 0);
}

/// An order clause behind a query moves no `show` clause in it; where there is none, it can only
/// make a word at the end of the query into one.
proof fn lemma_sorted_show_start(query: Seq<char>, column: Column, direction: SortDirection)
    requires
        query.len() > 0,
    ensures
        ({
            let long = query + seq![' '] + order_clause(column, direction);
            match show_start(query) {
                Some(i) => 0 < i <= query.len() && show_start(long) == Some(i),
                None => show_start(long) is None || show_start(long) == Some(
                    query.len() as int + 1,
                ),
            }
        }),
{
    reveal_strlit("show ");
    reveal_strlit(" show ");
    let c = order_clause(column, direction);
    let n = query.len() as int;
    let lower = ascii_lowercase(query);
    let long = query + seq![' '] + c;
    let p = " show "@;
    lemma_order_clause_lists_nothing(column, direction);
    let l = ascii_lowercase(long);
    assert(l =~= lower + seq![' '] + c);
    lemma_found_from(lower, p, 0);
    lemma_found_from(l, p, 0);
    if occurs_at(lower, "show "@, 0) {
        lemma_occurs_before(lower, c, "show "@, 0);
    } else if occurs_at(l, "show "@, 0) {
        lemma_occurs_across(lower, c, "show "@, 0);
        assert(n == 4);
        assert(found(lower, p) is None);
    } else {
        match found(lower, p) {
            Some(i) => {
                lemma_occurs_before(lower, c, p, i);
                assert forall|j: int| 0 <= j < i implies !occurs_at(l, p, j) by {
                    if occurs_at(l, p, j) {
                        lemma_occurs_across(lower, c, p, j);
                    }
                }
                lemma_found_is(l, p, i);
            },
            None => {
                if let Some(j) = found(l, p) {
                    lemma_occurs_across(lower, c, p, j);
                    assert(n - j == 5);
                }
            },
        }
    }
}

/// A query without an order clause is sorted by a clause behind it.
proof fn lemma_order_appended(query: Seq<char>, clause: Seq<char>)
    requires
        query.len() > 0,
        forall|j: int| !occurs_at(ascii_lowercase(query), " order "@, j),
        !occurs_at(ascii_lowercase(query), "order by "@, 0),
    ensures
        with_order(query, clause) == query + seq![' '] + clause,
{
    reveal_strlit(" order ");
    reveal_strlit(" order by ");
    reveal_strlit(" ");
    let lower = ascii_lowercase(query);
    lemma_found_from(lower, " order by "@, 0);
    if let Some(i) = found(lower, " order by "@) {
        assert forall|k: int| 0 <= k < 7 implies lower.subrange(i, i + 7)[k] == " order "@[k] by {
            assert(lower.subrange(i, i + 10)[k] == " order by "@[k]);
        }
        assert(lower.subrange(i, i + 7) =~= " order "@);
        assert(occurs_at(lower, " order "@, i));
    }
    assert(with_order(query, clause) =~= query + seq![' '] + clause);
}

/// Sorting keeps the columns that a query lists, where the query has no order clause yet and does
/// not break off in the keyword of one.
pub proof fn law_sort_keeps_columns(query: Seq<char>, column: Column, direction: SortDirection)
    requires
        forall|j: int| !occurs_at(ascii_lowercase(query), " order "@, j),
        !occurs_at(ascii_lowercase(query), " order"@, query.len() - 6),
        !occurs_at(ascii_lowercase(query), "order by "@, 0),
    ensures
        show_clause(with_order(query, order_clause(column, direction))) == show_clause(query),
{
    let c = order_clause(column, direction);
    let n = query.len() as int;
    lemma_order_clause_lists_nothing(column, direction);
    if n == 0 {
        reveal_strlit("show ");
        reveal_strlit(" show ");
        lemma_found_from(c, " show "@, 0);
        lemma_found_from(ascii_lowercase(query), " show "@, 0);
        if occurs_at(c, "show "@, 0) {
            assert(c.subrange(0, 5)[0] == 's');
        }
    } else {
        let long = query + seq![' '] + c;
        lemma_order_appended(query, c);
        lemma_sorted_show_start(query, column, direction);
        match show_start(query) {
            Some(i) => lemma_sort_keeps_listed(query, column, direction, i),
            None => {
                assert(long.skip(n + 1) =~= c);
            },
        }
    }
}

/// The columns listed from a place on are the same with an order clause behind them.
proof fn lemma_sort_keeps_listed(
    query: Seq<char>,
    column: Column,
    direction: SortDirection,
    i: int,
)
    requires
        0 < i <= query.len(),
        forall|j: int| !occurs_at(ascii_lowercase(query), " order "@, j),
        !occurs_at(ascii_lowercase(query), " order"@, query.len() - 6),
    ensures
        ({
            let long = query + seq![' '] + order_clause(column, direction);
            let after = query.skip(i);
            let after_long = long.skip(i);
            columns_part(after_long) == columns_part(after)
        }),
{
    reveal_strlit(" order ");
    reveal_strlit(" order");
    let c = order_clause(column, direction);
    let long = query + seq![' '] + c;
    lemma_order_clause_lists_nothing(column, direction);
    let after = query.skip(i);
    assert(long.skip(i) =~= after + seq![' '] + c);
    let lower = ascii_lowercase(query);
    assert(ascii_lowercase(after) =~= lower.skip(i));
    assert forall|j: int| !occurs_at(ascii_lowercase(after), " order "@, j) by {
        if occurs_at(ascii_lowercase(after), " order "@, j) {
            assert(lower.subrange(i + j, i + j + 7) =~= ascii_lowercase(after).subrange(j, j + 7));
            assert(occurs_at(lower, " order "@, i + j));
        }
    }
    assert(!occurs_at(ascii_lowercase(after), " order"@, after.len() - 6)) by {
        if occurs_at(ascii_lowercase(after), " order"@, after.len() - 6) {
            let j = after.len() - 6;
            assert(lower.subrange(i + j, i + j + 6) =~= ascii_lowercase(after).subrange(j, j + 6));
        }
    }
    lemma_order_clause_is_cut(after, column, direction);
}

/// Whether a lower-cased query ends in an order clause that was only begun.
pub open spec fn ends_in_order_by(lower: Seq<char>) -> bool {
    occurs_at(lower, " order by"@, lower.len() - 9)
}

/// An order clause is in lower case and holds no order clause behind a blank.
proof fn lemma_order_clause(column: Column, direction: SortDirection)
    ensures
        ascii_lowercase(order_clause(column, direction)) == order_clause(column, direction),
        lowercase(order_clause(column, direction)) == order_clause(column, direction),
        occurs_at(order_clause(column, direction), "order by "@, 0),
        found(order_clause(column, direction), " order by "@) is None,
{
    reveal_strlit("order by ");
    reveal_strlit(" order by ");
    reveal_strlit(" ");
    reveal_strlit("completed");
    reveal_strlit("title");
    reveal_strlit("tags");
    reveal_strlit("url");
    reveal_strlit("notes");
    reveal_strlit("asc");
    reveal_strlit("desc");
    let c = order_clause(column, direction);
    let f = column.field_name();
    assert(ascii_lowercase(c) =~= c);
    assert(c.subrange(0, 9) =~= "order by "@);
    lemma_found_from(c, " order by "@, 0);
    assert forall|j: int| 0 <= j implies !occurs_at(c, " order by "@, j) by {
        if occurs_at(c, " order by "@, j) {
            assert(c.subrange(j, j + 10)[0] == ' ' && c.subrange(j, j + 10)[1] == 'o');
            assert(c[j] == ' ' && c[j + 1] == 'o');
            assert(c.len() == 9 + f.len() + 1 + direction.word().len());
        }
    }
}

/// A clause behind a query without one is found right behind the query.
proof fn lemma_order_clause_found(query: Seq<char>, column: Column, direction: SortDirection)
    requires
        found(ascii_lowercase(query), " order by "@) is None,
        !ends_in_order_by(ascii_lowercase(query)),
    ensures
        ({
            let extended = query + " "@ + order_clause(column, direction);
            &&& found(ascii_lowercase(extended), " order by "@) == Some(query.len() as int)
            &&& extended.take(query.len() as int) == query
        }),
{
    reveal_strlit("order by ");
    reveal_strlit(" order by ");
    reveal_strlit(" order by");
    reveal_strlit(" ");
    let c = order_clause(column, direction);
    let n = query.len() as int;
    let extended = query + " "@ + c;
    let lower = ascii_lowercase(query);
    let l = ascii_lowercase(extended);
    lemma_order_clause(column, direction);
    assert(l =~= lower + " "@ + c);
    let p = " order by "@;
    assert(c.subrange(0, 9) == "order by "@);
    assert forall|k: int| 0 <= k < 10 implies l.subrange(n, n + 10)[k] == p[k] by {
        if k > 0 {
            assert(c.subrange(0, 9)[k - 1] == "order by "@[k - 1]);
        }
    }
    assert(l.subrange(n, n + 10) =~= p);
    assert forall|j: int| 0 <= j < n implies !occurs_at(l, p, j) by {
        if occurs_at(l, p, j) {
            if j + 10 <= n {
                assert(lower.subrange(j, j + 10) =~= l.subrange(j, j + 10));
                lemma_found_from(lower, p, 0);
                assert(occurs_at(lower, p, j));
            } else {
                let k = n - j;
                assert(l.subrange(j, j + 10)[k] == l[n]);
                assert(p[k] == ' ');
                if k < 9 {
                    assert(l.subrange(j, j + 10)[k + 1] == l[n + 1]);
                    assert(c[0] == c.subrange(0, 9)[0]);
                    assert(p[k + 1] == 'o');
                } else {
                    assert(lower.subrange(n - 9, n) =~= " order by"@) by {
                        assert forall|m: int| 0 <= m < 9 implies lower.subrange(n - 9, n)[m]
                            == " order by"@[m] by {
                            assert(l.subrange(j, j + 10)[m] == p[m]);
                        }
                    }
                }
            }
        }
    }
    lemma_found_is(l, p, n);
    assert(extended.take(n) =~= query);
}

/// Sorting again replaces the order clause: the query is as if it had been sorted only once.
pub proof fn law_order_is_replaced(
    query: Seq<char>,
    column1: Column,
    direction1: SortDirection,
    column2: Column,
    direction2: SortDirection,
)
    requires
        !ends_in_order_by(ascii_lowercase(query)),
    ensures
        with_order(
            with_order(query, order_clause(column1, direction1)),
            order_clause(column2, direction2),
        ) == with_order(query, order_clause(column2, direction2)),
{
    reveal_strlit(" order by ");
    reveal_strlit(" order by");
    reveal_strlit("order by ");
    reveal_strlit(" ");
    let p = " order by "@;
    let c1 = order_clause(column1, direction1);
    let lower = ascii_lowercase(query);
    lemma_order_clause(column1, direction1);
    lemma_found_from(lower, p, 0);
    match found(lower, p) {
        Some(i) => {
            let head = query.take(i);
            assert(ascii_lowercase(head) =~= lower.take(i));
            lemma_found_from(ascii_lowercase(head), p, 0);
            if let Some(j) = found(ascii_lowercase(head), p) {
                assert(lower.subrange(j, j + 10) =~= ascii_lowercase(head).subrange(j, j + 10));
                assert(occurs_at(lower, p, j));
            }
            if ends_in_order_by(ascii_lowercase(head)) {
                let j = i - 9;
                assert(lower.subrange(j, j + 10) =~= p) by {
                    assert forall|k: int| 0 <= k < 10 implies lower.subrange(j, j + 10)[k] == p[k] by {
                        if k < 9 {
                            assert(ascii_lowercase(head).subrange(j, i)[k] == " order by"@[k]);
                        } else {
                            assert(lower.subrange(i, i + 10)[0] == p[0]);
                        }
                    }
                }
                assert(occurs_at(lower, p, j));
            }
            lemma_order_clause_found(head, column1, direction1);
        },
        None => {
            if query.len() > 0 && !occurs_at(lower, "order by "@, 0) {
                lemma_order_clause_found(query, column1, direction1);
            }
        },
    }
}

} // verus!
