use assistant_cli::column::{Column, SortDirection};
use assistant_cli::query::{
    cut_columns, find_show, list_columns, make_order_clause, parse_show_clause, set_order,
};

fn sorted(query: &str, column: Column, direction: SortDirection) -> String {
    let clause = make_order_clause(column, direction);
    set_order(query, &clause)
}

#[test]
fn show_clauses_list_columns() {
    assert_eq!(
        parse_show_clause("tag = x SHOW Title, notes ,nonsense"),
        Some(vec![Column::Title, Column::Notes])
    );
    assert_eq!(parse_show_clause("show url"), Some(vec![Column::Url]));
    assert_eq!(
        parse_show_clause("show title, tags ORDER BY title desc"),
        Some(vec![Column::Title, Column::Tags])
    );
    assert_eq!(parse_show_clause("show nonsense"), None);
    assert_eq!(parse_show_clause("showtitle"), None);
    assert_eq!(parse_show_clause("title"), None);
    assert_eq!(parse_show_clause(""), None);
    assert_eq!(parse_show_clause("showing show title"), Some(vec![Column::Title]));
    assert_eq!(parse_show_clause("show title, title"), Some(vec![Column::Title, Column::Title]));
}

#[test]
fn show_clauses_are_found_in_any_case() {
    assert_eq!(find_show("show a"), Some(5));
    assert_eq!(find_show("SHOW a"), Some(5));
    assert_eq!(find_show("x show a"), Some(7));
    assert_eq!(find_show("é Show a"), Some(7));
    assert_eq!(find_show("x"), None);
    assert_eq!(cut_columns("a, b Order by c"), "a, b");
    assert_eq!(cut_columns("a, b"), "a, b");
    assert_eq!(list_columns("tags,,status"), vec![Column::Tags, Column::Status]);
}

#[test]
fn queries_may_hold_any_letters() {
    // In lower case this letter takes three bytes instead of two.
    assert_eq!(parse_show_clause("İ show title"), Some(vec![Column::Title]));
    assert_eq!(parse_show_clause("İ show é"), None);
    assert_eq!(parse_show_clause("İ show é, tags order by İ"), Some(vec![Column::Tags]));
    assert_eq!(
        parse_show_clause("tag = \u{130}\u{130} SHOW url, notes ORDER BY title desc"),
        Some(vec![Column::Url, Column::Notes])
    );
    assert_eq!(
        sorted("İ order by url asc", Column::Title, SortDirection::Desc),
        "İ order by title desc"
    );
    assert_eq!(sorted("É", Column::Title, SortDirection::Desc), "É order by title desc");
}

#[test]
fn order_clauses_are_set() {
    assert_eq!(make_order_clause(Column::Status, SortDirection::Asc), "order by completed asc");
    assert_eq!(sorted("", Column::Title, SortDirection::Desc), "order by title desc");
    assert_eq!(sorted("tag = x", Column::Title, SortDirection::Desc), "tag = x order by title desc");
    assert_eq!(
        sorted("tag = x Order By url asc", Column::Title, SortDirection::Asc),
        "tag = x order by title asc"
    );
    assert_eq!(sorted("ORDER BY url asc", Column::Tags, SortDirection::Asc), "order by tags asc");
}

#[test]
fn order_clauses_are_replaced() {
    let once = sorted("a", Column::Title, SortDirection::Desc);
    let twice = sorted(&once, Column::Notes, SortDirection::Asc);
    assert_eq!(twice, sorted("a", Column::Notes, SortDirection::Asc));
    // A clause that was only begun is kept, and found the next time.
    let begun = sorted("a order by", Column::Title, SortDirection::Desc);
    assert_eq!(begun, "a order by order by title desc");
    assert_eq!(sorted(&begun, Column::Title, SortDirection::Desc), "a order by title desc");
}

#[test]
fn sorting_keeps_the_listed_columns() {
    let plain = "tag = x show title, notes";
    let columns = parse_show_clause(plain);
    assert_eq!(columns, Some(vec![Column::Title, Column::Notes]));
    let once = sorted(plain, Column::Notes, SortDirection::Desc);
    assert_eq!(once, "tag = x show title, notes order by notes desc");
    assert_eq!(parse_show_clause(&once), columns);
    assert_eq!(parse_show_clause(&sorted(&once, Column::Title, SortDirection::Asc)), columns);
    let foreign = sorted("İ show title, é", Column::Notes, SortDirection::Desc);
    assert_eq!(foreign, "İ show title, é order by notes desc");
    assert_eq!(parse_show_clause(&foreign), Some(vec![Column::Title]));
    for query in ["", "show", "x show", "title"] {
        assert_eq!(parse_show_clause(&sorted(query, Column::Tags, SortDirection::Asc)), None);
    }
    // A query that breaks off in the keyword gains a column.
    assert_eq!(parse_show_clause("show title, tags order"), Some(vec![Column::Title]));
    let sorted = sorted("show title, tags order", Column::Url, SortDirection::Asc);
    assert_eq!(parse_show_clause(&sorted), Some(vec![Column::Title, Column::Tags]));
}
