use assistant_cli::api::{
    add_item, api_post, aql_query, can_quote, curl_error, delete_item, fetch_items, fetch_lists,
    parse_error, search_items, update_item_completed, update_item_fields, update_item_position,
    ApiResponse,
};
use assistant_cli::clipboard::{can_copy, copy_sequence};

const BASE: &str = "http://host:3000";

#[test]
fn requests_name_the_operation() {
    let r = api_post(BASE, "list", "{}".to_string());
    assert_eq!(r.url, "http://host:3000/api/plugins/lists/operations/list");
    assert_eq!(r.body, "{}");
    assert_eq!(
        r.curl_args(),
        vec![
            "-s",
            "-X",
            "POST",
            "-H",
            "Content-Type: application/json",
            "-d",
            "{}",
            "http://host:3000/api/plugins/lists/operations/list"
        ]
    );
    assert_eq!(fetch_lists(BASE).body, "{}");
    assert_eq!(fetch_lists(BASE).url, "http://host:3000/api/plugins/lists/operations/list");
}

#[test]
fn bodies_of_reads() {
    let r = fetch_items(BASE, "l1", 100);
    assert_eq!(r.url, "http://host:3000/api/plugins/lists/operations/items-list");
    assert_eq!(r.body, r#"{"limit":100,"listId":"l1"}"#);
    let r = search_items(BASE, "say \"hi\"", None, 50);
    assert_eq!(r.url, "http://host:3000/api/plugins/lists/operations/items-search");
    assert_eq!(r.body, r#"{"limit":50,"query":"say \"hi\""}"#);
    let r = search_items(BASE, "é\n", Some("l1"), 50);
    assert_eq!(r.body, "{\"limit\":50,\"listId\":\"l1\",\"query\":\"é\\n\"}");
    let r = aql_query(BASE, "l1", "show title", 100);
    assert_eq!(r.url, "http://host:3000/api/plugins/lists/operations/items-aql");
    assert_eq!(r.body, r#"{"limit":100,"listId":"l1","query":"show title"}"#);
}

#[test]
fn bodies_of_changes() {
    let r = delete_item(BASE, "l1", "i1");
    assert_eq!(r.url, "http://host:3000/api/plugins/lists/operations/item-remove");
    assert_eq!(r.body, r#"{"id":"i1","listId":"l1"}"#);
    let r = add_item(BASE, "l1", "Milk");
    assert_eq!(r.url, "http://host:3000/api/plugins/lists/operations/item-add");
    assert_eq!(r.body, r#"{"listId":"l1","title":"Milk"}"#);
    let r = update_item_completed(BASE, "l1", "i1", true);
    assert_eq!(r.url, "http://host:3000/api/plugins/lists/operations/item-update");
    assert_eq!(r.body, r#"{"completed":true,"id":"i1","listId":"l1"}"#);
    let r = update_item_position(BASE, "l1", "i1", 7);
    assert_eq!(r.url, "http://host:3000/api/plugins/lists/operations/item-update");
    assert_eq!(r.body, r#"{"id":"i1","listId":"l1","position":7}"#);
}

#[test]
fn only_given_fields_are_changed() {
    let r = update_item_fields(BASE, "l", "i", None, None, None, None, None);
    assert_eq!(r.url, "http://host:3000/api/plugins/lists/operations/item-update");
    assert_eq!(r.body, r#"{"id":"i","listId":"l"}"#);
    let tags = Some(vec!["a".to_string(), "b".to_string()]);
    let r = update_item_fields(BASE, "l", "i", Some("T"), Some("u"), tags, Some("n"), Some(false));
    assert_eq!(
        r.body,
        r#"{"completed":false,"id":"i","listId":"l","notes":"n","tags":["a","b"],"title":"T","url":"u"}"#
    );
    let r = update_item_fields(BASE, "l", "i", Some(""), Some(""), Some(vec![]), Some(""), None);
    assert_eq!(r.body, r#"{"id":"i","listId":"l","notes":null,"tags":[],"title":"","url":null}"#);
}

#[test]
fn replies_amount_to_a_result_or_an_error() {
    let r = ApiResponse { ok: true, result: Some(5), error: None };
    assert_eq!(r.outcome(), Ok(5));
    let r: ApiResponse<i32> = ApiResponse { ok: true, result: None, error: Some("x".to_string()) };
    assert_eq!(r.outcome(), Err("Empty result".to_string()));
    let r = ApiResponse { ok: false, result: Some(5), error: Some("no such list".to_string()) };
    assert_eq!(r.outcome(), Err("no such list".to_string()));
    let r: ApiResponse<i32> = ApiResponse { ok: false, result: None, error: None };
    assert_eq!(r.outcome(), Err("Unknown error".to_string()));
}

#[test]
fn errors_quote_the_reply() {
    assert_eq!(curl_error("not found"), "curl failed: not found");
    assert_eq!(parse_error("bad", "<html>"), "JSON parse error: bad (body: <html>)");
    let long = "x".repeat(300);
    assert_eq!(
        parse_error("bad", &long),
        format!("JSON parse error: bad (body: {})", "x".repeat(200))
    );
    assert!(can_quote(&long));
    assert!(can_quote(""));
    assert!(!can_quote(&format!("{}é", "x".repeat(199))));
    assert!(can_quote(&format!("{}é", "x".repeat(198))));
}

#[test]
fn copies_are_encoded() {
    assert!(can_copy("Milk"));
    assert_eq!(copy_sequence("Milk"), "\u{1b}]52;c;TWlsaw==\u{7}");
    assert_eq!(copy_sequence(""), "\u{1b}]52;c;\u{7}");
    assert_eq!(copy_sequence("é"), "\u{1b}]52;c;w6k=\u{7}");
    assert_eq!(copy_sequence("abc"), "\u{1b}]52;c;YWJj\u{7}");
}
