use assistant_cli::edit::{make_form, parse_tags, FormData, FormField, FormValue};
use assistant_cli::items::{sort_items, ListInfo, ListItem};
use assistant_cli::load::{keep_lists, parse_terms};

fn item(id: &str, completed: Option<bool>) -> ListItem {
    ListItem {
        id: id.to_string(),
        title: id.to_string(),
        tags: vec![],
        url: None,
        notes: None,
        completed,
    }
}

fn list(id: &str, name: &str) -> ListInfo {
    ListInfo { id: id.to_string(), name: name.to_string(), tags: vec![], description: None }
}

fn ids(items: &[ListItem]) -> Vec<&str> {
    items.iter().map(|i| i.id.as_str()).collect()
}

#[test]
fn completed_items_go_to_the_bottom() {
    let mut items = vec![
        item("a", Some(true)),
        item("b", None),
        item("c", Some(true)),
        item("d", Some(false)),
        item("e", None),
    ];
    sort_items(&mut items);
    assert_eq!(ids(&items), vec!["b", "d", "e", "a", "c"]);
    sort_items(&mut items);
    assert_eq!(ids(&items), vec!["b", "d", "e", "a", "c"]);
    let mut none: Vec<ListItem> = vec![];
    sort_items(&mut none);
    assert_eq!(none.len(), 0);
}

#[test]
fn filter_words_are_read() {
    assert_eq!(parse_terms(" Work, ,home,"), vec!["work".to_string(), "home".to_string()]);
    assert_eq!(parse_terms(""), Vec::<String>::new());
    assert_eq!(parse_terms("ÄPFEL"), vec!["äpfel".to_string()]);
}

#[test]
fn lists_are_kept_by_name() {
    let all = || vec![list("work-1", "Home"), list("x", "Groceries"), list("2", "My Work")];
    let kept = keep_lists(all(), &parse_terms("work"));
    let names: Vec<&str> = kept.iter().map(|l| l.name.as_str()).collect();
    assert_eq!(names, vec!["My Work"]);
    assert_eq!(keep_lists(all(), &parse_terms(" , ")).len(), 3);
    assert_eq!(keep_lists(all(), &parse_terms("nothing")).len(), 0);
}

#[test]
fn tags_are_read_from_a_text() {
    assert_eq!(parse_tags("a, b ,,  c d"), vec!["a".to_string(), "b".to_string(), "c d".to_string()]);
    assert_eq!(parse_tags("  "), Vec::<String>::new());
}

#[test]
fn a_form_shows_the_fields_of_an_item() {
    let mut i = item("i1", Some(true));
    i.tags = vec!["x".to_string(), "y".to_string()];
    let form = make_form(&i);
    assert_eq!(form.len(), 4);
    assert!(matches!(&form[0], FormField::Text { label, value } if label == "Title" && value == "i1"));
    assert!(matches!(&form[1], FormField::Text { label, value } if label == "URL" && value == ""));
    assert!(matches!(&form[2], FormField::Text { label, value } if label == "Tags" && value == "x, y"));
    assert!(matches!(&form[3], FormField::Checkbox { label, checked: true } if label == "Completed"));
}

#[test]
fn form_values_are_found_by_label() {
    let data = FormData {
        values: vec![
            ("Title".to_string(), FormValue::Text("one".to_string())),
            ("Title".to_string(), FormValue::Text("two".to_string())),
            ("Completed".to_string(), FormValue::Bool(true)),
            ("Count".to_string(), FormValue::Number(3)),
        ],
    };
    assert_eq!(data.text("Title"), Some("one"));
    assert_eq!(data.text("Completed"), None);
    assert_eq!(data.flag("Completed"), Some(true));
    assert_eq!(data.flag("Title"), None);
    assert_eq!(data.text("Nothing"), None);
    assert!(data.get("Count").is_some());
}

#[test]
fn plain_tags_read_back() {
    let tags = vec!["red".to_string(), "two words".to_string(), "ü".to_string()];
    let mut i = item("i", None);
    i.tags = tags.clone();
    let form = make_form(&i);
    match &form[2] {
        FormField::Text { value, .. } => assert_eq!(parse_tags(value), tags),
        _ => panic!("no text"),
    }
}
