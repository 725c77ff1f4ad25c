//! The operations of the lists server: what is posted, and what a reply amounts to.
use vstd::prelude::*;
use vstd::string::*;
use crate::json::{json_text, new_object, no_fields, put, write_object, Json, JsonModel};
use crate::text::{before_byte, boundary, bytes, concat2, concat3, split_at_byte, texts};

verus! {

/// A request to post: where, and with which body.
#[derive(Debug)]
pub struct ApiRequest {
    pub url: String,
    pub body: String,
}

/// What a request holds.
pub struct RequestModel {
    pub url: Seq<char>,
    pub body: Seq<char>,
}

impl View for ApiRequest {
    type V = RequestModel;

    open spec fn view(&self) -> RequestModel {
        RequestModel { url: self.url@, body: self.body@ }
    }
}

/// The request for an operation.
pub open spec fn operation(base_url: Seq<char>, endpoint: Seq<char>, body: Seq<char>) -> RequestModel {
    RequestModel { url: base_url + "/api/plugins/lists/operations/"@ + endpoint, body }
}

/// The request for an operation.
pub fn api_post(base_url: &str, endpoint: &str, body: String) -> (r: ApiRequest)
    ensures
        r@ == operation(base_url@, endpoint@, body@),
{
    ApiRequest { url: concat3(base_url, "/api/plugins/lists/operations/", endpoint), body }
}

impl ApiRequest {
    /// The arguments with which `curl` posts the request.
    pub fn curl_args(&self) -> (r: Vec<String>)
        ensures
            texts(r@) == seq![
                "-s"@,
                "-X"@,
                "POST"@,
                "-H"@,
                "Content-Type: application/json"@,
                "-d"@,
                self@.body,
                self@.url,
            ],
    {
        let mut args: Vec<String> = Vec::new();
        args.push("-s".to_owned());
        args.push("-X".to_owned());
        args.push("POST".to_owned());
        args.push("-H".to_owned());
        args.push("Content-Type: application/json".to_owned());
        args.push("-d".to_owned());
        args.push(self.body.clone());
        args.push(self.url.clone());
        args
    }
}

// ---------------------------------------------------------------------------
// Replies
// ---------------------------------------------------------------------------
/// The envelope of every reply.
#[derive(Debug)]
pub struct ApiResponse<T> {
    pub ok: bool,
    pub result: Option<T>,
    pub error: Option<String>,
}

/// What a result holds, and what is said of a failure.
pub open spec fn said_result<T>(r: Result<T, String>) -> Result<T, Seq<char>> {
    match r {
        Ok(value) => Ok(value),
        Err(e) => Err(e@),
    }
}

impl<T> ApiResponse<T> {
    /// What a reply amounts to.
    pub open spec fn amounts_to(self) -> Result<T, Seq<char>> {
        if !self.ok {
            Err(
                match self.error {
                    Some(text) => text@,
                    None => "Unknown error"@,
                },
            )
        } else {
            match self.result {
                Some(value) => Ok(value),
                None => Err("Empty result"@),
            }
        }
    }

    /// The result, or what went wrong.
    pub fn outcome(self) -> (r: Result<T, String>)
        ensures
            said_result(r) == self.amounts_to(),
            self.ok && self.result is Some ==> r == Ok::<T, String>(self.result->0),
            self.ok && self.result is None ==> (r matches Err(e) && e@ == "Empty result"@),
            !self.ok ==> (r matches Err(e) && e@ == (match self.error {
                Some(text) => text@,
                None => "Unknown error"@,
            })),
    {
        if self.ok {
            match self.result {
                Some(value) => Ok(value),
                None => Err("Empty result".to_owned()),
            }
        } else {
            match self.error {
                Some(text) => Err(text),
                None => Err("Unknown error".to_owned()),
            }
        }
    }
}

/// How many bytes of a reply an error message quotes.
pub open spec fn quoted_bytes(body: Seq<char>) -> int {
    if bytes(body).len() < 200 {
        bytes(body).len() as int
    } else {
        200
    }
}

/// The part of a reply that an error message quotes.
pub open spec fn quoted(body: Seq<char>) -> Seq<char> {
    before_byte(body, quoted_bytes(body))
}

/// Whether the quoted part of a reply ends between two characters.
pub fn can_quote(body: &str) -> (r: bool)
    ensures
        r == boundary(body@, quoted_bytes(body@)),
{
    let total: usize = body.as_bytes().len();
    let end: usize = if total < 200 {
        total
    } else {
        200
    };
    body.is_char_boundary(end)
}

/// What is said of a reply that is no JSON, or not the expected one.
pub fn parse_error(error: &str, body: &str) -> (r: String)
    requires
        boundary(body@, quoted_bytes(body@)),
    ensures
        r@ == "JSON parse error: "@ + error@ + " (body: "@ + quoted(body@) + ")"@,
{
    let total: usize = body.as_bytes().len();
    let end: usize = if total < 200 {
        total
    } else {
        200
    };
    let (head, _) = split_at_byte(body, end);
    let mut out = concat3("JSON parse error: ", error, " (body: ");
    out.append(head);
    out.append(")");
    out
}

/// What is said where `curl` could not be run.
pub fn curl_error(error: &str) -> (r: String)
    ensures
        r@ == "curl failed: "@ + error@,
{
    concat2("curl failed: ", error)
}

// ---------------------------------------------------------------------------
// Operations
// ---------------------------------------------------------------------------
/// The body of a request for the items of a list.
pub open spec fn items_body(list_id: Seq<char>, limit: nat) -> Seq<char> {
    json_text(
        no_fields().insert("listId"@, JsonModel::Text(list_id)).insert(
            "limit"@,
            JsonModel::Number(limit),
        ),
    )
}

/// The body of a search, in one list or in all.
pub open spec fn search_body(query: Seq<char>, list_id: Option<Seq<char>>, limit: nat) -> Seq<char> {
    let fields = no_fields().insert("query"@, JsonModel::Text(query)).insert(
        "limit"@,
        JsonModel::Number(limit),
    );
    json_text(
        match list_id {
            Some(id) => fields.insert("listId"@, JsonModel::Text(id)),
            None => fields,
        },
    )
}

/// The body of a query on a list.
pub open spec fn aql_body(list_id: Seq<char>, query: Seq<char>, limit: nat) -> Seq<char> {
    json_text(
        no_fields().insert("listId"@, JsonModel::Text(list_id)).insert(
            "query"@,
            JsonModel::Text(query),
        ).insert("limit"@, JsonModel::Number(limit)),
    )
}

/// The fields that say which item is meant.
pub open spec fn item_fields(list_id: Seq<char>, item_id: Seq<char>) -> Map<Seq<char>, JsonModel> {
    no_fields().insert("listId"@, JsonModel::Text(list_id)).insert("id"@, JsonModel::Text(item_id))
}

/// The body of a request for a new item.
pub open spec fn add_body(list_id: Seq<char>, title: Seq<char>) -> Seq<char> {
    json_text(
        no_fields().insert("listId"@, JsonModel::Text(list_id)).insert(
            "title"@,
            JsonModel::Text(title),
        ),
    )
}

/// The value for a text that counts as missing where it is empty.
pub open spec fn text_or_null(t: Seq<char>) -> JsonModel {
    if t.len() == 0 {
        JsonModel::Null
    } else {
        JsonModel::Text(t)
    }
}

/// The fields of a request that changes an item: those that are given, and no others.
pub open spec fn update_fields(
    list_id: Seq<char>,
    item_id: Seq<char>,
    title: Option<Seq<char>>,
    url: Option<Seq<char>>,
    tags: Option<Seq<Seq<char>>>,
    notes: Option<Seq<char>>,
    completed: Option<bool>,
) -> Map<Seq<char>, JsonModel> {
    let f0 = item_fields(list_id, item_id);
    let f1 = match title {
        Some(t) => f0.insert("title"@, JsonModel::Text(t)),
        None => f0,
    };
    let f2 = match url {
        Some(u) => f1.insert("url"@, text_or_null(u)),
        None => f1,
    };
    let f3 = match tags {
        Some(t) => f2.insert("tags"@, JsonModel::Texts(t)),
        None => f2,
    };
    let f4 = match notes {
        Some(n) => f3.insert("notes"@, text_or_null(n)),
        None => f3,
    };
    match completed {
        Some(c) => f4.insert("completed"@, JsonModel::Bool(c)),
        None => f4,
    }
}

/// What an optional text slice holds.
pub open spec fn opt_str(t: Option<&str>) -> Option<Seq<char>> {
    match t {
        Some(s) => Some(s@),
        None => None,
    }
}

/// What an optional vector of texts holds.
pub open spec fn opt_texts(t: Option<Vec<String>>) -> Option<Seq<Seq<char>>> {
    match t {
        Some(v) => Some(texts(v@)),
        None => None,
    }
}

/// Asks for all lists.
pub fn fetch_lists(base_url: &str) -> (r: ApiRequest)
    ensures
        r@ == operation(base_url@, "list"@, "{}"@),
{
    api_post(base_url, "list", "{}".to_owned())
}

/// Asks for the items of a list.
pub fn fetch_items(base_url: &str, list_id: &str, limit: usize) -> (r: ApiRequest)
    ensures
        r@ == operation(base_url@, "items-list"@, items_body(list_id@, limit as nat)),
{
    let mut body = new_object();
    put(&mut body, "listId", Json::Text(list_id.to_owned()));
    put(&mut body, "limit", Json::Number(limit));
    api_post(base_url, "items-list", write_object(body))
}

/// Asks for the items that match a search, in one list or in all.
pub fn search_items(base_url: &str, query: &str, list_id: Option<&str>, limit: usize) -> (r:
    ApiRequest)
    ensures
        r@ == operation(
            base_url@,
            "items-search"@,
            search_body(query@, opt_str(list_id), limit as nat),
        ),
{
    let mut body = new_object();
    put(&mut body, "query", Json::Text(query.to_owned()));
    put(&mut body, "limit", Json::Number(limit));
    if let Some(id) = list_id {
        put(&mut body, "listId", Json::Text(id.to_owned()));
    }
    api_post(base_url, "items-search", write_object(body))
}

/// Asks for the items of a list that a query selects.
pub fn aql_query(base_url: &str, list_id: &str, query: &str, limit: usize) -> (r: ApiRequest)
    ensures
        r@ == operation(base_url@, "items-aql"@, aql_body(list_id@, query@, limit as nat)),
{
    let mut body = new_object();
    put(&mut body, "listId", Json::Text(list_id.to_owned()));
    put(&mut body, "query", Json::Text(query.to_owned()));
    put(&mut body, "limit", Json::Number(limit));
    api_post(base_url, "items-aql", write_object(body))
}

/// Asks for an item to be removed.
pub fn delete_item(base_url: &str, list_id: &str, item_id: &str) -> (r: ApiRequest)
    ensures
        r@ == operation(base_url@, "item-remove"@, json_text(item_fields(list_id@, item_id@))),
{
    let mut body = new_object();
    put(&mut body, "listId", Json::Text(list_id.to_owned()));
    put(&mut body, "id", Json::Text(item_id.to_owned()));
    api_post(base_url, "item-remove", write_object(body))
}

/// Asks for a new item.
pub fn add_item(base_url: &str, list_id: &str, title: &str) -> (r: ApiRequest)
    ensures
        r@ == operation(base_url@, "item-add"@, add_body(list_id@, title@)),
{
    let mut body = new_object();
    put(&mut body, "listId", Json::Text(list_id.to_owned()));
    put(&mut body, "title", Json::Text(title.to_owned()));
    api_post(base_url, "item-add", write_object(body))
}

/// Asks for an item to be marked completed, or open again.
pub fn update_item_completed(base_url: &str, list_id: &str, item_id: &str, completed: bool) -> (r:
    ApiRequest)
    ensures
        r@ == operation(
            base_url@,
            "item-update"@,
            json_text(
                item_fields(list_id@, item_id@).insert("completed"@, JsonModel::Bool(completed)),
            ),
        ),
{
    let mut body = new_object();
    put(&mut body, "listId", Json::Text(list_id.to_owned()));
    put(&mut body, "id", Json::Text(item_id.to_owned()));
    put(&mut body, "completed", Json::Bool(completed));
    api_post(base_url, "item-update", write_object(body))
}

/// Asks for an item to be moved.
pub fn update_item_position(base_url: &str, list_id: &str, item_id: &str, position: usize) -> (r:
    ApiRequest)
    ensures
        r@ == operation(
            base_url@,
            "item-update"@,
            json_text(
                item_fields(list_id@, item_id@).insert(
                    "position"@,
                    JsonModel::Number(position as nat),
                ),
            ),
        ),
{
    let mut body = new_object();
    put(&mut body, "listId", Json::Text(list_id.to_owned()));
    put(&mut body, "id", Json::Text(item_id.to_owned()));
    put(&mut body, "position", Json::Number(position));
    api_post(base_url, "item-update", write_object(body))
}

/// The value for a text that counts as missing where it is empty.
fn json_text_or_null(t: &str) -> (r: Json)
    ensures
        r@ == text_or_null(t@),
{
    if t.is_empty() {
        Json::Null
    } else {
        Json::Text(t.to_owned())
    }
}

/// Asks for the given fields of an item to be changed.
pub fn update_item_fields(
    base_url: &str,
    list_id: &str,
    item_id: &str,
    title: Option<&str>,
    url: Option<&str>,
    tags: Option<Vec<String>>,
    notes: Option<&str>,
    completed: Option<bool>,
) -> (r: ApiRequest)
    ensures
        r@ == operation(
            base_url@,
            "item-update"@,
            json_text(
                update_fields(
                    list_id@,
                    item_id@,
                    opt_str(title),
                    opt_str(url),
                    opt_texts(tags),
                    opt_str(notes),
                    completed,
                ),
            ),
        ),
{
    let mut body = new_object();
    put(&mut body, "listId", Json::Text(list_id.to_owned()));
    put(&mut body, "id", Json::Text(item_id.to_owned()));
    if let Some(t) = title {
        put(&mut body, "title", Json::Text(t.to_owned()));
    }
    if let Some(u) = url {
        put(&mut body, "url", json_text_or_null(u));
    }
    if let Some(t) = tags {
        put(&mut body, "tags", Json::Texts(t));
    }
    if let Some(n) = notes {
        put(&mut body, "notes", json_text_or_null(n));
    }
    if let Some(c) = completed {
        put(&mut body, "completed", Json::Bool(c));
    }
    api_post(base_url, "item-update", write_object(body))
}

} // verus!
