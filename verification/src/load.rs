//! Loading lists and items: what is asked for, and what the replies change.
use vstd::prelude::*;
use vstd::string::*;
use crate::action::{items_result, lists_result, Action, ActionModel, AfterLists, AfterListsModel, Pending, PendingModel};
use crate::api::{aql_body, aql_query, fetch_items, fetch_lists, items_body, operation, search_body, search_items};
use crate::items::{list_models, opt_text, sort_items, sorted_items, ItemModel, ListInfo, ListItem, ListModel};
use crate::query::{parse_show_clause, show_clause};
use crate::state::{Browser, Focus, ListsTableBrowser, Panel, TableState};
use crate::text::{concat2, concat3, contains, decimal, lowercase, number_text, occurs_in, pieces, split, texts, to_lowercase, trim, trimmed};

verus! {

// ---------------------------------------------------------------------------
// The lists to keep
// ---------------------------------------------------------------------------
/// The word that a piece of the configured filter stands for.
pub open spec fn term_in(piece: Seq<char>) -> Option<Seq<char>> {
    let word = lowercase(trimmed(piece));
    if word.len() > 0 {
        Some(word)
    } else {
        None
    }
}

/// The words of the configured filter, separated by commas.
pub open spec fn terms_in(raw: Seq<char>) -> Seq<Seq<char>> {
    pieces(raw, ',').filter_map(|piece: Seq<char>| term_in(piece))
}

/// Reads the words of the configured filter.
pub fn parse_terms(raw: &str) -> (r: Vec<String>)
    ensures
        texts(r@) == terms_in(raw@),
{
    let list = split(raw, ',');
    let mut out: Vec<String> = Vec::new();
    let ghost term = |piece: Seq<char>| term_in(piece);
    let mut i: usize = 0;
    proof {
        assert(texts(list@).take(0) =~= Seq::<Seq<char>>::empty());
        assert(texts(out@) =~= Seq::<Seq<char>>::empty());
    }
    while i < list.len()
        invariant
            i <= list@.len(),
            texts(list@) == pieces(raw@, ','),
            term == (|piece: Seq<char>| term_in(piece)),
            texts(out@) == texts(list@).take(i as int).filter_map(term),
        decreases list@.len() - i,
    {
        let ghost before = out@;
        proof {
            assert(texts(list@).take(i + 1).drop_last() =~= texts(list@).take(i as int));
        }
        let word = trim(list[i].as_str());
        let lower = to_lowercase(word.as_str());
        if !lower.as_str().is_empty() {
            let ghost w = lower@;
            out.push(lower);
            proof {
                assert(texts(out@) =~= texts(before) + seq![w]);
            }
        }
        i += 1;
    }
    proof {
        assert(texts(list@).take(list@.len() as int) =~= texts(list@));
    }
    out
}

/// Whether a list's name contains one of the words, whatever the case.
pub open spec fn wanted(list: ListModel, terms: Seq<Seq<char>>) -> bool {
    exists|i: int| 0 <= i < terms.len() && occurs_in(lowercase(list.name), #[trigger] terms[i])
}

/// The lists that are kept: all of them where no words are given.
pub open spec fn kept_lists(lists: Seq<ListModel>, terms: Seq<Seq<char>>) -> Seq<ListModel> {
    if terms.len() == 0 {
        lists
    } else {
        lists.filter(|l: ListModel| wanted(l, terms))
    }
}

/// Whether a list's name contains one of the words.
fn is_wanted(list: &ListInfo, terms: &Vec<String>) -> (r: bool)
    ensures
        r == wanted(list@, texts(terms@)),
{
    let name_lower = to_lowercase(list.name.as_str());
    let mut i: usize = 0;
    while i < terms.len()
        invariant
            i <= terms@.len(),
            name_lower@ == lowercase(list@.name),
            forall|j: int|
                0 <= j < i ==> !occurs_in(lowercase(list@.name), #[trigger] texts(terms@)[j]),
        decreases terms@.len() - i,
    {
        let term = terms[i].as_str();
        proof {
            assert(texts(terms@)[i as int] == term@);
        }
        if contains(name_lower.as_str(), term) {
            return true;
        }
        i += 1;
    }
    false
}

/// Keeps the lists that the configured filter names.
pub fn keep_lists(lists: Vec<ListInfo>, terms: &Vec<String>) -> (r: Vec<ListInfo>)
    ensures
        list_models(r@) == kept_lists(list_models(lists@), texts(terms@)),
{
    if terms.is_empty() {
        return lists;
    }
    let ghost all = lists@;
    let ghost keep = |l: ListModel| wanted(l, texts(terms@));
    let mut out: Vec<ListInfo> = Vec::new();
    proof {
        reveal(Seq::filter);
        assert(list_models(out@) =~= list_models(all.take(0)).filter(keep));
    }
    for list in it: lists
        invariant
            it.seq() == all,
            keep == (|l: ListModel| wanted(l, texts(terms@))),
            list_models(out@) == list_models(all.take(it.index())).filter(keep),
    {
        let ghost k = it.index();
        let ghost before = out@;
        let ghost model = list@;
        proof {
            reveal(Seq::filter);
            assert(list_models(all.take(k + 1)).drop_last() =~= list_models(all.take(k)));
            assert(list_models(all.take(k + 1)).last() == model);
        }
        if is_wanted(&list, terms) {
            out.push(list);
            proof {
                assert(list_models(out@) =~= list_models(before).push(model));
            }
        }
    }
    proof {
        assert(all.take(all.len() as int) =~= all);
    }
    out
}

// ---------------------------------------------------------------------------
// The transitions
// ---------------------------------------------------------------------------
impl Browser {
    /// The request for all lists.
    pub open spec fn refresh_lists(self, then: AfterListsModel) -> ActionModel {
        ActionModel::Call {
            request: operation(self.base_url, "list"@, "{}"@),
            then: PendingModel::Lists(then),
        }
    }

    /// The state once the lists have come, or have not.
    pub open spec fn lists_loaded(self, reply: Result<Seq<ListModel>, Seq<char>>) -> Browser {
        match reply {
            Ok(lists) => {
                let kept = kept_lists(lists, terms_in(self.lists_filter));
                Browser { lists: kept, ..self }.with_success(
                    "Loaded "@ + decimal(kept.len()) + " lists"@,
                )
            },
            Err(e) => self.with_error("Failed to load lists: "@ + e),
        }
    }

    /// The state with the message that goes with loaded items, if any.
    pub open spec fn noted(self, note: Option<Seq<char>>) -> Browser {
        match note {
            Some(text) => self.with_status(text),
            None => self,
        }
    }

    /// Asks for the items of the selected list; without one, only the message appears.
    pub open spec fn load_items(self, note: Option<Seq<char>>) -> (Browser, ActionModel) {
        match self.selected_list() {
            Some(list) => (
                self,
                ActionModel::Call {
                    request: operation(self.base_url, "items-list"@, items_body(list.id, 100)),
                    then: PendingModel::Items(note),
                },
            ),
            None => (self.noted(note), ActionModel::Idle),
        }
    }

    /// The state once the items of the list have come, or have not.
    pub open spec fn items_loaded(
        self,
        reply: Result<Seq<ItemModel>, Seq<char>>,
        note: Option<Seq<char>>,
    ) -> Browser {
        (match reply {
            Ok(items) => Browser {
                items: sorted_items(items),
                table_state: TableState::first_of(sorted_items(items).len()),
                view: Panel::Items,
                focus: Focus::Table,
                ..self
            }.with_success("Loaded "@ + decimal(sorted_items(items).len()) + " items"@),
            Err(e) => self.with_error("Failed to load items: "@ + e),
        }).noted(note)
    }

    /// Asks for the items that match the search, in the selected list where there is one. An empty
    /// search asks for nothing.
    pub open spec fn do_search(self) -> ActionModel {
        if self.search_query.len() == 0 {
            ActionModel::Idle
        } else {
            let scope = match self.selected_list() {
                Some(list) => Some(list.id),
                None => None,
            };
            ActionModel::Call {
                request: operation(
                    self.base_url,
                    "items-search"@,
                    search_body(self.search_query, scope, 50),
                ),
                then: PendingModel::Search { scoped: scope is Some },
            }
        }
    }

    /// The state once the results of a search have come, or have not.
    pub open spec fn search_done(
        self,
        reply: Result<Seq<ItemModel>, Seq<char>>,
        scoped: bool,
    ) -> Browser {
        match reply {
            Ok(items) => Browser {
                search_results: sorted_items(items),
                search_table_state: TableState::first_of(sorted_items(items).len()),
                view: Panel::Search,
                focus: Focus::Table,
                ..self
            }.with_success(
                "Found "@ + decimal(sorted_items(items).len()) + " results ("@ + (if scoped {
                    "in list"@
                } else {
                    "all lists"@
                }) + ")"@,
            ),
            Err(e) => self.with_error("Search failed: "@ + e),
        }
    }

    /// Asks for the items that the query selects, and shows the columns that it lists. An empty
    /// query asks for nothing; a query needs a list.
    pub open spec fn do_aql_query(self) -> (Browser, ActionModel) {
        if self.aql_query.len() == 0 {
            (self, ActionModel::Idle)
        } else {
            match self.selected_list() {
                Some(list) => (
                    Browser { aql_columns: show_clause(self.aql_query), ..self },
                    ActionModel::Call {
                        request: operation(
                            self.base_url,
                            "items-aql"@,
                            aql_body(list.id, self.aql_query, 100),
                        ),
                        then: PendingModel::Aql,
                    },
                ),
                None => (self.with_error("Select a list first"@), ActionModel::Idle),
            }
        }
    }

    /// The state once the results of the query have come, or have not.
    pub open spec fn aql_done(self, reply: Result<Seq<ItemModel>, Seq<char>>) -> Browser {
        match reply {
            Ok(items) => Browser {
                aql_results: sorted_items(items),
                aql_table_state: TableState::first_of(sorted_items(items).len()),
                view: Panel::AqlQuery,
                focus: Focus::Table,
                ..self
            }.with_success("AQL: "@ + decimal(sorted_items(items).len()) + " results"@),
            Err(e) => self.with_error("AQL error: "@ + e),
        }
    }
}

/// A text with a number in it.
pub fn counted(before: &str, n: usize, after: &str) -> (r: String)
    ensures
        r@ == before@ + decimal(n as nat) + after@,
{
    let number = number_text(n);
    concat3(before, number.as_str(), after)
}

impl ListsTableBrowser {
    /// Shows a status message and no error message.
    pub fn succeed(&mut self, text: String)
        ensures
            final(self)@ == old(self)@.with_success(text@),
    {
        self.status_message = Some(text);
        self.error_message = None;
    }

    /// Shows an error message.
    pub fn fail(&mut self, what: &str, error: &str)
        ensures
            final(self)@ == old(self)@.with_error(what@ + error@),
    {
        self.error_message = Some(concat2(what, error));
    }

    /// Asks for all lists.
    pub fn refresh_lists(&self, then: AfterLists) -> (r: Action)
        ensures
            r@ == self@.refresh_lists(then@),
    {
        Action::Call { request: fetch_lists(self.base_url.as_str()), then: Pending::Lists(then) }
    }

    /// Takes the lists that have come, or the reason why they have not.
    pub fn lists_loaded(&mut self, reply: Result<Vec<ListInfo>, String>)
        ensures
            final(self)@ == old(self)@.lists_loaded(lists_result(reply)),
    {
        match reply {
            Ok(lists) => {
                let terms = parse_terms(self.lists_filter.as_str());
                self.lists = keep_lists(lists, &terms);
                let text = counted("Loaded ", self.lists.len(), " lists");
                self.succeed(text);
            },
            Err(e) => self.fail("Failed to load lists: ", e.as_str()),
        }
    }

    /// Shows the message that goes with loaded items, if any.
    pub fn note(&mut self, note: Option<String>)
        ensures
            final(self)@ == old(self)@.noted(opt_text(note)),
    {
        if let Some(text) = note {
            self.status_message = Some(text);
        }
    }

    /// Asks for the items of the selected list.
    pub fn load_items(&mut self, note: Option<String>) -> (r: Action)
        ensures
            (final(self)@, r@) == old(self)@.load_items(opt_text(note)),
    {
        match self.selected_list_id() {
            Some(id) => Action::Call {
                request: fetch_items(self.base_url.as_str(), id.as_str(), 100),
                then: Pending::Items(note),
            },
            None => {
                self.note(note);
                Action::Idle
            },
        }
    }

    /// Takes the items that have come, or the reason why they have not.
    pub fn items_loaded(&mut self, reply: Result<Vec<ListItem>, String>, note: Option<String>)
        ensures
            final(self)@ == old(self)@.items_loaded(items_result(reply), opt_text(note)),
    {
        match reply {
            Ok(items) => {
                let mut sorted = items;
                sort_items(&mut sorted);
                self.items = sorted;
                self.table_state.select_first(self.items.len());
                self.view = Panel::Items;
                self.focus = Focus::Table;
                let text = counted("Loaded ", self.items.len(), " items");
                self.succeed(text);
            },
            Err(e) => self.fail("Failed to load items: ", e.as_str()),
        }
        self.note(note);
    }

    /// Asks for the items that match the search.
    pub fn do_search(&self) -> (r: Action)
        ensures
            r@ == self@.do_search(),
    {
        if self.search_query.as_str().is_empty() {
            return Action::Idle;
        }
        match self.selected_list_id() {
            Some(id) => Action::Call {
                request: search_items(
                    self.base_url.as_str(),
                    self.search_query.as_str(),
                    Some(id.as_str()),
                    50,
                ),
                then: Pending::Search { scoped: true },
            },
            None => Action::Call {
                request: search_items(
                    self.base_url.as_str(),
                    self.search_query.as_str(),
                    None,
                    50,
                ),
                then: Pending::Search { scoped: false },
            },
        }
    }

    /// Takes the results of a search, or the reason why there are none.
    pub fn search_done(&mut self, reply: Result<Vec<ListItem>, String>, scoped: bool)
        ensures
            final(self)@ == old(self)@.search_done(items_result(reply), scoped),
    {
        match reply {
            Ok(items) => {
                let mut sorted = items;
                sort_items(&mut sorted);
                self.search_results = sorted;
                self.search_table_state.select_first(self.search_results.len());
                self.view = Panel::Search;
                self.focus = Focus::Table;
                let mut text = counted("Found ", self.search_results.len(), " results (");
                text.append(
                    if scoped {
                        "in list"
                    } else {
                        "all lists"
                    },
                );
                text.append(")");
                self.succeed(text);
            },
            Err(e) => self.fail("Search failed: ", e.as_str()),
        }
    }

    /// Asks for the items that the query selects.
    pub fn do_aql_query(&mut self) -> (r: Action)
        ensures
            (final(self)@, r@) == old(self)@.do_aql_query(),
    {
        if self.aql_query.as_str().is_empty() {
            return Action::Idle;
        }
        match self.selected_list_id() {
            Some(id) => {
                self.aql_columns = parse_show_clause(self.aql_query.as_str());
                Action::Call {
                    request: aql_query(
                        self.base_url.as_str(),
                        id.as_str(),
                        self.aql_query.as_str(),
                        100,
                    ),
                    then: Pending::Aql,
                }
            },
            None => {
                self.error_message = Some("Select a list first".to_owned());
                Action::Idle
            },
        }
    }

    /// Takes the results of the query, or the reason why there are none.
    pub fn aql_done(&mut self, reply: Result<Vec<ListItem>, String>)
        ensures
            final(self)@ == old(self)@.aql_done(items_result(reply)),
    {
        match reply {
            Ok(items) => {
                let mut sorted = items;
                sort_items(&mut sorted);
                self.aql_results = sorted;
                self.aql_table_state.select_first(self.aql_results.len());
                self.view = Panel::AqlQuery;
                self.focus = Focus::Table;
                let text = counted("AQL: ", self.aql_results.len(), " results");
                self.succeed(text);
            },
            Err(e) => self.fail("AQL error: ", e.as_str()),
        }
    }
}

} // verus!
