//! What the browser asks the outside to do, and what it does with the answer.
use vstd::prelude::*;
use crate::api::{ApiRequest, RequestModel};
use crate::items::{item_models, list_models, opt_text, ItemModel, ListInfo, ListItem, ListModel};

verus! {

/// What follows once the lists have been loaded.
#[derive(Debug)]
pub enum AfterLists {
    /// Nothing.
    Stop,
    /// The items are loaded again, where a list is shown.
    Reload,
    /// The items are loaded again, and a message says why.
    Announce(String),
}

/// What a request was made for.
#[derive(Debug)]
pub enum Pending {
    Lists(AfterLists),
    /// The items of the selected list, and a message that goes with them.
    Items(Option<String>),
    Search { scoped: bool },
    Aql,
    Add,
    Delete { item_id: String },
    Toggle { row: usize, completed: bool },
    Move { to_top: bool },
    Save,
}

/// What the outside is to do next.
#[derive(Debug)]
pub enum Action {
    /// Nothing.
    Idle,
    /// End the program.
    Quit,
    /// Post a request and come back with the reply.
    Call { request: ApiRequest, then: Pending },
    /// Open an address.
    OpenUrl(String),
    /// Write a control sequence to the terminal and say whether that worked.
    Copy { sequence: String, text: String },
}

/// A reply to a request.
#[derive(Debug)]
pub enum Reply {
    Lists(Result<Vec<ListInfo>, String>),
    Items(Result<Vec<ListItem>, String>),
    Item(Result<ListItem, String>),
    Done(Result<(), String>),
}

/// What an `AfterLists` holds.
pub enum AfterListsModel {
    Stop,
    Reload,
    Announce(Seq<char>),
}

/// What a `Pending` holds.
pub enum PendingModel {
    Lists(AfterListsModel),
    Items(Option<Seq<char>>),
    Search { scoped: bool },
    Aql,
    Add,
    Delete { item_id: Seq<char> },
    Toggle { row: usize, completed: bool },
    Move { to_top: bool },
    Save,
}

/// What an `Action` holds.
pub enum ActionModel {
    Idle,
    Quit,
    Call { request: RequestModel, then: PendingModel },
    OpenUrl(Seq<char>),
    Copy { sequence: Seq<char>, text: Seq<char> },
}

/// What a `Reply` holds.
pub enum ReplyModel {
    Lists(Result<Seq<ListModel>, Seq<char>>),
    Items(Result<Seq<ItemModel>, Seq<char>>),
    Item(Result<ItemModel, Seq<char>>),
    Done(Result<(), Seq<char>>),
}

impl View for AfterLists {
    type V = AfterListsModel;

    open spec fn view(&self) -> AfterListsModel {
        match self {
            AfterLists::Stop => AfterListsModel::Stop,
            AfterLists::Reload => AfterListsModel::Reload,
            AfterLists::Announce(text) => AfterListsModel::Announce(text@),
        }
    }
}

impl View for Pending {
    type V = PendingModel;

    open spec fn view(&self) -> PendingModel {
        match self {
            Pending::Lists(then) => PendingModel::Lists(then@),
            Pending::Items(note) => PendingModel::Items(opt_text(*note)),
            Pending::Search { scoped } => PendingModel::Search { scoped: *scoped },
            Pending::Aql => PendingModel::Aql,
            Pending::Add => PendingModel::Add,
            Pending::Delete { item_id } => PendingModel::Delete { item_id: item_id@ },
            Pending::Toggle { row, completed } => PendingModel::Toggle {
                row: *row,
                completed: *completed,
            },
            Pending::Move { to_top } => PendingModel::Move { to_top: *to_top },
            Pending::Save => PendingModel::Save,
        }
    }
}

impl View for Action {
    type V = ActionModel;

    open spec fn view(&self) -> ActionModel {
        match self {
            Action::Idle => ActionModel::Idle,
            Action::Quit => ActionModel::Quit,
            Action::Call { request, then } => ActionModel::Call { request: request@, then: then@ },
            Action::OpenUrl(url) => ActionModel::OpenUrl(url@),
            Action::Copy { sequence, text } => ActionModel::Copy {
                sequence: sequence@,
                text: text@,
            },
        }
    }
}

/// What a reply with lists holds.
pub open spec fn lists_result(r: Result<Vec<ListInfo>, String>) -> Result<
    Seq<ListModel>,
    Seq<char>,
> {
    match r {
        Ok(v) => Ok(list_models(v@)),
        Err(e) => Err(e@),
    }
}

/// What a reply with items holds.
pub open spec fn items_result(r: Result<Vec<ListItem>, String>) -> Result<
    Seq<ItemModel>,
    Seq<char>,
> {
    match r {
        Ok(v) => Ok(item_models(v@)),
        Err(e) => Err(e@),
    }
}

/// What a reply with one item holds.
pub open spec fn item_result(r: Result<ListItem, String>) -> Result<ItemModel, Seq<char>> {
    match r {
        Ok(item) => Ok(item@),
        Err(e) => Err(e@),
    }
}

/// What a reply without content holds.
pub open spec fn done_result(r: Result<(), String>) -> Result<(), Seq<char>> {
    match r {
        Ok(_) => Ok(()),
        Err(e) => Err(e@),
    }
}

impl View for Reply {
    type V = ReplyModel;

    open spec fn view(&self) -> ReplyModel {
        match self {
            Reply::Lists(r) => ReplyModel::Lists(lists_result(*r)),
            Reply::Items(r) => ReplyModel::Items(items_result(*r)),
            Reply::Item(r) => ReplyModel::Item(item_result(*r)),
            Reply::Done(r) => ReplyModel::Done(done_result(*r)),
        }
    }
}

/// Whether a reply is of the kind that a request asks for.
pub open spec fn answers(then: PendingModel, reply: ReplyModel) -> bool {
    match then {
        PendingModel::Lists(_) => reply is Lists,
        PendingModel::Items(_) | PendingModel::Search { .. } | PendingModel::Aql => reply is Items,
        PendingModel::Add | PendingModel::Toggle { .. } | PendingModel::Move { .. }
        | PendingModel::Save => reply is Item,
        PendingModel::Delete { .. } => reply is Done,
    }
}

} // verus!
