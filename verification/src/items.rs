//! Lists, their items, and the order in which items are shown.
use vstd::prelude::*;
use vstd::seq_lib::*;
use crate::text::texts;

verus! {

/// A list, as the server describes it.
#[derive(Debug)]
pub struct ListInfo {
    pub id: String,
    pub name: String,
    pub tags: Vec<String>,
    pub description: Option<String>,
}

/// An item of a list.
#[derive(Debug)]
pub struct ListItem {
    pub id: String,
    pub title: String,
    pub tags: Vec<String>,
    pub url: Option<String>,
    pub notes: Option<String>,
    pub completed: Option<bool>,
}

/// What a list holds.
pub struct ListModel {
    pub id: Seq<char>,
    pub name: Seq<char>,
    pub tags: Seq<Seq<char>>,
    pub description: Option<Seq<char>>,
}

/// What an item holds.
pub struct ItemModel {
    pub id: Seq<char>,
    pub title: Seq<char>,
    pub tags: Seq<Seq<char>>,
    pub url: Option<Seq<char>>,
    pub notes: Option<Seq<char>>,
    pub completed: Option<bool>,
}

/// What an optional text holds.
pub open spec fn opt_text(t: Option<String>) -> Option<Seq<char>> {
    match t {
        Some(s) => Some(s@),
        None => None,
    }
}

impl View for ListInfo {
    type V = ListModel;

    open spec fn view(&self) -> ListModel {
        ListModel {
            id: self.id@,
            name: self.name@,
            tags: texts(self.tags@),
            description: opt_text(self.description),
        }
    }
}

impl View for ListItem {
    type V = ItemModel;

    open spec fn view(&self) -> ItemModel {
        ItemModel {
            id: self.id@,
            title: self.title@,
            tags: texts(self.tags@),
            url: opt_text(self.url),
            notes: opt_text(self.notes),
            completed: self.completed,
        }
    }
}

/// What the lists of a vector hold.
pub open spec fn list_models(v: Seq<ListInfo>) -> Seq<ListModel> {
    Seq::new(v.len(), |i: int| v[i]@)
}

/// What the items of a vector hold.
pub open spec fn item_models(v: Seq<ListItem>) -> Seq<ItemModel> {
    Seq::new(v.len(), |i: int| v[i]@)
}

/// What an optional item holds.
pub open spec fn opt_item(i: Option<ListItem>) -> Option<ItemModel> {
    match i {
        Some(item) => Some(item@),
        None => None,
    }
}

/// Copies the texts of a vector.
pub fn copy_texts(v: &Vec<String>) -> (r: Vec<String>)
    ensures
        texts(r@) == texts(v@),
{
    let mut out: Vec<String> = Vec::new();
    let mut i: usize = 0;
    while i < v.len()
        invariant
            i <= v@.len(),
            out@ == v@.take(i as int),
        decreases v@.len() - i,
    {
        out.push(v[i].clone());
        i += 1;
        proof {
            assert(v@.take(i as int) =~= v@.take(i - 1).push(v@[i - 1]));
        }
    }
    proof {
        assert(v@.take(v@.len() as int) =~= v@);
    }
    out
}

/// Copies an optional text.
pub fn copy_opt(t: &Option<String>) -> (r: Option<String>)
    ensures
        opt_text(r) == opt_text(*t),
{
    match t {
        Some(s) => Some(s.clone()),
        None => None,
    }
}

impl Clone for ListInfo {
    fn clone(&self) -> (r: ListInfo)
        ensures
            r@ == self@,
    {
        ListInfo {
            id: self.id.clone(),
            name: self.name.clone(),
            tags: copy_texts(&self.tags),
            description: copy_opt(&self.description),
        }
    }
}

impl Clone for ListItem {
    fn clone(&self) -> (r: ListItem)
        ensures
            r@ == self@,
    {
        ListItem {
            id: self.id.clone(),
            title: self.title.clone(),
            tags: copy_texts(&self.tags),
            url: copy_opt(&self.url),
            notes: copy_opt(&self.notes),
            completed: self.completed,
        }
    }
}

/// Whether an item counts as completed: only where the server says so.
pub open spec fn is_done(i: ItemModel) -> bool {
    i.completed == Some(true)
}

impl ListItem {
    /// Whether the item counts as completed.
    pub fn done(&self) -> (r: bool)
        ensures
            r == is_done(self@),
    {
        match self.completed {
            Some(flag) => flag,
            None => false,
        }
    }
}

/// The items still open, in their order.
pub open spec fn open_items(s: Seq<ItemModel>) -> Seq<ItemModel> {
    s.filter(|i: ItemModel| !is_done(i))
}

/// The completed items, in their order.
pub open spec fn done_items(s: Seq<ItemModel>) -> Seq<ItemModel> {
    s.filter(|i: ItemModel| is_done(i))
}

/// The items with the completed ones at the bottom.
pub open spec fn sorted_items(s: Seq<ItemModel>) -> Seq<ItemModel> {
    open_items(s) + done_items(s)
}

/// Moves the completed items to the bottom; otherwise the items keep their order.
pub fn sort_items(items: &mut Vec<ListItem>)
    ensures
        item_models(final(items)@) == sorted_items(item_models(old(items)@)),
{
    let mut rest: Vec<ListItem> = Vec::new();
    rest.append(items);
    let ghost all = rest@;
    proof {
        assert(all =~= old(items)@);
    }
    let mut done: Vec<ListItem> = Vec::new();
    proof {
        reveal(Seq::filter);
        assert(item_models(items@) =~= open_items(item_models(all.take(0))));
        assert(item_models(done@) =~= done_items(item_models(all.take(0))));
    }
    for item in it: rest
        invariant
            it.seq() == all,
            item_models(items@) == open_items(item_models(all.take(it.index()))),
            item_models(done@) == done_items(item_models(all.take(it.index()))),
    {
        let ghost k = it.index();
        let ghost shown = items@;
        let ghost hidden = done@;
        let ghost model = item@;
        proof {
            reveal(Seq::filter);
            assert(item_models(all.take(k + 1)).drop_last() =~= item_models(all.take(k)));
            assert(item_models(all.take(k + 1)).last() == model);
        }
        if item.done() {
            done.push(item);
            proof {
                assert(item_models(done@) =~= item_models(hidden).push(model));
            }
        } else {
            items.push(item);
            proof {
                assert(item_models(items@) =~= item_models(shown).push(model));
            }
        }
    }
    let ghost shown = items@;
    let ghost hidden = done@;
    items.append(&mut done);
    proof {
        assert(all.take(all.len() as int) =~= all);
        assert(item_models(items@) =~= item_models(shown) + item_models(hidden));
    }
}

/// Sorting neither loses nor adds an item.
pub proof fn law_sort_keeps_items(s: Seq<ItemModel>)
    ensures
        sorted_items(s).to_multiset() == s.to_multiset(),
        sorted_items(s).len() == s.len(),
    decreases s.len(),
{
    broadcast use vstd::seq_lib::group_to_multiset_ensures;

    reveal(Seq::filter);
    if s.len() == 0 {
        assert(sorted_items(s) =~= s);
    } else {
        let front = s.drop_last();
        law_sort_keeps_items(front);
        assert(s =~= front.push(s.last()));
        lemma_multiset_commutative(open_items(s), done_items(s));
        lemma_multiset_commutative(open_items(front), done_items(front));
        if is_done(s.last()) {
            assert(sorted_items(s) =~= sorted_items(front).push(s.last()));
        } else {
            assert(done_items(s) == done_items(front));
            assert(open_items(s) == open_items(front).push(s.last()));
            assert(sorted_items(s).to_multiset() =~= sorted_items(front).to_multiset().insert(
                s.last(),
            ));
        }
        assert(sorted_items(s).to_multiset() =~= s.to_multiset());
    }
}

/// After sorting, no completed item stands above an open one.
pub proof fn law_sort_puts_completed_last(s: Seq<ItemModel>, i: int, j: int)
    requires
        0 <= i < j < sorted_items(s).len(),
        is_done(sorted_items(s)[i]),
    ensures
        is_done(sorted_items(s)[j]),
{
    if i < open_items(s).len() {
        s.lemma_filter_pred(|x: ItemModel| !is_done(x), i);
    } else {
        s.lemma_filter_pred(|x: ItemModel| is_done(x), j - open_items(s).len());
    }
}

/// A sequence in which every item passes is its own filter; one in which none passes has an empty
/// one.
proof fn lemma_filter_uniform(s: Seq<ItemModel>, done: bool)
    requires
        forall|i: int| 0 <= i < s.len() ==> is_done(#[trigger] s[i]) == done,
    ensures
        done_items(s) == (if done { s } else { Seq::empty() }),
        open_items(s) == (if done { Seq::empty() } else { s }),
    decreases s.len(),
{
    reveal(Seq::filter);
    if s.len() > 0 {
        lemma_filter_uniform(s.drop_last(), done);
        assert(is_done(s[s.len() - 1]) == done);
        assert(s.drop_last().push(s.last()) =~= s);
    } else {
        assert(s =~= Seq::<ItemModel>::empty());
    }
}

/// Sorting keeps the order among the open items and among the completed ones, so that sorting
/// again changes nothing.
pub proof fn law_sort_is_stable(s: Seq<ItemModel>)
    ensures
        open_items(sorted_items(s)) == open_items(s),
        done_items(sorted_items(s)) == done_items(s),
        sorted_items(sorted_items(s)) == sorted_items(s),
{
    let a = open_items(s);
    let b = done_items(s);
    assert forall|i: int| 0 <= i < a.len() implies is_done(#[trigger] a[i]) == false by {
        s.lemma_filter_pred(|x: ItemModel| !is_done(x), i);
    }
    assert forall|i: int| 0 <= i < b.len() implies is_done(#[trigger] b[i]) == true by {
        s.lemma_filter_pred(|x: ItemModel| is_done(x), i);
    }
    lemma_filter_uniform(a, false);
    lemma_filter_uniform(b, true);
    Seq::filter_distributes_over_add(a, b, |x: ItemModel| is_done(x));
    Seq::filter_distributes_over_add(a, b, |x: ItemModel| !is_done(x));
    assert(open_items(sorted_items(s)) =~= a);
    assert(done_items(sorted_items(s)) =~= b);
}

} // verus!
