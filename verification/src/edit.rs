//! The form in which an item is edited.
use vstd::prelude::*;
use vstd::string::*;
use crate::items::{is_done, opt_text, ItemModel, ListItem};
use crate::text::{join, joined, lemma_pieces_append, pieces, same_text, split, texts, trim, trim_end, trim_start, trimmed, white_space};

verus! {

/// A field of the form.
#[derive(Debug)]
pub enum FormField {
    Text { label: String, value: String },
    Checkbox { label: String, checked: bool },
}

/// The label and value of a field.
pub open spec fn field_value(field: FormField) -> (Seq<char>, ValueModel) {
    match field {
        FormField::Text { label, value } => (label@, ValueModel::Text(value@)),
        FormField::Checkbox { label, checked } => (label@, ValueModel::Bool(checked)),
    }
}

/// The labels and values of fields.
pub open spec fn field_values(v: Seq<FormField>) -> DataModel {
    Seq::new(v.len(), |i: int| field_value(v[i]))
}

/// A text, or the empty one.
pub open spec fn or_empty(t: Option<Seq<char>>) -> Seq<char> {
    match t {
        Some(s) => s,
        None => Seq::empty(),
    }
}

/// The fields of the form for an item. The notes are edited beside the form.
pub open spec fn form_for(item: ItemModel) -> DataModel {
    seq![
        ("Title"@, ValueModel::Text(item.title)),
        ("URL"@, ValueModel::Text(or_empty(item.url))),
        ("Tags"@, ValueModel::Text(joined(item.tags, ", "@))),
        ("Completed"@, ValueModel::Bool(is_done(item))),
    ]
}

/// Whether two forms have fields of the same labels and kinds, in the same order.
pub open spec fn same_shape(a: DataModel, b: DataModel) -> bool {
    &&& a.len() == b.len()
    &&& forall|i: int|
        0 <= i < a.len() ==> {
            &&& (#[trigger] a[i]).0 == b[i].0
            &&& (a[i].1 is Text) == (b[i].1 is Text)
            &&& (a[i].1 is Bool) == (b[i].1 is Bool)
        }
}

/// Whether a form has the fields of the form for an item.
pub open spec fn item_shape(values: DataModel) -> bool {
    &&& values.len() == 4
    &&& values[0].0 == "Title"@ && values[0].1 is Text
    &&& values[1].0 == "URL"@ && values[1].1 is Text
    &&& values[2].0 == "Tags"@ && values[2].1 is Text
    &&& values[3].0 == "Completed"@ && values[3].1 is Bool
}

/// A text field.
fn text_field(label: &str, value: String) -> (r: FormField)
    ensures
        field_value(r) == (label@, ValueModel::Text(value@)),
{
    FormField::Text { label: label.to_owned(), value }
}

/// An optional text, or the empty one.
pub fn text_or_empty(t: &Option<String>) -> (r: String)
    ensures
        r@ == or_empty(opt_text(*t)),
{
    match t {
        Some(s) => s.clone(),
        None => String::new(),
    }
}

/// The fields of the form for an item.
pub fn make_form(item: &ListItem) -> (r: Vec<FormField>)
    ensures
        field_values(r@) == form_for(item@),
{
    let tags = join(&item.tags, item.tags.len(), ", ");
    proof {
        assert(texts(item.tags@).take(item.tags@.len() as int) =~= texts(item.tags@));
    }
    let mut fields: Vec<FormField> = Vec::new();
    fields.push(text_field("Title", item.title.clone()));
    fields.push(text_field("URL", text_or_empty(&item.url)));
    fields.push(text_field("Tags", tags));
    fields.push(FormField::Checkbox { label: "Completed".to_owned(), checked: item.done() });
    proof {
        assert(field_values(fields@) =~= form_for(item@));
    }
    fields
}

// ---------------------------------------------------------------------------
// What comes back
// ---------------------------------------------------------------------------
/// The value of a field of the form.
#[derive(Debug)]
pub enum FormValue {
    Text(String),
    Bool(bool),
    Choice { index: usize, label: String },
    Number(i64),
}

/// What a value holds.
pub enum ValueModel {
    Text(Seq<char>),
    Bool(bool),
    Choice { index: usize, label: Seq<char> },
    Number(i64),
}

impl View for FormValue {
    type V = ValueModel;

    open spec fn view(&self) -> ValueModel {
        match self {
            FormValue::Text(s) => ValueModel::Text(s@),
            FormValue::Bool(b) => ValueModel::Bool(*b),
            FormValue::Choice { index, label } => ValueModel::Choice {
                index: *index,
                label: label@,
            },
            FormValue::Number(n) => ValueModel::Number(*n),
        }
    }
}

/// The values of a form, by the labels of their fields.
#[derive(Debug)]
pub struct FormData {
    pub values: Vec<(String, FormValue)>,
}

/// What the values of a form hold.
pub type DataModel = Seq<(Seq<char>, ValueModel)>;

impl View for FormData {
    type V = DataModel;

    open spec fn view(&self) -> DataModel {
        Seq::new(self.values@.len(), |i: int| (self.values@[i].0@, self.values@[i].1@))
    }
}

/// The value of the first field with a label.
pub open spec fn value_of(data: DataModel, label: Seq<char>) -> Option<ValueModel>
    decreases data.len(),
{
    if data.len() == 0 {
        None
    } else if data[0].0 == label {
        Some(data[0].1)
    } else {
        value_of(data.drop_first(), label)
    }
}

/// The text of the first field with a label, where it is a text.
pub open spec fn text_value(data: DataModel, label: Seq<char>) -> Option<Seq<char>> {
    match value_of(data, label) {
        Some(ValueModel::Text(s)) => Some(s),
        _ => None,
    }
}

/// The flag of the first field with a label, where it is a flag.
pub open spec fn flag_value(data: DataModel, label: Seq<char>) -> Option<bool> {
    match value_of(data, label) {
        Some(ValueModel::Bool(b)) => Some(b),
        _ => None,
    }
}

impl FormData {
    /// The value of the first field with a label.
    pub fn get(&self, label: &str) -> (r: Option<&FormValue>)
        ensures
            match r {
                Some(value) => value_of(self@, label@) == Some(value@),
                None => value_of(self@, label@) is None,
            },
    {
        let mut i: usize = 0;
        proof {
            assert(self@.skip(0) =~= self@);
        }
        while i < self.values.len()
            invariant
                i <= self.values@.len(),
                value_of(self@, label@) == value_of(self@.skip(i as int), label@),
            decreases self.values@.len() - i,
        {
            proof {
                assert(self@.skip(i as int).drop_first() =~= self@.skip(i + 1));
                assert(self@.skip(i as int)[0] == self@[i as int]);
            }
            if same_text(self.values[i].0.as_str(), label) {
                return Some(&self.values[i].1);
            }
            i += 1;
        }
        None
    }

    /// The text of the first field with a label, where it is a text.
    pub fn text(&self, label: &str) -> (r: Option<&str>)
        ensures
            match r {
                Some(s) => text_value(self@, label@) == Some(s@),
                None => text_value(self@, label@) is None,
            },
    {
        match self.get(label) {
            Some(FormValue::Text(s)) => Some(s.as_str()),
            _ => None,
        }
    }

    /// The flag of the first field with a label, where it is a flag.
    pub fn flag(&self, label: &str) -> (r: Option<bool>)
        ensures
            r == flag_value(self@, label@),
    {
        match self.get(label) {
            Some(FormValue::Bool(b)) => Some(*b),
            _ => None,
        }
    }
}

/// The tag that a piece of text stands for: the piece without white space around it, where
/// anything is left.
pub open spec fn tag_in(piece: Seq<char>) -> Option<Seq<char>> {
    if trimmed(piece).len() > 0 {
        Some(trimmed(piece))
    } else {
        None
    }
}

/// The tags in a text, separated by commas.
pub open spec fn tags_in(text: Seq<char>) -> Seq<Seq<char>> {
    pieces(text, ',').filter_map(|piece: Seq<char>| tag_in(piece))
}

/// Reads the tags in a text, separated by commas.
pub fn parse_tags(text: &str) -> (r: Vec<String>)
    ensures
        texts(r@) == tags_in(text@),
{
    let list = split(text, ',');
    let mut out: Vec<String> = Vec::new();
    let ghost tag = |piece: Seq<char>| tag_in(piece);
    let mut i: usize = 0;
    proof {
        assert(texts(list@).take(0) =~= Seq::<Seq<char>>::empty());
        assert(texts(out@) =~= Seq::<Seq<char>>::empty());
    }
    while i < list.len()
        invariant
            i <= list@.len(),
            texts(list@) == pieces(text@, ','),
            tag == (|piece: Seq<char>| tag_in(piece)),
            texts(out@) == texts(list@).take(i as int).filter_map(tag),
        decreases list@.len() - i,
    {
        let ghost before = out@;
        proof {
            assert(texts(list@).take(i + 1).drop_last() =~= texts(list@).take(i as int));
        }
        let word = trim(list[i].as_str());
        if !word.as_str().is_empty() {
            let ghost w = word@;
            out.push(word);
            proof {
                assert(texts(out@) =~= texts(before) + seq![w]);
            }
        }
        i += 1;
    }
    proof {
        assert(texts(list@).take(list@.len() as int) =~= texts(list@));
    }
    out
}

// ---------------------------------------------------------------------------
// Laws
// ---------------------------------------------------------------------------
/// A tag that survives being edited as text: not empty, without a comma, and without white space
/// around it.
pub open spec fn plain_tag(tag: Seq<char>) -> bool {
    &&& tag.len() > 0
    &&& !tag.contains(',')
    &&& !white_space(tag[0])
    &&& !white_space(tag.last())
}

/// White space in front of a plain tag goes when the piece is read.
proof fn lemma_plain_tag_read(tag: Seq<char>)
    requires
        plain_tag(tag),
    ensures
        tag_in(tag) == Some(tag),
        tag_in(seq![' '] + tag) == Some(tag),
{
    assert(trim_start(tag) == tag);
    assert(trim_end(tag) == tag);
    assert((seq![' '] + tag).drop_first() =~= tag);
    assert(trim_start(seq![' '] + tag) == trim_start(tag));
}

/// Plain tags, written into the form and read back, are the same tags.
pub proof fn law_tags_read_back(tags: Seq<Seq<char>>)
    requires
        forall|i: int| 0 <= i < tags.len() ==> plain_tag(#[trigger] tags[i]),
    ensures
        tags_in(joined(tags, ", "@)) == tags,
    decreases tags.len(),
{
    reveal_strlit(", ");
    reveal_with_fuel(Seq::filter_map, 2);
    let text = joined(tags, ", "@);
    if tags.len() == 0 {
        let empty = Seq::<char>::empty();
        assert(pieces(text, ',') =~= seq![empty]);
        assert(trim_start(empty) == empty && trim_end(empty) == empty);
        assert(seq![empty].drop_last() =~= Seq::<Seq<char>>::empty());
        assert(tags_in(text) =~= tags);
    } else {
        let last = tags.last();
        let init = tags.drop_last();
        assert(plain_tag(tags[tags.len() - 1]));
        assert forall|i: int| 0 <= i < init.len() implies plain_tag(#[trigger] init[i]) by {
            assert(plain_tag(tags[i]));
        }
        law_tags_read_back(init);
        lemma_plain_tag_read(last);
        let empty = Seq::<char>::empty();
        if tags.len() == 1 {
            lemma_pieces_append(empty, last, ',');
            assert(empty + last =~= last);
            assert(pieces(text, ',') =~= seq![last]);
            assert(seq![last].drop_last() =~= Seq::<Seq<char>>::empty());
            assert(tags_in(text) =~= tags);
        } else {
            let before = joined(init, ", "@);
            let comma = before.push(',');
            assert(comma.drop_last() =~= before);
            assert(pieces(comma, ',') =~= pieces(before, ',').push(empty));
            let spaced = seq![' '] + last;
            assert(!spaced.contains(',')) by {
                assert forall|k: int| 0 <= k < spaced.len() implies spaced[k] != ',' by {
                    if k > 0 {
                        assert(last.contains(last[k - 1]));
                    }
                }
            }
            lemma_pieces_append(comma, spaced, ',');
            assert(comma + spaced =~= text);
            assert(empty + spaced =~= spaced);
            assert(pieces(comma, ',').drop_last() =~= pieces(before, ','));
            assert(pieces(text, ',') =~= pieces(before, ',').push(spaced));
            assert(pieces(text, ',').drop_last() =~= pieces(before, ','));
            assert(tags_in(text) =~= init + seq![last]);
            assert(init + seq![last] =~= tags);
        }
    }
}

/// A form with the fields of an item always has a title, an address, tags and a flag.
pub proof fn law_item_form_is_complete(values: DataModel)
    requires
        item_shape(values),
    ensures
        text_value(values, "Title"@) == Some(values[0].1->Text_0),
        text_value(values, "URL"@) == Some(values[1].1->Text_0),
        text_value(values, "Tags"@) == Some(values[2].1->Text_0),
        flag_value(values, "Completed"@) == Some(values[3].1->Bool_0),
{
    reveal_strlit("Title");
    reveal_strlit("URL");
    reveal_strlit("Tags");
    reveal_strlit("Completed");
    reveal_with_fuel(value_of, 5);
    assert("Title"@.len() == 5 && "URL"@.len() == 3 && "Tags"@.len() == 4 && "Completed"@.len()
        == 9);
}

/// An untouched form gives back what the item holds, where its tags survive being edited as text.
pub proof fn law_untouched_form(item: ItemModel)
    requires
        forall|i: int| 0 <= i < item.tags.len() ==> plain_tag(#[trigger] item.tags[i]),
    ensures
        ({
            let data = form_for(item);
            &&& text_value(data, "Title"@) == Some(item.title)
            &&& text_value(data, "URL"@) == Some(or_empty(item.url))
            &&& text_value(data, "Tags"@) matches Some(t) && tags_in(t) == item.tags
            &&& flag_value(data, "Completed"@) == Some(is_done(item))
        }),
{
    law_tags_read_back(item.tags);
    law_item_form_is_complete(form_for(item));
}

} // verus!
