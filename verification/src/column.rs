//! The columns of the item table and the direction in which they are sorted.
use vstd::prelude::*;
use vstd::string::*;
use vstd::utf8::*;
use crate::text::{ascii_lowercase, lowercase, same_text, to_lowercase, trim, trimmed, white_space};

verus! {

/// Columns that can be shown in the table.
#[derive(Debug, Clone, Copy, PartialEq, Eq, Structural)]
pub enum Column {
    Status,
    Title,
    Tags,
    Url,
    Notes,
}

/// The column that a lower-case word stands for.
pub open spec fn column_named(word: Seq<char>) -> Option<Column> {
    if word == "status"@ || word == "completed"@ {
        Some(Column::Status)
    } else if word == "title"@ || word == "name"@ {
        Some(Column::Title)
    } else if word == "tags"@ || word == "tag"@ {
        Some(Column::Tags)
    } else if word == "url"@ || word == "link"@ {
        Some(Column::Url)
    } else if word == "notes"@ || word == "note"@ || word == "description"@ {
        Some(Column::Notes)
    } else {
        None
    }
}

impl Column {
    /// The name by which queries call the column.
    pub open spec fn field_name(self) -> Seq<char> {
        match self {
            Column::Status => "completed"@,
            Column::Title => "title"@,
            Column::Tags => "tags"@,
            Column::Url => "url"@,
            Column::Notes => "notes"@,
        }
    }

    /// The text above the column.
    pub open spec fn heading(self) -> Seq<char> {
        match self {
            Column::Status => ""@,
            Column::Title => "Title"@,
            Column::Tags => "Tags"@,
            Column::Url => "URL"@,
            Column::Notes => "📝"@,
        }
    }

    /// The column that a lower-case word stands for.
    pub fn named(word: &str) -> (r: Option<Column>)
        ensures
            r == column_named(word@),
    {
        if same_text(word, "status") || same_text(word, "completed") {
            Some(Column::Status)
        } else if same_text(word, "title") || same_text(word, "name") {
            Some(Column::Title)
        } else if same_text(word, "tags") || same_text(word, "tag") {
            Some(Column::Tags)
        } else if same_text(word, "url") || same_text(word, "link") {
            Some(Column::Url)
        } else if same_text(word, "notes") || same_text(word, "note") || same_text(
            word,
            "description",
        ) {
            Some(Column::Notes)
        } else {
            None
        }
    }

    /// The column that a word stands for, in any case and with white space around it.
    pub fn from_str(s: &str) -> (r: Option<Column>)
        ensures
            r == column_named(lowercase(trimmed(s@))),
    {
        let word = trim(s);
        let lower = to_lowercase(word.as_str());
        Column::named(lower.as_str())
    }

    /// The text above the column.
    pub fn header(&self) -> (r: &'static str)
        ensures
            r@ == self.heading(),
    {
        match self {
            Column::Status => "",
            Column::Title => "Title",
            Column::Tags => "Tags",
            Column::Url => "URL",
            Column::Notes => "📝",
        }
    }

    /// The name by which queries call the column.
    pub fn aql_field(&self) -> (r: &'static str)
        ensures
            r@ == self.field_name(),
    {
        match self {
            Column::Status => "completed",
            Column::Title => "title",
            Column::Tags => "tags",
            Column::Url => "url",
            Column::Notes => "notes",
        }
    }
}

/// Which way a column is sorted.
#[derive(Debug, Clone, Copy, PartialEq, Eq, Structural)]
pub enum SortDirection {
    Asc,
    Desc,
}

impl SortDirection {
    /// The opposite direction.
    pub open spec fn flipped(self) -> SortDirection {
        match self {
            SortDirection::Asc => SortDirection::Desc,
            SortDirection::Desc => SortDirection::Asc,
        }
    }

    /// The mark beside the heading of the sorted column.
    pub open spec fn mark(self) -> Seq<char> {
        match self {
            SortDirection::Asc => "▲"@,
            SortDirection::Desc => "▼"@,
        }
    }

    /// The word that ends an order clause.
    pub open spec fn word(self) -> Seq<char> {
        match self {
            SortDirection::Asc => "asc"@,
            SortDirection::Desc => "desc"@,
        }
    }

    /// The opposite direction.
    pub fn toggle(self) -> (r: SortDirection)
        ensures
            r == self.flipped(),
    {
        match self {
            SortDirection::Asc => SortDirection::Desc,
            SortDirection::Desc => SortDirection::Asc,
        }
    }

    /// The mark beside the heading of the sorted column.
    pub fn indicator(self) -> (r: &'static str)
        ensures
            r@ == self.mark(),
    {
        match self {
            SortDirection::Asc => "▲",
            SortDirection::Desc => "▼",
        }
    }

    /// The word that ends an order clause.
    pub fn aql_suffix(self) -> (r: &'static str)
        ensures
            r@ == self.word(),
    {
        match self {
            SortDirection::Asc => "asc",
            SortDirection::Desc => "desc",
        }
    }
}

/// Toggling a direction twice gives it back.
pub proof fn law_toggle_twice(d: SortDirection)
    ensures
        d.flipped() != d,
        d.flipped().flipped() == d,
{
}

/// Reading the name of a column gives the column back.
pub proof fn law_field_name_reads_back(c: Column)
    ensures
        column_named(lowercase(trimmed(c.field_name()))) == Some(c),
{
    reveal_strlit("status");
    reveal_strlit("completed");
    reveal_strlit("title");
    reveal_strlit("name");
    reveal_strlit("tags");
    reveal_strlit("tag");
    reveal_strlit("url");
    reveal_strlit("link");
    reveal_strlit("notes");
    reveal_strlit("note");
    reveal_strlit("description");
    let s = c.field_name();
    assert(s.len() > 0 && !white_space(s[0]) && !white_space(s.last()));
    assert(trimmed(s) == s);
    assert(is_ascii_chars(s));
    assert(ascii_lowercase(s) =~= s);
    assert("status"@.len() == 6 && "completed"@.len() == 9 && "title"@.len() == 5 && "name"@.len()
        == 4 && "tags"@.len() == 4 && "tag"@.len() == 3 && "url"@.len() == 3 && "link"@.len() == 4
        && "notes"@.len() == 5 && "note"@.len() == 4);
    assert("name"@[0] == 'n' && "tags"@[0] == 't' && "title"@[0] == 't' && "notes"@[0] == 'n'
        && "url"@[0] == 'u' && "tag"@[0] == 't');
}

} // verus!
