//! Names of the session table.
//!
//! The table name is the only caller-chosen text that ever becomes part of a
//! statement, so it is held to a small alphabet before it is accepted.

use vstd::prelude::*;

verus! {

/// The characters a table name may consist of: ASCII letters, ASCII digits,
/// hyphen and underscore.
pub open spec fn is_table_name_char(c: char) -> bool {
    ||| 'a' <= c <= 'z'
    ||| 'A' <= c <= 'Z'
    ||| '0' <= c <= '9'
    ||| c == '-'
    ||| c == '_'
}

/// A table name is valid when it is not empty and every character of it is
/// a table-name character.
pub open spec fn valid_table_name(name: Seq<char>) -> bool {
    &&& name.len() > 0
    &&& forall|i: int| 0 <= i < name.len() ==> is_table_name_char(#[trigger] name[i])
}

fn table_name_char(c: char) -> (ok: bool)
    ensures
        ok == is_table_name_char(c),
{
    ('a' <= c && c <= 'z') || ('A' <= c && c <= 'Z') || ('0' <= c && c <= '9') || c == '-' || c
        == '_'
}

/// Decides whether `name` may be used as the session table's name.
pub fn is_valid_table_name(name: &str) -> (valid: bool)
    ensures
        valid == valid_table_name(name@),
{
    if name.is_empty() {
        return false;
    }
    let mut all_ok = true;
    for c in it: name.chars()
        invariant
            it.seq() == name@,
            all_ok == (forall|i: int| 0 <= i < it.index() ==> is_table_name_char(#[trigger] name@[i])),
    {
        all_ok = all_ok && table_name_char(c);
    }
    all_ok
}

/// The message with which a table name is refused.
pub open spec fn invalid_table_name_text(name: Seq<char>) -> Seq<char> {
    "Invalid table name '"@ + name
        + "'. Table names must be alphanumeric and may contain hyphens or underscores."@
}

/// The message with which `name` is refused as a table name.
pub fn invalid_table_name_message(name: &str) -> (message: String)
    ensures
        message@ == invalid_table_name_text(name@),
{
    let mut message = "Invalid table name '".to_owned();
    message.append(name);
    message.append("'. Table names must be alphanumeric and may contain hyphens or underscores.");
    message
}

/// The name that the session table has unless another is chosen.
pub const DEFAULT_TABLE_NAME: &'static str = "tower_sessions";

/// A table name that has been found valid.
#[derive(Debug)]
pub struct TableName {
    name: String,
}

impl View for TableName {
    type V = Seq<char>;

    closed spec fn view(&self) -> Seq<char> {
        self.name@
    }
}

impl TableName {
    #[verifier::type_invariant]
    spec fn well_formed(self) -> bool {
        valid_table_name(self.name@)
    }

    /// Accepts `name` if it is valid, and only then.
    pub fn new(name: &str) -> (table: Option<TableName>)
        ensures
            match table {
                Some(table) => valid_table_name(name@) && table@ == name@,
                None => !valid_table_name(name@),
            },
    {
        if is_valid_table_name(name) {
            Some(TableName { name: name.to_owned() })
        } else {
            None
        }
    }

    /// The name as text. It is always a valid one.
    pub fn as_str(&self) -> (name: &str)
        ensures
            name@ == self@,
            valid_table_name(name@),
    {
        proof {
            use_type_invariant(self);
        }
        self.name.as_str()
    }
}

impl Clone for TableName {
    fn clone(&self) -> (copy: TableName)
        ensures
            copy@ == self@,
    {
        proof {
            use_type_invariant(self);
        }
        TableName { name: self.name.clone() }
    }
}

impl Default for TableName {
    /// The default name, [`DEFAULT_TABLE_NAME`].
    fn default() -> (table: TableName)
        ensures
            table@ == DEFAULT_TABLE_NAME@,
    {
        proof {
            reveal_strlit("tower_sessions");
        }
        TableName { name: DEFAULT_TABLE_NAME.to_owned() }
    }
}

} // verus!
