//! The records of the user table.
use vstd::prelude::*;
use vstd::string::*;

use crate::text::{decimal_int, json_quoted, push_decimal_i64, push_json_string, push_text};

verus! {

/// The JSON of a user record: `{"id":<id>,"name":<name>,"age":<age>}`.
pub open spec fn user_json(id: int, name: Seq<char>, age: int) -> Seq<char> {
    "{\"id\":"@ + decimal_int(id) + ",\"name\":"@ + json_quoted(name) + ",\"age\":"@
        + decimal_int(age) + "}"@
}

/// A row of the user table as read.
pub struct User {
    pub id: i32,
    pub name: String,
    pub age: i32,
}

impl User {
    /// The row as JSON, in the form `serde_json` gives a struct of these fields.
    pub fn to_json(&self) -> (s: String)
        ensures
            s@ == user_json(self.id as int, self.name@, self.age as int),
    {
        let mut s = String::from_str("{\"id\":");
        push_decimal_i64(&mut s, self.id as i64);
        push_text(&mut s, ",\"name\":");
        push_json_string(&mut s, self.name.as_str());
        push_text(&mut s, ",\"age\":");
        push_decimal_i64(&mut s, self.age as i64);
        push_text(&mut s, "}");
        s
    }
}

/// A row of the user table as inserted; the table assigns the id when it is `None`.
pub struct UserDo {
    pub id: Option<i32>,
    pub name: String,
    pub age: i32,
}

} // verus!
