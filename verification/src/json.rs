//! JSON documents as plain values, and the reading of their members.

use vstd::prelude::*;

verus! {

/// A JSON number: its text, and its value where it is an integer of 64
/// bits.
#[derive(Debug)]
pub struct JsonNumber {
    pub integer: Option<i64>,
    pub text: String,
}

/// A JSON document. The members of an object keep the order in which the
/// parser hands them out.
#[derive(Debug)]
pub enum Json {
    Null,
    Bool(bool),
    Number(JsonNumber),
    Text(String),
    Array(Vec<Json>),
    Object(Vec<(String, Json)>),
}

/// The value of the first member at or behind `from` that has the key.
pub open spec fn lookup(members: Seq<(String, Json)>, key: Seq<char>, from: int) -> Option<Json>
    decreases members.len() - from,
{
    if from < 0 || from >= members.len() {
        None
    } else if members[from].0@ == key {
        Some(members[from].1)
    } else {
        lookup(members, key, from + 1)
    }
}

impl Json {
    /// The value of the member with the key, where the document is an
    /// object that has one.
    pub open spec fn member(self, key: Seq<char>) -> Option<Json> {
        match self {
            Json::Object(members) => lookup(members@, key, 0),
            _ => None,
        }
    }

    /// The text of the member with the key, where it is a JSON string.
    pub open spec fn text_member(self, key: Seq<char>) -> Option<Seq<char>> {
        match self.member(key) {
            Some(Json::Text(s)) => Some(s@),
            _ => None,
        }
    }

    /// The value of the member with the key, where the document is an
    /// object that has one.
    pub fn get(&self, key: &str) -> (r: Option<&Json>)
        ensures
            match r {
                Some(j) => self.member(key@) == Some(*j),
                None => self.member(key@) is None,
            },
    {
        match self {
            Json::Object(members) => {
                let mut i: usize = 0;
                while i < members.len()
                    invariant
                        i <= members.len(),
                        self.member(key@) == lookup(members@, key@, 0),
                        lookup(members@, key@, 0) == lookup(members@, key@, i as int),
                    decreases members.len() - i,
                {
                    let member = &members[i];
                    if crate::query::same_text(member.0.as_str(), key) {
                        assert(lookup(members@, key@, i as int) == Some(member.1));
                        return Some(&member.1);
                    }
                    i += 1;
                }
                None
            },
            _ => None,
        }
    }

    /// The text of the member with the key, where it is a JSON string.
    pub fn get_text(&self, key: &str) -> (r: Option<&str>)
        ensures
            match r {
                Some(s) => self.text_member(key@) == Some(s@),
                None => self.text_member(key@) is None,
            },
    {
        match self.get(key) {
            Some(Json::Text(s)) => Some(s.as_str()),
            _ => None,
        }
    }
}

} // verus!
