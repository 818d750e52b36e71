//! The requests this crate makes of the store, and a model of a store that
//! serves them.
//!
//! A store holds hashes, each a map from field to value, under string keys.
//! A request names one field of one hash. The model below says what a store
//! that serves every request, and that nobody else writes to, holds
//! afterwards and answers; the laws of the alias and dialogue modules are
//! stated over it.

use vstd::prelude::*;

verus! {

/// Asks the store to put `value` into `field` of the hash `key`, in place of
/// whatever the field held.
#[derive(Debug, PartialEq, Eq)]
pub struct SetField {
    pub key: String,
    pub field: String,
    pub value: String,
}

/// Asks the store for the value of `field` of the hash `key`.
#[derive(Debug, PartialEq, Eq)]
pub struct GetField {
    pub key: String,
    pub field: String,
}

/// Asks the store to delete `field` from the hash `key`.
#[derive(Debug, PartialEq, Eq)]
pub struct DeleteField {
    pub key: String,
    pub field: String,
}

/// A [`SetField`] as text.
pub struct SetFieldView {
    pub key: Seq<char>,
    pub field: Seq<char>,
    pub value: Seq<char>,
}

/// A [`GetField`] as text.
pub struct GetFieldView {
    pub key: Seq<char>,
    pub field: Seq<char>,
}

/// A [`DeleteField`] as text.
pub struct DeleteFieldView {
    pub key: Seq<char>,
    pub field: Seq<char>,
}

impl View for SetField {
    type V = SetFieldView;

    open spec fn view(&self) -> SetFieldView {
        SetFieldView { key: self.key@, field: self.field@, value: self.value@ }
    }
}

impl View for GetField {
    type V = GetFieldView;

    open spec fn view(&self) -> GetFieldView {
        GetFieldView { key: self.key@, field: self.field@ }
    }
}

impl View for DeleteField {
    type V = DeleteFieldView;

    open spec fn view(&self) -> DeleteFieldView {
        DeleteFieldView { key: self.key@, field: self.field@ }
    }
}

impl Clone for SetField {
    fn clone(&self) -> (copy: Self)
        ensures
            copy == *self,
    {
        SetField { key: self.key.clone(), field: self.field.clone(), value: self.value.clone() }
    }
}

impl Clone for GetField {
    fn clone(&self) -> (copy: Self)
        ensures
            copy == *self,
    {
        GetField { key: self.key.clone(), field: self.field.clone() }
    }
}

impl Clone for DeleteField {
    fn clone(&self) -> (copy: Self)
        ensures
            copy == *self,
    {
        DeleteField { key: self.key.clone(), field: self.field.clone() }
    }
}

/// What a store holds: the value of every field that exists, by the key of
/// its hash and its name.
pub type HashContents = Map<(Seq<char>, Seq<char>), Seq<char>>;

impl SetFieldView {
    /// What the store holds once it has served this request.
    pub open spec fn applied(self, contents: HashContents) -> HashContents {
        contents.insert((self.key, self.field), self.value)
    }
}

impl GetFieldView {
    /// What the store answers: the value of the field, if the field exists.
    pub open spec fn answer(self, contents: HashContents) -> Option<Seq<char>> {
        if contents.contains_key((self.key, self.field)) {
            Some(contents[(self.key, self.field)])
        } else {
            None
        }
    }
}

impl DeleteFieldView {
    /// What the store holds once it has served this request.
    pub open spec fn applied(self, contents: HashContents) -> HashContents {
        contents.remove((self.key, self.field))
    }

    /// What the store answers: the number of fields it deleted.
    pub open spec fn answer(self, contents: HashContents) -> int {
        if contents.contains_key((self.key, self.field)) {
            1
        } else {
            0
        }
    }
}

/// What the store holds after a run of writes, of which it served those
/// marked in `served`, in order, and dropped the others.
pub open spec fn applied_where(
    requests: Seq<SetFieldView>,
    served: Seq<bool>,
    contents: HashContents,
) -> HashContents
    recommends
        served.len() == requests.len(),
    decreases requests.len(),
{
    if requests.len() == 0 {
        contents
    } else {
        let before = applied_where(requests.drop_last(), served.drop_last(), contents);
        if served.last() {
            requests.last().applied(before)
        } else {
            before
        }
    }
}

/// Whether `reply` is a store's answer `answer` to a [`GetField`], come
/// back without an error.
pub open spec fn carries_value(
    reply: Result<Option<String>, redis::RedisError>,
    answer: Option<Seq<char>>,
) -> bool {
    match reply {
        Ok(Some(value)) => answer == Some(value@),
        Ok(None) => answer is None,
        Err(_) => false,
    }
}

/// Whether `reply` is a store's answer `answer` to a [`DeleteField`], come
/// back without an error.
pub open spec fn carries_count(reply: Result<i64, redis::RedisError>, answer: int) -> bool {
    match reply {
        Ok(count) => answer == count,
        Err(_) => false,
    }
}

} // verus!
