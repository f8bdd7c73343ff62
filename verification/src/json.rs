//! A model of JSON values as plain data.
//!
//! The remote service speaks JSON.  The surrounding process turns the wire
//! form into this type and back; the logic here reads and builds it as
//! ordinary verified code.  Numbers that fit a signed 64-bit integer are held
//! exactly; any other number is kept only as the fact that it was a number
//! ([`Json::OtherNumber`]), which is all the parsing here asks of one.

use vstd::prelude::*;

verus! {

/// One JSON value.
#[derive(Debug)]
pub enum Json {
    Null,
    Bool(bool),
    Int(i64),
    OtherNumber,
    Str(String),
    Arr(Vec<Json>),
    Obj(Vec<(String, Json)>),
}

/// The value under the first entry of `entries` whose key reads `key`, or
/// null when there is none.
pub open spec fn entries_lookup(entries: Seq<(String, Json)>, key: Seq<char>) -> Json
    decreases entries.len(),
{
    if entries.len() == 0 {
        Json::Null
    } else if entries[0].0@ == key {
        entries[0].1
    } else {
        entries_lookup(entries.drop_first(), key)
    }
}

/// The member of `j` under `key`: null when `j` is not an object or has no
/// such member.  This is how the wire library's indexing reads a value, so
/// the parsing specifications are all phrased over it.
pub open spec fn lookup(j: Json, key: Seq<char>) -> Json {
    match j {
        Json::Obj(entries) => entries_lookup(entries@, key),
        _ => Json::Null,
    }
}

/// The integer a value holds, when it holds one exactly.
pub open spec fn spec_as_int(j: Json) -> Option<i64> {
    match j {
        Json::Int(n) => Option::Some(n),
        _ => Option::None,
    }
}

/// A lookup among entries none of whose keys is `key` reads null.
pub proof fn lemma_entries_lookup_absent(entries: Seq<(String, Json)>, key: Seq<char>)
    requires
        forall|i: int| #![trigger entries[i]] 0 <= i < entries.len() ==> entries[i].0@ != key,
    ensures
        entries_lookup(entries, key) is Null,
    decreases entries.len(),
{
    if entries.len() > 0 {
        lemma_entries_lookup_absent(entries.drop_first(), key);
    }
}

/// A lookup reads the value of the first entry whose key is `key`.
pub proof fn lemma_entries_lookup_first_match(entries: Seq<(String, Json)>, key: Seq<char>, i: int)
    requires
        0 <= i < entries.len(),
        forall|j: int| #![trigger entries[j]] 0 <= j < i ==> entries[j].0@ != key,
        entries[i].0@ == key,
    ensures
        entries_lookup(entries, key) == entries[i].1,
    decreases i,
{
    if i > 0 {
        lemma_entries_lookup_first_match(entries.drop_first(), key, i - 1);
    }
}

/// A lookup walks past a first entry whose key is not the one looked up.
pub proof fn lemma_lookup_cons_miss(entries: Seq<(String, Json)>, key: Seq<char>)
    requires
        entries.len() > 0,
        entries[0].0@ != key,
    ensures
        entries_lookup(entries, key) == entries_lookup(entries.drop_first(), key),
{
}

/// A lookup reads the value of a first entry whose key is the one looked
/// up.
pub proof fn lemma_lookup_cons_hit(entries: Seq<(String, Json)>, key: Seq<char>)
    requires
        entries.len() > 0,
        entries[0].0@ == key,
    ensures
        entries_lookup(entries, key) == entries[0].1,
{
}

impl Json {
    /// The member under `key`, if `self` is an object that has one; a
    /// caller that treats `None` as a null member reads this exactly as
    /// [`lookup`] does.
    pub fn get<'a>(&'a self, key: &str) -> (r: Option<&'a Json>)
        ensures
            match r {
                Option::Some(v) => *v == lookup(*self, key@),
                Option::None => lookup(*self, key@) is Null,
            },
    {
        match self {
            Json::Obj(entries) => {
                let k = String::from_str(key);
                let mut i: usize = 0;
                while i < entries.len()
                    invariant
                        i <= entries.len(),
                        k@ == key@,
                        *self is Obj,
                        (*self)->Obj_0 == *entries,
                        forall|j: int| 0 <= j < i ==> entries@[j].0@ != key@,
                    decreases entries.len() - i,
                {
                    if entries[i].0 == k {
                        proof {
                            lemma_entries_lookup_first_match(entries@, key@, i as int);
                        }
                        return Some(&entries[i].1);
                    }
                    i = i + 1;
                }
                proof {
                    lemma_entries_lookup_absent(entries@, key@);
                }
                None
            },
            _ => None,
        }
    }

    /// The string this value holds, when it holds one.
    pub fn as_str(&self) -> (r: Option<&String>)
        ensures
            match *self {
                Json::Str(s) => r matches Some(v) && *v == s,
                _ => r is None,
            },
    {
        match self {
            Json::Str(s) => Some(s),
            _ => None,
        }
    }

    /// The integer this value holds exactly, when it holds one.
    pub fn as_int(&self) -> (r: Option<i64>)
        ensures
            r == spec_as_int(*self),
    {
        match self {
            Json::Int(n) => Some(*n),
            _ => None,
        }
    }
}

} // verus!
