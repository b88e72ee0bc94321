//! A minimal JSON value model.
//!
//! The inbound storage event and the outbound acknowledgment are JSON-like
//! objects. This module gives them a concrete shape the verifier can reason
//! about: an object is a sequence of key/value pairs, a lookup returns the
//! first pair whose key matches, and anything else (a missing key, an index
//! out of range, a value of the wrong kind) is `None`.

use vstd::prelude::*;

verus! {

/// One JSON value. An object keeps its fields in order and may, like the
/// wire format itself, carry a key twice; lookups take the first match.
#[derive(Debug, PartialEq, Eq)]
pub enum Json {
    Null,
    Bool(bool),
    Int(i64),
    Str(String),
    Arr(Vec<Json>),
    Obj(Vec<(String, Json)>),
}

/// First value bound to `key` in a field list, scanning left to right.
pub open spec fn spec_lookup(fields: Seq<(String, Json)>, key: Seq<char>) -> Option<Json>
    decreases fields.len(),
{
    if fields.len() == 0 {
        Option::None
    } else if fields[0].0@ == key {
        Option::Some(fields[0].1)
    } else {
        spec_lookup(fields.skip(1), key)
    }
}

impl Json {
    /// Value bound to `key`, when `self` is an object that has one.
    pub open spec fn spec_get(self, key: Seq<char>) -> Option<Json> {
        match self {
            Json::Obj(fields) => spec_lookup(fields@, key),
            _ => Option::None,
        }
    }

    /// Element `i`, when `self` is an array long enough.
    pub open spec fn spec_at(self, i: int) -> Option<Json> {
        match self {
            Json::Arr(items) => if 0 <= i < items@.len() {
                Option::Some(items@[i])
            } else {
                Option::None
            },
            _ => Option::None,
        }
    }

    /// The characters of `self`, when `self` is a string.
    pub open spec fn spec_str(self) -> Option<Seq<char>> {
        match self {
            Json::Str(s) => Option::Some(s@),
            _ => Option::None,
        }
    }

    /// Looks `key` up in an object; `None` on any other kind of value and
    /// on a missing key.
    pub fn get<'a>(&'a self, key: &str) -> (r: Option<&'a Json>)
        ensures
            match r {
                Option::Some(v) => self.spec_get(key@) == Option::Some(*v),
                Option::None => self.spec_get(key@) is None,
            },
    {
        match self {
            Json::Obj(fields) => {
                let k: String = key.to_owned();
                let n: usize = fields.len();
                let mut i: usize = 0;
                proof {
                    assert(fields@.skip(0) =~= fields@);
                }
                while i < n
                    invariant
                        0 <= i <= n,
                        n == fields@.len(),
                        k@ == key@,
                        self.spec_get(key@) == spec_lookup(fields@, key@),
                        spec_lookup(fields@, key@) == spec_lookup(
                            fields@.skip(i as int),
                            key@,
                        ),
                    decreases n - i,
                {
                    if fields[i].0 == k {
                        proof {
                            assert(fields@.skip(i as int)[0] == fields@[i as int]);
                        }
                        return Option::Some(&fields[i].1);
                    }
                    proof {
                        assert(fields@.skip(i as int).skip(1) =~= fields@.skip(i as int + 1));
                    }
                    i = i + 1;
                }
                proof {
                    assert(fields@.skip(n as int) =~= Seq::<(String, Json)>::empty());
                }
                Option::None
            },
            _ => Option::None,
        }
    }

    /// Element `i` of an array; `None` on any other kind of value and out
    /// of range.
    pub fn at<'a>(&'a self, i: usize) -> (r: Option<&'a Json>)
        ensures
            match r {
                Option::Some(v) => self.spec_at(i as int) == Option::Some(*v),
                Option::None => self.spec_at(i as int) is None,
            },
    {
        match self {
            Json::Arr(items) => if i < items.len() {
                Option::Some(&items[i])
            } else {
                Option::None
            },
            _ => Option::None,
        }
    }

    /// The string inside `self`, when there is one.
    pub fn as_str<'a>(&'a self) -> (r: Option<&'a String>)
        ensures
            match r {
                Option::Some(s) => self.spec_str() == Option::Some(s@),
                Option::None => self.spec_str() is None,
            },
    {
        match self {
            Json::Str(s) => Option::Some(s),
            _ => Option::None,
        }
    }
}

} // verus!
