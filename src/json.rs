use vstd::prelude::*;

verus! {

/// A parsed JSON document.
#[derive(Debug)]
pub enum Json {
    Null,
    Bool(bool),
    /// An integral number.
    Int(i128),
    /// A number with a fraction or an exponent, kept as its decimal text.
    Float(String),
    Str(String),
    Array(Vec<Json>),
    /// An object's members, in document order.
    Object(Vec<JsonMember>),
}

/// One `"key": value` member of a JSON object.
#[derive(Debug)]
pub struct JsonMember {
    pub key: String,
    pub value: Json,
}

/// The value of the first member named `key` at or after position `i`.
pub open spec fn lookup_from(ms: Seq<JsonMember>, key: Seq<char>, i: int) -> Option<Json>
    decreases ms.len() - i,
{
    if i < 0 || i >= ms.len() {
        None
    } else if ms[i].key@ == key {
        Some(ms[i].value)
    } else {
        lookup_from(ms, key, i + 1)
    }
}

/// The value of the first member named `key`.
pub open spec fn lookup(ms: Seq<JsonMember>, key: Seq<char>) -> Option<Json> {
    lookup_from(ms, key, 0)
}

/// The member `key` of `j`, when `j` is an object that has one.
pub open spec fn member(j: Json, key: Seq<char>) -> Option<Json> {
    match j {
        Json::Object(ms) => lookup(ms@, key),
        _ => None,
    }
}

/// The integer that `j` holds, when it is an integral number in `lo..=hi`.
pub open spec fn int_in(j: Json, lo: int, hi: int) -> Option<int> {
    match j {
        Json::Int(n) => if lo <= n <= hi {
            Some(n as int)
        } else {
            None
        },
        _ => None,
    }
}

/// The text that `j` holds, when it is a string.
pub open spec fn text_of(j: Json) -> Option<Seq<char>> {
    match j {
        Json::Str(s) => Some(s@),
        _ => None,
    }
}

impl Json {
    /// The member `key` of this value, when it is an object that has one.
    pub fn get(&self, key: &str) -> (r: Option<&Json>)
        ensures
            match r {
                Some(v) => member(*self, key@) == Some(*v),
                None => member(*self, key@) is None,
            },
    {
        match self {
            Json::Object(ms) => {
                let mut i: usize = 0;
                while i < ms.len()
                    invariant
                        i <= ms.len(),
                        lookup_from(ms@, key@, i as int) == lookup(ms@, key@),
                        member(*self, key@) == lookup(ms@, key@),
                    decreases ms.len() - i,
                {
                    if crate::text::same_text(ms[i].key.as_str(), key) {
                        assert(lookup_from(ms@, key@, i as int) == Some(ms@[i as int].value));
                        return Some(&ms[i].value);
                    }
                    i = i + 1;
                }
                None
            },
            _ => None,
        }
    }

    /// The value as a `u32`, when it is an integral number in range.
    pub fn as_u32(&self) -> (r: Option<u32>)
        ensures
            match r {
                Some(n) => int_in(*self, 0, u32::MAX as int) == Some(n as int),
                None => int_in(*self, 0, u32::MAX as int) is None,
            },
    {
        match self {
            Json::Int(n) => if 0 <= *n && *n <= u32::MAX as i128 {
                Some(*n as u32)
            } else {
                None
            },
            _ => None,
        }
    }

    /// The value as a `u64`, when it is an integral number in range.
    pub fn as_u64(&self) -> (r: Option<u64>)
        ensures
            match r {
                Some(n) => int_in(*self, 0, u64::MAX as int) == Some(n as int),
                None => int_in(*self, 0, u64::MAX as int) is None,
            },
    {
        match self {
            Json::Int(n) => if 0 <= *n && *n <= u64::MAX as i128 {
                Some(*n as u64)
            } else {
                None
            },
            _ => None,
        }
    }

    /// A copy of the text, when the value is a string.
    pub fn as_text(&self) -> (r: Option<String>)
        ensures
            match r {
                Some(s) => text_of(*self) == Some(s@),
                None => text_of(*self) is None,
            },
    {
        match self {
            Json::Str(s) => Some(s.clone()),
            _ => None,
        }
    }
}

} // verus!
