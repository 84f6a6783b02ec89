use vstd::prelude::*;
use crate::json::{Json, JsonMember, member, lookup, int_in, text_of};
use crate::text::{decimal, debug_text_of, int_text, debug_quoted};

verus! {

/// The text member `key` of `j`.
pub open spec fn text_member(j: Json, key: Seq<char>) -> Option<Seq<char>> {
    match member(j, key) {
        Some(v) => text_of(v),
        None => None,
    }
}

/// A value that can be read out of a parsed JSON document.
pub trait FromJson: Sized {
    /// `v` is what `j` reads as.
    spec fn decodes_to(j: Json, v: Self) -> bool;

    /// Reads `j`, or gives `None` when `j` has the wrong shape.
    fn from_json(j: &Json) -> (r: Option<Self>)
        ensures
            match r {
                Some(v) => Self::decodes_to(*j, v),
                None => forall|v: Self| !#[trigger] Self::decodes_to(*j, v),
            },
    ;
}

/// The signed-in user.
#[derive(Debug)]
pub struct User {
    pub id: String,
    pub full_name: String,
    pub email: String,
}

impl Clone for User {
    fn clone(&self) -> (r: Self)
        ensures
            r == *self,
    {
        User { id: self.id.clone(), full_name: self.full_name.clone(), email: self.email.clone() }
    }
}

impl FromJson for User {
    open spec fn decodes_to(j: Json, v: User) -> bool {
        &&& text_member(j, "id"@) == Some(v.id@)
        &&& text_member(j, "fullName"@) == Some(v.full_name@)
        &&& text_member(j, "email"@) == Some(v.email@)
    }

    fn from_json(j: &Json) -> (r: Option<User>) {
        let id = match j.get("id") {
            Some(v) => v.as_text(),
            None => None,
        };
        let full_name = match j.get("fullName") {
            Some(v) => v.as_text(),
            None => None,
        };
        let email = match j.get("email") {
            Some(v) => v.as_text(),
            None => None,
        };
        match (id, full_name, email) {
            (Some(id), Some(full_name), Some(email)) => Some(User { id, full_name, email }),
            _ => None,
        }
    }
}

/// A device registered to a user.
#[derive(Debug)]
pub struct Device {
    pub id: String,
    pub dtid: String,
    pub name: String,
}

impl Clone for Device {
    fn clone(&self) -> (r: Self)
        ensures
            r == *self,
    {
        Device { id: self.id.clone(), dtid: self.dtid.clone(), name: self.name.clone() }
    }
}

impl FromJson for Device {
    open spec fn decodes_to(j: Json, v: Device) -> bool {
        &&& text_member(j, "id"@) == Some(v.id@)
        &&& text_member(j, "dtid"@) == Some(v.dtid@)
        &&& text_member(j, "name"@) == Some(v.name@)
    }

    fn from_json(j: &Json) -> (r: Option<Device>) {
        let id = match j.get("id") {
            Some(v) => v.as_text(),
            None => None,
        };
        let dtid = match j.get("dtid") {
            Some(v) => v.as_text(),
            None => None,
        };
        let name = match j.get("name") {
            Some(v) => v.as_text(),
            None => None,
        };
        match (id, dtid, name) {
            (Some(id), Some(dtid), Some(name)) => Some(Device { id, dtid, name }),
            _ => None,
        }
    }
}

/// A kind of device known to the platform.
#[derive(Debug)]
pub struct DeviceType {
    pub id: String,
    pub unique_name: String,
    pub name: String,
}

impl FromJson for DeviceType {
    open spec fn decodes_to(j: Json, v: DeviceType) -> bool {
        &&& text_member(j, "id"@) == Some(v.id@)
        &&& text_member(j, "uniqueName"@) == Some(v.unique_name@)
        &&& text_member(j, "name"@) == Some(v.name@)
    }

    fn from_json(j: &Json) -> (r: Option<DeviceType>) {
        let id = match j.get("id") {
            Some(v) => v.as_text(),
            None => None,
        };
        let unique_name = match j.get("uniqueName") {
            Some(v) => v.as_text(),
            None => None,
        };
        let name = match j.get("name") {
            Some(v) => v.as_text(),
            None => None,
        };
        match (id, unique_name, name) {
            (Some(id), Some(unique_name), Some(name)) => Some(DeviceType { id, unique_name, name }),
            _ => None,
        }
    }
}

/// The value of a telemetry leaf.
#[derive(Debug)]
pub enum FieldValue {
    /// A number with a fraction or an exponent, as its decimal text.
    Float(String),
    Int(i64),
    String(String),
    Boolean(bool),
}

impl Clone for FieldValue {
    fn clone(&self) -> (r: Self)
        ensures
            r == *self,
    {
        match self {
            FieldValue::Float(s) => FieldValue::Float(s.clone()),
            FieldValue::Int(i) => FieldValue::Int(*i),
            FieldValue::String(s) => FieldValue::String(s.clone()),
            FieldValue::Boolean(b) => FieldValue::Boolean(*b),
        }
    }
}

/// How a leaf value is shown to a user: numbers and booleans as written,
/// strings quoted.
pub open spec fn value_text(v: FieldValue) -> Seq<char> {
    match v {
        FieldValue::Float(s) => s@,
        FieldValue::Int(i) => decimal(i as int),
        FieldValue::String(s) => debug_text_of(s@),
        FieldValue::Boolean(b) => if b {
            "true"@
        } else {
            "false"@
        },
    }
}

/// `v` is what the JSON scalar `j` reads as.
pub open spec fn value_decodes(j: Json, v: FieldValue) -> bool {
    match j {
        Json::Int(n) => if i64::MIN <= n <= i64::MAX {
            v == FieldValue::Int(n as i64)
        } else {
            v is Float && v->Float_0@ == decimal(n as int)
        },
        Json::Float(s) => v is Float && v->Float_0@ == s@,
        Json::Str(s) => v is String && v->String_0@ == s@,
        Json::Bool(b) => v == FieldValue::Boolean(b),
        _ => false,
    }
}

/// `j` is a scalar that a leaf can hold.
pub open spec fn is_scalar(j: Json) -> bool {
    j is Int || j is Float || j is Str || j is Bool
}

/// `t` is what an optional timestamp member reads as.
pub open spec fn ts_decodes(o: Option<Json>, t: Option<u64>) -> bool {
    match o {
        None => t is None,
        Some(Json::Null) => t is None,
        Some(j) => int_in(j, 0, u64::MAX as int) is Some && t == Some(
            int_in(j, 0, u64::MAX as int)->0 as u64,
        ),
    }
}

/// An optional timestamp member is absent, null, or a `u64`.
pub open spec fn ts_ok(o: Option<Json>) -> bool {
    match o {
        None => true,
        Some(Json::Null) => true,
        Some(j) => int_in(j, 0, u64::MAX as int) is Some,
    }
}

/// The members of an object make a leaf: a scalar `value`, and a `ts` that is
/// absent, null or a `u64`. Any other object is a group.
pub open spec fn is_leaf(ms: Seq<JsonMember>) -> bool {
    &&& lookup(ms, "value"@) is Some
    &&& is_scalar(lookup(ms, "value"@)->0)
    &&& ts_ok(lookup(ms, "ts"@))
}

impl FieldValue {
    /// Reads a JSON scalar as a leaf value.
    pub fn from_json(j: &Json) -> (r: Option<FieldValue>)
        ensures
            match r {
                Some(v) => value_decodes(*j, v),
                None => !is_scalar(*j),
            },
    {
        match j {
            Json::Int(n) => if i64::MIN as i128 <= *n && *n <= i64::MAX as i128 {
                Some(FieldValue::Int(*n as i64))
            } else {
                Some(FieldValue::Float(int_text(*n)))
            },
            Json::Float(s) => Some(FieldValue::Float(s.clone())),
            Json::Str(s) => Some(FieldValue::String(s.clone())),
            Json::Bool(b) => Some(FieldValue::Boolean(*b)),
            _ => None,
        }
    }

    /// The value as it is shown to a user.
    pub fn text(&self) -> (r: String)
        ensures
            r@ == value_text(*self),
    {
        match self {
            FieldValue::Float(s) => s.clone(),
            FieldValue::Int(i) => int_text(*i as i128),
            FieldValue::String(s) => debug_quoted(s.as_str()),
            FieldValue::Boolean(b) => if *b {
                String::from_str("true")
            } else {
                String::from_str("false")
            },
        }
    }
}

/// A node of a telemetry tree: a timestamped leaf value, or a group of named
/// sub-nodes.
#[derive(Debug)]
pub enum FieldData {
    Field { ts: Option<u64>, value: FieldValue },
    Group(Vec<FieldEntry>),
}

/// One named child of a group.
#[derive(Debug)]
pub struct FieldEntry {
    pub name: String,
    pub data: FieldData,
}

impl FromJson for FieldData {
    open spec fn decodes_to(j: Json, v: FieldData) -> bool
        decreases j,
    {
        match j {
            Json::Object(ms) => if is_leaf(ms@) {
                &&& v is Field
                &&& ts_decodes(lookup(ms@, "ts"@), v->ts)
                &&& value_decodes(lookup(ms@, "value"@)->0, v->value)
            } else {
                &&& v is Group
                &&& v->Group_0@.len() == ms@.len()
                &&& forall|i: int|
                    0 <= i < ms@.len() ==> {
                        &&& (#[trigger] v->Group_0@[i]).name@ == ms@[i].key@
                        &&& Self::decodes_to(ms@[i].value, v->Group_0@[i].data)
                    }
            },
            _ => false,
        }
    }

    fn from_json(j: &Json) -> (r: Option<FieldData>)
        decreases j,
    {
        match j {
            Json::Object(ms) => {
                let value = j.get("value");
                let ts = j.get("ts");
                let ts_val: Option<Option<u64>> = match ts {
                    None => Some(None),
                    Some(Json::Null) => Some(None),
                    Some(t) => match t.as_u64() {
                        Some(n) => Some(Some(n)),
                        None => None,
                    },
                };
                if let (Some(v), Some(t)) = (value, ts_val) {
                    if let Some(fv) = FieldValue::from_json(v) {
                        return Some(FieldData::Field { ts: t, value: fv });
                    }
                }
                assert(!is_leaf(ms@));
                let mut entries: Vec<FieldEntry> = Vec::new();
                let mut i: usize = 0;
                while i < ms.len()
                    invariant
                        *j == Json::Object(*ms),
                        !is_leaf(ms@),
                        i <= ms.len(),
                        entries@.len() == i,
                        forall|k: int|
                            0 <= k < i ==> {
                                &&& (#[trigger] entries@[k]).name@ == ms@[k].key@
                                &&& FieldData::decodes_to(ms@[k].value, entries@[k].data)
                            },
                    decreases ms.len() - i,
                {
                    proof {
                        let ghost whole = *j;
                        assert(decreases_to!(whole => whole->Object_0));
                        assert(decreases_to!(whole->Object_0 => whole->Object_0@));
                        assert(decreases_to!(ms@ => ms@[i as int]));
                        assert(decreases_to!(ms@[i as int] => ms@[i as int].value));
                    }
                    match FieldData::from_json(&ms[i].value) {
                        Some(d) => {
                            entries.push(FieldEntry { name: ms[i].key.clone(), data: d });
                        },
                        None => {
                            assert forall|v: FieldData| !#[trigger] FieldData::decodes_to(*j, v) by {
                                if v is Group && v->Group_0@.len() == ms@.len() {
                                    assert(!FieldData::decodes_to(
                                        ms@[i as int].value,
                                        v->Group_0@[i as int].data,
                                    ));
                                }
                            }
                            return None;
                        },
                    }
                    i = i + 1;
                }
                Some(FieldData::Group(entries))
            },
            _ => None,
        }
    }
}

/// The latest readings of one device.
#[derive(Debug)]
pub struct Snapshot {
    pub sdid: String,
    pub data: FieldData,
}

impl FromJson for Snapshot {
    open spec fn decodes_to(j: Json, v: Snapshot) -> bool {
        &&& text_member(j, "sdid"@) == Some(v.sdid@)
        &&& member(j, "data"@) is Some
        &&& FieldData::decodes_to(member(j, "data"@)->0, v.data)
    }

    fn from_json(j: &Json) -> (r: Option<Snapshot>) {
        let sdid = match j.get("sdid") {
            Some(v) => v.as_text(),
            None => None,
        };
        let data = match j.get("data") {
            Some(v) => FieldData::from_json(v),
            None => None,
        };
        match (sdid, data) {
            (Some(sdid), Some(data)) => Some(Snapshot { sdid, data }),
            _ => None,
        }
    }
}

} // verus!
