use vstd::prelude::*;
use crate::json::{Json, member};
use crate::keyed::{Keyed, find, value_of};
use crate::model::{FromJson, text_member};
use crate::text::{lower_of, lowercase, same_text};

verus! {

/// What a user asked for.
#[derive(PartialEq, Eq, Structural, Clone, Copy, Debug)]
pub enum Intent {
    SetField,
    GetField,
    FindDeviceType,
    Logout,
    ForcedLogout,
    GetSelf,
    Unknown,
}

impl Default for Intent {
    fn default() -> (r: Intent)
        ensures
            r == Intent::Unknown,
    {
        Intent::Unknown
    }
}

/// The intent recognised in a message, with the hints that came with it.
#[derive(Debug)]
pub struct NlpResponse {
    pub intent: Intent,
    /// Fragments of the name of the device meant.
    pub device: Option<Vec<String>>,
    pub value: Option<String>,
    /// The name of the field meant.
    pub field: Option<String>,
    /// Free text about an intent that was not understood.
    pub meta: Option<Vec<String>>,
}

impl Default for NlpResponse {
    fn default() -> (r: NlpResponse)
        ensures
            r.intent == Intent::Unknown,
            r.device is None,
            r.value is None,
            r.field is None,
            r.meta is None,
    {
        NlpResponse { intent: Intent::Unknown, device: None, value: None, field: None, meta: None }
    }
}

/// The answer of the language service: for each entity it recognised, the
/// candidate values, best first.
#[derive(Debug)]
pub struct Response {
    pub msg_id: String,
    pub text: String,
    pub entities: Vec<Keyed<Vec<String>>>,
}

/// A response with only `intent` set.
pub open spec fn bare(n: NlpResponse, intent: Intent) -> bool {
    n.intent == intent && n.device is None && n.value is None && n.field is None && n.meta is None
}

/// `ds` holds the lowercased values of `vs`, one for one.
pub open spec fn lowered(vs: Seq<String>, ds: Seq<String>) -> bool {
    &&& ds.len() == vs.len()
    &&& forall|i: int| 0 <= i < vs.len() ==> (#[trigger] ds[i])@ == lower_of(vs[i]@)
}

/// The device hints read from the `target` entity.
pub open spec fn device_hints_read(target: Option<Vec<String>>, device: Option<Vec<String>>) -> bool {
    match target {
        Some(vs) => device is Some && lowered(vs@, device->0@),
        None => device is None,
    }
}

/// The field hint read from the `field` entity: its first value, lowercased.
pub open spec fn field_hint_read(field_entity: Option<Vec<String>>, field: Option<String>) -> bool {
    match field_entity {
        Some(vs) => if vs@.len() > 0 {
            field is Some && field->0@ == lower_of(vs@[0]@)
        } else {
            field is None
        },
        None => field is None,
    }
}

/// `vs` is the single value `word`.
pub open spec fn only(vs: Seq<String>, word: Seq<char>) -> bool {
    vs.len() == 1 && vs[0]@ == word
}

/// `n` is how the language service's answer `resp` is understood.
pub open spec fn understood(resp: Response, n: NlpResponse) -> bool {
    match value_of(resp.entities@, "intent"@) {
        None => bare(n, Intent::Unknown),
        Some(vs) => if only(vs@, "get_self"@) {
            bare(n, Intent::GetSelf)
        } else if only(vs@, "logout"@) {
            bare(n, Intent::Logout)
        } else if only(vs@, "get_field"@) {
            &&& n.intent == Intent::GetField
            &&& device_hints_read(value_of(resp.entities@, "target"@), n.device)
            &&& field_hint_read(value_of(resp.entities@, "field"@), n.field)
            &&& n.value is None
            &&& n.meta is None
        } else {
            &&& n.intent == Intent::Unknown
            &&& n.meta is Some
            &&& n.meta->0@ == vs@
            &&& n.device is None
            &&& n.value is None
            &&& n.field is None
        },
    }
}

/// A copy of a list of texts.
pub fn copy_texts(vs: &Vec<String>) -> (r: Vec<String>)
    ensures
        r@ == vs@,
{
    let mut out: Vec<String> = Vec::new();
    let mut i: usize = 0;
    while i < vs.len()
        invariant
            i <= vs@.len(),
            out@ == vs@.take(i as int),
        decreases vs.len() - i,
    {
        out.push(vs[i].clone());
        i = i + 1;
        assert(out@ =~= vs@.take(i as int));
    }
    assert(vs@.take(i as int) =~= vs@);
    out
}

fn lower_all(vs: &Vec<String>) -> (r: Vec<String>)
    ensures
        lowered(vs@, r@),
{
    let mut out: Vec<String> = Vec::new();
    let mut i: usize = 0;
    while i < vs.len()
        invariant
            i <= vs@.len(),
            out@.len() == i,
            forall|k: int| 0 <= k < i ==> (#[trigger] out@[k])@ == lower_of(vs@[k]@),
        decreases vs.len() - i,
    {
        out.push(lowercase(vs[i].as_str()));
        i = i + 1;
    }
    out
}

fn is_only(vs: &Vec<String>, word: &str) -> (r: bool)
    ensures
        r == only(vs@, word@),
{
    vs.len() == 1 && same_text(vs[0].as_str(), word)
}

impl NlpResponse {
    /// Understands the language service's answer: a single intent value
    /// `get_self`, `logout` or `get_field` names the intent (with, for
    /// `get_field`, the lowercased `target` values as device hints and the
    /// first lowercased `field` value as field hint); any other intent values
    /// make an unknown intent that carries them; no intent entity makes an
    /// unknown intent alone.
    pub fn from_response(response: Response) -> (r: NlpResponse)
        ensures
            understood(response, r),
    {
        let values = match find(&response.entities, "intent") {
            Some(vs) => vs,
            None => return NlpResponse::default(),
        };
        if is_only(values, "get_self") {
            NlpResponse { intent: Intent::GetSelf, ..NlpResponse::default() }
        } else if is_only(values, "logout") {
            NlpResponse { intent: Intent::Logout, ..NlpResponse::default() }
        } else if is_only(values, "get_field") {
            let device = match find(&response.entities, "target") {
                Some(vs) => Some(lower_all(vs)),
                None => None,
            };
            let field = match find(&response.entities, "field") {
                Some(vs) => if vs.len() > 0 {
                    Some(lowercase(vs[0].as_str()))
                } else {
                    None
                },
                None => None,
            };
            NlpResponse { intent: Intent::GetField, device, field, ..NlpResponse::default() }
        } else {
            NlpResponse { intent: Intent::Unknown, meta: Some(copy_texts(values)), ..NlpResponse::default() }
        }
    }
}

/// `vs` are the `value` texts of the candidates listed in `j`, in order.
pub open spec fn candidate_values(j: Json, vs: Seq<String>) -> bool {
    match j {
        Json::Array(xs) => {
            &&& vs.len() == xs@.len()
            &&& forall|k: int| 0 <= k < xs@.len() ==> text_member(xs@[k], "value"@) == Some((#[trigger] vs[k])@)
        },
        _ => false,
    }
}

/// `es` lists, for each member of the object `j`, its name and candidate values.
pub open spec fn entities_read(j: Json, es: Seq<Keyed<Vec<String>>>) -> bool {
    match j {
        Json::Object(ms) => {
            &&& es.len() == ms@.len()
            &&& forall|i: int|
                0 <= i < ms@.len() ==> (#[trigger] es[i]).key@ == ms@[i].key@ && candidate_values(
                    ms@[i].value,
                    es[i].value@,
                )
        },
        _ => false,
    }
}

fn read_candidates(j: &Json) -> (r: Option<Vec<String>>)
    ensures
        match r {
            Some(vs) => candidate_values(*j, vs@),
            None => forall|vs: Seq<String>| !#[trigger] candidate_values(*j, vs),
        },
{
    let xs = match j {
        Json::Array(xs) => xs,
        _ => return None,
    };
    let mut out: Vec<String> = Vec::new();
    let mut k: usize = 0;
    while k < xs.len()
        invariant
            *j == Json::Array(*xs),
            k <= xs@.len(),
            out@.len() == k,
            forall|m: int| 0 <= m < k ==> text_member(xs@[m], "value"@) == Some((#[trigger] out@[m])@),
        decreases xs.len() - k,
    {
        let text = match xs[k].get("value") {
            Some(v) => v.as_text(),
            None => None,
        };
        match text {
            Some(t) => out.push(t),
            None => {
                assert forall|vs: Seq<String>| !#[trigger] candidate_values(*j, vs) by {
                    if vs.len() == xs@.len() {
                        assert(text_member(xs@[k as int], "value"@) != Some(vs[k as int]@));
                    }
                }
                return None;
            },
        }
        k = k + 1;
    }
    Some(out)
}

impl FromJson for Response {
    open spec fn decodes_to(j: Json, v: Response) -> bool {
        &&& text_member(j, "msg_id"@) == Some(v.msg_id@)
        &&& text_member(j, "_text"@) == Some(v.text@)
        &&& member(j, "entities"@) is Some
        &&& entities_read(member(j, "entities"@)->0, v.entities@)
    }

    fn from_json(j: &Json) -> (r: Option<Response>) {
        let msg_id = match j.get("msg_id") {
            Some(v) => v.as_text(),
            None => None,
        };
        let text = match j.get("_text") {
            Some(v) => v.as_text(),
            None => None,
        };
        let (msg_id, text) = match (msg_id, text) {
            (Some(m), Some(t)) => (m, t),
            _ => return None,
        };
        let ms = match j.get("entities") {
            Some(Json::Object(ms)) => ms,
            _ => return None,
        };
        let mut entities: Vec<Keyed<Vec<String>>> = Vec::new();
        let mut i: usize = 0;
        while i < ms.len()
            invariant
                member(*j, "entities"@) == Some(Json::Object(*ms)),
                i <= ms@.len(),
                entities@.len() == i,
                forall|m: int|
                    0 <= m < i ==> (#[trigger] entities@[m]).key@ == ms@[m].key@ && candidate_values(
                        ms@[m].value,
                        entities@[m].value@,
                    ),
            decreases ms.len() - i,
        {
            match read_candidates(&ms[i].value) {
                Some(vs) => entities.push(Keyed { key: ms[i].key.clone(), value: vs }),
                None => {
                    assert forall|v: Response| !#[trigger] Response::decodes_to(*j, v) by {
                        if entities_read(Json::Object(*ms), v.entities@) {
                            assert(candidate_values(ms@[i as int].value, v.entities@[i as int].value@));
                        }
                    }
                    return None;
                },
            }
            i = i + 1;
        }
        Some(Response { msg_id, text, entities })
    }
}

} // verus!
